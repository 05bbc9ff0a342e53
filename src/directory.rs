//! The entity directory: the metadata summary, the flat list of promoted
//! entities, and the edits of names and descriptions.

use vstd::prelude::*;
use crate::model::{AxisPts, Characteristic, Document, Measurement, Module, opt_text};
use crate::render::{decimal, decimal_string};
use crate::text::{same_text, trim_of, trim_text};

verus! {

/// The summary of a document that accompanies each load and edit.
pub struct A2lMetadata {
    pub project_name: String,
    pub project_long_identifier: String,
    pub module_names: Vec<String>,
    pub header_comment: Option<String>,
    pub asap2_version: Option<String>,
    pub warning_count: usize,
}

/// One promoted entity: a module, a measurement, a characteristic or an
/// axis points object.
pub struct CoreEntity {
    pub kind: String,
    pub name: String,
    pub long_identifier: Option<String>,
}

/// What an edit of the directory returns: the new summary and entity list.
pub struct EntityUpdateResult {
    pub metadata: A2lMetadata,
    pub entities: Vec<CoreEntity>,
}

pub struct MetadataView {
    pub project_name: Seq<char>,
    pub project_long_identifier: Seq<char>,
    pub module_names: Seq<Seq<char>>,
    pub header_comment: Option<Seq<char>>,
    pub asap2_version: Option<Seq<char>>,
    pub warning_count: nat,
}

pub struct EntityView {
    pub kind: Seq<char>,
    pub name: Seq<char>,
    pub long_identifier: Option<Seq<char>>,
}

impl View for A2lMetadata {
    type V = MetadataView;

    open spec fn view(&self) -> MetadataView {
        MetadataView {
            project_name: self.project_name@,
            project_long_identifier: self.project_long_identifier@,
            module_names: self.module_names@.map_values(|s: String| s@),
            header_comment: opt_text(self.header_comment),
            asap2_version: opt_text(self.asap2_version),
            warning_count: self.warning_count as nat,
        }
    }
}

impl View for CoreEntity {
    type V = EntityView;

    open spec fn view(&self) -> EntityView {
        EntityView { kind: self.kind@, name: self.name@, long_identifier: opt_text(self.long_identifier) }
    }
}

pub open spec fn entities_view(v: Seq<CoreEntity>) -> Seq<EntityView> {
    v.map_values(|e: CoreEntity| e@)
}

/// The header comment shown in the summary: trimmed, and absent when empty.
pub open spec fn header_text(comment: Option<String>) -> Option<Seq<char>> {
    match comment {
        Some(c) => if trim_of(c@).len() == 0 {
            None
        } else {
            Some(trim_of(c@))
        },
        None => None,
    }
}

/// The schema version shown in the summary: `{major}.{minor}`.
pub open spec fn version_text(version: Option<(u16, u16)>) -> Option<Seq<char>> {
    match version {
        Some((major, minor)) => Some(decimal(major as nat) + "."@ + decimal(minor as nat)),
        None => None,
    }
}

/// The summary of a document.
pub open spec fn metadata_of(d: Document, warning_count: nat) -> MetadataView {
    MetadataView {
        project_name: d.project_name@,
        project_long_identifier: d.project_long_identifier@,
        module_names: d.modules@.map_values(|m: Module| m.name@),
        header_comment: header_text(d.header_comment),
        asap2_version: version_text(d.version),
        warning_count: warning_count,
    }
}

pub open spec fn module_entity(m: Module) -> EntityView {
    EntityView { kind: "Module"@, name: m.name@, long_identifier: Some(m.long_identifier@) }
}

pub open spec fn measurement_entity(x: Measurement) -> EntityView {
    EntityView { kind: "Measurement"@, name: x.name@, long_identifier: None }
}

pub open spec fn characteristic_entity(x: Characteristic) -> EntityView {
    EntityView { kind: "Characteristic"@, name: x.name@, long_identifier: None }
}

pub open spec fn axis_pts_entity(x: AxisPts) -> EntityView {
    EntityView { kind: "AxisPts"@, name: x.name@, long_identifier: None }
}

/// The entities of one module: the module, then its measurements,
/// characteristics and axis points objects in stored order.
pub open spec fn module_entities(m: Module) -> Seq<EntityView> {
    seq![module_entity(m)]
        + m.measurements@.map_values(|x: Measurement| measurement_entity(x))
        + m.characteristics@.map_values(|x: Characteristic| characteristic_entity(x))
        + m.axis_pts@.map_values(|x: AxisPts| axis_pts_entity(x))
}

/// The entities of a sequence of modules, module after module.
pub open spec fn entities_of(modules: Seq<Module>) -> Seq<EntityView>
    decreases modules.len(),
{
    if modules.len() == 0 {
        Seq::empty()
    } else {
        entities_of(modules.drop_last()) + module_entities(modules.last())
    }
}

/// The summary of a document, with the given number of load warnings.
pub fn build_metadata(document: &Document, warning_count: usize) -> (r: A2lMetadata)
    ensures
        r@ == metadata_of(*document, warning_count as nat),
{
    let header_comment = match &document.header_comment {
        Some(c) => {
            let t = trim_text(c.as_str());
            if t.as_str().is_empty() {
                None
            } else {
                Some(t)
            }
        },
        None => None,
    };
    let asap2_version = match document.version {
        Some((major, minor)) => {
            let mut text = decimal_string(major as u64);
            text.append(".");
            text.append(decimal_string(minor as u64).as_str());
            Some(text)
        },
        None => None,
    };
    let mut module_names: Vec<String> = Vec::new();
    let n = document.modules.len();
    for i in 0..n
        invariant
            n == document.modules@.len(),
            module_names@.len() == i,
            forall|j: int| 0 <= j < i ==> (#[trigger] module_names@[j])@ == document.modules@[j].name@,
    {
        module_names.push(document.modules[i].name.clone());
    }
    let r = A2lMetadata {
        project_name: document.project_name.clone(),
        project_long_identifier: document.project_long_identifier.clone(),
        module_names,
        header_comment,
        asap2_version,
        warning_count,
    };
    assert(r@.module_names =~= document.modules@.map_values(|m: Module| m.name@));
    r
}

fn entity(kind: &str, name: &String, long_identifier: Option<String>) -> (r: CoreEntity)
    ensures
        r@ == (EntityView { kind: kind@, name: name@, long_identifier: opt_text(long_identifier) }),
{
    CoreEntity { kind: String::from_str(kind), name: name.clone(), long_identifier }
}

proof fn lemma_entities_view_push(v: Seq<CoreEntity>, e: CoreEntity)
    ensures
        entities_view(v.push(e)) == entities_view(v).push(e@),
{
    assert(entities_view(v.push(e)) =~= entities_view(v).push(e@));
}

fn push_module_entities(items: &mut Vec<CoreEntity>, m: &Module)
    ensures
        entities_view(final(items)@) == entities_view(old(items)@) + module_entities(*m),
{
    let ghost start = entities_view(items@);
    items.push(entity("Module", &m.name, Some(m.long_identifier.clone())));
    let ghost after_module = entities_view(items@);
    assert(after_module =~= start + seq![module_entity(*m)]);
    let n = m.measurements.len();
    for i in 0..n
        invariant
            n == m.measurements@.len(),
            entities_view(items@) == after_module + m.measurements@.take(i as int).map_values(
                |x: Measurement| measurement_entity(x),
            ),
    {
        let ghost before = items@;
        let e = entity("Measurement", &m.measurements[i].name, None);
        items.push(e);
        proof {
            lemma_entities_view_push(before, e);
        }
        assert(m.measurements@.take(i + 1) =~= m.measurements@.take(i as int).push(m.measurements@[i as int]));
        assert(entities_view(items@) =~= after_module + m.measurements@.take(i + 1).map_values(
            |x: Measurement| measurement_entity(x),
        ));
    }
    assert(m.measurements@.take(n as int) =~= m.measurements@);
    let ghost after_measurements = entities_view(items@);
    let n = m.characteristics.len();
    for i in 0..n
        invariant
            n == m.characteristics@.len(),
            entities_view(items@) == after_measurements + m.characteristics@.take(i as int).map_values(
                |x: Characteristic| characteristic_entity(x),
            ),
    {
        let ghost before = items@;
        let e = entity("Characteristic", &m.characteristics[i].name, None);
        items.push(e);
        proof {
            lemma_entities_view_push(before, e);
        }
        assert(m.characteristics@.take(i + 1) =~= m.characteristics@.take(i as int).push(m.characteristics@[i as int]));
        assert(entities_view(items@) =~= after_measurements + m.characteristics@.take(i + 1).map_values(
            |x: Characteristic| characteristic_entity(x),
        ));
    }
    assert(m.characteristics@.take(n as int) =~= m.characteristics@);
    let ghost after_characteristics = entities_view(items@);
    let n = m.axis_pts.len();
    for i in 0..n
        invariant
            n == m.axis_pts@.len(),
            entities_view(items@) == after_characteristics + m.axis_pts@.take(i as int).map_values(
                |x: AxisPts| axis_pts_entity(x),
            ),
    {
        let ghost before = items@;
        let e = entity("AxisPts", &m.axis_pts[i].name, None);
        items.push(e);
        proof {
            lemma_entities_view_push(before, e);
        }
        assert(m.axis_pts@.take(i + 1) =~= m.axis_pts@.take(i as int).push(m.axis_pts@[i as int]));
        assert(entities_view(items@) =~= after_characteristics + m.axis_pts@.take(i + 1).map_values(
            |x: AxisPts| axis_pts_entity(x),
        ));
    }
    assert(m.axis_pts@.take(n as int) =~= m.axis_pts@);
    assert(entities_view(items@) =~= start + module_entities(*m));
}

/// The flat list of promoted entities: per module, the module and then its
/// measurements, characteristics and axis points objects.
pub fn collect_core_entities(document: &Document) -> (r: Vec<CoreEntity>)
    ensures
        entities_view(r@) == entities_of(document.modules@),
{
    let mut items: Vec<CoreEntity> = Vec::new();
    let n = document.modules.len();
    for i in 0..n
        invariant
            n == document.modules@.len(),
            entities_view(items@) == entities_of(document.modules@.take(i as int)),
    {
        push_module_entities(&mut items, &document.modules[i]);
        assert(document.modules@.take(i + 1).drop_last() =~= document.modules@.take(i as int));
    }
    assert(document.modules@.take(n as int) =~= document.modules@);
    items
}


pub open spec fn renamed_measurement(x: Measurement, old_name: Seq<char>, new_name: String) -> Measurement {
    if x.name@ == old_name {
        Measurement { name: new_name, ..x }
    } else {
        x
    }
}

pub open spec fn renamed_characteristic(x: Characteristic, old_name: Seq<char>, new_name: String) -> Characteristic {
    if x.name@ == old_name {
        Characteristic { name: new_name, ..x }
    } else {
        x
    }
}

pub open spec fn renamed_axis_pts(x: AxisPts, old_name: Seq<char>, new_name: String) -> AxisPts {
    if x.name@ == old_name {
        AxisPts { name: new_name, ..x }
    } else {
        x
    }
}

/// `m1` is `m0` after renaming, for the entity kind `kind`, every entity
/// named `old_name` to `new_name`.
pub open spec fn module_renamed(
    m0: Module,
    m1: Module,
    kind: Seq<char>,
    old_name: Seq<char>,
    new_name: String,
) -> bool {
    &&& m1.name == (if kind == "Module"@ && m0.name@ == old_name {
        new_name
    } else {
        m0.name
    })
    &&& m1.long_identifier == m0.long_identifier
    &&& m1.measurements@ == (if kind == "Measurement"@ {
        m0.measurements@.map_values(|x: Measurement| renamed_measurement(x, old_name, new_name))
    } else {
        m0.measurements@
    })
    &&& m1.characteristics@ == (if kind == "Characteristic"@ {
        m0.characteristics@.map_values(
            |x: Characteristic| renamed_characteristic(x, old_name, new_name),
        )
    } else {
        m0.characteristics@
    })
    &&& m1.axis_pts@ == (if kind == "AxisPts"@ {
        m0.axis_pts@.map_values(|x: AxisPts| renamed_axis_pts(x, old_name, new_name))
    } else {
        m0.axis_pts@
    })
    &&& m1.catalog == m0.catalog
}

/// `d1` has the project identification of `d0` and as many modules.
pub open spec fn same_project(d0: Document, d1: Document) -> bool {
    &&& d1.project_name == d0.project_name
    &&& d1.project_long_identifier == d0.project_long_identifier
    &&& d1.header_comment == d0.header_comment
    &&& d1.version == d0.version
    &&& d1.modules@.len() == d0.modules@.len()
}

fn rename_measurements(v: &mut Vec<Measurement>, old_name: &String, new_name: &String)
    ensures
        final(v)@ == old(v)@.map_values(|x: Measurement| renamed_measurement(x, old_name@, *new_name)),
{
    let ghost v0 = v@;
    let n = v.len();
    for i in 0..n
        invariant
            n == v0.len(),
            v@.len() == n,
            forall|j: int| 0 <= j < i ==> #[trigger] v@[j] == renamed_measurement(v0[j], old_name@, *new_name),
            forall|j: int| i <= j < n ==> #[trigger] v@[j] == v0[j],
    {
        if v[i].name == *old_name {
            v[i].name = new_name.clone();
        }
    }
    assert(v@ =~= v0.map_values(|x: Measurement| renamed_measurement(x, old_name@, *new_name)));
}

fn rename_characteristics(v: &mut Vec<Characteristic>, old_name: &String, new_name: &String)
    ensures
        final(v)@ == old(v)@.map_values(
            |x: Characteristic| renamed_characteristic(x, old_name@, *new_name),
        ),
{
    let ghost v0 = v@;
    let n = v.len();
    for i in 0..n
        invariant
            n == v0.len(),
            v@.len() == n,
            forall|j: int| 0 <= j < i ==> #[trigger] v@[j] == renamed_characteristic(v0[j], old_name@, *new_name),
            forall|j: int| i <= j < n ==> #[trigger] v@[j] == v0[j],
    {
        if v[i].name == *old_name {
            v[i].name = new_name.clone();
        }
    }
    assert(v@ =~= v0.map_values(|x: Characteristic| renamed_characteristic(x, old_name@, *new_name)));
}

fn rename_axis_pts(v: &mut Vec<AxisPts>, old_name: &String, new_name: &String)
    ensures
        final(v)@ == old(v)@.map_values(|x: AxisPts| renamed_axis_pts(x, old_name@, *new_name)),
{
    let ghost v0 = v@;
    let n = v.len();
    for i in 0..n
        invariant
            n == v0.len(),
            v@.len() == n,
            forall|j: int| 0 <= j < i ==> #[trigger] v@[j] == renamed_axis_pts(v0[j], old_name@, *new_name),
            forall|j: int| i <= j < n ==> #[trigger] v@[j] == v0[j],
    {
        if v[i].name == *old_name {
            v[i].name = new_name.clone();
        }
    }
    assert(v@ =~= v0.map_values(|x: AxisPts| renamed_axis_pts(x, old_name@, *new_name)));
}

/// `d1` is `d0` after renaming every entity of kind `kind` named `name`
/// to `new_name`.
pub open spec fn entity_renamed(d0: Document, d1: Document, kind: Seq<char>, name: Seq<char>, new_name: String) -> bool {
    &&& same_project(d0, d1)
    &&& forall|i: int|
        0 <= i < d0.modules@.len() ==> module_renamed(
            #[trigger] d0.modules@[i],
            d1.modules@[i],
            kind,
            name,
            new_name,
        )
}

/// Renames, in every module, each entity of kind `kind` named `name`. The
/// kinds are `Module`, `Measurement`, `Characteristic` and `AxisPts`; any
/// other kind, or a name that nothing carries, leaves the document as it is.
/// Records are matched by name alone, so same-named records of different
/// modules are renamed together.
pub fn update_entity_name(document: &mut Document, kind: &str, name: &String, new_name: &String)
    ensures
        entity_renamed(*old(document), *final(document), kind@, name@, *new_name),
{
    let ghost d0 = *document;
    let for_module = same_text(kind, "Module");
    let for_measurement = same_text(kind, "Measurement");
    let for_characteristic = same_text(kind, "Characteristic");
    let for_axis_pts = same_text(kind, "AxisPts");
    let n = document.modules.len();
    for i in 0..n
        invariant
            n == d0.modules@.len(),
            same_project(d0, *document),
            for_module == (kind@ == "Module"@),
            for_measurement == (kind@ == "Measurement"@),
            for_characteristic == (kind@ == "Characteristic"@),
            for_axis_pts == (kind@ == "AxisPts"@),
            forall|j: int|
                0 <= j < i ==> module_renamed(
                    #[trigger] d0.modules@[j],
                    document.modules@[j],
                    kind@,
                    name@,
                    *new_name,
                ),
            forall|j: int| i <= j < n ==> #[trigger] document.modules@[j] == d0.modules@[j],
    {
        if for_module && document.modules[i].name == *name {
            document.modules[i].name = new_name.clone();
        }
        if for_measurement {
            rename_measurements(&mut document.modules[i].measurements, name, new_name);
        }
        if for_characteristic {
            rename_characteristics(&mut document.modules[i].characteristics, name, new_name);
        }
        if for_axis_pts {
            rename_axis_pts(&mut document.modules[i].axis_pts, name, new_name);
        }
    }
}

/// `d1` is `d0` with the description of every module named `name` set to
/// `long_identifier`.
pub open spec fn module_described(d0: Document, d1: Document, name: Seq<char>, long_identifier: String) -> bool {
    &&& same_project(d0, d1)
    &&& forall|i: int|
        0 <= i < d0.modules@.len() ==> #[trigger] d1.modules@[i] == (if d0.modules@[i].name@ == name {
            Module { long_identifier: long_identifier, ..d0.modules@[i] }
        } else {
            d0.modules@[i]
        })
}

/// Sets the description of every module named `name`; a name that no module
/// carries leaves the document as it is.
pub fn update_module_long_identifier(document: &mut Document, name: &String, long_identifier: &String)
    ensures
        module_described(*old(document), *final(document), name@, *long_identifier),
{
    let ghost d0 = *document;
    let n = document.modules.len();
    for i in 0..n
        invariant
            n == d0.modules@.len(),
            same_project(d0, *document),
            forall|j: int|
                0 <= j < i ==> #[trigger] document.modules@[j] == (if d0.modules@[j].name@ == name@ {
                    Module { long_identifier: *long_identifier, ..d0.modules@[j] }
                } else {
                    d0.modules@[j]
                }),
            forall|j: int| i <= j < n ==> #[trigger] document.modules@[j] == d0.modules@[j],
    {
        if document.modules[i].name == *name {
            document.modules[i].long_identifier = long_identifier.clone();
        }
    }
}

/// `d1` is `d0` with the project's name, description and header comment set.
pub open spec fn project_updated(
    d0: Document,
    d1: Document,
    name: String,
    long_identifier: String,
    header_comment: Option<String>,
) -> bool {
    &&& d1.project_name == name
    &&& d1.project_long_identifier == long_identifier
    &&& opt_text(d1.header_comment) == header_text(header_comment)
    &&& d1.version == d0.version
    &&& d1.modules == d0.modules
}

/// Sets the project's name and description, and its header comment: the
/// trimmed comment when it is not empty, else no header at all.
pub fn update_project_metadata(
    document: &mut Document,
    name: String,
    long_identifier: String,
    header_comment: Option<String>,
)
    ensures
        project_updated(*old(document), *final(document), name, long_identifier, header_comment),
{
    document.project_name = name;
    document.project_long_identifier = long_identifier;
    document.header_comment = match header_comment {
        Some(c) => {
            let t = trim_text(c.as_str());
            if t.as_str().is_empty() {
                None
            } else {
                Some(t)
            }
        },
        None => None,
    };
}

} // verus!
