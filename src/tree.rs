//! The projected tree: modules, their non-empty sections in a fixed order,
//! and one item per record.

use vstd::prelude::*;
use crate::details::{A2lDetailProvider, A2lTreeDetail, Row, rows_of};
use crate::model::{Document, Module, opt_text};
use crate::render::{decimal, decimal_string};

verus! {

pub struct A2lTreeItem {
    pub id: String,
    pub name: String,
    pub kind: String,
    pub description: Option<String>,
    pub details: Vec<A2lTreeDetail>,
}

pub struct A2lTreeSection {
    pub id: String,
    pub title: String,
    pub items: Vec<A2lTreeItem>,
}

pub struct A2lTreeModule {
    pub id: String,
    pub name: String,
    pub long_identifier: String,
    pub sections: Vec<A2lTreeSection>,
}

pub struct A2lTree {
    pub modules: Vec<A2lTreeModule>,
}

pub struct ItemView {
    pub id: Seq<char>,
    pub name: Seq<char>,
    pub kind: Seq<char>,
    pub description: Option<Seq<char>>,
    pub details: Seq<Row>,
}

pub struct SectionView {
    pub id: Seq<char>,
    pub title: Seq<char>,
    pub items: Seq<ItemView>,
}

pub struct ModuleView {
    pub id: Seq<char>,
    pub name: Seq<char>,
    pub long_identifier: Seq<char>,
    pub sections: Seq<SectionView>,
}

impl View for A2lTreeItem {
    type V = ItemView;

    open spec fn view(&self) -> ItemView {
        ItemView {
            id: self.id@,
            name: self.name@,
            kind: self.kind@,
            description: opt_text(self.description),
            details: rows_of(self.details@),
        }
    }
}

impl View for A2lTreeSection {
    type V = SectionView;

    open spec fn view(&self) -> SectionView {
        SectionView {
            id: self.id@,
            title: self.title@,
            items: self.items@.map_values(|i: A2lTreeItem| i@),
        }
    }
}

impl View for A2lTreeModule {
    type V = ModuleView;

    open spec fn view(&self) -> ModuleView {
        ModuleView {
            id: self.id@,
            name: self.name@,
            long_identifier: self.long_identifier@,
            sections: sections_view(self.sections@),
        }
    }
}

impl View for A2lTree {
    type V = Seq<ModuleView>;

    open spec fn view(&self) -> Seq<ModuleView> {
        self.modules@.map_values(|m: A2lTreeModule| m@)
    }
}

pub open spec fn sections_view(s: Seq<A2lTreeSection>) -> Seq<SectionView> {
    s.map_values(|x: A2lTreeSection| x@)
}

pub open spec fn opt_section_view(o: Option<A2lTreeSection>) -> Option<SectionView> {
    match o {
        Some(s) => Some(s@),
        None => None,
    }
}

/// The identifier of a section: `{module}::{kind}`.
pub open spec fn section_id(module: Seq<char>, kind: Seq<char>) -> Seq<char> {
    module + "::"@ + kind
}

/// The identifier of an item: `{module}::{kind}::{discriminator}`.
pub open spec fn item_id(module: Seq<char>, kind: Seq<char>, discriminator: Seq<char>) -> Seq<char> {
    module + "::"@ + kind + "::"@ + discriminator
}

/// The item of a named record.
pub open spec fn named_item<T: A2lDetailProvider>(module: Seq<char>, kind: Seq<char>, r: T) -> ItemView {
    ItemView {
        id: item_id(module, kind, r.spec_name()),
        name: r.spec_name(),
        kind: kind,
        description: r.spec_description(),
        details: r.spec_details(),
    }
}

/// The item of the record at `index` of an unnamed collection.
pub open spec fn indexed_item<T: A2lDetailProvider>(
    module: Seq<char>,
    title: Seq<char>,
    kind: Seq<char>,
    index: nat,
    r: T,
) -> ItemView {
    ItemView {
        id: item_id(module, kind, decimal(index)),
        name: title + " "@ + decimal(index),
        kind: kind,
        description: r.spec_description(),
        details: r.spec_details(),
    }
}

/// The section of a collection of named records: absent when it is empty.
pub open spec fn list_section<T: A2lDetailProvider>(
    module: Seq<char>,
    title: Seq<char>,
    kind: Seq<char>,
    items: Seq<T>,
) -> Option<SectionView> {
    if items.len() == 0 {
        None
    } else {
        Some(
            SectionView {
                id: section_id(module, kind),
                title: title,
                items: items.map_values(|r: T| named_item(module, kind, r)),
            },
        )
    }
}

/// The section of an optional record: one item, named like the section, when present.
pub open spec fn optional_section<T: A2lDetailProvider>(
    module: Seq<char>,
    title: Seq<char>,
    kind: Seq<char>,
    item: Option<T>,
) -> Option<SectionView> {
    match item {
        None => None,
        Some(r) => Some(
            SectionView {
                id: section_id(module, kind),
                title: title,
                items: seq![
                    ItemView {
                        id: item_id(module, kind, decimal(0)),
                        name: title,
                        kind: kind,
                        description: r.spec_description(),
                        details: r.spec_details(),
                    },
                ],
            },
        ),
    }
}

/// The section of an unnamed collection: one item per element, by position.
pub open spec fn indexed_section<T: A2lDetailProvider>(
    module: Seq<char>,
    title: Seq<char>,
    kind: Seq<char>,
    items: Seq<T>,
) -> Option<SectionView> {
    if items.len() == 0 {
        None
    } else {
        Some(
            SectionView {
                id: section_id(module, kind),
                title: title,
                items: items.map(|i: int, r: T| indexed_item(module, title, kind, i as nat, r)),
            },
        )
    }
}

/// A present section as a sequence of one, an absent one as the empty sequence.
pub open spec fn present(o: Option<SectionView>) -> Seq<SectionView> {
    match o {
        Some(s) => seq![s],
        None => Seq::empty(),
    }
}

/// The candidate sections of a module, in display order.
pub open spec fn candidate_sections(m: Module) -> Seq<Option<SectionView>> {
    let n = m.name@;
    seq![
        list_section(n, "Measurements"@, "Measurement"@, m.measurements@),
        list_section(n, "Characteristics"@, "Characteristic"@, m.characteristics@),
        list_section(n, "Axis Points"@, "AxisPts"@, m.axis_pts@),
        list_section(n, "Compu Methods"@, "CompuMethod"@, m.catalog.compu_methods@),
        list_section(n, "Compu Tables"@, "CompuTab"@, m.catalog.compu_tabs@),
        list_section(n, "Compu VTabs"@, "CompuVtab"@, m.catalog.compu_vtabs@),
        list_section(n, "Compu VTab Ranges"@, "CompuVtabRange"@, m.catalog.compu_vtab_ranges@),
        list_section(n, "Record Layouts"@, "RecordLayout"@, m.catalog.record_layouts@),
        list_section(n, "Functions"@, "Function"@, m.catalog.functions@),
        list_section(n, "Groups"@, "Group"@, m.catalog.groups@),
        list_section(n, "Units"@, "Unit"@, m.catalog.units@),
        list_section(n, "Frames"@, "Frame"@, m.catalog.frames@),
        list_section(n, "Blobs"@, "Blob"@, m.catalog.blobs@),
        list_section(n, "Instances"@, "Instance"@, m.catalog.instances@),
        list_section(n, "Transformers"@, "Transformer"@, m.catalog.transformers@),
        list_section(n, "Typedef Axis"@, "TypedefAxis"@, m.catalog.typedef_axis@),
        list_section(n, "Typedef Blob"@, "TypedefBlob"@, m.catalog.typedef_blob@),
        list_section(n, "Typedef Characteristic"@, "TypedefCharacteristic"@, m.catalog.typedef_characteristic@),
        list_section(n, "Typedef Measurement"@, "TypedefMeasurement"@, m.catalog.typedef_measurement@),
        list_section(n, "Typedef Structure"@, "TypedefStructure"@, m.catalog.typedef_structure@),
        optional_section(n, "Mod Common"@, "ModCommon"@, m.catalog.mod_common),
        optional_section(n, "Mod Par"@, "ModPar"@, m.catalog.mod_par),
        optional_section(n, "Variant Coding"@, "VariantCoding"@, m.catalog.variant_coding),
        optional_section(n, "A2ML"@, "A2ML"@, m.catalog.a2ml),
        indexed_section(n, "IF_DATA"@, "IfData"@, m.catalog.if_data@),
        indexed_section(n, "User Rights"@, "UserRights"@, m.catalog.user_rights@),
    ]
}

/// The present sections among `c`, in order.
pub open spec fn present_sections(c: Seq<Option<SectionView>>) -> Seq<SectionView>
    decreases c.len(),
{
    if c.len() == 0 {
        Seq::empty()
    } else {
        present_sections(c.drop_last()) + present(c.last())
    }
}

/// The tree module of a module.
pub open spec fn module_view(m: Module) -> ModuleView {
    ModuleView {
        id: m.name@,
        name: m.name@,
        long_identifier: m.long_identifier@,
        sections: present_sections(candidate_sections(m)),
    }
}

/// The tree of a document: one tree module per module, in document order.
pub open spec fn tree_view(d: Document) -> Seq<ModuleView> {
    d.modules@.map_values(|m: Module| module_view(m))
}

fn join2(a: &str, b: &str) -> (r: String)
    ensures
        r@ == a@ + "::"@ + b@,
{
    let mut s = String::from_str(a);
    s.append("::");
    s.append(b);
    s
}

fn join3(a: &str, b: &str, c: &str) -> (r: String)
    ensures
        r@ == a@ + "::"@ + b@ + "::"@ + c@,
{
    let mut s = join2(a, b);
    s.append("::");
    s.append(c);
    s
}

/// The section of a collection of named records, or `None` when it is empty.
pub fn build_section_from_list<T: A2lDetailProvider>(
    module_name: &str,
    title: &str,
    kind: &str,
    items: &Vec<T>,
) -> (r: Option<A2lTreeSection>)
    ensures
        opt_section_view(r) == list_section(module_name@, title@, kind@, items@),
{
    if items.len() == 0 {
        return None;
    }
    let mut entries: Vec<A2lTreeItem> = Vec::new();
    let n = items.len();
    for i in 0..n
        invariant
            n == items@.len(),
            entries@.len() == i,
            forall|j: int|
                0 <= j < i ==> (#[trigger] entries@[j])@ == named_item(
                    module_name@,
                    kind@,
                    items@[j],
                ),
    {
        let item = &items[i];
        let name = item.get_name();
        entries.push(
            A2lTreeItem {
                id: join3(module_name, kind, name.as_str()),
                name: name.clone(),
                kind: String::from_str(kind),
                description: item.description(),
                details: item.details(),
            },
        );
    }
    let section = A2lTreeSection {
        id: join2(module_name, kind),
        title: String::from_str(title),
        items: entries,
    };
    assert(section@.items =~= items@.map_values(|r: T| named_item(module_name@, kind@, r)));
    Some(section)
}

/// The section of an optional record, or `None` when it is absent.
pub fn build_section_from_optional<T: A2lDetailProvider>(
    module_name: &str,
    title: &str,
    kind: &str,
    item: Option<&T>,
) -> (r: Option<A2lTreeSection>)
    ensures
        opt_section_view(r) == optional_section(
            module_name@,
            title@,
            kind@,
            match item {
                Some(t) => Some(*t),
                None => None,
            },
        ),
{
    match item {
        None => None,
        Some(value) => {
            let zero = decimal_string(0);
            let entry = A2lTreeItem {
                id: join3(module_name, kind, zero.as_str()),
                name: String::from_str(title),
                kind: String::from_str(kind),
                description: value.description(),
                details: value.details(),
            };
            let mut entries: Vec<A2lTreeItem> = Vec::new();
            entries.push(entry);
            let section = A2lTreeSection {
                id: join2(module_name, kind),
                title: String::from_str(title),
                items: entries,
            };
            assert(section@.items =~= optional_section(module_name@, title@, kind@, Some(*value))->0.items);
            Some(section)
        },
    }
}

/// The section of an unnamed collection, or `None` when it is empty.
pub fn build_section_from_vec<T: A2lDetailProvider>(
    module_name: &str,
    title: &str,
    kind: &str,
    items: &Vec<T>,
) -> (r: Option<A2lTreeSection>)
    ensures
        opt_section_view(r) == indexed_section(module_name@, title@, kind@, items@),
{
    if items.len() == 0 {
        return None;
    }
    let mut entries: Vec<A2lTreeItem> = Vec::new();
    let n = items.len();
    for i in 0..n
        invariant
            n == items@.len(),
            entries@.len() == i,
            forall|j: int|
                0 <= j < i ==> (#[trigger] entries@[j])@ == indexed_item(
                    module_name@,
                    title@,
                    kind@,
                    j as nat,
                    items@[j],
                ),
    {
        let item = &items[i];
        let index = decimal_string(i as u64);
        let mut name = String::from_str(title);
        name.append(" ");
        name.append(index.as_str());
        entries.push(
            A2lTreeItem {
                id: join3(module_name, kind, index.as_str()),
                name,
                kind: String::from_str(kind),
                description: item.description(),
                details: item.details(),
            },
        );
    }
    let section = A2lTreeSection {
        id: join2(module_name, kind),
        title: String::from_str(title),
        items: entries,
    };
    assert(section@.items =~= items@.map(
        |i: int, r: T| indexed_item(module_name@, title@, kind@, i as nat, r),
    ));
    Some(section)
}


proof fn lemma_present_sections_step(c: Seq<Option<SectionView>>, k: int)
    requires
        0 <= k < c.len(),
    ensures
        present_sections(c.take(k + 1)) == present_sections(c.take(k)) + present(c[k]),
{
    assert(c.take(k + 1).drop_last() =~= c.take(k));
}

fn add_section(
    sections: &mut Vec<A2lTreeSection>,
    section: Option<A2lTreeSection>,
    Ghost(c): Ghost<Seq<Option<SectionView>>>,
    Ghost(k): Ghost<int>,
)
    requires
        0 <= k < c.len(),
        sections_view(old(sections)@) == present_sections(c.take(k)),
        opt_section_view(section) == c[k],
    ensures
        sections_view(final(sections)@) == present_sections(c.take(k + 1)),
{
    proof {
        lemma_present_sections_step(c, k);
    }
    match section {
        Some(s) => {
            sections.push(s);
            assert(sections_view(sections@) =~= present_sections(c.take(k)) + present(c[k]));
        },
        None => {
            assert(present(c[k]) =~= Seq::empty());
            assert(present_sections(c.take(k)) + present(c[k]) =~= present_sections(c.take(k)));
        },
    }
}

/// The tree module of one module.
#[verifier::rlimit(60)]
pub fn build_module(module: &Module) -> (r: A2lTreeModule)
    ensures
        r@ == module_view(*module),
{
    let module_name = module.name.as_str();
    let ghost c = candidate_sections(*module);
    let mut sections: Vec<A2lTreeSection> = Vec::new();
    assert(sections_view(sections@) =~= present_sections(c.take(0)));
    add_section(
        &mut sections,
        build_section_from_list(module_name, "Measurements", "Measurement", &module.measurements),
        Ghost(c),
        Ghost(0),
    );
    add_section(
        &mut sections,
        build_section_from_list(module_name, "Characteristics", "Characteristic", &module.characteristics),
        Ghost(c),
        Ghost(1),
    );
    add_section(
        &mut sections,
        build_section_from_list(module_name, "Axis Points", "AxisPts", &module.axis_pts),
        Ghost(c),
        Ghost(2),
    );
    add_section(
        &mut sections,
        build_section_from_list(module_name, "Compu Methods", "CompuMethod", &module.catalog.compu_methods),
        Ghost(c),
        Ghost(3),
    );
    add_section(
        &mut sections,
        build_section_from_list(module_name, "Compu Tables", "CompuTab", &module.catalog.compu_tabs),
        Ghost(c),
        Ghost(4),
    );
    add_section(
        &mut sections,
        build_section_from_list(module_name, "Compu VTabs", "CompuVtab", &module.catalog.compu_vtabs),
        Ghost(c),
        Ghost(5),
    );
    add_section(
        &mut sections,
        build_section_from_list(module_name, "Compu VTab Ranges", "CompuVtabRange", &module.catalog.compu_vtab_ranges),
        Ghost(c),
        Ghost(6),
    );
    add_section(
        &mut sections,
        build_section_from_list(module_name, "Record Layouts", "RecordLayout", &module.catalog.record_layouts),
        Ghost(c),
        Ghost(7),
    );
    add_section(
        &mut sections,
        build_section_from_list(module_name, "Functions", "Function", &module.catalog.functions),
        Ghost(c),
        Ghost(8),
    );
    add_section(
        &mut sections,
        build_section_from_list(module_name, "Groups", "Group", &module.catalog.groups),
        Ghost(c),
        Ghost(9),
    );
    add_section(
        &mut sections,
        build_section_from_list(module_name, "Units", "Unit", &module.catalog.units),
        Ghost(c),
        Ghost(10),
    );
    add_section(
        &mut sections,
        build_section_from_list(module_name, "Frames", "Frame", &module.catalog.frames),
        Ghost(c),
        Ghost(11),
    );
    add_section(
        &mut sections,
        build_section_from_list(module_name, "Blobs", "Blob", &module.catalog.blobs),
        Ghost(c),
        Ghost(12),
    );
    add_section(
        &mut sections,
        build_section_from_list(module_name, "Instances", "Instance", &module.catalog.instances),
        Ghost(c),
        Ghost(13),
    );
    add_section(
        &mut sections,
        build_section_from_list(module_name, "Transformers", "Transformer", &module.catalog.transformers),
        Ghost(c),
        Ghost(14),
    );
    add_section(
        &mut sections,
        build_section_from_list(module_name, "Typedef Axis", "TypedefAxis", &module.catalog.typedef_axis),
        Ghost(c),
        Ghost(15),
    );
    add_section(
        &mut sections,
        build_section_from_list(module_name, "Typedef Blob", "TypedefBlob", &module.catalog.typedef_blob),
        Ghost(c),
        Ghost(16),
    );
    add_section(
        &mut sections,
        build_section_from_list(module_name, "Typedef Characteristic", "TypedefCharacteristic", &module.catalog.typedef_characteristic),
        Ghost(c),
        Ghost(17),
    );
    add_section(
        &mut sections,
        build_section_from_list(module_name, "Typedef Measurement", "TypedefMeasurement", &module.catalog.typedef_measurement),
        Ghost(c),
        Ghost(18),
    );
    add_section(
        &mut sections,
        build_section_from_list(module_name, "Typedef Structure", "TypedefStructure", &module.catalog.typedef_structure),
        Ghost(c),
        Ghost(19),
    );
    add_section(
        &mut sections,
        build_section_from_optional(module_name, "Mod Common", "ModCommon", module.catalog.mod_common.as_ref()),
        Ghost(c),
        Ghost(20),
    );
    add_section(
        &mut sections,
        build_section_from_optional(module_name, "Mod Par", "ModPar", module.catalog.mod_par.as_ref()),
        Ghost(c),
        Ghost(21),
    );
    add_section(
        &mut sections,
        build_section_from_optional(module_name, "Variant Coding", "VariantCoding", module.catalog.variant_coding.as_ref()),
        Ghost(c),
        Ghost(22),
    );
    add_section(
        &mut sections,
        build_section_from_optional(module_name, "A2ML", "A2ML", module.catalog.a2ml.as_ref()),
        Ghost(c),
        Ghost(23),
    );
    add_section(
        &mut sections,
        build_section_from_vec(module_name, "IF_DATA", "IfData", &module.catalog.if_data),
        Ghost(c),
        Ghost(24),
    );
    add_section(
        &mut sections,
        build_section_from_vec(module_name, "User Rights", "UserRights", &module.catalog.user_rights),
        Ghost(c),
        Ghost(25),
    );

    assert(c.take(26) =~= c);
    A2lTreeModule {
        id: module.name.clone(),
        name: module.name.clone(),
        long_identifier: module.long_identifier.clone(),
        sections,
    }
}

/// The projected tree of a document.
pub fn build_tree(document: &Document) -> (r: A2lTree)
    ensures
        r@ == tree_view(*document),
{
    let mut modules: Vec<A2lTreeModule> = Vec::new();
    let n = document.modules.len();
    for i in 0..n
        invariant
            n == document.modules@.len(),
            modules@.len() == i,
            forall|j: int| 0 <= j < i ==> (#[trigger] modules@[j])@ == module_view(document.modules@[j]),
    {
        modules.push(build_module(&document.modules[i]));
    }
    let tree = A2lTree { modules };
    assert(tree@ =~= tree_view(*document));
    tree
}

} // verus!
