//! Properties that relate several operations of the editor, proved over the
//! contracts of those operations.

use vstd::prelude::*;
use crate::access::{
    CharacteristicData, get_characteristic_outcome, get_measurement_outcome, measurement_location,
    update_characteristic_outcome,
};
use crate::hex::parsed_hex;
use crate::details::A2lDetailProvider;
use crate::directory::{entity_renamed, renamed_measurement};
use crate::error::EditorError;
use crate::model::{Document, Module, Record};
use crate::tree::{
    A2lTree, SectionView, candidate_sections, module_view, present, present_sections, section_id,
    tree_view,
};

verus! {

pub open spec fn opt_size(o: Option<Record>) -> nat {
    if o is Some {
        1
    } else {
        0
    }
}

/// The sizes of the record-bearing fields of a module, in display order; an
/// optional record counts as one when present.
pub open spec fn collection_sizes(m: Module) -> Seq<nat> {
    let c = m.catalog;
    seq![
        m.measurements@.len(),
        m.characteristics@.len(),
        m.axis_pts@.len(),
        c.compu_methods@.len(),
        c.compu_tabs@.len(),
        c.compu_vtabs@.len(),
        c.compu_vtab_ranges@.len(),
        c.record_layouts@.len(),
        c.functions@.len(),
        c.groups@.len(),
        c.units@.len(),
        c.frames@.len(),
        c.blobs@.len(),
        c.instances@.len(),
        c.transformers@.len(),
        c.typedef_axis@.len(),
        c.typedef_blob@.len(),
        c.typedef_characteristic@.len(),
        c.typedef_measurement@.len(),
        c.typedef_structure@.len(),
        opt_size(c.mod_common),
        opt_size(c.mod_par),
        opt_size(c.variant_coding),
        opt_size(c.a2ml),
        c.if_data@.len(),
        c.user_rights@.len(),
    ]
}

/// The non-zero entries of `s`, in order.
pub open spec fn nonzero(s: Seq<nat>) -> Seq<nat>
    decreases s.len(),
{
    if s.len() == 0 {
        Seq::empty()
    } else if s.last() > 0 {
        nonzero(s.drop_last()).push(s.last())
    } else {
        nonzero(s.drop_last())
    }
}

pub open spec fn item_counts(sections: Seq<SectionView>) -> Seq<nat> {
    sections.map_values(|s: SectionView| s.items.len())
}

proof fn lemma_present_counts(c: Seq<Option<SectionView>>, sizes: Seq<nat>)
    requires
        c.len() == sizes.len(),
        forall|k: int|
            0 <= k < c.len() ==> match #[trigger] c[k] {
                Some(s) => s.items.len() == sizes[k] && sizes[k] > 0,
                None => sizes[k] == 0,
            },
    ensures
        item_counts(present_sections(c)) == nonzero(sizes),
    decreases c.len(),
{
    if c.len() > 0 {
        let c0 = c.drop_last();
        let s0 = sizes.drop_last();
        assert forall|k: int| 0 <= k < c0.len() implies match #[trigger] c0[k] {
            Some(s) => s.items.len() == s0[k] && s0[k] > 0,
            None => s0[k] == 0,
        } by {
            assert(c0[k] == c[k]);
        }
        lemma_present_counts(c0, s0);
        let last = c[c.len() - 1];
        assert(c.last() == last);
        match last {
            Some(s) => {
                assert(present(last) == seq![s]);
                assert(item_counts(present_sections(c0) + seq![s]) =~= item_counts(present_sections(c0)).push(
                    s.items.len(),
                ));
            },
            None => {
                assert(present_sections(c0) + present(last) =~= present_sections(c0));
            },
        }
    }
}

/// A module's tree shows exactly one section per non-empty record-bearing
/// field, in display order, and each section holds as many items as its
/// collection holds records (one for an optional record).
#[verifier::rlimit(80)]
pub proof fn lemma_tree_completeness(m: Module)
    ensures
        module_view(m).sections.len() == nonzero(collection_sizes(m)).len(),
        item_counts(module_view(m).sections) == nonzero(collection_sizes(m)),
{
    let c = candidate_sections(m);
    let sizes = collection_sizes(m);
    assert(c.len() == 26);
    assert(sizes.len() == 26);
    assert forall|k: int|
        0 <= k < c.len() implies match #[trigger] c[k] {
        Some(s) => s.items.len() == sizes[k] && sizes[k] > 0,
        None => sizes[k] == 0,
    } by {}
    lemma_present_counts(c, sizes);
    assert(item_counts(module_view(m).sections).len() == module_view(m).sections.len());
}

proof fn lemma_nonzero_of_zeros(s: Seq<nat>)
    requires
        forall|k: int| 0 <= k < s.len() ==> #[trigger] s[k] == 0,
    ensures
        nonzero(s).len() == 0,
    decreases s.len(),
{
    if s.len() > 0 {
        assert forall|k: int| 0 <= k < s.drop_last().len() implies #[trigger] s.drop_last()[k] == 0 by {
            assert(s.drop_last()[k] == s[k]);
        }
        lemma_nonzero_of_zeros(s.drop_last());
    }
}

/// A module with no records of any kind shows no section at all.
pub proof fn lemma_empty_module_has_no_sections(m: Module)
    requires
        forall|k: int| 0 <= k < collection_sizes(m).len() ==> #[trigger] collection_sizes(m)[k] == 0,
    ensures
        module_view(m).sections.len() == 0,
{
    lemma_tree_completeness(m);
    lemma_nonzero_of_zeros(collection_sizes(m));
}

/// Two projections of one unchanged document are the same tree, with the
/// same item identifiers.
pub proof fn lemma_tree_identity_stable(d: Document, first: A2lTree, second: A2lTree)
    requires
        first@ == tree_view(d),
        second@ == tree_view(d),
    ensures
        first@ == second@,
        forall|i: int, s: int, k: int|
            0 <= i < first@.len() && 0 <= s < first@[i].sections.len() && 0 <= k
                < first@[i].sections[s].items.len() ==> #[trigger] first@[i].sections[s].items[k].id
                == second@[i].sections[s].items[k].id,
{
}

pub open spec fn has_measurement_named(modules: Seq<Module>, name: Seq<char>) -> bool {
    exists|i: int, j: int|
        0 <= i < modules.len() && 0 <= j < modules[i].measurements@.len() && (
        #[trigger] modules[i].measurements@[j]).name@ == name
}

proof fn lemma_location_some_iff(modules: Seq<Module>, name: Seq<char>)
    ensures
        measurement_location(modules, name) is Some <==> has_measurement_named(modules, name),
    decreases modules.len(),
{
    if modules.len() > 0 {
        let init = modules.drop_last();
        let last = modules.last();
        lemma_location_some_iff(init, name);
        crate::access::lemma_first_named(last.measurements@, name);
        if has_measurement_named(modules, name) {
            let (i, j) = choose|i: int, j: int|
                0 <= i < modules.len() && 0 <= j < modules[i].measurements@.len() && (
                #[trigger] modules[i].measurements@[j]).name@ == name;
            if i < modules.len() - 1 {
                assert(init[i] == modules[i]);
                assert(has_measurement_named(init, name));
            } else {
                assert(last.measurements@[j].spec_name() == name);
            }
        }
        if measurement_location(modules, name) is Some {
            if measurement_location(init, name) is Some {
                let (i, j) = choose|i: int, j: int|
                    0 <= i < init.len() && 0 <= j < init[i].measurements@.len() && (
                    #[trigger] init[i].measurements@[j]).name@ == name;
                assert(modules[i] == init[i]);
                assert(has_measurement_named(modules, name));
            } else {
                let j = crate::access::first_named(last.measurements@, name)->0;
                assert(modules[modules.len() - 1].measurements@[j].name@ == name);
            }
        }
    }
}

proof fn lemma_location_names(modules: Seq<Module>, name: Seq<char>)
    ensures
        measurement_location(modules, name) matches Some((i, j)) ==> 0 <= i < modules.len() && 0 <= j
            < modules[i].measurements@.len() && modules[i].measurements@[j].name@ == name,
    decreases modules.len(),
{
    if modules.len() > 0 {
        let init = modules.drop_last();
        lemma_location_names(init, name);
        crate::access::lemma_first_named(modules.last().measurements@, name);
        if let Some((i, j)) = measurement_location(init, name) {
            assert(modules[i] == init[i]);
        }
    }
}

/// After renaming the measurements named `x` to `y`, a measurement named
/// `y` is found, provided one named `x` was there before; and when the two
/// names differ, none named `x` is found any more.
pub proof fn lemma_rename_propagation(d0: Document, d1: Document, x: String, y: String)
    requires
        entity_renamed(d0, d1, "Measurement"@, x@, y),
        measurement_location(d0.modules@, x@) is Some,
    ensures
        measurement_location(d1.modules@, y@) is Some,
        forall|r: Result<crate::access::MeasurementData, EditorError>|
            get_measurement_outcome(d1, y, r) ==> (r matches Ok(v) && v.name@ == y@),
        x@ != y@ ==> measurement_location(d1.modules@, x@) is None,
        x@ != y@ ==> forall|r: Result<crate::access::MeasurementData, EditorError>|
            get_measurement_outcome(d1, x, r) ==> r matches Err(EditorError::NotFound(_)),
{
    let m0 = d0.modules@;
    let m1 = d1.modules@;
    lemma_location_some_iff(m0, x@);
    lemma_location_some_iff(m1, x@);
    lemma_location_some_iff(m1, y@);
    lemma_location_names(m1, y@);
    assert(m1.len() == m0.len());
    let (i, j) = choose|i: int, j: int|
        0 <= i < m0.len() && 0 <= j < m0[i].measurements@.len() && (
        #[trigger] m0[i].measurements@[j]).name@ == x@;
    assert(crate::directory::module_renamed(m0[i], m1[i], "Measurement"@, x@, y));
    assert(m1[i].measurements@[j] == renamed_measurement(m0[i].measurements@[j], x@, y));
    assert(m1[i].measurements@[j].name@ == y@);
    assert(has_measurement_named(m1, y@));
    if x@ != y@ && has_measurement_named(m1, x@) {
        let (a, b) = choose|a: int, b: int|
            0 <= a < m1.len() && 0 <= b < m1[a].measurements@.len() && (
            #[trigger] m1[a].measurements@[b]).name@ == x@;
        assert(crate::directory::module_renamed(m0[a], m1[a], "Measurement"@, x@, y));
        assert(m1[a].measurements@[b] == renamed_measurement(m0[a].measurements@[b], x@, y));
    }
}

/// An update of a characteristic whose address is malformed changes
/// nothing: a later read of any characteristic answers as before.
pub proof fn lemma_invalid_address_changes_nothing(
    d0: Document,
    d1: Document,
    name: String,
    data: CharacteristicData,
    r: Result<(), EditorError>,
    other: String,
    read: Result<CharacteristicData, EditorError>,
)
    requires
        update_characteristic_outcome(d0, d1, name, data, r),
        parsed_hex(data.address@, 0x1_0000_0000) is None,
    ensures
        d1 == d0,
        get_characteristic_outcome(d1, other, read) == get_characteristic_outcome(d0, other, read),
{
}

/// The kinds of the candidate sections of a module, in display order.
pub open spec fn section_kinds() -> Seq<Seq<char>> {
    seq![
        "Measurement"@,
        "Characteristic"@,
        "AxisPts"@,
        "CompuMethod"@,
        "CompuTab"@,
        "CompuVtab"@,
        "CompuVtabRange"@,
        "RecordLayout"@,
        "Function"@,
        "Group"@,
        "Unit"@,
        "Frame"@,
        "Blob"@,
        "Instance"@,
        "Transformer"@,
        "TypedefAxis"@,
        "TypedefBlob"@,
        "TypedefCharacteristic"@,
        "TypedefMeasurement"@,
        "TypedefStructure"@,
        "ModCommon"@,
        "ModPar"@,
        "VariantCoding"@,
        "A2ML"@,
        "IfData"@,
        "UserRights"@,
    ]
}

proof fn lemma_section_kinds_distinct()
    ensures
        forall|i: int, j: int|
            0 <= i < 26 && 0 <= j < 26 && #[trigger] section_kinds()[i] == #[trigger] section_kinds()[j] ==> i == j,
{
    reveal_strlit("Measurement");
    reveal_strlit("Characteristic");
    reveal_strlit("AxisPts");
    reveal_strlit("CompuMethod");
    reveal_strlit("CompuTab");
    reveal_strlit("CompuVtab");
    reveal_strlit("CompuVtabRange");
    reveal_strlit("RecordLayout");
    reveal_strlit("Function");
    reveal_strlit("Group");
    reveal_strlit("Unit");
    reveal_strlit("Frame");
    reveal_strlit("Blob");
    reveal_strlit("Instance");
    reveal_strlit("Transformer");
    reveal_strlit("TypedefAxis");
    reveal_strlit("TypedefBlob");
    reveal_strlit("TypedefCharacteristic");
    reveal_strlit("TypedefMeasurement");
    reveal_strlit("TypedefStructure");
    reveal_strlit("ModCommon");
    reveal_strlit("ModPar");
    reveal_strlit("VariantCoding");
    reveal_strlit("A2ML");
    reveal_strlit("IfData");
    reveal_strlit("UserRights");
    let kinds = section_kinds();
    assert forall|i: int, j: int|
        0 <= i < 26 && 0 <= j < 26 && #[trigger] kinds[i] == #[trigger] kinds[j] implies i == j by {
        if i != j {
            assert(kinds[i].len() != kinds[j].len() || kinds[i][kinds[i].len() - 1] != kinds[j][kinds[j].len() - 1]);
        }
    }
}

proof fn lemma_present_members(c: Seq<Option<SectionView>>)
    ensures
        forall|q: int|
            #![trigger present_sections(c)[q]]
            0 <= q < present_sections(c).len() ==> exists|k: int|
                0 <= k < c.len() && #[trigger] c[k] == Some(present_sections(c)[q]),
        forall|k: int|
            0 <= k < c.len() && (#[trigger] c[k]) is Some ==> exists|q: int|
                0 <= q < present_sections(c).len() && present_sections(c)[q] == c[k]->0,
    decreases c.len(),
{
    if c.len() > 0 {
        let c0 = c.drop_last();
        lemma_present_members(c0);
        let p0 = present_sections(c0);
        let p = present_sections(c);
        let last = c[c.len() - 1];
        assert(p == p0 + present(last));
        assert forall|q: int| #![trigger p[q]] 0 <= q < p.len() implies exists|k: int|
            0 <= k < c.len() && #[trigger] c[k] == Some(p[q]) by {
            if q < p0.len() {
                let k = choose|k: int| 0 <= k < c0.len() && #[trigger] c0[k] == Some(p0[q]);
                assert(c[k] == c0[k]);
            } else {
                assert(c[c.len() - 1] == Some(p[q]));
            }
        }
        assert forall|k: int| 0 <= k < c.len() && (#[trigger] c[k]) is Some implies exists|q: int|
            0 <= q < p.len() && p[q] == c[k]->0 by {
            if k < c.len() - 1 {
                assert(c0[k] == c[k]);
                let q = choose|q: int| 0 <= q < p0.len() && p0[q] == c0[k]->0;
                assert(p[q] == p0[q]);
            } else {
                assert(p[p0.len() as int] == c[k]->0);
            }
        }
    }
}

proof fn lemma_section_id_injective(n: Seq<char>, a: Seq<char>, b: Seq<char>)
    requires
        section_id(n, a) == section_id(n, b),
    ensures
        a == b,
{
    reveal_strlit("::");
    let sa = section_id(n, a);
    let sb = section_id(n, b);
    assert(sa.subrange(n.len() + 2int, sa.len() as int) =~= a);
    assert(sb.subrange(n.len() + 2int, sb.len() as int) =~= b);
}

/// Each section of a module's tree is the section of one record-bearing
/// field: its identifier is `{module}::{kind}` for that field's kind, and it
/// holds as many items as the field holds records (one for an optional
/// record). Each non-empty field has such a section.
#[verifier::rlimit(80)]
pub proof fn lemma_sections_by_id(m: Module)
    ensures
        forall|q: int, k: int|
            0 <= q < module_view(m).sections.len() && 0 <= k < 26 && (#[trigger] module_view(m).sections[q]).id
                == section_id(m.name@, #[trigger] section_kinds()[k]) ==> module_view(m).sections[q].items.len()
                == collection_sizes(m)[k],
        forall|k: int|
            0 <= k < 26 && #[trigger] collection_sizes(m)[k] > 0 ==> exists|q: int|
                0 <= q < module_view(m).sections.len() && module_view(m).sections[q].id == section_id(
                    m.name@,
                    section_kinds()[k],
                ),
{
    let c = candidate_sections(m);
    let sizes = collection_sizes(m);
    let kinds = section_kinds();
    let secs = module_view(m).sections;
    assert(c.len() == 26);
    assert forall|k: int|
        0 <= k < 26 implies match #[trigger] c[k] {
        Some(s) => s.id == section_id(m.name@, kinds[k]) && s.items.len() == sizes[k] && sizes[k] > 0,
        None => sizes[k] == 0,
    } by {}
    lemma_present_members(c);
    lemma_section_kinds_distinct();
    assert forall|q: int, k: int|
        0 <= q < secs.len() && 0 <= k < 26 && (#[trigger] secs[q]).id == section_id(m.name@, #[trigger] kinds[k])
        implies secs[q].items.len() == sizes[k] by {
        let k2 = choose|k2: int| 0 <= k2 < c.len() && #[trigger] c[k2] == Some(secs[q]);
        lemma_section_id_injective(m.name@, kinds[k], kinds[k2]);
    }
    assert forall|k: int| 0 <= k < 26 && #[trigger] sizes[k] > 0 implies exists|q: int|
        0 <= q < secs.len() && secs[q].id == section_id(m.name@, kinds[k]) by {
        assert(c[k] is Some);
    }
}

} // verus!
