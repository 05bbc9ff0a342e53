//! Symbol import: the symbol table of a binary as a sorted list of named
//! symbols, and new measurements made from such a list.

use vstd::prelude::*;
use crate::access::only_module_changed;
use crate::error::EditorError;
use crate::model::{DataType, Document, Measurement, Module, Real};

verus! {

broadcast use vstd::seq_lib::group_to_multiset_ensures;

/// A named symbol of a binary's symbol table.
pub struct ElfSymbol {
    pub name: String,
    pub address: u64,
    pub size: u64,
    pub bind: String,
    pub type_str: String,
    pub section: String,
}

/// A symbol table entry as the object file reader gives it: the name found
/// in the string table, if any, and the entry's raw fields.
pub struct RawSymbol {
    pub name: Option<String>,
    pub value: u64,
    pub size: u64,
    pub symbol_type: u8,
    pub binding: u8,
    pub section_index: usize,
}

/// The name of a symbol type.
pub open spec fn symbol_type_name(t: u8) -> Seq<char> {
    if t == 0 {
        "NOTYPE"@
    } else if t == 1 {
        "OBJECT"@
    } else if t == 2 {
        "FUNC"@
    } else if t == 3 {
        "SECTION"@
    } else if t == 4 {
        "FILE"@
    } else if t == 5 {
        "COMMON"@
    } else if t == 6 {
        "TLS"@
    } else if t == 7 {
        "NUM"@
    } else if t == 10 {
        "GNU_IFUNC"@
    } else {
        "UNKNOWN_STT"@
    }
}

/// The name of a symbol binding.
pub open spec fn symbol_binding_name(b: u8) -> Seq<char> {
    if b == 0 {
        "LOCAL"@
    } else if b == 1 {
        "GLOBAL"@
    } else if b == 2 {
        "WEAK"@
    } else if b == 3 {
        "NUM"@
    } else if b == 10 {
        "GNU_UNIQUE"@
    } else {
        "UNKNOWN_STB"@
    }
}

/// Relies on `goblin::elf::sym::type_to_str`: the name of a symbol type.
#[verifier::external_body]
fn symbol_type_text(t: u8) -> (r: &'static str)
    ensures
        r@ == symbol_type_name(t),
{
    goblin::elf::sym::type_to_str(t)
}

/// Relies on `goblin::elf::sym::bind_to_str`: the name of a symbol binding.
#[verifier::external_body]
fn symbol_binding_text(b: u8) -> (r: &'static str)
    ensures
        r@ == symbol_binding_name(b),
{
    goblin::elf::sym::bind_to_str(b)
}

/// Whether text `a` comes no later than `b` in code point order.
pub open spec fn text_le(a: Seq<char>, b: Seq<char>) -> bool
    decreases a.len(),
{
    if a.len() == 0 {
        true
    } else if b.len() == 0 {
        false
    } else if a[0] != b[0] {
        a[0] < b[0]
    } else {
        text_le(a.drop_first(), b.drop_first())
    }
}

pub proof fn lemma_text_le_total(a: Seq<char>, b: Seq<char>)
    ensures
        text_le(a, b) || text_le(b, a),
    decreases a.len(),
{
    if a.len() > 0 && b.len() > 0 && a[0] == b[0] {
        lemma_text_le_total(a.drop_first(), b.drop_first());
    }
}

pub proof fn lemma_text_le_transitive(a: Seq<char>, b: Seq<char>, c: Seq<char>)
    requires
        text_le(a, b),
        text_le(b, c),
    ensures
        text_le(a, c),
    decreases a.len(),
{
    if a.len() > 0 && b.len() > 0 && c.len() > 0 && a[0] == b[0] && b[0] == c[0] {
        lemma_text_le_transitive(a.drop_first(), b.drop_first(), c.drop_first());
    }
}

fn text_le_exec(a: &Vec<char>, b: &Vec<char>) -> (r: bool)
    ensures
        r == text_le(a@, b@),
{
    let mut k: usize = 0;
    assert(a@.subrange(0, a@.len() as int) =~= a@);
    assert(b@.subrange(0, b@.len() as int) =~= b@);
    while k < a.len() && k < b.len() && a[k] == b[k]
        invariant
            k <= a@.len(),
            k <= b@.len(),
            text_le(a@, b@) == text_le(a@.subrange(k as int, a@.len() as int), b@.subrange(k as int, b@.len() as int)),
        decreases a@.len() - k,
    {
        let ghost sa = a@.subrange(k as int, a@.len() as int);
        let ghost sb = b@.subrange(k as int, b@.len() as int);
        assert(sa.drop_first() =~= a@.subrange(k + 1, a@.len() as int));
        assert(sb.drop_first() =~= b@.subrange(k + 1, b@.len() as int));
        k = k + 1;
    }
    if k == a.len() {
        true
    } else if k == b.len() {
        false
    } else {
        a[k] < b[k]
    }
}

/// The symbols sorted by name.
pub open spec fn sorted_by_name(s: Seq<ElfSymbol>) -> bool {
    forall|i: int, j: int| 0 <= i < j < s.len() ==> text_le(s[i].name@, s[j].name@)
}

fn chars_of(s: &String) -> (r: Vec<char>)
    ensures
        r@ == s@,
{
    let n = s.as_str().unicode_len();
    let mut out: Vec<char> = Vec::new();
    for i in 0..n
        invariant
            n == s@.len(),
            out@ == s@.take(i as int),
    {
        out.push(s.as_str().get_char(i));
        assert(s@.take(i + 1) =~= s@.take(i as int).push(s@[i as int]));
    }
    assert(s@.take(n as int) =~= s@);
    out
}

/// `r` holds the symbols of `s` rearranged, `r[k]` being `s[p[k]]`, with
/// symbols of equal names in their order in `s`.
pub open spec fn stable_arrangement(s: Seq<ElfSymbol>, r: Seq<ElfSymbol>, p: Seq<int>) -> bool {
    &&& r.len() == s.len()
    &&& p.len() == r.len()
    &&& forall|k: int| 0 <= k < r.len() ==> 0 <= #[trigger] p[k] < s.len() && r[k] == s[p[k]]
    &&& forall|a: int, b: int| 0 <= a < b < r.len() ==> p[a] != p[b]
    &&& forall|a: int, b: int| 0 <= a < b < r.len() && r[a].name@ == r[b].name@ ==> p[a] < p[b]
}

pub proof fn lemma_text_le_reflexive(a: Seq<char>)
    ensures
        text_le(a, a),
    decreases a.len(),
{
    if a.len() > 0 {
        lemma_text_le_reflexive(a.drop_first());
    }
}

/// The symbols sorted by name; symbols of equal names keep their order.
pub fn sort_by_name(symbols: Vec<ElfSymbol>) -> (r: Vec<ElfSymbol>)
    ensures
        sorted_by_name(r@),
        r@.to_multiset() == symbols@.to_multiset(),
        exists|p: Seq<int>| stable_arrangement(symbols@, r@, p),
{
    let mut out: Vec<ElfSymbol> = Vec::new();
    let mut keys: Vec<Vec<char>> = Vec::new();
    let mut rest = symbols;
    let ghost all = rest@;
    let mut taken: usize = 0;
    let total = rest.len();
    let ghost mut places: Seq<int> = Seq::empty();
    // Take the symbols from the back, so that each one is placed before the
    // equal names already placed.
    while rest.len() > 0
        invariant
            rest@ == all.take(all.len() - taken),
            taken <= all.len(),
            total == all.len(),
            out@.len() == keys@.len(),
            forall|k: int| 0 <= k < keys@.len() ==> #[trigger] keys@[k]@ == out@[k].name@,
            sorted_by_name(out@),
            out@.to_multiset() == all.skip(all.len() - taken).to_multiset(),
            places.len() == out@.len(),
            out@.len() == taken,
            forall|k: int|
                0 <= k < out@.len() ==> all.len() - taken <= #[trigger] places[k] < all.len() && out@[k]
                    == all[places[k]],
            forall|a: int, b: int| 0 <= a < b < out@.len() ==> places[a] != places[b],
            forall|a: int, b: int|
                0 <= a < b < out@.len() && out@[a].name@ == out@[b].name@ ==> places[a] < places[b],
        decreases rest@.len(),
    {
        let ghost before = out@;
        let x = rest.pop().unwrap();
        let key = chars_of(&x.name);
        let mut p: usize = 0;
        while p < out.len() && !text_le_exec(&key, &keys[p])
            invariant
                p <= out@.len(),
                key@ == x.name@,
                out@.len() == keys@.len(),
                forall|k: int| 0 <= k < keys@.len() ==> #[trigger] keys@[k]@ == out@[k].name@,
                forall|k: int| 0 <= k < p ==> !text_le(x.name@, (#[trigger] out@[k]).name@),
            decreases out@.len() - p,
        {
            p = p + 1;
        }
        proof {
            assert forall|k: int| 0 <= k < p implies text_le((#[trigger] out@[k]).name@, x.name@) by {
                lemma_text_le_total(x.name@, out@[k].name@);
            }
            if p < out@.len() {
                assert forall|k: int| p <= k < out@.len() implies text_le(x.name@, (#[trigger] out@[k]).name@) by {
                    if k > p {
                        lemma_text_le_transitive(x.name@, out@[p as int].name@, out@[k].name@);
                    }
                }
            }
        }
        proof {
            assert forall|k: int| 0 <= k < p implies (#[trigger] out@[k]).name@ != x.name@ by {
                if out@[k].name@ == x.name@ {
                    lemma_text_le_reflexive(x.name@);
                }
            }
        }
        let ghost idx: int = all.len() - taken - 1;
        let ghost old_places = places;
        out.insert(p, x);
        keys.insert(p, key);
        proof {
            places = old_places.insert(p as int, idx);
            assert(all[idx] == x);
            let t = out@;
            assert(t.remove(p as int) =~= before);
            assert(t[p as int] == x);
            assert(t.to_multiset() =~= before.to_multiset().insert(x));
            let idx = all.len() - taken - 1;
            assert(all.skip(idx) =~= seq![x] + all.skip(idx + 1));
            assert(all.skip(idx).drop_first() =~= all.skip(idx + 1));
            assert(all.skip(idx)[0] == x);
            assert(all.skip(idx).to_multiset() =~= all.skip(idx + 1).to_multiset().insert(x)) by {
                let u = all.skip(idx);
                assert(u.remove(0) =~= all.skip(idx + 1));
            }
            assert forall|a: int, b: int| 0 <= a < b < t.len() implies text_le(t[a].name@, t[b].name@) by {
                if a < p && b > p {
                    lemma_text_le_transitive(t[a].name@, x.name@, t[b].name@);
                }
            }
        }
        taken = taken + 1;
    }
    assert(all.skip(0) =~= all);
    assert(stable_arrangement(all, out@, places));
    out
}


/// Whether a table entry has a non-empty name.
pub open spec fn has_name(r: RawSymbol) -> bool {
    r.name matches Some(n) && n@.len() > 0
}

/// The entries of a symbol table that have a non-empty name, in order.
pub open spec fn named_entries(raw: Seq<RawSymbol>) -> Seq<RawSymbol>
    decreases raw.len(),
{
    if raw.len() == 0 {
        Seq::empty()
    } else if has_name(raw.last()) {
        named_entries(raw.drop_last()).push(raw.last())
    } else {
        named_entries(raw.drop_last())
    }
}

/// The name of the section at `index`: empty when there is no such section
/// or its name could not be read.
pub open spec fn section_name(sections: Seq<Option<String>>, index: usize) -> Seq<char> {
    if index < sections.len() {
        match sections[index as int] {
            Some(t) => t@,
            None => Seq::empty(),
        }
    } else {
        Seq::empty()
    }
}

/// `s` is the symbol that table entry `r` describes.
pub open spec fn symbol_from_raw(r: RawSymbol, sections: Seq<Option<String>>, s: ElfSymbol) -> bool {
    &&& r.name == Some(s.name)
    &&& s.address == r.value
    &&& s.size == r.size
    &&& s.bind@ == symbol_binding_name(r.binding)
    &&& s.type_str@ == symbol_type_name(r.symbol_type)
    &&& s.section@ == section_name(sections, r.section_index)
}

/// `t` holds, in table order, the symbols of the named entries of `raw`.
pub open spec fn table_symbols(raw: Seq<RawSymbol>, sections: Seq<Option<String>>, t: Seq<ElfSymbol>) -> bool {
    let named = named_entries(raw);
    &&& t.len() == named.len()
    &&& forall|i: int| 0 <= i < t.len() ==> symbol_from_raw(named[i], sections, #[trigger] t[i])
}

fn section_text(sections: &Vec<Option<String>>, index: usize) -> (r: String)
    ensures
        r@ == section_name(sections@, index),
{
    if index < sections.len() {
        match &sections[index] {
            Some(t) => t.clone(),
            None => String::new(),
        }
    } else {
        String::new()
    }
}

/// The symbols of the named entries of a symbol table, in table order.
pub fn symbols_in_table(raw: Vec<RawSymbol>, sections: &Vec<Option<String>>) -> (r: Vec<ElfSymbol>)
    ensures
        table_symbols(raw@, sections@, r@),
{
    let ghost all = raw@;
    let mut out: Vec<ElfSymbol> = Vec::new();
    let n = raw.len();
    for i in 0..n
        invariant
            n == all.len(),
            raw@ == all,
            table_symbols(all.take(i as int), sections@, out@),
    {
        assert(all.take(i + 1).drop_last() =~= all.take(i as int));
        let entry = &raw[i];
        match &entry.name {
            Some(name) => {
                if !name.as_str().is_empty() {
                    let s = ElfSymbol {
                        name: name.clone(),
                        address: entry.value,
                        size: entry.size,
                        bind: String::from_str(symbol_binding_text(entry.binding)),
                        type_str: String::from_str(symbol_type_text(entry.symbol_type)),
                        section: section_text(sections, entry.section_index),
                    };
                    out.push(s);
                }
            },
            None => {},
        }
    }
    assert(all.take(n as int) =~= all);
    out
}

/// The symbols of the named entries of a symbol table, sorted by name;
/// symbols of equal names stay in table order.
pub fn load_elf_symbols(raw: Vec<RawSymbol>, sections: &Vec<Option<String>>) -> (r: Vec<ElfSymbol>)
    ensures
        sorted_by_name(r@),
        exists|t: Seq<ElfSymbol>, p: Seq<int>|
            table_symbols(raw@, sections@, t) && stable_arrangement(t, r@, p),
{
    let listed = symbols_in_table(raw, sections);
    let ghost t = listed@;
    let r = sort_by_name(listed);
    let ghost p = choose|p: Seq<int>| stable_arrangement(t, r@, p);
    assert(table_symbols(raw@, sections@, t) && stable_arrangement(t, r@, p));
    r
}

// Measurements made from symbols.

/// The text of a real value zero.
pub open spec fn is_zero(x: Real) -> bool {
    x.bits == 0 && x.text@ == "0"@
}

/// The bit pattern of 255.0 as an IEEE-754 double.
pub const BITS_255: u64 = 0x406F_E000_0000_0000;

pub open spec fn is_255(x: Real) -> bool {
    x.bits == BITS_255 && x.text@ == "255"@
}

/// `x` is the measurement made from symbol `s`: named like it, one unsigned
/// byte at the symbol's address cut to 32 bits, limits 0 and 255,
/// resolution 1, accuracy 0, no conversion method, nothing else set.
pub open spec fn imported_measurement(s: ElfSymbol, x: Measurement) -> bool {
    &&& x.name == s.name
    &&& x.long_identifier@ == Seq::<char>::empty()
    &&& x.datatype == DataType::Ubyte
    &&& x.conversion@ == "NO_COMPU_METHOD"@
    &&& x.resolution == 1
    &&& is_zero(x.accuracy)
    &&& is_zero(x.lower_limit)
    &&& is_255(x.upper_limit)
    &&& x.ecu_address == Some((s.address % 0x1_0000_0000) as u32)
    &&& x.address_type is None
    &&& x.ecu_address_extension is None
    &&& x.byte_order is None
    &&& x.array_size is None
    &&& x.bit_mask is None
    &&& x.bit_operation is None
    &&& x.display_identifier is None
    &&& x.format is None
    &&& x.function_list is None
    &&& x.layout is None
    &&& x.matrix_dim is None
    &&& x.max_refresh is None
    &&& x.model_link is None
    &&& x.phys_unit is None
    &&& x.read_write is None
    &&& x.ref_memory_segment is None
    &&& x.symbol_link is None
    &&& x.var_virtual is None
    &&& x.annotations == 0
    &&& x.if_data_blocks == 0
}

fn zero() -> (r: Real)
    ensures
        is_zero(r),
{
    proof {
        reveal_strlit("0");
    }
    Real { bits: 0, text: String::from_str("0") }
}

/// The measurement made from symbol `s`.
pub fn measurement_from_symbol(s: &ElfSymbol) -> (r: Measurement)
    ensures
        imported_measurement(*s, r),
{
    Measurement {
        name: s.name.clone(),
        long_identifier: String::new(),
        datatype: DataType::Ubyte,
        conversion: String::from_str("NO_COMPU_METHOD"),
        resolution: 1,
        accuracy: zero(),
        lower_limit: zero(),
        upper_limit: Real { bits: BITS_255, text: String::from_str("255") },
        address_type: None,
        ecu_address: Some((s.address % 0x1_0000_0000) as u32),
        ecu_address_extension: None,
        byte_order: None,
        array_size: None,
        bit_mask: None,
        bit_operation: None,
        display_identifier: None,
        format: None,
        function_list: None,
        layout: None,
        matrix_dim: None,
        max_refresh: None,
        model_link: None,
        phys_unit: None,
        read_write: None,
        ref_memory_segment: None,
        symbol_link: None,
        var_virtual: None,
        annotations: 0,
        if_data_blocks: 0,
    }
}

/// The position of the first module named `name`.
pub open spec fn first_module_named(modules: Seq<Module>, name: Seq<char>) -> Option<int>
    decreases modules.len(),
{
    if modules.len() == 0 {
        None
    } else {
        match first_module_named(modules.drop_last(), name) {
            Some(i) => Some(i),
            None => if modules.last().name@ == name {
                Some(modules.len() - 1)
            } else {
                None
            },
        }
    }
}

pub proof fn lemma_first_module_named(modules: Seq<Module>, name: Seq<char>)
    ensures
        match first_module_named(modules, name) {
            Some(i) => 0 <= i < modules.len() && modules[i].name@ == name,
            None => forall|k: int| 0 <= k < modules.len() ==> (#[trigger] modules[k]).name@ != name,
        },
    decreases modules.len(),
{
    if modules.len() > 0 {
        lemma_first_module_named(modules.drop_last(), name);
        assert forall|k: int| 0 <= k < modules.len() - 1 implies modules.drop_last()[k] == modules[k] by {}
    }
}

fn find_module(document: &Document, name: &String) -> (r: Option<usize>)
    ensures
        match r {
            Some(i) => first_module_named(document.modules@, name@) == Some(i as int),
            None => first_module_named(document.modules@, name@) is None,
        },
{
    let n = document.modules.len();
    for i in 0..n
        invariant
            n == document.modules@.len(),
            first_module_named(document.modules@.take(i as int), name@) is None,
    {
        assert(document.modules@.take(i + 1).drop_last() =~= document.modules@.take(i as int));
        if document.modules[i].name == *name {
            proof {
                lemma_first_module_prefix(document.modules@, name@, i + 1);
            }
            return Some(i);
        }
    }
    assert(document.modules@.take(n as int) =~= document.modules@);
    None
}

proof fn lemma_first_module_prefix(modules: Seq<Module>, name: Seq<char>, k: int)
    requires
        0 < k <= modules.len(),
        first_module_named(modules.take(k - 1), name) is None,
        modules[k - 1].name@ == name,
    ensures
        first_module_named(modules, name) == Some(k - 1),
{
    assert(modules.take(k).drop_last() =~= modules.take(k - 1));
    lemma_first_module_prefix_extend(modules, name, k);
}

proof fn lemma_first_module_prefix_extend(modules: Seq<Module>, name: Seq<char>, k: int)
    requires
        0 < k <= modules.len(),
        first_module_named(modules.take(k), name) is Some,
    ensures
        first_module_named(modules, name) == first_module_named(modules.take(k), name),
    decreases modules.len() - k,
{
    if k < modules.len() {
        assert(modules.take(k + 1).drop_last() =~= modules.take(k));
        lemma_first_module_prefix_extend(modules, name, k + 1);
    } else {
        assert(modules.take(k) =~= modules);
    }
}

/// The module that an import goes to: the first module of the given name,
/// or the first module when no name is given.
pub open spec fn import_target(modules: Seq<Module>, module_name: Option<String>) -> Option<int> {
    match module_name {
        Some(n) => first_module_named(modules, n@),
        None => if modules.len() > 0 {
            Some(0)
        } else {
            None
        },
    }
}

/// What importing `symbols` into `d0` gives: `d1` after.
pub open spec fn import_outcome(
    d0: Document,
    d1: Document,
    module_name: Option<String>,
    symbols: Seq<ElfSymbol>,
    r: Result<(), EditorError>,
) -> bool {
    match import_target(d0.modules@, module_name) {
        None => d1 == d0 && match module_name {
            Some(n) => r matches Err(EditorError::NotFound(m)) && m == n,
            None => r matches Err(EditorError::NoModules),
        },
        Some(i) => {
            let before = d0.modules@[i].measurements@;
            let after = d1.modules@[i].measurements@;
            &&& r is Ok
            &&& only_module_changed(d0, d1, i)
            &&& d1.modules@[i].characteristics == d0.modules@[i].characteristics
            &&& d1.modules@[i].axis_pts == d0.modules@[i].axis_pts
            &&& after.len() == before.len() + symbols.len()
            &&& after.take(before.len() as int) == before
            &&& forall|k: int| 0 <= k < symbols.len() ==> imported_measurement(
                symbols[k],
                #[trigger] after[before.len() + k],
            )
        },
    }
}

/// Appends to the target module one measurement per symbol, in order.
/// Existing measurements, of the same names too, stay as they are.
pub fn create_measurements_from_elf(
    document: &mut Document,
    module_name: Option<String>,
    symbols: &Vec<ElfSymbol>,
) -> (r: Result<(), EditorError>)
    ensures
        import_outcome(*old(document), *final(document), module_name, symbols@, r),
{
    let i = match &module_name {
        Some(n) => match find_module(document, n) {
            Some(i) => i,
            None => return Err(EditorError::NotFound(n.clone())),
        },
        None => {
            if document.modules.len() == 0 {
                return Err(EditorError::NoModules);
            }
            0
        },
    };
    proof {
        if let Some(n) = module_name {
            lemma_first_module_named(document.modules@, n@);
        }
    }
    let ghost d0 = *document;
    let ghost before = d0.modules@[i as int].measurements@;
    let n = symbols.len();
    for k in 0..n
        invariant
            n == symbols@.len(),
            i < d0.modules@.len(),
            same_project_modules(d0, *document, i as int),
            document.modules@[i as int].measurements@.len() == before.len() + k,
            document.modules@[i as int].measurements@.take(before.len() as int) == before,
            forall|q: int| 0 <= q < k ==> imported_measurement(
                symbols@[q],
                #[trigger] document.modules@[i as int].measurements@[before.len() + q],
            ),
    {
        let m = measurement_from_symbol(&symbols[k]);
        document.modules[i].measurements.push(m);
    }
    Ok(())
}

/// `d1` is `d0` but for the measurements of module `i`.
pub open spec fn same_project_modules(d0: Document, d1: Document, i: int) -> bool {
    &&& only_module_changed(d0, d1, i)
    &&& d1.modules@[i].characteristics == d0.modules@[i].characteristics
    &&& d1.modules@[i].axis_pts == d0.modules@[i].axis_pts
}

} // verus!
