//! Typed access to measurements, characteristics and axis points objects:
//! read the first record of a name, or replace its editable fields after
//! validating the input.

use vstd::prelude::*;
use crate::details::A2lDetailProvider;
use crate::error::{EditorError, HexField};
use crate::hex::{parse_hex_u32, parse_hex_u64, parsed_hex};
use crate::model::{AxisPts, Characteristic, CharacteristicType, DataType, Document, Measurement, Module, Real};
use crate::directory::same_project;
use crate::render::{hex_string, hex_text};
use crate::text::{same_text, trim_of, trim_text, upper_of, upper_text};

verus! {

impl Real {
    /// A copy of this value.
    pub fn duplicate(&self) -> (r: Real)
        ensures
            r == *self,
    {
        Real { bits: self.bits, text: self.text.clone() }
    }
}

/// The editable fields of a measurement as exchanged with the front end.
pub struct MeasurementData {
    pub name: String,
    pub long_identifier: String,
    pub datatype: String,
    pub conversion: String,
    pub resolution: u16,
    pub accuracy: Real,
    pub lower_limit: Real,
    pub upper_limit: Real,
    pub ecu_address: Option<String>,
}

/// The editable fields of a characteristic as exchanged with the front end.
pub struct CharacteristicData {
    pub name: String,
    pub long_identifier: String,
    pub characteristic_type: String,
    pub address: String,
    pub deposit: String,
    pub max_diff: Real,
    pub conversion: String,
    pub lower_limit: Real,
    pub upper_limit: Real,
    pub bit_mask: Option<String>,
}

/// The editable fields of an axis points object as exchanged with the front end.
pub struct AxisPtsData {
    pub name: String,
    pub long_identifier: String,
    pub address: String,
    pub input_quantity: String,
    pub deposit_record: String,
    pub max_diff: Real,
    pub conversion: String,
    pub max_axis_points: u16,
    pub lower_limit: Real,
    pub upper_limit: Real,
}

/// The name under which a data type is exchanged.
pub open spec fn datatype_name(t: DataType) -> Seq<char> {
    match t {
        DataType::Ubyte => "UBYTE"@,
        DataType::Sbyte => "SBYTE"@,
        DataType::Uword => "UWORD"@,
        DataType::Sword => "SWORD"@,
        DataType::Ulong => "ULONG"@,
        DataType::Slong => "SLONG"@,
        DataType::AUint64 => "A_UINT64"@,
        DataType::AInt64 => "A_INT64"@,
        DataType::Float16Ieee => "FLOAT16_IEEE"@,
        DataType::Float32Ieee => "FLOAT32_IEEE"@,
        DataType::Float64Ieee => "FLOAT64_IEEE"@,
    }
}

/// The data type that an upper-case name denotes, synonyms included.
pub open spec fn datatype_of_upper(u: Seq<char>) -> Option<DataType> {
    if u == "UBYTE"@ {
        Some(DataType::Ubyte)
    } else if u == "SBYTE"@ {
        Some(DataType::Sbyte)
    } else if u == "UWORD"@ {
        Some(DataType::Uword)
    } else if u == "SWORD"@ {
        Some(DataType::Sword)
    } else if u == "ULONG"@ {
        Some(DataType::Ulong)
    } else if u == "SLONG"@ {
        Some(DataType::Slong)
    } else if u == "A_UINT64"@ || u == "AUINT64"@ {
        Some(DataType::AUint64)
    } else if u == "A_INT64"@ || u == "AINT64"@ {
        Some(DataType::AInt64)
    } else if u == "FLOAT16_IEEE"@ {
        Some(DataType::Float16Ieee)
    } else if u == "FLOAT32_IEEE"@ {
        Some(DataType::Float32Ieee)
    } else if u == "FLOAT64_IEEE"@ {
        Some(DataType::Float64Ieee)
    } else {
        None
    }
}

/// The name under which a characteristic type is exchanged.
pub open spec fn characteristic_type_name(t: CharacteristicType) -> Seq<char> {
    match t {
        CharacteristicType::Ascii => "ASCII"@,
        CharacteristicType::Curve => "CURVE"@,
        CharacteristicType::Map2d => "MAP"@,
        CharacteristicType::Cuboid => "CUBOID"@,
        CharacteristicType::Cube4 => "CUBE_4"@,
        CharacteristicType::Cube5 => "CUBE_5"@,
        CharacteristicType::ValBlk => "VAL_BLK"@,
        CharacteristicType::Value => "VALUE"@,
    }
}

/// The characteristic type that an upper-case name denotes, synonyms included.
pub open spec fn characteristic_type_of_upper(u: Seq<char>) -> Option<CharacteristicType> {
    if u == "ASCII"@ {
        Some(CharacteristicType::Ascii)
    } else if u == "CURVE"@ {
        Some(CharacteristicType::Curve)
    } else if u == "MAP"@ {
        Some(CharacteristicType::Map2d)
    } else if u == "CUBOID"@ {
        Some(CharacteristicType::Cuboid)
    } else if u == "CUBE_4"@ || u == "CUBE4"@ {
        Some(CharacteristicType::Cube4)
    } else if u == "CUBE_5"@ || u == "CUBE5"@ {
        Some(CharacteristicType::Cube5)
    } else if u == "VAL_BLK"@ || u == "VALBLK"@ {
        Some(CharacteristicType::ValBlk)
    } else if u == "VALUE"@ {
        Some(CharacteristicType::Value)
    } else {
        None
    }
}

pub fn datatype_to_string(t: DataType) -> (r: String)
    ensures
        r@ == datatype_name(t),
{
    let name = match t {
        DataType::Ubyte => "UBYTE",
        DataType::Sbyte => "SBYTE",
        DataType::Uword => "UWORD",
        DataType::Sword => "SWORD",
        DataType::Ulong => "ULONG",
        DataType::Slong => "SLONG",
        DataType::AUint64 => "A_UINT64",
        DataType::AInt64 => "A_INT64",
        DataType::Float16Ieee => "FLOAT16_IEEE",
        DataType::Float32Ieee => "FLOAT32_IEEE",
        DataType::Float64Ieee => "FLOAT64_IEEE",
    };
    String::from_str(name)
}

/// The data type that a name denotes, in any letter case.
pub fn string_to_datatype(s: &str) -> (r: Option<DataType>)
    ensures
        r == datatype_of_upper(upper_of(s@)),
{
    let u = upper_text(s);
    datatype_from_upper(u.as_str())
}

/// The data type that an upper-case name denotes, synonyms included.
pub fn datatype_from_upper(u: &str) -> (r: Option<DataType>)
    ensures
        r == datatype_of_upper(u@),
{
    if same_text(u, "UBYTE") {
        Some(DataType::Ubyte)
    } else if same_text(u, "SBYTE") {
        Some(DataType::Sbyte)
    } else if same_text(u, "UWORD") {
        Some(DataType::Uword)
    } else if same_text(u, "SWORD") {
        Some(DataType::Sword)
    } else if same_text(u, "ULONG") {
        Some(DataType::Ulong)
    } else if same_text(u, "SLONG") {
        Some(DataType::Slong)
    } else if same_text(u, "A_UINT64") || same_text(u, "AUINT64") {
        Some(DataType::AUint64)
    } else if same_text(u, "A_INT64") || same_text(u, "AINT64") {
        Some(DataType::AInt64)
    } else if same_text(u, "FLOAT16_IEEE") {
        Some(DataType::Float16Ieee)
    } else if same_text(u, "FLOAT32_IEEE") {
        Some(DataType::Float32Ieee)
    } else if same_text(u, "FLOAT64_IEEE") {
        Some(DataType::Float64Ieee)
    } else {
        None
    }
}

pub fn characteristic_type_to_string(t: CharacteristicType) -> (r: String)
    ensures
        r@ == characteristic_type_name(t),
{
    let name = match t {
        CharacteristicType::Ascii => "ASCII",
        CharacteristicType::Curve => "CURVE",
        CharacteristicType::Map2d => "MAP",
        CharacteristicType::Cuboid => "CUBOID",
        CharacteristicType::Cube4 => "CUBE_4",
        CharacteristicType::Cube5 => "CUBE_5",
        CharacteristicType::ValBlk => "VAL_BLK",
        CharacteristicType::Value => "VALUE",
    };
    String::from_str(name)
}

/// The characteristic type that a name denotes, in any letter case.
pub fn string_to_characteristic_type(s: &str) -> (r: Option<CharacteristicType>)
    ensures
        r == characteristic_type_of_upper(upper_of(s@)),
{
    let u = upper_text(s);
    characteristic_type_from_upper(u.as_str())
}

/// The characteristic type that an upper-case name denotes, synonyms included.
pub fn characteristic_type_from_upper(u: &str) -> (r: Option<CharacteristicType>)
    ensures
        r == characteristic_type_of_upper(u@),
{
    if same_text(u, "ASCII") {
        Some(CharacteristicType::Ascii)
    } else if same_text(u, "CURVE") {
        Some(CharacteristicType::Curve)
    } else if same_text(u, "MAP") {
        Some(CharacteristicType::Map2d)
    } else if same_text(u, "CUBOID") {
        Some(CharacteristicType::Cuboid)
    } else if same_text(u, "CUBE_4") || same_text(u, "CUBE4") {
        Some(CharacteristicType::Cube4)
    } else if same_text(u, "CUBE_5") || same_text(u, "CUBE5") {
        Some(CharacteristicType::Cube5)
    } else if same_text(u, "VAL_BLK") || same_text(u, "VALBLK") {
        Some(CharacteristicType::ValBlk)
    } else if same_text(u, "VALUE") {
        Some(CharacteristicType::Value)
    } else {
        None
    }
}

// Locating records by name.

/// The first position in `v` of a record named `name`.
pub open spec fn first_named<T: A2lDetailProvider>(v: Seq<T>, name: Seq<char>) -> Option<int>
    decreases v.len(),
{
    if v.len() == 0 {
        None
    } else {
        match first_named(v.drop_last(), name) {
            Some(j) => Some(j),
            None => if v.last().spec_name() == name {
                Some(v.len() - 1)
            } else {
                None
            },
        }
    }
}

pub proof fn lemma_first_named<T: A2lDetailProvider>(v: Seq<T>, name: Seq<char>)
    ensures
        match first_named(v, name) {
            Some(j) => 0 <= j < v.len() && v[j].spec_name() == name && forall|k: int|
                0 <= k < j ==> (#[trigger] v[k]).spec_name() != name,
            None => forall|k: int| 0 <= k < v.len() ==> (#[trigger] v[k]).spec_name() != name,
        },
    decreases v.len(),
{
    if v.len() > 0 {
        lemma_first_named(v.drop_last(), name);
        assert forall|k: int| 0 <= k < v.len() - 1 implies v.drop_last()[k] == v[k] by {}
    }
}

/// The first position in `v` of a record named `name`.
pub fn find_named<T: A2lDetailProvider>(v: &Vec<T>, name: &String) -> (r: Option<usize>)
    ensures
        match r {
            Some(j) => first_named(v@, name@) == Some(j as int),
            None => first_named(v@, name@) is None,
        },
{
    let n = v.len();
    for i in 0..n
        invariant
            n == v@.len(),
            first_named(v@.take(i as int), name@) is None,
    {
        assert(v@.take(i + 1).drop_last() =~= v@.take(i as int));
        if *v[i].get_name() == *name {
            proof {
                lemma_first_named_prefix(v@, name@, i + 1);
            }
            return Some(i);
        }
    }
    assert(v@.take(n as int) =~= v@);
    None
}

proof fn lemma_first_named_prefix<T: A2lDetailProvider>(v: Seq<T>, name: Seq<char>, k: int)
    requires
        0 < k <= v.len(),
        first_named(v.take(k - 1), name) is None,
        v[k - 1].spec_name() == name,
    ensures
        first_named(v, name) == Some(k - 1),
{
    assert(v.take(k).drop_last() =~= v.take(k - 1));
    lemma_first_named(v.take(k), name);
    lemma_first_named(v, name);
    match first_named(v, name) {
        Some(j) => {
            assert(v.take(k)[j] == v[j]);
            if j > k - 1 {
                assert(v[k - 1].spec_name() != name);
            }
        },
        None => {
            assert(v[k - 1].spec_name() != name);
        },
    }
}

/// The location (module, position) of the first measurement named `name`:
/// in the first module that has one, its first.
pub open spec fn measurement_location(modules: Seq<Module>, name: Seq<char>) -> Option<(int, int)>
    decreases modules.len(),
{
    if modules.len() == 0 {
        None
    } else {
        match measurement_location(modules.drop_last(), name) {
            Some(p) => Some(p),
            None => match first_named(modules.last().measurements@, name) {
                Some(j) => Some((modules.len() - 1, j)),
                None => None,
            },
        }
    }
}

pub open spec fn characteristic_location(modules: Seq<Module>, name: Seq<char>) -> Option<(int, int)>
    decreases modules.len(),
{
    if modules.len() == 0 {
        None
    } else {
        match characteristic_location(modules.drop_last(), name) {
            Some(p) => Some(p),
            None => match first_named(modules.last().characteristics@, name) {
                Some(j) => Some((modules.len() - 1, j)),
                None => None,
            },
        }
    }
}

pub open spec fn axis_pts_location(modules: Seq<Module>, name: Seq<char>) -> Option<(int, int)>
    decreases modules.len(),
{
    if modules.len() == 0 {
        None
    } else {
        match axis_pts_location(modules.drop_last(), name) {
            Some(p) => Some(p),
            None => match first_named(modules.last().axis_pts@, name) {
                Some(j) => Some((modules.len() - 1, j)),
                None => None,
            },
        }
    }
}

pub open spec fn opt_location(r: Option<(usize, usize)>) -> Option<(int, int)> {
    match r {
        Some((i, j)) => Some((i as int, j as int)),
        None => None,
    }
}

fn locate_measurement(document: &Document, name: &String) -> (r: Option<(usize, usize)>)
    ensures
        opt_location(r) == measurement_location(document.modules@, name@),
        r matches Some((i, j)) ==> i < document.modules@.len() && j < document.modules@[i as int].measurements@.len(),
{
    let n = document.modules.len();
    for i in 0..n
        invariant
            n == document.modules@.len(),
            measurement_location(document.modules@.take(i as int), name@) is None,
    {
        assert(document.modules@.take(i + 1).drop_last() =~= document.modules@.take(i as int));
        match find_named(&document.modules[i].measurements, name) {
            Some(j) => {
                proof {
                    lemma_first_named(document.modules@[i as int].measurements@, name@);
                    lemma_measurement_location_prefix(document.modules@, name@, i + 1);
                }
                return Some((i, j));
            },
            None => {},
        }
    }
    assert(document.modules@.take(n as int) =~= document.modules@);
    None
}

proof fn lemma_measurement_location_prefix(modules: Seq<Module>, name: Seq<char>, k: int)
    requires
        0 < k <= modules.len(),
        measurement_location(modules.take(k), name) is Some,
    ensures
        measurement_location(modules, name) == measurement_location(modules.take(k), name),
    decreases modules.len() - k,
{
    if k < modules.len() {
        assert(modules.take(k + 1).drop_last() =~= modules.take(k));
        lemma_measurement_location_prefix(modules, name, k + 1);
    } else {
        assert(modules.take(k) =~= modules);
    }
}

fn locate_characteristic(document: &Document, name: &String) -> (r: Option<(usize, usize)>)
    ensures
        opt_location(r) == characteristic_location(document.modules@, name@),
        r matches Some((i, j)) ==> i < document.modules@.len() && j < document.modules@[i as int].characteristics@.len(),
{
    let n = document.modules.len();
    for i in 0..n
        invariant
            n == document.modules@.len(),
            characteristic_location(document.modules@.take(i as int), name@) is None,
    {
        assert(document.modules@.take(i + 1).drop_last() =~= document.modules@.take(i as int));
        match find_named(&document.modules[i].characteristics, name) {
            Some(j) => {
                proof {
                    lemma_first_named(document.modules@[i as int].characteristics@, name@);
                    lemma_characteristic_location_prefix(document.modules@, name@, i + 1);
                }
                return Some((i, j));
            },
            None => {},
        }
    }
    assert(document.modules@.take(n as int) =~= document.modules@);
    None
}

proof fn lemma_characteristic_location_prefix(modules: Seq<Module>, name: Seq<char>, k: int)
    requires
        0 < k <= modules.len(),
        characteristic_location(modules.take(k), name) is Some,
    ensures
        characteristic_location(modules, name) == characteristic_location(modules.take(k), name),
    decreases modules.len() - k,
{
    if k < modules.len() {
        assert(modules.take(k + 1).drop_last() =~= modules.take(k));
        lemma_characteristic_location_prefix(modules, name, k + 1);
    } else {
        assert(modules.take(k) =~= modules);
    }
}

fn locate_axis_pts(document: &Document, name: &String) -> (r: Option<(usize, usize)>)
    ensures
        opt_location(r) == axis_pts_location(document.modules@, name@),
        r matches Some((i, j)) ==> i < document.modules@.len() && j < document.modules@[i as int].axis_pts@.len(),
{
    let n = document.modules.len();
    for i in 0..n
        invariant
            n == document.modules@.len(),
            axis_pts_location(document.modules@.take(i as int), name@) is None,
    {
        assert(document.modules@.take(i + 1).drop_last() =~= document.modules@.take(i as int));
        match find_named(&document.modules[i].axis_pts, name) {
            Some(j) => {
                proof {
                    lemma_first_named(document.modules@[i as int].axis_pts@, name@);
                    lemma_axis_pts_location_prefix(document.modules@, name@, i + 1);
                }
                return Some((i, j));
            },
            None => {},
        }
    }
    assert(document.modules@.take(n as int) =~= document.modules@);
    None
}

proof fn lemma_axis_pts_location_prefix(modules: Seq<Module>, name: Seq<char>, k: int)
    requires
        0 < k <= modules.len(),
        axis_pts_location(modules.take(k), name) is Some,
    ensures
        axis_pts_location(modules, name) == axis_pts_location(modules.take(k), name),
    decreases modules.len() - k,
{
    if k < modules.len() {
        assert(modules.take(k + 1).drop_last() =~= modules.take(k));
        lemma_axis_pts_location_prefix(modules, name, k + 1);
    } else {
        assert(modules.take(k) =~= modules);
    }
}


// Reading and replacing records.

/// How an optional hexadecimal input is read: `Some(None)` when it is absent
/// or blank, `Some(Some(v))` when it denotes `v` below `bound`, `None` when
/// it is malformed.
pub open spec fn optional_hex(o: Option<String>, bound: nat) -> Option<Option<nat>> {
    match o {
        Some(s) => if trim_of(s@).len() == 0 {
            Some(None)
        } else {
            match parsed_hex(s@, bound) {
                Some(v) => Some(Some(v)),
                None => None,
            }
        },
        None => Some(None),
    }
}

pub open spec fn opt_hex_text(o: Option<nat>) -> Option<Seq<char>> {
    match o {
        Some(v) => Some(hex_text(v)),
        None => None,
    }
}

pub open spec fn opt_u32(o: Option<u32>) -> Option<nat> {
    match o {
        Some(v) => Some(v as nat),
        None => None,
    }
}

pub open spec fn opt_u64(o: Option<u64>) -> Option<nat> {
    match o {
        Some(v) => Some(v as nat),
        None => None,
    }
}

fn read_optional_hex_u32(o: &Option<String>) -> (r: Result<Option<u32>, ()>)
    ensures
        match r {
            Ok(v) => optional_hex(*o, 0x1_0000_0000) == Some(opt_u32(v)),
            Err(_) => optional_hex(*o, 0x1_0000_0000) is None,
        },
{
    match o {
        Some(s) => {
            if trim_text(s.as_str()).as_str().is_empty() {
                Ok(None)
            } else {
                match parse_hex_u32(s.as_str()) {
                    Some(v) => Ok(Some(v)),
                    None => Err(()),
                }
            }
        },
        None => Ok(None),
    }
}

fn read_optional_hex_u64(o: &Option<String>) -> (r: Result<Option<u64>, ()>)
    ensures
        match r {
            Ok(v) => optional_hex(*o, 0x1_0000_0000_0000_0000) == Some(opt_u64(v)),
            Err(_) => optional_hex(*o, 0x1_0000_0000_0000_0000) is None,
        },
{
    match o {
        Some(s) => {
            if trim_text(s.as_str()).as_str().is_empty() {
                Ok(None)
            } else {
                match parse_hex_u64(s.as_str()) {
                    Some(v) => Ok(Some(v)),
                    None => Err(()),
                }
            }
        },
        None => Ok(None),
    }
}

fn opt_hex_string(o: Option<u64>) -> (r: Option<String>)
    ensures
        crate::model::opt_text(r) == opt_hex_text(opt_u64(o)),
{
    match o {
        Some(v) => Some(hex_string(v)),
        None => None,
    }
}

/// `d` holds the editable fields of measurement `x`.
pub open spec fn measurement_data_of(x: Measurement, d: MeasurementData) -> bool {
    &&& d.name == x.name
    &&& d.long_identifier == x.long_identifier
    &&& d.datatype@ == datatype_name(x.datatype)
    &&& d.conversion == x.conversion
    &&& d.resolution == x.resolution
    &&& d.accuracy == x.accuracy
    &&& d.lower_limit == x.lower_limit
    &&& d.upper_limit == x.upper_limit
    &&& crate::model::opt_text(d.ecu_address) == opt_hex_text(opt_u32(x.ecu_address))
}

/// `d` holds the editable fields of characteristic `x`.
pub open spec fn characteristic_data_of(x: Characteristic, d: CharacteristicData) -> bool {
    &&& d.name == x.name
    &&& d.long_identifier == x.long_identifier
    &&& d.characteristic_type@ == characteristic_type_name(x.characteristic_type)
    &&& d.address@ == hex_text(x.address as nat)
    &&& d.deposit == x.deposit
    &&& d.max_diff == x.max_diff
    &&& d.conversion == x.conversion
    &&& d.lower_limit == x.lower_limit
    &&& d.upper_limit == x.upper_limit
    &&& crate::model::opt_text(d.bit_mask) == opt_hex_text(opt_u64(x.bit_mask))
}

/// `d` holds the editable fields of axis points object `x`.
pub open spec fn axis_pts_data_of(x: AxisPts, d: AxisPtsData) -> bool {
    &&& d.name == x.name
    &&& d.long_identifier == x.long_identifier
    &&& d.address@ == hex_text(x.address as nat)
    &&& d.input_quantity == x.input_quantity
    &&& d.deposit_record == x.deposit_record
    &&& d.max_diff == x.max_diff
    &&& d.conversion == x.conversion
    &&& d.max_axis_points == x.max_axis_points
    &&& d.lower_limit == x.lower_limit
    &&& d.upper_limit == x.upper_limit
}

/// Measurement `x` with its editable fields replaced.
pub open spec fn updated_measurement(
    x: Measurement,
    d: MeasurementData,
    datatype: DataType,
    address: Option<nat>,
) -> Measurement {
    Measurement {
        name: d.name,
        long_identifier: d.long_identifier,
        datatype: datatype,
        conversion: d.conversion,
        resolution: d.resolution,
        accuracy: d.accuracy,
        lower_limit: d.lower_limit,
        upper_limit: d.upper_limit,
        ecu_address: match address {
            Some(v) => Some(v as u32),
            None => None,
        },
        ..x
    }
}

/// Characteristic `x` with its editable fields replaced.
pub open spec fn updated_characteristic(
    x: Characteristic,
    d: CharacteristicData,
    characteristic_type: CharacteristicType,
    address: nat,
    bit_mask: Option<nat>,
) -> Characteristic {
    Characteristic {
        name: d.name,
        long_identifier: d.long_identifier,
        characteristic_type: characteristic_type,
        address: address as u32,
        deposit: d.deposit,
        max_diff: d.max_diff,
        conversion: d.conversion,
        lower_limit: d.lower_limit,
        upper_limit: d.upper_limit,
        bit_mask: match bit_mask {
            Some(v) => Some(v as u64),
            None => None,
        },
        ..x
    }
}

/// Axis points object `x` with its editable fields replaced.
pub open spec fn updated_axis_pts(x: AxisPts, d: AxisPtsData, address: nat) -> AxisPts {
    AxisPts {
        name: d.name,
        long_identifier: d.long_identifier,
        address: address as u32,
        input_quantity: d.input_quantity,
        deposit_record: d.deposit_record,
        max_diff: d.max_diff,
        conversion: d.conversion,
        max_axis_points: d.max_axis_points,
        lower_limit: d.lower_limit,
        upper_limit: d.upper_limit,
        ..x
    }
}

/// `d1` is `d0` but for module `i`, whose other parts are unchanged.
pub open spec fn only_module_changed(d0: Document, d1: Document, i: int) -> bool {
    &&& same_project(d0, d1)
    &&& 0 <= i < d0.modules@.len()
    &&& forall|k: int| 0 <= k < d0.modules@.len() && k != i ==> #[trigger] d1.modules@[k] == d0.modules@[k]
    &&& d1.modules@[i].name == d0.modules@[i].name
    &&& d1.modules@[i].long_identifier == d0.modules@[i].long_identifier
    &&& d1.modules@[i].catalog == d0.modules@[i].catalog
}

/// `d1` is `d0` with the measurement at (`i`, `j`) replaced by `x`.
pub open spec fn measurement_replaced(d0: Document, d1: Document, i: int, j: int, x: Measurement) -> bool {
    &&& only_module_changed(d0, d1, i)
    &&& d1.modules@[i].measurements@ == d0.modules@[i].measurements@.update(j, x)
    &&& d1.modules@[i].characteristics == d0.modules@[i].characteristics
    &&& d1.modules@[i].axis_pts == d0.modules@[i].axis_pts
}

/// `d1` is `d0` with the characteristic at (`i`, `j`) replaced by `x`.
pub open spec fn characteristic_replaced(d0: Document, d1: Document, i: int, j: int, x: Characteristic) -> bool {
    &&& only_module_changed(d0, d1, i)
    &&& d1.modules@[i].characteristics@ == d0.modules@[i].characteristics@.update(j, x)
    &&& d1.modules@[i].measurements == d0.modules@[i].measurements
    &&& d1.modules@[i].axis_pts == d0.modules@[i].axis_pts
}

/// `d1` is `d0` with the axis points object at (`i`, `j`) replaced by `x`.
pub open spec fn axis_pts_replaced(d0: Document, d1: Document, i: int, j: int, x: AxisPts) -> bool {
    &&& only_module_changed(d0, d1, i)
    &&& d1.modules@[i].axis_pts@ == d0.modules@[i].axis_pts@.update(j, x)
    &&& d1.modules@[i].measurements == d0.modules@[i].measurements
    &&& d1.modules@[i].characteristics == d0.modules@[i].characteristics
}

/// What reading the first measurement named `name` of `d` gives.
pub open spec fn get_measurement_outcome(d: Document, name: String, r: Result<MeasurementData, EditorError>) -> bool {
    match measurement_location(d.modules@, name@) {
        Some((i, j)) => r matches Ok(x) && measurement_data_of(d.modules@[i].measurements@[j], x),
        None => r matches Err(EditorError::NotFound(n)) && n@ == name@,
    }
}

/// What replacing the first measurement named `name` gives: `d1` after, `d0` before.
pub open spec fn update_measurement_outcome(d0: Document, d1: Document, name: String, data: MeasurementData, r: Result<(), EditorError>) -> bool {
    match datatype_of_upper(upper_of(data.datatype@)) {
        None => r matches Err(EditorError::InvalidEnum(t)) && t@ == data.datatype@
            && d1 == d0,
        Some(datatype) => match optional_hex(data.ecu_address, 0x1_0000_0000) {
            None => r matches Err(EditorError::InvalidHex(HexField::Address))
                && d1 == d0,
            Some(address) => match measurement_location(d0.modules@, name@) {
                None => r matches Err(EditorError::NotFound(n)) && n@ == name@
                    && d1 == d0,
                Some((i, j)) => r is Ok && measurement_replaced(
                    d0,
                    d1,
                    i,
                    j,
                    updated_measurement(d0.modules@[i].measurements@[j], data, datatype, address),
                ),
            },
        },
    }
}

/// What reading the first characteristic named `name` of `d` gives.
pub open spec fn get_characteristic_outcome(d: Document, name: String, r: Result<CharacteristicData, EditorError>) -> bool {
    match characteristic_location(d.modules@, name@) {
        Some((i, j)) => r matches Ok(x) && characteristic_data_of(d.modules@[i].characteristics@[j], x),
        None => r matches Err(EditorError::NotFound(n)) && n@ == name@,
    }
}

/// What replacing the first characteristic named `name` gives: `d1` after, `d0` before.
pub open spec fn update_characteristic_outcome(d0: Document, d1: Document, name: String, data: CharacteristicData, r: Result<(), EditorError>) -> bool {
    match characteristic_type_of_upper(upper_of(data.characteristic_type@)) {
        None => r matches Err(EditorError::InvalidEnum(t)) && t@ == data.characteristic_type@
            && d1 == d0,
        Some(ctype) => match parsed_hex(data.address@, 0x1_0000_0000) {
            None => r matches Err(EditorError::InvalidHex(HexField::Address))
                && d1 == d0,
            Some(address) => match optional_hex(data.bit_mask, 0x1_0000_0000_0000_0000) {
                None => r matches Err(EditorError::InvalidHex(HexField::BitMask))
                    && d1 == d0,
                Some(mask) => match characteristic_location(d0.modules@, name@) {
                    None => r matches Err(EditorError::NotFound(n)) && n@ == name@
                        && d1 == d0,
                    Some((i, j)) => r is Ok && characteristic_replaced(
                        d0,
                        d1,
                        i,
                        j,
                        updated_characteristic(
                            d0.modules@[i].characteristics@[j],
                            data,
                            ctype,
                            address,
                            mask,
                        ),
                    ),
                },
            },
        },
    }
}

/// What reading the first axis points object named `name` of `d` gives.
pub open spec fn get_axis_pts_outcome(d: Document, name: String, r: Result<AxisPtsData, EditorError>) -> bool {
    match axis_pts_location(d.modules@, name@) {
        Some((i, j)) => r matches Ok(x) && axis_pts_data_of(d.modules@[i].axis_pts@[j], x),
        None => r matches Err(EditorError::NotFound(n)) && n@ == name@,
    }
}

/// What replacing the first axis points object named `name` gives: `d1` after, `d0` before.
pub open spec fn update_axis_pts_outcome(d0: Document, d1: Document, name: String, data: AxisPtsData, r: Result<(), EditorError>) -> bool {
    match parsed_hex(data.address@, 0x1_0000_0000) {
        None => r matches Err(EditorError::InvalidHex(HexField::Address))
            && d1 == d0,
        Some(address) => match axis_pts_location(d0.modules@, name@) {
            None => r matches Err(EditorError::NotFound(n)) && n@ == name@
                && d1 == d0,
            Some((i, j)) => r is Ok && axis_pts_replaced(
                d0,
                d1,
                i,
                j,
                updated_axis_pts(d0.modules@[i].axis_pts@[j], data, address),
            ),
        },
    }
}

/// The editable fields of the first measurement named `name`.
pub fn get_measurement(document: &Document, name: &String) -> (r: Result<MeasurementData, EditorError>)
    ensures
        get_measurement_outcome(*document, *name, r),
{
    match locate_measurement(document, name) {
        Some((i, j)) => {
            let m = &document.modules[i].measurements[j];
            Ok(
                MeasurementData {
                    name: m.name.clone(),
                    long_identifier: m.long_identifier.clone(),
                    datatype: datatype_to_string(m.datatype),
                    conversion: m.conversion.clone(),
                    resolution: m.resolution,
                    accuracy: m.accuracy.duplicate(),
                    lower_limit: m.lower_limit.duplicate(),
                    upper_limit: m.upper_limit.duplicate(),
                    ecu_address: opt_hex_string(
                        match m.ecu_address {
                            Some(a) => Some(a as u64),
                            None => None,
                        },
                    ),
                },
            )
        },
        None => Err(EditorError::NotFound(name.clone())),
    }
}

/// Replaces the editable fields of the first measurement named `name`.
/// The data type and the address are validated first; on any failure the
/// document is left as it was.
pub fn update_measurement(document: &mut Document, name: &String, data: MeasurementData) -> (r: Result<(), EditorError>)
    ensures
        update_measurement_outcome(*old(document), *final(document), *name, data, r),
{
    let datatype = match string_to_datatype(data.datatype.as_str()) {
        Some(t) => t,
        None => return Err(EditorError::InvalidEnum(data.datatype)),
    };
    let address = match read_optional_hex_u32(&data.ecu_address) {
        Ok(a) => a,
        Err(_) => return Err(EditorError::InvalidHex(HexField::Address)),
    };
    let (i, j) = match locate_measurement(document, name) {
        Some(p) => p,
        None => return Err(EditorError::NotFound(name.clone())),
    };
    let MeasurementData {
        name: new_name,
        long_identifier,
        datatype: _,
        conversion,
        resolution,
        accuracy,
        lower_limit,
        upper_limit,
        ecu_address: _,
    } = data;
    let ghost d0 = *document;
    document.modules[i].measurements[j].name = new_name;
    document.modules[i].measurements[j].long_identifier = long_identifier;
    document.modules[i].measurements[j].datatype = datatype;
    document.modules[i].measurements[j].conversion = conversion;
    document.modules[i].measurements[j].resolution = resolution;
    document.modules[i].measurements[j].accuracy = accuracy;
    document.modules[i].measurements[j].lower_limit = lower_limit;
    document.modules[i].measurements[j].upper_limit = upper_limit;
    document.modules[i].measurements[j].ecu_address = address;
    assert(document.modules@[i as int].measurements@ =~= d0.modules@[i as int].measurements@.update(
        j as int,
        updated_measurement(d0.modules@[i as int].measurements@[j as int], data, datatype, opt_u32(address)),
    ));
    Ok(())
}

/// The editable fields of the first characteristic named `name`.
pub fn get_characteristic(document: &Document, name: &String) -> (r: Result<CharacteristicData, EditorError>)
    ensures
        get_characteristic_outcome(*document, *name, r),
{
    match locate_characteristic(document, name) {
        Some((i, j)) => {
            let c = &document.modules[i].characteristics[j];
            Ok(
                CharacteristicData {
                    name: c.name.clone(),
                    long_identifier: c.long_identifier.clone(),
                    characteristic_type: characteristic_type_to_string(c.characteristic_type),
                    address: hex_string(c.address as u64),
                    deposit: c.deposit.clone(),
                    max_diff: c.max_diff.duplicate(),
                    conversion: c.conversion.clone(),
                    lower_limit: c.lower_limit.duplicate(),
                    upper_limit: c.upper_limit.duplicate(),
                    bit_mask: opt_hex_string(c.bit_mask),
                },
            )
        },
        None => Err(EditorError::NotFound(name.clone())),
    }
}

/// Replaces the editable fields of the first characteristic named `name`.
/// The type, the address and the bit mask are validated first; on any
/// failure the document is left as it was.
pub fn update_characteristic(document: &mut Document, name: &String, data: CharacteristicData) -> (r: Result<(), EditorError>)
    ensures
        update_characteristic_outcome(*old(document), *final(document), *name, data, r),
{
    let ctype = match string_to_characteristic_type(data.characteristic_type.as_str()) {
        Some(t) => t,
        None => return Err(EditorError::InvalidEnum(data.characteristic_type)),
    };
    let address = match parse_hex_u32(data.address.as_str()) {
        Some(a) => a,
        None => return Err(EditorError::InvalidHex(HexField::Address)),
    };
    let mask = match read_optional_hex_u64(&data.bit_mask) {
        Ok(m) => m,
        Err(_) => return Err(EditorError::InvalidHex(HexField::BitMask)),
    };
    let (i, j) = match locate_characteristic(document, name) {
        Some(p) => p,
        None => return Err(EditorError::NotFound(name.clone())),
    };
    let CharacteristicData {
        name: new_name,
        long_identifier,
        characteristic_type: _,
        address: _,
        deposit,
        max_diff,
        conversion,
        lower_limit,
        upper_limit,
        bit_mask: _,
    } = data;
    let ghost d0 = *document;
    document.modules[i].characteristics[j].name = new_name;
    document.modules[i].characteristics[j].long_identifier = long_identifier;
    document.modules[i].characteristics[j].characteristic_type = ctype;
    document.modules[i].characteristics[j].address = address;
    document.modules[i].characteristics[j].deposit = deposit;
    document.modules[i].characteristics[j].max_diff = max_diff;
    document.modules[i].characteristics[j].conversion = conversion;
    document.modules[i].characteristics[j].lower_limit = lower_limit;
    document.modules[i].characteristics[j].upper_limit = upper_limit;
    document.modules[i].characteristics[j].bit_mask = mask;
    assert(document.modules@[i as int].characteristics@ =~= d0.modules@[i as int].characteristics@.update(
        j as int,
        updated_characteristic(
            d0.modules@[i as int].characteristics@[j as int],
            data,
            ctype,
            address as nat,
            opt_u64(mask),
        ),
    ));
    Ok(())
}

/// The editable fields of the first axis points object named `name`.
pub fn get_axis_pts(document: &Document, name: &String) -> (r: Result<AxisPtsData, EditorError>)
    ensures
        get_axis_pts_outcome(*document, *name, r),
{
    match locate_axis_pts(document, name) {
        Some((i, j)) => {
            let a = &document.modules[i].axis_pts[j];
            Ok(
                AxisPtsData {
                    name: a.name.clone(),
                    long_identifier: a.long_identifier.clone(),
                    address: hex_string(a.address as u64),
                    input_quantity: a.input_quantity.clone(),
                    deposit_record: a.deposit_record.clone(),
                    max_diff: a.max_diff.duplicate(),
                    conversion: a.conversion.clone(),
                    max_axis_points: a.max_axis_points,
                    lower_limit: a.lower_limit.duplicate(),
                    upper_limit: a.upper_limit.duplicate(),
                },
            )
        },
        None => Err(EditorError::NotFound(name.clone())),
    }
}

/// Replaces the editable fields of the first axis points object named
/// `name`. The address is validated first; on any failure the document is
/// left as it was.
pub fn update_axis_pts(document: &mut Document, name: &String, data: AxisPtsData) -> (r: Result<(), EditorError>)
    ensures
        update_axis_pts_outcome(*old(document), *final(document), *name, data, r),
{
    let address = match parse_hex_u32(data.address.as_str()) {
        Some(a) => a,
        None => return Err(EditorError::InvalidHex(HexField::Address)),
    };
    let (i, j) = match locate_axis_pts(document, name) {
        Some(p) => p,
        None => return Err(EditorError::NotFound(name.clone())),
    };
    let AxisPtsData {
        name: new_name,
        long_identifier,
        address: _,
        input_quantity,
        deposit_record,
        max_diff,
        conversion,
        max_axis_points,
        lower_limit,
        upper_limit,
    } = data;
    let ghost d0 = *document;
    document.modules[i].axis_pts[j].name = new_name;
    document.modules[i].axis_pts[j].long_identifier = long_identifier;
    document.modules[i].axis_pts[j].address = address;
    document.modules[i].axis_pts[j].input_quantity = input_quantity;
    document.modules[i].axis_pts[j].deposit_record = deposit_record;
    document.modules[i].axis_pts[j].max_diff = max_diff;
    document.modules[i].axis_pts[j].conversion = conversion;
    document.modules[i].axis_pts[j].max_axis_points = max_axis_points;
    document.modules[i].axis_pts[j].lower_limit = lower_limit;
    document.modules[i].axis_pts[j].upper_limit = upper_limit;
    assert(document.modules@[i as int].axis_pts@ =~= d0.modules@[i as int].axis_pts@.update(
        j as int,
        updated_axis_pts(d0.modules@[i as int].axis_pts@[j as int], data, address as nat),
    ));
    Ok(())
}

} // verus!
