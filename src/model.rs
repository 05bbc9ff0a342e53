//! The document model: the parts of a loaded calibration description that
//! the projection, the directory, typed access and symbol import read or
//! change. Records hold their attributes as plain values; a floating-point
//! attribute is kept as its bit pattern together with its decimal text.

use vstd::prelude::*;

verus! {

/// A double-precision value: its IEEE-754 bit pattern, and the text that the
/// platform's default float formatting gives for it. The library copies and
/// shows such values but never computes with them; whoever makes one from a
/// float supplies both parts.
pub struct Real {
    pub bits: u64,
    pub text: String,
}

/// The predefined data types of a measurement.
#[derive(PartialEq, Eq, Structural, Clone, Copy, Debug)]
pub enum DataType {
    Ubyte,
    Sbyte,
    Uword,
    Sword,
    Ulong,
    Slong,
    AUint64,
    AInt64,
    Float16Ieee,
    Float32Ieee,
    Float64Ieee,
}

/// The kinds of an adjustable object.
#[derive(PartialEq, Eq, Structural, Clone, Copy, Debug)]
pub enum CharacteristicType {
    Ascii,
    Curve,
    /// A two-dimensional map (`MAP`).
    Map2d,
    Cuboid,
    Cube4,
    Cube5,
    ValBlk,
    Value,
}

/// One attribute value of a record, tagged with the way it is shown.
pub enum FieldValue {
    /// Shown as it stands.
    Text(String),
    /// An integer, shown in decimal.
    Number(u64),
    /// An address or mask, shown as `0x` and upper-case hexadecimal digits.
    Hex(u64),
    /// An optional value: its rendering when present, the placeholder when absent.
    Optional(Option<String>),
    /// A lower and an upper limit, shown as `lower .. upper`.
    Limits(Real, Real),
    /// A flag, shown as `true` or `false`.
    Flag(bool),
    /// Whether a nested block is there, shown as `present` or `none`.
    Presence(bool),
    /// A set of flags, shown as the number of those that are set, in decimal.
    SetCount(Vec<bool>),
}

/// A labelled attribute of a record.
pub struct Field {
    pub label: String,
    pub value: FieldValue,
}

/// A record of one of the kinds that are only displayed.
///
/// `name` is empty for the positional kinds; `long_identifier` is `None` for
/// the kinds that have no such field.
pub struct Record {
    pub name: String,
    pub long_identifier: Option<String>,
    pub fields: Vec<Field>,
}

/// A measurement. The optional attributes that are only displayed are held
/// as their renderings.
pub struct Measurement {
    pub name: String,
    pub long_identifier: String,
    pub datatype: DataType,
    pub conversion: String,
    pub resolution: u16,
    pub accuracy: Real,
    pub lower_limit: Real,
    pub upper_limit: Real,
    pub address_type: Option<String>,
    pub ecu_address: Option<u32>,
    pub ecu_address_extension: Option<String>,
    pub byte_order: Option<String>,
    pub array_size: Option<String>,
    pub bit_mask: Option<String>,
    pub bit_operation: Option<String>,
    pub display_identifier: Option<String>,
    pub format: Option<String>,
    pub function_list: Option<String>,
    pub layout: Option<String>,
    pub matrix_dim: Option<String>,
    pub max_refresh: Option<String>,
    pub model_link: Option<String>,
    pub phys_unit: Option<String>,
    pub read_write: Option<String>,
    pub ref_memory_segment: Option<String>,
    pub symbol_link: Option<String>,
    pub var_virtual: Option<String>,
    pub annotations: usize,
    pub if_data_blocks: usize,
}

/// A characteristic (an adjustable object).
pub struct Characteristic {
    pub name: String,
    pub long_identifier: String,
    pub characteristic_type: CharacteristicType,
    pub address: u32,
    pub deposit: String,
    pub max_diff: Real,
    pub conversion: String,
    pub lower_limit: Real,
    pub upper_limit: Real,
    pub bit_mask: Option<u64>,
    pub byte_order: Option<String>,
    pub calibration_access: Option<String>,
    pub display_identifier: Option<String>,
    pub encoding: Option<String>,
    pub extended_limits: Option<String>,
    pub format: Option<String>,
    pub function_list: Option<String>,
    pub guard_rails: Option<String>,
    pub matrix_dim: Option<String>,
    pub max_refresh: Option<String>,
    pub model_link: Option<String>,
    pub phys_unit: Option<String>,
    pub read_only: Option<String>,
    pub ref_memory_segment: Option<String>,
    pub step_size: Option<String>,
    pub symbol_link: Option<String>,
    pub axis_descriptors: usize,
    pub annotations: usize,
    pub if_data_blocks: usize,
}

/// An axis points object.
pub struct AxisPts {
    pub name: String,
    pub long_identifier: String,
    pub address: u32,
    pub input_quantity: String,
    pub deposit_record: String,
    pub max_diff: Real,
    pub conversion: String,
    pub max_axis_points: u16,
    pub lower_limit: Real,
    pub upper_limit: Real,
    pub byte_order: Option<String>,
    pub calibration_access: Option<String>,
    pub deposit: Option<String>,
    pub display_identifier: Option<String>,
    pub extended_limits: Option<String>,
    pub format: Option<String>,
    pub function_list: Option<String>,
    pub guard_rails: Option<String>,
    pub max_refresh: Option<String>,
    pub model_link: Option<String>,
    pub monotony: Option<String>,
    pub phys_unit: Option<String>,
    pub read_only: Option<String>,
    pub ref_memory_segment: Option<String>,
    pub step_size: Option<String>,
    pub symbol_link: Option<String>,
    pub annotations: usize,
    pub if_data_blocks: usize,
}

/// A module: its name, description and record collections. The three
/// promoted kinds, which can be renamed and edited, stand apart from the
/// kinds that are only displayed.
pub struct Module {
    pub name: String,
    pub long_identifier: String,
    pub measurements: Vec<Measurement>,
    pub characteristics: Vec<Characteristic>,
    pub axis_pts: Vec<AxisPts>,
    pub catalog: Catalog,
}

/// The record collections of a module that are only displayed, in the order
/// in which the tree shows them.
pub struct Catalog {
    pub compu_methods: Vec<Record>,
    pub compu_tabs: Vec<Record>,
    pub compu_vtabs: Vec<Record>,
    pub compu_vtab_ranges: Vec<Record>,
    pub record_layouts: Vec<Record>,
    pub functions: Vec<Record>,
    pub groups: Vec<Record>,
    pub units: Vec<Record>,
    pub frames: Vec<Record>,
    pub blobs: Vec<Record>,
    pub instances: Vec<Record>,
    pub transformers: Vec<Record>,
    pub typedef_axis: Vec<Record>,
    pub typedef_blob: Vec<Record>,
    pub typedef_characteristic: Vec<Record>,
    pub typedef_measurement: Vec<Record>,
    pub typedef_structure: Vec<Record>,
    pub mod_common: Option<Record>,
    pub mod_par: Option<Record>,
    pub variant_coding: Option<Record>,
    pub a2ml: Option<Record>,
    pub if_data: Vec<Record>,
    pub user_rights: Vec<Record>,
}

/// A loaded document: the project's identification and its modules in order.
pub struct Document {
    pub project_name: String,
    pub project_long_identifier: String,
    /// The comment of the project header, if the project has a header.
    pub header_comment: Option<String>,
    /// The schema version as (version number, upgrade number), if declared.
    pub version: Option<(u16, u16)>,
    pub modules: Vec<Module>,
}

/// The view of an optional string.
pub open spec fn opt_text(o: Option<String>) -> Option<Seq<char>> {
    match o {
        Some(s) => Some(s@),
        None => None,
    }
}

} // verus!
