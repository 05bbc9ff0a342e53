//! Detail projection: for each record, an optional description and an
//! ordered list of labelled, rendered attributes.

use vstd::prelude::*;
use crate::model::{
    AxisPts, Characteristic, CharacteristicType, DataType, Field, FieldValue, Measurement, Real,
    Record, opt_text,
};
use crate::render::{decimal, decimal_string, hex_string, hex_text, placeholder};

verus! {

/// One labelled attribute as shown to the user.
pub struct A2lTreeDetail {
    pub label: String,
    pub value: String,
}

/// A detail row as a (label, value) pair of texts.
pub type Row = (Seq<char>, Seq<char>);

pub open spec fn row_of(d: A2lTreeDetail) -> Row {
    (d.label@, d.value@)
}

pub open spec fn rows_of(v: Seq<A2lTreeDetail>) -> Seq<Row> {
    v.map_values(|d: A2lTreeDetail| row_of(d))
}

/// The description of a record with the given long identifier: present only
/// when the long identifier is not empty.
pub open spec fn described(long_identifier: Seq<char>) -> Option<Seq<char>> {
    if long_identifier.len() == 0 {
        None
    } else {
        Some(long_identifier)
    }
}

/// How an optional value is shown.
pub open spec fn opt_value(o: Option<String>) -> Seq<char> {
    match o {
        Some(s) => s@,
        None => placeholder(),
    }
}

/// How a pair of limits is shown.
pub open spec fn limits_text(lower: Real, upper: Real) -> Seq<char> {
    lower.text@ + " .. "@ + upper.text@
}

/// How a field value is shown.
pub open spec fn value_text(v: FieldValue) -> Seq<char> {
    match v {
        FieldValue::Text(s) => s@,
        FieldValue::Number(n) => decimal(n as nat),
        FieldValue::Hex(n) => hex_text(n as nat),
        FieldValue::Optional(o) => opt_value(o),
        FieldValue::Limits(lower, upper) => limits_text(lower, upper),
        FieldValue::Flag(b) => if b { "true"@ } else { "false"@ },
        FieldValue::Presence(b) => if b { "present"@ } else { "none"@ },
        FieldValue::SetCount(flags) => decimal(count_set(flags@)),
    }
}

/// The number of flags that are set.
pub open spec fn count_set(flags: Seq<bool>) -> nat
    decreases flags.len(),
{
    if flags.len() == 0 {
        0
    } else {
        count_set(flags.drop_last()) + if flags.last() {
            1nat
        } else {
            0nat
        }
    }
}

proof fn lemma_count_set_bound(flags: Seq<bool>)
    ensures
        count_set(flags) <= flags.len(),
    decreases flags.len(),
{
    if flags.len() > 0 {
        lemma_count_set_bound(flags.drop_last());
    }
}

/// The number of flags that are set.
fn count_flags(flags: &Vec<bool>) -> (r: u64)
    ensures
        r as nat == count_set(flags@),
{
    let mut count: u64 = 0;
    let n = flags.len();
    for i in 0..n
        invariant
            n == flags@.len(),
            count as nat == count_set(flags@.take(i as int)),
    {
        assert(flags@.take(i + 1).drop_last() =~= flags@.take(i as int));
        proof {
            lemma_count_set_bound(flags@.take(i as int));
        }
        if flags[i] {
            count = count + 1;
        }
    }
    assert(flags@.take(n as int) =~= flags@);
    count
}

pub open spec fn field_row(f: Field) -> Row {
    (f.label@, value_text(f.value))
}

/// The debug name of a data type.
pub open spec fn datatype_debug(t: DataType) -> Seq<char> {
    match t {
        DataType::Ubyte => "Ubyte"@,
        DataType::Sbyte => "Sbyte"@,
        DataType::Uword => "Uword"@,
        DataType::Sword => "Sword"@,
        DataType::Ulong => "Ulong"@,
        DataType::Slong => "Slong"@,
        DataType::AUint64 => "AUint64"@,
        DataType::AInt64 => "AInt64"@,
        DataType::Float16Ieee => "Float16Ieee"@,
        DataType::Float32Ieee => "Float32Ieee"@,
        DataType::Float64Ieee => "Float64Ieee"@,
    }
}

/// The debug name of a characteristic type.
pub open spec fn characteristic_type_debug(t: CharacteristicType) -> Seq<char> {
    match t {
        CharacteristicType::Ascii => "Ascii"@,
        CharacteristicType::Curve => "Curve"@,
        CharacteristicType::Map2d => "Map"@,
        CharacteristicType::Cuboid => "Cuboid"@,
        CharacteristicType::Cube4 => "Cube4"@,
        CharacteristicType::Cube5 => "Cube5"@,
        CharacteristicType::ValBlk => "ValBlk"@,
        CharacteristicType::Value => "Value"@,
    }
}

pub fn datatype_debug_name(t: DataType) -> (r: &'static str)
    ensures
        r@ == datatype_debug(t),
{
    match t {
        DataType::Ubyte => "Ubyte",
        DataType::Sbyte => "Sbyte",
        DataType::Uword => "Uword",
        DataType::Sword => "Sword",
        DataType::Ulong => "Ulong",
        DataType::Slong => "Slong",
        DataType::AUint64 => "AUint64",
        DataType::AInt64 => "AInt64",
        DataType::Float16Ieee => "Float16Ieee",
        DataType::Float32Ieee => "Float32Ieee",
        DataType::Float64Ieee => "Float64Ieee",
    }
}

pub fn characteristic_type_debug_name(t: CharacteristicType) -> (r: &'static str)
    ensures
        r@ == characteristic_type_debug(t),
{
    match t {
        CharacteristicType::Ascii => "Ascii",
        CharacteristicType::Curve => "Curve",
        CharacteristicType::Map2d => "Map",
        CharacteristicType::Cuboid => "Cuboid",
        CharacteristicType::Cube4 => "Cube4",
        CharacteristicType::Cube5 => "Cube5",
        CharacteristicType::ValBlk => "ValBlk",
        CharacteristicType::Value => "Value",
    }
}

/// A detail row with the given label and value.
pub fn detail(label: &str, value: String) -> (r: A2lTreeDetail)
    ensures
        row_of(r) == (label@, value@),
{
    A2lTreeDetail { label: String::from_str(label), value }
}

/// A detail row for an optional value: its rendering, or the placeholder.
pub fn opt_detail(label: &str, value: &Option<String>) -> (r: A2lTreeDetail)
    ensures
        row_of(r) == (label@, opt_value(*value)),
{
    let rendered = match value {
        Some(s) => s.clone(),
        None => {
            proof {
                reveal_strlit("\u{2014}");
            }
            String::from_str("\u{2014}")
        },
    };
    detail(label, rendered)
}

/// A detail row for the size of a nested collection.
pub fn count_detail(label: &str, count: usize) -> (r: A2lTreeDetail)
    ensures
        row_of(r) == (label@, decimal(count as nat)),
{
    detail(label, decimal_string(count as u64))
}

/// The `Limits` detail row.
pub fn limits_detail(lower: &Real, upper: &Real) -> (r: A2lTreeDetail)
    ensures
        row_of(r) == ("Limits"@, limits_text(*lower, *upper)),
{
    let mut text = lower.text.clone();
    text.append(" .. ");
    text.append(upper.text.as_str());
    detail("Limits", text)
}

/// A detail row that shows a text as it stands.
pub fn text_detail(label: &str, value: &String) -> (r: A2lTreeDetail)
    ensures
        row_of(r) == (label@, value@),
{
    detail(label, value.clone())
}

/// A detail row for an address, in hexadecimal.
pub fn hex_detail(label: &str, value: u64) -> (r: A2lTreeDetail)
    ensures
        row_of(r) == (label@, hex_text(value as nat)),
{
    detail(label, hex_string(value))
}

/// The rendering of a field value.
pub fn render_value(v: &FieldValue) -> (r: String)
    ensures
        r@ == value_text(*v),
{
    match v {
        FieldValue::Text(s) => s.clone(),
        FieldValue::Number(n) => decimal_string(*n),
        FieldValue::Hex(n) => hex_string(*n),
        FieldValue::Optional(o) => opt_detail("", o).value,
        FieldValue::Limits(lower, upper) => limits_detail(lower, upper).value,
        FieldValue::Flag(b) => if *b {
            String::from_str("true")
        } else {
            String::from_str("false")
        },
        FieldValue::Presence(b) => if *b {
            String::from_str("present")
        } else {
            String::from_str("none")
        },
        FieldValue::SetCount(flags) => decimal_string(count_flags(flags)),
    }
}

/// The optional description of a record with the given long identifier.
pub fn description_of(long_identifier: &String) -> (r: Option<String>)
    ensures
        opt_text(r) == described(long_identifier@),
{
    if long_identifier.as_str().is_empty() {
        None
    } else {
        Some(long_identifier.clone())
    }
}

/// A record that the tree can show: a name, an optional description and
/// its detail rows.
pub trait A2lDetailProvider {
    spec fn spec_name(&self) -> Seq<char>;

    spec fn spec_description(&self) -> Option<Seq<char>>;

    spec fn spec_details(&self) -> Seq<Row>;

    fn get_name(&self) -> (r: &String)
        ensures
            r@ == self.spec_name(),
    ;

    fn description(&self) -> (r: Option<String>)
        ensures
            opt_text(r) == self.spec_description(),
    ;

    fn details(&self) -> (r: Vec<A2lTreeDetail>)
        ensures
            rows_of(r@) == self.spec_details(),
    ;
}

impl A2lDetailProvider for Record {
    open spec fn spec_name(&self) -> Seq<char> {
        self.name@
    }

    open spec fn spec_description(&self) -> Option<Seq<char>> {
        match self.long_identifier {
            Some(li) => described(li@),
            None => None,
        }
    }

    open spec fn spec_details(&self) -> Seq<Row> {
        self.fields@.map_values(|f: Field| field_row(f))
    }

    fn get_name(&self) -> (r: &String) {
        &self.name
    }

    fn description(&self) -> (r: Option<String>) {
        match &self.long_identifier {
            Some(li) => description_of(li),
            None => None,
        }
    }

    fn details(&self) -> (r: Vec<A2lTreeDetail>) {
        let mut out: Vec<A2lTreeDetail> = Vec::new();
        let n = self.fields.len();
        for i in 0..n
            invariant
                n == self.fields@.len(),
                out@.len() == i,
                forall|j: int| 0 <= j < i ==> row_of(#[trigger] out@[j]) == field_row(self.fields@[j]),
        {
            let f = &self.fields[i];
            let value = render_value(&f.value);
            out.push(detail(f.label.as_str(), value));
        }
        assert(rows_of(out@) =~= self.spec_details());
        out
    }
}

/// How an optional ECU address is shown: its debug form, or the placeholder.
pub open spec fn ecu_address_text(a: Option<u32>) -> Seq<char> {
    match a {
        Some(v) => "EcuAddress { address: "@ + decimal(v as nat) + " }"@,
        None => placeholder(),
    }
}

/// How an optional bit mask is shown: its debug form, or the placeholder.
pub open spec fn bit_mask_text(m: Option<u64>) -> Seq<char> {
    match m {
        Some(v) => "BitMask { mask: "@ + decimal(v as nat) + " }"@,
        None => placeholder(),
    }
}

fn ecu_address_detail(label: &str, a: Option<u32>) -> (r: A2lTreeDetail)
    ensures
        row_of(r) == (label@, ecu_address_text(a)),
{
    match a {
        Some(v) => {
            let mut text = String::from_str("EcuAddress { address: ");
            text.append(decimal_string(v as u64).as_str());
            text.append(" }");
            detail(label, text)
        },
        None => opt_detail(label, &None),
    }
}

fn bit_mask_detail(label: &str, m: Option<u64>) -> (r: A2lTreeDetail)
    ensures
        row_of(r) == (label@, bit_mask_text(m)),
{
    match m {
        Some(v) => {
            let mut text = String::from_str("BitMask { mask: ");
            text.append(decimal_string(v).as_str());
            text.append(" }");
            detail(label, text)
        },
        None => opt_detail(label, &None),
    }
}

impl A2lDetailProvider for Measurement {
    open spec fn spec_name(&self) -> Seq<char> {
        self.name@
    }

    open spec fn spec_description(&self) -> Option<Seq<char>> {
        described(self.long_identifier@)
    }

    open spec fn spec_details(&self) -> Seq<Row> {
        seq![
            ("Long identifier"@, self.long_identifier@),
            ("Datatype"@, datatype_debug(self.datatype)),
            ("Conversion"@, self.conversion@),
            ("Resolution"@, decimal(self.resolution as nat)),
            ("Accuracy"@, self.accuracy.text@),
            ("Limits"@, limits_text(self.lower_limit, self.upper_limit)),
            ("Address type"@, opt_value(self.address_type)),
            ("ECU address"@, ecu_address_text(self.ecu_address)),
            ("ECU address ext"@, opt_value(self.ecu_address_extension)),
            ("Byte order"@, opt_value(self.byte_order)),
            ("Array size"@, opt_value(self.array_size)),
            ("Bit mask"@, opt_value(self.bit_mask)),
            ("Bit operation"@, opt_value(self.bit_operation)),
            ("Display identifier"@, opt_value(self.display_identifier)),
            ("Format"@, opt_value(self.format)),
            ("Function list"@, opt_value(self.function_list)),
            ("Layout"@, opt_value(self.layout)),
            ("Matrix dim"@, opt_value(self.matrix_dim)),
            ("Max refresh"@, opt_value(self.max_refresh)),
            ("Model link"@, opt_value(self.model_link)),
            ("Phys unit"@, opt_value(self.phys_unit)),
            ("Read/Write"@, opt_value(self.read_write)),
            ("Ref memory segment"@, opt_value(self.ref_memory_segment)),
            ("Symbol link"@, opt_value(self.symbol_link)),
            ("Virtual"@, opt_value(self.var_virtual)),
            ("Annotations"@, decimal(self.annotations as nat)),
            ("IF_DATA blocks"@, decimal(self.if_data_blocks as nat)),
        ]
    }

    fn get_name(&self) -> (r: &String) {
        &self.name
    }

    fn description(&self) -> (r: Option<String>) {
        description_of(&self.long_identifier)
    }

    #[verifier::rlimit(50)]
    fn details(&self) -> (r: Vec<A2lTreeDetail>) {
        let mut out: Vec<A2lTreeDetail> = Vec::new();
        out.push(text_detail("Long identifier", &self.long_identifier));
        out.push(detail("Datatype", String::from_str(datatype_debug_name(self.datatype))));
        out.push(text_detail("Conversion", &self.conversion));
        out.push(count_detail("Resolution", self.resolution as usize));
        out.push(text_detail("Accuracy", &self.accuracy.text));
        out.push(limits_detail(&self.lower_limit, &self.upper_limit));
        out.push(opt_detail("Address type", &self.address_type));
        out.push(ecu_address_detail("ECU address", self.ecu_address));
        out.push(opt_detail("ECU address ext", &self.ecu_address_extension));
        out.push(opt_detail("Byte order", &self.byte_order));
        out.push(opt_detail("Array size", &self.array_size));
        out.push(opt_detail("Bit mask", &self.bit_mask));
        out.push(opt_detail("Bit operation", &self.bit_operation));
        out.push(opt_detail("Display identifier", &self.display_identifier));
        out.push(opt_detail("Format", &self.format));
        out.push(opt_detail("Function list", &self.function_list));
        out.push(opt_detail("Layout", &self.layout));
        out.push(opt_detail("Matrix dim", &self.matrix_dim));
        out.push(opt_detail("Max refresh", &self.max_refresh));
        out.push(opt_detail("Model link", &self.model_link));
        out.push(opt_detail("Phys unit", &self.phys_unit));
        out.push(opt_detail("Read/Write", &self.read_write));
        out.push(opt_detail("Ref memory segment", &self.ref_memory_segment));
        out.push(opt_detail("Symbol link", &self.symbol_link));
        out.push(opt_detail("Virtual", &self.var_virtual));
        out.push(count_detail("Annotations", self.annotations as usize));
        out.push(count_detail("IF_DATA blocks", self.if_data_blocks as usize));
        assert(rows_of(out@) =~= self.spec_details());
        out
    }
}

impl A2lDetailProvider for Characteristic {
    open spec fn spec_name(&self) -> Seq<char> {
        self.name@
    }

    open spec fn spec_description(&self) -> Option<Seq<char>> {
        described(self.long_identifier@)
    }

    open spec fn spec_details(&self) -> Seq<Row> {
        seq![
            ("Long identifier"@, self.long_identifier@),
            ("Type"@, characteristic_type_debug(self.characteristic_type)),
            ("Address"@, hex_text(self.address as nat)),
            ("Deposit"@, self.deposit@),
            ("Max diff"@, self.max_diff.text@),
            ("Conversion"@, self.conversion@),
            ("Limits"@, limits_text(self.lower_limit, self.upper_limit)),
            ("Bit mask"@, bit_mask_text(self.bit_mask)),
            ("Byte order"@, opt_value(self.byte_order)),
            ("Calibration access"@, opt_value(self.calibration_access)),
            ("Display identifier"@, opt_value(self.display_identifier)),
            ("Encoding"@, opt_value(self.encoding)),
            ("Extended limits"@, opt_value(self.extended_limits)),
            ("Format"@, opt_value(self.format)),
            ("Function list"@, opt_value(self.function_list)),
            ("Guard rails"@, opt_value(self.guard_rails)),
            ("Matrix dim"@, opt_value(self.matrix_dim)),
            ("Max refresh"@, opt_value(self.max_refresh)),
            ("Model link"@, opt_value(self.model_link)),
            ("Phys unit"@, opt_value(self.phys_unit)),
            ("Read only"@, opt_value(self.read_only)),
            ("Ref memory segment"@, opt_value(self.ref_memory_segment)),
            ("Step size"@, opt_value(self.step_size)),
            ("Symbol link"@, opt_value(self.symbol_link)),
            ("Axis descriptors"@, decimal(self.axis_descriptors as nat)),
            ("Annotations"@, decimal(self.annotations as nat)),
            ("IF_DATA blocks"@, decimal(self.if_data_blocks as nat)),
        ]
    }

    fn get_name(&self) -> (r: &String) {
        &self.name
    }

    fn description(&self) -> (r: Option<String>) {
        description_of(&self.long_identifier)
    }

    #[verifier::rlimit(50)]
    fn details(&self) -> (r: Vec<A2lTreeDetail>) {
        let mut out: Vec<A2lTreeDetail> = Vec::new();
        out.push(text_detail("Long identifier", &self.long_identifier));
        out.push(detail("Type", String::from_str(characteristic_type_debug_name(self.characteristic_type))));
        out.push(hex_detail("Address", self.address as u64));
        out.push(text_detail("Deposit", &self.deposit));
        out.push(text_detail("Max diff", &self.max_diff.text));
        out.push(text_detail("Conversion", &self.conversion));
        out.push(limits_detail(&self.lower_limit, &self.upper_limit));
        out.push(bit_mask_detail("Bit mask", self.bit_mask));
        out.push(opt_detail("Byte order", &self.byte_order));
        out.push(opt_detail("Calibration access", &self.calibration_access));
        out.push(opt_detail("Display identifier", &self.display_identifier));
        out.push(opt_detail("Encoding", &self.encoding));
        out.push(opt_detail("Extended limits", &self.extended_limits));
        out.push(opt_detail("Format", &self.format));
        out.push(opt_detail("Function list", &self.function_list));
        out.push(opt_detail("Guard rails", &self.guard_rails));
        out.push(opt_detail("Matrix dim", &self.matrix_dim));
        out.push(opt_detail("Max refresh", &self.max_refresh));
        out.push(opt_detail("Model link", &self.model_link));
        out.push(opt_detail("Phys unit", &self.phys_unit));
        out.push(opt_detail("Read only", &self.read_only));
        out.push(opt_detail("Ref memory segment", &self.ref_memory_segment));
        out.push(opt_detail("Step size", &self.step_size));
        out.push(opt_detail("Symbol link", &self.symbol_link));
        out.push(count_detail("Axis descriptors", self.axis_descriptors as usize));
        out.push(count_detail("Annotations", self.annotations as usize));
        out.push(count_detail("IF_DATA blocks", self.if_data_blocks as usize));
        assert(rows_of(out@) =~= self.spec_details());
        out
    }
}

impl A2lDetailProvider for AxisPts {
    open spec fn spec_name(&self) -> Seq<char> {
        self.name@
    }

    open spec fn spec_description(&self) -> Option<Seq<char>> {
        described(self.long_identifier@)
    }

    open spec fn spec_details(&self) -> Seq<Row> {
        seq![
            ("Long identifier"@, self.long_identifier@),
            ("Address"@, hex_text(self.address as nat)),
            ("Input quantity"@, self.input_quantity@),
            ("Deposit record"@, self.deposit_record@),
            ("Max diff"@, self.max_diff.text@),
            ("Conversion"@, self.conversion@),
            ("Max axis points"@, decimal(self.max_axis_points as nat)),
            ("Limits"@, limits_text(self.lower_limit, self.upper_limit)),
            ("Byte order"@, opt_value(self.byte_order)),
            ("Calibration access"@, opt_value(self.calibration_access)),
            ("Deposit"@, opt_value(self.deposit)),
            ("Display identifier"@, opt_value(self.display_identifier)),
            ("Extended limits"@, opt_value(self.extended_limits)),
            ("Format"@, opt_value(self.format)),
            ("Function list"@, opt_value(self.function_list)),
            ("Guard rails"@, opt_value(self.guard_rails)),
            ("Max refresh"@, opt_value(self.max_refresh)),
            ("Model link"@, opt_value(self.model_link)),
            ("Monotony"@, opt_value(self.monotony)),
            ("Phys unit"@, opt_value(self.phys_unit)),
            ("Read only"@, opt_value(self.read_only)),
            ("Ref memory segment"@, opt_value(self.ref_memory_segment)),
            ("Step size"@, opt_value(self.step_size)),
            ("Symbol link"@, opt_value(self.symbol_link)),
            ("Annotations"@, decimal(self.annotations as nat)),
            ("IF_DATA blocks"@, decimal(self.if_data_blocks as nat)),
        ]
    }

    fn get_name(&self) -> (r: &String) {
        &self.name
    }

    fn description(&self) -> (r: Option<String>) {
        description_of(&self.long_identifier)
    }

    #[verifier::rlimit(50)]
    fn details(&self) -> (r: Vec<A2lTreeDetail>) {
        let mut out: Vec<A2lTreeDetail> = Vec::new();
        out.push(text_detail("Long identifier", &self.long_identifier));
        out.push(hex_detail("Address", self.address as u64));
        out.push(text_detail("Input quantity", &self.input_quantity));
        out.push(text_detail("Deposit record", &self.deposit_record));
        out.push(text_detail("Max diff", &self.max_diff.text));
        out.push(text_detail("Conversion", &self.conversion));
        out.push(count_detail("Max axis points", self.max_axis_points as usize));
        out.push(limits_detail(&self.lower_limit, &self.upper_limit));
        out.push(opt_detail("Byte order", &self.byte_order));
        out.push(opt_detail("Calibration access", &self.calibration_access));
        out.push(opt_detail("Deposit", &self.deposit));
        out.push(opt_detail("Display identifier", &self.display_identifier));
        out.push(opt_detail("Extended limits", &self.extended_limits));
        out.push(opt_detail("Format", &self.format));
        out.push(opt_detail("Function list", &self.function_list));
        out.push(opt_detail("Guard rails", &self.guard_rails));
        out.push(opt_detail("Max refresh", &self.max_refresh));
        out.push(opt_detail("Model link", &self.model_link));
        out.push(opt_detail("Monotony", &self.monotony));
        out.push(opt_detail("Phys unit", &self.phys_unit));
        out.push(opt_detail("Read only", &self.read_only));
        out.push(opt_detail("Ref memory segment", &self.ref_memory_segment));
        out.push(opt_detail("Step size", &self.step_size));
        out.push(opt_detail("Symbol link", &self.symbol_link));
        out.push(count_detail("Annotations", self.annotations as usize));
        out.push(count_detail("IF_DATA blocks", self.if_data_blocks as usize));
        assert(rows_of(out@) =~= self.spec_details());
        out
    }
}

} // verus!
