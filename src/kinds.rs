//! The kinds of records that are only displayed, each with its fixed table
//! of attribute labels, and the construction of such records from the
//! attribute values in table order.

use vstd::prelude::*;
use crate::model::{Field, FieldValue, Record, opt_text};

verus! {

/// A kind of record that is only displayed.
#[derive(PartialEq, Eq, Structural, Clone, Copy, Debug)]
pub enum RecordKind {
    CompuMethod,
    CompuTab,
    CompuVtab,
    CompuVtabRange,
    RecordLayout,
    Function,
    Group,
    Unit,
    Frame,
    Blob,
    Instance,
    Transformer,
    TypedefAxis,
    TypedefBlob,
    TypedefCharacteristic,
    TypedefMeasurement,
    TypedefStructure,
    ModCommon,
    ModPar,
    VariantCoding,
    A2ml,
    IfData,
    UserRights,
}

/// The labels of the attributes of a kind, in display order.
pub open spec fn kind_labels(kind: RecordKind) -> Seq<Seq<char>> {
    match kind {
        RecordKind::CompuMethod => seq![
            "Long identifier"@,
            "Conversion type"@,
            "Format"@,
            "Unit"@,
            "Coeffs"@,
            "Coeffs linear"@,
            "Compu tab ref"@,
            "Formula"@,
            "Ref unit"@,
            "Status string ref"@,
        ],
        RecordKind::CompuTab => seq![
            "Long identifier"@,
            "Conversion type"@,
            "Value pairs"@,
            "Entries"@,
            "Default value"@,
            "Default value numeric"@,
        ],
        RecordKind::CompuVtab => seq![
            "Long identifier"@,
            "Conversion type"@,
            "Value pairs"@,
            "Entries"@,
            "Default value"@,
        ],
        RecordKind::CompuVtabRange => seq![
            "Long identifier"@,
            "Value triples"@,
            "Entries"@,
            "Default value"@,
        ],
        RecordKind::RecordLayout => seq![
            "Fields set"@,
            "Reserved entries"@,
            "Static record layout"@,
            "Static address offsets"@,
        ],
        RecordKind::Function => seq![
            "Long identifier"@,
            "AR component"@,
            "Def characteristic"@,
            "Function version"@,
            "In measurement"@,
            "Loc measurement"@,
            "Out measurement"@,
            "Ref characteristic"@,
            "Sub function"@,
            "Annotations"@,
            "IF_DATA blocks"@,
        ],
        RecordKind::Group => seq![
            "Long identifier"@,
            "Function list"@,
            "Ref characteristic"@,
            "Ref measurement"@,
            "Root"@,
            "Sub group"@,
            "Annotations"@,
            "IF_DATA blocks"@,
        ],
        RecordKind::Unit => seq![
            "Long identifier"@,
            "Display"@,
            "Unit type"@,
            "Ref unit"@,
            "SI exponents"@,
            "Unit conversion"@,
        ],
        RecordKind::Frame => seq![
            "Long identifier"@,
            "Scaling unit"@,
            "Rate"@,
            "Frame measurement"@,
            "IF_DATA blocks"@,
        ],
        RecordKind::Blob => seq![
            "Long identifier"@,
            "Start address"@,
            "Size"@,
            "Address type"@,
            "Calibration access"@,
            "Display identifier"@,
            "ECU address ext"@,
            "Max refresh"@,
            "Model link"@,
            "Symbol link"@,
            "Annotations"@,
            "IF_DATA blocks"@,
        ],
        RecordKind::Instance => seq![
            "Long identifier"@,
            "Type ref"@,
            "Start address"@,
            "Address type"@,
            "Calibration access"@,
            "Display identifier"@,
            "ECU address ext"@,
            "Layout"@,
            "Matrix dim"@,
            "Max refresh"@,
            "Model link"@,
            "Read/Write"@,
            "Symbol link"@,
            "Overwrite entries"@,
            "Annotations"@,
            "IF_DATA blocks"@,
        ],
        RecordKind::Transformer => seq![
            "Version"@,
            "DLL (32-bit)"@,
            "DLL (64-bit)"@,
            "Timeout"@,
            "Trigger"@,
            "Inverse transformer"@,
            "In objects"@,
            "Out objects"@,
        ],
        RecordKind::TypedefAxis => seq![
            "Long identifier"@,
            "Input quantity"@,
            "Record layout"@,
            "Max diff"@,
            "Conversion"@,
            "Max axis points"@,
            "Limits"@,
            "Byte order"@,
            "Deposit"@,
            "Extended limits"@,
            "Format"@,
            "Monotony"@,
            "Phys unit"@,
            "Step size"@,
        ],
        RecordKind::TypedefBlob => seq![
            "Long identifier"@,
            "Size"@,
            "Address type"@,
        ],
        RecordKind::TypedefCharacteristic => seq![
            "Long identifier"@,
            "Type"@,
            "Record layout"@,
            "Max diff"@,
            "Conversion"@,
            "Limits"@,
            "Bit mask"@,
            "Byte order"@,
            "Discrete"@,
            "Encoding"@,
            "Extended limits"@,
            "Format"@,
            "Matrix dim"@,
            "Number"@,
            "Phys unit"@,
            "Step size"@,
            "Axis descriptors"@,
        ],
        RecordKind::TypedefMeasurement => seq![
            "Long identifier"@,
            "Datatype"@,
            "Conversion"@,
            "Resolution"@,
            "Accuracy"@,
            "Limits"@,
            "Address type"@,
            "Bit mask"@,
            "Bit operation"@,
            "Byte order"@,
            "Discrete"@,
            "Error mask"@,
            "Format"@,
            "Layout"@,
            "Matrix dim"@,
            "Phys unit"@,
        ],
        RecordKind::TypedefStructure => seq![
            "Long identifier"@,
            "Total size"@,
            "Address type"@,
            "Consistent exchange"@,
            "Symbol type link"@,
            "Structure components"@,
        ],
        RecordKind::ModCommon => seq![
            "Comment"@,
            "Byte order"@,
            "Data size"@,
            "Deposit"@,
            "S-Rec layout"@,
            "Alignment byte"@,
            "Alignment float16"@,
            "Alignment float32"@,
            "Alignment float64"@,
            "Alignment int64"@,
            "Alignment long"@,
            "Alignment word"@,
        ],
        RecordKind::ModPar => seq![
            "Comment"@,
            "CPU type"@,
            "Customer"@,
            "Customer no"@,
            "ECU"@,
            "EPK"@,
            "No. of interfaces"@,
            "Supplier"@,
            "User"@,
            "Version"@,
            "Addr EPK"@,
            "Calibration methods"@,
            "Memory layouts"@,
            "Memory segments"@,
            "System constants"@,
        ],
        RecordKind::VariantCoding => seq![
            "Var characteristic"@,
            "Var criterion"@,
            "Var forbidden comb"@,
            "Var naming"@,
            "Var separator"@,
        ],
        RecordKind::A2ml => seq![
            "A2ML text length"@,
        ],
        RecordKind::IfData => seq![
            "Valid"@,
            "Items"@,
        ],
        RecordKind::UserRights => seq![
            "User level"@,
            "Read only"@,
            "Ref groups"@,
        ],
    }
}

/// Whether the records of a kind are named; the others are identified by
/// their position.
pub open spec fn kind_is_named(kind: RecordKind) -> bool {
    !(kind == RecordKind::ModCommon || kind == RecordKind::ModPar || kind == RecordKind::VariantCoding || kind == RecordKind::A2ml || kind == RecordKind::IfData || kind == RecordKind::UserRights)
}

/// Whether the records of a kind have a long identifier.
pub open spec fn kind_has_long_identifier(kind: RecordKind) -> bool {
    !(kind == RecordKind::RecordLayout || kind == RecordKind::Transformer || kind == RecordKind::ModCommon || kind == RecordKind::ModPar || kind == RecordKind::VariantCoding || kind == RecordKind::A2ml || kind == RecordKind::IfData || kind == RecordKind::UserRights)
}

pub open spec fn labels_view(v: Seq<&str>) -> Seq<Seq<char>> {
    v.map_values(|s: &str| s@)
}

/// The labels of the attributes of a kind, in display order.
#[verifier::rlimit(40)]
pub fn kind_labels_of(kind: RecordKind) -> (r: Vec<&'static str>)
    ensures
        labels_view(r@) == kind_labels(kind),
{
    let mut labels: Vec<&'static str> = Vec::new();
    match kind {
        RecordKind::CompuMethod => {
            labels.push("Long identifier");
            labels.push("Conversion type");
            labels.push("Format");
            labels.push("Unit");
            labels.push("Coeffs");
            labels.push("Coeffs linear");
            labels.push("Compu tab ref");
            labels.push("Formula");
            labels.push("Ref unit");
            labels.push("Status string ref");
        },
        RecordKind::CompuTab => {
            labels.push("Long identifier");
            labels.push("Conversion type");
            labels.push("Value pairs");
            labels.push("Entries");
            labels.push("Default value");
            labels.push("Default value numeric");
        },
        RecordKind::CompuVtab => {
            labels.push("Long identifier");
            labels.push("Conversion type");
            labels.push("Value pairs");
            labels.push("Entries");
            labels.push("Default value");
        },
        RecordKind::CompuVtabRange => {
            labels.push("Long identifier");
            labels.push("Value triples");
            labels.push("Entries");
            labels.push("Default value");
        },
        RecordKind::RecordLayout => {
            labels.push("Fields set");
            labels.push("Reserved entries");
            labels.push("Static record layout");
            labels.push("Static address offsets");
        },
        RecordKind::Function => {
            labels.push("Long identifier");
            labels.push("AR component");
            labels.push("Def characteristic");
            labels.push("Function version");
            labels.push("In measurement");
            labels.push("Loc measurement");
            labels.push("Out measurement");
            labels.push("Ref characteristic");
            labels.push("Sub function");
            labels.push("Annotations");
            labels.push("IF_DATA blocks");
        },
        RecordKind::Group => {
            labels.push("Long identifier");
            labels.push("Function list");
            labels.push("Ref characteristic");
            labels.push("Ref measurement");
            labels.push("Root");
            labels.push("Sub group");
            labels.push("Annotations");
            labels.push("IF_DATA blocks");
        },
        RecordKind::Unit => {
            labels.push("Long identifier");
            labels.push("Display");
            labels.push("Unit type");
            labels.push("Ref unit");
            labels.push("SI exponents");
            labels.push("Unit conversion");
        },
        RecordKind::Frame => {
            labels.push("Long identifier");
            labels.push("Scaling unit");
            labels.push("Rate");
            labels.push("Frame measurement");
            labels.push("IF_DATA blocks");
        },
        RecordKind::Blob => {
            labels.push("Long identifier");
            labels.push("Start address");
            labels.push("Size");
            labels.push("Address type");
            labels.push("Calibration access");
            labels.push("Display identifier");
            labels.push("ECU address ext");
            labels.push("Max refresh");
            labels.push("Model link");
            labels.push("Symbol link");
            labels.push("Annotations");
            labels.push("IF_DATA blocks");
        },
        RecordKind::Instance => {
            labels.push("Long identifier");
            labels.push("Type ref");
            labels.push("Start address");
            labels.push("Address type");
            labels.push("Calibration access");
            labels.push("Display identifier");
            labels.push("ECU address ext");
            labels.push("Layout");
            labels.push("Matrix dim");
            labels.push("Max refresh");
            labels.push("Model link");
            labels.push("Read/Write");
            labels.push("Symbol link");
            labels.push("Overwrite entries");
            labels.push("Annotations");
            labels.push("IF_DATA blocks");
        },
        RecordKind::Transformer => {
            labels.push("Version");
            labels.push("DLL (32-bit)");
            labels.push("DLL (64-bit)");
            labels.push("Timeout");
            labels.push("Trigger");
            labels.push("Inverse transformer");
            labels.push("In objects");
            labels.push("Out objects");
        },
        RecordKind::TypedefAxis => {
            labels.push("Long identifier");
            labels.push("Input quantity");
            labels.push("Record layout");
            labels.push("Max diff");
            labels.push("Conversion");
            labels.push("Max axis points");
            labels.push("Limits");
            labels.push("Byte order");
            labels.push("Deposit");
            labels.push("Extended limits");
            labels.push("Format");
            labels.push("Monotony");
            labels.push("Phys unit");
            labels.push("Step size");
        },
        RecordKind::TypedefBlob => {
            labels.push("Long identifier");
            labels.push("Size");
            labels.push("Address type");
        },
        RecordKind::TypedefCharacteristic => {
            labels.push("Long identifier");
            labels.push("Type");
            labels.push("Record layout");
            labels.push("Max diff");
            labels.push("Conversion");
            labels.push("Limits");
            labels.push("Bit mask");
            labels.push("Byte order");
            labels.push("Discrete");
            labels.push("Encoding");
            labels.push("Extended limits");
            labels.push("Format");
            labels.push("Matrix dim");
            labels.push("Number");
            labels.push("Phys unit");
            labels.push("Step size");
            labels.push("Axis descriptors");
        },
        RecordKind::TypedefMeasurement => {
            labels.push("Long identifier");
            labels.push("Datatype");
            labels.push("Conversion");
            labels.push("Resolution");
            labels.push("Accuracy");
            labels.push("Limits");
            labels.push("Address type");
            labels.push("Bit mask");
            labels.push("Bit operation");
            labels.push("Byte order");
            labels.push("Discrete");
            labels.push("Error mask");
            labels.push("Format");
            labels.push("Layout");
            labels.push("Matrix dim");
            labels.push("Phys unit");
        },
        RecordKind::TypedefStructure => {
            labels.push("Long identifier");
            labels.push("Total size");
            labels.push("Address type");
            labels.push("Consistent exchange");
            labels.push("Symbol type link");
            labels.push("Structure components");
        },
        RecordKind::ModCommon => {
            labels.push("Comment");
            labels.push("Byte order");
            labels.push("Data size");
            labels.push("Deposit");
            labels.push("S-Rec layout");
            labels.push("Alignment byte");
            labels.push("Alignment float16");
            labels.push("Alignment float32");
            labels.push("Alignment float64");
            labels.push("Alignment int64");
            labels.push("Alignment long");
            labels.push("Alignment word");
        },
        RecordKind::ModPar => {
            labels.push("Comment");
            labels.push("CPU type");
            labels.push("Customer");
            labels.push("Customer no");
            labels.push("ECU");
            labels.push("EPK");
            labels.push("No. of interfaces");
            labels.push("Supplier");
            labels.push("User");
            labels.push("Version");
            labels.push("Addr EPK");
            labels.push("Calibration methods");
            labels.push("Memory layouts");
            labels.push("Memory segments");
            labels.push("System constants");
        },
        RecordKind::VariantCoding => {
            labels.push("Var characteristic");
            labels.push("Var criterion");
            labels.push("Var forbidden comb");
            labels.push("Var naming");
            labels.push("Var separator");
        },
        RecordKind::A2ml => {
            labels.push("A2ML text length");
        },
        RecordKind::IfData => {
            labels.push("Valid");
            labels.push("Items");
        },
        RecordKind::UserRights => {
            labels.push("User level");
            labels.push("Read only");
            labels.push("Ref groups");
        },
    }
    assert(labels_view(labels@) =~= kind_labels(kind));
    labels
}

/// `r` is the record of kind `kind` with the given name, long identifier
/// and attribute values: the name only for a named kind, the long
/// identifier only for a kind that has one, and each value under its label.
pub open spec fn record_of_kind(
    kind: RecordKind,
    name: Seq<char>,
    long_identifier: Seq<char>,
    values: Seq<FieldValue>,
    r: Record,
) -> bool {
    &&& r.name@ == (if kind_is_named(kind) {
        name
    } else {
        Seq::empty()
    })
    &&& opt_text(r.long_identifier) == (if kind_has_long_identifier(kind) {
        Some(long_identifier)
    } else {
        None
    })
    &&& r.fields@.len() == values.len()
    &&& forall|i: int|
        0 <= i < values.len() ==> (#[trigger] r.fields@[i]).label@ == kind_labels(kind)[i] && r.fields@[i].value
            == values[i]
}

/// The record of kind `kind` made from its name, long identifier and
/// attribute values in the order of the kind's labels; `None` when the
/// number of values differs from the number of labels.
pub fn record_of(kind: RecordKind, name: String, long_identifier: String, values: Vec<FieldValue>) -> (r:
    Option<Record>)
    ensures
        match r {
            Some(rec) => values@.len() == kind_labels(kind).len() && record_of_kind(
                kind,
                name@,
                long_identifier@,
                values@,
                rec,
            ),
            None => values@.len() != kind_labels(kind).len(),
        },
{
    let labels = kind_labels_of(kind);
    if labels.len() != values.len() {
        return None;
    }
    let ghost all = values@;
    let n = values.len();
    let mut rest = values;
    let mut fields: Vec<Field> = Vec::new();
    for i in 0..n
        invariant
            n == all.len(),
            labels_view(labels@) == kind_labels(kind),
            labels@.len() == n,
            rest@ == all.skip(i as int),
            fields@.len() == i,
            forall|k: int|
                0 <= k < i ==> (#[trigger] fields@[k]).label@ == kind_labels(kind)[k] && fields@[k].value
                    == all[k],
    {
        assert(labels_view(labels@)[i as int] == labels@[i as int]@);
        let value = rest.remove(0);
        assert(all.skip(i + 1) =~= all.skip(i as int).remove(0));
        fields.push(Field { label: String::from_str(labels[i]), value });
    }
    let record = Record {
        name: if kind_is_named_exec(kind) {
            name
        } else {
            String::new()
        },
        long_identifier: if kind_has_long_identifier_exec(kind) {
            Some(long_identifier)
        } else {
            None
        },
        fields,
    };
    Some(record)
}

fn kind_is_named_exec(kind: RecordKind) -> (r: bool)
    ensures
        r == kind_is_named(kind),
{
    !(kind == RecordKind::ModCommon || kind == RecordKind::ModPar || kind == RecordKind::VariantCoding || kind == RecordKind::A2ml || kind == RecordKind::IfData || kind == RecordKind::UserRights)
}

fn kind_has_long_identifier_exec(kind: RecordKind) -> (r: bool)
    ensures
        r == kind_has_long_identifier(kind),
{
    !(kind == RecordKind::RecordLayout || kind == RecordKind::Transformer || kind == RecordKind::ModCommon || kind == RecordKind::ModPar || kind == RecordKind::VariantCoding || kind == RecordKind::A2ml || kind == RecordKind::IfData || kind == RecordKind::UserRights)
}

} // verus!
