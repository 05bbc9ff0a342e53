use a2l_editor::access::{
    AxisPtsData, CharacteristicData, MeasurementData, string_to_characteristic_type,
    string_to_datatype,
};
use a2l_editor::details::{A2lDetailProvider, count_detail, detail, limits_detail, opt_detail};
use a2l_editor::directory::build_metadata;
use a2l_editor::error::{EditorError, HexField};
use a2l_editor::hex::{parse_hex_u32, parse_hex_u64};
use a2l_editor::kinds::{RecordKind, kind_labels_of, record_of};
use a2l_editor::model::{
    AxisPts, Catalog, Characteristic, CharacteristicType, DataType, Document, Field, FieldValue,
    Measurement, Module, Real, Record,
};
use a2l_editor::render::{decimal_string, hex_string};
use a2l_editor::store::DocumentStore;
use a2l_editor::tree::{build_section_from_optional, build_section_from_vec, build_tree};

fn real_value(v: f64) -> Real {
    Real { bits: v.to_bits(), text: v.to_string() }
}

fn empty_catalog() -> Catalog {
    Catalog {
        compu_methods: Vec::new(),
        compu_tabs: Vec::new(),
        compu_vtabs: Vec::new(),
        compu_vtab_ranges: Vec::new(),
        record_layouts: Vec::new(),
        functions: Vec::new(),
        groups: Vec::new(),
        units: Vec::new(),
        frames: Vec::new(),
        blobs: Vec::new(),
        instances: Vec::new(),
        transformers: Vec::new(),
        typedef_axis: Vec::new(),
        typedef_blob: Vec::new(),
        typedef_characteristic: Vec::new(),
        typedef_measurement: Vec::new(),
        typedef_structure: Vec::new(),
        mod_common: None,
        mod_par: None,
        variant_coding: None,
        a2ml: None,
        if_data: Vec::new(),
        user_rights: Vec::new(),
    }
}

fn module(name: &str) -> Module {
    Module {
        name: name.to_string(),
        long_identifier: format!("{name} description"),
        measurements: Vec::new(),
        characteristics: Vec::new(),
        axis_pts: Vec::new(),
        catalog: empty_catalog(),
    }
}

fn measurement(name: &str, address: Option<u32>) -> Measurement {
    Measurement {
        name: name.to_string(),
        long_identifier: String::new(),
        datatype: DataType::Uword,
        conversion: "NO_COMPU_METHOD".to_string(),
        resolution: 1,
        accuracy: real_value(0.5),
        lower_limit: real_value(-10.0),
        upper_limit: real_value(2.5),
        address_type: None,
        ecu_address: address,
        ecu_address_extension: None,
        byte_order: Some("MsbLast".to_string()),
        array_size: None,
        bit_mask: None,
        bit_operation: None,
        display_identifier: None,
        format: None,
        function_list: None,
        layout: None,
        matrix_dim: None,
        max_refresh: None,
        model_link: None,
        phys_unit: None,
        read_write: None,
        ref_memory_segment: None,
        symbol_link: None,
        var_virtual: None,
        annotations: 2,
        if_data_blocks: 0,
    }
}

fn characteristic(name: &str, address: u32) -> Characteristic {
    Characteristic {
        name: name.to_string(),
        long_identifier: "a curve".to_string(),
        characteristic_type: CharacteristicType::Curve,
        address,
        deposit: "RL_CURVE".to_string(),
        max_diff: real_value(0.0),
        conversion: "CM_ID".to_string(),
        lower_limit: real_value(0.0),
        upper_limit: real_value(100.0),
        bit_mask: Some(0xFF),
        byte_order: None,
        calibration_access: None,
        display_identifier: None,
        encoding: None,
        extended_limits: None,
        format: None,
        function_list: None,
        guard_rails: None,
        matrix_dim: None,
        max_refresh: None,
        model_link: None,
        phys_unit: None,
        read_only: None,
        ref_memory_segment: None,
        step_size: None,
        symbol_link: None,
        axis_descriptors: 1,
        annotations: 0,
        if_data_blocks: 0,
    }
}

fn axis_pts(name: &str) -> AxisPts {
    AxisPts {
        name: name.to_string(),
        long_identifier: String::new(),
        address: 0x4000,
        input_quantity: "speed".to_string(),
        deposit_record: "RL_AXIS".to_string(),
        max_diff: real_value(0.0),
        conversion: "CM_ID".to_string(),
        max_axis_points: 8,
        lower_limit: real_value(0.0),
        upper_limit: real_value(8000.0),
        byte_order: None,
        calibration_access: None,
        deposit: None,
        display_identifier: None,
        extended_limits: None,
        format: None,
        function_list: None,
        guard_rails: None,
        max_refresh: None,
        model_link: None,
        monotony: None,
        phys_unit: None,
        read_only: None,
        ref_memory_segment: None,
        step_size: None,
        symbol_link: None,
        annotations: 0,
        if_data_blocks: 1,
    }
}

fn record(name: &str, long_identifier: Option<&str>) -> Record {
    Record {
        name: name.to_string(),
        long_identifier: long_identifier.map(|s| s.to_string()),
        fields: vec![
            Field { label: "Size".to_string(), value: FieldValue::Number(16) },
            Field { label: "Start address".to_string(), value: FieldValue::Hex(0xBEEF) },
            Field { label: "Format".to_string(), value: FieldValue::Optional(None) },
            Field { label: "Valid".to_string(), value: FieldValue::Flag(true) },
            Field { label: "Items".to_string(), value: FieldValue::Presence(false) },
        ],
    }
}

fn document() -> Document {
    let mut engine = module("Engine");
    engine.measurements.push(measurement("rpm", Some(0x1000)));
    engine.measurements.push(measurement("X", None));
    engine.characteristics.push(characteristic("map1", 0x2000));
    engine.axis_pts.push(axis_pts("axis1"));
    engine.catalog.blobs.push(record("blob1", Some("a blob")));
    engine.catalog.mod_common = Some(record("", None));
    engine.catalog.if_data.push(record("", None));
    engine.catalog.if_data.push(record("", None));
    let mut gearbox = module("Gearbox");
    gearbox.measurements.push(measurement("X", Some(0x10)));
    Document {
        project_name: "Demo".to_string(),
        project_long_identifier: "demo project".to_string(),
        header_comment: Some("  calibration data \n".to_string()),
        version: Some((1, 71)),
        modules: vec![engine, gearbox],
    }
}

const SAMPLE: &str = "ASAP2_VERSION 1 71\n/begin PROJECT Demo \"demo project\"\n/end PROJECT\n";

fn loaded() -> DocumentStore {
    let mut store = DocumentStore::new();
    store.load(document(), 3);
    store
}

#[test]
fn renders_decimal_and_hex() {
    assert_eq!(decimal_string(0), "0");
    assert_eq!(decimal_string(1071), "1071");
    assert_eq!(hex_string(0), "0x0");
    assert_eq!(hex_string(0x1000), "0x1000");
    assert_eq!(hex_string(0xBEEF), "0xBEEF");
    assert_eq!(hex_string(u64::MAX), "0xFFFFFFFFFFFFFFFF");
}

#[test]
fn detail_rows_follow_formatting_rules() {
    let d = detail("Label", "value".to_string());
    assert_eq!((d.label.as_str(), d.value.as_str()), ("Label", "value"));
    assert_eq!(opt_detail("Format", &None).value, "\u{2014}");
    assert_eq!(opt_detail("Format", &Some("\"%6.2\"".to_string())).value, "\"%6.2\"");
    assert_eq!(count_detail("Annotations", 12).value, "12");
    let limits = limits_detail(&real_value(0.0), &real_value(255.0));
    assert_eq!(limits.label, "Limits");
    assert_eq!(limits.value, "0 .. 255");
    assert_eq!(limits_detail(&real_value(-1.5), &real_value(2.25)).value, "-1.5 .. 2.25");
}

#[test]
fn record_details_render_each_value_kind() {
    let r = record("blob1", Some("a blob"));
    let rows: Vec<(String, String)> = r.details().into_iter().map(|d| (d.label, d.value)).collect();
    assert_eq!(
        rows,
        vec![
            ("Size".to_string(), "16".to_string()),
            ("Start address".to_string(), "0xBEEF".to_string()),
            ("Format".to_string(), "\u{2014}".to_string()),
            ("Valid".to_string(), "true".to_string()),
            ("Items".to_string(), "none".to_string()),
        ]
    );
    assert_eq!(r.description(), Some("a blob".to_string()));
    assert_eq!(record("x", Some("")).description(), None);
    assert_eq!(record("x", None).description(), None);
}

#[test]
fn measurement_details_table() {
    let m = measurement("rpm", Some(4096));
    let d = m.details();
    assert_eq!(d.len(), 27);
    assert_eq!(d[0].label, "Long identifier");
    assert_eq!(d[1].label, "Datatype");
    assert_eq!(d[1].value, "Uword");
    assert_eq!(d[3].value, "1");
    assert_eq!(d[4].value, "0.5");
    assert_eq!(d[5].value, "-10 .. 2.5");
    assert_eq!(d[7].label, "ECU address");
    assert_eq!(d[7].value, "EcuAddress { address: 4096 }");
    assert_eq!(d[9].value, "MsbLast");
    assert_eq!(d[25].label, "Annotations");
    assert_eq!(d[25].value, "2");
    assert_eq!(d[26].label, "IF_DATA blocks");
    assert_eq!(m.description(), None);
    let e = measurement("nothing", None).details();
    assert_eq!(e[7].value, "\u{2014}");
}

#[test]
fn characteristic_and_axis_details_tables() {
    let c = characteristic("map1", 0x2000).details();
    assert_eq!(c.len(), 27);
    assert_eq!(c[1].value, "Curve");
    assert_eq!((c[2].label.as_str(), c[2].value.as_str()), ("Address", "0x2000"));
    assert_eq!(c[7].value, "BitMask { mask: 255 }");
    assert_eq!(c[24].value, "1");
    let a = axis_pts("axis1").details();
    assert_eq!(a.len(), 26);
    assert_eq!(a[1].value, "0x4000");
    assert_eq!(a[6].value, "8");
    assert_eq!(a[7].value, "0 .. 8000");
    assert_eq!(a[25].value, "1");
}

#[test]
fn tree_sections_in_order_with_ids() {
    let tree = build_tree(&document());
    assert_eq!(tree.modules.len(), 2);
    let engine = &tree.modules[0];
    assert_eq!(engine.id, "Engine");
    assert_eq!(engine.long_identifier, "Engine description");
    let titles: Vec<&str> = engine.sections.iter().map(|s| s.title.as_str()).collect();
    assert_eq!(titles, vec!["Measurements", "Characteristics", "Axis Points", "Blobs", "Mod Common", "IF_DATA"]);
    let counts: Vec<usize> = engine.sections.iter().map(|s| s.items.len()).collect();
    assert_eq!(counts, vec![2, 1, 1, 1, 1, 2]);
    assert_eq!(engine.sections[0].id, "Engine::Measurement");
    assert_eq!(engine.sections[0].items[0].id, "Engine::Measurement::rpm");
    assert_eq!(engine.sections[0].items[0].kind, "Measurement");
    assert_eq!(engine.sections[3].items[0].description, Some("a blob".to_string()));
    let common = &engine.sections[4].items[0];
    assert_eq!(common.id, "Engine::ModCommon::0");
    assert_eq!(common.name, "Mod Common");
    let if_data = &engine.sections[5];
    assert_eq!(if_data.items[1].id, "Engine::IfData::1");
    assert_eq!(if_data.items[1].name, "IF_DATA 1");
    assert_eq!(tree.modules[1].sections.len(), 1);
}

#[test]
fn empty_module_has_no_sections() {
    let d = Document {
        project_name: "P".to_string(),
        project_long_identifier: String::new(),
        header_comment: None,
        version: None,
        modules: vec![module("Empty")],
    };
    let tree = build_tree(&d);
    assert_eq!(tree.modules.len(), 1);
    assert!(tree.modules[0].sections.is_empty());
    let none = Document { modules: Vec::new(), ..d };
    assert!(build_tree(&none).modules.is_empty());
}

#[test]
fn optional_and_vec_sections_alone() {
    let r = record("", None);
    assert!(build_section_from_optional::<Record>("M", "Mod Par", "ModPar", None).is_none());
    let s = build_section_from_optional("M", "Mod Par", "ModPar", Some(&r)).unwrap();
    assert_eq!((s.id.as_str(), s.items[0].id.as_str(), s.items[0].name.as_str()), ("M::ModPar", "M::ModPar::0", "Mod Par"));
    assert!(build_section_from_vec::<Record>("M", "User Rights", "UserRights", &Vec::new()).is_none());
    let v = build_section_from_vec("M", "User Rights", "UserRights", &vec![record("", None)]).unwrap();
    assert_eq!(v.items[0].name, "User Rights 0");
}

#[test]
fn tree_ids_stable_between_calls() {
    let store = loaded();
    let ids = |t: &a2l_editor::tree::A2lTree| -> Vec<String> {
        t.modules.iter().flat_map(|m| m.sections.iter()).flat_map(|s| s.items.iter()).map(|i| i.id.clone()).collect()
    };
    let first = store.list_a2l_tree().unwrap();
    let second = store.list_a2l_tree().unwrap();
    assert_eq!(ids(&first), ids(&second));
    assert_eq!(ids(&first).len(), 9);
}

#[test]
fn metadata_summary() {
    let store = loaded();
    let doc = store.current().unwrap();
    let m = build_metadata(doc, 3);
    assert_eq!(m.project_name, "Demo");
    assert_eq!(m.module_names, vec!["Engine".to_string(), "Gearbox".to_string()]);
    assert_eq!(m.header_comment, Some("calibration data".to_string()));
    assert_eq!(m.asap2_version, Some("1.71".to_string()));
    assert_eq!(m.warning_count, 3);
}

#[test]
fn project_metadata_update_trims_or_drops_header() {
    let mut store = loaded();
    let m = store.update_project_metadata("New".to_string(), "new id".to_string(), Some("  hi  ".to_string())).unwrap();
    assert_eq!(m.project_name, "New");
    assert_eq!(m.header_comment, Some("hi".to_string()));
    assert_eq!(m.warning_count, 0);
    let m = store.update_project_metadata("New".to_string(), String::new(), Some("   ".to_string())).unwrap();
    assert_eq!(m.header_comment, None);
    assert!(store.current().unwrap().header_comment.is_none());
}

#[test]
fn entity_list_order() {
    let store = loaded();
    let e = store.list_core_entities().unwrap();
    let flat: Vec<(&str, &str)> = e.iter().map(|x| (x.kind.as_str(), x.name.as_str())).collect();
    assert_eq!(
        flat,
        vec![
            ("Module", "Engine"),
            ("Measurement", "rpm"),
            ("Measurement", "X"),
            ("Characteristic", "map1"),
            ("AxisPts", "axis1"),
            ("Module", "Gearbox"),
            ("Measurement", "X"),
        ]
    );
    assert_eq!(e[0].long_identifier, Some("Engine description".to_string()));
    assert_eq!(e[1].long_identifier, None);
}

#[test]
fn rename_is_broadcast_across_modules() {
    let mut store = loaded();
    let r = store.update_entity_name("Measurement", &"X".to_string(), &"Y".to_string()).unwrap();
    let names: Vec<&str> = r.entities.iter().filter(|e| e.kind == "Measurement").map(|e| e.name.as_str()).collect();
    assert_eq!(names, vec!["rpm", "Y", "Y"]);
    let r = store.update_entity_name("Module", &"Gearbox".to_string(), &"Trans".to_string()).unwrap();
    assert_eq!(r.metadata.module_names, vec!["Engine".to_string(), "Trans".to_string()]);
    let before = store.list_core_entities().unwrap().len();
    let r = store.update_entity_name("Unknown", &"rpm".to_string(), &"z".to_string()).unwrap();
    assert_eq!(r.entities.len(), before);
    assert!(r.entities.iter().any(|e| e.name == "rpm"));
}

#[test]
fn rename_then_lookup() {
    let mut store = loaded();
    store.update_entity_name("Measurement", &"X".to_string(), &"Y".to_string()).unwrap();
    assert!(store.get_measurement(&"Y".to_string()).is_ok());
    assert!(matches!(store.get_measurement(&"X".to_string()), Err(EditorError::NotFound(n)) if n == "X"));
}

#[test]
fn module_long_identifier_update() {
    let mut store = loaded();
    let r = store.update_module_long_identifier(&"Gearbox".to_string(), &"gears".to_string()).unwrap();
    assert_eq!(r.entities[5].long_identifier, Some("gears".to_string()));
    let r = store.update_module_long_identifier(&"None".to_string(), &"x".to_string()).unwrap();
    assert_eq!(r.entities[0].long_identifier, Some("Engine description".to_string()));
}

#[test]
fn type_names_map_case_insensitively() {
    assert_eq!(string_to_datatype("ubyte"), Some(DataType::Ubyte));
    assert_eq!(string_to_datatype("AUINT64"), Some(DataType::AUint64));
    assert_eq!(string_to_datatype("a_int64"), Some(DataType::AInt64));
    assert_eq!(string_to_datatype("float32_ieee"), Some(DataType::Float32Ieee));
    assert_eq!(string_to_datatype("BYTE"), None);
    assert_eq!(string_to_characteristic_type("cube4"), Some(CharacteristicType::Cube4));
    assert_eq!(string_to_characteristic_type("CUBE_5"), Some(CharacteristicType::Cube5));
    assert_eq!(string_to_characteristic_type("valblk"), Some(CharacteristicType::ValBlk));
    assert_eq!(string_to_characteristic_type("map"), Some(CharacteristicType::Map2d));
    assert_eq!(string_to_characteristic_type("surface"), None);
}

#[test]
fn hex_inputs() {
    assert_eq!(parse_hex_u32("0x1F"), Some(0x1F));
    assert_eq!(parse_hex_u32("  0X1f \t"), Some(0x1F));
    assert_eq!(parse_hex_u32("ff"), Some(0xFF));
    assert_eq!(parse_hex_u32("+10"), None);
    assert_eq!(parse_hex_u32("0x0x10"), None);
    assert_eq!(parse_hex_u32("0X0x10"), None);
    assert_eq!(parse_hex_u32("0XaB"), Some(0xAB));
    assert_eq!(parse_hex_u32("FFFFFFFF"), Some(u32::MAX));
    assert_eq!(parse_hex_u32("100000000"), None);
    assert_eq!(parse_hex_u32(""), None);
    assert_eq!(parse_hex_u32("0x"), None);
    assert_eq!(parse_hex_u32("+"), None);
    assert_eq!(parse_hex_u32("-1"), None);
    assert_eq!(parse_hex_u32("12g"), None);
    assert_eq!(parse_hex_u64("0xFFFFFFFFFFFFFFFF"), Some(u64::MAX));
    assert_eq!(parse_hex_u64("0x10000000000000000"), None);
    assert_eq!(parse_hex_u64("0000000000000000000001"), Some(1));
}

fn measurement_data(name: &str, datatype: &str, address: Option<&str>) -> MeasurementData {
    MeasurementData {
        name: name.to_string(),
        long_identifier: "edited".to_string(),
        datatype: datatype.to_string(),
        conversion: "CM".to_string(),
        resolution: 7,
        accuracy: real_value(0.25),
        lower_limit: real_value(1.0),
        upper_limit: real_value(2.0),
        ecu_address: address.map(|s| s.to_string()),
    }
}

#[test]
fn measurement_read_and_update() {
    let mut store = loaded();
    let d = store.get_measurement(&"rpm".to_string()).unwrap();
    assert_eq!(d.datatype, "UWORD");
    assert_eq!(d.ecu_address, Some("0x1000".to_string()));
    assert_eq!(d.lower_limit.text, "-10");
    store.update_measurement(&"rpm".to_string(), measurement_data("rpm2", "sbyte", Some(" 0xabc "))).unwrap();
    let d = store.get_measurement(&"rpm2".to_string()).unwrap();
    assert_eq!(d.datatype, "SBYTE");
    assert_eq!(d.ecu_address, Some("0xABC".to_string()));
    assert_eq!(d.resolution, 7);
    assert_eq!(d.long_identifier, "edited");
    store.update_measurement(&"rpm2".to_string(), measurement_data("rpm2", "UBYTE", Some("  "))).unwrap();
    assert_eq!(store.get_measurement(&"rpm2".to_string()).unwrap().ecu_address, None);
}

#[test]
fn measurement_update_failures_leave_document() {
    let mut store = loaded();
    let r = store.update_measurement(&"rpm".to_string(), measurement_data("z", "BYTE", None));
    assert!(matches!(r, Err(EditorError::InvalidEnum(t)) if t == "BYTE"));
    let r = store.update_measurement(&"rpm".to_string(), measurement_data("z", "UBYTE", Some("0xZZ")));
    assert!(matches!(r, Err(EditorError::InvalidHex(HexField::Address))));
    let r = store.update_measurement(&"nope".to_string(), measurement_data("z", "UBYTE", None));
    assert!(matches!(r, Err(EditorError::NotFound(n)) if n == "nope"));
    let d = store.get_measurement(&"rpm".to_string()).unwrap();
    assert_eq!(d.name, "rpm");
    assert_eq!(d.ecu_address, Some("0x1000".to_string()));
}

#[test]
fn first_match_wins_across_modules() {
    let mut store = loaded();
    let d = store.get_measurement(&"X".to_string()).unwrap();
    assert_eq!(d.ecu_address, None);
    store.update_measurement(&"X".to_string(), measurement_data("X", "UBYTE", Some("5"))).unwrap();
    let doc = store.current().unwrap();
    assert_eq!(doc.modules[0].measurements[1].ecu_address, Some(5));
    assert_eq!(doc.modules[1].measurements[0].ecu_address, Some(0x10));
}

fn characteristic_data(address: &str, bit_mask: Option<&str>) -> CharacteristicData {
    CharacteristicData {
        name: "map1".to_string(),
        long_identifier: "edited".to_string(),
        characteristic_type: "value".to_string(),
        address: address.to_string(),
        deposit: "RL_VALUE".to_string(),
        max_diff: real_value(1.0),
        conversion: "CM".to_string(),
        lower_limit: real_value(0.0),
        upper_limit: real_value(1.0),
        bit_mask: bit_mask.map(|s| s.to_string()),
    }
}

#[test]
fn characteristic_read_and_update() {
    let mut store = loaded();
    let d = store.get_characteristic(&"map1".to_string()).unwrap();
    assert_eq!(d.characteristic_type, "CURVE");
    assert_eq!(d.address, "0x2000");
    assert_eq!(d.bit_mask, Some("0xFF".to_string()));
    store.update_characteristic(&"map1".to_string(), characteristic_data("0x3000", None)).unwrap();
    let d = store.get_characteristic(&"map1".to_string()).unwrap();
    assert_eq!(d.characteristic_type, "VALUE");
    assert_eq!(d.address, "0x3000");
    assert_eq!(d.bit_mask, None);
}

#[test]
fn invalid_hex_address_keeps_characteristic() {
    let mut store = loaded();
    let r = store.update_characteristic(&"map1".to_string(), characteristic_data("0xNOPE", None));
    assert!(matches!(r, Err(EditorError::InvalidHex(HexField::Address))));
    let r = store.update_characteristic(&"map1".to_string(), characteristic_data("0x10", Some("zz")));
    assert!(matches!(r, Err(EditorError::InvalidHex(HexField::BitMask))));
    let mut bad_type = characteristic_data("0x10", None);
    bad_type.characteristic_type = "SURFACE".to_string();
    let r = store.update_characteristic(&"map1".to_string(), bad_type);
    assert!(matches!(r, Err(EditorError::InvalidEnum(t)) if t == "SURFACE"));
    let d = store.get_characteristic(&"map1".to_string()).unwrap();
    assert_eq!(d.address, "0x2000");
    assert_eq!(d.long_identifier, "a curve");
}

#[test]
fn axis_pts_read_and_update() {
    let mut store = loaded();
    let d = store.get_axis_pts(&"axis1".to_string()).unwrap();
    assert_eq!(d.address, "0x4000");
    assert_eq!(d.max_axis_points, 8);
    let data = AxisPtsData {
        name: "axis2".to_string(),
        long_identifier: "edited".to_string(),
        address: "0x4100".to_string(),
        input_quantity: "load".to_string(),
        deposit_record: "RL".to_string(),
        max_diff: real_value(0.0),
        conversion: "CM".to_string(),
        max_axis_points: 16,
        lower_limit: real_value(0.0),
        upper_limit: real_value(1.0),
    };
    store.update_axis_pts(&"axis1".to_string(), data).unwrap();
    assert!(matches!(store.get_axis_pts(&"axis1".to_string()), Err(EditorError::NotFound(_))));
    let d = store.get_axis_pts(&"axis2".to_string()).unwrap();
    assert_eq!((d.address.as_str(), d.max_axis_points, d.input_quantity.as_str()), ("0x4100", 16, "load"));
    let bad = AxisPtsData { address: "xyz".to_string(), ..store.get_axis_pts(&"axis2".to_string()).unwrap() };
    assert!(matches!(store.update_axis_pts(&"axis2".to_string(), bad), Err(EditorError::InvalidHex(HexField::Address))));
}

#[test]
fn no_document_guard() {
    let mut store = DocumentStore::new();
    let x = "x".to_string();
    assert!(matches!(store.current(), Err(EditorError::NoDocumentLoaded)));
    assert!(matches!(store.list_core_entities(), Err(EditorError::NoDocumentLoaded)));
    assert!(matches!(store.list_a2l_tree(), Err(EditorError::NoDocumentLoaded)));
    assert!(matches!(store.update_project_metadata(x.clone(), x.clone(), None), Err(EditorError::NoDocumentLoaded)));
    assert!(matches!(store.update_entity_name("Module", &x, &x), Err(EditorError::NoDocumentLoaded)));
    assert!(matches!(store.update_module_long_identifier(&x, &x), Err(EditorError::NoDocumentLoaded)));
    assert!(matches!(store.get_measurement(&x), Err(EditorError::NoDocumentLoaded)));
    assert!(matches!(store.update_measurement(&x, measurement_data("x", "UBYTE", None)), Err(EditorError::NoDocumentLoaded)));
    assert!(matches!(store.get_characteristic(&x), Err(EditorError::NoDocumentLoaded)));
    assert!(matches!(store.update_characteristic(&x, characteristic_data("0", None)), Err(EditorError::NoDocumentLoaded)));
    assert!(matches!(store.get_axis_pts(&x), Err(EditorError::NoDocumentLoaded)));
    assert!(matches!(store.create_measurements_from_elf(None, &Vec::new()), Err(EditorError::NoDocumentLoaded)));
    let data = AxisPtsData {
        name: x.clone(),
        long_identifier: x.clone(),
        address: "0".to_string(),
        input_quantity: x.clone(),
        deposit_record: x.clone(),
        max_diff: real_value(0.0),
        conversion: x.clone(),
        max_axis_points: 1,
        lower_limit: real_value(0.0),
        upper_limit: real_value(1.0),
    };
    assert!(matches!(store.update_axis_pts(&x, data), Err(EditorError::NoDocumentLoaded)));
    assert!(store.document.is_none());
}

#[test]
fn parse_document_text() {
    let (file, warnings) = a2l_editor::source::parse_a2l(SAMPLE).unwrap();
    assert_eq!(warnings, 1);
    assert_eq!(file.project.name, "Demo");
    assert!(file.write_to_string().contains("/begin PROJECT Demo \"demo project\""));
    assert!(matches!(a2l_editor::source::parse_a2l(""), Err(EditorError::Parse(m)) if !m.is_empty()));
    assert!(matches!(a2l_editor::source::parse_a2l("/begin PROJECT"), Err(EditorError::Parse(_))));
}

#[test]
fn set_count_field_counts_flags() {
    let r = Record {
        name: "layout".to_string(),
        long_identifier: None,
        fields: vec![Field { label: "Fields set".to_string(), value: FieldValue::SetCount(vec![true, false, true, true]) }],
    };
    assert_eq!(r.details()[0].value, "3");
}

#[test]
fn records_of_displayed_kinds() {
    assert_eq!(kind_labels_of(RecordKind::Unit), vec!["Long identifier", "Display", "Unit type", "Ref unit", "SI exponents", "Unit conversion"]);
    assert_eq!(kind_labels_of(RecordKind::IfData), vec!["Valid", "Items"]);
    let unit = record_of(
        RecordKind::Unit,
        "rpm".to_string(),
        "revolutions".to_string(),
        vec![
            FieldValue::Text("revolutions".to_string()),
            FieldValue::Text("\"1/min\"".to_string()),
            FieldValue::Text("Derived".to_string()),
            FieldValue::Optional(None),
            FieldValue::Optional(None),
            FieldValue::Optional(None),
        ],
    )
    .unwrap();
    assert_eq!(unit.name, "rpm");
    assert_eq!(unit.description(), Some("revolutions".to_string()));
    let rows: Vec<String> = unit.details().into_iter().map(|d| format!("{}={}", d.label, d.value)).collect();
    assert_eq!(rows[1], "Display=\"1/min\"");
    assert_eq!(rows[5], "Unit conversion=\u{2014}");
    let layout = record_of(RecordKind::RecordLayout, "RL".to_string(), "ignored".to_string(), vec![
        FieldValue::SetCount(vec![true, true]),
        FieldValue::Number(0),
        FieldValue::Optional(None),
        FieldValue::Optional(Some("StaticRecordLayout".to_string())),
    ])
    .unwrap();
    assert_eq!(layout.long_identifier, None);
    assert_eq!(layout.details()[0].value, "2");
    let if_data = record_of(RecordKind::IfData, "named".to_string(), String::new(), vec![FieldValue::Flag(false), FieldValue::Presence(true)]).unwrap();
    assert_eq!(if_data.name, "");
    assert_eq!(if_data.details()[1].value, "present");
    assert!(record_of(RecordKind::IfData, String::new(), String::new(), vec![FieldValue::Flag(true)]).is_none());
}

#[test]
fn upper_case_names_map_without_folding() {
    assert_eq!(a2l_editor::access::datatype_from_upper("A_UINT64"), Some(DataType::AUint64));
    assert_eq!(a2l_editor::access::datatype_from_upper("ubyte"), None);
    assert_eq!(a2l_editor::access::characteristic_type_from_upper("VALBLK"), Some(CharacteristicType::ValBlk));
    assert_eq!(a2l_editor::access::characteristic_type_from_upper("curve"), None);
}

#[test]
fn repeated_prefix_or_sign_is_rejected_by_updates() {
    let mut store = loaded();
    for bad in ["0x0x1", "+1", "0X0x1"] {
        let r = store.update_measurement(&"rpm".to_string(), measurement_data("z", "UBYTE", Some(bad)));
        assert!(matches!(r, Err(EditorError::InvalidHex(HexField::Address))));
        let r = store.update_characteristic(&"map1".to_string(), characteristic_data(bad, None));
        assert!(matches!(r, Err(EditorError::InvalidHex(HexField::Address))));
        let r = store.update_characteristic(&"map1".to_string(), characteristic_data("0x10", Some(bad)));
        assert!(matches!(r, Err(EditorError::InvalidHex(HexField::BitMask))));
    }
    assert_eq!(store.get_measurement(&"rpm".to_string()).unwrap().ecu_address, Some("0x1000".to_string()));
    assert_eq!(store.get_characteristic(&"map1".to_string()).unwrap().address, "0x2000");
}
