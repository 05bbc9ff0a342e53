use a2l_editor::error::EditorError;
use a2l_editor::import::{ElfSymbol, RawSymbol, load_elf_symbols, sort_by_name, symbols_in_table};
use a2l_editor::model::{Catalog, Document, Module};
use a2l_editor::store::DocumentStore;

fn empty_catalog() -> Catalog {
    Catalog {
        compu_methods: Vec::new(),
        compu_tabs: Vec::new(),
        compu_vtabs: Vec::new(),
        compu_vtab_ranges: Vec::new(),
        record_layouts: Vec::new(),
        functions: Vec::new(),
        groups: Vec::new(),
        units: Vec::new(),
        frames: Vec::new(),
        blobs: Vec::new(),
        instances: Vec::new(),
        transformers: Vec::new(),
        typedef_axis: Vec::new(),
        typedef_blob: Vec::new(),
        typedef_characteristic: Vec::new(),
        typedef_measurement: Vec::new(),
        typedef_structure: Vec::new(),
        mod_common: None,
        mod_par: None,
        variant_coding: None,
        a2ml: None,
        if_data: Vec::new(),
        user_rights: Vec::new(),
    }
}

fn module(name: &str) -> Module {
    Module {
        name: name.to_string(),
        long_identifier: String::new(),
        measurements: Vec::new(),
        characteristics: Vec::new(),
        axis_pts: Vec::new(),
        catalog: empty_catalog(),
    }
}

fn store_with(modules: Vec<Module>) -> DocumentStore {
    let mut store = DocumentStore::new();
    store.load(
        Document {
            project_name: "P".to_string(),
            project_long_identifier: String::new(),
            header_comment: None,
            version: None,
            modules,
        },
        0,
    );
    store
}

fn symbol(name: &str, address: u64) -> ElfSymbol {
    ElfSymbol {
        name: name.to_string(),
        address,
        size: 1,
        bind: "GLOBAL".to_string(),
        type_str: "OBJECT".to_string(),
        section: ".bss".to_string(),
    }
}

#[test]
fn import_two_symbols_in_order() {
    let mut store = store_with(vec![module("Engine")]);
    let r = store
        .create_measurements_from_elf(None, &vec![symbol("foo", 0x1000), symbol("bar", 0x2000)])
        .unwrap();
    let names: Vec<&str> = r.entities.iter().filter(|e| e.kind == "Measurement").map(|e| e.name.as_str()).collect();
    assert_eq!(names, vec!["foo", "bar"]);
    let foo = store.get_measurement(&"foo".to_string()).unwrap();
    let bar = store.get_measurement(&"bar".to_string()).unwrap();
    assert_eq!(foo.ecu_address, Some("0x1000".to_string()));
    assert_eq!(bar.ecu_address, Some("0x2000".to_string()));
    for m in [&foo, &bar] {
        assert_eq!(m.datatype, "UBYTE");
        assert_eq!(f64::from_bits(m.lower_limit.bits), 0.0);
        assert_eq!(f64::from_bits(m.upper_limit.bits), 255.0);
        assert_eq!(m.upper_limit.text, 255.0f64.to_string());
        assert_eq!(m.lower_limit.text, 0.0f64.to_string());
        assert_eq!(m.resolution, 1);
        assert_eq!(f64::from_bits(m.accuracy.bits), 0.0);
        assert_eq!(m.conversion, "NO_COMPU_METHOD");
    }
}

#[test]
fn import_targets_named_module_and_keeps_duplicates() {
    let mut store = store_with(vec![module("A"), module("B")]);
    store.create_measurements_from_elf(Some("B".to_string()), &vec![symbol("x", 0x1_2345_6789)]).unwrap();
    store.create_measurements_from_elf(Some("B".to_string()), &vec![symbol("x", 1)]).unwrap();
    let doc = store.current().unwrap();
    assert!(doc.modules[0].measurements.is_empty());
    assert_eq!(doc.modules[1].measurements.len(), 2);
    assert_eq!(doc.modules[1].measurements[0].ecu_address, Some(0x2345_6789));
    let r = store.create_measurements_from_elf(Some("C".to_string()), &vec![symbol("y", 1)]);
    assert!(matches!(r, Err(EditorError::NotFound(n)) if n == "C"));
}

#[test]
fn import_without_modules_fails() {
    let mut store = store_with(Vec::new());
    let r = store.create_measurements_from_elf(None, &vec![symbol("y", 1)]);
    assert!(matches!(r, Err(EditorError::NoModules)));
}

fn raw(name: Option<&str>, value: u64, symbol_type: u8, binding: u8, section_index: usize) -> RawSymbol {
    RawSymbol { name: name.map(|s| s.to_string()), value, size: 4, symbol_type, binding, section_index }
}

#[test]
fn symbol_table_entries() {
    let sections = vec![None, Some(".text".to_string()), Some(".data".to_string())];
    let table = vec![
        raw(Some(""), 0, 0, 0, 0),
        raw(Some("main"), 0x400, 2, 1, 1),
        raw(None, 5, 1, 1, 1),
        raw(Some("counter"), 0x800, 1, 0, 2),
        raw(Some("weird"), 1, 9, 7, 99),
        raw(Some("ifunc"), 2, 10, 10, 0),
    ];
    let s = symbols_in_table(table, &sections);
    let rows: Vec<(&str, &str, &str, &str)> = s
        .iter()
        .map(|x| (x.name.as_str(), x.type_str.as_str(), x.bind.as_str(), x.section.as_str()))
        .collect();
    assert_eq!(
        rows,
        vec![
            ("main", "FUNC", "GLOBAL", ".text"),
            ("counter", "OBJECT", "LOCAL", ".data"),
            ("weird", "UNKNOWN_STT", "UNKNOWN_STB", ""),
            ("ifunc", "GNU_IFUNC", "GNU_UNIQUE", ""),
        ]
    );
    assert_eq!(s[0].address, 0x400);
}

#[test]
fn symbols_sorted_by_name() {
    let sorted = sort_by_name(vec![symbol("b", 1), symbol("a", 2), symbol("b", 3), symbol("A", 4), symbol("ab", 5)]);
    let rows: Vec<(&str, u64)> = sorted.iter().map(|s| (s.name.as_str(), s.address)).collect();
    assert_eq!(rows, vec![("A", 4), ("a", 2), ("ab", 5), ("b", 1), ("b", 3)]);
    let loaded = load_elf_symbols(
        vec![raw(Some("zeta"), 1, 1, 1, 0), raw(Some("alpha"), 2, 1, 1, 0)],
        &vec![Some(".x".to_string())],
    );
    let names: Vec<&str> = loaded.iter().map(|s| s.name.as_str()).collect();
    assert_eq!(names, vec!["alpha", "zeta"]);
}

const SAMPLE: &str = r#"ASAP2_VERSION 1 71
/begin PROJECT demo "demo project"
  /begin HEADER "header comment"
  /end HEADER
  /begin MODULE Engine "engine"
    /begin MEASUREMENT rpm "engine speed" UWORD NO_COMPU_METHOD 1 0.5 0 8000
      ECU_ADDRESS 0x1000
    /end MEASUREMENT
  /end MODULE
/end PROJECT
"#;

#[test]
fn export_load_export_is_stable() {
    let (file, warnings) = a2l_editor::source::parse_a2l(SAMPLE).unwrap();
    assert_eq!(warnings, 0);
    let text = file.write_to_string();
    let (again, _) = a2l_editor::source::parse_a2l(&text).unwrap();
    assert_eq!(again.write_to_string(), text);
    assert!(text.contains("ECU_ADDRESS 0x1000"));
}
