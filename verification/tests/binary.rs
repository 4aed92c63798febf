use soroban_wasm::{
    analyze_sections, analyze_wasm, checked_enumerate_functions,
    contract_spec_of_sections, decode_entries, enumerate_functions, format_function,
    format_structure_summary, parse_contract_spec, parse_structure, read_sections,
    spec_functions_from, spec_type_name, structure_of_sections, validate_wasm, validity_of,
    AppError, AppResult, ExportEntry, ExportKind, ImportEntry, ImportKind, ImportedHostFunction,
    MemoryLimits, ParamInfo, Section, SpecEntry, SpecType, TableSummary, TypeEntry, WasmInfo,
};

const HEADER: [u8; 8] = [0x00, 0x61, 0x73, 0x6d, 0x01, 0x00, 0x00, 0x00];

const NO_EXPORTS: &str = "no exported functions found in WASM binary";

fn leb(n: usize) -> Vec<u8> {
    let mut out = vec![];
    let mut rest = n;
    while rest >= 0x80 {
        out.push((rest % 0x80) as u8 + 0x80);
        rest /= 0x80;
    }
    out.push(rest as u8);
    out
}

fn name_bytes(name: &str) -> Vec<u8> {
    [leb(name.len()), name.as_bytes().to_vec()].concat()
}

fn section(id: u8, payload: &[u8]) -> Vec<u8> {
    [vec![id], leb(payload.len()), payload.to_vec()].concat()
}

fn list(items: &[Vec<u8>]) -> Vec<u8> {
    [leb(items.len()), items.concat()].concat()
}

fn custom(name: &str, data: &[u8]) -> Vec<u8> {
    section(0, &[name_bytes(name), data.to_vec()].concat())
}

fn module(sections: &[Vec<u8>]) -> Vec<u8> {
    [HEADER.to_vec(), sections.concat()].concat()
}

fn import(from: &str, name: &str, rest: &[u8]) -> Vec<u8> {
    [name_bytes(from), name_bytes(name), rest.to_vec()].concat()
}

fn export(name: &str, kind: u8, index: u8) -> Vec<u8> {
    [name_bytes(name), vec![kind, index]].concat()
}

/// `(i64) -> i64` and `() -> ()`.
fn two_types() -> Vec<u8> {
    section(1, &list(&[vec![0x60, 1, 0x7e, 1, 0x7e], vec![0x60, 0, 0]]))
}

fn two_bodies() -> Vec<u8> {
    section(10, &list(&[vec![4, 0, 0x20, 0, 0x0b], vec![2, 0, 0x0b]]))
}

/// A contract without imports that exports `increment` and `reset`.
fn contract(spec: &[Vec<u8>]) -> Vec<u8> {
    let plain = [
        two_types(),
        section(3, &[2, 0, 1]),
        section(7, &list(&[export("increment", 0, 0), export("reset", 0, 1)])),
        two_bodies(),
    ]
    .concat();
    module(&[plain, spec.concat()])
}

/// A binary with an entry in each section.
fn full() -> Vec<u8> {
    module(&[
        two_types(),
        section(
            2,
            &list(&[
                import("env", "_", &[0, 1]),
                import("other", "f", &[0, 1]),
                import("env", "g", &[3, 0x7f, 0]),
                import("env", "put", &[0, 0]),
            ]),
        ),
        section(3, &[2, 0, 1]),
        section(4, &list(&[vec![0x70, 1, 5, 9], vec![0x70, 0, 2]])),
        section(5, &list(&[vec![1, 17, 20]])),
        section(
            7,
            &list(&[export("run", 0, 3), export("memory", 2, 0), export("stop", 0, 0)]),
        ),
        section(8, &[4]),
        two_bodies(),
        custom("note", &[1, 2, 3]),
    ])
}

fn word(n: u32) -> Vec<u8> {
    n.to_be_bytes().to_vec()
}

fn xdr_string(bytes: &[u8]) -> Vec<u8> {
    let mut out = [word(bytes.len() as u32), bytes.to_vec()].concat();
    while out.len() % 4 != 0 {
        out.push(0);
    }
    out
}

fn spec_input(name: &[u8], ty: &[u32]) -> Vec<u8> {
    let ty: Vec<u8> = ty.iter().flat_map(|w| word(*w)).collect();
    [xdr_string(b"doc"), xdr_string(name), ty].concat()
}

fn spec_function(name: &[u8], inputs: &[Vec<u8>]) -> Vec<u8> {
    [
        word(0),
        xdr_string(b""),
        xdr_string(name),
        word(inputs.len() as u32),
        inputs.concat(),
        word(1),
        word(7),
    ]
    .concat()
}

/// A structure without fields.
fn spec_struct(name: &[u8]) -> Vec<u8> {
    [word(1), xdr_string(b""), xdr_string(b""), xdr_string(name), word(0)].concat()
}

fn param(name: &str, ty: &str) -> ParamInfo {
    ParamInfo { name: name.to_string(), ty_name: ty.to_string() }
}

/// The sections but for headers and what is not told apart.
fn other_than_plain(sections: Vec<Result<Section, String>>) -> Vec<Result<Section, String>> {
    sections
        .into_iter()
        .filter(|s| *s != Ok(Section::Other) && *s != Ok(Section::ModuleStart))
        .collect()
}

fn analyze(bytes: Vec<u8>) -> AppResult<WasmInfo> {
    analyze_wasm(bytes).unwrap()
}

fn first_parser_error(bytes: &[u8]) -> String {
    wasmparser::Parser::new(0)
        .parse_all(bytes)
        .find_map(|payload| payload.err())
        .map(|error| error.to_string())
        .unwrap()
}

fn rows(info: &WasmInfo) -> Vec<(String, u32, u32)> {
    info.functions
        .iter()
        .map(|f| (format_function(f), f.param_count, f.result_count))
        .collect()
}

#[test]
fn sections_of_an_empty_module() {
    assert_eq!(read_sections(&HEADER), vec![Ok(Section::ModuleStart), Ok(Section::Other)]);
}

#[test]
fn sections_of_a_full_module() {
    let func = |name: &str, from: &str, type_index: u32| {
        Ok(ImportEntry {
            module: from.to_string(),
            name: name.to_string(),
            kind: ImportKind::Func(type_index),
        })
    };
    let exported = |name: &str, kind: ExportKind, index: u32| {
        Ok(ExportEntry { name: name.to_string(), kind, index })
    };
    assert_eq!(
        other_than_plain(read_sections(&full())),
        vec![
            Ok(Section::Types(vec![
                Ok(vec![TypeEntry::Func { params: 1, results: 1 }]),
                Ok(vec![TypeEntry::Func { params: 0, results: 0 }]),
            ])),
            Ok(Section::Imports(vec![
                func("_", "env", 1),
                func("f", "other", 1),
                Ok(ImportEntry {
                    module: "env".to_string(),
                    name: "g".to_string(),
                    kind: ImportKind::NotFunc,
                }),
                func("put", "env", 0),
            ])),
            Ok(Section::Functions(vec![Ok(0), Ok(1)])),
            Ok(Section::Tables(vec![
                Ok(TableSummary { initial: 5, maximum: Some(9) }),
                Ok(TableSummary { initial: 2, maximum: None }),
            ])),
            Ok(Section::Memories(vec![Ok(MemoryLimits {
                initial_pages: 17,
                maximum_pages: Some(20),
            })])),
            Ok(Section::Exports(vec![
                exported("run", ExportKind::Func, 3),
                exported("memory", ExportKind::NotFunc, 0),
                exported("stop", ExportKind::Func, 0),
            ])),
            Ok(Section::Start(4)),
            Ok(Section::Custom { name: "note".to_string(), data: vec![1, 2, 3] }),
        ]
    );
}

#[test]
fn group_of_types_is_one_entry() {
    let group = [0x4e, 2, 0x60, 1, 0x7f, 0, 0x5f, 0];
    let bytes = module(&[section(1, &list(&[group.to_vec()]))]);
    assert_eq!(
        other_than_plain(read_sections(&bytes)),
        vec![Ok(Section::Types(vec![Ok(vec![
            TypeEntry::Func { params: 1, results: 0 },
            TypeEntry::NotFunc,
        ])]))]
    );
}

#[test]
fn validator_accepts_valid_binaries() {
    assert_eq!(validate_wasm(&HEADER), Ok(()));
    assert_eq!(validate_wasm(&full()), Ok(()));
    assert_eq!(validate_wasm(&contract(&[])), Ok(()));
}

#[test]
fn validator_error_is_handed_on() {
    for bytes in [b"not wasm".to_vec(), vec![], HEADER[..6].to_vec()] {
        let message = wasmparser::validate(&bytes).err().unwrap().to_string();
        assert_eq!(validate_wasm(&bytes), Err(AppError::WasmValidation(message)));
    }
}

#[test]
fn ill_typed_binary_is_invalid_but_can_be_parsed() {
    let bytes = module(&[
        section(1, &[1, 0x60, 0, 1, 0x7e]),
        section(3, &[1, 0]),
        section(7, &list(&[export("f", 0, 0)])),
        section(10, &list(&[vec![2, 0, 0x0b]])),
    ]);
    let message = wasmparser::validate(&bytes).err().unwrap().to_string();
    assert_eq!(validate_wasm(&bytes), Err(AppError::WasmValidation(message.clone())));
    assert_eq!(
        analyze(bytes.clone()).unwrap_err(),
        AppError::WasmValidation(message)
    );
    let found = enumerate_functions(&bytes).unwrap();
    assert_eq!(found[0].name, "f");
    assert_eq!((found[0].param_count, found[0].result_count), (0, 1));
}

#[test]
fn verdicts() {
    assert_eq!(validity_of(Ok(())), Ok(()));
    assert_eq!(
        validity_of(Err("bad".to_string())),
        Err(AppError::WasmValidation("bad".to_string()))
    );
}

#[test]
fn exported_functions_of_a_contract() {
    let found = enumerate_functions(&contract(&[])).unwrap();
    assert_eq!(found.len(), 2);
    assert_eq!(found[0].name, "increment");
    assert_eq!((found[0].param_count, found[0].result_count), (1, 1));
    assert_eq!(found[1].name, "reset");
    assert_eq!((found[1].param_count, found[1].result_count), (0, 0));
    assert!(found.iter().all(|f| f.params.is_empty()));
}

#[test]
fn function_index_counts_imports() {
    let found = enumerate_functions(&full()).unwrap();
    assert_eq!(found[0].name, "run");
    assert_eq!((found[0].param_count, found[0].result_count), (1, 1));
    assert_eq!(found[1].name, "stop");
    assert_eq!((found[1].param_count, found[1].result_count), (0, 0));
}

#[test]
fn function_behind_an_imported_one_keeps_its_counts() {
    let bytes = module(&[
        section(1, &list(&[vec![0x60, 0, 0], vec![0x60, 2, 0x7e, 0x7e, 1, 0x7e]])),
        section(2, &list(&[import("env", "f", &[0, 0])])),
        section(3, &[1, 1]),
        section(7, &list(&[export("a", 0, 1)])),
        section(10, &list(&[vec![4, 0, 0x20, 0, 0x0b]])),
    ]);
    let info = analyze(bytes.clone()).unwrap();
    assert_eq!(rows(&info), vec![("a".to_string(), 2, 1)]);
    let found = enumerate_functions(&bytes).unwrap();
    assert_eq!(found.len(), 1);
    assert_eq!(found[0].name, "a");
    assert_eq!((found[0].param_count, found[0].result_count), (2, 1));
    assert!(found[0].params.is_empty());
}

/// A component that holds these modules.
fn component(modules: &[Vec<u8>]) -> Vec<u8> {
    let header = vec![0x00, 0x61, 0x73, 0x6d, 0x0d, 0x00, 0x01, 0x00];
    let modules: Vec<Vec<u8>> = modules.iter().map(|m| section(1, m)).collect();
    [header, modules.concat()].concat()
}

#[test]
fn each_module_of_a_component_is_numbered_on_its_own() {
    let a = module(&[
        section(1, &list(&[vec![0x60, 0, 0]])),
        section(3, &[1, 0]),
        section(7, &list(&[export("first", 0, 0)])),
        section(10, &list(&[vec![2, 0, 0x0b]])),
    ]);
    let b = module(&[
        section(1, &list(&[vec![0x60, 1, 0x7e, 1, 0x7e], vec![0x60, 2, 0x7e, 0x7e, 1, 0x7e]])),
        section(2, &list(&[import("env", "f", &[0, 0])])),
        section(3, &[1, 1]),
        section(7, &list(&[export("own", 0, 1), export("imported", 0, 0)])),
        section(10, &list(&[vec![4, 0, 0x20, 0, 0x0b]])),
    ]);
    let bytes = component(&[a, b]);
    let starts = read_sections(&bytes).iter().filter(|s| **s == Ok(Section::ModuleStart)).count();
    assert_eq!(starts, 2);
    assert_eq!(
        rows(&analyze(bytes).unwrap()),
        vec![
            ("first".to_string(), 0, 0),
            ("own".to_string(), 2, 1),
            ("imported".to_string(), 1, 1),
        ]
    );
}

#[test]
fn sections_of_a_module_are_in_order() {
    let bytes = module(&[section(7, &list(&[export("f", 0, 0)])), two_types()]);
    let message = first_parser_error(&bytes);
    assert!(message.contains("out of order"));
    assert_eq!(read_sections(&bytes).last().unwrap().clone().unwrap_err(), message);
    assert_eq!(enumerate_functions(&bytes).unwrap_err(), AppError::WasmParse(message));
}

#[test]
fn valid_binaries_hold_no_error() {
    for bytes in [contract(&[]), full(), HEADER.to_vec(), component(&[full(), full()])] {
        assert_eq!(validate_wasm(&bytes), Ok(()));
        assert!(parse_structure(&bytes).is_ok());
        assert!(parse_contract_spec(&bytes).is_ok());
        assert!(read_sections(&bytes).iter().all(|s| s.is_ok()));
    }
}

#[test]
fn function_imported_under_its_exact_type_has_that_type() {
    let bytes = module(&[
        two_types(),
        section(2, &list(&[import("env", "f", &[0x20, 0])])),
        section(7, &list(&[export("f", 0, 0)])),
    ]);
    let found = enumerate_functions(&bytes).unwrap();
    assert_eq!((found[0].param_count, found[0].result_count), (1, 1));
    assert_eq!(parse_structure(&bytes).unwrap().imported_function_count, 1);
}

#[test]
fn binary_without_exported_functions() {
    assert_eq!(
        enumerate_functions(&HEADER).unwrap_err(),
        AppError::WasmParse(NO_EXPORTS.to_string())
    );
    assert_eq!(
        analyze(HEADER.to_vec()).unwrap_err(),
        AppError::WasmParse(NO_EXPORTS.to_string())
    );
    assert_eq!(parse_contract_spec(&HEADER), Ok((vec![], false)));
    assert!(parse_structure(&HEADER).unwrap().exported_functions.is_empty());
}

#[test]
fn parser_error_fails_every_function() {
    let truncated = [contract(&[]), vec![0, 50]].concat();
    for bytes in [truncated, b"not wasm".to_vec(), HEADER[..6].to_vec()] {
        let error = AppError::WasmParse(first_parser_error(&bytes));
        assert_eq!(enumerate_functions(&bytes).unwrap_err(), error);
        assert_eq!(checked_enumerate_functions(&bytes).unwrap().unwrap_err(), error);
        assert_eq!(parse_contract_spec(&bytes).unwrap_err(), error);
        assert_eq!(parse_structure(&bytes).unwrap_err(), error);
    }
}

#[test]
fn bad_type_fails_the_enumeration_only() {
    let bytes = module(&[section(1, &[1, 0x00]), section(7, &list(&[export("f", 0, 0)]))]);
    let sections = other_than_plain(read_sections(&bytes));
    let message = match &sections[0] {
        Ok(Section::Types(groups)) => groups[0].clone().unwrap_err(),
        _ => panic!("no type section"),
    };
    assert!(!message.is_empty());
    assert_eq!(enumerate_functions(&bytes).unwrap_err(), AppError::WasmParse(message));
    assert_eq!(parse_structure(&bytes).unwrap().exported_functions, vec!["f".to_string()]);
    assert_eq!(parse_contract_spec(&bytes), Ok((vec![], false)));
}

#[test]
fn bad_import_fails_the_structure_only() {
    let bytes = module(&[
        section(2, &list(&[import("env", "f", &[0, 0]), import("env", "g", &[0x55, 0])])),
        section(7, &list(&[export("f", 0, 0)])),
    ]);
    let sections = other_than_plain(read_sections(&bytes));
    let message = match &sections[0] {
        Ok(Section::Imports(imports)) => imports[1].clone().unwrap_err(),
        _ => panic!("no import section"),
    };
    assert_eq!(parse_structure(&bytes).unwrap_err(), AppError::WasmParse(message.clone()));
    assert_eq!(enumerate_functions(&bytes).unwrap().len(), 1);
    assert_eq!(
        analyze_sections(bytes, &sections).unwrap_err(),
        AppError::WasmParse(message)
    );
}

#[test]
fn entry_errors_are_those_of_the_parser() {
    let no_exports = AppError::WasmParse(NO_EXPORTS.to_string());
    for (id, payload) in [(4u8, vec![1u8, 0x70]), (5, vec![1, 0]), (7, vec![1])] {
        let bytes = module(&[section(id, &payload)]);
        let sections = other_than_plain(read_sections(&bytes));
        assert_eq!(sections.len(), 1);
        let message = match &sections[0] {
            Ok(Section::Tables(items)) => items.last().unwrap().clone().unwrap_err(),
            Ok(Section::Memories(items)) => items.last().unwrap().clone().unwrap_err(),
            Ok(Section::Exports(items)) => items.last().unwrap().clone().unwrap_err(),
            _ => panic!("another section"),
        };
        assert!(message.contains("unexpected end"));
        let error = AppError::WasmParse(message);
        assert_eq!(parse_structure(&bytes).unwrap_err(), error);
        let enumerated = enumerate_functions(&bytes).unwrap_err();
        assert_eq!(enumerated, if id == 7 { error } else { no_exports.clone() });
    }
}

#[test]
fn earlier_entry_error_comes_before_a_parser_error() {
    // Two functions are declared, one type index is there, and no code.
    let bytes = module(&[section(3, &[2, 0])]);
    let sections = other_than_plain(read_sections(&bytes));
    assert_eq!(sections.len(), 2);
    let entry_message = match &sections[0] {
        Ok(Section::Functions(items)) => items.last().unwrap().clone().unwrap_err(),
        _ => panic!("no function section"),
    };
    let parser_message = sections[1].clone().unwrap_err();
    assert_ne!(entry_message, parser_message);
    assert_eq!(parser_message, first_parser_error(&bytes));
    assert_eq!(enumerate_functions(&bytes).unwrap_err(), AppError::WasmParse(entry_message));
    assert_eq!(parse_structure(&bytes).unwrap_err(), AppError::WasmParse(parser_message));
}

#[test]
fn type_other_than_a_function_is_refused() {
    let bytes = module(&[
        section(1, &list(&[vec![0x60, 0, 0], vec![0x5f, 0]])),
        section(3, &[1, 0]),
        section(7, &list(&[export("f", 0, 0)])),
        section(10, &list(&[vec![2, 0, 0x0b]])),
    ]);
    assert!(checked_enumerate_functions(&bytes).is_none());
    assert_eq!(validate_wasm(&bytes), Ok(()));
    assert!(analyze_wasm(bytes).is_none());
}

#[test]
fn checked_enumeration_agrees() {
    let bytes = contract(&[]);
    let found = checked_enumerate_functions(&bytes).unwrap().unwrap();
    assert_eq!(found[1].name, enumerate_functions(&bytes).unwrap()[1].name);
}

#[test]
fn structure_of_a_full_module() {
    let found = parse_structure(&full()).unwrap();
    let host = |name: &str| ImportedHostFunction {
        module: "env".to_string(),
        name: name.to_string(),
    };
    assert_eq!(
        found.memories,
        vec![MemoryLimits { initial_pages: 17, maximum_pages: Some(20) }]
    );
    assert_eq!(found.imported_host_functions, vec![host("_"), host("put")]);
    assert_eq!(found.imported_function_count, 3);
    assert_eq!(found.total_import_count, 4);
    assert_eq!(found.exported_functions, vec!["run".to_string(), "stop".to_string()]);
    assert_eq!(found.start_function, Some(4));
    assert_eq!(
        found.tables,
        vec![
            TableSummary { initial: 5, maximum: Some(9) },
            TableSummary { initial: 2, maximum: None },
        ]
    );
    assert!(found.initial_memory_exceeds_limit());
    assert!(format_structure_summary(&found)
        .contains("  Memory[0]: initial=17 pages (1114112 bytes), max=20 pages\n"));
}

#[test]
fn function_imported_under_its_exact_type_counts() {
    let import = |kind: ImportKind| {
        Ok(ImportEntry { module: "env".to_string(), name: "x".to_string(), kind })
    };
    let sections = vec![
        Ok(Section::Imports(vec![import(ImportKind::FuncExact(0)), import(ImportKind::NotFunc)])),
        Ok(Section::Start(1)),
        Ok(Section::Start(2)),
    ];
    let found = structure_of_sections(&sections).unwrap();
    assert_eq!(found.imported_host_functions.len(), 1);
    assert_eq!(found.imported_function_count, 1);
    assert_eq!(found.total_import_count, 2);
    assert_eq!(found.start_function, Some(2));
}

#[test]
fn spec_gives_typed_parameters() {
    let spec = [
        spec_struct(b"Point"),
        spec_function(b"increment", &[spec_input(b"x", &[7])]),
        spec_function(b"unknown", &[]),
    ]
    .concat();
    let bytes = contract(&[custom("contractspecv0", &spec)]);
    assert_eq!(
        parse_contract_spec(&bytes),
        Ok((
            vec![
                ("increment".to_string(), vec![param("x", "I64")]),
                ("unknown".to_string(), vec![]),
            ],
            true
        ))
    );
    let info = analyze(bytes.clone()).unwrap();
    assert_eq!(info.bytes, bytes);
    assert!(info.has_spec);
    assert_eq!(
        rows(&info),
        vec![("increment(x: I64)".to_string(), 1, 1), ("reset".to_string(), 0, 0)]
    );
    assert_eq!(
        info.structure.exported_functions,
        vec!["increment".to_string(), "reset".to_string()]
    );
}

#[test]
fn spec_overrides_the_parameter_count() {
    let spec = spec_function(b"reset", &[spec_input(b"a", &[4]), spec_input(b"b", &[16])]);
    let info = analyze(contract(&[custom("contractspecv0", &spec)])).unwrap();
    assert_eq!(
        rows(&info),
        vec![("increment".to_string(), 1, 1), ("reset(a: u32, b: String)".to_string(), 2, 0)]
    );
}

#[test]
fn first_entry_of_a_name_counts() {
    let first = spec_function(b"reset", &[spec_input(b"a", &[4])]);
    let second = spec_function(b"reset", &[]);
    let sections = [
        custom("contractspecv0", &first),
        custom("contractspecv0", &second),
    ];
    let info = analyze(contract(&sections)).unwrap();
    assert_eq!(rows(&info)[1], ("reset(a: u32)".to_string(), 1, 0));
}

#[test]
fn no_spec_leaves_bare_exports() {
    let info = analyze(contract(&[custom("contractmetav0", &spec_struct(b"P"))])).unwrap();
    assert!(!info.has_spec);
    assert_eq!(rows(&info), vec![("increment".to_string(), 1, 1), ("reset".to_string(), 0, 0)]);
}

#[test]
fn empty_spec_is_present() {
    let bytes = contract(&[custom("contractspecv0", &[])]);
    assert_eq!(parse_contract_spec(&bytes), Ok((vec![], true)));
    assert!(analyze(bytes).unwrap().has_spec);
}

#[test]
fn trailing_bytes_keep_the_decoded_entries() {
    let whole = spec_function(b"reset", &[spec_input(b"a", &[4])]);
    for tail in [vec![0u8], vec![0, 0, 0], vec![0xff; 9], whole[..whole.len() - 1].to_vec()] {
        let data = [whole.clone(), tail].concat();
        assert_eq!(decode_entries(&data).len(), 1);
        let bytes = contract(&[custom("contractspecv0", &data)]);
        assert_eq!(
            parse_contract_spec(&bytes),
            Ok((vec![("reset".to_string(), vec![param("a", "u32")])], true))
        );
    }
}

#[test]
fn undecodable_spec_has_no_functions() {
    let bytes = contract(&[custom("contractspecv0", &[0xff, 0xff, 0xff, 0xff, 1])]);
    assert_eq!(parse_contract_spec(&bytes), Ok((vec![], true)));
    let info = analyze(bytes).unwrap();
    assert!(info.has_spec);
    assert_eq!(rows(&info), vec![("increment".to_string(), 1, 1), ("reset".to_string(), 0, 0)]);
    let unknown_type = spec_function(b"f", &[spec_input(b"a", &[15])]);
    assert!(decode_entries(&unknown_type).is_empty());
}

#[test]
fn entries_of_a_concatenation() {
    let a = spec_function(b"a", &[spec_input(b"x", &[0])]);
    let b = spec_struct(b"B");
    let both = [decode_entries(&a), decode_entries(&b)].concat();
    assert_eq!(decode_entries(&[a, b].concat()), both);
    assert_eq!(
        both,
        vec![
            SpecEntry::Function {
                name: b"a".to_vec(),
                inputs: vec![(b"x".to_vec(), SpecType::Val)],
            },
            SpecEntry::Other,
        ]
    );
    assert_eq!(
        spec_functions_from(&both),
        vec![("a".to_string(), vec![param("x", "val")])]
    );
}

#[test]
fn names_that_are_not_utf8_are_repaired() {
    let data = spec_function(b"f\xffg", &[spec_input(b"\xc3\xa9", &[1]), spec_input(b"\x80", &[2])]);
    assert_eq!(
        spec_functions_from(&decode_entries(&data)),
        vec![(
            "f\u{fffd}g".to_string(),
            vec![param("\u{e9}", "bool"), param("\u{fffd}", "void")]
        )]
    );
}

#[test]
fn name_of_each_type() {
    // The type code with what follows it, and the name.
    let cases: Vec<(Vec<u32>, SpecType, &str)> = vec![
        (vec![0], SpecType::Val, "val"),
        (vec![1], SpecType::Bool, "bool"),
        (vec![2], SpecType::Void, "void"),
        (vec![3], SpecType::Error, "error"),
        (vec![4], SpecType::U32, "u32"),
        (vec![5], SpecType::I32, "i32"),
        (vec![6], SpecType::U64, "u64"),
        (vec![7], SpecType::I64, "I64"),
        (vec![8], SpecType::Timepoint, "timepoint"),
        (vec![9], SpecType::Duration, "duration"),
        (vec![10], SpecType::U128, "u128"),
        (vec![11], SpecType::I128, "i128"),
        (vec![12], SpecType::U256, "u256"),
        (vec![13], SpecType::I256, "i256"),
        (vec![14], SpecType::Bytes, "bytes"),
        (vec![16], SpecType::String, "String"),
        (vec![17], SpecType::Symbol, "Symbol"),
        (vec![19], SpecType::Address, "address"),
        (vec![20], SpecType::MuxedAddress, "muxed_address"),
        (vec![1000, 4], SpecType::OptionOf, "option"),
        (vec![1001, 4, 3], SpecType::ResultOf, "result"),
        (vec![1002, 1000, 4], SpecType::VecOf, "vec"),
        (vec![1004, 17, 4], SpecType::MapOf, "map"),
        (vec![1005, 2, 17, 4], SpecType::TupleOf, "tuple"),
        (vec![1006, 32], SpecType::BytesN, "bytes_n"),
        (vec![2000, 4, 0x4e61_6d65], SpecType::Udt, "udt"),
    ];
    assert_eq!(cases.len(), 26);
    for (code, ty, name) in cases {
        assert_eq!(spec_type_name(&ty), name);
        let data = spec_function(b"f", &[spec_input(b"x", &code), spec_input(b"y", &[7])]);
        assert_eq!(
            decode_entries(&data),
            vec![SpecEntry::Function {
                name: b"f".to_vec(),
                inputs: vec![(b"x".to_vec(), ty), (b"y".to_vec(), SpecType::I64)],
            }]
        );
        assert_eq!(
            spec_functions_from(&decode_entries(&data)),
            vec![("f".to_string(), vec![param("x", name), param("y", "I64")])]
        );
    }
}

#[test]
fn parser_error_hides_the_spec() {
    let spec = spec_function(b"reset", &[]);
    let sections = vec![
        Ok(Section::Custom { name: "contractspecv0".to_string(), data: spec }),
        Err("broken".to_string()),
    ];
    assert_eq!(
        contract_spec_of_sections(&sections),
        Err(AppError::WasmParse("broken".to_string()))
    );
}

#[test]
fn exported_names_agree() {
    for bytes in [contract(&[]), full()] {
        let names: Vec<String> =
            enumerate_functions(&bytes).unwrap().into_iter().map(|f| f.name).collect();
        assert_eq!(parse_structure(&bytes).unwrap().exported_functions, names);
    }
}
