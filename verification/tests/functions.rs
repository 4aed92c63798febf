use soroban_wasm::{
    apply_contract_spec, enumerate_sections, format_function, has_only_function_types, AppError,
    ExportEntry, ExportKind, FunctionInfo, ImportEntry, ImportKind, ParamInfo, Section, TypeEntry,
};

type Sections = Vec<Result<Section, String>>;

fn func(params: usize, results: usize) -> TypeEntry {
    TypeEntry::Func { params, results }
}

fn export(name: &str, kind: ExportKind, index: u32) -> Result<ExportEntry, String> {
    Ok(ExportEntry { name: name.to_string(), kind, index })
}

fn param(name: &str, ty: &str) -> ParamInfo {
    ParamInfo { name: name.to_string(), ty_name: ty.to_string() }
}

fn function(name: &str, param_count: u32, result_count: u32) -> FunctionInfo {
    FunctionInfo { name: name.to_string(), param_count, result_count, params: vec![] }
}

fn counts(found: &[FunctionInfo]) -> Vec<(String, u32, u32, usize)> {
    found
        .iter()
        .map(|f| (f.name.clone(), f.param_count, f.result_count, f.params.len()))
        .collect()
}

fn row(name: &str, params: u32, results: u32) -> (String, u32, u32, usize) {
    (name.to_string(), params, results, 0)
}

#[test]
fn functions_take_the_arity_of_their_type() {
    let sections: Sections = vec![
        Ok(Section::Other),
        Ok(Section::Types(vec![Ok(vec![func(2, 1)]), Ok(vec![func(0, 0), func(3, 2)])])),
        Ok(Section::Functions(vec![Ok(2), Ok(0), Ok(1)])),
        Ok(Section::Exports(vec![
            export("a", ExportKind::Func, 0),
            export("memory", ExportKind::NotFunc, 0),
            export("b", ExportKind::Func, 1),
            export("c", ExportKind::Func, 2),
        ])),
    ];
    assert!(has_only_function_types(&sections));
    let found = enumerate_sections(&sections).unwrap();
    assert_eq!(counts(&found), vec![row("a", 3, 2), row("b", 2, 1), row("c", 0, 0)]);
}

#[test]
fn unknown_index_or_type_counts_nothing() {
    let sections: Sections = vec![
        Ok(Section::Types(vec![Ok(vec![func(2, 1)])])),
        Ok(Section::Functions(vec![Ok(7)])),
        Ok(Section::Exports(vec![
            export("no_type", ExportKind::Func, 0),
            export("no_function", ExportKind::Func, 5),
        ])),
    ];
    let found = enumerate_sections(&sections).unwrap();
    assert_eq!(counts(&found), vec![row("no_type", 0, 0), row("no_function", 0, 0)]);
}

fn import(kind: ImportKind) -> Result<ImportEntry, String> {
    Ok(ImportEntry { module: "env".to_string(), name: "_".to_string(), kind })
}

#[test]
fn index_counts_imported_functions_first() {
    let sections: Sections = vec![
        Ok(Section::Types(vec![Ok(vec![func(1, 1)]), Ok(vec![func(2, 0)])])),
        Ok(Section::Imports(vec![import(ImportKind::Func(0))])),
        Ok(Section::Functions(vec![Ok(1)])),
        Ok(Section::Exports(vec![export("f", ExportKind::Func, 1)])),
    ];
    let found = enumerate_sections(&sections).unwrap();
    assert_eq!(counts(&found), vec![row("f", 2, 0)]);
}

#[test]
fn exported_import_has_the_arity_of_its_type() {
    let sections: Sections = vec![
        Ok(Section::Types(vec![Ok(vec![func(1, 1), func(2, 0), func(3, 4)])])),
        Ok(Section::Imports(vec![
            import(ImportKind::NotFunc),
            import(ImportKind::FuncExact(2)),
            import(ImportKind::NotFunc),
            import(ImportKind::Func(1)),
            import(ImportKind::Func(9)),
        ])),
        Ok(Section::Functions(vec![Ok(0)])),
        Ok(Section::Exports(vec![
            export("exact", ExportKind::Func, 0),
            export("plain", ExportKind::Func, 1),
            export("no_type", ExportKind::Func, 2),
            export("own", ExportKind::Func, 3),
            export("no_function", ExportKind::Func, 4),
        ])),
    ];
    let found = enumerate_sections(&sections).unwrap();
    assert_eq!(
        counts(&found),
        vec![
            row("exact", 3, 4),
            row("plain", 2, 0),
            row("no_type", 0, 0),
            row("own", 1, 1),
            row("no_function", 0, 0),
        ]
    );
}

#[test]
fn numbering_starts_afresh_with_each_module() {
    let sections: Sections = vec![
        Ok(Section::ModuleStart),
        Ok(Section::Types(vec![Ok(vec![func(0, 0)])])),
        Ok(Section::Functions(vec![Ok(0)])),
        Ok(Section::ModuleStart),
        Ok(Section::Types(vec![Ok(vec![func(1, 1)]), Ok(vec![func(2, 1)])])),
        Ok(Section::Imports(vec![import(ImportKind::Func(0))])),
        Ok(Section::Functions(vec![Ok(1)])),
        Ok(Section::Exports(vec![export("f", ExportKind::Func, 1)])),
        Ok(Section::ModuleStart),
        Ok(Section::Exports(vec![export("g", ExportKind::Func, 0)])),
    ];
    let found = enumerate_sections(&sections).unwrap();
    assert_eq!(counts(&found), vec![row("f", 2, 1), row("g", 0, 0)]);
}

#[test]
fn sections_behind_the_exports_do_not_count() {
    let sections: Sections = vec![
        Ok(Section::Exports(vec![export("f", ExportKind::Func, 0)])),
        Ok(Section::Types(vec![Ok(vec![func(4, 4)])])),
        Ok(Section::Functions(vec![Ok(0)])),
        Ok(Section::Exports(vec![export("g", ExportKind::Func, 0)])),
    ];
    let found = enumerate_sections(&sections).unwrap();
    assert_eq!(counts(&found), vec![row("f", 0, 0), row("g", 4, 4)]);
}

#[test]
fn exact_function_is_no_exported_function() {
    let sections: Sections =
        vec![Ok(Section::Exports(vec![export("f", ExportKind::FuncExact, 0)]))];
    assert_eq!(
        enumerate_sections(&sections).unwrap_err(),
        AppError::WasmParse("no exported functions found in WASM binary".to_string())
    );
}

#[test]
fn no_exported_function_is_an_error() {
    assert_eq!(
        enumerate_sections(&vec![]).unwrap_err(),
        AppError::WasmParse("no exported functions found in WASM binary".to_string())
    );
}

#[test]
fn first_error_is_returned() {
    let first = || -> Result<Section, String> {
        Ok(Section::Functions(vec![Ok(0), Err("bad index".to_string())]))
    };
    let sections: Sections = vec![first(), Err("bad section".to_string())];
    assert_eq!(
        enumerate_sections(&sections).unwrap_err(),
        AppError::WasmParse("bad index".to_string())
    );
    let sections: Sections = vec![Err("bad section".to_string()), first()];
    assert_eq!(
        enumerate_sections(&sections).unwrap_err(),
        AppError::WasmParse("bad section".to_string())
    );
    let sections: Sections = vec![Ok(Section::Types(vec![Err("bad type".to_string())])), first()];
    assert_eq!(
        enumerate_sections(&sections).unwrap_err(),
        AppError::WasmParse("bad type".to_string())
    );
    let sections: Sections = vec![Ok(Section::Exports(vec![
        export("f", ExportKind::Func, 0),
        Err("bad export".to_string()),
    ]))];
    assert_eq!(
        enumerate_sections(&sections).unwrap_err(),
        AppError::WasmParse("bad export".to_string())
    );
}

#[test]
fn errors_in_other_sections_are_not_met() {
    let sections: Sections = vec![
        Ok(Section::Imports(vec![Err("bad import".to_string())])),
        Ok(Section::Tables(vec![Err("bad table".to_string())])),
        Ok(Section::Memories(vec![Err("bad memory".to_string())])),
        Ok(Section::Exports(vec![export("f", ExportKind::Func, 0)])),
    ];
    assert_eq!(counts(&enumerate_sections(&sections).unwrap()), vec![row("f", 0, 0)]);
}

#[test]
fn other_types_are_noticed() {
    let other: Sections = vec![Ok(Section::Types(vec![Ok(vec![func(1, 1), TypeEntry::NotFunc])]))];
    assert!(!has_only_function_types(&other));
}

#[test]
fn other_types_behind_an_error_are_not_met() {
    let same_section: Sections = vec![Ok(Section::Types(vec![
        Err("bad type".to_string()),
        Ok(vec![TypeEntry::NotFunc]),
    ]))];
    assert!(has_only_function_types(&same_section));
    let later_section: Sections = vec![
        Ok(Section::Functions(vec![Err("bad index".to_string())])),
        Ok(Section::Types(vec![Ok(vec![TypeEntry::NotFunc])])),
    ];
    assert!(has_only_function_types(&later_section));
    assert_eq!(
        enumerate_sections(&later_section).unwrap_err(),
        AppError::WasmParse("bad index".to_string())
    );
    let ahead: Sections = vec![
        Ok(Section::Types(vec![Ok(vec![TypeEntry::NotFunc]), Err("bad type".to_string())])),
    ];
    assert!(!has_only_function_types(&ahead));
}

#[test]
fn function_without_parameters_is_its_name() {
    assert_eq!(format_function(&function("increment", 3, 1)), "increment");
}

#[test]
fn function_with_parameters_has_a_signature() {
    let mut f = function("increment", 1, 0);
    f.params = vec![param("x", "I64")];
    assert_eq!(format_function(&f), "increment(x: I64)");
    f.params = vec![param("to", "address"), param("amount", "i128"), param("", "")];
    assert_eq!(format_function(&f), "increment(to: address, amount: i128, : )");
}

#[test]
fn spec_gives_parameters_to_the_functions_it_names() {
    let functions = vec![function("a", 2, 1), function("b", 5, 0), function("a", 7, 3)];
    let spec = vec![
        ("a".to_string(), vec![param("x", "I64"), param("y", "u32"), param("z", "vec")]),
        ("c".to_string(), vec![]),
        ("a".to_string(), vec![]),
    ];
    let found = apply_contract_spec(functions, &spec);
    assert_eq!(found.len(), 3);
    assert_eq!(format_function(&found[0]), "a(x: I64, y: u32, z: vec)");
    assert_eq!((found[0].param_count, found[0].result_count), (3, 1));
    assert_eq!(format_function(&found[1]), "b");
    assert_eq!((found[1].param_count, found[1].result_count), (5, 0));
    assert_eq!(format_function(&found[2]), "a(x: I64, y: u32, z: vec)");
    assert_eq!((found[2].param_count, found[2].result_count), (3, 3));
}

#[test]
fn empty_spec_changes_nothing() {
    let found = apply_contract_spec(vec![function("a", 2, 1)], &vec![]);
    assert_eq!(counts(&found), vec![row("a", 2, 1)]);
}

#[test]
fn spec_without_parameters_counts_none() {
    let found = apply_contract_spec(vec![function("a", 2, 1)], &vec![("a".to_string(), vec![])]);
    assert_eq!(counts(&found), vec![row("a", 0, 1)]);
}
