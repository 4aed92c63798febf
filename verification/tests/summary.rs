use soroban_wasm::{
    format_structure_summary, ImportedHostFunction, MemoryLimits, TableSummary,
    WasmStructureSummary, HOST_IMPORT_MODULE, SOROBAN_MAX_MEMORY_PAGES, WASM_PAGE_SIZE_BYTES,
};

fn empty() -> WasmStructureSummary {
    WasmStructureSummary {
        memories: vec![],
        imported_host_functions: vec![],
        imported_function_count: 0,
        total_import_count: 0,
        exported_functions: vec![],
        start_function: None,
        tables: vec![],
    }
}

fn memory(initial_pages: u64, maximum_pages: Option<u64>) -> MemoryLimits {
    MemoryLimits { initial_pages, maximum_pages }
}

fn host(name: &str) -> ImportedHostFunction {
    ImportedHostFunction { module: "env".to_string(), name: name.to_string() }
}

#[test]
fn constants() {
    assert_eq!(SOROBAN_MAX_MEMORY_PAGES, 16);
    assert_eq!(WASM_PAGE_SIZE_BYTES, 64 * 1024);
    assert_eq!(HOST_IMPORT_MODULE, "env");
}

#[test]
fn memory_pages_of_no_memory() {
    let summary = empty();
    assert_eq!(summary.initial_memory_pages(), None);
    assert_eq!(summary.maximum_memory_pages(), None);
    assert!(!summary.initial_memory_exceeds_limit());
    assert!(summary.warnings().is_empty());
}

#[test]
fn memory_pages_of_first_memory() {
    let mut summary = empty();
    summary.memories = vec![memory(3, Some(7)), memory(5, None)];
    assert_eq!(summary.initial_memory_pages(), Some(3));
    assert_eq!(summary.maximum_memory_pages(), Some(7));
    summary.memories = vec![memory(5, None), memory(3, Some(7))];
    assert_eq!(summary.initial_memory_pages(), Some(5));
    assert_eq!(summary.maximum_memory_pages(), None);
}

#[test]
fn limit_itself_is_not_exceeded() {
    let mut summary = empty();
    summary.memories = vec![memory(16, None)];
    assert!(!summary.initial_memory_exceeds_limit());
    assert!(summary.warnings().is_empty());
}

#[test]
fn one_warning_for_each_memory_above_the_limit() {
    let mut summary = empty();
    summary.memories = vec![memory(17, None), memory(1, None), memory(100, Some(200))];
    assert!(summary.initial_memory_exceeds_limit());
    assert_eq!(
        summary.warnings(),
        vec![
            "initial memory (17 pages) exceeds standard Soroban limit of 16 pages".to_string(),
            "initial memory (100 pages) exceeds standard Soroban limit of 16 pages".to_string(),
        ]
    );
}

#[test]
fn later_memory_above_the_limit_counts() {
    let mut summary = empty();
    summary.memories = vec![memory(1, None), memory(17, None)];
    assert!(summary.initial_memory_exceeds_limit());
    assert_eq!(summary.warnings().len(), 1);
}

#[test]
fn empty_summary_as_text() {
    assert_eq!(
        format_structure_summary(&empty()),
        "WASM structure:\n  Memory: none declared\n  Imports: 0 function(s) total, 0 from `env` module\n  Exports: 0 function(s)\n  Start function: none\n  Tables: none\n"
    );
}

#[test]
fn full_summary_as_text() {
    let summary = WasmStructureSummary {
        memories: vec![memory(17, None), memory(2, Some(10))],
        imported_host_functions: vec![host("_"), host("put")],
        imported_function_count: 3,
        total_import_count: 4,
        exported_functions: vec!["increment".to_string(), "get".to_string()],
        start_function: Some(12),
        tables: vec![
            TableSummary { initial: 1, maximum: Some(9) },
            TableSummary { initial: 0, maximum: None },
        ],
    };
    let expected = [
        "WASM structure:",
        "  Memory[0]: initial=17 pages (1114112 bytes), max=unbounded pages",
        "  Memory[1]: initial=2 pages (131072 bytes), max=10 pages",
        "  Imports: 3 function(s) total, 2 from `env` module",
        "    - env._",
        "    - env.put",
        "  Exports: 2 function(s)",
        "    - increment",
        "    - get",
        "  Start function: 12",
        "  Table[0]: initial=1 entries, max=9 entries",
        "  Table[1]: initial=0 entries, max=unbounded entries",
        "  Warning: initial memory (17 pages) exceeds standard Soroban limit of 16 pages",
        "",
    ]
    .join("\n");
    assert_eq!(format_structure_summary(&summary), expected);
}

#[test]
fn size_in_bytes_saturates() {
    let mut summary = empty();
    summary.memories = vec![memory(u64::MAX, None)];
    let text = format_structure_summary(&summary);
    assert!(text.contains(
        "initial=18446744073709551615 pages (18446744073709551615 bytes), max=unbounded pages\n"
    ));
    summary.memories = vec![memory(u64::MAX / 65_536, None)];
    let text = format_structure_summary(&summary);
    assert!(text.contains("initial=281474976710655 pages (18446744073709486080 bytes)"));
    summary.memories = vec![memory(u64::MAX / 65_536 + 1, None)];
    let text = format_structure_summary(&summary);
    assert!(text.contains("initial=281474976710656 pages (18446744073709551615 bytes)"));
}

#[test]
fn numbers_are_decimal() {
    for n in [0u64, 1, 9, 10, 11, 99, 100, 101, 1_000, 65_536, 4_294_967_295, u64::MAX - 1] {
        let mut summary = empty();
        summary.tables = vec![TableSummary { initial: n, maximum: Some(n) }];
        let text = format_structure_summary(&summary);
        assert!(text.contains(&format!("  Table[0]: initial={} entries, max={} entries\n", n, n)));
    }
}

#[test]
fn twenty_entries_are_listed_in_full() {
    let mut summary = empty();
    summary.exported_functions = (0..20).map(|i| format!("f{}", i)).collect();
    let text = format_structure_summary(&summary);
    assert!(text.contains("  Exports: 20 function(s)\n"));
    assert!(text.contains("    - f0\n"));
    assert!(text.contains("    - f19\n"));
    assert!(!text.contains("more\n"));
}

#[test]
fn further_entries_are_counted() {
    let mut summary = empty();
    summary.exported_functions = (0..21).map(|i| format!("f{}", i)).collect();
    summary.imported_host_functions = (0..45).map(|i| host(&format!("h{}", i))).collect();
    summary.imported_function_count = 50;
    let text = format_structure_summary(&summary);
    assert!(text.contains("  Imports: 50 function(s) total, 45 from `env` module\n"));
    assert!(text.contains("    - env.h19\n    ... and 25 more\n  Exports: 21 function(s)\n"));
    assert!(!text.contains("env.h20"));
    assert!(text.contains("    - f19\n    ... and 1 more\n  Start function: none\n"));
    assert!(!text.contains("f20"));
}

#[test]
fn listing_shows_first_entries_only() {
    let mut a = empty();
    let mut b = empty();
    a.exported_functions = (0..30).map(|i| format!("f{}", i)).collect();
    b.exported_functions = (0..30).map(|i| format!("f{}", if i < 20 { i } else { 0 })).collect();
    assert_eq!(format_structure_summary(&a), format_structure_summary(&b));
}
