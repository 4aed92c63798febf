//! What a structural summary says, one entry at a time.
//!
//! The summary of no section is empty, and each law says what one more section,
//! or one more entry of the last section, adds. Together they fix the summary of
//! every binary.

use crate::error::AppErrorView;
use crate::model::{
    exports_in, first_error, function_name, function_names, imports_in, lemma_filter_map_add,
    memories_in, section_exports, section_imports, section_memories, section_tables, tables_in,
    values, ExportView, ImportView, MemoryLimits, SectionView, Sections, TableSummary,
};
use crate::structure::{
    exceeds_limit, host_function, host_functions, imported_function, imported_functions,
    memory_warnings, structure, structure_of, HostFunctionView, StructureView,
};
use crate::text::decimal;
use vstd::prelude::*;

verus! {

/// The section has no entries: it has none by its kind, or holds an empty list.
pub open spec fn has_no_entries(section: SectionView) -> bool {
    match section {
        SectionView::Types(groups) => groups.len() == 0,
        SectionView::Imports(items) => items.len() == 0,
        SectionView::Functions(items) => items.len() == 0,
        SectionView::Tables(items) => items.len() == 0,
        SectionView::Memories(items) => items.len() == 0,
        SectionView::Exports(items) => items.len() == 0,
        _ => true,
    }
}

/// One more entry is an error if there was none before, or a value behind those
/// before.
pub(crate) proof fn lemma_entry_behind<T>(
    items: Seq<Result<T, Seq<char>>>,
    item: Result<T, Seq<char>>,
)
    ensures
        first_error(items.push(item)) == match first_error(items) {
            Some(message) => Some(message),
            None => item.err(),
        },
        values(items.push(item)) == match item {
            Ok(value) => values(items).push(value),
            Err(_) => values(items),
        },
{
    assert(items.push(item).drop_last() =~= items);
    assert(values(items.push(item)) =~= match item {
        Ok(value) => values(items).push(value),
        Err(_) => values(items),
    });
}

/// What one more section adds to each part of a summary.
proof fn lemma_section_behind(ahead: Sections, section: SectionView)
    ensures
        memories_in(ahead.push(Ok(section))) == memories_in(ahead) + section_memories(section),
        tables_in(ahead.push(Ok(section))) == tables_in(ahead) + section_tables(section),
        imports_in(ahead.push(Ok(section))) == imports_in(ahead) + section_imports(section),
        exports_in(ahead.push(Ok(section))) == exports_in(ahead) + section_exports(section),
        host_functions(imports_in(ahead.push(Ok(section)))) == host_functions(imports_in(ahead))
            + host_functions(section_imports(section)),
        imported_functions(imports_in(ahead.push(Ok(section)))) == imported_functions(
            imports_in(ahead),
        ) + imported_functions(section_imports(section)),
        function_names(exports_in(ahead.push(Ok(section)))) == function_names(exports_in(ahead))
            + function_names(section_exports(section)),
{
    assert(ahead.push(Ok(section)).drop_last() =~= ahead);
    lemma_filter_map_add(imports_in(ahead), section_imports(section), imported_function());
    lemma_filter_map_add(imports_in(ahead), section_imports(section), host_function());
    lemma_filter_map_add(exports_in(ahead), section_exports(section), function_name());
}

/// Nothing is said of a binary without sections.
pub proof fn law_summary_of_nothing()
    ensures
        structure(Seq::empty()) == Ok::<_, AppErrorView>(
            (StructureView {
                memories: Seq::empty(),
                imported_host_functions: Seq::empty(),
                imported_function_count: 0,
                total_import_count: 0,
                exported_functions: Seq::empty(),
                start_function: None,
                tables: Seq::empty(),
            }),
        ),
{
    assert(structure_of(Seq::empty()) =~= (StructureView {
        memories: Seq::empty(),
        imported_host_functions: Seq::empty(),
        imported_function_count: 0,
        total_import_count: 0,
        exported_functions: Seq::empty(),
        start_function: None,
        tables: Seq::empty(),
    }));
}

/// A section that the parser cannot make out is the error of the binary, unless
/// there was one before. A section without entries changes nothing, but for a
/// start section: the last of these names the start function.
pub proof fn law_summary_of_one_more_section(
    ahead: Sections,
    section: Result<SectionView, Seq<char>>,
)
    requires
        section matches Ok(section) ==> has_no_entries(section),
    ensures
        structure(ahead.push(section)) == match structure(ahead) {
            Ok(summary) => match section {
                Ok(SectionView::Start(func)) => Ok(
                    (StructureView { start_function: Some(func), ..summary }),
                ),
                Ok(_) => Ok(summary),
                Err(message) => Err(AppErrorView::WasmParse(message)),
            },
            Err(error) => Err(error),
        },
{
    assert(ahead.push(section).drop_last() =~= ahead);
    if let Ok(section) = section {
        lemma_section_behind(ahead, section);
        let summary = structure_of(ahead);
        let expected = match section {
            SectionView::Start(func) => StructureView { start_function: Some(func), ..summary },
            _ => summary,
        };
        assert(structure_of(ahead.push(Ok(section))) =~= expected);
    }
}

/// Sections of types and of functions are not read for a summary, whatever their
/// entries are.
pub proof fn law_summary_passes_over_types_and_functions(ahead: Sections, section: SectionView)
    requires
        section is Types || section is Functions,
    ensures
        structure(ahead.push(Ok(section))) == structure(ahead),
{
    assert(ahead.push(Ok(section)).drop_last() =~= ahead);
    lemma_section_behind(ahead, section);
    assert(structure_of(ahead.push(Ok(section))) =~= structure_of(ahead));
}

/// One more entry of a memory section adds its memory, and nothing else. One
/// that cannot be decoded is the error of the binary, unless there was one
/// before.
pub proof fn law_summary_of_one_more_memory(
    ahead: Sections,
    items: Seq<Result<MemoryLimits, Seq<char>>>,
    item: Result<MemoryLimits, Seq<char>>,
)
    ensures
        structure(ahead.push(Ok(SectionView::Memories(items.push(item))))) == match structure(
            ahead.push(Ok(SectionView::Memories(items))),
        ) {
            Ok(summary) => match item {
                Ok(memory) => Ok(
                    (StructureView { memories: summary.memories.push(memory), ..summary }),
                ),
                Err(message) => Err(AppErrorView::WasmParse(message)),
            },
            Err(error) => Err(error),
        },
{
    let fewer = SectionView::Memories(items);
    let more = SectionView::Memories(items.push(item));
    assert(ahead.push(Ok(fewer)).drop_last() =~= ahead);
    assert(ahead.push(Ok(more)).drop_last() =~= ahead);
    lemma_entry_behind(items, item);
    lemma_section_behind(ahead, fewer);
    lemma_section_behind(ahead, more);
    if let Ok(memory) = item {
        let summary = structure_of(ahead.push(Ok(fewer)));
        assert(structure_of(ahead.push(Ok(more))) =~= (StructureView {
            memories: summary.memories.push(memory),
            ..summary
        }));
    }
}

/// One more entry of a table section adds its table, and nothing else. One that
/// cannot be decoded is the error of the binary, unless there was one before.
pub proof fn law_summary_of_one_more_table(
    ahead: Sections,
    items: Seq<Result<TableSummary, Seq<char>>>,
    item: Result<TableSummary, Seq<char>>,
)
    ensures
        structure(ahead.push(Ok(SectionView::Tables(items.push(item))))) == match structure(
            ahead.push(Ok(SectionView::Tables(items))),
        ) {
            Ok(summary) => match item {
                Ok(table) => Ok((StructureView { tables: summary.tables.push(table), ..summary })),
                Err(message) => Err(AppErrorView::WasmParse(message)),
            },
            Err(error) => Err(error),
        },
{
    let fewer = SectionView::Tables(items);
    let more = SectionView::Tables(items.push(item));
    assert(ahead.push(Ok(fewer)).drop_last() =~= ahead);
    assert(ahead.push(Ok(more)).drop_last() =~= ahead);
    lemma_entry_behind(items, item);
    lemma_section_behind(ahead, fewer);
    lemma_section_behind(ahead, more);
    if let Ok(table) = item {
        let summary = structure_of(ahead.push(Ok(fewer)));
        assert(structure_of(ahead.push(Ok(more))) =~= (StructureView {
            tables: summary.tables.push(table),
            ..summary
        }));
    }
}

/// One more export adds its name if it is a function, and nothing else. One that
/// cannot be decoded is the error of the binary, unless there was one before.
pub proof fn law_summary_of_one_more_export(
    ahead: Sections,
    items: Seq<Result<ExportView, Seq<char>>>,
    item: Result<ExportView, Seq<char>>,
)
    ensures
        structure(ahead.push(Ok(SectionView::Exports(items.push(item))))) == match structure(
            ahead.push(Ok(SectionView::Exports(items))),
        ) {
            Ok(summary) => match item {
                Ok(export) => if export.kind is Func {
                    Ok(
                        (StructureView {
                            exported_functions: summary.exported_functions.push(export.name),
                            ..summary
                        }),
                    )
                } else {
                    Ok(summary)
                },
                Err(message) => Err(AppErrorView::WasmParse(message)),
            },
            Err(error) => Err(error),
        },
{
    let fewer = SectionView::Exports(items);
    let more = SectionView::Exports(items.push(item));
    assert(ahead.push(Ok(fewer)).drop_last() =~= ahead);
    assert(ahead.push(Ok(more)).drop_last() =~= ahead);
    lemma_entry_behind(items, item);
    lemma_section_behind(ahead, fewer);
    lemma_section_behind(ahead, more);
    if let Ok(export) = item {
        let summary = structure_of(ahead.push(Ok(fewer)));
        assert(values(items).push(export).drop_last() =~= values(items));
        assert(structure_of(ahead.push(Ok(more))) =~= if export.kind is Func {
            StructureView {
                exported_functions: summary.exported_functions.push(export.name),
                ..summary
            }
        } else {
            summary
        });
    }
}

/// One more import counts as an import, as an imported function if it is one,
/// and is listed with its module and its name if it is a function of the module
/// `env`; it changes nothing else. A counter stays at the largest `u32` once it
/// has reached it. An import that cannot be decoded is the error of the binary,
/// unless there was one before.
pub proof fn law_summary_of_one_more_import(
    ahead: Sections,
    items: Seq<Result<ImportView, Seq<char>>>,
    item: Result<ImportView, Seq<char>>,
)
    ensures
        structure(ahead.push(Ok(SectionView::Imports(items.push(item))))) == match structure(
            ahead.push(Ok(SectionView::Imports(items))),
        ) {
            Ok(summary) => match item {
                Ok(import) => {
                    let is_func = import.kind is Func || import.kind is FuncExact;
                    Ok(
                        (StructureView {
                            imported_host_functions: if is_func && import.module == "env"@ {
                                summary.imported_host_functions.push(
                                    HostFunctionView { module: import.module, name: import.name },
                                )
                            } else {
                                summary.imported_host_functions
                            },
                            imported_function_count: if is_func && summary.imported_function_count
                                < u32::MAX {
                                (summary.imported_function_count + 1) as u32
                            } else {
                                summary.imported_function_count
                            },
                            total_import_count: if summary.total_import_count < u32::MAX {
                                (summary.total_import_count + 1) as u32
                            } else {
                                summary.total_import_count
                            },
                            ..summary
                        }),
                    )
                },
                Err(message) => Err(AppErrorView::WasmParse(message)),
            },
            Err(error) => Err(error),
        },
{
    let fewer = SectionView::Imports(items);
    let more = SectionView::Imports(items.push(item));
    assert(ahead.push(Ok(fewer)).drop_last() =~= ahead);
    assert(ahead.push(Ok(more)).drop_last() =~= ahead);
    lemma_entry_behind(items, item);
    lemma_section_behind(ahead, fewer);
    lemma_section_behind(ahead, more);
    if let Ok(import) = item {
        let summary = structure_of(ahead.push(Ok(fewer)));
        let next = structure_of(ahead.push(Ok(more)));
        assert(values(items).push(import).drop_last() =~= values(items));
        assert(next.exported_functions =~= summary.exported_functions);
        assert(next.memories =~= summary.memories);
        assert(next.tables =~= summary.tables);
        assert(next.imported_host_functions =~= if (import.kind is Func || import.kind is FuncExact)
            && import.module == "env"@ {
            summary.imported_host_functions.push(
                HostFunctionView { module: import.module, name: import.name },
            )
        } else {
            summary.imported_host_functions
        });
    }
}

/// The functions among imports.
pub open spec fn functions_among(imports: Seq<ImportView>) -> Seq<ImportView> {
    imports.filter(|import: ImportView| import.kind is Func || import.kind is FuncExact)
}

/// Selecting functions leaves the functions.
proof fn lemma_functions_among(imports: Seq<ImportView>)
    ensures
        imported_functions(imports) == functions_among(imports),
        host_functions(imports).len() <= functions_among(imports).len(),
    decreases imports.len(),
{
    reveal(Seq::filter);
    if imports.len() > 0 {
        lemma_functions_among(imports.drop_last());
    }
    assert(imported_functions(imports) =~= functions_among(imports));
}

/// As far as a `u32` can count, the counters of a summary are the number of
/// imports and the number of functions among them, and no more host functions
/// are listed than functions are imported.
pub proof fn law_import_counters_are_exact(sections: Sections)
    requires
        imports_in(sections).len() <= u32::MAX,
    ensures
        structure(sections) matches Ok(summary) ==> {
            &&& summary.total_import_count as int == imports_in(sections).len()
            &&& summary.imported_function_count as int == functions_among(
                imports_in(sections),
            ).len()
            &&& summary.imported_host_functions.len() <= summary.imported_function_count as int
        },
{
    lemma_functions_among(imports_in(sections));
}

/// A memory is above the limit if it has more than 16 pages from the start. One
/// more memory adds a warning that names its size if it is above the limit, and
/// none otherwise.
pub proof fn law_warnings_of_one_more_memory(memories: Seq<MemoryLimits>, memory: MemoryLimits)
    ensures
        exceeds_limit(memory) <==> memory.initial_pages > 16,
        memories.len() == 0 ==> memory_warnings(memories).len() == 0,
        memory_warnings(memories.push(memory)) == if memory.initial_pages > 16 {
            memory_warnings(memories).push(
                "initial memory ("@ + decimal(memory.initial_pages as nat)
                    + " pages) exceeds standard Soroban limit of "@ + decimal(16) + " pages"@,
            )
        } else {
            memory_warnings(memories)
        },
{
    assert(memories.push(memory).drop_last() =~= memories);
    assert(memory_warnings(memories.push(memory)) =~= if memory.initial_pages > 16 {
        memory_warnings(memories).push(
            "initial memory ("@ + decimal(memory.initial_pages as nat)
                + " pages) exceeds standard Soroban limit of "@ + decimal(16) + " pages"@,
        )
    } else {
        memory_warnings(memories)
    });
}

} // verus!
