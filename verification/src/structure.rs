//! Structural summary of a binary: entry points and memory layout.

use crate::error::{result_view, AppError, AppErrorView, AppResult};
use crate::model::{
    exports_in, find_error, first_error, function_name, function_names, imports_in,
    lemma_filter_map_add, lemma_values_step, memories_in, outcomes, push_value, section_exports,
    section_imports, tables_in, values, ExportEntry, ExportKind, ImportEntry, ImportKind,
    ImportView, MemoryLimits, Section, SectionView, Sections, TableSummary,
};
use crate::reader::{read_sections, wasm_sections};
use crate::text::{append_decimal, decimal};
use vstd::prelude::*;

verus! {

/// Maximum initial linear memory, in WASM pages, expected for Soroban
/// contracts.
///
/// Contracts declaring more than this get a warning, because excess initial
/// memory drives up memory fees and initialization costs.
pub const SOROBAN_MAX_MEMORY_PAGES: u64 = 16;

/// Size of one WASM linear-memory page in bytes (64 KiB).
pub const WASM_PAGE_SIZE_BYTES: u64 = 65_536;

/// Import module used by Soroban contracts for host functions (`env._` imports).
pub const HOST_IMPORT_MODULE: &'static str = "env";

/// A host function imported from the `env` module (e.g. storage, crypto,
/// context functions).
#[derive(Debug, Clone, PartialEq, Eq)]
pub struct ImportedHostFunction {
    /// Import module, always `"env"` for host functions.
    pub module: String,
    /// Imported function name.
    pub name: String,
}

/// An [`ImportedHostFunction`] in contracts.
pub struct HostFunctionView {
    pub module: Seq<char>,
    pub name: Seq<char>,
}

impl DeepView for ImportedHostFunction {
    type V = HostFunctionView;

    open spec fn deep_view(&self) -> HostFunctionView {
        HostFunctionView { module: self.module@, name: self.name@ }
    }
}

/// Structural summary of a WASM binary: entry points and memory layout.
#[derive(Debug, Clone, PartialEq, Eq)]
pub struct WasmStructureSummary {
    /// Memory limits from the memory section (usually zero or one entry).
    pub memories: Vec<MemoryLimits>,
    /// Host functions imported from the `env` module.
    pub imported_host_functions: Vec<ImportedHostFunction>,
    /// Total number of imported functions (any module).
    pub imported_function_count: u32,
    /// Total number of imports of any kind.
    pub total_import_count: u32,
    /// Names of exported functions (contract entry points).
    pub exported_functions: Vec<String>,
    /// Start function index, if the module declares one.
    pub start_function: Option<u32>,
    /// Table limits from the table section.
    pub tables: Vec<TableSummary>,
}

/// A [`WasmStructureSummary`] in contracts.
#[verifier::ext_equal]
pub struct StructureView {
    pub memories: Seq<MemoryLimits>,
    pub imported_host_functions: Seq<HostFunctionView>,
    pub imported_function_count: u32,
    pub total_import_count: u32,
    pub exported_functions: Seq<Seq<char>>,
    pub start_function: Option<u32>,
    pub tables: Seq<TableSummary>,
}

impl DeepView for WasmStructureSummary {
    type V = StructureView;

    open spec fn deep_view(&self) -> StructureView {
        StructureView {
            memories: self.memories.deep_view(),
            imported_host_functions: self.imported_host_functions.deep_view(),
            imported_function_count: self.imported_function_count,
            total_import_count: self.total_import_count,
            exported_functions: self.exported_functions.deep_view(),
            start_function: self.start_function,
            tables: self.tables.deep_view(),
        }
    }
}

/// An import is a function, whatever its type is.
pub open spec fn is_function(import: ImportView) -> bool {
    import.kind is Func || import.kind is FuncExact
}

/// An import that is a function.
pub open spec fn imported_function() -> spec_fn(ImportView) -> Option<ImportView> {
    |import: ImportView|
        if is_function(import) {
            Some(import)
        } else {
            None
        }
}

/// The functions among the imports.
pub open spec fn imported_functions(imports: Seq<ImportView>) -> Seq<ImportView> {
    imports.filter_map(imported_function())
}

/// An import that is a host function.
pub open spec fn host_function() -> spec_fn(ImportView) -> Option<HostFunctionView> {
    |import: ImportView|
        if is_function(import) && import.module == HOST_IMPORT_MODULE@ {
            Some(HostFunctionView { module: import.module, name: import.name })
        } else {
            None
        }
}

/// The host functions among the imports.
pub open spec fn host_functions(imports: Seq<ImportView>) -> Seq<HostFunctionView> {
    imports.filter_map(host_function())
}

/// A number that stays at the largest `u32` once it has reached it.
pub open spec fn capped(n: int) -> u32 {
    if n > u32::MAX {
        u32::MAX
    } else {
        n as u32
    }
}

/// The function that the last start section names.
pub open spec fn start_in(sections: Sections) -> Option<u32>
    decreases sections.len(),
{
    if sections.len() == 0 {
        None
    } else {
        match sections.last() {
            Ok(SectionView::Start(func)) => Some(func),
            _ => start_in(sections.drop_last()),
        }
    }
}

/// The first error among the entries that a summary reads of a section.
pub open spec fn summarised_section_error(section: SectionView) -> Option<Seq<char>> {
    match section {
        SectionView::Imports(items) => first_error(items),
        SectionView::Tables(items) => first_error(items),
        SectionView::Memories(items) => first_error(items),
        SectionView::Exports(items) => first_error(items),
        _ => None,
    }
}

/// The first error that the parser meets in what a summary reads.
pub open spec fn structure_error(sections: Sections) -> Option<Seq<char>>
    decreases sections.len(),
{
    if sections.len() == 0 {
        None
    } else {
        match structure_error(sections.drop_last()) {
            Some(message) => Some(message),
            None => match sections.last() {
                Ok(section) => summarised_section_error(section),
                Err(message) => Some(message),
            },
        }
    }
}

/// The summary of the sections of a binary, where it can be parsed.
pub open spec fn structure_of(sections: Sections) -> StructureView {
    let imports = imports_in(sections);
    StructureView {
        memories: memories_in(sections),
        imported_host_functions: host_functions(imports),
        imported_function_count: capped(imported_functions(imports).len() as int),
        total_import_count: capped(imports.len() as int),
        exported_functions: function_names(exports_in(sections)),
        start_function: start_in(sections),
        tables: tables_in(sections),
    }
}

/// The summary of the sections of a binary, or the first error in it.
pub open spec fn structure(sections: Sections) -> Result<StructureView, AppErrorView> {
    match structure_error(sections) {
        Some(message) => Err(AppErrorView::WasmParse(message)),
        None => Ok(structure_of(sections)),
    }
}

/// The error of a prefix is the error of the whole.
proof fn lemma_structure_error_prefix(sections: Sections, n: int)
    requires
        0 <= n <= sections.len(),
    ensures
        structure_error(sections.take(n)) is Some ==> structure_error(sections) == structure_error(
            sections.take(n),
        ),
    decreases sections.len(),
{
    if n < sections.len() {
        assert(sections.drop_last().take(n) =~= sections.take(n));
        lemma_structure_error_prefix(sections.drop_last(), n);
    } else {
        assert(sections.take(n) =~= sections);
    }
}

/// Appends the memories of a memory section.
fn add_memories(memories: &mut Vec<MemoryLimits>, items: &Vec<Result<MemoryLimits, String>>)
    ensures
        final(memories).deep_view() == old(memories).deep_view() + values(outcomes(items@)),
{
    let ghost all = outcomes(items@);
    let ghost before = memories.deep_view();
    for i in 0..items.len()
        invariant
            all == outcomes(items@),
            memories.deep_view() =~= before + values(all.take(i as int)),
    {
        proof {
            lemma_values_step(all, i as int);
        }
        if let Ok(memory) = &items[i] {
            push_value(
                memories,
                MemoryLimits {
                    initial_pages: memory.initial_pages,
                    maximum_pages: memory.maximum_pages,
                },
            );
        }
    }
    assert(all.take(all.len() as int) =~= all);
}

/// Appends the tables of a table section.
fn add_tables(tables: &mut Vec<TableSummary>, items: &Vec<Result<TableSummary, String>>)
    ensures
        final(tables).deep_view() == old(tables).deep_view() + values(outcomes(items@)),
{
    let ghost all = outcomes(items@);
    let ghost before = tables.deep_view();
    for i in 0..items.len()
        invariant
            all == outcomes(items@),
            tables.deep_view() =~= before + values(all.take(i as int)),
    {
        proof {
            lemma_values_step(all, i as int);
        }
        if let Ok(table) = &items[i] {
            push_value(tables, TableSummary { initial: table.initial, maximum: table.maximum });
        }
    }
    assert(all.take(all.len() as int) =~= all);
}

/// Appends the names of the functions of an export section.
fn add_exported_functions(names: &mut Vec<String>, items: &Vec<Result<ExportEntry, String>>)
    ensures
        final(names).deep_view() == old(names).deep_view() + function_names(
            values(outcomes(items@)),
        ),
{
    let ghost all = outcomes(items@);
    let ghost before = names.deep_view();
    for i in 0..items.len()
        invariant
            all == outcomes(items@),
            names.deep_view() =~= before + function_names(values(all.take(i as int))),
    {
        proof {
            lemma_values_step(all, i as int);
        }
        if let Ok(export) = &items[i] {
            assert(values(all.take(i + 1)).drop_last() =~= values(all.take(i as int)));
            if let ExportKind::Func = export.kind {
                push_value(names, export.name.clone());
            }
        }
    }
    assert(all.take(all.len() as int) =~= all);
}

/// Counts the imports of an import section, and appends the host functions
/// among them.
fn add_imports(
    host: &mut Vec<ImportedHostFunction>,
    function_count: &mut u32,
    total_count: &mut u32,
    items: &Vec<Result<ImportEntry, String>>,
)
    ensures
        final(host).deep_view() == old(host).deep_view() + host_functions(
            values(outcomes(items@)),
        ),
        *final(function_count) == capped(
            *old(function_count) + imported_functions(values(outcomes(items@))).len(),
        ),
        *final(total_count) == capped(*old(total_count) + values(outcomes(items@)).len()),
{
    let ghost all = outcomes(items@);
    let ghost before = host.deep_view();
    let host_module = HOST_IMPORT_MODULE.to_owned();
    for i in 0..items.len()
        invariant
            all == outcomes(items@),
            host_module@ == HOST_IMPORT_MODULE@,
            host.deep_view() =~= before + host_functions(values(all.take(i as int))),
            *function_count == capped(
                *old(function_count) + imported_functions(values(all.take(i as int))).len(),
            ),
            *total_count == capped(*old(total_count) + values(all.take(i as int)).len()),
    {
        proof {
            lemma_values_step(all, i as int);
        }
        if let Ok(import) = &items[i] {
            assert(values(all.take(i + 1)).drop_last() =~= values(all.take(i as int)));
            *total_count = total_count.saturating_add(1);
            let is_func = match import.kind {
                ImportKind::Func(_) | ImportKind::FuncExact(_) => true,
                ImportKind::NotFunc => false,
            };
            if is_func {
                *function_count = function_count.saturating_add(1);
                if import.module == host_module {
                    push_value(
                        host,
                        ImportedHostFunction {
                            module: import.module.clone(),
                            name: import.name.clone(),
                        },
                    );
                }
            }
        }
    }
    assert(all.take(all.len() as int) =~= all);
}

/// Summarises the sections of a binary.
pub fn structure_of_sections(sections: &Vec<Result<Section, String>>) -> (r: AppResult<
    WasmStructureSummary,
>)
    ensures
        result_view(r) == structure(outcomes(sections@)),
{
    let ghost all = outcomes(sections@);
    let mut memories: Vec<MemoryLimits> = Vec::new();
    let mut imported_host_functions: Vec<ImportedHostFunction> = Vec::new();
    let mut imported_function_count: u32 = 0;
    let mut total_import_count: u32 = 0;
    let mut exported_functions: Vec<String> = Vec::new();
    let mut start_function: Option<u32> = None;
    let mut tables: Vec<TableSummary> = Vec::new();
    for i in 0..sections.len()
        invariant
            all == outcomes(sections@),
            structure_error(all.take(i as int)) is None,
            memories.deep_view() == memories_in(all.take(i as int)),
            imported_host_functions.deep_view() == host_functions(imports_in(all.take(i as int))),
            imported_function_count == capped(
                imported_functions(imports_in(all.take(i as int))).len() as int,
            ),
            total_import_count == capped(imports_in(all.take(i as int)).len() as int),
            exported_functions.deep_view() == function_names(exports_in(all.take(i as int))),
            start_function == start_in(all.take(i as int)),
            tables.deep_view() == tables_in(all.take(i as int)),
    {
        let ghost next = all.take(i + 1);
        proof {
            assert(next.drop_last() =~= all.take(i as int));
            lemma_structure_error_prefix(all, i + 1);
            if let Ok(section) = all[i as int] {
                let imports = imports_in(all.take(i as int));
                let exports = exports_in(all.take(i as int));
                lemma_filter_map_add(imports, section_imports(section), imported_function());
                lemma_filter_map_add(imports, section_imports(section), host_function());
                lemma_filter_map_add(exports, section_exports(section), function_name());
            }
        }
        match &sections[i] {
            Ok(section) => {
                let error = match section {
                    Section::Imports(items) => find_error(items),
                    Section::Tables(items) => find_error(items),
                    Section::Memories(items) => find_error(items),
                    Section::Exports(items) => find_error(items),
                    _ => None,
                };
                if let Some(message) = error {
                    return Err(AppError::WasmParse(message));
                }
                match section {
                    Section::Memories(items) => add_memories(&mut memories, items),
                    Section::Imports(items) => {
                        add_imports(
                            &mut imported_host_functions,
                            &mut imported_function_count,
                            &mut total_import_count,
                            items,
                        );
                    },
                    Section::Exports(items) => add_exported_functions(
                        &mut exported_functions,
                        items,
                    ),
                    Section::Start(func) => {
                        start_function = Some(*func);
                    },
                    Section::Tables(items) => add_tables(&mut tables, items),
                    _ => {},
                }
            },
            Err(message) => return Err(AppError::WasmParse(message.clone())),
        }
    }
    assert(all.take(all.len() as int) =~= all);
    Ok(
        WasmStructureSummary {
            memories,
            imported_host_functions,
            imported_function_count,
            total_import_count,
            exported_functions,
            start_function,
            tables,
        },
    )
}

/// Parses WASM structural information: memory limits, host imports,
/// exports, start function, and tables.
pub fn parse_structure(bytes: &[u8]) -> (r: AppResult<WasmStructureSummary>)
    ensures
        result_view(r) == structure(wasm_sections(bytes@)),
{
    structure_of_sections(&read_sections(bytes))
}

/// A memory is larger from the start than Soroban contracts are expected to be.
pub open spec fn exceeds_limit(memory: MemoryLimits) -> bool {
    memory.initial_pages > SOROBAN_MAX_MEMORY_PAGES
}

/// The warning about a memory that is too large.
pub open spec fn memory_warning(memory: MemoryLimits) -> Seq<char> {
    "initial memory ("@ + decimal(memory.initial_pages as nat)
        + " pages) exceeds standard Soroban limit of "@ + decimal(SOROBAN_MAX_MEMORY_PAGES as nat)
        + " pages"@
}

/// The warning that a memory calls for.
pub open spec fn due_warning() -> spec_fn(MemoryLimits) -> Option<Seq<char>> {
    |memory: MemoryLimits|
        if exceeds_limit(memory) {
            Some(memory_warning(memory))
        } else {
            None
        }
}

/// The warnings that memories call for.
pub open spec fn memory_warnings(memories: Seq<MemoryLimits>) -> Seq<Seq<char>> {
    memories.filter_map(due_warning())
}

/// Renders the warning about a memory.
fn warning_text(memory: &MemoryLimits) -> (text: String)
    ensures
        text@ == memory_warning(*memory),
{
    let mut text = "initial memory (".to_owned();
    append_decimal(&mut text, memory.initial_pages);
    text.append(" pages) exceeds standard Soroban limit of ");
    append_decimal(&mut text, SOROBAN_MAX_MEMORY_PAGES);
    text.append(" pages");
    text
}

impl WasmStructureSummary {
    /// Initial memory pages of the first declared memory, if any.
    #[must_use]
    pub fn initial_memory_pages(&self) -> (r: Option<u64>)
        ensures
            r == if self.memories@.len() == 0 {
                None::<u64>
            } else {
                Some(self.memories@[0].initial_pages)
            },
    {
        if self.memories.len() == 0 {
            None
        } else {
            Some(self.memories[0].initial_pages)
        }
    }

    /// Maximum memory pages of the first declared memory, if any.
    #[must_use]
    pub fn maximum_memory_pages(&self) -> (r: Option<u64>)
        ensures
            r == if self.memories@.len() == 0 {
                None::<u64>
            } else {
                self.memories@[0].maximum_pages
            },
    {
        if self.memories.len() == 0 {
            None
        } else {
            self.memories[0].maximum_pages
        }
    }

    /// True when any declared memory exceeds [`SOROBAN_MAX_MEMORY_PAGES`].
    #[must_use]
    pub fn initial_memory_exceeds_limit(&self) -> (r: bool)
        ensures
            r == exists|i: int|
                0 <= i < self.memories@.len() && exceeds_limit(#[trigger] self.memories@[i]),
    {
        for i in 0..self.memories.len()
            invariant
                forall|k: int| 0 <= k < i ==> !exceeds_limit(#[trigger] self.memories@[k]),
        {
            if self.memories[i].initial_pages > SOROBAN_MAX_MEMORY_PAGES {
                assert(exceeds_limit(self.memories@[i as int]));
                return true;
            }
        }
        false
    }

    /// Human-readable warnings (e.g. excess initial memory).
    #[must_use]
    pub fn warnings(&self) -> (out: Vec<String>)
        ensures
            out.deep_view() == memory_warnings(self.memories.deep_view()),
    {
        let ghost all = self.memories.deep_view();
        let mut out: Vec<String> = Vec::new();
        for i in 0..self.memories.len()
            invariant
                all == self.memories.deep_view(),
                out.deep_view() =~= memory_warnings(all.take(i as int)),
        {
            assert(all.take(i + 1).drop_last() =~= all.take(i as int));
            if self.memories[i].initial_pages > SOROBAN_MAX_MEMORY_PAGES {
                push_value(&mut out, warning_text(&self.memories[i]));
            }
        }
        assert(all.take(all.len() as int) =~= all);
        out
    }
}

} // verus!
