//! Rendering of a structural summary as text.

use crate::model::{push_value, MemoryLimits, TableSummary};
use crate::structure::{
    memory_warnings, HostFunctionView, ImportedHostFunction, StructureView, WasmStructureSummary,
    HOST_IMPORT_MODULE, WASM_PAGE_SIZE_BYTES,
};
use crate::text::{append_decimal, decimal};
use vstd::prelude::*;

verus! {

/// Number of imports and of exports that a summary lists.
pub const LISTED_ENTRIES: usize = 20;

/// An upper limit.
pub open spec fn limit_text(limit: Option<u64>) -> Seq<char> {
    match limit {
        Some(n) => decimal(n as nat),
        None => "unbounded"@,
    }
}

/// The size of a number of pages in bytes, at most the largest `u64`.
pub open spec fn bytes_of_pages(pages: u64) -> u64 {
    if pages * WASM_PAGE_SIZE_BYTES > u64::MAX {
        u64::MAX
    } else {
        (pages * WASM_PAGE_SIZE_BYTES) as u64
    }
}

/// The line about a memory.
pub open spec fn memory_line(i: int, memory: MemoryLimits) -> Seq<char> {
    "  Memory["@ + decimal(i as nat) + "]: initial="@ + decimal(memory.initial_pages as nat)
        + " pages ("@ + decimal(bytes_of_pages(memory.initial_pages) as nat) + " bytes), max="@
        + limit_text(memory.maximum_pages) + " pages\n"@
}

/// The lines about memories.
pub open spec fn memory_lines(memories: Seq<MemoryLimits>) -> Seq<char> {
    if memories.len() == 0 {
        "  Memory: none declared\n"@
    } else {
        Seq::new(memories.len(), |i: int| memory_line(i, memories[i])).flatten()
    }
}

/// The line about an entry of a list.
pub open spec fn listed_line(label: Seq<char>) -> Seq<char> {
    "    - "@ + label + "\n"@
}

/// The lines about the entries of a list: one each for the first of them, and
/// one that counts the rest.
pub open spec fn listing(labels: Seq<Seq<char>>) -> Seq<char> {
    if labels.len() > LISTED_ENTRIES {
        Seq::new(LISTED_ENTRIES as nat, |i: int| listed_line(labels[i])).flatten() + (
        "    ... and "@ + decimal((labels.len() - LISTED_ENTRIES) as nat) + " more\n"@)
    } else {
        Seq::new(labels.len(), |i: int| listed_line(labels[i])).flatten()
    }
}

/// A host function by its module and its name.
pub open spec fn host_label(function: HostFunctionView) -> Seq<char> {
    function.module + "."@ + function.name
}

/// The labels of host functions.
pub open spec fn host_labels(functions: Seq<HostFunctionView>) -> Seq<Seq<char>> {
    functions.map_values(|function: HostFunctionView| host_label(function))
}

/// The line about imports.
pub open spec fn import_line(function_count: u32, host_count: nat) -> Seq<char> {
    "  Imports: "@ + decimal(function_count as nat) + " function(s) total, "@ + decimal(host_count)
        + " from `"@ + HOST_IMPORT_MODULE@ + "` module\n"@
}

/// The line about exports.
pub open spec fn export_line(count: nat) -> Seq<char> {
    "  Exports: "@ + decimal(count) + " function(s)\n"@
}

/// The line about the start function.
pub open spec fn start_line(start: Option<u32>) -> Seq<char> {
    match start {
        Some(func) => "  Start function: "@ + decimal(func as nat) + "\n"@,
        None => "  Start function: none\n"@,
    }
}

/// The line about a table.
pub open spec fn table_line(i: int, table: TableSummary) -> Seq<char> {
    "  Table["@ + decimal(i as nat) + "]: initial="@ + decimal(table.initial as nat)
        + " entries, max="@ + limit_text(table.maximum) + " entries\n"@
}

/// The lines about tables.
pub open spec fn table_lines(tables: Seq<TableSummary>) -> Seq<char> {
    if tables.len() == 0 {
        "  Tables: none\n"@
    } else {
        Seq::new(tables.len(), |i: int| table_line(i, tables[i])).flatten()
    }
}

/// The line about a warning.
pub open spec fn warning_line(warning: Seq<char>) -> Seq<char> {
    "  Warning: "@ + warning + "\n"@
}

/// The lines about warnings.
pub open spec fn warning_lines(warnings: Seq<Seq<char>>) -> Seq<char> {
    Seq::new(warnings.len(), |i: int| warning_line(warnings[i])).flatten()
}

/// A summary as text.
pub open spec fn summary_text(summary: StructureView) -> Seq<char> {
    let hosts = summary.imported_host_functions;
    "WASM structure:\n"@ + memory_lines(summary.memories) + import_line(
        summary.imported_function_count,
        hosts.len(),
    ) + listing(host_labels(hosts)) + export_line(summary.exported_functions.len()) + listing(
        summary.exported_functions,
    ) + start_line(summary.start_function) + table_lines(summary.tables) + warning_lines(
        memory_warnings(summary.memories),
    )
}

/// One more line makes the text longer by it.
proof fn lemma_next_line(lines: Seq<Seq<char>>, i: int)
    requires
        0 <= i < lines.len(),
    ensures
        lines.take(i + 1).flatten() == lines.take(i).flatten() + lines[i],
{
    assert(lines.take(i + 1) =~= lines.take(i).push(lines[i]));
    lines.take(i).lemma_flatten_push(lines[i]);
}

/// Appends an upper limit.
fn append_limit(out: &mut String, limit: Option<u64>)
    ensures
        final(out)@ == old(out)@ + limit_text(limit),
{
    match limit {
        Some(n) => append_decimal(out, n),
        None => out.append("unbounded"),
    }
}

/// Renders the line about a memory.
fn memory_line_text(i: usize, memory: &MemoryLimits) -> (line: String)
    ensures
        line@ == memory_line(i as int, *memory),
{
    let bytes = if memory.initial_pages > u64::MAX / WASM_PAGE_SIZE_BYTES {
        u64::MAX
    } else {
        memory.initial_pages * WASM_PAGE_SIZE_BYTES
    };
    let mut line = "  Memory[".to_owned();
    append_decimal(&mut line, i as u64);
    line.append("]: initial=");
    append_decimal(&mut line, memory.initial_pages);
    line.append(" pages (");
    append_decimal(&mut line, bytes);
    line.append(" bytes), max=");
    append_limit(&mut line, memory.maximum_pages);
    line.append(" pages\n");
    line
}

/// Appends the lines about memories.
fn append_memories(out: &mut String, memories: &Vec<MemoryLimits>)
    ensures
        final(out)@ == old(out)@ + memory_lines(memories.deep_view()),
{
    if memories.is_empty() {
        out.append("  Memory: none declared\n");
    } else {
        let ghost all = memories.deep_view();
        let ghost lines = Seq::new(all.len(), |i: int| memory_line(i, all[i]));
        assert(out@ =~= old(out)@ + lines.take(0).flatten());
        for i in 0..memories.len()
            invariant
                all == memories.deep_view(),
                lines == Seq::new(all.len(), |i: int| memory_line(i, all[i])),
                out@ =~= old(out)@ + lines.take(i as int).flatten(),
        {
            proof {
                lemma_next_line(lines, i as int);
            }
            out.append(memory_line_text(i, &memories[i]).as_str());
        }
        assert(lines.take(lines.len() as int) =~= lines);
    }
}

/// Appends the lines about the entries of a list.
fn append_listing(out: &mut String, labels: &Vec<String>)
    ensures
        final(out)@ == old(out)@ + listing(labels.deep_view()),
{
    let ghost all = labels.deep_view();
    let shown = if labels.len() > LISTED_ENTRIES {
        LISTED_ENTRIES
    } else {
        labels.len()
    };
    let ghost lines = Seq::new(shown as nat, |i: int| listed_line(all[i]));
    assert(out@ =~= old(out)@ + lines.take(0).flatten());
    for i in 0..shown
        invariant
            all == labels.deep_view(),
            shown <= labels@.len(),
            lines == Seq::new(shown as nat, |i: int| listed_line(all[i])),
            out@ =~= old(out)@ + lines.take(i as int).flatten(),
    {
        proof {
            lemma_next_line(lines, i as int);
        }
        let mut line = "    - ".to_owned();
        line.append(labels[i].as_str());
        line.append("\n");
        out.append(line.as_str());
    }
    assert(lines.take(lines.len() as int) =~= lines);
    if labels.len() > LISTED_ENTRIES {
        let mut line = "    ... and ".to_owned();
        append_decimal(&mut line, (labels.len() - LISTED_ENTRIES) as u64);
        line.append(" more\n");
        out.append(line.as_str());
    }
    assert(out@ =~= old(out)@ + listing(all));
}

/// The labels of host functions.
fn labels_of(functions: &Vec<ImportedHostFunction>) -> (labels: Vec<String>)
    ensures
        labels.deep_view() == host_labels(functions.deep_view()),
{
    let ghost all = functions.deep_view();
    let mut labels: Vec<String> = Vec::new();
    for i in 0..functions.len()
        invariant
            all == functions.deep_view(),
            labels.deep_view() =~= host_labels(all).take(i as int),
    {
        let mut label = functions[i].module.clone();
        label.append(".");
        label.append(functions[i].name.as_str());
        push_value(&mut labels, label);
    }
    labels
}

/// Renders the line about imports.
fn import_line_text(function_count: u32, host_count: usize) -> (line: String)
    ensures
        line@ == import_line(function_count, host_count as nat),
{
    let mut line = "  Imports: ".to_owned();
    append_decimal(&mut line, function_count as u64);
    line.append(" function(s) total, ");
    append_decimal(&mut line, host_count as u64);
    line.append(" from `");
    line.append(HOST_IMPORT_MODULE);
    line.append("` module\n");
    line
}

/// Renders the line about exports.
fn export_line_text(count: usize) -> (line: String)
    ensures
        line@ == export_line(count as nat),
{
    let mut line = "  Exports: ".to_owned();
    append_decimal(&mut line, count as u64);
    line.append(" function(s)\n");
    line
}

/// Renders the line about the start function.
fn start_line_text(start: Option<u32>) -> (line: String)
    ensures
        line@ == start_line(start),
{
    match start {
        Some(func) => {
            let mut line = "  Start function: ".to_owned();
            append_decimal(&mut line, func as u64);
            line.append("\n");
            line
        },
        None => "  Start function: none\n".to_owned(),
    }
}

/// Renders the line about a table.
fn table_line_text(i: usize, table: &TableSummary) -> (line: String)
    ensures
        line@ == table_line(i as int, *table),
{
    let mut line = "  Table[".to_owned();
    append_decimal(&mut line, i as u64);
    line.append("]: initial=");
    append_decimal(&mut line, table.initial);
    line.append(" entries, max=");
    append_limit(&mut line, table.maximum);
    line.append(" entries\n");
    line
}

/// Appends the lines about tables.
fn append_tables(out: &mut String, tables: &Vec<TableSummary>)
    ensures
        final(out)@ == old(out)@ + table_lines(tables.deep_view()),
{
    if tables.is_empty() {
        out.append("  Tables: none\n");
    } else {
        let ghost all = tables.deep_view();
        let ghost lines = Seq::new(all.len(), |i: int| table_line(i, all[i]));
        assert(out@ =~= old(out)@ + lines.take(0).flatten());
        for i in 0..tables.len()
            invariant
                all == tables.deep_view(),
                lines == Seq::new(all.len(), |i: int| table_line(i, all[i])),
                out@ =~= old(out)@ + lines.take(i as int).flatten(),
        {
            proof {
                lemma_next_line(lines, i as int);
            }
            out.append(table_line_text(i, &tables[i]).as_str());
        }
        assert(lines.take(lines.len() as int) =~= lines);
    }
}

/// Appends the lines about warnings.
fn append_warnings(out: &mut String, warnings: &Vec<String>)
    ensures
        final(out)@ == old(out)@ + warning_lines(warnings.deep_view()),
{
    let ghost all = warnings.deep_view();
    let ghost lines = Seq::new(all.len(), |i: int| warning_line(all[i]));
    assert(out@ =~= old(out)@ + lines.take(0).flatten());
    for i in 0..warnings.len()
        invariant
            all == warnings.deep_view(),
            lines == Seq::new(all.len(), |i: int| warning_line(all[i])),
            out@ =~= old(out)@ + lines.take(i as int).flatten(),
    {
        proof {
            lemma_next_line(lines, i as int);
        }
        let mut line = "  Warning: ".to_owned();
        line.append(warnings[i].as_str());
        line.append("\n");
        out.append(line.as_str());
    }
    assert(lines.take(lines.len() as int) =~= lines);
}

/// Formats a [`WasmStructureSummary`] as human-readable lines, including the
/// memory configuration and any limit warnings. Integer-only rendering; no fee
/// math here.
#[must_use]
pub fn format_structure_summary(summary: &WasmStructureSummary) -> (out: String)
    ensures
        out@ == summary_text(summary.deep_view()),
{
    let mut out = "WASM structure:\n".to_owned();
    append_memories(&mut out, &summary.memories);
    out.append(
        import_line_text(
            summary.imported_function_count,
            summary.imported_host_functions.len(),
        ).as_str(),
    );
    append_listing(&mut out, &labels_of(&summary.imported_host_functions));
    out.append(export_line_text(summary.exported_functions.len()).as_str());
    append_listing(&mut out, &summary.exported_functions);
    out.append(start_line_text(summary.start_function).as_str());
    append_tables(&mut out, &summary.tables);
    append_warnings(&mut out, &summary.warnings());
    out
}

} // verus!
