//! What texts say, piece by piece.
//!
//! The text of a summary is put together from lists of lines, and each law on
//! such a list says which line one more element adds to it. Together they fix
//! the text of every summary.

use crate::functions::{function_text, params_text, FunctionView, ParamView};
use crate::model::{MemoryLimits, TableSummary};
use crate::structure::{memory_warnings, HostFunctionView, StructureView};
use crate::summary::{
    host_labels, listed_line, listing, memory_line, memory_lines, summary_text, table_line,
    table_lines, warning_line, warning_lines,
};
use crate::text::decimal;
use vstd::prelude::*;

verus! {

/// The lines of one more element stand behind those of the others.
proof fn lemma_one_more_line(lines: Seq<Seq<char>>, line: Seq<char>, more: Seq<Seq<char>>)
    requires
        more == lines.push(line),
    ensures
        more.flatten() == lines.flatten() + line,
{
    lines.lemma_flatten_push(line);
}

/// A list of no entries has no lines. As long as fewer than 20 entries are
/// listed, one more entry makes the rendering longer by exactly its own line.
/// Beyond that, the first 20 entries stay listed, and one line tells how many
/// more there are.
pub proof fn law_listing_of_one_more_entry(labels: Seq<Seq<char>>, label: Seq<char>)
    ensures
        labels.len() == 0 ==> listing(labels).len() == 0,
        labels.len() < 20 ==> listing(labels.push(label)) == listing(labels) + ("    - "@ + label
            + "\n"@),
        labels.len() >= 20 ==> listing(labels.push(label)) == listing(labels.take(20)) + (
        "    ... and "@ + decimal((labels.len() - 19) as nat) + " more\n"@),
{
    let more = labels.push(label);
    if labels.len() < 20 {
        let lines = Seq::new(labels.len(), |i: int| listed_line(labels[i]));
        let longer = Seq::new(more.len(), |i: int| listed_line(more[i]));
        assert(longer =~= lines.push(listed_line(label)));
        lemma_one_more_line(lines, listed_line(label), longer);
    } else {
        let first = labels.take(20);
        assert(Seq::new(20nat, |i: int| listed_line(more[i])) =~= Seq::new(
            first.len(),
            |i: int| listed_line(first[i]),
        ));
    }
}

/// The rendering of a list holds the line of each of its first 20 entries, in
/// order: what stands ahead of the line of an entry is the rendering of the
/// entries ahead of it.
pub proof fn law_listing_holds_every_entry(labels: Seq<Seq<char>>, i: int)
    requires
        0 <= i < labels.len(),
        i < 20,
    ensures
        (listing(labels.take(i)) + ("    - "@ + labels[i] + "\n"@)).is_prefix_of(listing(labels)),
    decreases labels.len(),
{
    let fewer = labels.drop_last();
    let line = "    - "@ + labels[i] + "\n"@;
    assert(fewer.push(labels.last()) =~= labels);
    law_listing_of_one_more_entry(fewer, labels.last());
    if i == labels.len() - 1 {
        assert(labels.take(i) =~= fewer);
    } else {
        assert(fewer.take(i) =~= labels.take(i));
        if fewer.len() < 20 {
            law_listing_holds_every_entry(fewer, i);
            assert((listing(labels.take(i)) + line).is_prefix_of(listing(labels)));
        } else {
            let first = fewer.take(20);
            assert(first.take(i) =~= labels.take(i));
            law_listing_holds_every_entry(first, i);
            assert((listing(labels.take(i)) + line).is_prefix_of(listing(labels)));
        }
    }
}

/// Without memories one line says so. One more memory adds one line: its number,
/// its initial size in pages and in bytes, which is 65536 for each page up to
/// the largest `u64`, and its maximum.
pub proof fn law_memory_lines_of_one_more_memory(
    memories: Seq<MemoryLimits>,
    memory: MemoryLimits,
    size: nat,
    max: Seq<char>,
)
    requires
        size == if memory.initial_pages * 65536 > u64::MAX {
            u64::MAX as nat
        } else {
            (memory.initial_pages * 65536) as nat
        },
        max == match memory.maximum_pages {
            Some(pages) => decimal(pages as nat),
            None => "unbounded"@,
        },
    ensures
        memories.len() == 0 ==> memory_lines(memories) == "  Memory: none declared\n"@,
        memory_lines(memories.push(memory)) == (if memories.len() == 0 {
            Seq::empty()
        } else {
            memory_lines(memories)
        }) + ("  Memory["@ + decimal(memories.len()) + "]: initial="@ + decimal(
            memory.initial_pages as nat,
        ) + " pages ("@ + decimal(size) + " bytes), max="@ + max + " pages\n"@),
{
    let more = memories.push(memory);
    let line = memory_line(memories.len() as int, memory);
    let lines = Seq::new(memories.len(), |i: int| memory_line(i, memories[i]));
    let longer = Seq::new(more.len(), |i: int| memory_line(i, more[i]));
    assert(longer =~= lines.push(line));
    lemma_one_more_line(lines, line, longer);
    if memories.len() == 0 {
        assert(lines.flatten() =~= Seq::empty());
    }
}

/// Without tables one line says so. One more table adds one line: its number, its
/// initial size and its maximum.
pub proof fn law_table_lines_of_one_more_table(
    tables: Seq<TableSummary>,
    table: TableSummary,
    max: Seq<char>,
)
    requires
        max == match table.maximum {
            Some(entries) => decimal(entries as nat),
            None => "unbounded"@,
        },
    ensures
        tables.len() == 0 ==> table_lines(tables) == "  Tables: none\n"@,
        table_lines(tables.push(table)) == (if tables.len() == 0 {
            Seq::empty()
        } else {
            table_lines(tables)
        }) + ("  Table["@ + decimal(tables.len()) + "]: initial="@ + decimal(table.initial as nat)
            + " entries, max="@ + max + " entries\n"@),
{
    let more = tables.push(table);
    let line = table_line(tables.len() as int, table);
    let lines = Seq::new(tables.len(), |i: int| table_line(i, tables[i]));
    let longer = Seq::new(more.len(), |i: int| table_line(i, more[i]));
    assert(longer =~= lines.push(line));
    lemma_one_more_line(lines, line, longer);
    if tables.len() == 0 {
        assert(lines.flatten() =~= Seq::empty());
    }
}

/// Without warnings there is no line. One more warning adds its own line.
pub proof fn law_warning_lines_of_one_more_warning(warnings: Seq<Seq<char>>, warning: Seq<char>)
    ensures
        warnings.len() == 0 ==> warning_lines(warnings).len() == 0,
        warning_lines(warnings.push(warning)) == warning_lines(warnings) + ("  Warning: "@ + warning
            + "\n"@),
{
    let more = warnings.push(warning);
    let lines = Seq::new(warnings.len(), |i: int| warning_line(warnings[i]));
    let longer = Seq::new(more.len(), |i: int| warning_line(more[i]));
    assert(longer =~= lines.push(warning_line(warning)));
    lemma_one_more_line(lines, warning_line(warning), longer);
}

/// A host function is listed under its module and its name.
pub proof fn law_host_functions_are_listed_by_module_and_name(functions: Seq<HostFunctionView>)
    ensures
        host_labels(functions).len() == functions.len(),
        forall|i: int|
            0 <= i < functions.len() ==> #[trigger] host_labels(functions)[i] == functions[i].module
                + "."@ + functions[i].name,
{
}

/// The text of a summary is its heading, the memories, the number of imported
/// functions and of host functions, the host functions, the number of exported
/// functions, these functions, the start function, the tables and the warnings,
/// in this order.
pub proof fn law_summary_text_has_every_part(summary: StructureView)
    ensures
        summary_text(summary) == "WASM structure:\n"@ + memory_lines(summary.memories) + (
        "  Imports: "@ + decimal(summary.imported_function_count as nat) + " function(s) total, "@
            + decimal(summary.imported_host_functions.len()) + " from `"@ + "env"@
            + "` module\n"@) + listing(host_labels(summary.imported_host_functions)) + (
        "  Exports: "@ + decimal(summary.exported_functions.len()) + " function(s)\n"@) + listing(
            summary.exported_functions,
        ) + (match summary.start_function {
            Some(func) => "  Start function: "@ + decimal(func as nat) + "\n"@,
            None => "  Start function: none\n"@,
        }) + table_lines(summary.tables) + warning_lines(memory_warnings(summary.memories)),
{
}

/// A function without typed parameters is rendered as its name alone. With
/// parameters it is its name and, in brackets, each parameter with its type, in
/// order and separated by commas.
pub proof fn law_signature_of_one_more_parameter(function: FunctionView, param: ParamView)
    ensures
        function.params.len() == 0 ==> function_text(function) == function.name,
        function.params.len() > 0 ==> function_text(function) == function.name + "("@
            + params_text(function.params) + ")"@,
        params_text(function.params.push(param)) == if function.params.len() == 0 {
            param.name + ": "@ + param.ty_name
        } else {
            params_text(function.params) + ", "@ + (param.name + ": "@ + param.ty_name)
        },
{
    assert(function.params.push(param).drop_last() =~= function.params);
}

} // verus!
