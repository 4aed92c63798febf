//! Properties that relate the operations of the library to each other.
//!
//! The modules below say what each operation gives, one section, one entry or
//! one line at a time, so that together they fix its result on every input.

use crate::contract_spec::{
    contract_spec, decodes_to_nothing, described_function, functions_of, has_contract_spec,
    is_undecodable, spec_functions_in, type_label, SpecEntryView, SpecFunctionsView, SpecType,
};
use crate::error::AppErrorView;
use crate::functions::{
    declared_function, declared_functions, enumeration, enumeration_error, exported_function,
    exported_functions, functions_exported, FunctionView,
};
use crate::info::{all_with_spec, analysis, bare_info, params_named, with_spec, WasmInfoView};
use crate::model::{
    declares_exports, declares_functions, exports_in, first_error, function_name, function_names,
    function_types_in, functions_in, gather, imported_type, imported_types, imports_in,
    is_module_start, is_ordered, is_readable, is_readable_section, last_module,
    lemma_filter_map_add, lemma_last_module_step, lemma_module_start, module_start,
    section_exports, types_in, values, ExportView, ImportView, MemoryLimits, SectionView,
    Sections, TypeEntry,
};
use crate::structure::{
    capped, exceeds_limit, host_function, host_functions, imported_functions, memory_warnings,
    structure, structure_error, structure_of, HOST_IMPORT_MODULE,
};
use crate::summary::{listed_line, listing, LISTED_ENTRIES};
use crate::text::decimal;
use vstd::prelude::*;

pub mod analysis;
pub mod contract_spec;
pub mod enumeration;
pub mod structure;
pub mod text;
pub mod views;

verus! {

/// The names of functions.
pub open spec fn names_of(functions: Seq<FunctionView>) -> Seq<Seq<char>> {
    functions.map_values(|function: FunctionView| function.name)
}

/// The functions among exports have the names of the exports.
proof fn lemma_exported_names(
    exports: Seq<ExportView>,
    types: Seq<TypeEntry>,
    functions: Seq<u32>,
)
    ensures
        names_of(exported_functions(exports, types, functions)) == function_names(exports),
    decreases exports.len(),
{
    if exports.len() > 0 {
        lemma_exported_names(exports.drop_last(), types, functions);
    }
    assert(names_of(exported_functions(exports, types, functions)) =~= function_names(exports));
}

/// The functions that are enumerated and the entry points that the summary
/// names are the same, in the same order.
pub proof fn law_exported_names_agree(sections: Sections)
    ensures
        names_of(functions_exported(sections)) == structure_of(sections).exported_functions,
    decreases sections.len(),
{
    if sections.len() > 0 {
        let ahead = sections.drop_last();
        law_exported_names_agree(ahead);
        if let Ok(section) = sections.last() {
            lemma_filter_map_add(exports_in(ahead), section_exports(section), function_name());
            if let SectionView::Exports(items) = section {
                lemma_exported_names(
                    values(items),
                    types_in(last_module(ahead)),
                    function_types_in(last_module(ahead)),
                );
            } else {
                assert(exports_in(ahead) + section_exports(section) =~= exports_in(ahead));
            }
        }
    }
    assert(names_of(functions_exported(sections)) =~= structure_of(sections).exported_functions);
}

/// Every host function that a summary lists is imported from the host module.
pub proof fn law_host_functions_come_from_host(sections: Sections, i: int)
    requires
        0 <= i < structure_of(sections).imported_host_functions.len(),
    ensures
        structure_of(sections).imported_host_functions[i].module == HOST_IMPORT_MODULE@,
{
    let hosts = host_functions(imports_in(sections));
    assert(hosts.contains(hosts[i]));
    imports_in(sections).lemma_filter_map_contains(host_function(), hosts[i]);
}

/// There are no more host functions than imported functions, and no more
/// imported functions than imports.
proof fn lemma_import_counts(imports: Seq<ImportView>)
    ensures
        host_functions(imports).len() <= imported_functions(imports).len() <= imports.len(),
    decreases imports.len(),
{
    if imports.len() > 0 {
        lemma_import_counts(imports.drop_last());
    }
}

/// A summary counts no more host functions than imported functions, as far as
/// its counters reach, and no more imported functions than imports.
pub proof fn law_import_counts(sections: Sections)
    ensures
        capped(structure_of(sections).imported_host_functions.len() as int) <= structure_of(
            sections,
        ).imported_function_count,
        structure_of(sections).imported_function_count <= structure_of(sections).total_import_count,
{
    lemma_import_counts(imports_in(sections));
}

/// There are as many warnings as there are memories above the limit.
pub proof fn law_one_warning_for_each_excess(memories: Seq<MemoryLimits>)
    ensures
        memory_warnings(memories).len() == memories.filter(
            |memory: MemoryLimits| exceeds_limit(memory),
        ).len(),
    decreases memories.len(),
{
    reveal(Seq::filter);
    if memories.len() > 0 {
        law_one_warning_for_each_excess(memories.drop_last());
    }
}

/// There are warnings if and only if some memory is above the limit.
pub proof fn law_warnings_iff_limit_exceeded(memories: Seq<MemoryLimits>)
    ensures
        memory_warnings(memories).len() > 0 <==> exists|i: int|
            0 <= i < memories.len() && exceeds_limit(#[trigger] memories[i]),
    decreases memories.len(),
{
    if memories.len() > 0 {
        let fewer = memories.drop_last();
        law_warnings_iff_limit_exceeded(fewer);
        if memory_warnings(fewer).len() > 0 {
            let i = choose|i: int| 0 <= i < fewer.len() && exceeds_limit(#[trigger] fewer[i]);
            assert(exceeds_limit(memories[i]));
        }
        if exceeds_limit(memories.last()) {
            assert(exceeds_limit(memories[memories.len() - 1]));
        }
        if exists|i: int| 0 <= i < memories.len() && exceeds_limit(#[trigger] memories[i]) {
            let i = choose|i: int| 0 <= i < memories.len() && exceeds_limit(#[trigger] memories[i]);
            if i < fewer.len() {
                assert(exceeds_limit(fewer[i]));
            }
        }
    }
}

/// A contract spec changes neither which functions are exported nor their order
/// nor the number of their results.
pub proof fn law_spec_keeps_functions(functions: Seq<FunctionView>, spec: SpecFunctionsView)
    ensures
        names_of(all_with_spec(functions, spec)) == names_of(functions),
        forall|i: int|
            0 <= i < functions.len() ==> (#[trigger] all_with_spec(functions, spec)[i]).result_count
                == functions[i].result_count,
{
    assert(names_of(all_with_spec(functions, spec)) =~= names_of(functions));
}

/// A function that a contract spec does not name stays as it is.
pub proof fn law_unnamed_function_stays(function: FunctionView, spec: SpecFunctionsView)
    requires
        forall|i: int| 0 <= i < spec.len() ==> (#[trigger] spec[i]).0 != function.name,
    ensures
        with_spec(function, spec) == function,
    decreases spec.len(),
{
    if spec.len() > 0 {
        assert forall|i: int| 0 <= i < spec.drop_last().len() implies (
        #[trigger] spec.drop_last()[i]).0 != function.name by {
            assert(spec[i].0 != function.name);
        }
        law_unnamed_function_stays(function, spec.drop_last());
        assert(spec[spec.len() - 1].0 != function.name);
    }
}

/// A function that a contract spec names takes its parameters from the first
/// entry of that name, and counts them.
pub proof fn law_named_function_takes_first_entry(
    function: FunctionView,
    spec: SpecFunctionsView,
    k: int,
)
    requires
        0 <= k < spec.len(),
        spec[k].0 == function.name,
        forall|i: int| 0 <= i < k ==> (#[trigger] spec[i]).0 != function.name,
    ensures
        with_spec(function, spec).params == spec[k].1,
        with_spec(function, spec).param_count == spec[k].1.len() as u32,
    decreases spec.len(),
{
    let fewer = spec.drop_last();
    if k < fewer.len() {
        assert forall|i: int| 0 <= i < k implies (#[trigger] fewer[i]).0 != function.name by {
            assert(spec[i].0 != function.name);
        }
        law_named_function_takes_first_entry(function, fewer, k);
        lemma_named_is_found(fewer, function.name, k);
    } else {
        assert forall|i: int| 0 <= i < fewer.len() implies (#[trigger] fewer[i]).0
            != function.name by {
            assert(spec[i].0 != function.name);
        }
        lemma_unnamed_is_not_found(fewer, function.name);
    }
}

/// A function that a contract spec names is found.
proof fn lemma_named_is_found(spec: SpecFunctionsView, name: Seq<char>, k: int)
    requires
        0 <= k < spec.len(),
        spec[k].0 == name,
    ensures
        params_named(spec, name) is Some,
    decreases spec.len(),
{
    if k < spec.len() - 1 {
        lemma_named_is_found(spec.drop_last(), name, k);
    }
}

/// A function that a contract spec does not name is not found.
proof fn lemma_unnamed_is_not_found(spec: SpecFunctionsView, name: Seq<char>)
    requires
        forall|i: int| 0 <= i < spec.len() ==> (#[trigger] spec[i]).0 != name,
    ensures
        params_named(spec, name) is None,
    decreases spec.len(),
{
    if spec.len() > 0 {
        assert forall|i: int| 0 <= i < spec.drop_last().len() implies (
        #[trigger] spec.drop_last()[i]).0 != name by {
            assert(spec[i].0 != name);
        }
        lemma_unnamed_is_not_found(spec.drop_last(), name);
        assert(spec[spec.len() - 1].0 != name);
    }
}

/// Contract specs of which not a single entry can be decoded describe no
/// function.
pub proof fn law_undecodable_spec_describes_nothing(sections: Sections)
    requires
        is_undecodable(sections),
    ensures
        spec_functions_in(sections) == SpecFunctionsView::empty(),
    decreases sections.len(),
{
    if sections.len() > 0 {
        let ahead = sections.drop_last();
        assert forall|i: int| 0 <= i < ahead.len() implies decodes_to_nothing(
            #[trigger] ahead[i],
        ) by {
            assert(decodes_to_nothing(sections[i]));
        }
        law_undecodable_spec_describes_nothing(ahead);
        assert(decodes_to_nothing(sections[sections.len() - 1]));
    }
    assert(spec_functions_in(sections) =~= SpecFunctionsView::empty());
}

/// A binary without a contract spec describes no function.
pub proof fn law_no_spec_describes_nothing(sections: Sections)
    requires
        !has_contract_spec(sections),
    ensures
        spec_functions_in(sections) == SpecFunctionsView::empty(),
{
    law_undecodable_spec_describes_nothing(sections);
}

/// With a contract spec that describes nothing, functions stay as they are.
pub proof fn law_empty_spec_changes_nothing(functions: Seq<FunctionView>)
    ensures
        all_with_spec(functions, SpecFunctionsView::empty()) == functions,
{
    assert(all_with_spec(functions, SpecFunctionsView::empty()) =~= functions);
}

/// Exported functions have no typed parameters until a contract spec gives them
/// some.
pub proof fn law_exports_are_bare(sections: Sections)
    ensures
        forall|i: int|
            0 <= i < functions_exported(sections).len() ==> (
            #[trigger] functions_exported(sections)[i]).params.len() == 0,
    decreases sections.len(),
{
    if sections.len() > 0 {
        let ahead = sections.drop_last();
        law_exports_are_bare(ahead);
        if let Ok(SectionView::Exports(items)) = sections.last() {
            let types = types_in(last_module(ahead));
            let functions = function_types_in(last_module(ahead));
            let found = exported_functions(values(items), types, functions);
            assert forall|i: int| 0 <= i < found.len() implies (
            #[trigger] found[i]).params.len() == 0 by {
                assert(found.contains(found[i]));
                values(items).lemma_filter_map_contains(
                    exported_function(types, functions),
                    found[i],
                );
            }
            assert(functions_exported(sections) =~= functions_exported(ahead) + found);
        } else {
            assert(functions_exported(sections) == functions_exported(ahead));
        }
    }
}

/// Whether an analysis succeeds does not rest on the contract spec: it does so
/// if and only if the functions can be enumerated and the structure summarised.
pub proof fn law_spec_never_fails_analysis(bytes: Seq<u8>, sections: Sections)
    ensures
        analysis(bytes, sections) is Ok <==> enumeration(sections) is Ok && structure(
            sections,
        ) is Ok,
{
}

/// Where nothing could be decoded of a contract spec, an analysis still
/// succeeds, and gives the bare exports.
pub proof fn law_bare_exports_where_nothing_decodes(bytes: Seq<u8>, sections: Sections)
    requires
        enumeration(sections) is Ok,
        structure(sections) is Ok,
        spec_functions_in(sections).len() == 0,
    ensures
        analysis(bytes, sections) == Ok::<_, AppErrorView>(
            (WasmInfoView {
                bytes,
                functions: enumeration(sections)->Ok_0,
                has_spec: has_contract_spec(sections),
                structure: structure(sections)->Ok_0,
            }),
        ),
        forall|i: int|
            0 <= i < enumeration(sections)->Ok_0.len() ==> (
            #[trigger] enumeration(sections)->Ok_0[i]).params.len() == 0,
{
    law_analysis_hides_no_error(bytes, sections);
    assert(spec_functions_in(sections) =~= SpecFunctionsView::empty());
    law_empty_spec_changes_nothing(functions_exported(sections));
    law_exports_are_bare(sections);
}

/// Without a contract spec, an analysis gives the bare exports.
pub proof fn law_bare_exports_without_spec(bytes: Seq<u8>, sections: Sections)
    requires
        enumeration(sections) is Ok,
        structure(sections) is Ok,
        !has_contract_spec(sections),
    ensures
        analysis(bytes, sections) == Ok::<_, AppErrorView>(
            (WasmInfoView {
                bytes,
                functions: enumeration(sections)->Ok_0,
                has_spec: false,
                structure: structure(sections)->Ok_0,
            }),
        ),
{
    law_no_spec_describes_nothing(sections);
    law_bare_exports_where_nothing_decodes(bytes, sections);
}

/// Where every section could be made out and every entry decoded, nothing fails
/// but an enumeration that finds no function.
pub proof fn law_readable_sections_fail_nothing(sections: Sections)
    requires
        is_readable(sections),
    ensures
        structure(sections) == Ok::<_, AppErrorView>(structure_of(sections)),
        contract_spec(sections) == Ok::<_, AppErrorView>(
            (spec_functions_in(sections), has_contract_spec(sections)),
        ),
        functions_exported(sections).len() > 0 ==> enumeration(sections) == Ok::<_, AppErrorView>(
            functions_exported(sections),
        ),
{
    lemma_readable_sections(sections);
}

/// No error is met in sections without one.
proof fn lemma_readable_sections(sections: Sections)
    requires
        is_readable(sections),
    ensures
        first_error(sections) is None,
        enumeration_error(sections) is None,
        structure_error(sections) is None,
    decreases sections.len(),
{
    if sections.len() > 0 {
        let ahead = sections.drop_last();
        assert forall|i: int| 0 <= i < ahead.len() implies is_readable_section(
            #[trigger] ahead[i],
        ) by {
            assert(is_readable_section(sections[i]));
        }
        lemma_readable_sections(ahead);
        assert(is_readable_section(sections[sections.len() - 1]));
    }
}

/// A binary whose sections hold no error, and that exports a function, is not
/// refused for a contract spec of which not a single entry can be decoded: its
/// bare exports are given, and whether it has a spec.
pub proof fn law_undecodable_spec_is_not_refused(bytes: Seq<u8>, sections: Sections)
    requires
        is_readable(sections),
        functions_exported(sections).len() > 0,
        is_undecodable(sections),
    ensures
        analysis(bytes, sections) == Ok::<_, AppErrorView>(bare_info(bytes, sections)),
        forall|i: int|
            0 <= i < bare_info(bytes, sections).functions.len() ==> (#[trigger] bare_info(
                bytes,
                sections,
            ).functions[i]).params.len() == 0,
{
    law_readable_sections_fail_nothing(sections);
    law_undecodable_spec_describes_nothing(sections);
    law_bare_exports_where_nothing_decodes(bytes, sections);
    law_exports_are_bare(sections);
}

/// What the parser cannot make out is an error to whoever reads the sections.
proof fn lemma_parser_error_is_met(sections: Sections)
    requires
        first_error(sections) is Some,
    ensures
        enumeration_error(sections) is Some,
        structure_error(sections) is Some,
    decreases sections.len(),
{
    if first_error(sections.drop_last()) is Some {
        lemma_parser_error_is_met(sections.drop_last());
    }
}

/// What the parser cannot make out fails an enumeration, a summary and the
/// reading of the contract spec alike.
pub proof fn law_parser_error_fails_all(sections: Sections)
    requires
        first_error(sections) is Some,
    ensures
        enumeration(sections) is Err,
        structure(sections) is Err,
        contract_spec(sections) is Err,
{
    lemma_parser_error_is_met(sections);
}

/// Where an analysis succeeds, the contract spec could be read: an error in
/// reading it is never hidden behind a result.
pub proof fn law_analysis_hides_no_error(bytes: Seq<u8>, sections: Sections)
    requires
        analysis(bytes, sections) is Ok,
    ensures
        contract_spec(sections) is Ok,
{
    if first_error(sections) is Some {
        law_parser_error_fails_all(sections);
    }
}

/// An analysis keeps the bytes, names the functions that the summary names, and
/// says that there is a contract spec if and only if there is one.
pub proof fn law_analysis_is_consistent(bytes: Seq<u8>, sections: Sections)
    requires
        analysis(bytes, sections) is Ok,
    ensures
        analysis(bytes, sections)->Ok_0.bytes == bytes,
        analysis(bytes, sections)->Ok_0.has_spec == has_contract_spec(sections),
        names_of(analysis(bytes, sections)->Ok_0.functions) == analysis(
            bytes,
            sections,
        )->Ok_0.structure.exported_functions,
        analysis(bytes, sections)->Ok_0.functions.len() > 0,
{
    law_analysis_hides_no_error(bytes, sections);
    law_exported_names_agree(sections);
    law_spec_keeps_functions(functions_exported(sections), spec_functions_in(sections));
}

/// The entries of two stretches of a contract spec describe the functions of
/// the first and then those of the second.
pub proof fn law_functions_of_concatenation(a: Seq<SpecEntryView>, b: Seq<SpecEntryView>)
    ensures
        functions_of(a + b) == functions_of(a) + functions_of(b),
{
    lemma_filter_map_add(a, b, described_function());
}

/// Each imported function has its own type.
proof fn lemma_imported_types(imports: Seq<ImportView>)
    ensures
        imported_types(imports).len() == imported_functions(imports).len(),
        forall|i: int|
            0 <= i < imported_functions(imports).len() ==> Some(imported_types(imports)[i])
                == imported_type()(#[trigger] imported_functions(imports)[i]),
    decreases imports.len(),
{
    if imports.len() > 0 {
        lemma_imported_types(imports.drop_last());
    }
}

/// A module declares of its exports what its types and functions say.
proof fn lemma_declared_function(module: Sections)
    ensures
        declared_function(module) == exported_function(
            types_in(module),
            function_types_in(module),
        ),
{
    lemma_imported_types(imports_in(module));
    assert(declared_function(module) =~= exported_function(
        types_in(module),
        function_types_in(module),
    ));
}

/// Without an export section nothing is exported.
proof fn lemma_no_exports(module: Sections)
    requires
        forall|i: int| 0 <= i < module.len() ==> !declares_exports(#[trigger] module[i]),
    ensures
        exports_in(module) == Seq::<ExportView>::empty(),
    decreases module.len(),
{
    if module.len() > 0 {
        let ahead = module.drop_last();
        assert forall|i: int| 0 <= i < ahead.len() implies !declares_exports(
            #[trigger] ahead[i],
        ) by {
            assert(!declares_exports(module[i]));
        }
        lemma_no_exports(ahead);
        assert(!declares_exports(module[module.len() - 1]));
    }
    assert(exports_in(module) =~= Seq::<ExportView>::empty());
}

/// The sections ahead of another are in order if all are.
proof fn lemma_ordered_ahead(sections: Sections)
    requires
        is_ordered(sections),
        sections.len() > 0,
    ensures
        is_ordered(sections.drop_last()),
{
    let ahead = sections.drop_last();
    assert forall|i: int, j: int|
        #![trigger ahead[i], ahead[j]]
        0 <= i < j < ahead.len() && declares_exports(ahead[i]) && declares_functions(
            ahead[j],
        ) implies exists|k: int| i < k < j && is_module_start(#[trigger] ahead[k]) by {
        assert(declares_exports(sections[i]) && declares_functions(sections[j]));
        let k = choose|k: int| i < k < j && is_module_start(#[trigger] sections[k]);
        assert(is_module_start(ahead[k]));
    }
}

/// A section that declares functions comes ahead of what its module exports.
proof fn lemma_declared_ahead_of_exports(sections: Sections)
    requires
        is_ordered(sections),
        sections.len() > 0,
        declares_functions(sections.last()),
    ensures
        exports_in(last_module(sections.drop_last())) == Seq::<ExportView>::empty(),
{
    let ahead = sections.drop_last();
    let module = last_module(ahead);
    let start = module_start(ahead) as int;
    let last = sections.len() - 1;
    lemma_module_start(ahead);
    assert forall|i: int| 0 <= i < module.len() implies !declares_exports(
        #[trigger] module[i],
    ) by {
        assert(module[i] == sections[start + i]);
        if declares_exports(sections[start + i]) {
            assert(declares_functions(sections[last]));
            let k = choose|k: int| start + i < k < last && is_module_start(#[trigger] sections[k]);
            assert(is_module_start(ahead[k]));
        }
    }
    lemma_no_exports(module);
}

/// In a binary whose modules are ordered, every exported function, imported or
/// defined, has the number of parameters and of results that its module
/// declares for it.
pub proof fn law_arity_is_declared(sections: Sections)
    requires
        is_ordered(sections),
    ensures
        functions_exported(sections) == declared_functions(sections),
    decreases sections.len(),
{
    if sections.len() > 0 {
        let ahead = sections.drop_last();
        let module = last_module(sections);
        lemma_ordered_ahead(sections);
        law_arity_is_declared(ahead);
        lemma_module_start(sections);
        lemma_module_start(ahead);
        lemma_last_module_step(sections);
        lemma_declared_function(module);
        if is_module_start(sections.last()) {
            assert(sections.take(module_start(sections) as int) =~= ahead);
            reveal_with_fuel(gather, 2);
            assert(exports_in(module) =~= Seq::<ExportView>::empty());
            assert(functions_exported(sections) =~= declared_functions(sections));
        } else {
            let before = last_module(ahead);
            lemma_declared_function(before);
            assert(ahead.take(module_start(ahead) as int) =~= sections.take(
                module_start(sections) as int,
            ));
            if ahead.len() == 0 {
                assert(before =~= Seq::empty());
                assert(exports_in(before) =~= Seq::<ExportView>::empty());
            }
            assert(functions_exported(ahead) =~= declared_functions(
                sections.take(module_start(sections) as int),
            ) + exports_in(before).filter_map(declared_function(before)));
            if declares_functions(sections.last()) {
                lemma_declared_ahead_of_exports(sections);
                assert(exports_in(module) =~= Seq::<ExportView>::empty());
            } else {
                assert(types_in(module) =~= types_in(before));
                assert(imports_in(module) =~= imports_in(before));
                assert(functions_in(module) =~= functions_in(before));
                if let Ok(section) = sections.last() {
                    lemma_filter_map_add(
                        exports_in(before),
                        section_exports(section),
                        declared_function(module),
                    );
                }
            }
            assert(functions_exported(sections) =~= declared_functions(sections));
        }
    }
}

/// The number that decimal digits stand for.
pub open spec fn number(digits: Seq<char>) -> nat
    decreases digits.len(),
{
    if digits.len() == 0 {
        0
    } else {
        number(digits.drop_last()) * 10 + (digits.last() as u32 - '0' as u32) as nat
    }
}

/// Decimal notation can be read back. It is made of the ten digits, and has no
/// leading zero but for zero itself.
pub proof fn law_decimal_reads_back(n: nat)
    ensures
        number(decimal(n)) == n,
        decimal(n).len() > 0,
        forall|i: int| 0 <= i < decimal(n).len() ==> '0' <= #[trigger] decimal(n)[i] <= '9',
        n > 0 ==> decimal(n)[0] != '0',
        n == 0 ==> decimal(n).len() == 1,
    decreases n,
{
    if n >= 10 {
        law_decimal_reads_back(n / 10);
        assert(decimal(n).drop_last() =~= decimal(n / 10));
    } else {
        reveal_with_fuel(number, 2);
    }
}

/// Numbers that differ are rendered differently.
pub proof fn law_decimal_is_unambiguous(m: nat, n: nat)
    requires
        decimal(m) == decimal(n),
    ensures
        m == n,
{
    law_decimal_reads_back(m);
    law_decimal_reads_back(n);
}

/// A listing shows no more than the first entries and the number of the rest.
pub proof fn law_listing_is_bounded(a: Seq<Seq<char>>, b: Seq<Seq<char>>)
    requires
        a.len() == b.len(),
        a.len() >= LISTED_ENTRIES,
        a.take(LISTED_ENTRIES as int) == b.take(LISTED_ENTRIES as int),
    ensures
        listing(a) == listing(b),
{
    assert forall|i: int| 0 <= i < LISTED_ENTRIES implies a[i] == b[i] by {
        assert(a.take(LISTED_ENTRIES as int)[i] == b.take(LISTED_ENTRIES as int)[i]);
    }
    assert(Seq::new(LISTED_ENTRIES as nat, |i: int| listed_line(a[i]))
        =~= Seq::new(LISTED_ENTRIES as nat, |i: int| listed_line(b[i])));
    if a.len() == LISTED_ENTRIES {
        assert(a =~= b);
    }
}

/// What tells the name of a type from the other names: its length and its first
/// two characters.
spec fn label_key(t: SpecType) -> (nat, char, char) {
    match t {
        SpecType::Val => (3, 'v', 'a'),
        SpecType::Bool => (4, 'b', 'o'),
        SpecType::Void => (4, 'v', 'o'),
        SpecType::Error => (5, 'e', 'r'),
        SpecType::U32 => (3, 'u', '3'),
        SpecType::I32 => (3, 'i', '3'),
        SpecType::U64 => (3, 'u', '6'),
        SpecType::I64 => (3, 'I', '6'),
        SpecType::Timepoint => (9, 't', 'i'),
        SpecType::Duration => (8, 'd', 'u'),
        SpecType::U128 => (4, 'u', '1'),
        SpecType::I128 => (4, 'i', '1'),
        SpecType::U256 => (4, 'u', '2'),
        SpecType::I256 => (4, 'i', '2'),
        SpecType::Bytes => (5, 'b', 'y'),
        SpecType::String => (6, 'S', 't'),
        SpecType::Symbol => (6, 'S', 'y'),
        SpecType::Address => (7, 'a', 'd'),
        SpecType::MuxedAddress => (13, 'm', 'u'),
        SpecType::OptionOf => (6, 'o', 'p'),
        SpecType::ResultOf => (6, 'r', 'e'),
        SpecType::VecOf => (3, 'v', 'e'),
        SpecType::MapOf => (3, 'm', 'a'),
        SpecType::TupleOf => (5, 't', 'u'),
        SpecType::BytesN => (7, 'b', 'y'),
        SpecType::Udt => (3, 'u', 'd'),
    }
}

/// The name of a type has the length and the first characters of its key.
proof fn lemma_label_key(t: SpecType)
    ensures
        type_label(t).len() == label_key(t).0,
        type_label(t)[0] == label_key(t).1,
        type_label(t)[1] == label_key(t).2,
{
    match t {
        SpecType::Val => reveal_strlit("val"),
        SpecType::Bool => reveal_strlit("bool"),
        SpecType::Void => reveal_strlit("void"),
        SpecType::Error => reveal_strlit("error"),
        SpecType::U32 => reveal_strlit("u32"),
        SpecType::I32 => reveal_strlit("i32"),
        SpecType::U64 => reveal_strlit("u64"),
        SpecType::I64 => reveal_strlit("I64"),
        SpecType::Timepoint => reveal_strlit("timepoint"),
        SpecType::Duration => reveal_strlit("duration"),
        SpecType::U128 => reveal_strlit("u128"),
        SpecType::I128 => reveal_strlit("i128"),
        SpecType::U256 => reveal_strlit("u256"),
        SpecType::I256 => reveal_strlit("i256"),
        SpecType::Bytes => reveal_strlit("bytes"),
        SpecType::String => reveal_strlit("String"),
        SpecType::Symbol => reveal_strlit("Symbol"),
        SpecType::Address => reveal_strlit("address"),
        SpecType::MuxedAddress => reveal_strlit("muxed_address"),
        SpecType::OptionOf => reveal_strlit("option"),
        SpecType::ResultOf => reveal_strlit("result"),
        SpecType::VecOf => reveal_strlit("vec"),
        SpecType::MapOf => reveal_strlit("map"),
        SpecType::TupleOf => reveal_strlit("tuple"),
        SpecType::BytesN => reveal_strlit("bytes_n"),
        SpecType::Udt => reveal_strlit("udt"),
    }
}

/// Types that differ have different names.
pub proof fn law_type_labels_differ(a: SpecType, b: SpecType)
    requires
        type_label(a) == type_label(b),
    ensures
        a == b,
{
    lemma_label_key(a);
    lemma_label_key(b);
}

} // verus!
