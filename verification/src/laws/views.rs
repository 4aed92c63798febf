//! What contracts speak of is what the values hold: no view leaves out or changes
//! a field.

use crate::contract_spec::{SpecEntry, SpecEntryView, SpecType};
use crate::error::{result_view, AppError, AppErrorView, AppResult};
use crate::functions::{FunctionInfo, ParamInfo};
use crate::info::WasmInfo;
use crate::model::{
    outcome, outcomes, ExportEntry, ImportEntry, MemoryLimits, Section, SectionView, TableSummary,
    TypeEntry,
};
use crate::reader::{error_message, parsed};
use crate::structure::{ImportedHostFunction, WasmStructureSummary};
use vstd::prelude::*;

verus! {

/// An outcome is the view of the value, or the characters of the message.
pub proof fn law_outcome_is_kept<T: DeepView>(r: Result<T, String>)
    ensures
        r is Ok <==> outcome(r) is Ok,
        r matches Ok(value) ==> outcome(r)->Ok_0 == value.deep_view(),
        r matches Err(message) ==> outcome(r)->Err_0 == message@,
{
}

/// The outcomes of a list are the outcome of each of its elements, in place.
pub proof fn law_outcomes_are_kept<T: DeepView>(s: Seq<Result<T, String>>)
    ensures
        outcomes(s).len() == s.len(),
        forall|i: int| 0 <= i < s.len() ==> #[trigger] outcomes(s)[i] == outcome(s[i]),
{
}

/// A result is the view of the value, or of the error.
pub proof fn law_result_is_kept<T: DeepView>(r: AppResult<T>)
    ensures
        r is Ok <==> result_view(r) is Ok,
        r matches Ok(value) ==> result_view(r)->Ok_0 == value.deep_view(),
        r matches Err(AppError::WasmParse(message)) ==> result_view(r)->Err_0
            == AppErrorView::WasmParse(message@),
        r matches Err(AppError::WasmValidation(message)) ==> result_view(r)->Err_0
            == AppErrorView::WasmValidation(message@),
{
}

/// What was decoded is the view of the value, or the text of the error.
pub proof fn law_decoded_is_kept<T: DeepView>(r: Result<T, wasmparser::Error>)
    ensures
        r is Ok <==> parsed(r) is Ok,
        r matches Ok(value) ==> parsed(r)->Ok_0 == value.deep_view(),
        r matches Err(error) ==> parsed(r)->Err_0 == error_message(error),
{
}

/// Limits, types and kinds are what they are.
pub proof fn law_plain_values_are_kept(
    memory: MemoryLimits,
    table: TableSummary,
    entry: TypeEntry,
    spec_type: SpecType,
)
    ensures
        memory.deep_view() == memory,
        table.deep_view() == table,
        entry.deep_view() == entry,
        spec_type.deep_view() == spec_type,
{
}

/// Imports and exports keep their names, what they are and where they point.
pub proof fn law_items_are_kept(import: ImportEntry, export: ExportEntry)
    ensures
        import.deep_view().module == import.module@,
        import.deep_view().name == import.name@,
        import.deep_view().kind == import.kind,
        export.deep_view().name == export.name@,
        export.deep_view().kind == export.kind,
        export.deep_view().index == export.index,
{
}

/// A section is of its own kind and keeps all its entries.
pub proof fn law_section_is_kept(section: Section)
    ensures
        match section {
            Section::ModuleStart => section.deep_view() == SectionView::ModuleStart,
            Section::Types(groups) => section.deep_view() == SectionView::Types(outcomes(groups@)),
            Section::Imports(items) => section.deep_view() == SectionView::Imports(outcomes(items@)),
            Section::Functions(items) => section.deep_view() == SectionView::Functions(
                outcomes(items@),
            ),
            Section::Tables(items) => section.deep_view() == SectionView::Tables(outcomes(items@)),
            Section::Memories(items) => section.deep_view() == SectionView::Memories(
                outcomes(items@),
            ),
            Section::Exports(items) => section.deep_view() == SectionView::Exports(outcomes(items@)),
            Section::Start(func) => section.deep_view() == SectionView::Start(func),
            Section::Custom { name, data } => section.deep_view() == (SectionView::Custom {
                name: name@,
                data: data@,
            }),
            Section::Other => section.deep_view() == SectionView::Other,
        },
{
}

/// A function keeps its name, its counts and each of its parameters in place.
pub proof fn law_function_is_kept(function: FunctionInfo)
    ensures
        function.deep_view().name == function.name@,
        function.deep_view().param_count == function.param_count,
        function.deep_view().result_count == function.result_count,
        function.deep_view().params.len() == function.params@.len(),
        forall|i: int|
            0 <= i < function.params@.len() ==> (#[trigger] function.deep_view().params[i]).name
                == function.params@[i].name@ && function.deep_view().params[i].ty_name
                == function.params@[i].ty_name@,
{
}

/// A parameter keeps its name and its type.
pub proof fn law_parameter_is_kept(param: ParamInfo)
    ensures
        param.deep_view().name == param.name@,
        param.deep_view().ty_name == param.ty_name@,
{
}

/// An entry of a contract spec keeps its name and each of its inputs in place.
pub proof fn law_spec_entry_is_kept(entry: SpecEntry)
    ensures
        entry is Other <==> entry.deep_view() is Other,
        entry matches SpecEntry::Function { name, inputs } ==> (
        entry.deep_view() matches SpecEntryView::Function { name: kept, inputs: kept_inputs } && {
            &&& kept == name@
            &&& kept_inputs.len() == inputs@.len()
            &&& forall|i: int|
                0 <= i < inputs@.len() ==> (#[trigger] kept_inputs[i]).0 == inputs@[i].0@
                    && kept_inputs[i].1 == inputs@[i].1
        }),
{
    if let SpecEntry::Function { name, inputs } = entry {
        assert forall|i: int| 0 <= i < inputs@.len() implies (#[trigger] inputs.deep_view()[i]).0
            == inputs@[i].0@ by {
            assert(inputs@[i].0.deep_view() =~= inputs@[i].0@);
        }
    }
}

/// A summary keeps each of its parts.
pub proof fn law_summary_is_kept(summary: WasmStructureSummary, host: ImportedHostFunction)
    ensures
        summary.deep_view().memories == summary.memories@,
        summary.deep_view().imported_host_functions == summary.imported_host_functions.deep_view(),
        summary.deep_view().imported_function_count == summary.imported_function_count,
        summary.deep_view().total_import_count == summary.total_import_count,
        summary.deep_view().exported_functions == summary.exported_functions.deep_view(),
        summary.deep_view().start_function == summary.start_function,
        summary.deep_view().tables == summary.tables@,
        host.deep_view().module == host.module@,
        host.deep_view().name == host.name@,
{
    assert(summary.memories.deep_view() =~= summary.memories@);
    assert(summary.tables.deep_view() =~= summary.tables@);
}

/// What is known of a binary keeps each of its parts.
pub proof fn law_info_is_kept(info: WasmInfo)
    ensures
        info.deep_view().bytes == info.bytes@,
        info.deep_view().functions == info.functions.deep_view(),
        info.deep_view().has_spec == info.has_spec,
        info.deep_view().structure == info.structure.deep_view(),
{
}

} // verus!
