//! What an analysis puts together, in terms of the parts that it is made of.

use crate::contract_spec::{contract_spec, SpecFunctionsView};
use crate::error::AppErrorView;
use crate::functions::{enumeration, FunctionView};
use crate::info::{all_with_spec, analysis, inspection, validity, with_spec, WasmInfoView};
use crate::laws::{
    law_analysis_hides_no_error, law_named_function_takes_first_entry, law_unnamed_function_stays,
};
use crate::model::Sections;
use crate::reader::{validation, wasm_sections};
use crate::structure::structure;
use vstd::prelude::*;

verus! {

/// Whatever the contract spec describes, the structure that an analysis gives is
/// the structure that the binary is summarised to on its own, in all its parts;
/// the bytes are those that were given; and it has a contract spec if and only
/// if reading the spec on its own says so.
pub proof fn law_analysis_keeps_its_parts(bytes: Seq<u8>, sections: Sections)
    ensures
        analysis(bytes, sections) matches Ok(info) ==> {
            &&& structure(sections) == Ok::<_, AppErrorView>(info.structure)
            &&& info.bytes == bytes
            &&& contract_spec(sections) matches Ok((_, has_spec)) && info.has_spec == has_spec
        },
{
    if analysis(bytes, sections) is Ok {
        law_analysis_hides_no_error(bytes, sections);
    }
}

/// An analysis fails with the error of the enumeration, and else with the error
/// of the summary; it succeeds where both do.
pub proof fn law_analysis_errors(bytes: Seq<u8>, sections: Sections)
    ensures
        enumeration(sections) matches Err(error) ==> analysis(bytes, sections) == Err::<
            WasmInfoView,
            _,
        >(error),
        enumeration(sections) is Ok ==> (structure(sections) matches Err(error) ==> analysis(
            bytes,
            sections,
        ) == Err::<WasmInfoView, _>(error)),
        enumeration(sections) is Ok && structure(sections) is Ok ==> analysis(
            bytes,
            sections,
        ) is Ok,
{
}

/// A contract spec is applied to each function in its place. The function takes
/// its parameters from the first entry of its name and counts them, and keeps
/// its name and the number of its results; without such an entry it stays as it
/// is.
pub proof fn law_spec_is_applied_in_place(
    functions: Seq<FunctionView>,
    spec: SpecFunctionsView,
    i: int,
)
    requires
        0 <= i < functions.len(),
    ensures
        all_with_spec(functions, spec).len() == functions.len(),
        all_with_spec(functions, spec)[i].name == functions[i].name,
        all_with_spec(functions, spec)[i].result_count == functions[i].result_count,
        forall|k: int|
            0 <= k < spec.len() && (#[trigger] spec[k]).0 == functions[i].name && (forall|j: int|
                0 <= j < k ==> (#[trigger] spec[j]).0 != functions[i].name) ==> {
                &&& all_with_spec(functions, spec)[i].params == spec[k].1
                &&& all_with_spec(functions, spec)[i].param_count == spec[k].1.len() as u32
                &&& spec[k].1.len() <= u32::MAX ==> all_with_spec(
                    functions,
                    spec,
                )[i].param_count as int == spec[k].1.len()
            },
        (forall|k: int| 0 <= k < spec.len() ==> (#[trigger] spec[k]).0 != functions[i].name)
            ==> all_with_spec(functions, spec)[i] == functions[i],
{
    assert(all_with_spec(functions, spec)[i] == with_spec(functions[i], spec));
    assert forall|k: int|
        0 <= k < spec.len() && (#[trigger] spec[k]).0 == functions[i].name && (forall|j: int|
            0 <= j < k ==> (#[trigger] spec[j]).0 != functions[i].name) implies {
        &&& all_with_spec(functions, spec)[i].params == spec[k].1
        &&& all_with_spec(functions, spec)[i].param_count == spec[k].1.len() as u32
        &&& spec[k].1.len() <= u32::MAX ==> all_with_spec(functions, spec)[i].param_count as int
            == spec[k].1.len()
    } by {
        law_named_function_takes_first_entry(functions[i], spec, k);
    }
    if forall|k: int| 0 <= k < spec.len() ==> (#[trigger] spec[k]).0 != functions[i].name {
        law_unnamed_function_stays(functions[i], spec);
    }
}

/// The functions of an analysis are those that are enumerated, each in its place
/// with what the contract spec, read on its own, says of it: the parameters of
/// the first entry of its name and their number, or nothing where no entry has
/// its name.
pub proof fn law_analysis_merges_the_spec(bytes: Seq<u8>, sections: Sections, i: int)
    ensures
        analysis(bytes, sections) matches Ok(info) ==> {
            let functions = enumeration(sections)->Ok_0;
            let spec = contract_spec(sections)->Ok_0.0;
            &&& enumeration(sections) is Ok
            &&& contract_spec(sections) is Ok
            &&& info.functions.len() == functions.len()
            &&& 0 <= i < functions.len() ==> {
                &&& info.functions[i].name == functions[i].name
                &&& info.functions[i].result_count == functions[i].result_count
                &&& forall|k: int|
                    0 <= k < spec.len() && (#[trigger] spec[k]).0 == functions[i].name && (forall|
                        j: int,
                    |
                        0 <= j < k ==> (#[trigger] spec[j]).0 != functions[i].name) ==> {
                        &&& info.functions[i].params == spec[k].1
                        &&& info.functions[i].param_count == spec[k].1.len() as u32
                    }
                &&& (forall|k: int|
                    0 <= k < spec.len() ==> (#[trigger] spec[k]).0 != functions[i].name)
                    ==> info.functions[i] == functions[i]
            }
        },
{
    if analysis(bytes, sections) is Ok {
        law_analysis_hides_no_error(bytes, sections);
        let functions = enumeration(sections)->Ok_0;
        let spec = contract_spec(sections)->Ok_0.0;
        if 0 <= i < functions.len() {
            law_spec_is_applied_in_place(functions, spec, i);
        }
    }
}

/// A binary that is not valid is answered with the words of the validator, and
/// nothing else is said of it. A valid one is analysed.
pub proof fn law_inspection_starts_with_the_verdict(bytes: Seq<u8>)
    ensures
        validation(bytes) matches Err(message) ==> inspection(bytes) == Err::<WasmInfoView, _>(
            AppErrorView::WasmValidation(message),
        ),
        validation(bytes) is Ok ==> inspection(bytes) == analysis(bytes, wasm_sections(bytes)),
{
}

/// The words of the validator are kept, as the error of a validation.
pub proof fn law_verdict_is_kept(verdict: Result<(), Seq<char>>)
    ensures
        verdict is Ok <==> validity(verdict) is Ok,
        verdict matches Err(message) ==> validity(verdict) == Err::<(), _>(
            AppErrorView::WasmValidation(message),
        ),
{
}

} // verus!
