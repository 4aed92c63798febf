//! Everything that is known of a binary.

use crate::contract_spec::{
    contract_spec, contract_spec_of_sections, has_contract_spec, is_undecodable,
    spec_functions_in, SpecFunctions, SpecFunctionsView,
};
use crate::error::{result_view, AppError, AppErrorView, AppResult};
use crate::functions::{
    declared_functions, enumerate_sections, enumeration, functions_exported,
    has_only_function_types, only_function_types, FunctionInfo, FunctionView, ParamInfo, ParamView,
};
use crate::laws::{
    law_arity_is_declared, law_readable_sections_fail_nothing, law_undecodable_spec_is_not_refused,
};
use crate::model::{is_ordered, is_readable, outcome, outcomes, push_value, Section, Sections};
use crate::reader::{check_binary, error_text, read_sections, validation, wasm_sections};
use crate::structure::{
    structure, structure_of, structure_of_sections, StructureView, WasmStructureSummary,
};
use vstd::prelude::*;

verus! {

/// Information extracted from a WASM file.
#[derive(Debug, Clone)]
pub struct WasmInfo {
    /// Raw WASM bytes.
    pub bytes: Vec<u8>,
    /// Names and signatures of exported (public) functions.
    pub functions: Vec<FunctionInfo>,
    /// Whether the WASM carries a Soroban contract spec (`contractspecv0`).
    pub has_spec: bool,
    /// Structural summary: memories, host imports, start function, tables.
    pub structure: WasmStructureSummary,
}

/// A [`WasmInfo`] in contracts.
#[verifier::ext_equal]
pub struct WasmInfoView {
    pub bytes: Seq<u8>,
    pub functions: Seq<FunctionView>,
    pub has_spec: bool,
    pub structure: StructureView,
}

impl DeepView for WasmInfo {
    type V = WasmInfoView;

    open spec fn deep_view(&self) -> WasmInfoView {
        WasmInfoView {
            bytes: self.bytes@,
            functions: self.functions.deep_view(),
            has_spec: self.has_spec,
            structure: self.structure.deep_view(),
        }
    }
}

/// The parameters of the first function of that name in a contract spec.
pub open spec fn params_named(spec: SpecFunctionsView, name: Seq<char>) -> Option<Seq<ParamView>>
    decreases spec.len(),
{
    if spec.len() == 0 {
        None
    } else {
        match params_named(spec.drop_last(), name) {
            Some(params) => Some(params),
            None => if spec.last().0 == name {
                Some(spec.last().1)
            } else {
                None
            },
        }
    }
}

/// A function with the parameters that a contract spec gives it.
pub open spec fn with_spec(function: FunctionView, spec: SpecFunctionsView) -> FunctionView {
    match params_named(spec, function.name) {
        Some(params) => FunctionView { param_count: params.len() as u32, params, ..function },
        None => function,
    }
}

/// Functions with the parameters that a contract spec gives them.
pub open spec fn all_with_spec(
    functions: Seq<FunctionView>,
    spec: SpecFunctionsView,
) -> Seq<FunctionView> {
    functions.map_values(|function: FunctionView| with_spec(function, spec))
}

/// The contract spec of a binary, and none where the parser fails.
pub open spec fn contract_spec_or_none(sections: Sections) -> (SpecFunctionsView, bool) {
    match contract_spec(sections) {
        Ok(found) => found,
        Err(_) => (Seq::empty(), false),
    }
}

/// What is known of a valid binary with these sections.
pub open spec fn analysis(bytes: Seq<u8>, sections: Sections) -> Result<
    WasmInfoView,
    AppErrorView,
> {
    match enumeration(sections) {
        Err(error) => Err(error),
        Ok(functions) => match structure(sections) {
            Err(error) => Err(error),
            Ok(structure) => {
                let (spec, has_spec) = contract_spec_or_none(sections);
                Ok(
                    WasmInfoView {
                        bytes,
                        functions: all_with_spec(functions, spec),
                        has_spec,
                        structure,
                    },
                )
            },
        },
    }
}

/// What the validator says of a binary, as a result of this library.
pub open spec fn validity(verdict: Result<(), Seq<char>>) -> Result<(), AppErrorView> {
    match verdict {
        Ok(_) => Ok(()),
        Err(message) => Err(AppErrorView::WasmValidation(message)),
    }
}

/// What is known of a binary: nothing but the verdict where it is not valid.
pub open spec fn inspection(bytes: Seq<u8>) -> Result<WasmInfoView, AppErrorView> {
    match validity(validation(bytes)) {
        Ok(_) => analysis(bytes, wasm_sections(bytes)),
        Err(error) => Err(error),
    }
}

/// What is known of a binary without errors of whose contract spec nothing can
/// be decoded.
pub open spec fn bare_info(bytes: Seq<u8>, sections: Sections) -> WasmInfoView {
    WasmInfoView {
        bytes,
        functions: functions_exported(sections),
        has_spec: has_contract_spec(sections),
        structure: structure_of(sections),
    }
}

/// The parameters of the first function are those of the whole spec.
proof fn lemma_params_named_prefix(spec: SpecFunctionsView, name: Seq<char>, n: int)
    requires
        0 <= n <= spec.len(),
    ensures
        params_named(spec.take(n), name) is Some ==> params_named(spec, name) == params_named(
            spec.take(n),
            name,
        ),
    decreases spec.len(),
{
    if n < spec.len() {
        assert(spec.drop_last().take(n) =~= spec.take(n));
        lemma_params_named_prefix(spec.drop_last(), name, n);
    } else {
        assert(spec.take(n) =~= spec);
    }
}

/// Copies a list of parameters.
fn copy_params(params: &Vec<ParamInfo>) -> (copy: Vec<ParamInfo>)
    ensures
        copy.deep_view() == params.deep_view(),
{
    let ghost all = params.deep_view();
    let mut copy: Vec<ParamInfo> = Vec::new();
    for i in 0..params.len()
        invariant
            all == params.deep_view(),
            copy.deep_view() =~= all.take(i as int),
    {
        push_value(
            &mut copy,
            ParamInfo { name: params[i].name.clone(), ty_name: params[i].ty_name.clone() },
        );
    }
    copy
}

/// Finds the first function of that name in a contract spec.
fn find_params(spec: &SpecFunctions, name: &String) -> (r: Option<Vec<ParamInfo>>)
    ensures
        r.deep_view() == params_named(spec.deep_view(), name@),
{
    let ghost all = spec.deep_view();
    for i in 0..spec.len()
        invariant
            all == spec.deep_view(),
            params_named(all.take(i as int), name@) is None,
    {
        assert(all.take(i + 1).drop_last() =~= all.take(i as int));
        assert(all[i as int] == spec[i as int].deep_view());
        if spec[i].0 == *name {
            proof {
                lemma_params_named_prefix(all, name@, i + 1);
            }
            return Some(copy_params(&spec[i].1));
        }
    }
    assert(all.take(all.len() as int) =~= all);
    None
}

/// Gives exported functions the typed parameters of a contract spec. A function
/// that the spec does not name stays as it is.
pub fn apply_contract_spec(functions: Vec<FunctionInfo>, spec: &SpecFunctions) -> (r: Vec<
    FunctionInfo,
>)
    ensures
        r.deep_view() == all_with_spec(functions.deep_view(), spec.deep_view()),
{
    let ghost all = functions.deep_view();
    let mut r: Vec<FunctionInfo> = Vec::new();
    for function in it: functions
        invariant
            it.seq() == functions@,
            all == functions.deep_view(),
            r.deep_view() =~= all_with_spec(all, spec.deep_view()).take(it.index() as int),
    {
        assert(all[it.index() as int] == function.deep_view());
        match find_params(spec, &function.name) {
            Some(params) => push_value(
                &mut r,
                FunctionInfo {
                    name: function.name,
                    param_count: params.len() as u32,
                    result_count: function.result_count,
                    params,
                },
            ),
            None => push_value(&mut r, function),
        }
    }
    r
}

/// Collects what is known of a valid binary from its sections.
pub fn analyze_sections(bytes: Vec<u8>, sections: &Vec<Result<Section, String>>) -> (r: AppResult<
    WasmInfo,
>)
    requires
        only_function_types(outcomes(sections@)),
    ensures
        result_view(r) == analysis(bytes@, outcomes(sections@)),
{
    let functions = match enumerate_sections(sections) {
        Ok(functions) => functions,
        Err(error) => return Err(error),
    };
    let (spec, has_spec) = match contract_spec_of_sections(sections) {
        Ok(found) => found,
        Err(_) => {
            let none: SpecFunctions = Vec::new();
            assert(none.deep_view() =~= Seq::empty());
            (none, false)
        },
    };
    let functions = apply_contract_spec(functions, &spec);
    match structure_of_sections(sections) {
        Ok(structure) => Ok(WasmInfo { bytes, functions, has_spec, structure }),
        Err(error) => Err(error),
    }
}

/// Turns the verdict of a validator into a result of this library.
pub fn validity_of(verdict: Result<(), String>) -> (r: AppResult<()>)
    ensures
        result_view(r) == validity(outcome(verdict)),
{
    match verdict {
        Ok(_) => Ok(()),
        Err(message) => Err(AppError::WasmValidation(message)),
    }
}

/// Basic structural validation of a WASM binary.
pub fn validate_wasm(bytes: &[u8]) -> (r: AppResult<()>)
    ensures
        result_view(r) == validity(validation(bytes@)),
        r is Ok ==> is_readable(wasm_sections(bytes@)),
{
    match check_binary(bytes) {
        Ok(_) => validity_of(Ok(())),
        Err(error) => validity_of(Err(error_text(&error))),
    }
}

/// What the laws say of the sections of a valid binary.
proof fn lemma_valid_binary(bytes: Seq<u8>, sections: Sections)
    requires
        is_readable(sections),
        is_ordered(sections),
    ensures
        analysis(bytes, sections) is Ok <==> functions_exported(sections).len() > 0,
        enumeration(sections) is Ok && is_undecodable(sections) ==> analysis(bytes, sections)
            == Ok::<_, AppErrorView>(bare_info(bytes, sections)),
        analysis(bytes, sections) matches Ok(info) ==> info.functions == all_with_spec(
            declared_functions(sections),
            spec_functions_in(sections),
        ),
{
    law_readable_sections_fail_nothing(sections);
    law_arity_is_declared(sections);
    if functions_exported(sections).len() > 0 && is_undecodable(sections) {
        law_undecodable_spec_is_not_refused(bytes, sections);
    }
}

/// Collects what is known of a compiled Soroban contract.
///
/// Performs basic structural validation, enumerates exported functions, and,
/// when the binary carries a Soroban contract spec (`contractspecv0` custom
/// section), decodes the typed parameter information from it. A spec of which
/// nothing can be decoded leaves the bare exports, and never makes a valid
/// binary fail.
///
/// Returns `None` for a valid binary that declares a type other than a function
/// type.
pub fn analyze_wasm(bytes: Vec<u8>) -> (r: Option<AppResult<WasmInfo>>)
    ensures
        r is Some <==> (validation(bytes@) is Ok ==> only_function_types(wasm_sections(bytes@))),
        r matches Some(found) ==> {
            &&& result_view(found) == inspection(bytes@)
            &&& validation(bytes@) is Ok ==> (found is Ok <==> functions_exported(
                wasm_sections(bytes@),
            ).len() > 0)
            &&& validation(bytes@) is Ok && enumeration(wasm_sections(bytes@)) is Ok
                && is_undecodable(wasm_sections(bytes@)) ==> result_view(found) == Ok::<
                _,
                AppErrorView,
            >(bare_info(bytes@, wasm_sections(bytes@)))
            &&& found matches Ok(info) ==> info.functions.deep_view() == all_with_spec(
                declared_functions(wasm_sections(bytes@)),
                spec_functions_in(wasm_sections(bytes@)),
            )
        },
{
    match validate_wasm(bytes.as_slice()) {
        Ok(_) => {
            let sections = read_sections(bytes.as_slice());
            proof {
                lemma_valid_binary(bytes@, wasm_sections(bytes@));
            }
            if has_only_function_types(&sections) {
                Some(analyze_sections(bytes, &sections))
            } else {
                None
            }
        },
        Err(error) => Some(Err(error)),
    }
}

} // verus!
