//! Exported functions of a binary.

use crate::error::{result_view, AppError, AppErrorView, AppResult};
use crate::laws::law_arity_is_declared;
use crate::model::{
    exports_in, find_error, first_error, function_types_in, functions_in, gather, imported_type,
    imported_types, imports_in, last_module, lemma_filter_map_add,
    lemma_first_error_prefix, lemma_last_module_step, lemma_values_step, module_start, outcomes,
    push_value, section_imports, types_in, values, ExportEntry, ExportKind, ExportView,
    ImportEntry, ImportKind, Section, SectionView, Sections, TypeEntry,
};
use crate::reader::{read_sections, wasm_sections};
use crate::structure::imported_functions;
use vstd::pervasive::unreached;
use vstd::prelude::*;

verus! {

/// Information about a typed parameter from the contract spec.
#[derive(Debug, Clone, PartialEq, Eq)]
pub struct ParamInfo {
    /// Parameter name (from the contract spec).
    pub name: String,
    /// Human-readable Soroban type, e.g. `I64`, `Symbol`, `String`.
    pub ty_name: String,
}

/// A [`ParamInfo`] in contracts.
pub struct ParamView {
    pub name: Seq<char>,
    pub ty_name: Seq<char>,
}

impl DeepView for ParamInfo {
    type V = ParamView;

    open spec fn deep_view(&self) -> ParamView {
        ParamView { name: self.name@, ty_name: self.ty_name@ }
    }
}

/// Information about an exported function.
#[derive(Debug, Clone)]
pub struct FunctionInfo {
    /// Name of the exported function.
    pub name: String,
    /// Number of parameters this function takes.
    pub param_count: u32,
    /// Number of return values.
    pub result_count: u32,
    /// Typed parameters from the contract spec, if the WASM has one.
    pub params: Vec<ParamInfo>,
}

/// A [`FunctionInfo`] in contracts.
#[verifier::ext_equal]
pub struct FunctionView {
    pub name: Seq<char>,
    pub param_count: u32,
    pub result_count: u32,
    pub params: Seq<ParamView>,
}

impl DeepView for FunctionInfo {
    type V = FunctionView;

    open spec fn deep_view(&self) -> FunctionView {
        FunctionView {
            name: self.name@,
            param_count: self.param_count,
            result_count: self.result_count,
            params: self.params.deep_view(),
        }
    }
}

/// The first error among the entries of a section that fails an enumeration. An
/// import that cannot be decoded does not: it is passed over.
pub open spec fn enumerated_section_error(section: SectionView) -> Option<Seq<char>> {
    match section {
        SectionView::Types(groups) => first_error(groups),
        SectionView::Functions(items) => first_error(items),
        SectionView::Exports(items) => first_error(items),
        _ => None,
    }
}

/// The first error that fails an enumeration.
pub open spec fn enumeration_error(sections: Sections) -> Option<Seq<char>>
    decreases sections.len(),
{
    if sections.len() == 0 {
        None
    } else {
        match enumeration_error(sections.drop_last()) {
            Some(message) => Some(message),
            None => match sections.last() {
                Ok(section) => enumerated_section_error(section),
                Err(message) => Some(message),
            },
        }
    }
}

/// All types of a type section up to its first error are function types.
pub open spec fn declares_only_functions(groups: Seq<Result<Seq<TypeEntry>, Seq<char>>>) -> bool {
    forall|i: int, j: int|
        0 <= i < groups.len() && first_error(groups.take(i)) is None && groups[i] is Ok && 0 <= j
            < groups[i]->Ok_0.len() ==> (#[trigger] groups[i]->Ok_0[j]) is Func
}

/// An enumeration meets no type but function types before it meets an error.
pub open spec fn only_function_types(sections: Sections) -> bool
    decreases sections.len(),
{
    sections.len() == 0 || {
        &&& only_function_types(sections.drop_last())
        &&& enumeration_error(sections.drop_last()) is None ==> match sections.last() {
            Ok(SectionView::Types(groups)) => declares_only_functions(groups),
            _ => true,
        }
    }
}

/// The number of parameters and of results of a function type.
pub open spec fn arity(entry: TypeEntry) -> (u32, u32) {
    match entry {
        TypeEntry::Func { params, results } => (params as u32, results as u32),
        TypeEntry::NotFunc => (0, 0),
    }
}

/// The [`arity`] of each type.
pub open spec fn arities(types: Seq<TypeEntry>) -> Seq<(u32, u32)> {
    types.map_values(|entry: TypeEntry| arity(entry))
}

/// The [`arity`] of the function at `index`, where `functions` gives the type
/// index of each function, and `(0, 0)` where there is no such function or its
/// type is not declared.
pub open spec fn arity_at(types: Seq<TypeEntry>, functions: Seq<u32>, index: u32) -> (u32, u32) {
    if index < functions.len() && functions[index as int] < types.len() {
        arity(types[functions[index as int] as int])
    } else {
        (0, 0)
    }
}

/// What is known of an export that is a function.
pub open spec fn exported_function(types: Seq<TypeEntry>, functions: Seq<u32>) -> spec_fn(
    ExportView,
) -> Option<FunctionView> {
    |export: ExportView|
        if export.kind is Func {
            Some(
                FunctionView {
                    name: export.name,
                    param_count: arity_at(types, functions, export.index).0,
                    result_count: arity_at(types, functions, export.index).1,
                    params: Seq::empty(),
                },
            )
        } else {
            None
        }
}

/// The functions among the exports.
pub open spec fn exported_functions(
    exports: Seq<ExportView>,
    types: Seq<TypeEntry>,
    functions: Seq<u32>,
) -> Seq<FunctionView> {
    exports.filter_map(exported_function(types, functions))
}

/// The functions that the sections export, each with the arity that the type,
/// import and function sections ahead of its export section give it in the same
/// module.
pub open spec fn functions_exported(sections: Sections) -> Seq<FunctionView>
    decreases sections.len(),
{
    if sections.len() == 0 {
        Seq::empty()
    } else {
        let ahead = sections.drop_last();
        match sections.last() {
            Ok(SectionView::Exports(items)) => functions_exported(ahead) + exported_functions(
                values(items),
                types_in(last_module(ahead)),
                function_types_in(last_module(ahead)),
            ),
            _ => functions_exported(ahead),
        }
    }
}

/// The number of parameters and of results of a type, and `(0, 0)` where it is
/// not declared.
pub open spec fn type_arity(types: Seq<TypeEntry>, type_index: u32) -> (u32, u32) {
    if type_index < types.len() {
        arity(types[type_index as int])
    } else {
        (0, 0)
    }
}

/// The number of parameters and of results that a module declares for the
/// function at `index`: imported functions come first, each with the type that
/// it is imported under, and defined functions behind them.
pub open spec fn declared_arity(module: Sections, index: u32) -> (u32, u32) {
    let imported = imported_functions(imports_in(module));
    let defined = functions_in(module);
    if index < imported.len() {
        match imported[index as int].kind {
            ImportKind::Func(type_index) => type_arity(types_in(module), type_index),
            ImportKind::FuncExact(type_index) => type_arity(types_in(module), type_index),
            ImportKind::NotFunc => (0, 0),
        }
    } else if index - imported.len() < defined.len() {
        type_arity(types_in(module), defined[index - imported.len()])
    } else {
        (0, 0)
    }
}

/// An export that is a function, with what the module declares of it.
pub open spec fn declared_function(module: Sections) -> spec_fn(ExportView) -> Option<FunctionView> {
    |export: ExportView|
        if export.kind is Func {
            Some(
                FunctionView {
                    name: export.name,
                    param_count: declared_arity(module, export.index).0,
                    result_count: declared_arity(module, export.index).1,
                    params: Seq::empty(),
                },
            )
        } else {
            None
        }
}

/// The functions that the modules of a binary export, one module after the
/// other, each with what its module as a whole declares of it.
pub open spec fn declared_functions(sections: Sections) -> Seq<FunctionView>
    decreases sections.len(),
{
    let start = module_start(sections) as int;
    if 0 <= start < sections.len() {
        declared_functions(sections.take(start)) + exports_in(last_module(sections)).filter_map(
            declared_function(last_module(sections)),
        )
    } else {
        Seq::empty()
    }
}

/// The exported functions of a binary, or the first error in it. A binary that
/// exports no function is in error too.
pub open spec fn enumeration(sections: Sections) -> Result<Seq<FunctionView>, AppErrorView> {
    match enumeration_error(sections) {
        Some(message) => Err(AppErrorView::WasmParse(message)),
        None => if functions_exported(sections).len() == 0 {
            Err(AppErrorView::WasmParse("no exported functions found in WASM binary"@))
        } else {
            Ok(functions_exported(sections))
        },
    }
}

/// The error of a prefix is the error of the whole.
proof fn lemma_enumeration_error_prefix(sections: Sections, n: int)
    requires
        0 <= n <= sections.len(),
    ensures
        enumeration_error(sections.take(n)) is Some ==> enumeration_error(sections)
            == enumeration_error(sections.take(n)),
    decreases sections.len(),
{
    if n < sections.len() {
        assert(sections.drop_last().take(n) =~= sections.take(n));
        lemma_enumeration_error_prefix(sections.drop_last(), n);
    } else {
        assert(sections.take(n) =~= sections);
    }
}

/// What holds of the types of a binary holds of those of a prefix.
proof fn lemma_only_function_types_prefix(sections: Sections, n: int)
    requires
        0 <= n <= sections.len(),
        only_function_types(sections),
    ensures
        only_function_types(sections.take(n)),
    decreases sections.len(),
{
    if n < sections.len() {
        assert(sections.drop_last().take(n) =~= sections.take(n));
        lemma_only_function_types_prefix(sections.drop_last(), n);
    } else {
        assert(sections.take(n) =~= sections);
    }
}

/// Appends the arities of the types of a type section.
fn add_types(types: &mut Vec<(u32, u32)>, groups: &Vec<Result<Vec<TypeEntry>, String>>)
    requires
        first_error(outcomes(groups@)) is None,
        declares_only_functions(outcomes(groups@)),
    ensures
        final(types)@ == old(types)@ + arities(values(outcomes(groups@)).flatten()),
{
    let ghost all = outcomes(groups@);
    for i in 0..groups.len()
        invariant
            all == outcomes(groups@),
            first_error(all) is None,
            declares_only_functions(all),
            types@ =~= old(types)@ + arities(values(all.take(i as int)).flatten()),
    {
        proof {
            lemma_values_step(all, i as int);
            lemma_first_error_prefix(all, i as int);
        }
        if let Ok(group) = &groups[i] {
            let ghost before = types@;
            let ghost entries = group.deep_view();
            assert(all[i as int]->Ok_0 == entries);
            for j in 0..group.len()
                invariant
                    entries == group.deep_view(),
                    forall|k: int| 0 <= k < entries.len() ==> entries[k] is Func,
                    types@ =~= before + arities(entries.take(j as int)),
            {
                assert(entries[j as int] == group[j as int]);
                match group[j] {
                    TypeEntry::Func { params, results } => types.push(
                        (params as u32, results as u32),
                    ),
                    TypeEntry::NotFunc => unreached(),
                }
            }
            proof {
                values(all.take(i as int)).lemma_flatten_push(entries);
                assert(entries.take(entries.len() as int) =~= entries);
            }
        }
    }
    assert(all.take(all.len() as int) =~= all);
}

/// Appends the type indices of a function section.
fn add_functions(functions: &mut Vec<u32>, items: &Vec<Result<u32, String>>)
    ensures
        final(functions)@ == old(functions)@ + values(outcomes(items@)),
{
    let ghost all = outcomes(items@);
    for i in 0..items.len()
        invariant
            all == outcomes(items@),
            functions@ =~= old(functions)@ + values(all.take(i as int)),
    {
        proof {
            lemma_values_step(all, i as int);
        }
        if let Ok(index) = &items[i] {
            functions.push(*index);
        }
    }
    assert(all.take(all.len() as int) =~= all);
}

/// Appends the type indices of the functions of an import section.
fn add_imported_types(imported: &mut Vec<u32>, items: &Vec<Result<ImportEntry, String>>)
    ensures
        final(imported)@ == old(imported)@ + imported_types(values(outcomes(items@))),
{
    let ghost all = outcomes(items@);
    for i in 0..items.len()
        invariant
            all == outcomes(items@),
            imported@ =~= old(imported)@ + imported_types(values(all.take(i as int))),
    {
        proof {
            lemma_values_step(all, i as int);
        }
        if let Ok(import) = &items[i] {
            assert(values(all.take(i + 1)).drop_last() =~= values(all.take(i as int)));
            match import.kind {
                ImportKind::Func(type_index) => imported.push(type_index),
                ImportKind::FuncExact(type_index) => imported.push(type_index),
                ImportKind::NotFunc => {},
            }
        }
    }
    assert(all.take(all.len() as int) =~= all);
}

/// The arity of the function at `index`, where imported functions come first
/// and defined functions behind them.
fn find_arity(
    types: &Vec<(u32, u32)>,
    imported: &Vec<u32>,
    functions: &Vec<u32>,
    index: u32,
    Ghost(entries): Ghost<Seq<TypeEntry>>,
) -> (r: (u32, u32))
    requires
        types@ == arities(entries),
    ensures
        r == arity_at(entries, imported@ + functions@, index),
{
    let index = index as usize;
    let type_index = if index < imported.len() {
        imported[index]
    } else if index - imported.len() < functions.len() {
        functions[index - imported.len()]
    } else {
        return (0, 0);
    };
    if (type_index as usize) < types.len() {
        types[type_index as usize]
    } else {
        (0, 0)
    }
}

/// Appends the functions of an export section.
fn add_exports(
    found: &mut Vec<FunctionInfo>,
    items: &Vec<Result<ExportEntry, String>>,
    types: &Vec<(u32, u32)>,
    imported: &Vec<u32>,
    functions: &Vec<u32>,
    Ghost(entries): Ghost<Seq<TypeEntry>>,
)
    requires
        types@ == arities(entries),
    ensures
        final(found).deep_view() == old(found).deep_view() + exported_functions(
            values(outcomes(items@)),
            entries,
            imported@ + functions@,
        ),
{
    let ghost all = outcomes(items@);
    let ghost before = found.deep_view();
    for i in 0..items.len()
        invariant
            all == outcomes(items@),
            types@ == arities(entries),
            found.deep_view() =~= before + exported_functions(
                values(all.take(i as int)),
                entries,
                imported@ + functions@,
            ),
    {
        proof {
            lemma_values_step(all, i as int);
        }
        if let Ok(export) = &items[i] {
            assert(values(all.take(i + 1)).drop_last() =~= values(all.take(i as int)));
            if let ExportKind::Func = export.kind {
                let (param_count, result_count) = find_arity(
                    types,
                    imported,
                    functions,
                    export.index,
                    Ghost(entries),
                );
                let params: Vec<ParamInfo> = Vec::new();
                let function = FunctionInfo {
                    name: export.name.clone(),
                    param_count,
                    result_count,
                    params,
                };
                assert(function.params.deep_view() =~= Seq::empty());
                push_value(found, function);
            }
        }
    }
    assert(all.take(all.len() as int) =~= all);
}

/// Enumerates the exported functions of the sections of a binary.
pub fn enumerate_sections(sections: &Vec<Result<Section, String>>) -> (r: AppResult<
    Vec<FunctionInfo>,
>)
    requires
        only_function_types(outcomes(sections@)),
    ensures
        result_view(r) == enumeration(outcomes(sections@)),
{
    let ghost all = outcomes(sections@);
    let mut found: Vec<FunctionInfo> = Vec::new();
    let mut imported: Vec<u32> = Vec::new();
    let mut functions: Vec<u32> = Vec::new();
    let mut types: Vec<(u32, u32)> = Vec::new();
    for i in 0..sections.len()
        invariant
            all == outcomes(sections@),
            only_function_types(all),
            enumeration_error(all.take(i as int)) is None,
            found.deep_view() == functions_exported(all.take(i as int)),
            imported@ == imported_types(imports_in(last_module(all.take(i as int)))),
            functions@ == functions_in(last_module(all.take(i as int))),
            types@ == arities(types_in(last_module(all.take(i as int)))),
    {
        let ghost ahead = all.take(i as int);
        proof {
            assert(all.take(i + 1).drop_last() =~= ahead);
            lemma_enumeration_error_prefix(all, i + 1);
            lemma_only_function_types_prefix(all, i + 1);
            lemma_last_module_step(all.take(i + 1));
            if let Ok(section) = all[i as int] {
                lemma_filter_map_add(
                    imports_in(last_module(ahead)),
                    section_imports(section),
                    imported_type(),
                );
            }
        }
        match &sections[i] {
            Ok(section) => {
                let error = match section {
                    Section::Types(groups) => find_error(groups),
                    Section::Functions(items) => find_error(items),
                    Section::Exports(items) => find_error(items),
                    _ => None,
                };
                if let Some(message) = error {
                    return Err(AppError::WasmParse(message));
                }
                match section {
                    Section::ModuleStart => {
                        imported = Vec::new();
                        functions = Vec::new();
                        types = Vec::new();
                        proof {
                            reveal_with_fuel(gather, 2);
                        }
                        assert(types@ =~= arities(types_in(last_module(all.take(i + 1)))));
                    },
                    Section::Types(groups) => {
                        add_types(&mut types, groups);
                        assert(types@ =~= arities(types_in(last_module(all.take(i + 1)))));
                    },
                    Section::Imports(items) => add_imported_types(&mut imported, items),
                    Section::Functions(items) => add_functions(&mut functions, items),
                    Section::Exports(items) => add_exports(
                        &mut found,
                        items,
                        &types,
                        &imported,
                        &functions,
                        Ghost(types_in(last_module(ahead))),
                    ),
                    _ => {},
                }
            },
            Err(message) => return Err(AppError::WasmParse(message.clone())),
        }
    }
    assert(all.take(all.len() as int) =~= all);
    if found.is_empty() {
        return Err(
            AppError::WasmParse("no exported functions found in WASM binary".to_owned()),
        );
    }
    Ok(found)
}

/// Once an enumeration has met an error, it meets no further type.
proof fn lemma_only_function_types_behind_error(sections: Sections, n: int)
    requires
        0 <= n <= sections.len(),
        only_function_types(sections.take(n)),
        enumeration_error(sections.take(n)) is Some,
    ensures
        only_function_types(sections),
    decreases sections.len(),
{
    if n < sections.len() {
        assert(sections.drop_last().take(n) =~= sections.take(n));
        lemma_only_function_types_behind_error(sections.drop_last(), n);
        lemma_enumeration_error_prefix(sections.drop_last(), n);
    } else {
        assert(sections.take(n) =~= sections);
    }
}

/// Whether all types of a type section up to its first error are function
/// types.
fn groups_hold_only_functions(groups: &Vec<Result<Vec<TypeEntry>, String>>) -> (r: bool)
    ensures
        r == declares_only_functions(outcomes(groups@)),
{
    let ghost all = outcomes(groups@);
    for i in 0..groups.len()
        invariant
            all == outcomes(groups@),
            first_error(all.take(i as int)) is None,
            forall|k: int, j: int|
                0 <= k < i && 0 <= j < all[k]->Ok_0.len() ==> (#[trigger] all[k]->Ok_0[j]) is Func,
    {
        assert(all.take(i + 1).drop_last() =~= all.take(i as int));
        match &groups[i] {
            Ok(group) => {
                let ghost entries = group.deep_view();
                assert(all[i as int] == Ok::<Seq<TypeEntry>, Seq<char>>(entries));
                for j in 0..group.len()
                    invariant
                        entries == group.deep_view(),
                        i < all.len(),
                        all[i as int] == Ok::<Seq<TypeEntry>, Seq<char>>(entries),
                        first_error(all.take(i as int)) is None,
                        all == outcomes(groups@),
                        forall|k: int| 0 <= k < j ==> (#[trigger] entries[k]) is Func,
                {
                    assert(entries[j as int] == group[j as int]);
                    if let TypeEntry::NotFunc = group[j] {
                        assert(!(all[i as int]->Ok_0[j as int] is Func));
                        return false;
                    }
                }
            },
            Err(_) => {
                assert forall|k: int| i < k <= all.len() implies first_error(
                    #[trigger] all.take(k),
                ) is Some by {
                    assert(all.take(k).take(i + 1) =~= all.take(i + 1));
                    lemma_first_error_prefix(all.take(k), i + 1);
                }
                return true;
            },
        }
    }
    true
}

/// Whether an enumeration of the sections meets no type but function types
/// before it meets an error.
pub fn has_only_function_types(sections: &Vec<Result<Section, String>>) -> (r: bool)
    ensures
        r == only_function_types(outcomes(sections@)),
{
    let ghost all = outcomes(sections@);
    for i in 0..sections.len()
        invariant
            all == outcomes(sections@),
            only_function_types(all.take(i as int)),
            enumeration_error(all.take(i as int)) is None,
    {
        assert(all.take(i + 1).drop_last() =~= all.take(i as int));
        if let Ok(Section::Types(groups)) = &sections[i] {
            if !groups_hold_only_functions(groups) {
                proof {
                    if only_function_types(all) {
                        lemma_only_function_types_prefix(all, i + 1);
                    }
                }
                return false;
            }
        }
        let failed = match &sections[i] {
            Ok(Section::Types(groups)) => find_error(groups).is_some(),
            Ok(Section::Functions(items)) => find_error(items).is_some(),
            Ok(Section::Exports(items)) => find_error(items).is_some(),
            Ok(_) => false,
            Err(_) => true,
        };
        if failed {
            proof {
                lemma_only_function_types_behind_error(all, i + 1);
            }
            return true;
        }
    }
    assert(all.take(all.len() as int) =~= all);
    true
}

/// Enumerates exported function names from a validated WASM binary, with the
/// number of parameters and results that its module declares for each.
///
/// The binary must not declare a type other than a function type ahead of the
/// first error; [`checked_enumerate_functions`] tests that.
pub fn enumerate_functions(bytes: &[u8]) -> (r: AppResult<Vec<FunctionInfo>>)
    requires
        only_function_types(wasm_sections(bytes@)),
    ensures
        result_view(r) == enumeration(wasm_sections(bytes@)),
        r matches Ok(found) ==> found.deep_view() == declared_functions(wasm_sections(bytes@)),
{
    let sections = read_sections(bytes);
    proof {
        law_arity_is_declared(wasm_sections(bytes@));
    }
    enumerate_sections(&sections)
}

/// Enumerates exported functions as [`enumerate_functions`] does, and returns
/// `None` for a binary that declares a type other than a function type.
pub fn checked_enumerate_functions(bytes: &[u8]) -> (r: Option<AppResult<Vec<FunctionInfo>>>)
    ensures
        r is Some <==> only_function_types(wasm_sections(bytes@)),
        r matches Some(found) ==> result_view(found) == enumeration(wasm_sections(bytes@)),
        r matches Some(Ok(found)) ==> found.deep_view() == declared_functions(
            wasm_sections(bytes@),
        ),
{
    if has_only_function_types(&read_sections(bytes)) {
        Some(enumerate_functions(bytes))
    } else {
        None
    }
}

/// A parameter with its type.
pub open spec fn param_text(param: ParamView) -> Seq<char> {
    param.name + ": "@ + param.ty_name
}

/// Parameters with their types, separated by commas.
pub open spec fn params_text(params: Seq<ParamView>) -> Seq<char>
    decreases params.len(),
{
    if params.len() == 0 {
        Seq::empty()
    } else if params.len() == 1 {
        param_text(params[0])
    } else {
        params_text(params.drop_last()) + ", "@ + param_text(params.last())
    }
}

/// A function with its signature, or its name alone where no parameter is known.
pub open spec fn function_text(function: FunctionView) -> Seq<char> {
    if function.params.len() == 0 {
        function.name
    } else {
        function.name + "("@ + params_text(function.params) + ")"@
    }
}

/// Formats a function with its spec-derived signature, e.g. `increment(x: I64)`.
#[must_use]
pub fn format_function(fn_info: &FunctionInfo) -> (text: String)
    ensures
        text@ == function_text(fn_info.deep_view()),
{
    if fn_info.params.is_empty() {
        return fn_info.name.clone();
    }
    let ghost all = fn_info.params.deep_view();
    let mut params = String::new();
    for i in 0..fn_info.params.len()
        invariant
            all == fn_info.params.deep_view(),
            params@ == params_text(all.take(i as int)),
    {
        let param = &fn_info.params[i];
        let mut text = param.name.clone();
        text.append(": ");
        text.append(param.ty_name.as_str());
        assert(all.take(i + 1).drop_last() =~= all.take(i as int));
        if i > 0 {
            params.append(", ");
        }
        params.append(text.as_str());
        assert(params@ =~= params_text(all.take(i + 1)));
    }
    assert(all.take(all.len() as int) =~= all);
    let mut text = fn_info.name.clone();
    text.append("(");
    text.append(params.as_str());
    text.append(")");
    text
}

} // verus!
