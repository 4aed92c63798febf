//! What an enumeration of the exported functions gives, one entry at a time.
//!
//! Each law says what one more section, or one more entry of the last section,
//! adds: to the types and functions of the module at hand, to the functions that
//! are found, and to the errors. Together they fix the enumeration of every
//! binary.

use crate::error::AppErrorView;
use crate::functions::{
    declares_only_functions, enumeration, enumeration_error, functions_exported,
    only_function_types, FunctionView,
};
use crate::laws::structure::{has_no_entries, lemma_entry_behind};
use crate::model::{
    first_error, functions_in, gather, imported_type, imported_types, imports_in, last_module,
    lemma_filter_map_add, lemma_last_module_step, section_functions, section_imports,
    section_types, types_in, values, ExportView, ImportKind, ImportView, SectionView, Sections,
    TypeEntry,
};
use vstd::prelude::*;

verus! {

/// The types that the module at hand has declared.
pub open spec fn types_so_far(sections: Sections) -> Seq<TypeEntry> {
    types_in(last_module(sections))
}

/// The type indices of the functions that the module at hand has imported.
pub open spec fn imported_so_far(sections: Sections) -> Seq<u32> {
    imported_types(imports_in(last_module(sections)))
}

/// The type indices of the functions that the module at hand has defined.
pub open spec fn defined_so_far(sections: Sections) -> Seq<u32> {
    functions_in(last_module(sections))
}

/// A module begins without types and functions. Other sections without entries,
/// and all sections but those of types, imports and functions, declare none.
pub proof fn law_numbering_of_one_more_section(
    ahead: Sections,
    section: Result<SectionView, Seq<char>>,
)
    requires
        section matches Ok(section) ==> (section is Types || section is Imports || section
            is Functions ==> has_no_entries(section)),
    ensures
        ahead.len() == 0 ==> types_so_far(ahead).len() == 0 && imported_so_far(ahead).len() == 0
            && defined_so_far(ahead).len() == 0,
        section matches Ok(SectionView::ModuleStart) ==> types_so_far(ahead.push(section)).len()
            == 0 && imported_so_far(ahead.push(section)).len() == 0 && defined_so_far(
            ahead.push(section),
        ).len() == 0,
        !(section matches Ok(SectionView::ModuleStart)) ==> types_so_far(ahead.push(section))
            == types_so_far(ahead) && imported_so_far(ahead.push(section)) == imported_so_far(ahead)
            && defined_so_far(ahead.push(section)) == defined_so_far(ahead),
{
    reveal_with_fuel(gather, 2);
    assert(ahead.push(section).drop_last() =~= ahead);
    lemma_last_module_step(ahead.push(section));
    if !(section matches Ok(SectionView::ModuleStart)) {
        assert(types_so_far(ahead.push(section)) =~= types_so_far(ahead));
        assert(imports_in(last_module(ahead.push(section))) =~= imports_in(last_module(ahead)));
        assert(defined_so_far(ahead.push(section)) =~= defined_so_far(ahead));
    }
}

/// What one more section declares in the module at hand.
proof fn lemma_declared_behind(ahead: Sections, section: SectionView)
    requires
        !(section is ModuleStart),
    ensures
        types_so_far(ahead.push(Ok(section))) == types_so_far(ahead) + section_types(section),
        imported_so_far(ahead.push(Ok(section))) == imported_so_far(ahead) + imported_types(
            section_imports(section),
        ),
        defined_so_far(ahead.push(Ok(section))) == defined_so_far(ahead) + section_functions(
            section,
        ),
{
    assert(ahead.push(Ok(section)).drop_last() =~= ahead);
    lemma_last_module_step(ahead.push(Ok(section)));
    lemma_filter_map_add(imports_in(last_module(ahead)), section_imports(section), imported_type());
}

/// One more group of a type section declares its types behind those before, and
/// no function. A group that cannot be decoded declares none.
pub proof fn law_numbering_of_one_more_group(
    ahead: Sections,
    groups: Seq<Result<Seq<TypeEntry>, Seq<char>>>,
    group: Result<Seq<TypeEntry>, Seq<char>>,
)
    ensures
        types_so_far(ahead.push(Ok(SectionView::Types(groups.push(group))))) == match group {
            Ok(types) => types_so_far(ahead.push(Ok(SectionView::Types(groups)))) + types,
            Err(_) => types_so_far(ahead.push(Ok(SectionView::Types(groups)))),
        },
        imported_so_far(ahead.push(Ok(SectionView::Types(groups.push(group))))) == imported_so_far(
            ahead.push(Ok(SectionView::Types(groups))),
        ),
        defined_so_far(ahead.push(Ok(SectionView::Types(groups.push(group))))) == defined_so_far(
            ahead.push(Ok(SectionView::Types(groups))),
        ),
{
    lemma_entry_behind(groups, group);
    lemma_declared_behind(ahead, SectionView::Types(groups));
    lemma_declared_behind(ahead, SectionView::Types(groups.push(group)));
    if let Ok(types) = group {
        values(groups).lemma_flatten_push(types);
        assert(types_so_far(ahead.push(Ok(SectionView::Types(groups.push(group)))))
            =~= types_so_far(ahead.push(Ok(SectionView::Types(groups)))) + types);
    }
}

/// One more import adds its type index to the imported functions if it is a
/// function, and declares nothing else.
pub proof fn law_numbering_of_one_more_import(
    ahead: Sections,
    items: Seq<Result<ImportView, Seq<char>>>,
    item: Result<ImportView, Seq<char>>,
)
    ensures
        imported_so_far(ahead.push(Ok(SectionView::Imports(items.push(item))))) == match item {
            Ok(import) => match import.kind {
                ImportKind::Func(index) => imported_so_far(
                    ahead.push(Ok(SectionView::Imports(items))),
                ).push(index),
                ImportKind::FuncExact(index) => imported_so_far(
                    ahead.push(Ok(SectionView::Imports(items))),
                ).push(index),
                ImportKind::NotFunc => imported_so_far(ahead.push(Ok(SectionView::Imports(items)))),
            },
            Err(_) => imported_so_far(ahead.push(Ok(SectionView::Imports(items)))),
        },
        types_so_far(ahead.push(Ok(SectionView::Imports(items.push(item))))) == types_so_far(
            ahead.push(Ok(SectionView::Imports(items))),
        ),
        defined_so_far(ahead.push(Ok(SectionView::Imports(items.push(item))))) == defined_so_far(
            ahead.push(Ok(SectionView::Imports(items))),
        ),
{
    lemma_entry_behind(items, item);
    lemma_declared_behind(ahead, SectionView::Imports(items));
    lemma_declared_behind(ahead, SectionView::Imports(items.push(item)));
    if let Ok(import) = item {
        assert(values(items).push(import).drop_last() =~= values(items));
        let before = imported_so_far(ahead.push(Ok(SectionView::Imports(items))));
        assert(imported_so_far(ahead.push(Ok(SectionView::Imports(items.push(item)))))
            =~= match import.kind {
            ImportKind::Func(index) => before.push(index),
            ImportKind::FuncExact(index) => before.push(index),
            ImportKind::NotFunc => before,
        });
    }
}

/// One more entry of a function section adds its type index to the defined
/// functions, and declares nothing else.
pub proof fn law_numbering_of_one_more_function(
    ahead: Sections,
    items: Seq<Result<u32, Seq<char>>>,
    item: Result<u32, Seq<char>>,
)
    ensures
        defined_so_far(ahead.push(Ok(SectionView::Functions(items.push(item))))) == match item {
            Ok(index) => defined_so_far(ahead.push(Ok(SectionView::Functions(items)))).push(index),
            Err(_) => defined_so_far(ahead.push(Ok(SectionView::Functions(items)))),
        },
        types_so_far(ahead.push(Ok(SectionView::Functions(items.push(item))))) == types_so_far(
            ahead.push(Ok(SectionView::Functions(items))),
        ),
        imported_so_far(ahead.push(Ok(SectionView::Functions(items.push(item)))))
            == imported_so_far(ahead.push(Ok(SectionView::Functions(items)))),
{
    lemma_entry_behind(items, item);
    lemma_declared_behind(ahead, SectionView::Functions(items));
    lemma_declared_behind(ahead, SectionView::Functions(items.push(item)));
    if let Ok(index) = item {
        assert(defined_so_far(ahead.push(Ok(SectionView::Functions(items.push(item)))))
            =~= defined_so_far(ahead.push(Ok(SectionView::Functions(items)))).push(index));
    }
}

/// Only an export section with entries exports functions.
pub proof fn law_exports_of_one_more_section(
    ahead: Sections,
    section: Result<SectionView, Seq<char>>,
)
    requires
        section matches Ok(SectionView::Exports(items)) ==> items.len() == 0,
    ensures
        ahead.len() == 0 ==> functions_exported(ahead).len() == 0,
        functions_exported(ahead.push(section)) == functions_exported(ahead),
{
    assert(ahead.push(section).drop_last() =~= ahead);
    assert(functions_exported(ahead.push(section)) =~= functions_exported(ahead));
}

/// One more export that is a function is found behind the functions before, under
/// its name and without typed parameters. Its index numbers the functions of the
/// module, imported ones first. If the type of that function has `p` parameters
/// and `r` results, then these are its counts; without such a function or type
/// they are zero. Any other export adds nothing.
pub proof fn law_exports_of_one_more_export(
    ahead: Sections,
    items: Seq<Result<ExportView, Seq<char>>>,
    item: Result<ExportView, Seq<char>>,
)
    ensures
        ({
            let before = functions_exported(ahead.push(Ok(SectionView::Exports(items))));
            let after = functions_exported(ahead.push(Ok(SectionView::Exports(items.push(item)))));
            let types = types_so_far(ahead);
            let functions = imported_so_far(ahead) + defined_so_far(ahead);
            match item {
                Ok(export) => if export.kind is Func {
                    let index = export.index as int;
                    let found = after.last();
                    &&& after.len() == before.len() + 1
                    &&& after.drop_last() == before
                    &&& found.name == export.name
                    &&& found.params.len() == 0
                    &&& if index < functions.len() && functions[index] < types.len() {
                        types[functions[index] as int] matches TypeEntry::Func {
                            params: p,
                            results: r,
                        } ==> {
                            &&& p <= u32::MAX ==> found.param_count as int == p
                            &&& r <= u32::MAX ==> found.result_count as int == r
                            &&& found.param_count == p as u32
                            &&& found.result_count == r as u32
                        }
                    } else {
                        found.param_count == 0 && found.result_count == 0
                    }
                } else {
                    after == before
                },
                Err(_) => after == before,
            }
        }),
{
    let fewer = ahead.push(Ok(SectionView::Exports(items)));
    let more = ahead.push(Ok(SectionView::Exports(items.push(item))));
    assert(fewer.drop_last() =~= ahead);
    assert(more.drop_last() =~= ahead);
    lemma_entry_behind(items, item);
    if let Ok(export) = item {
        assert(values(items).push(export).drop_last() =~= values(items));
        if export.kind is Func {
            assert(functions_exported(more).drop_last() =~= functions_exported(fewer));
        } else {
            assert(functions_exported(more) =~= functions_exported(fewer));
        }
    }
}

/// An enumeration gives the functions that are exported. It fails with the first
/// error that is met, and where no function is exported.
pub proof fn law_enumeration_outcome(sections: Sections)
    ensures
        enumeration_error(sections) matches Some(message) ==> enumeration(sections) == Err::<
            Seq<FunctionView>,
            _,
        >(AppErrorView::WasmParse(message)),
        enumeration_error(sections) is None && functions_exported(sections).len() == 0
            ==> enumeration(sections) == Err::<Seq<FunctionView>, _>(
            AppErrorView::WasmParse("no exported functions found in WASM binary"@),
        ),
        enumeration_error(sections) is None && functions_exported(sections).len() > 0
            ==> enumeration(sections) == Ok::<_, AppErrorView>(functions_exported(sections)),
{
}

/// The first error stays. A section that the parser cannot make out is an error;
/// sections without entries, and those of imports, tables and memories, are not.
pub proof fn law_enumeration_error_of_one_more_section(
    ahead: Sections,
    section: Result<SectionView, Seq<char>>,
)
    requires
        section matches Ok(section) ==> (section is Types || section is Functions || section
            is Exports ==> has_no_entries(section)),
    ensures
        ahead.len() == 0 ==> enumeration_error(ahead) is None,
        enumeration_error(ahead.push(section)) == match enumeration_error(ahead) {
            Some(message) => Some(message),
            None => section.err(),
        },
{
    assert(ahead.push(section).drop_last() =~= ahead);
}

/// A group of types that cannot be decoded is an error, unless there was one
/// before.
pub proof fn law_enumeration_error_of_one_more_group(
    ahead: Sections,
    groups: Seq<Result<Seq<TypeEntry>, Seq<char>>>,
    group: Result<Seq<TypeEntry>, Seq<char>>,
)
    ensures
        enumeration_error(ahead.push(Ok(SectionView::Types(groups.push(group)))))
            == match enumeration_error(ahead.push(Ok(SectionView::Types(groups)))) {
            Some(message) => Some(message),
            None => group.err(),
        },
{
    assert(ahead.push(Ok(SectionView::Types(groups))).drop_last() =~= ahead);
    assert(ahead.push(Ok(SectionView::Types(groups.push(group)))).drop_last() =~= ahead);
    lemma_entry_behind(groups, group);
}

/// An entry of a function section that cannot be decoded is an error, unless
/// there was one before.
pub proof fn law_enumeration_error_of_one_more_function(
    ahead: Sections,
    items: Seq<Result<u32, Seq<char>>>,
    item: Result<u32, Seq<char>>,
)
    ensures
        enumeration_error(ahead.push(Ok(SectionView::Functions(items.push(item)))))
            == match enumeration_error(ahead.push(Ok(SectionView::Functions(items)))) {
            Some(message) => Some(message),
            None => item.err(),
        },
{
    assert(ahead.push(Ok(SectionView::Functions(items))).drop_last() =~= ahead);
    assert(ahead.push(Ok(SectionView::Functions(items.push(item)))).drop_last() =~= ahead);
    lemma_entry_behind(items, item);
}

/// An export that cannot be decoded is an error, unless there was one before.
pub proof fn law_enumeration_error_of_one_more_export(
    ahead: Sections,
    items: Seq<Result<ExportView, Seq<char>>>,
    item: Result<ExportView, Seq<char>>,
)
    ensures
        enumeration_error(ahead.push(Ok(SectionView::Exports(items.push(item)))))
            == match enumeration_error(ahead.push(Ok(SectionView::Exports(items)))) {
            Some(message) => Some(message),
            None => item.err(),
        },
{
    assert(ahead.push(Ok(SectionView::Exports(items))).drop_last() =~= ahead);
    assert(ahead.push(Ok(SectionView::Exports(items.push(item)))).drop_last() =~= ahead);
    lemma_entry_behind(items, item);
}

/// Only a type section with entries can hold a type that is not a function type.
pub proof fn law_refusal_of_one_more_section(
    ahead: Sections,
    section: Result<SectionView, Seq<char>>,
)
    requires
        section matches Ok(SectionView::Types(groups)) ==> groups.len() == 0,
    ensures
        ahead.len() == 0 ==> only_function_types(ahead),
        only_function_types(ahead.push(section)) == only_function_types(ahead),
{
    assert(ahead.push(section).drop_last() =~= ahead);
}

/// One more group of types is refused if and only if no error comes ahead of it
/// and one of its types is not a function type.
pub proof fn law_refusal_of_one_more_group(
    ahead: Sections,
    groups: Seq<Result<Seq<TypeEntry>, Seq<char>>>,
    group: Result<Seq<TypeEntry>, Seq<char>>,
)
    ensures
        only_function_types(ahead.push(Ok(SectionView::Types(groups.push(group))))) == (
        only_function_types(ahead.push(Ok(SectionView::Types(groups)))) && (enumeration_error(
            ahead.push(Ok(SectionView::Types(groups))),
        ) is None && group is Ok ==> forall|j: int|
            0 <= j < group->Ok_0.len() ==> (#[trigger] group->Ok_0[j]) is Func)),
{
    let more = groups.push(group);
    assert(ahead.push(Ok(SectionView::Types(groups))).drop_last() =~= ahead);
    assert(ahead.push(Ok(SectionView::Types(more))).drop_last() =~= ahead);
    let last = groups.len() as int;
    assert(more.take(last) =~= groups);
    assert forall|i: int| 0 <= i < last implies #[trigger] more.take(i) == groups.take(i) by {
        assert(more.take(i) =~= groups.take(i));
    }
    if declares_only_functions(more) {
        assert forall|i: int, j: int|
            0 <= i < groups.len() && first_error(groups.take(i)) is None && groups[i] is Ok && 0
                <= j < groups[i]->Ok_0.len() implies (#[trigger] groups[i]->Ok_0[j]) is Func by {
            assert(more.take(i) == groups.take(i));
            assert(more[i]->Ok_0[j] is Func);
        }
        if first_error(groups) is None && group is Ok {
            assert forall|j: int| 0 <= j < group->Ok_0.len() implies (
            #[trigger] group->Ok_0[j]) is Func by {
                assert(more[last]->Ok_0[j] is Func);
            }
        }
    }
    if declares_only_functions(groups) && (first_error(groups) is None && group is Ok ==> forall|
        j: int,
    |
        0 <= j < group->Ok_0.len() ==> (#[trigger] group->Ok_0[j]) is Func) {
        assert forall|i: int, j: int|
            0 <= i < more.len() && first_error(more.take(i)) is None && more[i] is Ok && 0 <= j
                < more[i]->Ok_0.len() implies (#[trigger] more[i]->Ok_0[j]) is Func by {
            if i < last {
                assert(more.take(i) == groups.take(i));
                assert(groups[i]->Ok_0[j] is Func);
            } else {
                assert(group->Ok_0[j] is Func);
            }
        }
    }
}

} // verus!
