//! Decoding of a binary into its sections, on top of `wasmparser`.

use crate::model::{
    is_ordered, is_readable, outcomes, ExportEntry, ExportKind, ExportView, ImportEntry,
    ImportKind, ImportView, MemoryLimits, Section, SectionView, TableSummary, TypeEntry,
};
use vstd::prelude::*;
use vstd::slice::slice_to_vec;
use wasmparser::Payload::{
    CustomSection, ExportSection, FunctionSection, ImportSection, MemorySection, StartSection,
    TableSection, TypeSection, Version,
};
use wasmparser::{
    CompositeInnerType, Encoding, Export, ExternalKind, Imports, MemoryType, Parser, RecGroup,
    SectionLimited, SectionLimitedIntoIter, Table, TypeRef,
};

verus! {

/// The error of the parser and of the validator.
#[verifier::external_type_specification]
#[verifier::external_body]
pub struct ExError(wasmparser::Error);

/// A section whose entries are still encoded.
#[verifier::external_type_specification]
#[verifier::external_body]
#[verifier::reject_recursive_types(T)]
pub struct ExSectionLimited<'a, T>(SectionLimited<'a, T>);

/// The entries of a section that are still to be decoded.
#[verifier::external_type_specification]
#[verifier::external_body]
#[verifier::reject_recursive_types(T)]
pub struct ExSectionLimitedIntoIter<'a, T>(SectionLimitedIntoIter<'a, T>);

/// An entry of a type section.
#[verifier::external_type_specification]
#[verifier::external_body]
pub struct ExRecGroup(RecGroup);

/// An entry of an import section.
#[verifier::external_type_specification]
#[verifier::external_body]
pub struct ExImports<'a>(Imports<'a>);

/// An entry of an export section.
#[verifier::external_type_specification]
#[verifier::external_body]
pub struct ExExport<'a>(Export<'a>);

/// An entry of a memory section.
#[verifier::external_type_specification]
#[verifier::external_body]
pub struct ExMemoryType(MemoryType);

/// An entry of a table section.
#[verifier::external_type_specification]
#[verifier::external_body]
pub struct ExTable<'a>(Table<'a>);

/// The text that `Display` gives for an error of `wasmparser`.
pub uninterp spec fn error_message(error: wasmparser::Error) -> Seq<char>;

/// What `wasmparser::validate` says of a binary: nothing, or the text of its
/// error.
pub uninterp spec fn validation(bytes: Seq<u8>) -> Result<(), Seq<char>>;

/// What `Parser::parse_all` yields for a binary, with every section decoded
/// to its end.
pub uninterp spec fn wasm_sections(bytes: Seq<u8>) -> Seq<Result<SectionView, Seq<char>>>;

/// The groups of type definitions that are left in a type section.
pub uninterp spec fn types_left(section: SectionLimitedIntoIter<'_, RecGroup>) -> Seq<
    Result<Seq<TypeEntry>, Seq<char>>,
>;

/// The imports of an import section.
pub uninterp spec fn imports_of(section: SectionLimited<'_, Imports<'_>>) -> Seq<
    Result<ImportView, Seq<char>>,
>;

/// The type indices that are left in a function section.
pub uninterp spec fn functions_left(section: SectionLimitedIntoIter<'_, u32>) -> Seq<
    Result<u32, Seq<char>>,
>;

/// The tables that are left in a table section.
pub uninterp spec fn tables_left(section: SectionLimitedIntoIter<'_, Table<'_>>) -> Seq<
    Result<TableSummary, Seq<char>>,
>;

/// The memories that are left in a memory section.
pub uninterp spec fn memories_left(section: SectionLimitedIntoIter<'_, MemoryType>) -> Seq<
    Result<MemoryLimits, Seq<char>>,
>;

/// The exports that are left in an export section.
pub uninterp spec fn exports_left(section: SectionLimitedIntoIter<'_, Export<'_>>) -> Seq<
    Result<ExportView, Seq<char>>,
>;

/// A decoded value, or the text of the error in its place.
pub open spec fn parsed<T: DeepView>(r: Result<T, wasmparser::Error>) -> Result<T::V, Seq<char>> {
    match r {
        Ok(value) => Ok(value.deep_view()),
        Err(error) => Err(error_message(error)),
    }
}

/// `entry` is the first of the entries `before`, and `after` are those behind
/// it; where `before` is empty there is no entry.
pub open spec fn takes_first<T: DeepView>(
    before: Seq<Result<T::V, Seq<char>>>,
    entry: Option<Result<T, wasmparser::Error>>,
    after: Seq<Result<T::V, Seq<char>>>,
) -> bool {
    match entry {
        Some(entry) => {
            &&& before.len() > 0
            &&& parsed(entry) == before[0]
            &&& after == before.drop_first()
        },
        None => before.len() == 0 && after == before,
    }
}

/// A section as the parser hands it out.
enum EncodedSection<'a> {
    ModuleStart,
    Types(SectionLimitedIntoIter<'a, RecGroup>),
    Imports(SectionLimited<'a, Imports<'a>>),
    Functions(SectionLimitedIntoIter<'a, u32>),
    Tables(SectionLimitedIntoIter<'a, Table<'a>>),
    Memories(SectionLimitedIntoIter<'a, MemoryType>),
    Exports(SectionLimitedIntoIter<'a, Export<'a>>),
    Start(u32),
    Custom { name: &'a str, data: &'a [u8] },
    Other,
}

impl<'a> DeepView for EncodedSection<'a> {
    type V = SectionView;

    closed spec fn deep_view(&self) -> SectionView {
        match *self {
            EncodedSection::ModuleStart => SectionView::ModuleStart,
            EncodedSection::Types(section) => SectionView::Types(types_left(section)),
            EncodedSection::Imports(section) => SectionView::Imports(imports_of(section)),
            EncodedSection::Functions(section) => SectionView::Functions(functions_left(section)),
            EncodedSection::Tables(section) => SectionView::Tables(tables_left(section)),
            EncodedSection::Memories(section) => SectionView::Memories(memories_left(section)),
            EncodedSection::Exports(section) => SectionView::Exports(exports_left(section)),
            EncodedSection::Start(func) => SectionView::Start(func),
            EncodedSection::Custom { name, data } => SectionView::Custom {
                name: name@,
                data: data@,
            },
            EncodedSection::Other => SectionView::Other,
        }
    }
}

/// Calls `to_string` on an error of `wasmparser`. The contract gives the text a
/// name.
#[verifier::external_body]
pub(crate) fn error_text(error: &wasmparser::Error) -> (text: String)
    ensures
        text@ == error_message(*error),
{
    error.to_string()
}

/// Calls `wasmparser::validate` and drops the type information that it returns
/// for a valid binary. The contract gives the verdict a name: it rests on the
/// bytes alone. It says that the sections of a valid binary hold no error: the
/// validator goes through the payloads of `Parser::parse_all` itself, stops at
/// the first error among them, and reads each of these sections to its end. The
/// features that it reads them with decode what it accepts just as all features
/// do.
#[verifier::external_body]
pub(crate) fn check_binary(bytes: &[u8]) -> (verdict: Result<(), wasmparser::Error>)
    ensures
        parsed(verdict) == validation(bytes@),
        verdict is Ok ==> is_readable(wasm_sections(bytes@)),
{
    wasmparser::validate(bytes).map(|_types| ())
}

/// Calls `Parser::parse_all` from offset 0 and tells the payloads apart. The
/// contract gives the sequence of payloads a name: it rests on the bytes alone,
/// and so do the entries that each payload leads to. It says that the sections
/// of each module are in order: the parser fails on a section out of order, and
/// begins every module with a `Payload::Version`.
#[verifier::external_body]
fn encoded_sections(bytes: &[u8]) -> (sections: Vec<
    Result<EncodedSection<'_>, wasmparser::Error>,
>)
    ensures
        Seq::new(sections@.len(), |i: int| parsed(sections@[i])) == wasm_sections(bytes@),
        is_ordered(Seq::new(sections@.len(), |i: int| parsed(sections@[i]))),
{
    let name = |payload| match payload {
        Version { encoding: Encoding::Module, .. } => EncodedSection::ModuleStart,
        TypeSection(section) => EncodedSection::Types(section.into_iter()),
        ImportSection(section) => EncodedSection::Imports(section),
        FunctionSection(section) => EncodedSection::Functions(section.into_iter()),
        TableSection(section) => EncodedSection::Tables(section.into_iter()),
        MemorySection(section) => EncodedSection::Memories(section.into_iter()),
        ExportSection(section) => EncodedSection::Exports(section.into_iter()),
        StartSection { func, .. } => EncodedSection::Start(func),
        CustomSection(s) => EncodedSection::Custom { name: s.name(), data: s.data() },
        _ => EncodedSection::Other,
    };
    Parser::new(0).parse_all(bytes).map(|payload| payload.map(name)).collect()
}

/// Calls `next` on a type section and `RecGroup::types` on what it returns. The
/// contract says that the entries come in order, one for each call, and that a
/// function type is told by the number of its parameters and of its results.
#[verifier::external_body]
fn next_type_group(section: &mut SectionLimitedIntoIter<'_, RecGroup>) -> (group: Option<
    Result<Vec<TypeEntry>, wasmparser::Error>,
>)
    ensures
        takes_first(types_left(*old(section)), group, types_left(*final(section))),
{
    let arity = |inner: &CompositeInnerType| match inner {
        CompositeInnerType::Func(func) => TypeEntry::Func {
            params: func.params().len(),
            results: func.results().len(),
        },
        _ => TypeEntry::NotFunc,
    };
    let entries = |group: RecGroup| group.types().map(|ty| arity(&ty.composite_type.inner)).collect();
    section.next().map(|group| group.map(entries))
}

/// Calls `into_imports` on an import section. The contract gives the imports a
/// name.
#[verifier::external_body]
fn read_imports<'a>(section: SectionLimited<'a, Imports<'a>>) -> (entries: Vec<
    Result<ImportEntry, wasmparser::Error>,
>)
    ensures
        Seq::new(entries@.len(), |i: int| parsed(entries@[i])) == imports_of(section),
{
    let kind = |ty| match ty {
        TypeRef::Func(type_index) => ImportKind::Func(type_index),
        TypeRef::FuncExact(type_index) => ImportKind::FuncExact(type_index),
        _ => ImportKind::NotFunc,
    };
    let entry = |import: wasmparser::Import<'_>| ImportEntry {
        module: import.module.to_string(),
        name: import.name.to_string(),
        kind: kind(import.ty),
    };
    section.into_imports().map(|import| import.map(entry)).collect()
}

/// Calls `next` on a function section. The contract says that the type indices
/// come in order, one for each call.
#[verifier::external_body]
fn next_function(section: &mut SectionLimitedIntoIter<'_, u32>) -> (index: Option<
    Result<u32, wasmparser::Error>,
>)
    ensures
        takes_first(functions_left(*old(section)), index, functions_left(*final(section))),
{
    section.next()
}

/// Calls `next` on a table section. The contract says that the tables come in
/// order, one for each call.
#[verifier::external_body]
fn next_table<'a>(section: &mut SectionLimitedIntoIter<'a, Table<'a>>) -> (table: Option<
    Result<TableSummary, wasmparser::Error>,
>)
    ensures
        takes_first(tables_left(*old(section)), table, tables_left(*final(section))),
{
    let limits = |table: Table<'_>| TableSummary {
        initial: table.ty.initial,
        maximum: table.ty.maximum,
    };
    section.next().map(|table| table.map(limits))
}

/// Calls `next` on a memory section. The contract says that the memories come
/// in order, one for each call.
#[verifier::external_body]
fn next_memory(section: &mut SectionLimitedIntoIter<'_, MemoryType>) -> (memory: Option<
    Result<MemoryLimits, wasmparser::Error>,
>)
    ensures
        takes_first(memories_left(*old(section)), memory, memories_left(*final(section))),
{
    let limits = |memory: MemoryType| MemoryLimits {
        initial_pages: memory.initial,
        maximum_pages: memory.maximum,
    };
    section.next().map(|memory| memory.map(limits))
}

/// Calls `next` on an export section. The contract says that the exports come
/// in order, one for each call.
#[verifier::external_body]
fn next_export<'a>(section: &mut SectionLimitedIntoIter<'a, Export<'a>>) -> (export: Option<
    Result<ExportEntry, wasmparser::Error>,
>)
    ensures
        takes_first(exports_left(*old(section)), export, exports_left(*final(section))),
{
    let kind = |kind| match kind {
        ExternalKind::Func => ExportKind::Func,
        ExternalKind::FuncExact => ExportKind::FuncExact,
        _ => ExportKind::NotFunc,
    };
    let entry = |export: Export<'_>| ExportEntry {
        name: export.name.to_string(),
        kind: kind(export.kind),
        index: export.index,
    };
    section.next().map(|export| export.map(entry))
}

/// Decodes a type section to its end.
fn read_types(section: SectionLimitedIntoIter<'_, RecGroup>) -> (entries: Vec<
    Result<Vec<TypeEntry>, String>,
>)
    ensures
        outcomes(entries@) == types_left(section),
{
    let ghost all = types_left(section);
    let mut section = section;
    let mut entries: Vec<Result<Vec<TypeEntry>, String>> = Vec::new();
    loop
        invariant_except_break
            outcomes(entries@) + types_left(section) =~= all,
        ensures
            outcomes(entries@) =~= all,
        decreases types_left(section).len(),
    {
        match next_type_group(&mut section) {
            Some(Ok(entry)) => entries.push(Ok(entry)),
            Some(Err(error)) => entries.push(Err(error_text(&error))),
            None => break,
        }
    }
    entries
}

/// Decodes a function section to its end.
fn read_functions(section: SectionLimitedIntoIter<'_, u32>) -> (entries: Vec<
    Result<u32, String>,
>)
    ensures
        outcomes(entries@) == functions_left(section),
{
    let ghost all = functions_left(section);
    let mut section = section;
    let mut entries: Vec<Result<u32, String>> = Vec::new();
    loop
        invariant_except_break
            outcomes(entries@) + functions_left(section) =~= all,
        ensures
            outcomes(entries@) =~= all,
        decreases functions_left(section).len(),
    {
        match next_function(&mut section) {
            Some(Ok(entry)) => entries.push(Ok(entry)),
            Some(Err(error)) => entries.push(Err(error_text(&error))),
            None => break,
        }
    }
    entries
}

/// Decodes a table section to its end.
fn read_tables<'a>(section: SectionLimitedIntoIter<'a, Table<'a>>) -> (entries: Vec<
    Result<TableSummary, String>,
>)
    ensures
        outcomes(entries@) == tables_left(section),
{
    let ghost all = tables_left(section);
    let mut section = section;
    let mut entries: Vec<Result<TableSummary, String>> = Vec::new();
    loop
        invariant_except_break
            outcomes(entries@) + tables_left(section) =~= all,
        ensures
            outcomes(entries@) =~= all,
        decreases tables_left(section).len(),
    {
        match next_table(&mut section) {
            Some(Ok(entry)) => entries.push(Ok(entry)),
            Some(Err(error)) => entries.push(Err(error_text(&error))),
            None => break,
        }
    }
    entries
}

/// Decodes a memory section to its end.
fn read_memories(section: SectionLimitedIntoIter<'_, MemoryType>) -> (entries: Vec<
    Result<MemoryLimits, String>,
>)
    ensures
        outcomes(entries@) == memories_left(section),
{
    let ghost all = memories_left(section);
    let mut section = section;
    let mut entries: Vec<Result<MemoryLimits, String>> = Vec::new();
    loop
        invariant_except_break
            outcomes(entries@) + memories_left(section) =~= all,
        ensures
            outcomes(entries@) =~= all,
        decreases memories_left(section).len(),
    {
        match next_memory(&mut section) {
            Some(Ok(entry)) => entries.push(Ok(entry)),
            Some(Err(error)) => entries.push(Err(error_text(&error))),
            None => break,
        }
    }
    entries
}

/// Decodes an export section to its end.
fn read_exports<'a>(section: SectionLimitedIntoIter<'a, Export<'a>>) -> (entries: Vec<
    Result<ExportEntry, String>,
>)
    ensures
        outcomes(entries@) == exports_left(section),
{
    let ghost all = exports_left(section);
    let mut section = section;
    let mut entries: Vec<Result<ExportEntry, String>> = Vec::new();
    loop
        invariant_except_break
            outcomes(entries@) + exports_left(section) =~= all,
        ensures
            outcomes(entries@) =~= all,
        decreases exports_left(section).len(),
    {
        match next_export(&mut section) {
            Some(Ok(entry)) => entries.push(Ok(entry)),
            Some(Err(error)) => entries.push(Err(error_text(&error))),
            None => break,
        }
    }
    entries
}

/// Replaces each error by its text.
fn import_entries(entries: Vec<Result<ImportEntry, wasmparser::Error>>) -> (r: Vec<
    Result<ImportEntry, String>,
>)
    ensures
        outcomes(r@) == Seq::new(entries@.len(), |i: int| parsed(entries@[i])),
{
    let ghost all = Seq::new(entries@.len(), |i: int| parsed(entries@[i]));
    let mut r: Vec<Result<ImportEntry, String>> = Vec::new();
    for entry in it: entries
        invariant
            it.seq() == entries@,
            all == Seq::new(entries@.len(), |i: int| parsed(entries@[i])),
            outcomes(r@) =~= all.take(it.index() as int),
    {
        let ghost before = r@;
        match entry {
            Ok(entry) => r.push(Ok(entry)),
            Err(error) => r.push(Err(error_text(&error))),
        }
        assert(outcomes(r@) =~= outcomes(before).push(all[it.index() as int]));
    }
    r
}

/// Decodes a section to its end.
fn read_section(section: EncodedSection<'_>) -> (r: Section)
    ensures
        r.deep_view() == section.deep_view(),
        match section {
            EncodedSection::ModuleStart => r is ModuleStart,
            EncodedSection::Types(section) => r matches Section::Types(entries) && outcomes(
                entries@,
            ) == types_left(section),
            EncodedSection::Imports(section) => r matches Section::Imports(entries) && outcomes(
                entries@,
            ) == imports_of(section),
            EncodedSection::Functions(section) => r matches Section::Functions(entries) && outcomes(
                entries@,
            ) == functions_left(section),
            EncodedSection::Tables(section) => r matches Section::Tables(entries) && outcomes(
                entries@,
            ) == tables_left(section),
            EncodedSection::Memories(section) => r matches Section::Memories(entries) && outcomes(
                entries@,
            ) == memories_left(section),
            EncodedSection::Exports(section) => r matches Section::Exports(entries) && outcomes(
                entries@,
            ) == exports_left(section),
            EncodedSection::Start(func) => r matches Section::Start(index) && index == func,
            EncodedSection::Custom { name, data } => r matches Section::Custom {
                name: kept,
                data: bytes,
            } && kept@ == name@ && bytes@ == data@,
            EncodedSection::Other => r is Other,
        },
{
    match section {
        EncodedSection::ModuleStart => Section::ModuleStart,
        EncodedSection::Types(section) => Section::Types(read_types(section)),
        EncodedSection::Imports(section) => Section::Imports(import_entries(read_imports(section))),
        EncodedSection::Functions(section) => Section::Functions(read_functions(section)),
        EncodedSection::Tables(section) => Section::Tables(read_tables(section)),
        EncodedSection::Memories(section) => Section::Memories(read_memories(section)),
        EncodedSection::Exports(section) => Section::Exports(read_exports(section)),
        EncodedSection::Start(func) => Section::Start(func),
        EncodedSection::Custom { name, data } => Section::Custom {
            name: name.to_owned(),
            data: slice_to_vec(data),
        },
        EncodedSection::Other => Section::Other,
    }
}

/// Decodes a binary into its sections. Where the parser cannot go on, the last
/// element is the text of its error; where an entry of a section cannot be
/// decoded, the text of that error stands in the place of the entry. The modules
/// of a component come one after the other.
pub fn read_sections(bytes: &[u8]) -> (sections: Vec<Result<Section, String>>)
    ensures
        outcomes(sections@) == wasm_sections(bytes@),
        is_ordered(wasm_sections(bytes@)),
{
    let encoded = encoded_sections(bytes);
    let ghost all = wasm_sections(bytes@);
    let mut sections: Vec<Result<Section, String>> = Vec::new();
    for section in it: encoded
        invariant
            it.seq() == encoded@,
            all == Seq::new(encoded@.len(), |i: int| parsed(encoded@[i])),
            outcomes(sections@) =~= all.take(it.index() as int),
    {
        let ghost before = sections@;
        match section {
            Ok(section) => sections.push(Ok(read_section(section))),
            Err(error) => sections.push(Err(error_text(&error))),
        }
        assert(outcomes(sections@) =~= outcomes(before).push(all[it.index() as int]));
    }
    sections
}

} // verus!
