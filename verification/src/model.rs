//! What a WebAssembly binary holds, section by section, as plain values.

use vstd::prelude::*;

verus! {

/// Linear-memory limits declared in the WASM memory section, in pages.
#[derive(Debug, Clone, PartialEq, Eq)]
pub struct MemoryLimits {
    /// Initial linear-memory size in WASM pages (64 KiB each).
    pub initial_pages: u64,
    /// Optional maximum linear-memory size in WASM pages.
    pub maximum_pages: Option<u64>,
}

impl DeepView for MemoryLimits {
    type V = MemoryLimits;

    open spec fn deep_view(&self) -> MemoryLimits {
        *self
    }
}

/// Table limits declared in the WASM table section, in elements.
#[derive(Debug, Clone, PartialEq, Eq)]
pub struct TableSummary {
    /// Initial table size in elements.
    pub initial: u64,
    /// Optional maximum table size in elements.
    pub maximum: Option<u64>,
}

impl DeepView for TableSummary {
    type V = TableSummary;

    open spec fn deep_view(&self) -> TableSummary {
        *self
    }
}

/// A definition of the type section.
#[derive(Debug, Clone, Copy, PartialEq, Eq)]
pub enum TypeEntry {
    /// A function type, by the number of its parameters and of its results.
    Func { params: usize, results: usize },
    /// Any other type: an array, a structure, a continuation.
    NotFunc,
}

impl DeepView for TypeEntry {
    type V = TypeEntry;

    open spec fn deep_view(&self) -> TypeEntry {
        *self
    }
}

/// What an import is.
#[derive(Debug, Clone, Copy, PartialEq, Eq)]
pub enum ImportKind {
    /// A function, by the index of its type.
    Func(u32),
    /// A function that is imported under its exact type, by the index of that
    /// type.
    FuncExact(u32),
    /// A table, a memory, a global or a tag.
    NotFunc,
}

/// What an export is.
#[derive(Debug, Clone, Copy, PartialEq, Eq)]
pub enum ExportKind {
    /// A function.
    Func,
    /// A function under its exact type.
    FuncExact,
    /// A table, a memory, a global or a tag.
    NotFunc,
}

/// An entry of the import section.
#[derive(Debug, Clone, PartialEq, Eq)]
pub struct ImportEntry {
    /// Module that the item comes from.
    pub module: String,
    /// Name of the item in that module.
    pub name: String,
    /// What the item is.
    pub kind: ImportKind,
}

/// An [`ImportEntry`] in contracts.
pub struct ImportView {
    pub module: Seq<char>,
    pub name: Seq<char>,
    pub kind: ImportKind,
}

impl DeepView for ImportEntry {
    type V = ImportView;

    open spec fn deep_view(&self) -> ImportView {
        ImportView { module: self.module@, name: self.name@, kind: self.kind }
    }
}

/// An entry of the export section.
#[derive(Debug, Clone, PartialEq, Eq)]
pub struct ExportEntry {
    /// Name that the item is exported under.
    pub name: String,
    /// What the item is.
    pub kind: ExportKind,
    /// Index of the item among the items of its kind in the module, imported
    /// ones first.
    pub index: u32,
}

/// An [`ExportEntry`] in contracts.
pub struct ExportView {
    pub name: Seq<char>,
    pub kind: ExportKind,
    pub index: u32,
}

impl DeepView for ExportEntry {
    type V = ExportView;

    open spec fn deep_view(&self) -> ExportView {
        ExportView { name: self.name@, kind: self.kind, index: self.index }
    }
}

/// A section of a binary. The entries of a section are decoded one after the
/// other, so each of them may be an error message in the place of an entry.
#[derive(Debug, Clone, PartialEq, Eq)]
pub enum Section {
    /// Header of a module. What follows up to the next header belongs to that
    /// module, and is numbered on its own. A component may hold many modules.
    ModuleStart,
    /// Type section: groups of type definitions.
    Types(Vec<Result<Vec<TypeEntry>, String>>),
    /// Import section.
    Imports(Vec<Result<ImportEntry, String>>),
    /// Function section: the type index of each defined function.
    Functions(Vec<Result<u32, String>>),
    /// Table section.
    Tables(Vec<Result<TableSummary, String>>),
    /// Memory section.
    Memories(Vec<Result<MemoryLimits, String>>),
    /// Export section.
    Exports(Vec<Result<ExportEntry, String>>),
    /// Start section: the index of the start function.
    Start(u32),
    /// A custom section.
    Custom {
        /// Name of the section.
        name: String,
        /// Contents of the section.
        data: Vec<u8>,
    },
    /// Anything else.
    Other,
}

/// A [`Section`] in contracts.
pub enum SectionView {
    ModuleStart,
    Types(Seq<Result<Seq<TypeEntry>, Seq<char>>>),
    Imports(Seq<Result<ImportView, Seq<char>>>),
    Functions(Seq<Result<u32, Seq<char>>>),
    Tables(Seq<Result<TableSummary, Seq<char>>>),
    Memories(Seq<Result<MemoryLimits, Seq<char>>>),
    Exports(Seq<Result<ExportView, Seq<char>>>),
    Start(u32),
    Custom { name: Seq<char>, data: Seq<u8> },
    Other,
}

/// A value, or the message of the error in its place, in contracts.
pub open spec fn outcome<T: DeepView>(r: Result<T, String>) -> Result<T::V, Seq<char>> {
    match r {
        Ok(value) => Ok(value.deep_view()),
        Err(message) => Err(message@),
    }
}

/// The [`outcome`] of each element.
pub open spec fn outcomes<T: DeepView>(s: Seq<Result<T, String>>) -> Seq<
    Result<T::V, Seq<char>>,
> {
    Seq::new(s.len(), |i: int| outcome(s[i]))
}

impl DeepView for Section {
    type V = SectionView;

    open spec fn deep_view(&self) -> SectionView {
        match self {
            Section::ModuleStart => SectionView::ModuleStart,
            Section::Types(groups) => SectionView::Types(outcomes(groups@)),
            Section::Imports(items) => SectionView::Imports(outcomes(items@)),
            Section::Functions(items) => SectionView::Functions(outcomes(items@)),
            Section::Tables(items) => SectionView::Tables(outcomes(items@)),
            Section::Memories(items) => SectionView::Memories(outcomes(items@)),
            Section::Exports(items) => SectionView::Exports(outcomes(items@)),
            Section::Start(func) => SectionView::Start(*func),
            Section::Custom { name, data } => SectionView::Custom { name: name@, data: data@ },
            Section::Other => SectionView::Other,
        }
    }
}

/// A binary in contracts: its sections in order, with the message of the
/// parser's error in the place of a section that it could not make out.
pub type Sections = Seq<Result<SectionView, Seq<char>>>;

/// The message of the first error.
pub open spec fn first_error<T>(items: Seq<Result<T, Seq<char>>>) -> Option<Seq<char>>
    decreases items.len(),
{
    if items.len() == 0 {
        None
    } else {
        match first_error(items.drop_last()) {
            Some(message) => Some(message),
            None => items.last().err(),
        }
    }
}

/// The section is the header of a module.
pub open spec fn is_module_start(section: Result<SectionView, Seq<char>>) -> bool {
    section is Ok && section->Ok_0 is ModuleStart
}

/// Where the last module begins.
pub open spec fn module_start(sections: Sections) -> nat
    decreases sections.len(),
{
    if sections.len() == 0 {
        0
    } else if is_module_start(sections.last()) {
        (sections.len() - 1) as nat
    } else {
        module_start(sections.drop_last())
    }
}

/// The last module, from its header on.
pub open spec fn last_module(sections: Sections) -> Sections {
    sections.skip(module_start(sections) as int)
}

/// The section says which functions there are or what their types are.
pub open spec fn declares_functions(section: Result<SectionView, Seq<char>>) -> bool {
    section is Ok && (section->Ok_0 is Types || section->Ok_0 is Imports || section->Ok_0
        is Functions)
}

/// The section says what is exported.
pub open spec fn declares_exports(section: Result<SectionView, Seq<char>>) -> bool {
    section is Ok && section->Ok_0 is Exports
}

/// In each module the type, import and function sections come ahead of the
/// export section.
pub open spec fn is_ordered(sections: Sections) -> bool {
    forall|i: int, j: int|
        #![trigger sections[i], sections[j]]
        0 <= i < j < sections.len() && declares_exports(sections[i]) && declares_functions(
            sections[j],
        ) ==> exists|k: int| i < k < j && is_module_start(#[trigger] sections[k])
}

/// The section could be made out, and every entry of it decoded.
pub open spec fn is_readable_section(section: Result<SectionView, Seq<char>>) -> bool {
    match section {
        Ok(SectionView::Types(groups)) => first_error(groups) is None,
        Ok(SectionView::Imports(items)) => first_error(items) is None,
        Ok(SectionView::Functions(items)) => first_error(items) is None,
        Ok(SectionView::Tables(items)) => first_error(items) is None,
        Ok(SectionView::Memories(items)) => first_error(items) is None,
        Ok(SectionView::Exports(items)) => first_error(items) is None,
        Ok(_) => true,
        Err(_) => false,
    }
}

/// Every section could be made out, and every entry decoded.
pub open spec fn is_readable(sections: Sections) -> bool {
    forall|i: int| 0 <= i < sections.len() ==> is_readable_section(#[trigger] sections[i])
}

/// The values among the outcomes, in order.
pub open spec fn values<T>(items: Seq<Result<T, Seq<char>>>) -> Seq<T> {
    items.filter_map(|item: Result<T, Seq<char>>| item.ok())
}

/// What `entries` finds in the sections, in order.
pub open spec fn gather<T>(
    sections: Sections,
    entries: spec_fn(SectionView) -> Seq<T>,
) -> Seq<T>
    decreases sections.len(),
{
    if sections.len() == 0 {
        Seq::empty()
    } else {
        let rest = gather(sections.drop_last(), entries);
        match sections.last() {
            Ok(section) => rest + entries(section),
            Err(_) => rest,
        }
    }
}

/// The types that a section declares.
pub open spec fn section_types(section: SectionView) -> Seq<TypeEntry> {
    match section {
        SectionView::Types(groups) => values(groups).flatten(),
        _ => Seq::empty(),
    }
}

/// The imports that a section declares.
pub open spec fn section_imports(section: SectionView) -> Seq<ImportView> {
    match section {
        SectionView::Imports(items) => values(items),
        _ => Seq::empty(),
    }
}

/// The type indices of the functions that a section declares.
pub open spec fn section_functions(section: SectionView) -> Seq<u32> {
    match section {
        SectionView::Functions(items) => values(items),
        _ => Seq::empty(),
    }
}

/// The tables that a section declares.
pub open spec fn section_tables(section: SectionView) -> Seq<TableSummary> {
    match section {
        SectionView::Tables(items) => values(items),
        _ => Seq::empty(),
    }
}

/// The memories that a section declares.
pub open spec fn section_memories(section: SectionView) -> Seq<MemoryLimits> {
    match section {
        SectionView::Memories(items) => values(items),
        _ => Seq::empty(),
    }
}

/// The exports that a section declares.
pub open spec fn section_exports(section: SectionView) -> Seq<ExportView> {
    match section {
        SectionView::Exports(items) => values(items),
        _ => Seq::empty(),
    }
}

/// The types that the sections declare.
pub open spec fn types_in(sections: Sections) -> Seq<TypeEntry> {
    gather(sections, |section: SectionView| section_types(section))
}

/// The imports that the sections declare.
pub open spec fn imports_in(sections: Sections) -> Seq<ImportView> {
    gather(sections, |section: SectionView| section_imports(section))
}

/// The type indices of the functions that the sections define.
pub open spec fn functions_in(sections: Sections) -> Seq<u32> {
    gather(sections, |section: SectionView| section_functions(section))
}

/// The index of the type of an import that is a function.
pub open spec fn imported_type() -> spec_fn(ImportView) -> Option<u32> {
    |import: ImportView|
        match import.kind {
            ImportKind::Func(type_index) => Some(type_index),
            ImportKind::FuncExact(type_index) => Some(type_index),
            ImportKind::NotFunc => None,
        }
}

/// The type indices of the functions among the imports.
pub open spec fn imported_types(imports: Seq<ImportView>) -> Seq<u32> {
    imports.filter_map(imported_type())
}

/// The type indices of all functions of a module in the order in which they are
/// numbered: those that the sections import, and then those that they define.
pub open spec fn function_types_in(sections: Sections) -> Seq<u32> {
    imported_types(imports_in(sections)) + functions_in(sections)
}

/// The tables that the sections declare.
pub open spec fn tables_in(sections: Sections) -> Seq<TableSummary> {
    gather(sections, |section: SectionView| section_tables(section))
}

/// The memories that the sections declare.
pub open spec fn memories_in(sections: Sections) -> Seq<MemoryLimits> {
    gather(sections, |section: SectionView| section_memories(section))
}

/// The exports that the sections declare.
pub open spec fn exports_in(sections: Sections) -> Seq<ExportView> {
    gather(sections, |section: SectionView| section_exports(section))
}

/// The name of an export that is a function.
pub open spec fn function_name() -> spec_fn(ExportView) -> Option<Seq<char>> {
    |export: ExportView|
        if export.kind is Func {
            Some(export.name)
        } else {
            None
        }
}

/// The names of the functions among the exports.
pub open spec fn function_names(exports: Seq<ExportView>) -> Seq<Seq<char>> {
    exports.filter_map(function_name())
}

/// The error of a prefix is the error of the whole.
pub(crate) proof fn lemma_first_error_prefix<T>(items: Seq<Result<T, Seq<char>>>, n: int)
    requires
        0 <= n <= items.len(),
    ensures
        first_error(items.take(n)) is Some ==> first_error(items) == first_error(items.take(n)),
    decreases items.len(),
{
    if n < items.len() {
        assert(items.drop_last().take(n) =~= items.take(n));
        lemma_first_error_prefix(items.drop_last(), n);
    } else {
        assert(items.take(n) =~= items);
    }
}

/// The last module begins within the sections, and holds no further header.
pub(crate) proof fn lemma_module_start(sections: Sections)
    ensures
        sections.len() > 0 ==> module_start(sections) < sections.len(),
        sections.len() == 0 ==> module_start(sections) == 0,
        forall|k: int|
            module_start(sections) < k < sections.len() ==> !is_module_start(
                #[trigger] sections[k],
            ),
    decreases sections.len(),
{
    if sections.len() > 0 && !is_module_start(sections.last()) {
        let ahead = sections.drop_last();
        lemma_module_start(ahead);
        assert forall|k: int| module_start(sections) < k < sections.len() implies !is_module_start(
            #[trigger] sections[k],
        ) by {
            if k < ahead.len() {
                assert(!is_module_start(ahead[k]));
            }
        }
    }
}

/// One more section begins a module, or belongs to the last one.
pub(crate) proof fn lemma_last_module_step(sections: Sections)
    requires
        sections.len() > 0,
    ensures
        last_module(sections).len() > 0,
        last_module(sections).last() == sections.last(),
        last_module(sections).drop_last() == if is_module_start(sections.last()) {
            Seq::empty()
        } else {
            last_module(sections.drop_last())
        },
{
    lemma_module_start(sections);
    lemma_module_start(sections.drop_last());
    assert(last_module(sections).drop_last() =~= if is_module_start(sections.last()) {
        Seq::empty()
    } else {
        last_module(sections.drop_last())
    });
}

/// One more outcome adds its value, if it has one.
pub(crate) proof fn lemma_values_step<T>(items: Seq<Result<T, Seq<char>>>, i: int)
    requires
        0 <= i < items.len(),
    ensures
        values(items.take(i + 1)) == match items[i] {
            Ok(value) => values(items.take(i)).push(value),
            Err(_) => values(items.take(i)),
        },
{
    assert(items.take(i + 1).drop_last() =~= items.take(i));
    assert(values(items.take(i + 1)) =~= match items[i] {
        Ok(value) => values(items.take(i)).push(value),
        Err(_) => values(items.take(i)),
    });
}

/// Selecting from a concatenation selects from both parts.
pub(crate) proof fn lemma_filter_map_add<A, B>(a: Seq<A>, b: Seq<A>, f: spec_fn(A) -> Option<B>)
    ensures
        (a + b).filter_map(f) == a.filter_map(f) + b.filter_map(f),
    decreases b.len(),
{
    if b.len() == 0 {
        assert(a + b =~= a);
        assert(a.filter_map(f) + b.filter_map(f) =~= a.filter_map(f));
    } else {
        assert((a + b).drop_last() =~= a + b.drop_last());
        lemma_filter_map_add(a, b.drop_last(), f);
        assert((a + b).filter_map(f) =~= a.filter_map(f) + b.filter_map(f));
    }
}

/// Appends a value to a list.
pub(crate) fn push_value<T: DeepView>(list: &mut Vec<T>, value: T)
    ensures
        final(list)@ == old(list)@.push(value),
        final(list).deep_view() == old(list).deep_view().push(value.deep_view()),
{
    let ghost before = list.deep_view();
    list.push(value);
    assert(list.deep_view() =~= before.push(value.deep_view()));
}

/// The message of the first error among the entries of a section.
pub(crate) fn find_error<T: DeepView>(items: &Vec<Result<T, String>>) -> (r: Option<String>)
    ensures
        r.deep_view() == first_error(outcomes(items@)),
{
    let ghost all = outcomes(items@);
    for i in 0..items.len()
        invariant
            all == outcomes(items@),
            first_error(all.take(i as int)) is None,
    {
        assert(all.take(i + 1).drop_last() =~= all.take(i as int));
        if let Err(message) = &items[i] {
            proof {
                lemma_first_error_prefix(all, i + 1);
            }
            return Some(message.clone());
        }
    }
    assert(all.take(all.len() as int) =~= all);
    None
}

} // verus!
