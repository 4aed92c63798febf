//! The contract spec that a Soroban contract carries in its binary.

use crate::error::{result_view, AppError, AppErrorView, AppResult};
use crate::functions::{ParamInfo, ParamView};
use crate::model::{
    first_error, gather, lemma_first_error_prefix, outcomes, push_value, Section, SectionView,
    Sections,
};
use crate::reader::{read_sections, wasm_sections};
use crate::text::{lossy_string, lossy_text};
use std::io::Cursor;
use stellar_xdr::{Limited, Limits, ReadXdr, ScSpecEntry};
use vstd::prelude::*;
use vstd::slice::slice_subrange;

verus! {

/// Name of the custom section that holds a contract spec.
pub const CONTRACT_SPEC_SECTION: &'static str = "contractspecv0";

/// Type of a value in a contract spec. What a type is made of is left out.
#[derive(Debug, Clone, Copy, PartialEq, Eq)]
pub enum SpecType {
    Val,
    Bool,
    Void,
    Error,
    U32,
    I32,
    U64,
    I64,
    Timepoint,
    Duration,
    U128,
    I128,
    U256,
    I256,
    Bytes,
    String,
    Symbol,
    Address,
    MuxedAddress,
    OptionOf,
    ResultOf,
    VecOf,
    MapOf,
    TupleOf,
    BytesN,
    Udt,
}

impl DeepView for SpecType {
    type V = SpecType;

    open spec fn deep_view(&self) -> SpecType {
        *self
    }
}

/// The human-readable name of a type.
pub open spec fn type_label(t: SpecType) -> Seq<char> {
    match t {
        SpecType::Val => "val"@,
        SpecType::Bool => "bool"@,
        SpecType::Void => "void"@,
        SpecType::Error => "error"@,
        SpecType::U32 => "u32"@,
        SpecType::I32 => "i32"@,
        SpecType::U64 => "u64"@,
        SpecType::I64 => "I64"@,
        SpecType::Timepoint => "timepoint"@,
        SpecType::Duration => "duration"@,
        SpecType::U128 => "u128"@,
        SpecType::I128 => "i128"@,
        SpecType::U256 => "u256"@,
        SpecType::I256 => "i256"@,
        SpecType::Bytes => "bytes"@,
        SpecType::String => "String"@,
        SpecType::Symbol => "Symbol"@,
        SpecType::Address => "address"@,
        SpecType::MuxedAddress => "muxed_address"@,
        SpecType::OptionOf => "option"@,
        SpecType::ResultOf => "result"@,
        SpecType::VecOf => "vec"@,
        SpecType::MapOf => "map"@,
        SpecType::TupleOf => "tuple"@,
        SpecType::BytesN => "bytes_n"@,
        SpecType::Udt => "udt"@,
    }
}

/// Human-readable name for a [`SpecType`].
#[must_use]
pub fn spec_type_name(t: &SpecType) -> (name: &'static str)
    ensures
        name@ == type_label(*t),
{
    match t {
        SpecType::Val => "val",
        SpecType::Bool => "bool",
        SpecType::Void => "void",
        SpecType::Error => "error",
        SpecType::U32 => "u32",
        SpecType::I32 => "i32",
        SpecType::U64 => "u64",
        SpecType::I64 => "I64",
        SpecType::Timepoint => "timepoint",
        SpecType::Duration => "duration",
        SpecType::U128 => "u128",
        SpecType::I128 => "i128",
        SpecType::U256 => "u256",
        SpecType::I256 => "i256",
        SpecType::Bytes => "bytes",
        SpecType::String => "String",
        SpecType::Symbol => "Symbol",
        SpecType::Address => "address",
        SpecType::MuxedAddress => "muxed_address",
        SpecType::OptionOf => "option",
        SpecType::ResultOf => "result",
        SpecType::VecOf => "vec",
        SpecType::MapOf => "map",
        SpecType::TupleOf => "tuple",
        SpecType::BytesN => "bytes_n",
        SpecType::Udt => "udt",
    }
}

/// The type that a code of the XDR enumeration `SCSpecType` stands for.
pub open spec fn type_of_code(code: i32) -> Option<SpecType> {
    match code {
        0 => Some(SpecType::Val),
        1 => Some(SpecType::Bool),
        2 => Some(SpecType::Void),
        3 => Some(SpecType::Error),
        4 => Some(SpecType::U32),
        5 => Some(SpecType::I32),
        6 => Some(SpecType::U64),
        7 => Some(SpecType::I64),
        8 => Some(SpecType::Timepoint),
        9 => Some(SpecType::Duration),
        10 => Some(SpecType::U128),
        11 => Some(SpecType::I128),
        12 => Some(SpecType::U256),
        13 => Some(SpecType::I256),
        14 => Some(SpecType::Bytes),
        16 => Some(SpecType::String),
        17 => Some(SpecType::Symbol),
        19 => Some(SpecType::Address),
        20 => Some(SpecType::MuxedAddress),
        1000 => Some(SpecType::OptionOf),
        1001 => Some(SpecType::ResultOf),
        1002 => Some(SpecType::VecOf),
        1004 => Some(SpecType::MapOf),
        1005 => Some(SpecType::TupleOf),
        1006 => Some(SpecType::BytesN),
        2000 => Some(SpecType::Udt),
        _ => None,
    }
}

/// The type that a code of the XDR enumeration `SCSpecType` stands for.
fn decode_type(code: i32) -> (r: Option<SpecType>)
    ensures
        r == type_of_code(code),
{
    match code {
        0 => Some(SpecType::Val),
        1 => Some(SpecType::Bool),
        2 => Some(SpecType::Void),
        3 => Some(SpecType::Error),
        4 => Some(SpecType::U32),
        5 => Some(SpecType::I32),
        6 => Some(SpecType::U64),
        7 => Some(SpecType::I64),
        8 => Some(SpecType::Timepoint),
        9 => Some(SpecType::Duration),
        10 => Some(SpecType::U128),
        11 => Some(SpecType::I128),
        12 => Some(SpecType::U256),
        13 => Some(SpecType::I256),
        14 => Some(SpecType::Bytes),
        16 => Some(SpecType::String),
        17 => Some(SpecType::Symbol),
        19 => Some(SpecType::Address),
        20 => Some(SpecType::MuxedAddress),
        1000 => Some(SpecType::OptionOf),
        1001 => Some(SpecType::ResultOf),
        1002 => Some(SpecType::VecOf),
        1004 => Some(SpecType::MapOf),
        1005 => Some(SpecType::TupleOf),
        1006 => Some(SpecType::BytesN),
        2000 => Some(SpecType::Udt),
        _ => None,
    }
}

/// An entry of a contract spec as it is encoded.
enum RawEntry {
    /// A function: its name, and the name and the type code of each input.
    Function { name: Vec<u8>, inputs: Vec<(Vec<u8>, i32)> },
    /// Any other entry.
    Other,
}

/// A [`RawEntry`] in contracts.
pub enum RawEntryView {
    Function { name: Seq<u8>, inputs: Seq<(Seq<u8>, i32)> },
    Other,
}

impl DeepView for RawEntry {
    type V = RawEntryView;

    closed spec fn deep_view(&self) -> RawEntryView {
        match self {
            RawEntry::Function { name, inputs } => RawEntryView::Function {
                name: name@,
                inputs: inputs.deep_view(),
            },
            RawEntry::Other => RawEntryView::Other,
        }
    }
}

/// Every type code of the entry is known.
pub open spec fn has_known_types(entry: RawEntryView) -> bool {
    match entry {
        RawEntryView::Function { name, inputs } => forall|i: int|
            0 <= i < inputs.len() ==> type_of_code((#[trigger] inputs[i]).1) is Some,
        RawEntryView::Other => true,
    }
}

/// An entry of a contract spec.
#[derive(Debug, Clone, PartialEq, Eq)]
pub enum SpecEntry {
    /// A function.
    Function {
        /// Name of the function.
        name: Vec<u8>,
        /// Name and type of each input.
        inputs: Vec<(Vec<u8>, SpecType)>,
    },
    /// Any other entry: a user-defined type, an event.
    Other,
}

/// A [`SpecEntry`] in contracts.
pub enum SpecEntryView {
    Function { name: Seq<u8>, inputs: Seq<(Seq<u8>, SpecType)> },
    Other,
}

impl DeepView for SpecEntry {
    type V = SpecEntryView;

    open spec fn deep_view(&self) -> SpecEntryView {
        match self {
            SpecEntry::Function { name, inputs } => SpecEntryView::Function {
                name: name@,
                inputs: inputs.deep_view(),
            },
            SpecEntry::Other => SpecEntryView::Other,
        }
    }
}

/// The entry that an encoded entry stands for.
pub open spec fn entry_of(raw: RawEntryView) -> SpecEntryView {
    match raw {
        RawEntryView::Function { name, inputs } => SpecEntryView::Function {
            name,
            inputs: inputs.map_values(
                |input: (Seq<u8>, i32)| (input.0, type_of_code(input.1).unwrap()),
            ),
        },
        RawEntryView::Other => SpecEntryView::Other,
    }
}

/// The entry that bytes begin with and the number of bytes that it takes, if
/// they begin with one.
pub uninterp spec fn next_entry(data: Seq<u8>) -> Option<(RawEntryView, nat)>;

/// Calls `ScSpecEntry::read_xdr` on the bytes, without limits, and keeps of a
/// function its name and the name and the type code of each input. The contract
/// gives the entry and its length a name. It says that the length is that of the
/// union discriminant at least and within the data, that every type code is one
/// of `ScSpecType`, and that no byte behind the entry bears on it. Nothing is
/// said of the depth to which types may nest on the stack.
#[verifier::external_body]
fn decode_entry(data: &[u8]) -> (r: Option<(RawEntry, usize)>)
    ensures
        match r {
            Some((entry, len)) => next_entry(data@) == Some((entry.deep_view(), len as nat)),
            None => next_entry(data@) is None,
        },
        r matches Some((entry, len)) ==> {
            &&& 4 <= len <= data@.len()
            &&& has_known_types(entry.deep_view())
            &&& forall|rest: Seq<u8>|
                #[trigger] next_entry(data@.take(len as int) + rest) == next_entry(data@)
        },
{
    let mut cursor = Cursor::new(data);
    let entry = ScSpecEntry::read_xdr(&mut Limited::new(&mut cursor, Limits::none())).ok()?;
    let entry = match entry {
        ScSpecEntry::FunctionV0(f) => RawEntry::Function {
            name: f.name.as_slice().to_vec(),
            inputs: f.inputs.iter().map(
                |input| (input.name.as_slice().to_vec(), input.type_.discriminant() as i32),
            ).collect(),
        },
        _ => RawEntry::Other,
    };
    Some((entry, cursor.position() as usize))
}

/// The entries that bytes begin with, up to the first place where none can be
/// decoded.
pub open spec fn entries_in(data: Seq<u8>) -> Seq<SpecEntryView>
    decreases data.len(),
{
    match next_entry(data) {
        Some((raw, len)) => if 0 < len <= data.len() {
            seq![entry_of(raw)] + entries_in(data.skip(len as int))
        } else {
            Seq::empty()
        },
        None => Seq::empty(),
    }
}

/// The number of bytes that [`entries_in`] takes.
pub open spec fn entries_len(data: Seq<u8>) -> nat
    decreases data.len(),
{
    match next_entry(data) {
        Some((raw, len)) => if 0 < len <= data.len() {
            len + entries_len(data.skip(len as int))
        } else {
            0
        },
        None => 0,
    }
}

/// Decoded function entries of a contract spec in contracts: the name of each
/// function and its parameters.
pub type SpecFunctionsView = Seq<(Seq<char>, Seq<ParamView>)>;

/// The parameters that the inputs of a function stand for.
pub open spec fn params_of(inputs: Seq<(Seq<u8>, SpecType)>) -> Seq<ParamView> {
    inputs.map_values(
        |input: (Seq<u8>, SpecType)|
            ParamView { name: lossy_text(input.0), ty_name: type_label(input.1) },
    )
}

/// The function that an entry describes.
pub open spec fn described_function() -> spec_fn(SpecEntryView) -> Option<
    (Seq<char>, Seq<ParamView>),
> {
    |entry: SpecEntryView|
        match entry {
            SpecEntryView::Function { name, inputs } => Some((lossy_text(name), params_of(inputs))),
            SpecEntryView::Other => None,
        }
}

/// The functions that entries describe.
pub open spec fn functions_of(entries: Seq<SpecEntryView>) -> SpecFunctionsView {
    entries.filter_map(described_function())
}

/// The section is a contract spec.
pub open spec fn is_contract_spec(section: Result<SectionView, Seq<char>>) -> bool {
    section matches Ok(SectionView::Custom { name, data }) && name == CONTRACT_SPEC_SECTION@
}

/// The functions that a section describes.
pub open spec fn section_spec_functions(section: SectionView) -> SpecFunctionsView {
    match section {
        SectionView::Custom { name, data } => if name == CONTRACT_SPEC_SECTION@ {
            functions_of(entries_in(data))
        } else {
            Seq::empty()
        },
        _ => Seq::empty(),
    }
}

/// The functions that the contract specs among the sections describe.
pub open spec fn spec_functions_in(sections: Sections) -> SpecFunctionsView {
    gather(sections, |section: SectionView| section_spec_functions(section))
}

/// The sections hold a contract spec.
pub open spec fn has_contract_spec(sections: Sections) -> bool {
    exists|i: int| 0 <= i < sections.len() && is_contract_spec(#[trigger] sections[i])
}

/// If the section is a contract spec, not a single entry of it can be decoded.
pub open spec fn decodes_to_nothing(section: Result<SectionView, Seq<char>>) -> bool {
    is_contract_spec(section) ==> entries_in(section->Ok_0->data).len() == 0
}

/// Not a single entry of a contract spec among the sections can be decoded.
pub open spec fn is_undecodable(sections: Sections) -> bool {
    forall|i: int| 0 <= i < sections.len() ==> decodes_to_nothing(#[trigger] sections[i])
}

/// The functions that the contract spec of a binary describes and whether it
/// has one, or the first error of the parser.
pub open spec fn contract_spec(sections: Sections) -> Result<
    (SpecFunctionsView, bool),
    AppErrorView,
> {
    match first_error(sections) {
        Some(message) => Err(AppErrorView::WasmParse(message)),
        None => Ok((spec_functions_in(sections), has_contract_spec(sections))),
    }
}

/// One more section makes a difference only if it is a contract spec.
proof fn lemma_has_contract_spec_step(sections: Sections, i: int)
    requires
        0 <= i < sections.len(),
    ensures
        has_contract_spec(sections.take(i + 1)) == (has_contract_spec(sections.take(i))
            || is_contract_spec(sections[i])),
{
    let longer = sections.take(i + 1);
    if has_contract_spec(sections.take(i)) {
        let k = choose|k: int| 0 <= k < i && is_contract_spec(#[trigger] sections.take(i)[k]);
        assert(is_contract_spec(longer[k]));
    }
    if is_contract_spec(sections[i]) {
        assert(is_contract_spec(longer[i]));
    }
    if has_contract_spec(longer) {
        let k = choose|k: int| 0 <= k < longer.len() && is_contract_spec(#[trigger] longer[k]);
        if k < i {
            assert(is_contract_spec(sections.take(i)[k]));
        }
    }
}

/// Decoded spec function entries: (function name, typed parameter list).
pub type SpecFunctions = Vec<(String, Vec<ParamInfo>)>;

/// Replaces the type codes of an entry by the types.
fn typed_entry(raw: RawEntry) -> (entry: SpecEntry)
    requires
        has_known_types(raw.deep_view()),
    ensures
        entry.deep_view() == entry_of(raw.deep_view()),
        raw is Other ==> entry is Other,
        raw matches RawEntry::Function { name, inputs } ==> (entry matches SpecEntry::Function {
            name: kept,
            inputs: typed,
        } && {
            &&& kept@ == name@
            &&& typed@.len() == inputs@.len()
            &&& forall|i: int|
                0 <= i < inputs@.len() ==> (#[trigger] typed@[i]).0@ == inputs@[i].0@ && Some(
                    typed@[i].1,
                ) == type_of_code(inputs@[i].1)
        }),
{
    match raw {
        RawEntry::Function { name, inputs } => {
            let ghost all = inputs.deep_view();
            let mut typed: Vec<(Vec<u8>, SpecType)> = Vec::new();
            for input in it: inputs
                invariant
                    it.seq() == inputs@,
                    all == inputs.deep_view(),
                    forall|i: int|
                        0 <= i < all.len() ==> type_of_code((#[trigger] all[i]).1) is Some,
                    typed.deep_view() =~= all.take(it.index() as int).map_values(
                        |input: (Seq<u8>, i32)| (input.0, type_of_code(input.1).unwrap()),
                    ),
            {
                let ghost i = it.index() as int;
                assert(all[i] == input.deep_view());
                match decode_type(input.1) {
                    Some(t) => push_value(&mut typed, (input.0, t)),
                    None => {},
                }
            }
            assert(all.take(all.len() as int) =~= all);
            assert forall|i: int| 0 <= i < inputs@.len() implies (#[trigger] typed@[i]).0@
                == inputs@[i].0@ && Some(typed@[i].1) == type_of_code(inputs@[i].1) by {
                assert(typed.deep_view()[i] == typed@[i].deep_view());
                assert(all[i] == inputs@[i].deep_view());
                assert(typed@[i].0.deep_view() =~= typed@[i].0@);
                assert(inputs@[i].0.deep_view() =~= inputs@[i].0@);
            }
            SpecEntry::Function { name, inputs: typed }
        },
        RawEntry::Other => SpecEntry::Other,
    }
}

/// Decodes the entries that bytes begin with, up to the first place where none
/// can be decoded. What follows there does not bear on them.
///
/// Types are decoded recursively and without a limit on how deep they nest, so
/// an entry with very deeply nested types exhausts the stack of the thread,
/// which ends the process.
pub fn decode_entries(data: &[u8]) -> (entries: Vec<SpecEntry>)
    ensures
        entries.deep_view() == entries_in(data@),
        entries_len(data@) <= data@.len(),
        forall|tail: Seq<u8>|
            #![trigger entries_in(data@.take(entries_len(data@) as int) + tail)]
            entries_in(data@.take(entries_len(data@) as int) + tail) == entries_in(data@)
                + entries_in(tail),
{
    let mut entries: Vec<SpecEntry> = Vec::new();
    let mut position: usize = 0;
    assert(data@.skip(0) =~= data@);
    assert forall|tail: Seq<u8>| #[trigger]
        entries_in(data@.take(0) + tail) == entries.deep_view() + entries_in(tail) by {
        assert(data@.take(0) + tail =~= tail);
        assert(entries.deep_view() + entries_in(tail) =~= entries_in(tail));
    }
    assert(entries.deep_view() + entries_in(data@) =~= entries_in(data@));
    while position < data.len()
        invariant_except_break
            entries_in(data@) == entries.deep_view() + entries_in(data@.skip(position as int)),
            entries_len(data@) == position + entries_len(data@.skip(position as int)),
        invariant
            position <= data@.len(),
            forall|tail: Seq<u8>| #[trigger]
                entries_in(data@.take(position as int) + tail) == entries.deep_view() + entries_in(
                    tail,
                ),
        ensures
            entries_in(data@) == entries.deep_view(),
            entries_len(data@) == position,
        decreases data@.len() - position,
    {
        let rest = slice_subrange(data, position, data.len());
        assert(rest@ =~= data@.skip(position as int));
        match decode_entry(rest) {
            Some((raw, len)) => {
                let ghost before = entries.deep_view();
                let ghost start = position as int;
                push_value(&mut entries, typed_entry(raw));
                position = position + len;
                proof {
                    assert(rest@.skip(len as int) =~= data@.skip(position as int));
                    let entry = seq![entry_of(raw.deep_view())];
                    assert(before + (entry + entries_in(data@.skip(position as int)))
                        =~= entries.deep_view() + entries_in(data@.skip(position as int)));
                    assert forall|tail: Seq<u8>| #[trigger]
                        entries_in(data@.take(position as int) + tail) == entries.deep_view()
                            + entries_in(tail) by {
                        let body = rest@.take(len as int) + tail;
                        assert(data@.take(position as int) + tail =~= data@.take(start) + body);
                        assert(next_entry(body) == next_entry(rest@));
                        assert(body.skip(len as int) =~= tail);
                        assert(before + (entry + entries_in(tail)) =~= entries.deep_view()
                            + entries_in(tail));
                    }
                }
            },
            None => break,
        }
    }
    entries
}

/// The parameters that the inputs of a function stand for.
fn params_from(inputs: &Vec<(Vec<u8>, SpecType)>) -> (params: Vec<ParamInfo>)
    ensures
        params.deep_view() == params_of(inputs.deep_view()),
{
    let ghost all = inputs.deep_view();
    let mut params: Vec<ParamInfo> = Vec::new();
    for i in 0..inputs.len()
        invariant
            all == inputs.deep_view(),
            params.deep_view() =~= params_of(all.take(i as int)),
    {
        let input = &inputs[i];
        assert(all[i as int] == input.deep_view());
        assert(input.0.deep_view() =~= input.0@);
        push_value(
            &mut params,
            ParamInfo {
                name: lossy_string(input.0.as_slice()),
                ty_name: spec_type_name(&input.1).to_owned(),
            },
        );
    }
    assert(all.take(all.len() as int) =~= all);
    params
}

/// The functions that entries describe, in order.
pub fn spec_functions_from(entries: &Vec<SpecEntry>) -> (functions: SpecFunctions)
    ensures
        functions.deep_view() == functions_of(entries.deep_view()),
{
    let ghost all = entries.deep_view();
    let mut functions: SpecFunctions = Vec::new();
    for i in 0..entries.len()
        invariant
            all == entries.deep_view(),
            functions.deep_view() =~= functions_of(all.take(i as int)),
    {
        assert(all.take(i + 1).drop_last() =~= all.take(i as int));
        assert(all[i as int] == entries[i as int].deep_view());
        if let SpecEntry::Function { name, inputs } = &entries[i] {
            push_value(&mut functions, (lossy_string(name.as_slice()), params_from(inputs)));
        }
    }
    assert(all.take(all.len() as int) =~= all);
    functions
}

/// Decodes the contract spec among the sections of a binary.
pub fn contract_spec_of_sections(sections: &Vec<Result<Section, String>>) -> (r: AppResult<
    (SpecFunctions, bool),
>)
    ensures
        result_view(r) == contract_spec(outcomes(sections@)),
{
    let ghost all = outcomes(sections@);
    let section_name = CONTRACT_SPEC_SECTION.to_owned();
    let mut functions: SpecFunctions = Vec::new();
    let mut has_spec = false;
    for i in 0..sections.len()
        invariant
            all == outcomes(sections@),
            section_name@ == CONTRACT_SPEC_SECTION@,
            first_error(all.take(i as int)) is None,
            functions.deep_view() =~= spec_functions_in(all.take(i as int)),
            has_spec == has_contract_spec(all.take(i as int)),
    {
        proof {
            assert(all.take(i + 1).drop_last() =~= all.take(i as int));
            lemma_first_error_prefix(all, i + 1);
            lemma_has_contract_spec_step(all, i as int);
        }
        match &sections[i] {
            Ok(Section::Custom { name, data }) => {
                if *name == section_name {
                    has_spec = true;
                    let entries = decode_entries(data.as_slice());
                    let mut described = spec_functions_from(&entries);
                    let ghost before = functions.deep_view();
                    let ghost added = described.deep_view();
                    functions.append(&mut described);
                    assert(functions.deep_view() =~= before + added);
                }
            },
            Ok(_) => {},
            Err(message) => return Err(AppError::WasmParse(message.clone())),
        }
    }
    assert(all.take(all.len() as int) =~= all);
    Ok((functions, has_spec))
}

/// Decodes the Soroban contract spec (`contractspecv0` custom section).
///
/// Returns the function entries (name and typed params) and whether the
/// section was present at all. Function entries carry the typed parameter
/// list that the bare WASM export section cannot express.
///
/// The section payload is not count-prefixed: it is a concatenation of raw
/// `ScSpecEntry` XDR values, each starting with its 4-byte union discriminant.
/// Entries are decoded one at a time, up to the end of the payload or to the
/// first place where none can be decoded.
///
/// An entry with very deeply nested types exhausts the stack, as for
/// [`decode_entries`].
pub fn parse_contract_spec(bytes: &[u8]) -> (r: AppResult<(SpecFunctions, bool)>)
    ensures
        result_view(r) == contract_spec(wasm_sections(bytes@)),
{
    contract_spec_of_sections(&read_sections(bytes))
}

} // verus!
