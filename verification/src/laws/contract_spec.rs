//! What the contract spec of a binary describes, one section, one entry and one
//! input at a time.

use crate::contract_spec::{
    contract_spec, entries_in, entries_len, entry_of, functions_of, has_contract_spec,
    is_contract_spec, next_entry, params_of, spec_functions_in, type_label, type_of_code,
    RawEntryView, SpecEntryView, SpecFunctionsView, SpecType,
};
use crate::error::AppErrorView;
use crate::model::{SectionView, Sections};
use crate::text::{lossy_text, replaced_text};
use vstd::prelude::*;
use vstd::utf8::{decode_utf8, valid_utf8};

verus! {

/// A binary without sections has no contract spec. A section that the parser
/// cannot make out is the error of the binary, unless there was one before. A
/// custom section of the name `contractspecv0` makes the binary have a contract
/// spec and adds the functions that its entries describe, behind those before.
/// No other section bears on the contract spec.
pub proof fn law_contract_spec_of_one_more_section(
    ahead: Sections,
    section: Result<SectionView, Seq<char>>,
)
    ensures
        ahead.len() == 0 ==> contract_spec(ahead) == Ok::<_, AppErrorView>(
            (SpecFunctionsView::empty(), false),
        ),
        contract_spec(ahead.push(section)) == match contract_spec(ahead) {
            Ok((functions, has_spec)) => match section {
                Ok(SectionView::Custom { name, data }) => if name == "contractspecv0"@ {
                    Ok((functions + functions_of(entries_in(data)), true))
                } else {
                    Ok((functions, has_spec))
                },
                Ok(_) => Ok((functions, has_spec)),
                Err(message) => Err(AppErrorView::WasmParse(message)),
            },
            Err(error) => Err(error),
        },
{
    let more = ahead.push(section);
    assert(more.drop_last() =~= ahead);
    if ahead.len() == 0 {
        assert(spec_functions_in(ahead) =~= SpecFunctionsView::empty());
    }
    if has_contract_spec(ahead) {
        let i = choose|i: int| 0 <= i < ahead.len() && is_contract_spec(#[trigger] ahead[i]);
        assert(is_contract_spec(more[i]));
    }
    if is_contract_spec(section) {
        assert(is_contract_spec(more[ahead.len() as int]));
    } else {
        assert(spec_functions_in(more) =~= spec_functions_in(ahead));
        if has_contract_spec(more) {
            let i = choose|i: int| 0 <= i < more.len() && is_contract_spec(#[trigger] more[i]);
            assert(is_contract_spec(ahead[i]));
        }
    }
}

/// Bytes that begin with an entry hold that entry, and behind it the entries of
/// the bytes that follow it. Bytes that do not begin with one hold none.
pub proof fn law_entries_are_taken_one_by_one(data: Seq<u8>)
    ensures
        next_entry(data) matches Some((raw, len)) ==> 0 < len <= data.len() ==> entries_in(data)
            == seq![entry_of(raw)] + entries_in(data.skip(len as int)) && entries_len(data) == len
            + entries_len(data.skip(len as int)),
        next_entry(data) is None ==> entries_in(data).len() == 0 && entries_len(data) == 0,
{
}

/// An entry keeps the name of its function, and for each input, in order, the
/// name and the type that its code stands for. An entry that is not a function
/// stays one that is not.
pub proof fn law_entry_keeps_every_input(raw: RawEntryView)
    ensures
        raw is Other <==> entry_of(raw) is Other,
        raw matches RawEntryView::Function { name, inputs } ==> (entry_of(
            raw,
        ) matches SpecEntryView::Function { name: kept, inputs: typed } && {
            &&& kept == name
            &&& typed.len() == inputs.len()
            &&& forall|i: int|
                0 <= i < inputs.len() && type_of_code((#[trigger] inputs[i]).1) is Some
                    ==> typed[i].0 == inputs[i].0 && Some(typed[i].1) == type_of_code(inputs[i].1)
        }),
{
}

/// The codes of types stand for different types.
pub proof fn law_type_codes_differ(a: i32, b: i32)
    requires
        type_of_code(a) is Some,
        type_of_code(a) == type_of_code(b),
    ensures
        a == b,
{
}

/// One more entry that is a function adds that function behind those before: its
/// decoded name, and a parameter for each of its inputs, in order, with the
/// decoded name and the name of the type of that input. Any other entry adds
/// nothing.
pub proof fn law_functions_of_one_more_entry(entries: Seq<SpecEntryView>, entry: SpecEntryView)
    ensures
        entries.len() == 0 ==> functions_of(entries).len() == 0,
        entry is Other ==> functions_of(entries.push(entry)) == functions_of(entries),
        entry matches SpecEntryView::Function { name, inputs } ==> {
            let after = functions_of(entries.push(entry));
            &&& after.len() == functions_of(entries).len() + 1
            &&& after.drop_last() == functions_of(entries)
            &&& after.last().0 == lossy_text(name)
            &&& after.last().1.len() == inputs.len()
            &&& forall|i: int|
                0 <= i < inputs.len() ==> (#[trigger] after.last().1[i]).name == lossy_text(
                    inputs[i].0,
                ) && after.last().1[i].ty_name == type_label(inputs[i].1)
        },
{
    assert(entries.push(entry).drop_last() =~= entries);
    if entry is Other {
        assert(functions_of(entries.push(entry)) =~= functions_of(entries));
    } else {
        assert(functions_of(entries.push(entry)).drop_last() =~= functions_of(entries));
    }
}

/// The parameters of a function are as many as its inputs, and each has the
/// decoded name and the name of the type of the input in its place.
pub proof fn law_one_parameter_for_each_input(inputs: Seq<(Seq<u8>, SpecType)>)
    ensures
        params_of(inputs).len() == inputs.len(),
        forall|i: int|
            0 <= i < inputs.len() ==> (#[trigger] params_of(inputs)[i]).name == lossy_text(
                inputs[i].0,
            ) && params_of(inputs)[i].ty_name == type_label(inputs[i].1),
{
}

/// A name in UTF-8 is decoded as it is; the text of any other is what
/// `String::from_utf8_lossy` makes of it.
pub proof fn law_names_are_decoded(bytes: Seq<u8>)
    ensures
        valid_utf8(bytes) ==> lossy_text(bytes) == decode_utf8(bytes),
        !valid_utf8(bytes) ==> lossy_text(bytes) == replaced_text(bytes),
{
}

} // verus!
