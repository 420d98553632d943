//! The fields of a form: pairs of a name and a text, in the order in which
//! they are sent.

use crate::model::ToText;
use vstd::prelude::*;

verus! {

/// The fields of a form, as sequences of characters.
pub type Fields = Seq<(Seq<char>, Seq<char>)>;

/// One field with the text of `value`, or no field where there is no
/// value.
pub open spec fn field<T: ToText>(name: Seq<char>, value: Option<T>) -> Fields {
    match value {
        Some(v) => seq![(name, v.text())],
        None => Seq::empty(),
    }
}

/// One field with a text.
pub open spec fn text_field(name: Seq<char>, value: Seq<char>) -> Fields {
    seq![(name, value)]
}

/// A copy of fields.
pub fn copy_fields(fields: &Vec<(String, String)>) -> (out: Vec<(String, String)>)
    ensures
        out.deep_view() == fields.deep_view(),
{
    let mut out: Vec<(String, String)> = Vec::new();
    let mut i: usize = 0;
    while i < fields.len()
        invariant
            i <= fields.len(),
            out.deep_view() == fields.deep_view().take(i as int),
        decreases fields.len() - i,
    {
        let ghost before = out.deep_view();
        let name = fields[i].0.clone();
        let value = fields[i].1.clone();
        out.push((name, value));
        assert(out.deep_view() =~= before.push(fields.deep_view()[i as int]));
        assert(fields.deep_view().take(i + 1) =~= before.push(fields.deep_view()[i as int]));
        i += 1;
    }
    assert(fields.deep_view().take(i as int) =~= fields.deep_view());
    out
}

/// Appends one field.
pub fn push_text(out: &mut Vec<(String, String)>, name: &str, value: String)
    ensures
        final(out).deep_view() == old(out).deep_view() + text_field(name@, value@),
{
    let ghost before = out.deep_view();
    let ghost pair = (name@, value@);
    out.push((name.to_owned(), value));
    assert(out.deep_view() =~= before.push(pair));
    assert(before.push(pair) =~= before + text_field(name@, value@));
}

/// Appends one field with the text of a value.
pub fn push_value<T: ToText>(out: &mut Vec<(String, String)>, name: &str, value: &T)
    ensures
        final(out).deep_view() == old(out).deep_view() + text_field(name@, value.text()),
{
    push_text(out, name, value.to_text());
}

/// Appends the field of a value that is set, and nothing for one that is
/// not.
pub fn push_field<T: ToText>(out: &mut Vec<(String, String)>, name: &str, value: &Option<T>)
    ensures
        final(out).deep_view() == old(out).deep_view() + field(name@, *value),
{
    match value {
        Some(v) => {
            push_text(out, name, v.to_text());
        },
        None => {
            assert(out.deep_view() + field(name@, *value) =~= out.deep_view());
        },
    }
}

} // verus!
