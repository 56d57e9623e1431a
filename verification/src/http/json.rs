//! What this library has from `serde_json`: a list of symbols as one JSON
//! text, and the values that it carries without reading them.

use crate::text::{lower_hex_char, lower_hex_digit, push_char};
use serde_json::Error;
use vstd::prelude::*;
use vstd::string::StrSliceExecFns;

verus! {

/// `serde_json::Error`, of which only its words are used.
#[verifier::external_type_specification]
#[verifier::external_body]
pub struct ExError(serde_json::Error);

/// `serde_json::Value`: the parts of an answer that are kept as they came.
#[verifier::external_type_specification]
#[verifier::external_body]
pub struct ExValue(serde_json::Value);

/// One character inside a JSON string: a quote and a backslash behind a
/// backslash, the control characters by their letter or as `\u00` and two
/// lower-case hexadecimal digits, every other character as it is.
pub open spec fn json_char(c: char) -> Seq<char> {
    if c == '"' {
        seq!['\\', '"']
    } else if c == '\\' {
        seq!['\\', '\\']
    } else if c == '\u{8}' {
        seq!['\\', 'b']
    } else if c == '\t' {
        seq!['\\', 't']
    } else if c == '\n' {
        seq!['\\', 'n']
    } else if c == '\u{c}' {
        seq!['\\', 'f']
    } else if c == '\r' {
        seq!['\\', 'r']
    } else if (c as u32) < 0x20 {
        seq![
            '\\',
            'u',
            '0',
            '0',
            lower_hex_char(c as u32 as int / 16),
            lower_hex_char(c as u32 as int % 16),
        ]
    } else {
        seq![c]
    }
}

/// A text as it stands between the quotes of a JSON string.
pub open spec fn json_escaped(text: Seq<char>) -> Seq<char>
    decreases text.len(),
{
    if text.len() == 0 {
        Seq::empty()
    } else {
        json_escaped(text.drop_last()) + json_char(text.last())
    }
}

/// A text as a JSON string.
pub open spec fn json_string(text: Seq<char>) -> Seq<char> {
    seq!['"'] + json_escaped(text) + seq!['"']
}

/// Texts as JSON strings with a comma between two of them.
pub open spec fn json_items(items: Seq<Seq<char>>) -> Seq<char>
    decreases items.len(),
{
    if items.len() == 0 {
        Seq::empty()
    } else if items.len() == 1 {
        json_string(items.last())
    } else {
        json_items(items.drop_last()) + seq![','] + json_string(items.last())
    }
}

/// A list of texts as a JSON array, without any space.
pub open spec fn json_array(items: Seq<Seq<char>>) -> Seq<char> {
    seq!['['] + json_items(items) + seq![']']
}

/// `serde_json::to_string` on a list of texts: it does not fail, there being
/// no map and no value that refuses to be written, and the text is the list
/// as a JSON array.
#[verifier::external_body]
pub(crate) fn to_json_array(items: &Vec<String>) -> (r: Result<String, Error>)
    ensures
        match r {
            Ok(text) => text@ == json_array(items.deep_view()),
            Err(_) => false,
        },
{
    serde_json::to_string(items)
}

fn push_json_char(out: &mut String, c: char)
    ensures
        final(out)@ == old(out)@ + json_char(c),
{
    if c == '"' {
        push_char(out, '\\');
        push_char(out, '"');
    } else if c == '\\' {
        push_char(out, '\\');
        push_char(out, '\\');
    } else if c == '\u{8}' {
        push_char(out, '\\');
        push_char(out, 'b');
    } else if c == '\t' {
        push_char(out, '\\');
        push_char(out, 't');
    } else if c == '\n' {
        push_char(out, '\\');
        push_char(out, 'n');
    } else if c == '\u{c}' {
        push_char(out, '\\');
        push_char(out, 'f');
    } else if c == '\r' {
        push_char(out, '\\');
        push_char(out, 'r');
    } else if (c as u32) < 0x20 {
        let code: u8 = c as u32 as u8;
        push_char(out, '\\');
        push_char(out, 'u');
        push_char(out, '0');
        push_char(out, '0');
        push_char(out, lower_hex_digit(code / 16));
        push_char(out, lower_hex_digit(code % 16));
    } else {
        push_char(out, c);
    }
    assert(final(out)@ =~= old(out)@ + json_char(c));
}

fn push_json_string(out: &mut String, text: &str)
    ensures
        final(out)@ == old(out)@ + json_string(text@),
{
    push_char(out, '"');
    let n = text.unicode_len();
    let mut i: usize = 0;
    assert(text@.take(0) =~= Seq::<char>::empty());
    while i < n
        invariant
            n == text@.len(),
            i <= n,
            out@ == old(out)@ + seq!['"'] + json_escaped(text@.take(i as int)),
        decreases n - i,
    {
        let c = text.get_char(i);
        push_json_char(out, c);
        proof {
            let next = text@.take(i + 1);
            assert(next.drop_last() =~= text@.take(i as int));
            assert(next.last() == c);
            assert(out@ =~= old(out)@ + seq!['"'] + json_escaped(next));
        }
        i = i + 1;
    }
    assert(text@.take(i as int) =~= text@);
    push_char(out, '"');
    assert(final(out)@ =~= old(out)@ + json_string(text@));
}

/// A list of texts as a JSON array: the text that `serde_json` writes for
/// the list, which is what requests carry.
pub fn json_array_text(items: &Vec<String>) -> (text: String)
    ensures
        text@ == json_array(items.deep_view()),
{
    let ghost all = items.deep_view();
    let mut out = String::new();
    push_char(&mut out, '[');
    let mut i: usize = 0;
    assert(all.take(0) =~= Seq::<Seq<char>>::empty());
    while i < items.len()
        invariant
            all == items.deep_view(),
            i <= items@.len(),
            out@ == seq!['['] + json_items(all.take(i as int)),
        decreases items@.len() - i,
    {
        if i > 0 {
            push_char(&mut out, ',');
        }
        push_json_string(&mut out, items[i].as_str());
        proof {
            let next = all.take(i + 1);
            assert(next.drop_last() =~= all.take(i as int));
            assert(next.last() == items@[i as int]@);
            assert(out@ =~= seq!['['] + json_items(next));
        }
        i = i + 1;
    }
    assert(all.take(i as int) =~= all);
    push_char(&mut out, ']');
    assert(out@ =~= json_array(all));
    out
}

} // verus!
