//! The JSON text of request bodies.

use crate::client::optional_str;
use crate::signing::hex_digit;
use vstd::prelude::*;

verus! {

/// Whether a character cannot stand in a JSON string as it is: the double
/// quote, the backslash and the control characters below the space.
pub open spec fn needs_escape(c: char) -> bool {
    c == '"' || c == '\\' || (c as u32) < 0x20
}

/// What stands for one character inside a JSON string: the character
/// itself, or its escape. Backspace, tab, line feed, form feed and carriage
/// return have a letter of their own; the other control characters are
/// written as `\u00` and two lowercase hexadecimal digits.
pub open spec fn escaped_char(c: char) -> Seq<char> {
    if c == '"' {
        seq!['\\', '"']
    } else if c == '\\' {
        seq!['\\', '\\']
    } else if c == '\u{8}' {
        seq!['\\', 'b']
    } else if c == '\t' {
        seq!['\\', 't']
    } else if c == '\n' {
        seq!['\\', 'n']
    } else if c == '\u{c}' {
        seq!['\\', 'f']
    } else if c == '\r' {
        seq!['\\', 'r']
    } else if (c as u32) < 0x20 {
        seq!['\\', 'u', '0', '0', hex_digit(c as u32 as int / 16), hex_digit(c as u32 as int % 16)]
    } else {
        seq![c]
    }
}

/// A text with each of its characters escaped, in order.
pub open spec fn escaped_text(text: Seq<char>) -> Seq<char>
    decreases text.len(),
{
    if text.len() == 0 {
        Seq::empty()
    } else {
        escaped_text(text.drop_last()) + escaped_char(text.last())
    }
}

/// The JSON string of a text: the escaped text between double quotes.
pub open spec fn json_string_text(text: Seq<char>) -> Seq<char> {
    seq!['"'] + escaped_text(text) + seq!['"']
}

/// `serde_json::to_string` on a string slice. It writes into a vector in
/// memory a double quote, the text with the escapes of the crate's table,
/// and a double quote. The two failures that the function documents, a
/// value that refuses to be written and a map with keys that are no
/// strings, cannot come from a string slice, and the vector takes every
/// write: it returns `Ok`.
#[verifier::external_body]
pub(crate) fn json_string(text: &str) -> (r: Result<String, serde_json::Error>)
    ensures
        r is Ok,
        r matches Ok(json) ==> json@ == json_string_text(text@),
{
    serde_json::to_string(text)
}

/// A text without a quote, a backslash or a control character is written
/// as it stands.
pub proof fn lemma_plain_text_unchanged(text: Seq<char>)
    requires
        forall|i: int| 0 <= i < text.len() ==> !needs_escape(#[trigger] text[i]),
    ensures
        escaped_text(text) == text,
        json_string_text(text) == seq!['"'] + text + seq!['"'],
    decreases text.len(),
{
    if text.len() > 0 {
        let head = text.drop_last();
        assert forall|i: int| 0 <= i < head.len() implies !needs_escape(#[trigger] head[i]) by {
            assert(head[i] == text[i]);
        }
        lemma_plain_text_unchanged(head);
        assert(!needs_escape(text[text.len() - 1]));
        assert(escaped_char(text.last()) =~= seq![text.last()]);
        assert(head + seq![text.last()] =~= text);
    } else {
        assert(escaped_text(text) =~= text);
    }
}

/// One member of an object: where the value is present, its label and its
/// encoded value, after a comma if another member stands before it.
pub open spec fn member_text(label: Seq<char>, value: Option<Seq<char>>, follows: bool) -> Seq<
    char,
> {
    match value {
        Some(v) => if follows {
            seq![','] + label + v
        } else {
            label + v
        },
        None => Seq::empty(),
    }
}

/// Appends one member to an object under construction.
pub(crate) fn append_member(out: &mut String, label: &str, value: Option<&str>, follows: bool)
    ensures
        final(out)@ == old(out)@ + member_text(label@, optional_str(value), follows),
{
    if let Some(v) = value {
        if follows {
            proof {
                reveal_strlit(",");
            }
            out.append(",");
        }
        out.append(label);
        out.append(v);
    }
    assert(final(out)@ =~= old(out)@ + member_text(label@, optional_str(value), follows));
}

} // verus!
