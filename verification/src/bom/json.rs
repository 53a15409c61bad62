//! JSON text, as far as the catalog's requests need it written. String literals are
//! written by `serde_json`; numbers and the framing of objects and arrays are written
//! here.

use vstd::prelude::*;

verus! {

/// Whether the writer of JSON string literals writes `c` as an escape: the double
/// quote, the backslash, and the control characters below U+0020.
pub open spec fn is_escaped(c: char) -> bool {
    c == '"' || c == '\\' || (c as u32) < 0x20
}

/// Whether a JSON string literal holds `text` as it is: no character of it is written
/// as an escape.
pub open spec fn is_plain(text: Seq<char>) -> bool {
    forall|i: int| 0 <= i < text.len() ==> !is_escaped(#[trigger] text[i])
}

/// The JSON string literal that `serde_json::to_string` writes for a text `text` that is
/// not plain: the text between double quotes, with the characters that JSON does not
/// take as they are written as escapes.
pub uninterp spec fn json_string(text: Seq<char>) -> Seq<char>;

/// Whether `serde_json::from_str` reads `text` as one JSON value.
pub uninterp spec fn json_well_formed(text: Seq<char>) -> bool;

/// The JSON string literal for `text`: a plain text between double quotes as it is, and
/// what [`json_string`] names for a text with characters to escape.
pub open spec fn string_literal(text: Seq<char>) -> Seq<char> {
    if is_plain(text) {
        seq!['"'] + text + seq!['"']
    } else {
        json_string(text)
    }
}

/// Calls `serde_json::to_string` on a string slice. The writer copies every character
/// but the double quote, the backslash and the control characters below U+0020, so the
/// literal of a plain text is stated; for any other text the contract gives the literal
/// its name, [`json_string`]. For a string slice the call cannot fail: the writer of
/// string literals raises no error of its own and writes into memory.
#[verifier::external_body]
pub(crate) fn quote(text: &str) -> (literal: String)
    ensures
        is_plain(text@) ==> literal@ == seq!['"'] + text@ + seq!['"'],
        !is_plain(text@) ==> literal@ == json_string(text@),
{
    ::serde_json::to_string(text).unwrap_or_default()
}

/// Calls `serde_json::from_str` for a `serde_json::Value` and tells whether it read one.
/// The contract gives the verdict its name, [`json_well_formed`].
#[verifier::external_body]
pub(crate) fn is_json(text: &str) -> (accepted: bool)
    ensures
        accepted == json_well_formed(text@),
{
    ::serde_json::from_str::<::serde_json::Value>(text).is_ok()
}

/// The decimal digit for `d`.
pub open spec fn digit(d: nat) -> char
    recommends
        d < 10,
{
    if d == 0 {
        '0'
    } else if d == 1 {
        '1'
    } else if d == 2 {
        '2'
    } else if d == 3 {
        '3'
    } else if d == 4 {
        '4'
    } else if d == 5 {
        '5'
    } else if d == 6 {
        '6'
    } else if d == 7 {
        '7'
    } else if d == 8 {
        '8'
    } else {
        '9'
    }
}

/// The decimal numeral of `n`, without leading zeros: the JSON number for `n`.
pub open spec fn decimal(n: nat) -> Seq<char>
    decreases n,
{
    if n < 10 {
        seq![digit(n)]
    } else {
        decimal(n / 10).push(digit(n % 10))
    }
}

/// `parts` in a row, with `separator` between each two neighbours.
pub open spec fn joined(parts: Seq<Seq<char>>, separator: Seq<char>) -> Seq<char>
    decreases parts.len(),
{
    if parts.len() == 0 {
        Seq::empty()
    } else if parts.len() == 1 {
        parts[0]
    } else {
        joined(parts.drop_last(), separator) + separator + parts.last()
    }
}

/// The JSON object with the members `members`, each already written as `key:value`.
pub open spec fn object_text(members: Seq<Seq<char>>) -> Seq<char> {
    seq!['{'] + joined(members, seq![',']) + seq!['}']
}

/// The JSON array with the elements `elements`, each already written.
pub open spec fn array_text(elements: Seq<Seq<char>>) -> Seq<char> {
    seq!['['] + joined(elements, seq![',']) + seq![']']
}

fn digit_text(d: u32) -> (text: &'static str)
    requires
        d < 10,
    ensures
        text@ == seq![digit(d as nat)],
{
    proof {
        reveal_strlit("0");
        reveal_strlit("1");
        reveal_strlit("2");
        reveal_strlit("3");
        reveal_strlit("4");
        reveal_strlit("5");
        reveal_strlit("6");
        reveal_strlit("7");
        reveal_strlit("8");
        reveal_strlit("9");
    }
    let text = match d {
        0 => "0",
        1 => "1",
        2 => "2",
        3 => "3",
        4 => "4",
        5 => "5",
        6 => "6",
        7 => "7",
        8 => "8",
        _ => "9",
    };
    assert(text@ =~= seq![digit(d as nat)]);
    text
}

/// Writes `n` as a JSON number.
pub fn decimal_text(n: u32) -> (text: String)
    ensures
        text@ == decimal(n as nat),
    decreases n,
{
    if n < 10 {
        digit_text(n).to_string()
    } else {
        let mut text = decimal_text(n / 10);
        text.append(digit_text(n % 10));
        assert(text@ =~= decimal(n as nat));
        text
    }
}

/// Writes `parts` in a row, with `separator` between each two neighbours.
pub fn join(parts: &Vec<String>, separator: &str) -> (text: String)
    ensures
        text@ == joined(parts.deep_view(), separator@),
{
    let mut text = String::new();
    let mut index: usize = 0;
    while index < parts.len()
        invariant
            index <= parts.len(),
            text@ == joined(parts.deep_view().take(index as int), separator@),
        decreases parts.len() - index,
    {
        if index > 0 {
            text.append(separator);
        }
        text.append(parts[index].as_str());
        proof {
            let before = parts.deep_view().take(index as int);
            let after = parts.deep_view().take(index + 1);
            assert(after.drop_last() =~= before);
            assert(after.last() == parts[index as int]@);
            if index == 0 {
                assert(text@ =~= after[0]);
            }
        }
        index = index + 1;
    }
    proof {
        assert(parts.deep_view().take(index as int) =~= parts.deep_view());
    }
    text
}

/// Writes the JSON object with the members `members`, each already written as
/// `key:value`.
pub fn object(members: &Vec<String>) -> (text: String)
    ensures
        text@ == object_text(members.deep_view()),
{
    proof {
        reveal_strlit("{");
        reveal_strlit(",");
        reveal_strlit("}");
    }
    let mut text = "{".to_string();
    let inner = join(members, ",");
    text.append(inner.as_str());
    text.append("}");
    assert("{"@ =~= seq!['{']);
    assert(","@ =~= seq![',']);
    assert("}"@ =~= seq!['}']);
    text
}

/// Writes the JSON array with the elements `elements`, each already written.
pub fn array(elements: &Vec<String>) -> (text: String)
    ensures
        text@ == array_text(elements.deep_view()),
{
    proof {
        reveal_strlit("[");
        reveal_strlit(",");
        reveal_strlit("]");
    }
    let mut text = "[".to_string();
    let inner = join(elements, ",");
    text.append(inner.as_str());
    text.append("]");
    assert("["@ =~= seq!['[']);
    assert(","@ =~= seq![',']);
    assert("]"@ =~= seq![']']);
    text
}

} // verus!
