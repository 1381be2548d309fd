//! Text as it is carried in frames: UTF-8 bytes turned into strings.

use vstd::prelude::*;
use vstd::slice::slice_subrange;
use vstd::string::*;
use vstd::utf8::*;

verus! {

/// The text that a payload holds: the characters that its bytes encode where
/// they are valid UTF-8, nothing where they are not.
pub open spec fn text_of(bytes: Seq<u8>) -> Option<Seq<char>> {
    if valid_utf8(bytes) {
        Some(decode_utf8(bytes))
    } else {
        None
    }
}

/// What an optional string holds, as characters.
pub open spec fn opt_text(text: Option<String>) -> Option<Seq<char>> {
    match text {
        Some(s) => Some(s@),
        None => None,
    }
}

/// Calls `core::str::from_utf8` and keeps the string slice where it succeeds.
/// The contract takes from the standard library's documentation that the call
/// succeeds exactly on valid UTF-8, and that the slice it returns is the text
/// those bytes encode; nothing here proves it.
#[verifier::external_body]
fn str_from_utf8(bytes: &[u8]) -> (text: Option<&str>)
    ensures
        text is Some <==> valid_utf8(bytes@),
        text matches Some(s) ==> s@ == decode_utf8(bytes@),
{
    core::str::from_utf8(bytes).ok()
}

/// Decodes `bytes[from..to]` as UTF-8 text.
pub fn decode_text(bytes: &Vec<u8>, from: usize, to: usize) -> (text: Option<String>)
    requires
        from <= to <= bytes.len(),
    ensures
        opt_text(text) == text_of(bytes@.subrange(from as int, to as int)),
{
    let payload = slice_subrange(bytes.as_slice(), from, to);
    match str_from_utf8(payload) {
        Some(s) => Some(s.to_owned()),
        None => None,
    }
}

/// The character that stands for a decimal digit.
pub open spec fn digit_char(digit: nat) -> char {
    if digit == 0 {
        '0'
    } else if digit == 1 {
        '1'
    } else if digit == 2 {
        '2'
    } else if digit == 3 {
        '3'
    } else if digit == 4 {
        '4'
    } else if digit == 5 {
        '5'
    } else if digit == 6 {
        '6'
    } else if digit == 7 {
        '7'
    } else if digit == 8 {
        '8'
    } else {
        '9'
    }
}

/// A number written in decimal, without leading zeros.
pub open spec fn decimal(number: nat) -> Seq<char>
    decreases number,
{
    if number < 10 {
        seq![digit_char(number)]
    } else {
        decimal(number / 10).push(digit_char(number % 10))
    }
}

/// The string that holds one decimal digit.
fn digit_text(digit: u32) -> (text: &'static str)
    requires
        digit < 10,
    ensures
        text@ == seq![digit_char(digit as nat)],
{
    proof {
        reveal_strlit("0");
        reveal_strlit("1");
        reveal_strlit("2");
        reveal_strlit("3");
        reveal_strlit("4");
        reveal_strlit("5");
        reveal_strlit("6");
        reveal_strlit("7");
        reveal_strlit("8");
        reveal_strlit("9");
    }
    let text = match digit {
        0 => "0",
        1 => "1",
        2 => "2",
        3 => "3",
        4 => "4",
        5 => "5",
        6 => "6",
        7 => "7",
        8 => "8",
        _ => "9",
    };
    assert(text@ =~= seq![digit_char(digit as nat)]);
    text
}

/// Appends `number`, written in decimal, to `out`.
pub fn push_decimal(out: &mut String, number: u32)
    ensures
        final(out)@ == old(out)@ + decimal(number as nat),
    decreases number,
{
    if number >= 10 {
        push_decimal(out, number / 10);
    }
    out.append(digit_text(number % 10));
    assert(out@ =~= old(out)@ + decimal(number as nat));
}

/// Appends `label` and then `number`, written in decimal, to `out`.
pub fn push_number(out: &mut String, label: &str, number: u32)
    ensures
        final(out)@ == old(out)@ + label@ + decimal(number as nat),
{
    out.append(label);
    push_decimal(out, number);
}

/// What `push_field` appends: the label and the text where there is a text,
/// nothing where there is none.
pub open spec fn labelled(label: Seq<char>, text: Option<Seq<char>>) -> Seq<char> {
    match text {
        Some(text) => label + text,
        None => Seq::empty(),
    }
}

/// Appends `label` and then `text` to `out`, where there is a text.
pub fn push_field(out: &mut String, label: &str, text: &Option<String>)
    ensures
        final(out)@ == old(out)@ + labelled(label@, opt_text(*text)),
{
    match text {
        Some(text) => {
            out.append(label);
            out.append(text.as_str());
            assert(out@ =~= old(out)@ + labelled(label@, Some(text@)));
        },
        None => {
            assert(out@ =~= old(out)@ + Seq::<char>::empty());
        },
    }
}

} // verus!
