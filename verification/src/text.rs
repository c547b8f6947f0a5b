//! Building the text of error messages: literal pieces and numbers written
//! in decimal.
use vstd::prelude::*;

verus! {

/// The decimal digit for `d` (below ten).
pub open spec fn digit(d: nat) -> char {
    (d + 48) as char
}

/// `n` written in decimal, without leading zeros.
pub open spec fn decimal(n: nat) -> Seq<char>
    decreases n,
{
    if n < 10 {
        seq![digit(n)]
    } else {
        decimal(n / 10).push(digit(n % 10))
    }
}

/// Appends the characters of `text`.
pub fn push_text(out: &mut Vec<char>, text: &str)
    ensures
        final(out)@ == old(out)@ + text@,
{
    let len = text.unicode_len();
    let mut i: usize = 0;
    while i < len
        invariant
            len == text@.len(),
            i <= len,
            out@ == old(out)@ + text@.subrange(0, i as int),
        decreases len - i,
    {
        out.push(text.get_char(i));
        proof {
            assert(text@.subrange(0, i + 1) =~= text@.subrange(0, i as int).push(text@[i as int]));
        }
        i = i + 1;
    }
    proof {
        assert(text@.subrange(0, len as int) =~= text@);
    }
}

/// The digit for `d` (below ten).
fn digit_char(d: u8) -> (c: char)
    requires
        d < 10,
    ensures
        c == digit(d as nat),
{
    (d + 48) as char
}

/// Appends `n` written in decimal.
pub fn push_decimal(out: &mut Vec<char>, n: u8)
    ensures
        final(out)@ == old(out)@ + decimal(n as nat),
{
    proof {
        reveal_with_fuel(decimal, 3);
    }
    if n >= 100 {
        out.push(digit_char(n / 100));
    }
    if n >= 10 {
        out.push(digit_char(n / 10 % 10));
    }
    out.push(digit_char(n % 10));
    proof {
        if n >= 100 {
            assert((n / 10) as nat / 10 == n / 100);
            assert(decimal(n as nat) =~= seq![digit((n / 100) as nat), digit((n / 10 % 10) as nat), digit((n % 10) as nat)]);
        } else if n >= 10 {
            assert(decimal(n as nat) =~= seq![digit((n / 10 % 10) as nat), digit((n % 10) as nat)]);
        }
    }
}

/// The text of an error about a raw value that names no variant:
/// "`subject` ID `id` is invalid".
pub open spec fn invalid_id_text(subject: Seq<char>, id: nat) -> Seq<char> {
    subject + " ID "@ + decimal(id) + " is invalid"@
}

/// The text of an error about a raw value that only counts the variants:
/// "`subject` ID `id` (`name`) is a meta-value".
pub open spec fn meta_value_text(subject: Seq<char>, id: nat, name: Seq<char>) -> Seq<char> {
    subject + " ID "@ + decimal(id) + " ("@ + name + ") is a meta-value"@
}

/// `String`'s `FromIterator<char>`: the string of the characters, in order.
#[verifier::external_body]
fn string_from_chars(chars: Vec<char>) -> (text: String)
    ensures
        text@ == chars@,
{
    String::from_iter(chars)
}

/// "`subject` ID `id` is invalid".
pub fn invalid_id_message(subject: &str, id: u8) -> (text: String)
    ensures
        text@ == invalid_id_text(subject@, id as nat),
{
    let mut chars: Vec<char> = Vec::new();
    push_text(&mut chars, subject);
    push_text(&mut chars, " ID ");
    push_decimal(&mut chars, id);
    push_text(&mut chars, " is invalid");
    string_from_chars(chars)
}

/// "`subject` ID `id` (`name`) is a meta-value".
pub fn meta_value_message(subject: &str, id: u8, name: &str) -> (text: String)
    ensures
        text@ == meta_value_text(subject@, id as nat, name@),
{
    let mut chars: Vec<char> = Vec::new();
    push_text(&mut chars, subject);
    push_text(&mut chars, " ID ");
    push_decimal(&mut chars, id);
    push_text(&mut chars, " (");
    push_text(&mut chars, name);
    push_text(&mut chars, ") is a meta-value");
    string_from_chars(chars)
}

} // verus!
