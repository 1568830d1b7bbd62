//! The text that the views display: decimal numerals and the name and
//! likes lines.
use vstd::prelude::*;
use vstd::string::StringExecFns;

verus! {

/// The character of a single decimal digit.
pub open spec fn digit_char(d: nat) -> char
    recommends
        d < 10,
{
    if d == 0 {
        '0'
    } else if d == 1 {
        '1'
    } else if d == 2 {
        '2'
    } else if d == 3 {
        '3'
    } else if d == 4 {
        '4'
    } else if d == 5 {
        '5'
    } else if d == 6 {
        '6'
    } else if d == 7 {
        '7'
    } else if d == 8 {
        '8'
    } else {
        '9'
    }
}

/// The decimal numeral of `n`, most significant digit first, with no
/// leading zeros (zero is written `0`).
pub open spec fn decimal(n: nat) -> Seq<char>
    decreases n,
{
    if n < 10 {
        seq![digit_char(n)]
    } else {
        decimal(n / 10).push(digit_char(n % 10))
    }
}

/// `"{first} {last}"`.
pub open spec fn name_text(first: Seq<char>, last: Seq<char>) -> Seq<char> {
    first + seq![' '] + last
}

/// `"Likes: "`.
pub open spec fn likes_prefix() -> Seq<char> {
    seq!['L', 'i', 'k', 'e', 's', ':', ' ']
}

/// `"Likes: {n}"`.
pub open spec fn likes_text(n: nat) -> Seq<char> {
    likes_prefix() + decimal(n)
}

/// The one-character string of the digit `d`.
fn digit_str(d: u16) -> (r: &'static str)
    requires
        d < 10,
    ensures
        r@ == seq![digit_char(d as nat)],
{
    if d == 0 {
        proof { reveal_strlit("0"); }
        "0"
    } else if d == 1 {
        proof { reveal_strlit("1"); }
        "1"
    } else if d == 2 {
        proof { reveal_strlit("2"); }
        "2"
    } else if d == 3 {
        proof { reveal_strlit("3"); }
        "3"
    } else if d == 4 {
        proof { reveal_strlit("4"); }
        "4"
    } else if d == 5 {
        proof { reveal_strlit("5"); }
        "5"
    } else if d == 6 {
        proof { reveal_strlit("6"); }
        "6"
    } else if d == 7 {
        proof { reveal_strlit("7"); }
        "7"
    } else if d == 8 {
        proof { reveal_strlit("8"); }
        "8"
    } else {
        proof { reveal_strlit("9"); }
        "9"
    }
}

/// Appends the decimal numeral of `n` to `s`.
pub fn push_decimal(s: &mut String, n: u16)
    ensures
        final(s)@ == old(s)@ + decimal(n as nat),
    decreases n,
{
    if n >= 10 {
        push_decimal(s, n / 10);
    }
    s.append(digit_str(n % 10));
    assert(old(s)@ + decimal(n as nat) =~= final(s)@);
}

/// The name line, `"{first} {last}"`.
pub fn format_name(first: &str, last: &str) -> (r: String)
    ensures
        r@ == name_text(first@, last@),
{
    let mut s = String::from_str(first);
    proof { reveal_strlit(" "); }
    s.append(" ");
    s.append(last);
    assert(s@ =~= name_text(first@, last@));
    s
}

/// The likes line, `"Likes: {n}"`.
pub fn format_likes(n: u16) -> (r: String)
    ensures
        r@ == likes_text(n as nat),
{
    proof { reveal_strlit("Likes: "); }
    let mut s = String::from_str("Likes: ");
    push_decimal(&mut s, n);
    assert(s@ =~= likes_text(n as nat));
    s
}

} // verus!
