use vstd::prelude::*;

verus! {

/// The JSON string literal that serde_json writes for the characters `s`.
pub uninterp spec fn json_string_of(s: Seq<char>) -> Seq<char>;

/// The character of a decimal digit `d` below ten.
pub open spec fn digit_char(d: nat) -> char {
    seq!['0', '1', '2', '3', '4', '5', '6', '7', '8', '9'][d as int]
}

/// The decimal digits of `n`, most significant first, with no leading zero.
pub open spec fn decimal_digits(n: nat) -> Seq<char>
    decreases n,
{
    if n < 10 {
        seq![digit_char(n)]
    } else {
        decimal_digits(n / 10) + seq![digit_char(n % 10)]
    }
}

/// The decimal text of `n`: its digits, after a minus sign when negative.
pub open spec fn decimal_text(n: int) -> Seq<char> {
    if n < 0 {
        seq!['-'] + decimal_digits((-n) as nat)
    } else {
        decimal_digits(n as nat)
    }
}

/// Relies on `serde_json::to_string` of a `str`: the quoted, escaped JSON
/// string literal of `s`. Writing into memory cannot fail.
#[verifier::external_body]
pub(crate) fn json_string(s: &str) -> (r: String)
    ensures
        r@ == json_string_of(s@),
{
    serde_json::to_string(s).unwrap()
}

/// Relies on `serde_json::to_string` of an `i32`: its decimal text.
/// Writing into memory cannot fail.
#[verifier::external_body]
pub(crate) fn json_integer(n: i32) -> (r: String)
    ensures
        r@ == decimal_text(n as int),
{
    serde_json::to_string(&n).unwrap()
}

} // verus!
