//! What calls of the text functions promise their callers.

use vstd::prelude::*;

use crate::text;

verus! {

/// `c` is the character for the digit `d`.
pub open spec fn shows_digit(c: char, d: int) -> bool {
    0 <= d < 10 && c as int == 48 + d
}

/// A number is written as the number without its last digit, followed by that digit; a
/// single digit is one character.
pub proof fn numbers_are_written_digit_by_digit(n: u128, whole: String, most: String)
    requires
        call_ensures(text::decimal_text, (n,), whole),
        call_ensures(text::decimal_text, (n / 10,), most),
    ensures
        n >= 10 ==> whole@ == most@.push(whole@.last()),
        n < 10 ==> whole@.len() == 1,
        shows_digit(whole@.last(), n as int % 10),
{
}

/// Two texts are the same exactly when their characters are.
pub proof fn same_texts_have_the_same_characters(a: &str, b: &str, res: bool)
    requires
        call_ensures(text::same_text, (a, b), res),
    ensures
        res <==> a@ == b@,
{
}

/// What was written as a number is read back as that number.
pub proof fn numbers_are_read_as_written(n: usize, written: String, s: &str, read: Option<usize>)
    requires
        call_ensures(text::decimal_text, (n as u128,), written),
        s@ == written@,
        call_ensures(text::parse_usize, (s,), read),
    ensures
        read == Some(n),
{
    text::written_number_is_read_back(n);
}

/// There is no number in an empty text, nor in a lone plus sign.
pub proof fn nothing_is_no_number(s: &str, read: Option<usize>)
    requires
        call_ensures(text::parse_usize, (s,), read),
        s@.len() == 0 || (s@.len() == 1 && s@[0] == '+'),
    ensures
        read is None,
{
}

/// Numbers are read digit by digit: one more digit makes ten times the number plus that
/// digit, if that fits, and what was no number stays none; any other character makes it
/// none.
pub proof fn numbers_are_read_digit_by_digit(
    s: &str,
    c: char,
    longer: &str,
    before: Option<usize>,
    after: Option<usize>,
)
    requires
        call_ensures(text::parse_usize, (s,), before),
        longer@ == s@.push(c),
        call_ensures(text::parse_usize, (longer,), after),
    ensures
        !('0' <= c <= '9') ==> after is None,
        '0' <= c <= '9' ==> {
            let d = c as int - 48;
            if s@.len() == 0 || (s@.len() == 1 && s@[0] == '+') {
                after is Some && after->0 == d
            } else {
                &&& after is Some <==> before is Some && before->0 * 10 + d <= usize::MAX
                &&& after matches Some(n) ==> n == before->0 * 10 + d
            }
        },
{
    let a = text::unsigned_part(s@);
    let b = text::unsigned_part(longer@);
    if s@.len() == 0 {
        if c == '+' {
            assert(b.len() == 0);
        } else {
            assert(b =~= seq![c]);
            assert(b[0] == c);
            assert(b.drop_last() =~= Seq::empty());
            assert(text::digits_value(b.drop_last()) == 0);
        }
    } else {
        assert(b =~= a.push(c));
        assert(b.drop_last() =~= a);
        assert(b[a.len() as int] == c);
        if text::all_digits(b) {
            assert forall|i: int| 0 <= i < a.len() implies text::is_digit(#[trigger] a[i]) by {
                assert(b[i] == a[i]);
            }
        }
        if text::all_digits(a) && text::is_digit(c) {
            assert forall|i: int| 0 <= i < b.len() implies text::is_digit(#[trigger] b[i]) by {
                if i < a.len() {
                    assert(b[i] == a[i]);
                }
            }
        }
    }
}

} // verus!
