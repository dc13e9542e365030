//! Rendering and reading of the small texts that the control plane exchanges.

use vstd::prelude::*;

verus! {

/// The decimal digit that ends the number `n`.
pub open spec fn digit(n: nat) -> char {
    (48 + n % 10) as char
}

/// The number `n` in decimal, without leading zeros.
pub open spec fn decimal(n: nat) -> Seq<char>
    decreases n,
{
    if n < 10 {
        seq![digit(n)]
    } else {
        decimal(n / 10).push(digit(n))
    }
}

/// `c` is one of `0` to `9`.
pub open spec fn is_digit(c: char) -> bool {
    '0' <= c <= '9'
}

/// Every character of `s` is a decimal digit.
pub open spec fn all_digits(s: Seq<char>) -> bool {
    forall|i: int| 0 <= i < s.len() ==> is_digit(#[trigger] s[i])
}

/// The number that the digits of `s` denote, most significant first.
pub open spec fn digits_value(s: Seq<char>) -> nat
    decreases s.len(),
{
    if s.len() == 0 {
        0
    } else {
        digits_value(s.drop_last()) * 10 + (s.last() as nat - 48) as nat
    }
}

/// `s` without the plus sign that may stand in front of a number.
pub open spec fn unsigned_part(s: Seq<char>) -> Seq<char> {
    if s.len() > 0 && s[0] == '+' {
        s.skip(1)
    } else {
        s
    }
}

/// The machine-size number that `s` denotes: an optional plus sign, then
/// digits only, at least one of them, and a value that fits.
pub open spec fn parsed_usize(s: Seq<char>) -> Option<usize> {
    let body = unsigned_part(s);
    if body.len() > 0 && all_digits(body) && digits_value(body) <= usize::MAX {
        Some(digits_value(body) as usize)
    } else {
        None
    }
}

/// A copy of an optional text.
pub(crate) fn copy_of(value: &Option<String>) -> (res: Option<String>)
    ensures
        res == *value,
{
    match value {
        Some(t) => Some(t.clone()),
        None => None,
    }
}

/// `parts` with a comma and a space between them.
pub open spec fn comma_separated(parts: Seq<Seq<char>>) -> Seq<char>
    decreases parts.len(),
{
    if parts.len() == 0 {
        Seq::empty()
    } else if parts.len() == 1 {
        parts[0]
    } else {
        comma_separated(parts.drop_last()) + ", "@ + parts.last()
    }
}

/// What `<str as std::fmt::Debug>::fmt` makes of `s`: the text in quotation marks,
/// with characters escaped that do not print as themselves.
pub uninterp spec fn quoted(s: Seq<char>) -> Seq<char>;

/// Calls `<str as std::fmt::Debug>::fmt` through `format!`. Claims that the result is
/// determined by the text.
#[verifier::external_body]
pub(crate) fn quote(s: &str) -> (res: String)
    ensures
        res@ == quoted(s@),
{
    format!("{:?}", s)
}

/// Appends `part` to the comma-separated `parts` that `s` ends with.
pub(crate) fn append_part(s: &mut String, part: &str, Ghost(before): Ghost<Seq<char>>, Ghost(
    parts,
): Ghost<Seq<Seq<char>>>, first: bool)
    requires
        first == (parts.len() == 0),
        old(s)@ == before + comma_separated(parts),
    ensures
        final(s)@ == before + comma_separated(parts.push(part@)),
{
    if !first {
        s.append(", ");
    }
    s.append(part);
    proof {
        assert(parts.push(part@).drop_last() =~= parts);
        assert(s@ =~= before + comma_separated(parts.push(part@)));
    }
}

/// The single-character text of the digit `n`.
fn digit_text(n: u8) -> (res: &'static str)
    requires
        n < 10,
    ensures
        res@ == seq![digit(n as nat)],
{
    proof {
        reveal_strlit("0");
        reveal_strlit("1");
        reveal_strlit("2");
        reveal_strlit("3");
        reveal_strlit("4");
        reveal_strlit("5");
        reveal_strlit("6");
        reveal_strlit("7");
        reveal_strlit("8");
        reveal_strlit("9");
    }
    match n {
        0 => "0",
        1 => "1",
        2 => "2",
        3 => "3",
        4 => "4",
        5 => "5",
        6 => "6",
        7 => "7",
        8 => "8",
        _ => "9",
    }
}

/// Renders `n` in decimal.
pub fn decimal_text(n: u128) -> (res: String)
    ensures
        res@ == decimal(n as nat),
    decreases n,
{
    if n < 10 {
        digit_text(n as u8).to_owned()
    } else {
        let mut res = decimal_text(n / 10);
        res.append(digit_text((n % 10) as u8));
        res
    }
}

/// Two texts are the same, character by character.
pub fn same_text(a: &str, b: &str) -> (res: bool)
    ensures
        res == (a@ == b@),
{
    a.to_owned() == b.to_owned()
}

/// A number that is written down in decimal is read back as that number.
pub proof fn written_number_is_read_back(n: usize)
    ensures
        parsed_usize(decimal(n as nat)) == Some(n),
{
    lemma_decimal_digits(n as nat);
    let s = decimal(n as nat);
    assert(is_digit(s[0]));
    assert(s[0] != '+');
}

proof fn lemma_decimal_digits(n: nat)
    ensures
        decimal(n).len() > 0,
        all_digits(decimal(n)),
        digits_value(decimal(n)) == n,
    decreases n,
{
    if n < 10 {
        let s = seq![digit(n)];
        assert(s.drop_last() =~= Seq::empty());
        assert(digits_value(Seq::<char>::empty()) == 0);
        assert(s.last() as nat == 48 + n);
    } else {
        lemma_decimal_digits(n / 10);
        let s = decimal(n);
        assert(s.drop_last() =~= decimal(n / 10));
        assert(s.last() == digit(n));
        assert(s.last() as nat == 48 + n % 10);
        assert forall|i: int| 0 <= i < s.len() implies is_digit(#[trigger] s[i]) by {
            if i < s.len() - 1 {
                assert(s[i] == decimal(n / 10)[i]);
            }
        }
    }
}

/// A longer run of digits denotes no smaller a number.
proof fn lemma_prefix_value(s: Seq<char>, i: int)
    requires
        0 <= i <= s.len(),
    ensures
        digits_value(s.take(i)) <= digits_value(s),
    decreases s.len() - i,
{
    if i < s.len() {
        lemma_prefix_value(s, i + 1);
        assert(s.take(i + 1).drop_last() =~= s.take(i));
    } else {
        assert(s.take(i) =~= s);
    }
}

/// Reads a machine-size number the way a numeric setting is written.
pub fn parse_usize(s: &str) -> (res: Option<usize>)
    ensures
        res == parsed_usize(s@),
{
    let n: usize = s.unicode_len();
    let mut start: usize = 0;
    if n > 0 && s.get_char(0) == '+' {
        start = 1;
    }
    let ghost body = unsigned_part(s@);
    if start == n {
        return None;
    }
    let mut value: usize = 0;
    let mut i: usize = start;
    while i < n
        invariant
            n == s@.len(),
            start <= i <= n,
            start < n,
            body.len() == n - start,
            forall|j: int| 0 <= j < body.len() ==> body[j] == s@[start + j],
            forall|j: int| 0 <= j < i - start ==> is_digit(#[trigger] body[j]),
            value == digits_value(body.take(i - start)),
            body == unsigned_part(s@),
        decreases n - i,
    {
        let c: char = s.get_char(i);
        assert(c == body[i - start]);
        if !('0' <= c && c <= '9') {
            return None;
        }
        let d: usize = (c as u32 - 48) as usize;
        proof {
            assert(body.take(i - start + 1).drop_last() =~= body.take(i - start));
            assert(body.take(i - start + 1).last() == c);
            lemma_prefix_value(body, i - start + 1);
        }
        let scaled: usize = match value.checked_mul(10) {
            Some(v) => v,
            None => {
                return None;
            },
        };
        value = match scaled.checked_add(d) {
            Some(v) => v,
            None => {
                return None;
            },
        };
        i = i + 1;
    }
    proof {
        assert(body.take(n - start) =~= body);
    }
    Some(value)
}

} // verus!
