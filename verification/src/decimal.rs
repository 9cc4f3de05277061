//! Decimal notation: reading a machine integer from text and writing one out.

use vstd::prelude::*;

verus! {

/// Whether `c` is one of the ten decimal digits.
pub open spec fn is_digit(c: char) -> bool {
    '0' <= c <= '9'
}

/// The number that the digit `c` stands for.
pub open spec fn digit_value(c: char) -> nat
    recommends
        is_digit(c),
{
    (c as int - '0' as int) as nat
}

/// The digit that stands for `d`.
pub open spec fn digit_char(d: nat) -> char
    recommends
        d < 10,
{
    ('0' as int + d) as char
}

/// Whether `text` holds decimal digits only.
pub open spec fn all_digits(text: Seq<char>) -> bool {
    forall|i: int| 0 <= i < text.len() ==> is_digit(#[trigger] text[i])
}

/// The number that a run of digits denotes, most significant digit first.
/// The empty run denotes zero.
pub open spec fn digits_value(digits: Seq<char>) -> nat
    decreases digits.len(),
{
    if digits.len() == 0 {
        0
    } else {
        digits_value(digits.drop_last()) * 10 + digit_value(digits.last())
    }
}

/// `text` without the one plus sign that may lead it.
pub open spec fn without_sign(text: Seq<char>) -> Seq<char> {
    if text.len() > 0 && text[0] == '+' {
        text.drop_first()
    } else {
        text
    }
}

/// The number that `text` denotes: an optional plus sign followed by one or
/// more digits and nothing else. Any other text denotes no number.
pub open spec fn decimal_value(text: Seq<char>) -> Option<nat> {
    let digits = without_sign(text);
    if digits.len() > 0 && all_digits(digits) {
        Some(digits_value(digits))
    } else {
        None
    }
}

/// The machine integer that `text` denotes, if it denotes a number and that
/// number fits.
pub open spec fn usize_value(text: Seq<char>) -> Option<usize> {
    match decimal_value(text) {
        Some(value) => if value <= usize::MAX {
            Some(value as usize)
        } else {
            None
        },
        None => None,
    }
}

/// The decimal notation of `n`, without sign or leading zeros.
pub open spec fn decimal(n: nat) -> Seq<char>
    decreases n,
{
    if n < 10 {
        seq![digit_char(n)]
    } else {
        decimal(n / 10).push(digit_char(n % 10))
    }
}

/// A run of digits denotes at least what any of its prefixes denotes.
pub proof fn lemma_digits_value_prefix(digits: Seq<char>, k: int)
    requires
        0 <= k <= digits.len(),
    ensures
        digits_value(digits.take(k)) <= digits_value(digits),
    decreases digits.len(),
{
    if k == digits.len() {
        assert(digits.take(k) =~= digits);
    } else {
        lemma_digits_value_prefix(digits.drop_last(), k);
        assert(digits.drop_last().take(k) =~= digits.take(k));
    }
}

/// The decimal notation of a number holds digits only, at least one, and
/// denotes that number: reading what was written gives the number back.
pub proof fn lemma_decimal_round_trip(n: nat)
    ensures
        decimal(n).len() > 0,
        all_digits(decimal(n)),
        digits_value(decimal(n)) == n,
        decimal_value(decimal(n)) == Some(n),
    decreases n,
{
    let text = decimal(n);
    if n < 10 {
        assert(text.drop_last() =~= Seq::<char>::empty());
        assert(digits_value(text) == digits_value(text.drop_last()) * 10 + digit_value(
            text.last(),
        ));
    } else {
        lemma_decimal_round_trip(n / 10);
        assert(text.drop_last() =~= decimal(n / 10));
        assert(text.last() == digit_char(n % 10));
    }
    assert(is_digit(text[0]));
}

/// The number that the run of digits `digits` denotes, if it is a run of
/// one or more digits and the number fits in `usize`.
fn read_digits(digits: &str) -> (value: Option<usize>)
    ensures
        value == (if digits@.len() > 0 && all_digits(digits@) && digits_value(digits@)
            <= usize::MAX {
            Some(digits_value(digits@) as usize)
        } else {
            None
        }),
{
    let mut value: usize = 0;
    for c in it: digits.chars()
        invariant
            it.seq() == digits@,
            all_digits(digits@.take(it.index())),
            value == digits_value(digits@.take(it.index())),
    {
        let ghost read = digits@.take(it.index());
        let ghost next = digits@.take(it.index() + 1);
        assert(next.drop_last() =~= read);
        assert(next.last() == c);
        if !('0' <= c && c <= '9') {
            assert(!is_digit(digits@[it.index()]));
            return None;
        }
        let d: usize = (c as u32 - '0' as u32) as usize;
        let shifted = match value.checked_mul(10) {
            Some(shifted) => shifted.checked_add(d),
            None => None,
        };
        match shifted {
            Some(more) => {
                value = more;
            },
            None => {
                proof {
                    lemma_digits_value_prefix(digits@, it.index() + 1);
                }
                return None;
            },
        }
    }
    assert(digits@.take(digits@.len() as int) =~= digits@);
    if digits.is_empty() {
        None
    } else {
        Some(value)
    }
}

/// Reads a machine integer from `text`.
///
/// The text is an optional `+` followed by one or more decimal digits;
/// leading zeros are allowed. Text of any other shape, and a number that
/// does not fit in `usize`, give `None`.
pub fn parse_usize(text: &str) -> (value: Option<usize>)
    ensures
        value == usize_value(text@),
{
    let len = text.unicode_len();
    if len > 0 && text.get_char(0) == '+' {
        read_digits(text.substring_char(1, len))
    } else {
        read_digits(text)
    }
}

/// Appends the decimal notation of `n` to `out`.
pub fn push_decimal(out: &mut String, n: usize)
    ensures
        final(out)@ == old(out)@ + decimal(n as nat),
    decreases n,
{
    if n >= 10 {
        push_decimal(out, n / 10);
    }
    let d: usize = n % 10;
    proof {
        reveal_strlit("0123456789");
    }
    let digit = "0123456789".substring_char(d, d + 1);
    assert(digit@ =~= seq![digit_char(d as nat)]);
    out.append(digit);
    assert(out@ =~= old(out)@ + decimal(n as nat));
}

} // verus!
