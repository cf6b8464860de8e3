//! Decimal text of integers: writing it and reading it.

use vstd::prelude::*;
use vstd::string::{StrSliceExecFns, StringExecFns};

verus! {

/// The character of a decimal digit.
pub open spec fn digit_char(digit: int) -> char {
    if digit == 0 {
        '0'
    } else if digit == 1 {
        '1'
    } else if digit == 2 {
        '2'
    } else if digit == 3 {
        '3'
    } else if digit == 4 {
        '4'
    } else if digit == 5 {
        '5'
    } else if digit == 6 {
        '6'
    } else if digit == 7 {
        '7'
    } else if digit == 8 {
        '8'
    } else {
        '9'
    }
}

/// The decimal digits of a natural number, most significant first, without leading zeros.
pub open spec fn digits(n: nat) -> Seq<char>
    decreases n,
{
    if n < 10 {
        seq![digit_char(n as int)]
    } else {
        digits(n / 10).push(digit_char((n % 10) as int))
    }
}

/// The decimal text of an integer: a minus sign for a negative one, then its digits.
pub open spec fn decimal(n: int) -> Seq<char> {
    if n < 0 {
        seq!['-'] + digits((-n) as nat)
    } else {
        digits(n as nat)
    }
}

fn digit_text(digit: u64) -> (text: &'static str)
    requires
        digit < 10,
    ensures
        text@ == seq![digit_char(digit as int)],
{
    proof {
        reveal_strlit("0");
        reveal_strlit("1");
        reveal_strlit("2");
        reveal_strlit("3");
        reveal_strlit("4");
        reveal_strlit("5");
        reveal_strlit("6");
        reveal_strlit("7");
        reveal_strlit("8");
        reveal_strlit("9");
    }
    let text = if digit == 0 {
        "0"
    } else if digit == 1 {
        "1"
    } else if digit == 2 {
        "2"
    } else if digit == 3 {
        "3"
    } else if digit == 4 {
        "4"
    } else if digit == 5 {
        "5"
    } else if digit == 6 {
        "6"
    } else if digit == 7 {
        "7"
    } else if digit == 8 {
        "8"
    } else {
        "9"
    };
    assert(text@ =~= seq![digit_char(digit as int)]);
    text
}

/// Appends the decimal digits of `n` to `out`.
pub fn push_digits(out: &mut String, n: u64)
    ensures
        final(out)@ == old(out)@ + digits(n as nat),
    decreases n,
{
    if n >= 10 {
        push_digits(out, n / 10);
    }
    out.append(digit_text(n % 10));
    assert(final(out)@ =~= old(out)@ + digits(n as nat));
}

/// The decimal text of an unsigned integer.
pub fn unsigned_text(n: u64) -> (text: String)
    ensures
        text@ == decimal(n as int),
{
    let mut text = String::new();
    push_digits(&mut text, n);
    assert(text@ =~= decimal(n as int));
    text
}

/// The decimal text of a signed integer.
pub fn signed_text(n: i64) -> (text: String)
    ensures
        text@ == decimal(n as int),
{
    if n < 0 {
        let magnitude: u64 = ((-(n + 1)) as u64) + 1;
        let mut text = String::new();
        proof {
            reveal_strlit("-");
        }
        text.append("-");
        push_digits(&mut text, magnitude);
        assert(text@ =~= decimal(n as int));
        text
    } else {
        unsigned_text(n as u64)
    }
}

/// Whether a character is a decimal digit.
pub open spec fn is_digit(c: char) -> bool {
    '0' <= c <= '9'
}

/// The value of a decimal digit.
pub open spec fn digit_value(c: char) -> int {
    c as int - 0x30
}

/// Whether a text is one decimal digit or more, and nothing else.
pub open spec fn all_digits(text: Seq<char>) -> bool {
    text.len() > 0 && forall|i: int| 0 <= i < text.len() ==> is_digit(#[trigger] text[i])
}

/// The number that a text of decimal digits denotes.
pub open spec fn digits_value(text: Seq<char>) -> int
    decreases text.len(),
{
    if text.len() == 0 {
        0
    } else {
        digits_value(text.drop_last()) * 10 + digit_value(text.last())
    }
}

/// The integer that a text denotes: decimal digits, with at most one sign in front,
/// `-` or `+`. Any other text denotes none.
pub open spec fn integer_of(text: Seq<char>) -> Option<int> {
    if all_digits(text) {
        Some(digits_value(text))
    } else if text.len() > 0 && text[0] == '-' && all_digits(text.skip(1)) {
        Some(-digits_value(text.skip(1)))
    } else if text.len() > 0 && text[0] == '+' && all_digits(text.skip(1)) {
        Some(digits_value(text.skip(1)))
    } else {
        None
    }
}

/// What `parse_integer` returns: the integer that the text denotes, if it fits.
pub open spec fn parsed(text: Seq<char>) -> Option<i64> {
    match integer_of(text) {
        Some(n) => if i64::MIN <= n <= i64::MAX {
            Some(n as i64)
        } else {
            None
        },
        None => None,
    }
}

/// Reads a decimal integer. Returns `None` where the text denotes no integer, or one
/// that is out of range.
pub fn parse_integer(text: &str) -> (value: Option<i64>)
    ensures
        value == parsed(text@),
{
    let length = text.unicode_len();
    let mut signed = false;
    let mut negative = false;
    let mut overflow = false;
    let mut magnitude: u64 = 0;
    let mut index: usize = 0;
    for c in it: text.chars()
        invariant
            length == text@.len(),
            it.seq() == text@,
            index == it.index(),
            signed ==> index >= 1 && (text@[0] == '-' || text@[0] == '+'),
            signed ==> negative == (text@[0] == '-'),
            !signed && index >= 1 ==> is_digit(text@[0]),
            !signed ==> !negative,
            forall|i: int| (if signed { 1int } else { 0int }) <= i < index ==> is_digit(
                #[trigger] text@[i],
            ),
            !overflow ==> magnitude == digits_value(
                text@.subrange(if signed { 1int } else { 0int }, index as int),
            ),
            !overflow ==> magnitude <= 0x8000_0000_0000_0000,
            overflow ==> digits_value(
                text@.subrange(if signed { 1int } else { 0int }, index as int),
            ) > 0x8000_0000_0000_0000,
    {
        let ghost start = if signed { 1int } else { 0int };
        if index == 0 && (c == '-' || c == '+') {
            signed = true;
            negative = c == '-';
            assert(text@.subrange(1, 1).len() == 0);
        } else if '0' <= c && c <= '9' {
            let digit: u64 = (c as u64) - 0x30;
            let ghost before = text@.subrange(start, index as int);
            let ghost after = text@.subrange(start, index + 1);
            assert(after.drop_last() =~= before);
            assert(after.last() == c);
            if !overflow {
                if magnitude > (0x8000_0000_0000_0000 - digit) / 10 {
                    overflow = true;
                } else {
                    magnitude = magnitude * 10 + digit;
                }
            }
        } else {
            assert(!is_digit(text@[index as int]));
            assert(index >= 1 ==> text@.skip(1)[index - 1] == text@[index as int]);
            return None;
        }
        index = index + 1;
    }
    let ghost start = if signed { 1int } else { 0int };
    assert(text@.subrange(start, index as int) =~= text@.skip(start));
    assert(text@.skip(0) =~= text@);
    if signed && index == 1 {
        None
    } else if index == 0 {
        None
    } else if overflow {
        None
    } else if negative {
        if magnitude == 0x8000_0000_0000_0000 {
            Some(i64::MIN)
        } else {
            Some(-(magnitude as i64))
        }
    } else if magnitude <= 0x7fff_ffff_ffff_ffff {
        Some(magnitude as i64)
    } else {
        None
    }
}

proof fn lemma_digits_read_back(n: nat)
    ensures
        all_digits(digits(n)),
        digits_value(digits(n)) == n,
    decreases n,
{
    if n >= 10 {
        lemma_digits_read_back(n / 10);
        let front = digits(n / 10);
        let last = digit_char((n % 10) as int);
        assert(digits(n).drop_last() =~= front);
        assert(digits(n).last() == last);
        assert(digit_value(last) == n % 10);
        let text = digits(n);
        assert forall|i: int| 0 <= i < text.len() implies is_digit(#[trigger] text[i]) by {
            if i < front.len() {
                assert(text[i] == front[i]);
            }
        }
    } else {
        assert(digits(n).drop_last() =~= Seq::<char>::empty());
        assert(digits_value(Seq::<char>::empty()) == 0);
        assert(digit_value(digit_char(n as int)) == n);
    }
}

/// The decimal text of an integer denotes that integer: reading undoes writing.
pub proof fn lemma_decimal_reads_back(n: int)
    ensures
        integer_of(decimal(n)) == Some(n),
{
    if n < 0 {
        lemma_digits_read_back((-n) as nat);
        let text = decimal(n);
        assert(text[0] == '-');
        assert(!is_digit(text[0]));
        assert(text.skip(1) =~= digits((-n) as nat));
    } else {
        lemma_digits_read_back(n as nat);
    }
}

} // verus!
