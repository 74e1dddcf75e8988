//! Reading texts: endings and decimal numbers.

use vstd::prelude::*;
use vstd::string::{StrSliceExecFns, StringExecFns};

verus! {

/// `text` ends with `ending`.
pub open spec fn is_ending(text: Seq<char>, ending: Seq<char>) -> bool {
    &&& ending.len() <= text.len()
    &&& text.subrange(text.len() - ending.len(), text.len() as int) == ending
}

/// Whether `text` ends with `ending`.
pub fn ends_with(text: &str, ending: &str) -> (r: bool)
    ensures
        r == is_ending(text@, ending@),
{
    let long = text.unicode_len();
    let short = ending.unicode_len();
    if short > long {
        return false;
    }
    let start = long - short;
    let mut at: usize = 0;
    while at < short
        invariant
            at <= short,
            short == ending@.len(),
            long == text@.len(),
            start == long - short,
            forall|i: int| 0 <= i < at ==> text@[start + i] == ending@[i],
        decreases short - at,
    {
        if text.get_char(start + at) != ending.get_char(at) {
            proof {
                assert(text@.subrange(start as int, long as int)[at as int] == text@[start + at]);
            }
            return false;
        }
        at += 1;
    }
    proof {
        assert(text@.subrange(start as int, long as int) =~= ending@);
    }
    true
}

/// The value of a decimal digit.
pub open spec fn digit_value(c: char) -> Option<nat> {
    if '0' <= c <= '9' {
        Some((c as u32 - '0' as u32) as nat)
    } else {
        None
    }
}

/// The number that `digits` read as a decimal numeral, where each is a digit;
/// no digits read as zero.
pub open spec fn digits_value(digits: Seq<char>) -> Option<nat>
    decreases digits.len(),
{
    if digits.len() == 0 {
        Some(0)
    } else {
        match (digits_value(digits.drop_last()), digit_value(digits.last())) {
            (Some(front), Some(last)) => Some(front * 10 + last),
            _ => None,
        }
    }
}

/// The number that `text` reads as: a plus sign or none, then one or more
/// decimal digits whose number a `usize` holds.
pub open spec fn decimal_usize(text: Seq<char>) -> Option<usize> {
    let digits = if text.len() > 0 && text[0] == '+' {
        text.drop_first()
    } else {
        text
    };
    if digits.len() == 0 {
        None
    } else {
        match digits_value(digits) {
            Some(value) if value <= usize::MAX => Some(value as usize),
            _ => None,
        }
    }
}

/// What the first digits of a numeral read as decides on the whole: where they
/// do not read as a number, the numeral does not, and where they do, the
/// numeral reads as no less.
proof fn lemma_digits_prefix(digits: Seq<char>, upto: int)
    requires
        0 <= upto <= digits.len(),
    ensures
        digits_value(digits.take(upto)) is None ==> digits_value(digits) is None,
        digits_value(digits) matches Some(whole) ==> digits_value(digits.take(upto)) matches Some(
            part,
        ) && part <= whole,
    decreases digits.len() - upto,
{
    if upto == digits.len() {
        assert(digits.take(upto) =~= digits);
    } else {
        lemma_digits_prefix(digits.drop_last(), upto);
        assert(digits.drop_last().take(upto) =~= digits.take(upto));
    }
}

/// Reads `text` as a decimal number.
pub fn parse_decimal(text: &str) -> (r: Option<usize>)
    ensures
        r == decimal_usize(text@),
{
    let long = text.unicode_len();
    let start: usize = if long > 0 && text.get_char(0) == '+' {
        1
    } else {
        0
    };
    if start == long {
        return None;
    }
    let ghost digits = if start == 1 {
        text@.drop_first()
    } else {
        text@
    };
    let mut value: usize = 0;
    let mut at: usize = start;
    proof {
        assert(digits.take(0) =~= Seq::<char>::empty());
    }
    while at < long
        invariant
            start <= at <= long,
            long == text@.len(),
            digits.len() == long - start,
            digits.len() > 0,
            decimal_usize(text@) == match digits_value(digits) {
                Some(whole) if whole <= usize::MAX => Some(whole as usize),
                _ => None,
            },
            forall|i: int| 0 <= i < digits.len() ==> digits[i] == text@[start + i],
            digits_value(digits.take(at - start)) == Some(value as nat),
        decreases long - at,
    {
        let c = text.get_char(at);
        proof {
            let done = digits.take(at - start + 1);
            assert(done.drop_last() =~= digits.take(at - start));
            assert(done.last() == c);
            lemma_digits_prefix(digits, at - start + 1);
        }
        if c < '0' || c > '9' {
            return None;
        }
        let digit: usize = (c as u32 - '0' as u32) as usize;
        let next = match value.checked_mul(10) {
            Some(tens) => tens.checked_add(digit),
            None => None,
        };
        match next {
            Some(n) => {
                value = n;
            },
            None => {
                return None;
            },
        }
        at += 1;
    }
    proof {
        assert(digits.take(at - start) =~= digits);
    }
    Some(value)
}

/// The decimal digit with the value `value`.
pub open spec fn digit_char(value: nat) -> char {
    if value == 0 {
        '0'
    } else if value == 1 {
        '1'
    } else if value == 2 {
        '2'
    } else if value == 3 {
        '3'
    } else if value == 4 {
        '4'
    } else if value == 5 {
        '5'
    } else if value == 6 {
        '6'
    } else if value == 7 {
        '7'
    } else if value == 8 {
        '8'
    } else {
        '9'
    }
}

/// The decimal numeral of `number`, without leading zeros.
pub open spec fn digits_of(number: nat) -> Seq<char>
    decreases number,
{
    if number < 10 {
        seq![digit_char(number)]
    } else {
        digits_of(number / 10).push(digit_char(number % 10))
    }
}

/// The decimal numeral of `number`, with a minus sign before it where the
/// number is negative.
pub open spec fn signed_digits_of(number: int) -> Seq<char> {
    if number < 0 {
        seq!['-'] + digits_of((-number) as nat)
    } else {
        digits_of(number as nat)
    }
}

/// The numeral of a number reads as that number.
pub proof fn lemma_digits_read_back(number: nat)
    ensures
        digits_of(number).len() > 0,
        digits_value(digits_of(number)) == Some(number),
    decreases number,
{
    if number < 10 {
        assert(digits_of(number).drop_last() =~= Seq::<char>::empty());
        assert(digits_value(Seq::<char>::empty()) == Some(0nat));
        assert(digit_value(digit_char(number)) == Some(number));
    } else {
        lemma_digits_read_back(number / 10);
        assert(digits_of(number).drop_last() =~= digits_of(number / 10));
        assert(digit_value(digit_char(number % 10)) == Some(number % 10));
    }
}

fn digit_text(value: u64) -> (r: &'static str)
    requires
        value < 10,
    ensures
        r@ == seq![digit_char(value as nat)],
{
    proof {
        reveal_strlit("0");
        reveal_strlit("1");
        reveal_strlit("2");
        reveal_strlit("3");
        reveal_strlit("4");
        reveal_strlit("5");
        reveal_strlit("6");
        reveal_strlit("7");
        reveal_strlit("8");
        reveal_strlit("9");
    }
    let text = if value == 0 {
        "0"
    } else if value == 1 {
        "1"
    } else if value == 2 {
        "2"
    } else if value == 3 {
        "3"
    } else if value == 4 {
        "4"
    } else if value == 5 {
        "5"
    } else if value == 6 {
        "6"
    } else if value == 7 {
        "7"
    } else if value == 8 {
        "8"
    } else {
        "9"
    };
    proof {
        assert(text@ =~= seq![digit_char(value as nat)]);
    }
    text
}

/// The decimal numeral of `number`.
pub fn decimal_text(number: u64) -> (r: String)
    ensures
        r@ == digits_of(number as nat),
    decreases number,
{
    if number < 10 {
        String::from_str(digit_text(number))
    } else {
        let mut text = decimal_text(number / 10);
        text.append(digit_text(number % 10));
        proof {
            assert(digits_of((number / 10) as nat) + seq![digit_char((number % 10) as nat)]
                =~= digits_of(number as nat));
        }
        text
    }
}

/// The decimal numeral of `number`, with a minus sign before it where the
/// number is negative.
pub fn signed_decimal_text(number: i64) -> (r: String)
    ensures
        r@ == signed_digits_of(number as int),
{
    if number >= 0 {
        decimal_text(number as u64)
    } else {
        let size: u64 = if number == i64::MIN {
            9_223_372_036_854_775_808u64
        } else {
            (-number) as u64
        };
        let mut text = String::from_str("-");
        proof {
            reveal_strlit("-");
            assert("-"@ =~= seq!['-']);
        }
        let digits = decimal_text(size);
        text.append(digits.as_str());
        text
    }
}

} // verus!
