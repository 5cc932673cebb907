//! Numbers written in decimal digits.

use vstd::prelude::*;

verus! {

/// The character for the digit `digit`.
pub open spec fn digit_char(digit: int) -> char {
    if digit == 0 {
        '0'
    } else if digit == 1 {
        '1'
    } else if digit == 2 {
        '2'
    } else if digit == 3 {
        '3'
    } else if digit == 4 {
        '4'
    } else if digit == 5 {
        '5'
    } else if digit == 6 {
        '6'
    } else if digit == 7 {
        '7'
    } else if digit == 8 {
        '8'
    } else {
        '9'
    }
}

/// The decimal digits of `number`, without leading zeros.
pub open spec fn decimal(number: nat) -> Seq<char>
    decreases number,
{
    if number < 10 {
        seq![digit_char(number as int)]
    } else {
        decimal(number / 10).push(digit_char((number % 10) as int))
    }
}

/// The decimal digits of `number`, after a minus sign where it is negative.
pub open spec fn signed_decimal(number: int) -> Seq<char> {
    if number < 0 {
        seq!['-'] + decimal((-number) as nat)
    } else {
        decimal(number as nat)
    }
}

/// The digit `digit` as a string of one character.
fn digit_text(digit: u64) -> (text: &'static str)
    requires
        digit < 10,
    ensures
        text@ == seq![digit_char(digit as int)],
{
    proof {
        reveal_strlit("0");
        reveal_strlit("1");
        reveal_strlit("2");
        reveal_strlit("3");
        reveal_strlit("4");
        reveal_strlit("5");
        reveal_strlit("6");
        reveal_strlit("7");
        reveal_strlit("8");
        reveal_strlit("9");
    }
    let text = if digit == 0 {
        "0"
    } else if digit == 1 {
        "1"
    } else if digit == 2 {
        "2"
    } else if digit == 3 {
        "3"
    } else if digit == 4 {
        "4"
    } else if digit == 5 {
        "5"
    } else if digit == 6 {
        "6"
    } else if digit == 7 {
        "7"
    } else if digit == 8 {
        "8"
    } else {
        "9"
    };
    assert(text@ =~= seq![digit_char(digit as int)]);
    text
}

/// Writes `number` in decimal digits.
pub fn decimal_string(number: u64) -> (text: String)
    ensures
        text@ == decimal(number as nat),
{
    let mut rest: u64 = number / 10;
    let mut text = String::from_str(digit_text(number % 10));
    let ghost mut tail: Seq<char> = seq![digit_char((number % 10) as int)];
    assert(text@ =~= tail);
    assert(number >= 10 ==> decimal(number as nat) =~= decimal(rest as nat) + tail);
    while rest > 0
        invariant
            text@ == tail,
            decimal(number as nat) == if rest == 0 {
                tail
            } else {
                decimal(rest as nat) + tail
            },
        decreases rest,
    {
        let digit = rest % 10;
        let head = String::from_str(digit_text(digit));
        proof {
            let longer = seq![digit_char(digit as int)] + tail;
            if rest < 10 {
                assert(decimal(rest as nat) + tail =~= longer);
            } else {
                assert(decimal(rest as nat) + tail =~= decimal((rest / 10) as nat) + longer);
            }
            tail = longer;
        }
        text = head.concat(text.as_str());
        rest = rest / 10;
    }
    text
}

/// Writes `number` in decimal digits, after a minus sign where it is
/// negative.
pub fn signed_decimal_string(number: i64) -> (text: String)
    ensures
        text@ == signed_decimal(number as int),
{
    if number < 0 {
        let size: u64 = (-(number + 1)) as u64 + 1;
        proof {
            reveal_strlit("-");
        }
        let digits = decimal_string(size);
        let text = String::from_str("-").concat(digits.as_str());
        assert(text@ =~= seq!['-'] + decimal((-number) as nat));
        text
    } else {
        decimal_string(number as u64)
    }
}

} // verus!
