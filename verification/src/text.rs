//! Text of numbers and messages.

use vstd::prelude::*;

verus! {

/// The decimal digit of `d`, for `d` below ten.
pub open spec fn digit(d: nat) -> char {
    (('0' as u32) + d) as char
}

/// The decimal digits of `n`, without leading zeros.
pub open spec fn digits(n: nat) -> Seq<char>
    decreases n,
{
    if n < 10 {
        seq![digit(n)]
    } else {
        digits(n / 10).push(digit(n % 10))
    }
}

/// The decimal notation of `n`.
pub open spec fn decimal(n: int) -> Seq<char> {
    if n < 0 {
        seq!['-'] + digits((-n) as nat)
    } else {
        digits(n as nat)
    }
}

fn digit_text(d: u32) -> (text: &'static str)
    requires
        d < 10,
    ensures
        text@ == seq![digit(d as nat)],
{
    proof {
        reveal_strlit("0");
        reveal_strlit("1");
        reveal_strlit("2");
        reveal_strlit("3");
        reveal_strlit("4");
        reveal_strlit("5");
        reveal_strlit("6");
        reveal_strlit("7");
        reveal_strlit("8");
        reveal_strlit("9");
    }
    match d {
        0 => "0",
        1 => "1",
        2 => "2",
        3 => "3",
        4 => "4",
        5 => "5",
        6 => "6",
        7 => "7",
        8 => "8",
        _ => "9",
    }
}

fn digits_text(n: u32) -> (text: String)
    ensures
        text@ == digits(n as nat),
    decreases n,
{
    if n < 10 {
        String::from(digit_text(n))
    } else {
        let mut text = digits_text(n / 10);
        text.append(digit_text(n % 10));
        assert(text@ == digits(n as nat / 10).push(digit(n as nat % 10)));
        text
    }
}

/// The decimal notation of a return code.
pub fn decimal_text(n: i32) -> (text: String)
    ensures
        text@ == decimal(n as int),
{
    if n < 0 {
        proof {
            reveal_strlit("-");
        }
        let mut text = String::from("-");
        let magnitude: u32 = if n == i32::MIN {
            0x8000_0000
        } else {
            (-n) as u32
        };
        text.append(digits_text(magnitude).as_str());
        assert(text@ == decimal(n as int));
        text
    } else {
        digits_text(n as u32)
    }
}

/// `head` followed by `tail`.
pub fn joined(head: &str, tail: &str) -> (text: String)
    ensures
        text@ == head@ + tail@,
{
    let mut text = String::from(head);
    text.append(tail);
    text
}

/// Each digit is written as its own character.
pub proof fn law_digits_are_written_as_themselves()
    ensures
        digits(0) == seq!['0'],
        digits(1) == seq!['1'],
        digits(2) == seq!['2'],
        digits(3) == seq!['3'],
        digits(4) == seq!['4'],
        digits(5) == seq!['5'],
        digits(6) == seq!['6'],
        digits(7) == seq!['7'],
        digits(8) == seq!['8'],
        digits(9) == seq!['9'],
{
}

/// Ten times a number and a digit is written as the number and then the digit.
pub proof fn law_decimal_places(tens: nat, ones: nat)
    requires
        tens > 0,
        ones < 10,
    ensures
        digits(10 * tens + ones) == digits(tens) + digits(ones),
{
    let n = 10 * tens + ones;
    assert(n / 10 == tens && n % 10 == ones);
}

/// A number below zero is its magnitude behind a minus sign, and any other is
/// its digits alone.
pub proof fn law_minus_sign(n: nat)
    ensures
        n > 0 ==> decimal(-n) == seq!['-'] + digits(n),
        decimal(n as int) == digits(n),
{
}

/// A return code is written in decimal, and two texts are joined in order.
pub proof fn law_texts_are_as_told(n: i32, number: String, head: &str, tail: &str, text: String)
    requires
        call_ensures(decimal_text, (n,), number),
        call_ensures(joined, (head, tail), text),
    ensures
        number@ == decimal(n as int),
        text@ == head@ + tail@,
{
}

} // verus!
