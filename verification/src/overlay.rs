//! The overlay reporter: the text that shows how many rectangles there should be.
//!
//! The text is written anew only on a tick in which the population store was touched.

use vstd::prelude::*;
use vstd::string::StringExecFns;

verus! {

/// The character of one decimal digit.
pub open spec fn digit(d: nat) -> char {
    if d == 0 {
        '0'
    } else if d == 1 {
        '1'
    } else if d == 2 {
        '2'
    } else if d == 3 {
        '3'
    } else if d == 4 {
        '4'
    } else if d == 5 {
        '5'
    } else if d == 6 {
        '6'
    } else if d == 7 {
        '7'
    } else if d == 8 {
        '8'
    } else {
        '9'
    }
}

/// How many decimal digits `count` has; zero has one.
pub open spec fn digits(count: u32) -> nat {
    if count < 10 {
        1
    } else if count < 100 {
        2
    } else if count < 1_000 {
        3
    } else if count < 10_000 {
        4
    } else if count < 100_000 {
        5
    } else if count < 1_000_000 {
        6
    } else if count < 10_000_000 {
        7
    } else if count < 100_000_000 {
        8
    } else if count < 1_000_000_000 {
        9
    } else {
        10
    }
}

/// Ten to the power of `exponent`, for the exponents up to nine that the digits of a
/// count have.
pub open spec fn power_of_ten(exponent: nat) -> nat {
    if exponent == 0 {
        1
    } else if exponent == 1 {
        10
    } else if exponent == 2 {
        100
    } else if exponent == 3 {
        1_000
    } else if exponent == 4 {
        10_000
    } else if exponent == 5 {
        100_000
    } else if exponent == 6 {
        1_000_000
    } else if exponent == 7 {
        10_000_000
    } else if exponent == 8 {
        100_000_000
    } else {
        1_000_000_000
    }
}

/// The digit of `count` that stands at `place`, counted from the left and from zero.
pub open spec fn digit_at(count: u32, place: int) -> char {
    digit(((count as nat) / power_of_ten((digits(count) - 1 - place) as nat)) % 10)
}

/// `count` written in decimal digits, without sign or leading zeros.
pub open spec fn decimal(count: u32) -> Seq<char> {
    Seq::new(digits(count), |place: int| digit_at(count, place))
}

/// One decimal digit as text.
fn digit_text(d: u32) -> (text: &'static str)
    requires
        d < 10,
    ensures
        text@ == seq![digit(d as nat)],
{
    proof {
        reveal_strlit("0");
        reveal_strlit("1");
        reveal_strlit("2");
        reveal_strlit("3");
        reveal_strlit("4");
        reveal_strlit("5");
        reveal_strlit("6");
        reveal_strlit("7");
        reveal_strlit("8");
        reveal_strlit("9");
    }
    let text = if d == 0 {
        "0"
    } else if d == 1 {
        "1"
    } else if d == 2 {
        "2"
    } else if d == 3 {
        "3"
    } else if d == 4 {
        "4"
    } else if d == 5 {
        "5"
    } else if d == 6 {
        "6"
    } else if d == 7 {
        "7"
    } else if d == 8 {
        "8"
    } else {
        "9"
    };
    assert(text@ =~= seq![digit(d as nat)]);
    text
}

/// How many decimal digits `count` has.
fn digits_of(count: u32) -> (length: u32)
    ensures
        length == digits(count),
{
    let mut length: u32 = 1;
    let mut bound: u32 = 10;
    while length < 10 && count >= bound
        invariant
            1 <= length <= 10,
            length < 10 ==> bound == power_of_ten(length as nat),
            length > 1 ==> count >= power_of_ten((length - 1) as nat),
        decreases 10 - length,
    {
        length = length + 1;
        if length < 10 {
            bound = bound * 10;
        }
    }
    length
}

/// Ten to the power of `exponent`.
fn power_of_ten_of(exponent: u32) -> (power: u32)
    requires
        exponent <= 9,
    ensures
        power == power_of_ten(exponent as nat),
{
    let mut power: u32 = 1;
    let mut done: u32 = 0;
    while done < exponent
        invariant
            done <= exponent <= 9,
            power == power_of_ten(done as nat),
        decreases exponent - done,
    {
        power = power * 10;
        done = done + 1;
    }
    power
}

/// `count` in decimal digits.
pub fn count_text(count: u32) -> (text: String)
    ensures
        text@ == decimal(count),
{
    let length: u32 = digits_of(count);
    let mut text = String::new();
    let mut place: u32 = 0;
    while place < length
        invariant
            place <= length,
            length == digits(count),
            text@ == Seq::new(place as nat, |i: int| digit_at(count, i)),
        decreases length - place,
    {
        let power: u32 = power_of_ten_of(length - 1 - place);
        text.append(digit_text((count / power) % 10));
        place = place + 1;
    }
    text
}

/// The text the counter is to show after this tick: the new target in decimal digits
/// where the population store was touched during the tick (`changed`), and `None`,
/// which leaves the counter as it is, where it was not.
pub fn stats_system(changed: bool, count: u32) -> (text: Option<String>)
    ensures
        match text {
            Some(shown) => changed && shown@ == decimal(count),
            None => !changed,
        },
{
    if changed {
        Some(count_text(count))
    } else {
        None
    }
}

} // verus!
