//! Numbers, written in decimal.

use vstd::prelude::*;

verus! {

/// The character of one decimal digit.
pub open spec fn digit_text(digit: nat) -> char {
    ('0' as u32 + digit) as char
}

/// A number in decimal, without leading zeros.
pub open spec fn decimal_text(number: nat) -> Seq<char>
    decreases number,
{
    if number < 10 {
        seq![digit_text(number)]
    } else {
        decimal_text(number / 10).push(digit_text(number % 10))
    }
}

/// The number that decimal digits stand for.
pub open spec fn decimal_value(text: Seq<char>) -> nat
    decreases text.len(),
{
    if text.len() == 0 {
        0
    } else {
        decimal_value(text.drop_last()) * 10 + (text.last() as u32 - '0' as u32) as nat
    }
}

/// Reading a number's decimal digits gives the number back.
pub proof fn decimal_reads_back(number: nat)
    ensures
        decimal_value(decimal_text(number)) == number,
    decreases number,
{
    let text = decimal_text(number);
    if number < 10 {
        assert(text.drop_last() =~= Seq::<char>::empty());
        assert(decimal_value(text.drop_last()) == 0);
    } else {
        decimal_reads_back(number / 10);
        assert(text.drop_last() =~= decimal_text(number / 10));
    }
}

/// Two numbers that read the same are the same.
pub proof fn decimal_is_injective(left: nat, right: nat)
    requires
        decimal_text(left) == decimal_text(right),
    ensures
        left == right,
{
    decimal_reads_back(left);
    decimal_reads_back(right);
}

/// Decimal text is made of digits, at least one.
pub proof fn decimal_is_digits(number: nat)
    ensures
        0 < decimal_text(number).len(),
        forall|i: int|
            0 <= i < decimal_text(number).len() ==> '0' <= #[trigger] decimal_text(number)[i] <= '9',
    decreases number,
{
    if number >= 10 {
        decimal_is_digits(number / 10);
    }
}

/// Ten to the given power.
pub open spec fn ten_to(power: nat) -> nat
    decreases power,
{
    if power == 0 {
        1
    } else {
        10 * ten_to((power - 1) as nat)
    }
}

/// A number below `10^digits` has at most that many digits.
pub proof fn decimal_length(number: nat, digits: nat)
    requires
        digits > 0,
        number < ten_to(digits),
    ensures
        decimal_text(number).len() <= digits,
    decreases digits,
{
    if number >= 10 {
        assert(digits > 1) by {
            reveal_with_fuel(ten_to, 2);
        }
        decimal_length(number / 10, (digits - 1) as nat);
    }
}

/// Every 64-bit number has at most twenty digits.
pub proof fn decimal_of_u64(number: u64)
    ensures
        decimal_text(number as nat).len() <= 20,
{
    reveal_with_fuel(ten_to, 21);
    decimal_length(number as nat, 20);
}

/// The character of one decimal digit.
fn digit(value: u64) -> (character: char)
    requires
        value < 10,
    ensures
        character == digit_text(value as nat),
{
    match value {
        0 => '0',
        1 => '1',
        2 => '2',
        3 => '3',
        4 => '4',
        5 => '5',
        6 => '6',
        7 => '7',
        8 => '8',
        _ => '9',
    }
}

/// Write a number in decimal.
pub fn decimal(number: u64) -> (text: String)
    ensures
        text@ == decimal_text(number as nat),
    decreases number,
{
    let mut text: String = if number < 10 { String::new() } else { decimal(number / 10) };
    text.push(digit(number % 10));
    assert(text@ =~= decimal_text(number as nat));
    text
}

/// Decimal text is built digit by digit: a number below ten is its digit, and
/// any other number is the text of its tenth part followed by its last digit.
pub proof fn decimal_is_positional(number: nat, digit: nat)
    requires
        digit < 10,
    ensures
        decimal_text(digit) == seq![
            seq!['0', '1', '2', '3', '4', '5', '6', '7', '8', '9'][digit as int],
        ],
        number > 0 ==> decimal_text(10 * number + digit) == decimal_text(number) + decimal_text(
            digit,
        ),
{
    if number > 0 {
        assert((10 * number + digit) / 10 == number);
        assert((10 * number + digit) % 10 == digit);
        assert(decimal_text(10 * number + digit) =~= decimal_text(number) + decimal_text(digit));
    }
}

} // verus!
