//! Names and messages.

use vstd::prelude::*;
use vstd::string::*;

verus! {

/// The three texts, one after the other.
pub fn join(first: &str, second: &str, third: &str) -> (r: String)
    ensures
        r@ == first@ + second@ + third@,
{
    let mut text: String = String::from_str(first);
    text.append(second);
    text.append(third);
    text
}

/// The two texts, one after the other.
pub fn join_pair(first: &str, second: &str) -> (r: String)
    ensures
        r@ == first@ + second@,
{
    let mut text: String = String::from_str(first);
    text.append(second);
    text
}

/// The full name of something that belongs to the game itself.
pub open spec fn spec_namespaced(name: Seq<char>) -> Seq<char> {
    "minecraft:"@ + name
}

/// The full name of something that belongs to the game itself.
pub fn namespaced(name: &str) -> (r: String)
    ensures
        r@ == spec_namespaced(name@),
{
    join_pair("minecraft:", name)
}

/// The character of a digit.
pub open spec fn digit_char(digit: int) -> char {
    if digit == 0 {
        '0'
    } else if digit == 1 {
        '1'
    } else if digit == 2 {
        '2'
    } else if digit == 3 {
        '3'
    } else if digit == 4 {
        '4'
    } else if digit == 5 {
        '5'
    } else if digit == 6 {
        '6'
    } else if digit == 7 {
        '7'
    } else if digit == 8 {
        '8'
    } else {
        '9'
    }
}

/// A number that is not negative, written in decimal digits.
pub open spec fn digits_of(number: nat) -> Seq<char>
    decreases number,
{
    if number < 10 {
        seq![digit_char(number as int)]
    } else {
        digits_of(number / 10).push(digit_char((number % 10) as int))
    }
}

/// A number, written in decimal digits, with a sign before them where it is negative.
pub open spec fn decimal(number: int) -> Seq<char> {
    if number < 0 {
        seq!['-'] + digits_of((-number) as nat)
    } else {
        digits_of(number as nat)
    }
}

/// The text of a digit.
fn digit_text(digit: u64) -> (r: &'static str)
    requires
        digit < 10,
    ensures
        r@ == seq![digit_char(digit as int)],
{
    proof {
        reveal_strlit("0");
        reveal_strlit("1");
        reveal_strlit("2");
        reveal_strlit("3");
        reveal_strlit("4");
        reveal_strlit("5");
        reveal_strlit("6");
        reveal_strlit("7");
        reveal_strlit("8");
        reveal_strlit("9");
    }
    let text: &'static str = match digit {
        0 => "0",
        1 => "1",
        2 => "2",
        3 => "3",
        4 => "4",
        5 => "5",
        6 => "6",
        7 => "7",
        8 => "8",
        _ => "9",
    };
    assert(text@ =~= seq![digit_char(digit as int)]);
    text
}

/// A number that is not negative, written in decimal digits.
fn digits_text(number: u64) -> (r: String)
    ensures
        r@ == digits_of(number as nat),
    decreases number,
{
    if number < 10 {
        String::from_str(digit_text(number))
    } else {
        let mut text: String = digits_text(number / 10);
        let ghost front = text@;
        text.append(digit_text(number % 10));
        assert(text@ =~= front.push(digit_char((number % 10) as int)));
        text
    }
}

/// A number, written in decimal digits.
pub fn number_text(number: i64) -> (r: String)
    ensures
        r@ == decimal(number as int),
{
    if number < 0 {
        let size: u64 = if number == i64::MIN {
            0x8000_0000_0000_0000
        } else {
            (-number) as u64
        };
        proof {
            reveal_strlit("-");
            assert("-"@ =~= seq!['-']);
        }
        let digits: String = digits_text(size);
        join_pair("-", digits.as_str())
    } else {
        digits_text(number as u64)
    }
}

/// The number that decimal digits stand for.
pub open spec fn digit_value(digit: char) -> int {
    digit as int - '0' as int
}

/// The number that decimal digits stand for.
pub open spec fn value_of(digits: Seq<char>) -> int
    decreases digits.len(),
{
    if digits.len() == 0 {
        0
    } else {
        10 * value_of(digits.drop_last()) + digit_value(digits.last())
    }
}

/// The number that a text stands for, with or without a sign before its digits.
pub open spec fn number_of(text: Seq<char>) -> int {
    if text.len() > 0 && text[0] == '-' {
        -value_of(text.skip(1))
    } else {
        value_of(text)
    }
}

/// The digits of a number stand for it, and none of them is a sign.
proof fn lemma_digits(number: nat)
    ensures
        value_of(digits_of(number)) == number,
        digits_of(number).len() > 0,
        digits_of(number)[0] != '-',
    decreases number,
{
    if number < 10 {
        let digits = digits_of(number);
        assert(digits.drop_last() =~= Seq::empty());
        assert(value_of(digits.drop_last()) == 0);
    } else {
        lemma_digits(number / 10);
        let front = digits_of(number / 10);
        let digits = digits_of(number);
        assert(digits.drop_last() =~= front);
        assert(digits[0] == front[0]);
    }
}

/// Law: a number comes back from its text, so that different numbers have different texts.
pub proof fn law_number_comes_back(number: int)
    ensures
        number_of(decimal(number)) == number,
{
    if number < 0 {
        lemma_digits((-number) as nat);
        assert(decimal(number).skip(1) =~= digits_of((-number) as nat));
    } else {
        lemma_digits(number as nat);
    }
}

/// Law: different names stay different when they are written in full.
pub proof fn law_namespaced_is_injective(first: Seq<char>, second: Seq<char>)
    requires
        spec_namespaced(first) == spec_namespaced(second),
    ensures
        first == second,
{
    let prefix = "minecraft:"@;
    assert(first =~= spec_namespaced(first).skip(prefix.len() as int));
    assert(second =~= spec_namespaced(second).skip(prefix.len() as int));
}

/// Law: the text of a number stands for that number, is never empty, and begins with a sign just where
/// the number is below 0.
pub proof fn law_text_stands_for_its_number(number: i64, r: String)
    requires
        call_ensures(number_text, (number,), r),
    ensures
        number_of(r@) == number,
        r@.len() > 0,
        number < 0 <==> r@[0] == '-',
        0 <= number < 10 ==> r@.len() == 1,
        10 <= number < 100 ==> r@.len() == 2,
{
    law_number_comes_back(number as int);
    if number < 0 {
        assert(r@[0] == '-');
    } else {
        lemma_digits(number as nat);
    }
    reveal_with_fuel(digits_of, 3);
}

/// Law: a full name is the name after `minecraft:`, and texts that are joined stand one after the
/// other.
pub proof fn law_joined_texts(
    name: &str,
    full: String,
    first: &str,
    second: &str,
    third: &str,
    three: String,
    two: String,
)
    requires
        call_ensures(namespaced, (name,), full),
        call_ensures(join, (first, second, third), three),
        call_ensures(join_pair, (first, second), two),
    ensures
        full@ == "minecraft:"@ + name@,
        full@.len() == 10 + name@.len(),
        three@.len() == first@.len() + second@.len() + third@.len(),
        two@ + third@ == three@,
        two@.take(first@.len() as int) == first@,
        two@.skip(first@.len() as int) == second@,
{
    reveal_strlit("minecraft:");
    assert(two@.take(first@.len() as int) =~= first@);
    assert(two@.skip(first@.len() as int) =~= second@);
}

} // verus!
