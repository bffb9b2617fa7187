//! Text of the numbers that appear in error reasons.
use vstd::prelude::*;
use vstd::string::StringExecFns;

verus! {

/// The character of a digit below sixteen, in lower case.
pub open spec fn digit_char(digit: nat) -> char {
    if digit < 10 {
        ('0' as int + digit) as char
    } else {
        ('a' as int + digit - 10) as char
    }
}

/// `value` written in `base`, most significant digit first, without leading zeros.
pub open spec fn digits(value: nat, base: nat) -> Seq<char>
    recommends
        2 <= base <= 16,
    decreases value,
{
    if base < 2 || value < base {
        seq![digit_char(value)]
    } else {
        proof {
            assert(value / base < value) by (nonlinear_arith)
                requires
                    2 <= base <= value,
            ;
        }
        digits(value / base, base).push(digit_char(value % base))
    }
}

/// `value` in decimal.
pub open spec fn decimal(value: nat) -> Seq<char> {
    digits(value, 10)
}

/// `value` in lower-case hexadecimal, after the prefix `0x`.
pub open spec fn hexadecimal(value: nat) -> Seq<char> {
    "0x"@ + digits(value, 16)
}

/// A result with the text of its reason in place of the string that holds it.
pub open spec fn reasoned<T>(res: Result<T, String>) -> Result<T, Seq<char>> {
    match res {
        Ok(value) => Ok(value),
        Err(reason) => Err(reason@),
    }
}

/// The decimal digit `digit` as a string.
fn decimal_digit(digit: u128) -> (res: &'static str)
    requires
        digit < 10,
    ensures
        res@ == seq![digit_char(digit as nat)],
{
    proof {
        reveal_strlit("0");
        reveal_strlit("1");
        reveal_strlit("2");
        reveal_strlit("3");
        reveal_strlit("4");
        reveal_strlit("5");
        reveal_strlit("6");
        reveal_strlit("7");
        reveal_strlit("8");
        reveal_strlit("9");
    }
    match digit {
        0 => "0",
        1 => "1",
        2 => "2",
        3 => "3",
        4 => "4",
        5 => "5",
        6 => "6",
        7 => "7",
        8 => "8",
        _ => "9",
    }
}

/// `value` in decimal.
pub fn decimal_text(value: u128) -> (res: String)
    ensures
        res@ == decimal(value as nat),
    decreases value,
{
    let last = decimal_digit(value % 10);
    if value < 10 {
        String::from_str(last)
    } else {
        let leading = decimal_text(value / 10);
        leading.concat(last)
    }
}

/// The number that a digit stands for.
pub open spec fn digit_read(c: char) -> nat {
    if '0' <= c <= '9' {
        (c as int - '0' as int) as nat
    } else {
        (c as int - 'a' as int + 10) as nat
    }
}

/// Whether `c` is a digit below `base`, in lower case.
pub open spec fn is_digit(c: char, base: nat) -> bool {
    ('0' <= c <= '9' || 'a' <= c <= 'f') && digit_read(c) < base
}

/// The number that a text stands for, read digit by digit from its most significant one.
pub open spec fn number_read(text: Seq<char>, base: nat) -> nat
    decreases text.len(),
{
    if text.len() == 0 {
        0
    } else {
        number_read(text.drop_last(), base) * base + digit_read(text.last())
    }
}

/// Whether `text` is how `value` is written in `base`: it has digits alone, at least one, no needless
/// zero in front, and reads as `value`.
pub open spec fn written(text: Seq<char>, value: nat, base: nat) -> bool {
    &&& text.len() >= 1
    &&& forall|i: int| 0 <= i < text.len() ==> is_digit(#[trigger] text[i], base)
    &&& text.len() > 1 ==> text[0] != '0'
    &&& number_read(text, base) == value
}

proof fn lemma_digits_written(value: nat, base: nat)
    requires
        2 <= base <= 16,
    ensures
        written(digits(value, base), value, base),
        value > 0 ==> digits(value, base)[0] != '0',
    decreases value,
{
    let text = digits(value, base);
    if value < base {
        assert(number_read(text.drop_last(), base) == 0);
        assert(0 * base == 0) by (nonlinear_arith);
        assert(digit_read(text.last()) == value);
        assert(is_digit(text[0], base));
    } else {
        assert(value / base < value && value / base > 0 && value % base < base && value == (value
            / base) * base + value % base) by (nonlinear_arith)
            requires
                2 <= base <= value,
        ;
        lemma_digits_written(value / base, base);
        assert(text.drop_last() =~= digits(value / base, base));
        assert(digit_read(text.last()) == value % base);
        assert forall|i: int| 0 <= i < text.len() implies is_digit(#[trigger] text[i], base) by {
            if i < text.len() - 1 {
                assert(text[i] == digits(value / base, base)[i]);
            }
        }
    }
}

/// The decimal text of a number is its decimal digits, and reads as the number.
pub proof fn law_decimal_reads_back(value: nat)
    ensures
        written(decimal(value), value, 10),
{
    lemma_digits_written(value, 10);
}

/// The hexadecimal text of a number is `0x` and its hexadecimal digits, and reads as the number.
pub proof fn law_hexadecimal_reads_back(value: nat)
    ensures
        hexadecimal(value).len() > 2,
        hexadecimal(value)[0] == '0',
        hexadecimal(value)[1] == 'x',
        written(hexadecimal(value).skip(2), value, 16),
{
    reveal_strlit("0x");
    lemma_digits_written(value, 16);
    assert(hexadecimal(value).skip(2) =~= digits(value, 16));
}

/// A result is told apart as it is: its value where it has one, the characters of its reason where
/// it has none.
pub proof fn law_result_is_kept<T>(value: T, reason: String)
    ensures
        reasoned(Ok::<T, String>(value)) == Ok::<T, Seq<char>>(value),
        reasoned(Err::<T, String>(reason)) == Err::<T, Seq<char>>(reason@),
{
}

} // verus!
