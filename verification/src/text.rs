//! Small building blocks for text.
use vstd::prelude::*;

verus! {

/// The decimal digit of a number below ten.
pub open spec fn digit(value: nat) -> char
    recommends
        value < 10,
{
    seq!['0', '1', '2', '3', '4', '5', '6', '7', '8', '9'][value as int]
}

/// A number written in decimal, without leading zeros.
pub open spec fn decimal(value: nat) -> Seq<char>
    decreases value,
{
    if value < 10 {
        seq![digit(value)]
    } else {
        decimal(value / 10).push(digit(value % 10))
    }
}

/// The decimal digit of a number below ten, as text.
fn digit_text(value: u64) -> (r: &'static str)
    requires
        value < 10,
    ensures
        r@ == seq![digit(value as nat)],
{
    proof {
        reveal_strlit("0");
        reveal_strlit("1");
        reveal_strlit("2");
        reveal_strlit("3");
        reveal_strlit("4");
        reveal_strlit("5");
        reveal_strlit("6");
        reveal_strlit("7");
        reveal_strlit("8");
        reveal_strlit("9");
    }
    match value {
        0 => "0",
        1 => "1",
        2 => "2",
        3 => "3",
        4 => "4",
        5 => "5",
        6 => "6",
        7 => "7",
        8 => "8",
        _ => "9",
    }
}

/// Writes a number in decimal.
pub fn to_decimal(value: u64) -> (r: String)
    ensures
        r@ == decimal(value as nat),
    decreases value,
{
    if value < 10 {
        digit_text(value).to_owned()
    } else {
        let mut text = to_decimal(value / 10);
        text.append(digit_text(value % 10));
        assert(text@ =~= decimal((value / 10) as nat).push(digit((value % 10) as nat)));
        text
    }
}

/// A decimal numeral consists of digits.
pub proof fn lemma_decimal_digits(value: nat)
    ensures
        decimal(value).len() > 0,
        forall|i: int|
            0 <= i < decimal(value).len() ==> '0' <= #[trigger] decimal(value)[i] <= '9',
    decreases value,
{
    if value >= 10 {
        lemma_decimal_digits(value / 10);
    }
}

/// The number that a decimal numeral stands for.
pub open spec fn numeral_value(numeral: Seq<char>) -> int
    decreases numeral.len(),
{
    if numeral.len() == 0 {
        0
    } else {
        10 * numeral_value(numeral.drop_last()) + (numeral.last() as int - '0' as int)
    }
}

/// A number that is written in decimal is read back as the same number.
pub proof fn law_decimal_is_read_back(value: nat)
    ensures
        numeral_value(decimal(value)) == value,
    decreases value,
{
    let last = digit(value % 10);
    assert(last as int - '0' as int == value % 10);
    if value >= 10 {
        law_decimal_is_read_back(value / 10);
        assert(decimal(value).drop_last() =~= decimal(value / 10));
    } else {
        assert(decimal(value).drop_last() =~= Seq::<char>::empty());
        assert(numeral_value(Seq::<char>::empty()) == 0);
    }
}

/// A decimal numeral does not start with a zero, unless it is the one for zero.
pub proof fn law_decimal_has_no_leading_zero(value: nat)
    ensures
        value > 0 ==> decimal(value)[0] != '0',
        value == 0 ==> decimal(value) == seq!['0'],
    decreases value,
{
    if value >= 10 {
        law_decimal_has_no_leading_zero(value / 10);
        lemma_decimal_digits(value / 10);
    }
}

/// Different numbers have different numerals.
pub proof fn law_decimals_differ(first: nat, second: nat)
    requires
        first != second,
    ensures
        decimal(first) != decimal(second),
{
    law_decimal_is_read_back(first);
    law_decimal_is_read_back(second);
}

/// What is written for a number is read back as the same number.
pub proof fn law_written_number_is_read_back(value: u64, r: String)
    requires
        call_ensures(to_decimal, (value,), r),
    ensures
        numeral_value(r@) == value,
{
    law_decimal_is_read_back(value as nat);
}

} // verus!
