//! Decimal text and comparison of texts.
use vstd::prelude::*;
use vstd::string::*;

verus! {

/// The character that writes the decimal digit `d`.
pub open spec fn digit_char(d: int) -> char
    recommends
        0 <= d < 10,
{
    if d == 0 {
        '0'
    } else if d == 1 {
        '1'
    } else if d == 2 {
        '2'
    } else if d == 3 {
        '3'
    } else if d == 4 {
        '4'
    } else if d == 5 {
        '5'
    } else if d == 6 {
        '6'
    } else if d == 7 {
        '7'
    } else if d == 8 {
        '8'
    } else {
        '9'
    }
}

/// Whether `c` is one of the ten decimal digits.
pub open spec fn is_digit_char(c: char) -> bool {
    c == '0' || c == '1' || c == '2' || c == '3' || c == '4' || c == '5' || c == '6' || c == '7'
        || c == '8' || c == '9'
}

/// The value of the decimal digit `c`.
pub open spec fn digit_value(c: char) -> int
    recommends
        is_digit_char(c),
{
    if c == '0' {
        0
    } else if c == '1' {
        1
    } else if c == '2' {
        2
    } else if c == '3' {
        3
    } else if c == '4' {
        4
    } else if c == '5' {
        5
    } else if c == '6' {
        6
    } else if c == '7' {
        7
    } else if c == '8' {
        8
    } else {
        9
    }
}

/// The decimal digits of `n`, most significant first, without leading zeros.
pub open spec fn digits(n: nat) -> Seq<char>
    decreases n,
{
    if n < 10 {
        seq![digit_char(n as int)]
    } else {
        digits(n / 10).push(digit_char((n % 10) as int))
    }
}

/// The decimal text of `n`, with a minus sign for negative numbers.
pub open spec fn decimal(n: int) -> Seq<char> {
    if n < 0 {
        seq!['-'] + digits((-n) as nat)
    } else {
        digits(n as nat)
    }
}

/// The number that a run of decimal digits writes.
pub open spec fn digits_value(text: Seq<char>) -> nat
    decreases text.len(),
{
    if text.len() == 0 {
        0
    } else {
        (digits_value(text.drop_last()) * 10 + digit_value(text.last())) as nat
    }
}

/// Every character of `text` is a decimal digit.
pub open spec fn all_digits(text: Seq<char>) -> bool {
    forall|i: int| 0 <= i < text.len() ==> is_digit_char(#[trigger] text[i])
}

/// `digits` writes a non-empty run of digit characters that reads back as `n`.
pub proof fn lemma_digits_round_trip(n: nat)
    ensures
        digits(n).len() >= 1,
        all_digits(digits(n)),
        digits_value(digits(n)) == n,
    decreases n,
{
    if n < 10 {
        assert(digits(n).drop_last() =~= Seq::<char>::empty());
        assert(digits_value(digits(n).drop_last()) == 0);
    } else {
        lemma_digits_round_trip(n / 10);
        let shorter = digits(n / 10);
        let last = digit_char((n % 10) as int);
        assert(digits(n).drop_last() =~= shorter);
        assert(digits(n).last() == last);
        assert forall|i: int| 0 <= i < digits(n).len() implies is_digit_char(
            #[trigger] digits(n)[i],
        ) by {
            if i < shorter.len() {
                assert(digits(n)[i] == shorter[i]);
            }
        }
    }
}

/// Two numbers with the same decimal digits are equal.
pub proof fn lemma_digits_injective(a: nat, b: nat)
    requires
        digits(a) == digits(b),
    ensures
        a == b,
{
    lemma_digits_round_trip(a);
    lemma_digits_round_trip(b);
}

/// Appends the decimal digit `d` to `text`.
pub fn push_digit(text: String, d: u8) -> (longer: String)
    requires
        d < 10,
    ensures
        longer@ == text@.push(digit_char(d as int)),
{
    proof {
        reveal_strlit("0");
        reveal_strlit("1");
        reveal_strlit("2");
        reveal_strlit("3");
        reveal_strlit("4");
        reveal_strlit("5");
        reveal_strlit("6");
        reveal_strlit("7");
        reveal_strlit("8");
        reveal_strlit("9");
    }
    let longer = if d == 0 {
        text.concat("0")
    } else if d == 1 {
        text.concat("1")
    } else if d == 2 {
        text.concat("2")
    } else if d == 3 {
        text.concat("3")
    } else if d == 4 {
        text.concat("4")
    } else if d == 5 {
        text.concat("5")
    } else if d == 6 {
        text.concat("6")
    } else if d == 7 {
        text.concat("7")
    } else if d == 8 {
        text.concat("8")
    } else {
        text.concat("9")
    };
    assert(longer@ =~= text@.push(digit_char(d as int)));
    longer
}

/// Appends the decimal digits of `n` to `text`.
pub fn push_digits(text: String, n: u64) -> (longer: String)
    ensures
        longer@ == text@ + digits(n as nat),
    decreases n,
{
    if n < 10 {
        let longer = push_digit(text, n as u8);
        assert(longer@ =~= text@ + digits(n as nat));
        longer
    } else {
        let prefix = push_digits(text, n / 10);
        let longer = push_digit(prefix, (n % 10) as u8);
        assert(longer@ =~= text@ + digits(n as nat));
        longer
    }
}

/// Appends the decimal text of `n` to `text`.
pub fn push_decimal(text: String, n: i32) -> (longer: String)
    ensures
        longer@ == text@ + decimal(n as int),
{
    if n < 0 {
        proof {
            reveal_strlit("-");
        }
        let magnitude: u64 = (-(n as i64)) as u64;
        let longer = push_digits(text.concat("-"), magnitude);
        assert(longer@ =~= text@ + decimal(n as int));
        longer
    } else {
        push_digits(text, n as u64)
    }
}

/// The decimal text of `n`.
pub fn decimal_string(n: i32) -> (text: String)
    ensures
        text@ == decimal(n as int),
{
    let text = push_decimal(String::new(), n);
    assert(text@ =~= decimal(n as int));
    text
}

/// Whether two texts hold the same characters.
pub fn same_text(left: &str, right: &str) -> (same: bool)
    ensures
        same == (left@ == right@),
{
    let a = String::from_str(left);
    let b = String::from_str(right);
    a == b
}

} // verus!
