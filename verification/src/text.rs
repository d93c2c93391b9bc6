//! Decimal numerals, as the wire protocol and the messages write them.

use vstd::prelude::*;
use vstd::string::StringExecFns;

verus! {

/// The character that stands for the digit `d`.
pub open spec fn digit(d: nat) -> char {
    if d == 0 {
        '0'
    } else if d == 1 {
        '1'
    } else if d == 2 {
        '2'
    } else if d == 3 {
        '3'
    } else if d == 4 {
        '4'
    } else if d == 5 {
        '5'
    } else if d == 6 {
        '6'
    } else if d == 7 {
        '7'
    } else if d == 8 {
        '8'
    } else {
        '9'
    }
}

/// The decimal numeral of `n`, without sign or leading zeros.
pub open spec fn decimal(n: nat) -> Seq<char>
    decreases n,
{
    if n < 10 {
        seq![digit(n)]
    } else {
        decimal(n / 10).push(digit(n % 10))
    }
}

/// The decimal numeral of `n`, with a minus sign in front of a negative one.
pub open spec fn signed_decimal(n: int) -> Seq<char> {
    if n < 0 {
        seq!['-'] + decimal((-n) as nat)
    } else {
        decimal(n as nat)
    }
}

/// The one-character text of a single digit.
fn digit_text(d: u64) -> (text: &'static str)
    requires
        d < 10,
    ensures
        text@ == seq![digit(d as nat)],
{
    proof {
        reveal_strlit("0");
        reveal_strlit("1");
        reveal_strlit("2");
        reveal_strlit("3");
        reveal_strlit("4");
        reveal_strlit("5");
        reveal_strlit("6");
        reveal_strlit("7");
        reveal_strlit("8");
        reveal_strlit("9");
    }
    let text: &'static str = if d == 0 {
        "0"
    } else if d == 1 {
        "1"
    } else if d == 2 {
        "2"
    } else if d == 3 {
        "3"
    } else if d == 4 {
        "4"
    } else if d == 5 {
        "5"
    } else if d == 6 {
        "6"
    } else if d == 7 {
        "7"
    } else if d == 8 {
        "8"
    } else {
        "9"
    };
    assert(text@ =~= seq![digit(d as nat)]);
    text
}

/// Appends the decimal numeral of `n` to `out`.
pub fn push_decimal(out: &mut String, n: u64)
    ensures
        final(out)@ == old(out)@ + decimal(n as nat),
    decreases n,
{
    if n < 10 {
        out.append(digit_text(n));
    } else {
        push_decimal(out, n / 10);
        out.append(digit_text(n % 10));
        assert(old(out)@ + decimal((n / 10) as nat) + seq![digit((n % 10) as nat)] =~= old(out)@
            + decimal(n as nat));
    }
}

/// The decimal numeral of `n`.
pub fn u64_to_decimal(n: u64) -> (text: String)
    ensures
        text@ == decimal(n as nat),
{
    let mut text = String::new();
    push_decimal(&mut text, n);
    assert(Seq::<char>::empty() + decimal(n as nat) =~= decimal(n as nat));
    text
}

/// The decimal numeral of `n`, with a minus sign if it is negative.
pub fn i64_to_decimal(n: i64) -> (text: String)
    ensures
        text@ == signed_decimal(n as int),
{
    if n < 0 {
        proof {
            reveal_strlit("-");
        }
        // `-(n + 1)` fits where `-n` would not for the least value.
        let magnitude: u64 = (-(n + 1)) as u64 + 1;
        let mut text = String::from_str("-");
        push_decimal(&mut text, magnitude);
        assert(text@ =~= seq!['-'] + decimal((-n) as nat));
        text
    } else {
        u64_to_decimal(n as u64)
    }
}

/// The digit that the character `c` stands for; 9 for one that stands for
/// none.
pub open spec fn digit_value(c: char) -> nat {
    if c == '0' {
        0
    } else if c == '1' {
        1
    } else if c == '2' {
        2
    } else if c == '3' {
        3
    } else if c == '4' {
        4
    } else if c == '5' {
        5
    } else if c == '6' {
        6
    } else if c == '7' {
        7
    } else if c == '8' {
        8
    } else {
        9
    }
}

/// The number that a run of digits writes.
pub open spec fn numeral_value(digits: Seq<char>) -> nat
    decreases digits.len(),
{
    if digits.len() == 0 {
        0
    } else {
        numeral_value(digits.drop_last()) * 10 + digit_value(digits.last())
    }
}

/// A numeral writes its number.
pub proof fn lemma_decimal_value(n: nat)
    ensures
        numeral_value(decimal(n)) == n,
    decreases n,
{
    if n < 10 {
        assert(decimal(n).drop_last() =~= Seq::<char>::empty());
        assert(numeral_value(decimal(n).drop_last()) == 0);
    } else {
        lemma_decimal_value(n / 10);
        assert(decimal(n).drop_last() =~= decimal(n / 10));
    }
}

/// Two numbers with the same numeral are the same number.
pub proof fn lemma_decimal_is_injective(a: nat, b: nat)
    requires
        decimal(a) == decimal(b),
    ensures
        a == b,
{
    lemma_decimal_value(a);
    lemma_decimal_value(b);
}

/// Two numbers with the same signed numeral are the same number.
pub proof fn lemma_signed_decimal_is_injective(a: int, b: int)
    requires
        signed_decimal(a) == signed_decimal(b),
    ensures
        a == b,
{
    lemma_decimal_is_digits((-a) as nat);
    lemma_decimal_is_digits((-b) as nat);
    lemma_decimal_is_digits(a as nat);
    lemma_decimal_is_digits(b as nat);
    if a < 0 {
        let text_a = seq!['-'] + decimal((-a) as nat);
        assert(signed_decimal(a)[0] == '-');
        if b >= 0 {
            assert(signed_decimal(b)[0] == decimal(b as nat)[0]);
            assert(false);
        }
        let text_b = seq!['-'] + decimal((-b) as nat);
        assert(text_a.subrange(1, text_a.len() as int) =~= decimal((-a) as nat));
        assert(text_b.subrange(1, text_b.len() as int) =~= decimal((-b) as nat));
        lemma_decimal_is_injective((-a) as nat, (-b) as nat);
    } else {
        if b < 0 {
            assert(signed_decimal(b)[0] == '-');
            assert(signed_decimal(a)[0] == decimal(a as nat)[0]);
            assert(false);
        }
        lemma_decimal_is_injective(a as nat, b as nat);
    }
}

/// A signed numeral holds no line feed.
pub proof fn lemma_signed_decimal_is_one_line(n: int)
    ensures
        !signed_decimal(n).contains('\n'),
{
    lemma_decimal_is_digits((-n) as nat);
    lemma_decimal_is_digits(n as nat);
    if signed_decimal(n).contains('\n') {
        let at = choose|i: int| 0 <= i < signed_decimal(n).len() && signed_decimal(n)[i] == '\n';
        if n < 0 {
            if at > 0 {
                assert(signed_decimal(n)[at] == decimal((-n) as nat)[at - 1]);
            }
        } else {
            assert(signed_decimal(n)[at] == decimal(n as nat)[at]);
        }
        assert(false);
    }
}

/// Every numeral has at least one character, and each of them is a digit.
pub proof fn lemma_decimal_is_digits(n: nat)
    ensures
        decimal(n).len() >= 1,
        forall|i: int| 0 <= i < decimal(n).len() ==> '0' <= #[trigger] decimal(n)[i] <= '9',
    decreases n,
{
    if n >= 10 {
        lemma_decimal_is_digits(n / 10);
    }
}

} // verus!
