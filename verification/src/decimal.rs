//! Decimal notation for byte counts.

use vstd::prelude::*;
use vstd::string::*;

verus! {

/// The character that writes the digit `d`.
pub open spec fn digit_char(d: nat) -> char
    recommends
        d < 10,
{
    seq!['0', '1', '2', '3', '4', '5', '6', '7', '8', '9'][d as int]
}

/// `n` in decimal notation: most significant digit first, no sign, and no
/// leading zero except for zero itself.
pub open spec fn decimal_text(n: nat) -> Seq<char>
    decreases n,
{
    if n < 10 {
        seq![digit_char(n)]
    } else {
        decimal_text(n / 10).push(digit_char(n % 10))
    }
}

/// The notation of a number is made of digits alone, and begins with a zero
/// only where the number is zero.
pub proof fn lemma_decimal_text_is_a_numeral(n: nat)
    ensures
        decimal_text(n).len() >= 1,
        n < 10 <==> decimal_text(n).len() == 1,
        forall|i: int| 0 <= i < decimal_text(n).len() ==> '0' <= #[trigger] decimal_text(n)[i] <= '9',
        decimal_text(n)[0] == '0' ==> n == 0,
    decreases n,
{
    if n >= 10 {
        lemma_decimal_text_is_a_numeral(n / 10);
    }
}

/// A digit's character tells the digit.
pub proof fn lemma_digit_char(d: nat)
    requires
        d < 10,
    ensures
        digit_char(d) as int == '0' as int + d,
{
    if d == 0 {
    } else if d == 1 {
    } else if d == 2 {
    } else if d == 3 {
    } else if d == 4 {
    } else if d == 5 {
    } else if d == 6 {
    } else if d == 7 {
    } else if d == 8 {
    } else {
    }
}

/// The notation of a number tells the number: two numbers that are written
/// alike are one number.
pub proof fn lemma_decimal_text_tells_the_number(n: nat, m: nat)
    requires
        decimal_text(n) == decimal_text(m),
    ensures
        n == m,
    decreases n,
{
    lemma_decimal_text_is_a_numeral(n);
    lemma_decimal_text_is_a_numeral(m);
    lemma_digit_char(n % 10);
    lemma_digit_char(m % 10);
    if n >= 10 {
        let a = decimal_text(n / 10).push(digit_char(n % 10));
        let b = decimal_text(m / 10).push(digit_char(m % 10));
        assert(a.last() == b.last());
        assert(decimal_text(n / 10) =~= a.drop_last());
        assert(decimal_text(m / 10) =~= b.drop_last());
        lemma_decimal_text_tells_the_number(n / 10, m / 10);
    } else {
        assert(decimal_text(n)[0] == decimal_text(m)[0]);
    }
}

/// The notation of a number ends where the first character stands that is no
/// digit: if two texts begin with a number each, go on with something that
/// is no digit, and are the same text, the two numbers are one, and so is
/// what follows them.
pub proof fn lemma_decimal_text_prefix(n: nat, m: nat, ra: Seq<char>, rb: Seq<char>)
    requires
        decimal_text(n) + ra == decimal_text(m) + rb,
        ra.len() > 0 && !('0' <= ra[0] <= '9'),
        rb.len() > 0 && !('0' <= rb[0] <= '9'),
    ensures
        n == m,
        ra == rb,
{
    let dn = decimal_text(n);
    let dm = decimal_text(m);
    let a = dn + ra;
    let b = dm + rb;
    lemma_decimal_text_is_a_numeral(n);
    lemma_decimal_text_is_a_numeral(m);
    if dn.len() < dm.len() {
        assert(a[dn.len() as int] == ra[0]);
        assert(b[dn.len() as int] == dm[dn.len() as int]);
        assert(false);
    }
    if dm.len() < dn.len() {
        assert(b[dm.len() as int] == rb[0]);
        assert(a[dm.len() as int] == dn[dm.len() as int]);
        assert(false);
    }
    assert(dn =~= a.subrange(0, dn.len() as int));
    assert(dm =~= b.subrange(0, dm.len() as int));
    assert(ra =~= a.subrange(dn.len() as int, a.len() as int));
    assert(rb =~= b.subrange(dm.len() as int, b.len() as int));
    lemma_decimal_text_tells_the_number(n, m);
}

fn digit_str(d: u64) -> (text: &'static str)
    requires
        d < 10,
    ensures
        text@ == seq![digit_char(d as nat)],
{
    proof {
        reveal_strlit("0");
        reveal_strlit("1");
        reveal_strlit("2");
        reveal_strlit("3");
        reveal_strlit("4");
        reveal_strlit("5");
        reveal_strlit("6");
        reveal_strlit("7");
        reveal_strlit("8");
        reveal_strlit("9");
    }
    let text = if d == 0 {
        "0"
    } else if d == 1 {
        "1"
    } else if d == 2 {
        "2"
    } else if d == 3 {
        "3"
    } else if d == 4 {
        "4"
    } else if d == 5 {
        "5"
    } else if d == 6 {
        "6"
    } else if d == 7 {
        "7"
    } else if d == 8 {
        "8"
    } else {
        "9"
    };
    assert(text@ =~= seq![digit_char(d as nat)]);
    text
}

/// Writes `n` in decimal notation.
pub fn decimal_string(n: u64) -> (text: String)
    ensures
        text@ == decimal_text(n as nat),
    decreases n,
{
    if n < 10 {
        String::from_str(digit_str(n))
    } else {
        let mut text = decimal_string(n / 10);
        text.append(digit_str(n % 10));
        assert(text@ =~= decimal_text(n as nat));
        text
    }
}

} // verus!
