//! Decimal text of integers and small helpers on strings.
use vstd::prelude::*;

verus! {

/// The character of a decimal digit.
pub open spec fn digit_char(d: nat) -> char {
    if d == 0 {
        '0'
    } else if d == 1 {
        '1'
    } else if d == 2 {
        '2'
    } else if d == 3 {
        '3'
    } else if d == 4 {
        '4'
    } else if d == 5 {
        '5'
    } else if d == 6 {
        '6'
    } else if d == 7 {
        '7'
    } else if d == 8 {
        '8'
    } else {
        '9'
    }
}

/// The decimal digits of a natural number, most significant first, without
/// leading zeros.
pub open spec fn decimal(n: nat) -> Seq<char>
    decreases n,
{
    if n < 10 {
        seq![digit_char(n)]
    } else {
        decimal(n / 10).push(digit_char(n % 10))
    }
}

/// The decimal text of an integer: a minus sign before the digits of a
/// negative number.
pub open spec fn int_text(i: int) -> Seq<char> {
    if i < 0 {
        seq!['-'] + decimal((-i) as nat)
    } else {
        decimal(i as nat)
    }
}

/// Whether a character is an ASCII letter or digit.
pub open spec fn is_alphanumeric(c: char) -> bool {
    ('0' <= c && c <= '9') || ('a' <= c && c <= 'z') || ('A' <= c && c <= 'Z')
}

/// Whether `text` begins with `prefix`.
pub open spec fn starts_with(text: Seq<char>, prefix: Seq<char>) -> bool {
    prefix.len() <= text.len() && text.subrange(0, prefix.len() as int) == prefix
}

fn digit_str(d: u64) -> (r: &'static str)
    requires
        d < 10,
    ensures
        r@ == seq![digit_char(d as nat)],
{
    proof {
        reveal_strlit("0");
        reveal_strlit("1");
        reveal_strlit("2");
        reveal_strlit("3");
        reveal_strlit("4");
        reveal_strlit("5");
        reveal_strlit("6");
        reveal_strlit("7");
        reveal_strlit("8");
        reveal_strlit("9");
    }
    let r = if d == 0 {
        "0"
    } else if d == 1 {
        "1"
    } else if d == 2 {
        "2"
    } else if d == 3 {
        "3"
    } else if d == 4 {
        "4"
    } else if d == 5 {
        "5"
    } else if d == 6 {
        "6"
    } else if d == 7 {
        "7"
    } else if d == 8 {
        "8"
    } else {
        "9"
    };
    assert(r@ =~= seq![digit_char(d as nat)]);
    r
}

/// Appends the decimal digits of `n` to `out`.
pub fn push_decimal(out: &mut String, n: u64)
    ensures
        final(out)@ == old(out)@ + decimal(n as nat),
    decreases n,
{
    if n >= 10 {
        push_decimal(out, n / 10);
    }
    out.append(digit_str(n % 10));
    proof {
        if n >= 10 {
            assert(old(out)@ + decimal((n / 10) as nat) + seq![digit_char((n % 10) as nat)]
                =~= old(out)@ + decimal(n as nat));
        }
    }
}

/// The decimal text of a signed 64-bit integer.
pub fn i64_text(i: i64) -> (r: String)
    ensures
        r@ == int_text(i as int),
{
    let mut out = String::new();
    if i < 0 {
        proof {
            reveal_strlit("-");
        }
        out.append("-");
        let magnitude: u64 = ((-(i + 1)) as u64) + 1;
        push_decimal(&mut out, magnitude);
        assert(out@ =~= int_text(i as int));
    } else {
        push_decimal(&mut out, i as u64);
        assert(out@ =~= int_text(i as int));
    }
    out
}

/// Whether two strings hold the same characters.
pub fn str_eq(a: &str, b: &str) -> (r: bool)
    ensures
        r == (a@ == b@),
{
    let left = a.to_owned();
    let right = b.to_owned();
    left == right
}

/// `left`, then `mid`, then `right`, in one new string.
pub fn join3(left: &str, mid: &str, right: &str) -> (r: String)
    ensures
        r@ == left@ + mid@ + right@,
{
    let mut out = String::new();
    out.append(left);
    out.append(mid);
    out.append(right);
    assert(out@ =~= left@ + mid@ + right@);
    out
}

/// `left`, then `right`, in one new string.
pub fn join2(left: &str, right: &str) -> (r: String)
    ensures
        r@ == left@ + right@,
{
    let mut out = String::new();
    out.append(left);
    out.append(right);
    assert(out@ =~= left@ + right@);
    out
}

/// The digits of a number are digits: none of them is a sign or a
/// separator.
pub proof fn lemma_decimal_is_digits(n: nat)
    ensures
        decimal(n).len() >= 1,
        forall|k: int| 0 <= k < decimal(n).len() ==> '0' <= #[trigger] decimal(n)[k] <= '9',
    decreases n,
{
    if n >= 10 {
        lemma_decimal_is_digits(n / 10);
    }
}

/// Only a number below ten has a single digit.
pub proof fn lemma_decimal_len(n: nat)
    ensures
        decimal(n).len() == 1 <==> n < 10,
    decreases n,
{
    if n >= 10 {
        lemma_decimal_is_digits(n / 10);
    }
}

/// Two numbers with the same digits are the same number.
pub proof fn lemma_decimal_is_injective(a: nat, b: nat)
    requires
        decimal(a) == decimal(b),
    ensures
        a == b,
    decreases a,
{
    lemma_decimal_len(a);
    lemma_decimal_len(b);
    if a < 10 {
        assert(decimal(a)[0] == digit_char(a));
        assert(decimal(b)[0] == digit_char(b));
    } else {
        let high_a = decimal(a / 10);
        let high_b = decimal(b / 10);
        assert(decimal(a).drop_last() =~= high_a);
        assert(decimal(b).drop_last() =~= high_b);
        assert(decimal(a).last() == digit_char(a % 10));
        assert(decimal(b).last() == digit_char(b % 10));
        lemma_decimal_is_injective(a / 10, b / 10);
    }
}

/// The text of an integer holds a sign and digits, nothing else.
pub proof fn lemma_int_text_chars(i: int)
    ensures
        int_text(i).len() >= 1,
        forall|k: int|
            0 <= k < int_text(i).len() ==> {
                let c = #[trigger] int_text(i)[k];
                c == '-' || ('0' <= c && c <= '9')
            },
{
    if i < 0 {
        lemma_decimal_is_digits((-i) as nat);
    } else {
        lemma_decimal_is_digits(i as nat);
    }
}

/// Two integers with the same text are the same integer.
pub proof fn lemma_int_text_is_injective(a: int, b: int)
    requires
        int_text(a) == int_text(b),
    ensures
        a == b,
{
    lemma_decimal_is_digits(if a < 0 { (-a) as nat } else { a as nat });
    lemma_decimal_is_digits(if b < 0 { (-b) as nat } else { b as nat });
    if a < 0 && b < 0 {
        assert(int_text(a).skip(1) =~= decimal((-a) as nat));
        assert(int_text(b).skip(1) =~= decimal((-b) as nat));
        lemma_decimal_is_injective((-a) as nat, (-b) as nat);
    } else if a >= 0 && b >= 0 {
        lemma_decimal_is_injective(a as nat, b as nat);
    } else if a < 0 {
        assert(int_text(a)[0] == '-');
        assert(int_text(b)[0] == decimal(b as nat)[0]);
    } else {
        assert(int_text(b)[0] == '-');
        assert(int_text(a)[0] == decimal(a as nat)[0]);
    }
}

} // verus!
