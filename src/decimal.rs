use vstd::prelude::*;

verus! {

/// An ASCII decimal digit.
pub open spec fn is_digit(c: char) -> bool {
    '0' <= c && c <= '9'
}

/// The value of a string of decimal digits, most significant first.
pub open spec fn digits_value(d: Seq<char>) -> int
    decreases d.len(),
{
    if d.len() == 0 {
        0
    } else {
        10 * digits_value(d.drop_last()) + (d.last() as int - '0' as int)
    }
}

/// The integer written by an optional `+` or `-` sign followed by one or more
/// decimal digits; `None` for any other text.
pub open spec fn decimal_int(s: Seq<char>) -> Option<int> {
    let signed = s.len() > 0 && (s[0] == '-' || s[0] == '+');
    let d = if signed { s.drop_first() } else { s };
    if d.len() > 0 && forall|i: int| 0 <= i < d.len() ==> is_digit(#[trigger] d[i]) {
        if signed && s[0] == '-' {
            Some(-digits_value(d))
        } else {
            Some(digits_value(d))
        }
    } else {
        None
    }
}

/// What a decimal text means as an `i64`: `None` where it is not decimal or
/// does not fit.
pub open spec fn decimal_i64(s: Seq<char>) -> Option<i64> {
    match decimal_int(s) {
        Some(v) => if i64::MIN <= v && v <= i64::MAX {
            Some(v as i64)
        } else {
            None
        },
        None => None,
    }
}

/// Relies on `str::parse::<i64>` (i64's `FromStr`), documented to accept an
/// optional `+` or `-` sign followed by decimal digits only, and to fail on
/// an empty text, on any other character and on a value out of range.
#[verifier::external_body]
pub(crate) fn parse_i64(s: &str) -> (r: Option<i64>)
    ensures
        r == decimal_i64(s@),
{
    s.parse::<i64>().ok()
}

/// The digit character for a value below ten.
pub open spec fn digit_char(v: int) -> char {
    seq!['0', '1', '2', '3', '4', '5', '6', '7', '8', '9'][v]
}

/// The shortest decimal digits of a natural number.
pub open spec fn nat_digits(v: nat) -> Seq<char>
    decreases v,
{
    if v < 10 {
        seq![digit_char(v as int)]
    } else {
        nat_digits(v / 10).push(digit_char((v % 10) as int))
    }
}

/// The usual decimal text of an integer: a `-` before negative values.
pub open spec fn decimal_text(n: i64) -> Seq<char> {
    if n < 0 {
        seq!['-'] + nat_digits((-(n as int)) as nat)
    } else {
        nat_digits(n as nat)
    }
}

proof fn lemma_nat_digits(v: nat)
    ensures
        nat_digits(v).len() > 0,
        is_digit(nat_digits(v)[0]),
        forall|i: int| 0 <= i < nat_digits(v).len() ==> is_digit(#[trigger] nat_digits(v)[i]),
        digits_value(nat_digits(v)) == v,
    decreases v,
{
    if v < 10 {
        let d = nat_digits(v);
        assert(d.drop_last() =~= Seq::<char>::empty());
        reveal_with_fuel(digits_value, 2);
    } else {
        lemma_nat_digits(v / 10);
        let p = nat_digits(v / 10);
        let d = nat_digits(v);
        assert(d.drop_last() =~= p);
        assert forall|i: int| 0 <= i < d.len() implies is_digit(#[trigger] d[i]) by {
            if i < p.len() {
                assert(d[i] == p[i]);
            }
        }
    }
}

/// Reading back the decimal text of any `i64` gives that value.
pub proof fn lemma_decimal_text_round_trip(n: i64)
    ensures
        decimal_i64(decimal_text(n)) == Some(n),
{
    if n < 0 {
        let m = (-(n as int)) as nat;
        lemma_nat_digits(m);
        let s = decimal_text(n);
        assert(s.drop_first() =~= nat_digits(m));
        assert(s[0] == '-');
    } else {
        lemma_nat_digits(n as nat);
    }
}

} // verus!
