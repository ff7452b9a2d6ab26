//! Currency codes and the minor-unit / base-unit conversion.
//!
//! Amounts are held internally as integer minor units; connectors expect the
//! decimal "base unit" string form. One shared, bidirectional conversion
//! crosses that boundary, and it is lossless: parsing a formatted amount
//! gives back the amount (see [`lemma_currency_round_trip`]).

use vstd::prelude::*;

use vstd::arithmetic::div_mod::lemma_fundamental_div_mod;

use crate::types::ConnectorError;

verus! {

/// ISO currency codes supported by the switch.
#[derive(Clone, Copy, Debug, PartialEq, Eq, Structural)]
pub enum Currency {
    AUD,
    BHD,
    EUR,
    GBP,
    INR,
    JOD,
    JPY,
    KRW,
    KWD,
    OMR,
    SGD,
    USD,
    VND,
}

impl Currency {
    /// Number of decimal digits in the base-unit form of this currency.
    pub open spec fn spec_exponent(self) -> nat {
        match self {
            Currency::JPY | Currency::KRW | Currency::VND => 0,
            Currency::BHD | Currency::JOD | Currency::KWD | Currency::OMR => 3,
            _ => 2,
        }
    }

    /// Executable counterpart of [`Currency::spec_exponent`].
    pub fn exponent(self) -> (e: u32)
        ensures
            e == self.spec_exponent(),
    {
        match self {
            Currency::JPY | Currency::KRW | Currency::VND => 0,
            Currency::BHD | Currency::JOD | Currency::KWD | Currency::OMR => 3,
            _ => 2,
        }
    }
}

/// Ten to the `e`.
pub open spec fn pow10(e: nat) -> nat
    decreases e,
{
    if e == 0 {
        1
    } else {
        10 * pow10((e - 1) as nat)
    }
}

/// The decimal digit character for a value below ten.
pub open spec fn digit_char(d: nat) -> char {
    if d == 0 {
        '0'
    } else if d == 1 {
        '1'
    } else if d == 2 {
        '2'
    } else if d == 3 {
        '3'
    } else if d == 4 {
        '4'
    } else if d == 5 {
        '5'
    } else if d == 6 {
        '6'
    } else if d == 7 {
        '7'
    } else if d == 8 {
        '8'
    } else {
        '9'
    }
}

/// Whether `c` is a decimal digit character.
pub open spec fn is_digit_char(c: char) -> bool {
    c == '0' || c == '1' || c == '2' || c == '3' || c == '4' || c == '5' || c == '6' || c == '7'
        || c == '8' || c == '9'
}

/// The value of a digit character; zero for anything else.
pub open spec fn digit_val(c: char) -> nat {
    if c == '1' {
        1
    } else if c == '2' {
        2
    } else if c == '3' {
        3
    } else if c == '4' {
        4
    } else if c == '5' {
        5
    } else if c == '6' {
        6
    } else if c == '7' {
        7
    } else if c == '8' {
        8
    } else if c == '9' {
        9
    } else {
        0
    }
}

/// The decimal digit string of `n`, without leading zeros (a single zero for
/// zero itself).
pub open spec fn digits_of(n: nat) -> Seq<char>
    decreases n,
{
    if n < 10 {
        seq![digit_char(n)]
    } else {
        digits_of(n / 10).push(digit_char(n % 10))
    }
}

/// The value of `f` written with exactly `e` decimal digits, leading zeros
/// kept.
pub open spec fn frac_digits(f: nat, e: nat) -> Seq<char>
    decreases e,
{
    if e == 0 {
        Seq::empty()
    } else {
        frac_digits(f / 10, (e - 1) as nat).push(digit_char(f % 10))
    }
}

/// The base-unit decimal string of `amount` minor units under exponent `e`:
/// the whole base units, then, if `e` is positive, a point and exactly `e`
/// fractional digits.
pub open spec fn base_unit_chars(amount: nat, e: nat) -> Seq<char> {
    if e == 0 {
        digits_of(amount)
    } else {
        digits_of(amount / pow10(e)) + seq!['.'] + frac_digits(amount % pow10(e), e)
    }
}

/// What the conversion to the base-unit string returns: defined exactly for
/// non-negative amounts.
pub open spec fn spec_to_currency_base_unit(amount: i64, c: Currency) -> Option<Seq<char>> {
    if amount >= 0 {
        Some(base_unit_chars(amount as nat, c.spec_exponent()))
    } else {
        None
    }
}

/// Whether every character of `s` is a decimal digit.
pub open spec fn all_digits(s: Seq<char>) -> bool {
    forall|i: int| 0 <= i < s.len() ==> is_digit_char(s[i])
}

/// The number a digit string denotes.
pub open spec fn parse_digits(s: Seq<char>) -> nat
    decreases s.len(),
{
    if s.len() == 0 {
        0
    } else {
        parse_digits(s.drop_last()) * 10 + digit_val(s.last())
    }
}

/// What parsing a base-unit string back to minor units returns under
/// exponent `e`: a non-empty digit string for exponent zero; otherwise a
/// non-empty integer part, a point, and exactly `e` fractional digits.
pub open spec fn spec_parse_base_unit(s: Seq<char>, e: nat) -> Option<nat> {
    if e == 0 {
        if s.len() > 0 && all_digits(s) {
            Some(parse_digits(s))
        } else {
            None
        }
    } else if s.len() >= e + 2 && s[s.len() - e - 1] == '.' {
        let int_part = s.subrange(0, s.len() - e - 1);
        let frac_part = s.subrange(s.len() - e, s.len() as int);
        if all_digits(int_part) && all_digits(frac_part) {
            Some(parse_digits(int_part) * pow10(e) + parse_digits(frac_part))
        } else {
            None
        }
    } else {
        None
    }
}

proof fn lemma_pow10_pos(e: nat)
    ensures
        pow10(e) >= 1,
    decreases e,
{
    if e > 0 {
        lemma_pow10_pos((e - 1) as nat);
    }
}

proof fn lemma_parse_digits_bound(s: Seq<char>)
    ensures
        parse_digits(s) < pow10(s.len()),
    decreases s.len(),
{
    if s.len() == 0 {
    } else {
        lemma_parse_digits_bound(s.drop_last());
        assert(parse_digits(s.drop_last()) <= pow10((s.len() - 1) as nat) - 1);
        assert(parse_digits(s.drop_last()) * 10 <= (pow10((s.len() - 1) as nat) - 1) * 10)
            by (nonlinear_arith)
            requires
                parse_digits(s.drop_last()) <= pow10((s.len() - 1) as nat) - 1,
        ;
    }
}

proof fn lemma_digits_of_props(n: nat)
    ensures
        digits_of(n).len() >= 1,
        all_digits(digits_of(n)),
        parse_digits(digits_of(n)) == n,
    decreases n,
{
    if n < 10 {
        let s = digits_of(n);
        assert(s.len() == 1);
        assert(s.drop_last() =~= Seq::<char>::empty());
        assert(parse_digits(s.drop_last()) == 0);
        assert(s.last() == digit_char(n));
        assert(parse_digits(s) == parse_digits(s.drop_last()) * 10 + digit_val(s.last()));
        assert(digit_val(digit_char(n)) == n);
        assert(is_digit_char(digit_char(n)));
    } else {
        lemma_digits_of_props(n / 10);
        lemma_fundamental_div_mod(n as int, 10);
        let s = digits_of(n);
        let prev = digits_of(n / 10);
        assert(s.drop_last() =~= prev);
        assert(s.last() == digit_char(n % 10));
        assert(parse_digits(s) == parse_digits(s.drop_last()) * 10 + digit_val(s.last()));
        assert(digit_val(digit_char(n % 10)) == n % 10);
        assert(is_digit_char(digit_char(n % 10)));
        assert forall|i: int| 0 <= i < s.len() implies is_digit_char(s[i]) by {
            if i < prev.len() {
                assert(s[i] == prev[i]);
            } else {
                assert(s[i] == digit_char(n % 10));
            }
        }
    }
}

proof fn lemma_frac_digits_props(f: nat, e: nat)
    requires
        f < pow10(e),
    ensures
        frac_digits(f, e).len() == e,
        all_digits(frac_digits(f, e)),
        parse_digits(frac_digits(f, e)) == f,
    decreases e,
{
    if e == 0 {
    } else {
        lemma_pow10_pos((e - 1) as nat);
        assert(f / 10 < pow10((e - 1) as nat)) by (nonlinear_arith)
            requires
                f < 10 * pow10((e - 1) as nat),
                pow10((e - 1) as nat) >= 1,
        ;
        lemma_frac_digits_props(f / 10, (e - 1) as nat);
        lemma_fundamental_div_mod(f as int, 10);
        let s = frac_digits(f, e);
        let prev = frac_digits(f / 10, (e - 1) as nat);
        assert(s.drop_last() =~= prev);
        assert(digit_val(digit_char(f % 10)) == f % 10);
        assert(is_digit_char(digit_char(f % 10)));
        assert forall|i: int| 0 <= i < s.len() implies is_digit_char(s[i]) by {
            if i < prev.len() {
                assert(s[i] == prev[i]);
            } else {
                assert(s[i] == digit_char(f % 10));
            }
        }
    }
}

proof fn lemma_parse_digits_prefix_le(s: Seq<char>, j: int)
    requires
        0 <= j <= s.len(),
    ensures
        parse_digits(s.take(j)) <= parse_digits(s),
    decreases s.len(),
{
    if j == s.len() {
        assert(s.take(j) =~= s);
    } else {
        assert(s.drop_last().take(j) =~= s.take(j));
        lemma_parse_digits_prefix_le(s.drop_last(), j);
    }
}

/// Currency round trip: formatting a non-negative minor-unit amount as the
/// base-unit string and parsing it back is lossless, for every supported
/// currency.
#[verifier::rlimit(50)]
pub proof fn lemma_currency_round_trip(amount: i64, c: Currency)
    requires
        0 <= amount,
    ensures
        spec_to_currency_base_unit(amount, c) matches Some(s)
            && spec_parse_base_unit(s, c.spec_exponent()) == Some(amount as nat),
{
    let a = amount as nat;
    let e = c.spec_exponent();
    if e == 0 {
        lemma_digits_of_props(a);
        let s = base_unit_chars(a, e);
        assert(s.len() > 0 && all_digits(s));
        assert(spec_parse_base_unit(s, e) == Some(a));
    } else {
        let p = pow10(e);
        lemma_pow10_pos(e);
        vstd::arithmetic::div_mod::lemma_mod_division_less_than_divisor(a as int, p as int);
        lemma_digits_of_props(a / p);
        lemma_frac_digits_props(a % p, e);
        lemma_fundamental_div_mod(a as int, p as int);
        let d = digits_of(a / p);
        let fr = frac_digits(a % p, e);
        let s = base_unit_chars(a, e);
        assert(s.len() == d.len() + 1 + e);
        assert(s[s.len() - e - 1] == '.');
        let int_part = s.subrange(0, s.len() - e - 1);
        let frac_part = s.subrange(s.len() - e, s.len() as int);
        assert(int_part =~= d);
        assert(frac_part =~= fr);
        assert(int_part.len() > 0);
        assert(all_digits(int_part) && all_digits(frac_part));
        assert(parse_digits(int_part) == a / p);
        assert(parse_digits(frac_part) == a % p);
        assert(spec_parse_base_unit(s, e) == Some((a / p) * p + a % p));
        assert((a / p) * p + a % p == a);
    }
}

fn pow10_exec(e: u32) -> (r: u64)
    requires
        e <= 3,
    ensures
        r == pow10(e as nat),
        r >= 1,
{
    proof {
        reveal_with_fuel(pow10, 5);
    }
    if e == 0 {
        1
    } else if e == 1 {
        10
    } else if e == 2 {
        100
    } else {
        1000
    }
}

fn append_digit_char(d: u64, out: &mut String)
    requires
        d < 10,
    ensures
        final(out)@ == old(out)@ + seq![digit_char(d as nat)],
{
    if d == 0 {
        proof {
            reveal_strlit("0");
            assert("0"@ =~= seq![digit_char(0)]);
        }
        out.append("0");
    } else if d == 1 {
        proof {
            reveal_strlit("1");
            assert("1"@ =~= seq![digit_char(1)]);
        }
        out.append("1");
    } else if d == 2 {
        proof {
            reveal_strlit("2");
            assert("2"@ =~= seq![digit_char(2)]);
        }
        out.append("2");
    } else if d == 3 {
        proof {
            reveal_strlit("3");
            assert("3"@ =~= seq![digit_char(3)]);
        }
        out.append("3");
    } else if d == 4 {
        proof {
            reveal_strlit("4");
            assert("4"@ =~= seq![digit_char(4)]);
        }
        out.append("4");
    } else if d == 5 {
        proof {
            reveal_strlit("5");
            assert("5"@ =~= seq![digit_char(5)]);
        }
        out.append("5");
    } else if d == 6 {
        proof {
            reveal_strlit("6");
            assert("6"@ =~= seq![digit_char(6)]);
        }
        out.append("6");
    } else if d == 7 {
        proof {
            reveal_strlit("7");
            assert("7"@ =~= seq![digit_char(7)]);
        }
        out.append("7");
    } else if d == 8 {
        proof {
            reveal_strlit("8");
            assert("8"@ =~= seq![digit_char(8)]);
        }
        out.append("8");
    } else {
        proof {
            reveal_strlit("9");
            assert("9"@ =~= seq![digit_char(9)]);
        }
        out.append("9");
    }
}

fn append_digits(n: u64, out: &mut String)
    ensures
        final(out)@ == old(out)@ + digits_of(n as nat),
    decreases n,
{
    if n >= 10 {
        proof {
            vstd::arithmetic::div_mod::lemma_div_is_strictly_smaller(n as int, 10);
        }
        append_digits(n / 10, out);
        append_digit_char(n % 10, out);
        proof {
            assert(old(out)@ + digits_of((n / 10) as nat) + seq![digit_char((n % 10) as nat)]
                =~= old(out)@ + digits_of(n as nat));
        }
    } else {
        append_digit_char(n, out);
    }
}

fn append_frac_digits(f: u64, e: u32, out: &mut String)
    ensures
        final(out)@ == old(out)@ + frac_digits(f as nat, e as nat),
    decreases e,
{
    if e == 0 {
        proof {
            assert(out@ =~= old(out)@ + frac_digits(f as nat, 0));
        }
    } else {
        append_frac_digits(f / 10, e - 1, out);
        append_digit_char(f % 10, out);
        proof {
            assert(old(out)@ + frac_digits((f / 10) as nat, (e - 1) as nat)
                + seq![digit_char((f % 10) as nat)] =~= old(out)@ + frac_digits(
                f as nat,
                e as nat,
            ));
        }
    }
}

/// Converts an integer minor-unit amount to the decimal base-unit string the
/// connector expects. Fails, without building anything, exactly on negative
/// amounts.
pub fn to_currency_base_unit(amount: i64, currency: Currency) -> (r: Result<
    String,
    ConnectorError,
>)
    ensures
        match r {
            Ok(s) => spec_to_currency_base_unit(amount, currency) == Some(s@),
            Err(e) => amount < 0 && e == ConnectorError::AmountConversionFailed,
        },
{
    if amount < 0 {
        return Err(ConnectorError::AmountConversionFailed);
    }
    let a: u64 = amount as u64;
    let e: u32 = currency.exponent();
    assert(e <= 3);
    let mut out = String::new();
    if e == 0 {
        append_digits(a, &mut out);
    } else {
        let p: u64 = pow10_exec(e);
        append_digits(a / p, &mut out);
        proof {
            reveal_strlit(".");
            assert("."@ =~= seq!['.']);
        }
        out.append(".");
        append_frac_digits(a % p, e, &mut out);
        proof {
            assert(out@ =~= base_unit_chars(a as nat, e as nat));
        }
    }
    Ok(out)
}

fn parse_digits_range(s: &str, from: usize, to: usize) -> (r: Result<u64, ConnectorError>)
    requires
        from <= to <= s@.len(),
    ensures
        match r {
            Ok(v) => to > from && all_digits(s@.subrange(from as int, to as int)) && v as nat
                == parse_digits(s@.subrange(from as int, to as int)) && v <= i64::MAX as u64,
            Err(e) => e == ConnectorError::AmountConversionFailed && (to == from || !all_digits(
                s@.subrange(from as int, to as int),
            ) || parse_digits(s@.subrange(from as int, to as int)) > i64::MAX),
        },
{
    if to == from {
        return Err(ConnectorError::AmountConversionFailed);
    }
    let ghost sub = s@.subrange(from as int, to as int);
    let mut acc: u64 = 0;
    let mut i: usize = from;
    while i < to
        invariant
            from <= i <= to <= s@.len(),
            sub == s@.subrange(from as int, to as int),
            acc as nat == parse_digits(s@.subrange(from as int, i as int)),
            acc <= i64::MAX as u64,
            all_digits(s@.subrange(from as int, i as int)),
        decreases to - i,
    {
        let c = s.get_char(i);
        let d: u64;
        if c == '0' {
            d = 0;
        } else if c == '1' {
            d = 1;
        } else if c == '2' {
            d = 2;
        } else if c == '3' {
            d = 3;
        } else if c == '4' {
            d = 4;
        } else if c == '5' {
            d = 5;
        } else if c == '6' {
            d = 6;
        } else if c == '7' {
            d = 7;
        } else if c == '8' {
            d = 8;
        } else if c == '9' {
            d = 9;
        } else {
            proof {
                assert(sub[i - from] == c);
                assert(!is_digit_char(sub[i - from]));
            }
            return Err(ConnectorError::AmountConversionFailed);
        }
        let ghost prev = s@.subrange(from as int, i as int);
        let ghost ext = s@.subrange(from as int, i + 1 as int);
        proof {
            assert(ext.drop_last() =~= prev);
            assert(ext.last() == c);
            assert(digit_val(c) == d);
            assert(parse_digits(ext) == acc * 10 + d);
        }
        if acc > (i64::MAX as u64 - d) / 10 {
            proof {
                let q = (i64::MAX - d) as int;
                lemma_fundamental_div_mod(q, 10);
                assert(acc * 10 > q - 9) by (nonlinear_arith)
                    requires
                        acc >= q / 10 + 1,
                        q == 10 * (q / 10) + q % 10,
                        0 <= q % 10 < 10,
                ;
                assert(parse_digits(ext) > i64::MAX);
                assert(sub.take(i + 1 - from) =~= ext);
                lemma_parse_digits_prefix_le(sub, i + 1 - from);
            }
            return Err(ConnectorError::AmountConversionFailed);
        }
        proof {
            let q = (i64::MAX - d) as int;
            lemma_fundamental_div_mod(q, 10);
            assert(acc * 10 <= q - q % 10) by (nonlinear_arith)
                requires
                    acc <= q / 10,
                    q == 10 * (q / 10) + q % 10,
            ;
        }
        acc = acc * 10 + d;
        i = i + 1;
    }
    Ok(acc)
}

/// Parses a base-unit decimal string back to the integer minor-unit amount.
/// Fails exactly when the string is not the base-unit form of any amount for
/// this currency, or when that amount does not fit the minor-unit range.
pub fn parse_currency_base_unit(s: &str, currency: Currency) -> (r: Result<i64, ConnectorError>)
    ensures
        match r {
            Ok(v) => 0 <= v && spec_parse_base_unit(s@, currency.spec_exponent()) == Some(
                v as nat,
            ),
            Err(e) => e == ConnectorError::AmountConversionFailed && match spec_parse_base_unit(
                s@,
                currency.spec_exponent(),
            ) {
                Some(n) => n > i64::MAX,
                None => true,
            },
        },
{
    let e: u32 = currency.exponent();
    assert(e <= 3);
    let len: usize = s.unicode_len();
    if e == 0 {
        match parse_digits_range(s, 0, len) {
            Ok(v) => {
                proof {
                    assert(s@.subrange(0, len as int) =~= s@);
                }
                Ok(v as i64)
            },
            Err(err) => {
                proof {
                    assert(s@.subrange(0, len as int) =~= s@);
                }
                Err(err)
            },
        }
    } else {
        if len < e as usize + 2 {
            return Err(ConnectorError::AmountConversionFailed);
        }
        let dot: usize = len - e as usize - 1;
        if s.get_char(dot) != '.' {
            return Err(ConnectorError::AmountConversionFailed);
        }
        let ghost int_part = s@.subrange(0, dot as int);
        let ghost frac_part = s@.subrange(dot + 1 as int, len as int);
        proof {
            assert(frac_part =~= s@.subrange(s@.len() - e, s@.len() as int));
            lemma_pow10_pos(e as nat);
        }
        let int_v: u64;
        match parse_digits_range(s, 0, dot) {
            Ok(v) => {
                int_v = v;
            },
            Err(err) => {
                proof {
                    let sp = spec_parse_base_unit(s@, e as nat);
                    if sp is Some {
                        let n = sp.unwrap();
                        assert(parse_digits(int_part) > i64::MAX);
                        assert(n >= parse_digits(int_part)) by (nonlinear_arith)
                            requires
                                n == parse_digits(int_part) * pow10(e as nat) + parse_digits(
                                    frac_part,
                                ),
                                pow10(e as nat) >= 1,
                        ;
                    }
                }
                return Err(err);
            },
        }
        let frac_v: u64;
        match parse_digits_range(s, dot + 1, len) {
            Ok(v) => {
                frac_v = v;
            },
            Err(err) => {
                proof {
                    let sp = spec_parse_base_unit(s@, e as nat);
                    if sp is Some {
                        let n = sp.unwrap();
                        assert(parse_digits(frac_part) > i64::MAX);
                        assert(n >= parse_digits(frac_part)) by (nonlinear_arith)
                            requires
                                n == parse_digits(int_part) * pow10(e as nat) + parse_digits(
                                    frac_part,
                                ),
                                pow10(e as nat) >= 1,
                        ;
                    }
                }
                return Err(err);
            },
        }
        let p: u64 = pow10_exec(e);
        proof {
            lemma_parse_digits_bound(frac_part);
            reveal_with_fuel(pow10, 5);
            assert(frac_part.len() == e);
            assert(frac_v < p);
        }
        if int_v > (i64::MAX as u64 - frac_v) / p {
            proof {
                let q = (i64::MAX - frac_v) as int;
                let pi = p as int;
                lemma_fundamental_div_mod(q, pi);
                assert(int_v * pi > q) by (nonlinear_arith)
                    requires
                        int_v >= q / pi + 1,
                        q == pi * (q / pi) + q % pi,
                        0 <= q % pi < pi,
                        pi >= 1,
                ;
            }
            return Err(ConnectorError::AmountConversionFailed);
        }
        proof {
            let q = (i64::MAX - frac_v) as int;
            let pi = p as int;
            lemma_fundamental_div_mod(q, pi);
            assert(int_v * pi <= q - q % pi) by (nonlinear_arith)
                requires
                    int_v <= q / pi,
                    q == pi * (q / pi) + q % pi,
                    0 <= q % pi < pi,
                    pi >= 1,
            ;
            assert(0 <= q % pi < pi);
        }
        let v: u64 = int_v * p + frac_v;
        Ok(v as i64)
    }
}

} // verus!
