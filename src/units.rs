use vstd::prelude::*;

verus! {

/// Ten to the power `n`.
pub open spec fn pow10(n: nat) -> int
    decreases n,
{
    if n == 0 {
        1
    } else {
        10 * pow10((n - 1) as nat)
    }
}

/// The magnitude of `m`.
pub open spec fn magnitude(m: int) -> int {
    if m < 0 {
        -m
    } else {
        m
    }
}

/// The decimal `mantissa / 10^scale` as a whole number of units of
/// `10^-unit_scale`, or nothing when it is not a whole number of them.
pub open spec fn units_of(mantissa: int, scale: nat, unit_scale: nat) -> Option<int> {
    let a = magnitude(mantissa);
    let sign = if mantissa < 0 {
        -1int
    } else {
        1int
    };
    if scale <= unit_scale {
        Some(mantissa * pow10((unit_scale - scale) as nat))
    } else if a % pow10((scale - unit_scale) as nat) == 0 {
        Some(sign * (a / pow10((scale - unit_scale) as nat)))
    } else {
        None
    }
}

/// The whole number of units of `10^-unit_scale` that `text` spells, when it
/// spells a decimal that is one and fits an `i64`.
pub open spec fn text_units(text: Seq<char>, unit_scale: nat) -> Option<int> {
    match decimal_text(text) {
        Some((m, s)) => match units_of(m as int, s as nat, unit_scale) {
            Some(v) => if i64::MIN <= v <= i64::MAX {
                Some(v)
            } else {
                None
            },
            None => None,
        },
        None => None,
    }
}

/// The decimal that `text` spells, as mantissa and scale, when it is one.
pub uninterp spec fn decimal_text(text: Seq<char>) -> Option<(i128, u32)>;

/// Relies on rust_decimal's `Decimal::from_str_exact`, `mantissa` and `scale`:
/// the exact decimal written in `text`, or nothing when the text is not one
/// that a `Decimal` holds without rounding.
#[verifier::external_body]
fn parse_decimal(text: &str) -> (r: Option<(i128, u32)>)
    ensures
        r == decimal_text(text@),
{
    match rust_decimal::Decimal::from_str_exact(text) {
        Ok(d) => Some((d.mantissa(), d.scale())),
        Err(_) => None,
    }
}

proof fn lemma_pow10_positive(n: nat)
    ensures
        pow10(n) >= 1,
    decreases n,
{
    if n > 0 {
        lemma_pow10_positive((n - 1) as nat);
    }
}

proof fn lemma_pow10_split(a: nat, b: nat)
    ensures
        pow10(a + b) == pow10(a) * pow10(b),
    decreases a,
{
    if a > 0 {
        lemma_pow10_split((a - 1) as nat, b);
        assert(pow10(a + b) == 10 * pow10((a - 1 + b) as nat));
        assert(10 * (pow10((a - 1) as nat) * pow10(b)) == (10 * pow10((a - 1) as nat)) * pow10(
            b,
        )) by (nonlinear_arith);
    }
}

/// Scales `mantissa / 10^scale` to a whole number of units of
/// `10^-unit_scale`: nothing when it is not whole or does not fit an `i64`.
pub fn decimal_to_units(mantissa: i128, scale: u32, unit_scale: u32) -> (r: Option<i64>)
    ensures
        match units_of(mantissa as int, scale as nat, unit_scale as nat) {
            Some(v) => if i64::MIN <= v <= i64::MAX {
                r == Some(v as i64)
            } else {
                r is None
            },
            None => r is None,
        },
{
    if scale <= unit_scale {
        let e: u32 = unit_scale - scale;
        let mut v: i128 = mantissa;
        let mut k: u32 = 0;
        while k < e
            invariant
                k <= e,
                e == unit_scale - scale,
                v == mantissa * pow10(k as nat),
                i64::MIN <= v <= i64::MAX || k == 0,
            decreases e - k,
        {
            if v < i64::MIN as i128 || v > i64::MAX as i128 || v * 10 < i64::MIN as i128 || v * 10
                > i64::MAX as i128 {
                proof {
                    let rest = (e - k) as nat;
                    lemma_pow10_split(k as nat, rest);
                    lemma_pow10_positive(rest);
                    lemma_pow10_positive((rest - 1) as nat);
                    assert(pow10(rest) == 10 * pow10((rest - 1) as nat));
                    let big = mantissa * pow10(e as nat);
                    assert(big == v * pow10(rest)) by (nonlinear_arith)
                        requires
                            v == mantissa * pow10(k as nat),
                            big == mantissa * pow10(e as nat),
                            pow10(e as nat) == pow10(k as nat) * pow10(rest),
                    ;
                    if v < i64::MIN as i128 || v > i64::MAX as i128 {
                        assert(big < i64::MIN || big > i64::MAX) by (nonlinear_arith)
                            requires
                                big == v * pow10(rest),
                                pow10(rest) >= 1,
                                v < i64::MIN || v > i64::MAX,
                        ;
                    } else {
                        assert(big == (v * 10) * pow10((rest - 1) as nat)) by (nonlinear_arith)
                            requires
                                big == v * pow10(rest),
                                pow10(rest) == 10 * pow10((rest - 1) as nat),
                        ;
                        assert(big < i64::MIN || big > i64::MAX) by (nonlinear_arith)
                            requires
                                big == (v * 10) * pow10((rest - 1) as nat),
                                pow10((rest - 1) as nat) >= 1,
                                v * 10 < i64::MIN || v * 10 > i64::MAX,
                        ;
                    }
                }
                return None;
            }
            proof {
                assert(v * 10 == mantissa * pow10((k + 1) as nat)) by (nonlinear_arith)
                    requires
                        v == mantissa * pow10(k as nat),
                        pow10((k + 1) as nat) == 10 * pow10(k as nat),
                ;
            }
            v = v * 10;
            k = k + 1;
        }
        if v < i64::MIN as i128 || v > i64::MAX as i128 {
            return None;
        }
        Some(v as i64)
    } else {
        let d: u32 = scale - unit_scale;
        let a: u128 = if mantissa < 0 {
            (-(mantissa + 1)) as u128 + 1
        } else {
            mantissa as u128
        };
        let mut p: u128 = 1;
        let mut k: u32 = 0;
        while k < d
            invariant
                k <= d,
                d == scale - unit_scale,
                p == pow10(k as nat),
                p >= 1,
                a == magnitude(mantissa as int),
            decreases d - k,
        {
            if p > a / 10 {
                proof {
                    let rest = (d - k) as nat;
                    lemma_pow10_split(k as nat, rest);
                    lemma_pow10_positive(rest);
                    lemma_pow10_positive((rest - 1) as nat);
                    assert(pow10(rest) == 10 * pow10((rest - 1) as nat));
                    let full = pow10(d as nat);
                    assert(full > a) by (nonlinear_arith)
                        requires
                            full == p * pow10(rest),
                            pow10(rest) == 10 * pow10((rest - 1) as nat),
                            pow10((rest - 1) as nat) >= 1,
                            p > a / 10,
                            a >= 0,
                    ;
                    let ai = a as int;
                    assert(ai % full == ai) by (nonlinear_arith)
                        requires full > ai, ai >= 0;
                    if a == 0 {
                        assert(0int / full == 0) by (nonlinear_arith)
                            requires full > 0;
                    }
                }
                if a == 0 {
                    return Some(0);
                }
                return None;
            }
            p = p * 10;
            k = k + 1;
        }
        assert(p == pow10((scale - unit_scale) as nat));
        if a % p != 0 {
            assert((a as int) % pow10((scale - unit_scale) as nat) != 0);
            return None;
        }
        let q: u128 = a / p;
        proof {
            let full = pow10((scale - unit_scale) as nat);
            assert(q as int == (a as int) / full);
            assert(units_of(mantissa as int, scale as nat, unit_scale as nat) == Some(
                if mantissa < 0 {
                    -(q as int)
                } else {
                    q as int
                },
            ));
        }
        if q > i64::MAX as u128 + 1 {
            return None;
        }
        if mantissa < 0 {
            Some((0 - (q as i128)) as i64)
        } else if q > i64::MAX as u128 {
            None
        } else {
            Some(q as i64)
        }
    }
}

/// Reads `text` as a decimal and scales it to a whole number of units of
/// `10^-unit_scale`: nothing when the text is not a decimal, or not a whole
/// number of units, or does not fit an `i64`.
pub fn parse_units(text: &str, unit_scale: u32) -> (r: Option<i64>)
    ensures
        match text_units(text@, unit_scale as nat) {
            Some(v) => r == Some(v as i64),
            None => r is None,
        },
{
    match parse_decimal(text) {
        Some((m, s)) => decimal_to_units(m, s, unit_scale),
        None => None,
    }
}

} // verus!
