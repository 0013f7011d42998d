//! The configuration payload as the host runtime hands it over.
use vstd::prelude::*;

verus! {

/// A number of the payload, kept in the form in which it arrived.
#[derive(Clone, Copy, Debug, PartialEq, Eq, Structural)]
pub enum Number {
    /// A non-negative integer.
    PosInt(u64),
    /// An integer below zero. One that is not below zero reads as that
    /// integer all the same; [`canonical_number`] turns it into `PosInt`.
    NegInt(i64),
    /// A number with a fraction or an exponent, as its IEEE 754 binary64 bit pattern.
    Float(u64),
}

/// A value of the payload: the shape of a JSON document.
#[derive(Debug)]
pub enum Value {
    Null,
    Bool(bool),
    Num(Number),
    Text(String),
    List(Vec<Value>),
    /// The entries of an object, in the order in which they were written.
    Object(Vec<(String, Value)>),
}

/// `text` holds exactly the characters of `name`.
pub fn text_is(text: &String, name: &str) -> (r: bool)
    ensures
        r == (text@ == name@),
{
    let owned = name.to_owned();
    text.eq(&owned)
}

/// 2 to the power `k`.
pub open spec fn two_to(k: nat) -> nat
    decreases k,
{
    if k == 0 {
        1
    } else {
        2 * two_to((k - 1) as nat)
    }
}

/// `s / 2^k`, where that division leaves no remainder.
pub open spec fn halve_exact(s: int, k: nat) -> Option<int>
    decreases k,
{
    if k == 0 {
        Some(s)
    } else if s % 2 != 0 {
        None
    } else {
        halve_exact(s / 2, (k - 1) as nat)
    }
}

/// The biased exponent field of a binary64 bit pattern.
pub open spec fn float_exponent(bits: u64) -> int {
    (bits as int / 0x10_0000_0000_0000) % 2048
}

/// The fraction field of a binary64 bit pattern.
pub open spec fn float_fraction(bits: u64) -> int {
    bits as int % 0x10_0000_0000_0000
}

/// The magnitude of the number that a binary64 bit pattern denotes, where that
/// is an integer below 2^64. Infinities, NaNs, fractions and magnitudes of
/// 2^64 and more give `None`.
pub open spec fn float_magnitude(bits: u64) -> Option<int> {
    let e = float_exponent(bits);
    let m = float_fraction(bits);
    let s = m + 0x10_0000_0000_0000;
    if e == 0 {
        // zero, or a subnormal strictly between 0 and 1
        if m == 0 {
            Some(0)
        } else {
            None
        }
    } else if e == 2047 {
        None
    } else if e >= 1075 {
        if e - 1075 <= 11 {
            Some(s * two_to((e - 1075) as nat))
        } else {
            None
        }
    } else {
        halve_exact(s, (1075 - e) as nat)
    }
}

/// The sign bit of a binary64 bit pattern.
pub open spec fn float_negative(bits: u64) -> bool {
    bits >= 0x8000_0000_0000_0000
}

/// One form for each number: an integer value is `PosInt` when it is not
/// below zero and `NegInt` when it is, whatever form it arrived in; any other
/// number stays a `Float`.
pub open spec fn canonical(n: Number) -> Number {
    match n {
        Number::PosInt(_) => n,
        Number::NegInt(i) => if i >= 0 {
            Number::PosInt(i as u64)
        } else {
            n
        },
        Number::Float(bits) => match float_magnitude(bits) {
            Some(v) => if !float_negative(bits) || v == 0 {
                Number::PosInt(v as u64)
            } else if v <= 0x8000_0000_0000_0000 {
                Number::NegInt((-v) as i64)
            } else {
                n
            },
            None => n,
        },
    }
}

proof fn lemma_two_to_monotonic(j: nat, n: nat)
    requires
        j <= n,
    ensures
        two_to(j) <= two_to(n),
    decreases n,
{
    if j < n {
        lemma_two_to_monotonic(j, (n - 1) as nat);
    }
}

fn float_magnitude_of(bits: u64) -> (r: Option<u64>)
    ensures
        match float_magnitude(bits) {
            Some(v) => r matches Some(x) && x as int == v,
            None => r is None,
        },
{
    let e: u64 = (bits / 0x10_0000_0000_0000) % 2048;
    let m: u64 = bits % 0x10_0000_0000_0000;
    let s: u64 = m + 0x10_0000_0000_0000;
    if e == 0 {
        if m == 0 {
            Some(0)
        } else {
            None
        }
    } else if e == 2047 {
        None
    } else if e >= 1075 {
        if e - 1075 <= 11 {
            let k: u64 = e - 1075;
            let mut v: u64 = s;
            let mut j: u64 = 0;
            assert(two_to(0) == 1);
            assert(s * 1 == s);
            while j < k
                invariant
                    j <= k <= 11,
                    s < 0x20_0000_0000_0000,
                    v as int == s * two_to(j as nat),
                decreases k - j,
            {
                proof {
                    lemma_two_to_monotonic(j as nat, 10);
                    reveal_with_fuel(two_to, 11);
                    assert(two_to(10) == 1024);
                    let t = two_to(j as nat);
                    assert(s * t < 0x20_0000_0000_0000 * 1024) by (nonlinear_arith)
                        requires
                            s < 0x20_0000_0000_0000,
                            t <= 1024,
                            t >= 1,
                    {}
                    assert(two_to((j + 1) as nat) == 2 * t);
                    assert(s * (2 * t) == 2 * (s * t)) by (nonlinear_arith);
                }
                v = v * 2;
                j = j + 1;
            }
            Some(v)
        } else {
            None
        }
    } else {
        let mut v: u64 = s;
        let mut k: u64 = 1075 - e;
        while k > 0
            invariant
                e as int == float_exponent(bits),
                s as int == float_fraction(bits) + 0x10_0000_0000_0000,
                1 <= e < 1075,
                halve_exact(s as int, (1075 - e) as nat) == halve_exact(v as int, k as nat),
            decreases k,
        {
            if v % 2 != 0 {
                return None;
            }
            v = v / 2;
            k = k - 1;
        }
        Some(v)
    }
}

/// The one form of a number; see [`canonical`].
pub fn canonical_number(n: Number) -> (r: Number)
    ensures
        r == canonical(n),
{
    match n {
        Number::PosInt(_) => n,
        Number::NegInt(i) => if i >= 0 {
            Number::PosInt(i as u64)
        } else {
            n
        },
        Number::Float(bits) => match float_magnitude_of(bits) {
            Some(v) => if bits < 0x8000_0000_0000_0000 || v == 0 {
                Number::PosInt(v)
            } else if v < 0x8000_0000_0000_0000 {
                Number::NegInt(-(v as i64))
            } else if v == 0x8000_0000_0000_0000 {
                Number::NegInt(i64::MIN)
            } else {
                n
            },
            None => n,
        },
    }
}

} // verus!
