//! Parsing of signed 32-bit integers written in a given radix: an optional
//! `+` or `-` sign followed by at least one digit, rejected when out of range.
use vstd::prelude::*;

verus! {

/// The value of `c` as a digit in `radix`, when it is one (`0`-`9`, then `a`-`z` or `A`-`Z`).
pub open spec fn digit_value(c: char, radix: nat) -> Option<nat> {
    let v = c as u32;
    let d: int = if 48 <= v <= 57 {
        v - 48
    } else if 97 <= v <= 122 {
        v - 97 + 10
    } else if 65 <= v <= 90 {
        v - 65 + 10
    } else {
        -1
    };
    if 0 <= d < radix {
        Some(d as nat)
    } else {
        None
    }
}

/// Every character of `ds` is a digit in `radix`.
pub open spec fn all_digits(ds: Seq<char>, radix: nat) -> bool {
    forall|i: int| 0 <= i < ds.len() ==> (#[trigger] digit_value(ds[i], radix)) is Some
}

/// The number that the digits `ds` write in `radix`, most significant first.
pub open spec fn digits_value(ds: Seq<char>, radix: nat) -> nat
    decreases ds.len(),
{
    if ds.len() == 0 {
        0
    } else {
        digits_value(ds.drop_last(), radix) * radix + digit_value(ds.last(), radix).unwrap_or(0)
    }
}

/// The signed 32-bit integer that `s` writes in `radix`: an optional sign, then one or
/// more digits, and a value within the range of `i32`.
pub open spec fn parse_i32_in_radix(s: Seq<char>, radix: nat) -> Option<i32> {
    if s.len() == 0 {
        None
    } else {
        let neg = s[0] == '-';
        let ds = if s[0] == '+' || s[0] == '-' {
            s.skip(1)
        } else {
            s
        };
        let v: int = if neg {
            -digits_value(ds, radix)
        } else {
            digits_value(ds, radix) as int
        };
        if ds.len() == 0 || !all_digits(ds, radix) || v < i32::MIN || v > i32::MAX {
            None
        } else {
            Some(v as i32)
        }
    }
}

/// The value of `c` as a digit in `radix`.
pub fn digit_of(c: char, radix: u32) -> (r: Option<u32>)
    requires
        2 <= radix <= 36,
    ensures
        r matches Some(d) ==> digit_value(c, radix as nat) == Some(d as nat),
        r is None ==> digit_value(c, radix as nat) is None,
{
    let v = c as u32;
    let d: u32 = if 48 <= v && v <= 57 {
        v - 48
    } else if 97 <= v && v <= 122 {
        v - 97 + 10
    } else if 65 <= v && v <= 90 {
        v - 65 + 10
    } else {
        return None;
    };
    if d < radix {
        Some(d)
    } else {
        None
    }
}

proof fn lemma_mul_grows(x: nat, r: nat, d: nat)
    requires
        r >= 1,
    ensures
        x * r + d >= x,
{
    assert(x * r >= x) by (nonlinear_arith)
        requires
            r >= 1,
    ;
}

/// Parses `s` as a signed 32-bit integer in `radix`, with the grammar of the standard
/// library's `from_str_radix`: an optional `+` or `-`, then one or more digits.
pub fn parse_i32_radix(s: &str, radix: u32) -> (r: Option<i32>)
    requires
        2 <= radix <= 36,
    ensures
        r == parse_i32_in_radix(s@, radix as nat),
{
    let cs = crate::text::chars_of(s);
    if cs.len() == 0 {
        return None;
    }
    let neg = cs[0] == '-';
    let start: usize = if cs[0] == '+' || cs[0] == '-' {
        1
    } else {
        0
    };
    let ghost ds = if cs@[0] == '+' || cs@[0] == '-' {
        s@.skip(1)
    } else {
        s@
    };
    assert(ds =~= s@.skip(start as int));
    if start == cs.len() {
        return None;
    }
    let bound: u64 = 2147483648;
    let mut mag: u64 = 0;
    let mut saturated = false;
    let mut i = start;
    assert(ds.take(0) =~= Seq::<char>::empty());
    while i < cs.len()
        invariant
            start <= i <= cs.len(),
            cs@ == s@,
            ds == s@.skip(start as int),
            s@.len() > 0,
            start == (if s@[0] == '+' || s@[0] == '-' { 1int } else { 0int }),
            2 <= radix <= 36,
            bound == 2147483648,
            all_digits(ds.take(i - start), radix as nat),
            !saturated ==> mag == digits_value(ds.take(i - start), radix as nat) && mag <= bound,
            saturated ==> digits_value(ds.take(i - start), radix as nat) > bound,
        decreases cs.len() - i,
    {
        let d = match digit_of(cs[i], radix) {
            None => {
                proof {
                    assert(ds[i - start] == cs@[i as int]);
                    assert(digit_value(ds[i - start], radix as nat) is None);
                    assert(!all_digits(ds, radix as nat));
                }
                return None;
            },
            Some(d) => d,
        };
        let ghost prev = ds.take(i - start);
        let ghost next = ds.take(i - start + 1);
        proof {
            assert(next.drop_last() =~= prev);
            assert(next.last() == cs@[i as int]);
            assert forall|k: int| 0 <= k < next.len() implies (#[trigger] digit_value(
                next[k],
                radix as nat,
            )) is Some by {
                if k < prev.len() {
                    assert(next[k] == prev[k]);
                }
            }
            lemma_mul_grows(digits_value(prev, radix as nat), radix as nat, d as nat);
        }
        if !saturated {
            assert(mag * (radix as u64) <= bound * 36) by (nonlinear_arith)
                requires
                    mag <= bound,
                    radix <= 36,
            ;
            let m = mag * (radix as u64) + (d as u64);
            if m > bound {
                saturated = true;
            } else {
                mag = m;
            }
        }
        i += 1;
    }
    assert(ds.take(i - start) =~= ds);
    if saturated {
        return None;
    }
    if neg {
        if mag == bound {
            Some(-2147483648i32)
        } else {
            Some(0i32 - (mag as i32))
        }
    } else {
        if mag == bound {
            None
        } else {
            Some(mag as i32)
        }
    }
}

} // verus!
