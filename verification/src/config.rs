//! Construction parameters.
//!
//! The subsystem is created once at process start from connection
//! parameters supplied by configuration: the device bus path (an opaque
//! string) and the device bus address, a 16-bit value written either in
//! decimal or in `0x`-prefixed hexadecimal. [`parse_bus_address`] is the
//! verified reading of that address text.

use vstd::prelude::*;
use vstd::string::{StringSliceAdditionalSpecFns, StrSliceExecFns};

verus! {

/// The value of one ASCII digit byte under `radix`, if it is one.
/// Decimal digits are bytes 48–57; hexadecimal additionally accepts
/// 97–102 (`a`–`f`) and 65–70 (`A`–`F`).
pub open spec fn spec_digit_val(b: u8, radix: int) -> Option<int> {
    let d: int = if 48 <= b <= 57 {
        b - 48
    } else if 97 <= b <= 102 {
        b - 87
    } else if 65 <= b <= 70 {
        b - 55
    } else {
        -1
    };
    if 0 <= d < radix {
        Some(d)
    } else {
        None
    }
}

/// The value of a digit string under `radix`, most significant first;
/// `None` as soon as any byte is not a digit of the radix. The empty
/// string has value zero — emptiness is rejected by the caller.
pub open spec fn spec_digits_val(s: Seq<u8>, radix: int) -> Option<int>
    decreases s.len(),
{
    if s.len() == 0 {
        Some(0)
    } else {
        match (spec_digits_val(s.drop_last(), radix), spec_digit_val(s.last(), radix)) {
            (Some(h), Some(l)) => Some(h * radix + l),
            _ => None,
        }
    }
}

/// The bus address a configuration string denotes, if any: a non-empty
/// run of decimal digits, or `0x` followed by a non-empty run of
/// hexadecimal digits, denoting a value that fits 16 bits.
pub open spec fn spec_parse_bus_address(s: Seq<u8>) -> Option<u16> {
    let v = if s.len() >= 2 && s[0] == 48 && s[1] == 120 {
        if s.len() == 2 {
            None
        } else {
            spec_digits_val(s.skip(2), 16)
        }
    } else {
        if s.len() == 0 {
            None
        } else {
            spec_digits_val(s, 10)
        }
    };
    match v {
        Some(n) => if n <= 0xFFFF {
            Some(n as u16)
        } else {
            None
        },
        None => None,
    }
}

/// A digit string with a non-digit prefix position has no value.
proof fn lemma_digits_none_extends(s: Seq<u8>, radix: int, i: int)
    requires
        0 <= i <= s.len(),
        spec_digits_val(s.take(i), radix) is None,
    ensures
        spec_digits_val(s, radix) is None,
    decreases s.len() - i,
{
    if i < s.len() {
        assert(s.take(i + 1).drop_last() =~= s.take(i));
        lemma_digits_none_extends(s, radix, i + 1);
    } else {
        assert(s.take(i) =~= s);
    }
}

/// The value of a digit byte under `radix`, if it is one.
fn digit_val(b: u8, radix: u32) -> (r: Option<u32>)
    requires
        radix == 10 || radix == 16,
    ensures
        match r {
            Some(d) => spec_digit_val(b, radix as int) == Some(d as int) && d < radix,
            None => spec_digit_val(b, radix as int) is None,
        },
{
    let d: u32 = if b >= 48 && b <= 57 {
        (b - 48) as u32
    } else if b >= 97 && b <= 102 {
        (b - 87) as u32
    } else if b >= 65 && b <= 70 {
        (b - 55) as u32
    } else {
        return None;
    };
    if d < radix {
        Some(d)
    } else {
        None
    }
}

/// Read a device bus address from its configuration text: decimal, or
/// hexadecimal with a `0x` prefix, rejecting anything malformed or too
/// large for 16 bits.
#[verifier::loop_isolation(false)]
pub fn parse_bus_address(s: &str) -> (r: Option<u16>)
    ensures
        r == spec_parse_bus_address(s.spec_bytes()),
{
    let bytes = s.as_bytes_vec();
    let n = bytes.len();
    let hex = n >= 2 && bytes[0] == 48 && bytes[1] == 120;
    let start: usize = if hex {
        2
    } else {
        0
    };
    let radix: u32 = if hex {
        16
    } else {
        10
    };
    if n == start {
        return None;
    }
    let ghost region = bytes@.skip(start as int);
    proof {
        if !hex {
            assert(region =~= bytes@);
        }
    }
    let mut acc: u32 = 0;
    let mut too_big = false;
    let mut k: usize = start;
    while k < n
        invariant
            start <= k <= n,
            spec_digits_val(region.take(k - start), radix as int) is Some,
            !too_big ==> acc <= 0xFFFF && spec_digits_val(region.take(k - start), radix as int)
                == Some(acc as int),
            too_big ==> spec_digits_val(region.take(k - start), radix as int)->Some_0 > 0xFFFF,
        decreases n - k,
    {
        let ghost j = k - start;
        proof {
            assert(region[j as int] == bytes@[k as int]);
            assert(region.take(j + 1).drop_last() =~= region.take(j as int));
            assert(region.take(j + 1).last() == region[j as int]);
        }
        let d = match digit_val(bytes[k], radix) {
            Some(d) => d,
            None => {
                proof {
                    lemma_digits_none_extends(region, radix as int, j + 1);
                }
                return None;
            },
        };
        if too_big {
            proof {
                let h = spec_digits_val(region.take(j as int), radix as int)->Some_0;
                assert(h * (radix as int) + d >= h) by (nonlinear_arith)
                    requires
                        h > 0xFFFF,
                        radix >= 10,
                        d >= 0,
                ;
            }
        } else {
            proof {
                assert(acc * radix + d <= 0xFFFF * 16 + 15) by (nonlinear_arith)
                    requires
                        acc <= 0xFFFF,
                        radix <= 16,
                        d < 16,
                ;
            }
            acc = acc * radix + d;
            if acc > 0xFFFF {
                too_big = true;
            }
        }
        k = k + 1;
    }
    proof {
        assert(region.take(n - start) =~= region);
    }
    if too_big {
        None
    } else {
        Some(acc as u16)
    }
}

} // verus!
