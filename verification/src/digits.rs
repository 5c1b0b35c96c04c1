use vstd::prelude::*;
use vstd::slice::{slice_index_get, slice_subrange};

verus! {

/// True when `b` is the code of an ASCII decimal digit.
pub open spec fn is_digit(b: u8) -> bool {
    48 <= b <= 57
}

/// True when every byte of `s` is an ASCII decimal digit.
pub open spec fn all_digits(s: Seq<u8>) -> bool {
    forall|i: int| 0 <= i < s.len() ==> is_digit(#[trigger] s[i])
}

/// The number written by a sequence of decimal digit codes,
/// most significant digit first.
pub open spec fn digits_value(s: Seq<u8>) -> nat
    decreases s.len(),
{
    if s.len() == 0 {
        0
    } else {
        digits_value(s.drop_last()) * 10 + ((s.last() - 48) as nat)
    }
}

/// What parsing a byte string as a non-negative machine integer yields:
/// the written number when the string is non-empty, all digits, and the
/// number fits in `usize`; nothing otherwise.
pub open spec fn spec_parse_usize(s: Seq<u8>) -> Option<usize> {
    if s.len() > 0 && all_digits(s) && digits_value(s) <= usize::MAX {
        Some(digits_value(s) as usize)
    } else {
        None
    }
}

/// What parsing a byte string as a signed 32-bit integer yields: an
/// optional `-` or `+` sign followed by at least one digit, with the
/// signed value in range; nothing otherwise.
pub open spec fn spec_parse_i32(s: Seq<u8>) -> Option<i32> {
    if s.len() == 0 {
        None
    } else {
        let signed = s[0] == 45 || s[0] == 43;
        let d = if signed {
            s.subrange(1, s.len() as int)
        } else {
            s
        };
        if d.len() > 0 && all_digits(d) {
            let v = digits_value(d) as int;
            let sv = if s[0] == 45 {
                -v
            } else {
                v
            };
            if i32::MIN <= sv <= i32::MAX {
                Some(sv as i32)
            } else {
                None
            }
        } else {
            None
        }
    }
}

/// A prefix of a digit string never writes a larger number than the
/// whole string.
pub proof fn lemma_digits_value_prefix_le(s: Seq<u8>, i: int)
    requires
        0 <= i <= s.len(),
    ensures
        digits_value(s.subrange(0, i)) <= digits_value(s),
    decreases s.len() - i,
{
    if i == s.len() {
        assert(s.subrange(0, i) =~= s);
    } else {
        let a = s.subrange(0, i);
        let b = s.subrange(0, i + 1);
        assert(b.drop_last() =~= a);
        assert(digits_value(b) == digits_value(a) * 10 + ((b.last() - 48) as nat));
        lemma_digits_value_prefix_le(s, i + 1);
    }
}

/// Parses a byte string as a non-negative integer: digits only, no sign,
/// no surrounding space, rejecting the empty string and values that do
/// not fit in `usize`.
pub fn parse_usize(s: &[u8]) -> (r: Option<usize>)
    ensures
        r == spec_parse_usize(s@),
{
    let n = s.len();
    if n == 0 {
        return None;
    }
    let mut acc: usize = 0;
    let mut i: usize = 0;
    while i < n
        invariant
            n == s@.len(),
            i <= n,
            all_digits(s@.subrange(0, i as int)),
            acc == digits_value(s@.subrange(0, i as int)),
        decreases n - i,
    {
        let b = *slice_index_get(s, i);
        if !(48 <= b && b <= 57) {
            assert(!is_digit(s@[i as int]));
            return None;
        }
        let d = (b - 48) as usize;
        if acc > (usize::MAX - d) / 10 {
            proof {
                let p = s@.subrange(0, i + 1);
                assert(p.drop_last() =~= s@.subrange(0, i as int));
                assert(digits_value(p) == acc * 10 + d);
                assert(acc * 10 + d > usize::MAX) by {
                    assert(acc >= (usize::MAX - d) / 10 + 1);
                    assert(((usize::MAX - d) / 10 + 1) * 10 == ((usize::MAX - d) / 10) * 10 + 10);
                    assert(((usize::MAX - d) / 10) * 10 + 10 > usize::MAX - d) by (nonlinear_arith);
                    assert(acc * 10 >= ((usize::MAX - d) / 10 + 1) * 10) by (nonlinear_arith)
                        requires
                            acc >= (usize::MAX - d) / 10 + 1,
                    ;
                }
                if all_digits(s@) {
                    lemma_digits_value_prefix_le(s@, i + 1);
                }
            }
            return None;
        }
        acc = acc * 10 + d;
        i = i + 1;
        proof {
            let p = s@.subrange(0, i as int);
            assert(p.drop_last() =~= s@.subrange(0, i as int - 1));
            assert(p.last() == b);
            assert(acc == digits_value(p));
        }
    }
    proof {
        assert(s@.subrange(0, n as int) =~= s@);
    }
    Some(acc)
}

/// Parses a byte string as a signed 32-bit integer: an optional leading
/// `-` or `+` sign followed by digits, rejecting anything else and
/// values outside the `i32` range.
pub fn parse_i32(s: &[u8]) -> (r: Option<i32>)
    ensures
        r == spec_parse_i32(s@),
{
    let n = s.len();
    if n == 0 {
        return None;
    }
    let first = *slice_index_get(s, 0);
    let neg = first == 45;
    let digits: &[u8] = if first == 45 || first == 43 {
        slice_subrange(s, 1, n)
    } else {
        s
    };
    match parse_usize(digits) {
        None => {
            proof {
                if digits@.len() > 0 && all_digits(digits@) {
                    assert(digits_value(digits@) > usize::MAX);
                }
            }
            None
        },
        Some(v) => {
            if neg {
                if v <= 2147483648 {
                    if v == 2147483648 {
                        Some(i32::MIN)
                    } else {
                        Some(-(v as i32))
                    }
                } else {
                    None
                }
            } else {
                if v <= 2147483647 {
                    Some(v as i32)
                } else {
                    None
                }
            }
        },
    }
}

} // verus!
