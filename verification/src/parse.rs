use vstd::prelude::*;

verus! {

use vstd::string::StringSliceAdditionalSpecFns;

pub open spec fn is_ascii_digit(b: u8) -> bool {
    48 <= b <= 57
}

pub open spec fn digit_val(b: u8) -> int {
    b - 48
}

pub open spec fn all_digits(s: Seq<u8>) -> bool {
    forall|i: int| 0 <= i < s.len() ==> is_ascii_digit(#[trigger] s[i])
}

/// The number the digit string `s` denotes in base ten.
pub open spec fn digits_value(s: Seq<u8>) -> int
    decreases s.len(),
{
    if s.len() == 0 {
        0
    } else {
        digits_value(s.drop_last()) * 10 + digit_val(s.last())
    }
}

/// The digits of an unsigned decimal literal: one leading `+` is allowed.
pub open spec fn unsigned_digits(s: Seq<u8>) -> Seq<u8> {
    if s.len() > 0 && s[0] == 43 {
        s.subrange(1, s.len() as int)
    } else {
        s
    }
}

/// Does `s` denote a `u64`: at least one digit after the optional sign,
/// nothing but digits, and a value within range?
pub open spec fn u64_parseable(s: Seq<u8>) -> bool {
    &&& unsigned_digits(s).len() > 0
    &&& all_digits(unsigned_digits(s))
    &&& digits_value(unsigned_digits(s)) <= u64::MAX
}

/// The value `s` denotes when `u64_parseable(s)` holds.
pub open spec fn u64_value(s: Seq<u8>) -> int {
    digits_value(unsigned_digits(s))
}

proof fn lemma_digits_nonneg(d: Seq<u8>)
    requires
        all_digits(d),
    ensures
        digits_value(d) >= 0,
    decreases d.len(),
{
    if d.len() > 0 {
        lemma_digits_nonneg(d.drop_last());
    }
}

/// A digit string is worth at least any of its prefixes.
proof fn lemma_digits_prefix_le(d: Seq<u8>, i: int)
    requires
        all_digits(d),
        0 <= i <= d.len(),
    ensures
        digits_value(d.subrange(0, i)) <= digits_value(d),
    decreases d.len() - i,
{
    if i < d.len() {
        let shorter = d.subrange(0, i);
        let longer = d.subrange(0, i + 1);
        assert(longer.drop_last() =~= shorter);
        lemma_digits_nonneg(shorter);
        lemma_digits_prefix_le(d, i + 1);
    } else {
        assert(d.subrange(0, i) =~= d);
    }
}

/// Parse an unsigned base-ten literal, exactly when it denotes a `u64`.
pub fn parse_u64(s: &str) -> (r: Option<u64>)
    ensures
        match r {
            Some(v) => u64_parseable(s.spec_bytes()) && v == u64_value(s.spec_bytes()),
            None => !u64_parseable(s.spec_bytes()),
        },
{
    let bytes = s.as_bytes();
    let n = bytes.len();
    let start: usize = if n > 0 && bytes[0] == 43 {
        1
    } else {
        0
    };
    let ghost d = unsigned_digits(s.spec_bytes());
    proof {
        assert(d =~= bytes@.subrange(start as int, n as int));
    }
    if start >= n {
        return None;
    }
    let mut acc: u64 = 0;
    let mut i: usize = start;
    while i < n
        invariant
            start <= i <= n,
            n == bytes@.len(),
            bytes@ == s.spec_bytes(),
            d == bytes@.subrange(start as int, n as int),
            d == unsigned_digits(s.spec_bytes()),
            d.len() == n - start,
            all_digits(d.subrange(0, i - start)),
            acc == digits_value(d.subrange(0, i - start)),
        decreases n - i,
    {
        let b = bytes[i];
        proof {
            assert(d[i - start] == bytes@[i as int]);
        }
        if b < 48 || b > 57 {
            proof {
                assert(!is_ascii_digit(d[i - start]));
                assert(!all_digits(d));
            }
            return None;
        }
        let ghost prefix = d.subrange(0, i - start);
        let ghost prefix1 = d.subrange(0, i + 1 - start);
        proof {
            assert(prefix1.drop_last() =~= prefix);
            assert(prefix1.last() == b);
        }
        let shifted = match acc.checked_mul(10) {
            Some(x) => x,
            None => {
                proof {
                    if all_digits(d) {
                        lemma_digits_nonneg(prefix);
                        lemma_digits_prefix_le(d, i + 1 - start);
                    }
                }
                return None;
            },
        };
        let digit = (b - 48) as u64;
        let acc2 = match shifted.checked_add(digit) {
            Some(x) => x,
            None => {
                proof {
                    if all_digits(d) {
                        lemma_digits_prefix_le(d, i + 1 - start);
                    }
                }
                return None;
            },
        };
        acc = acc2;
        i = i + 1;
    }
    proof {
        assert(d.subrange(0, i - start) =~= d);
    }
    Some(acc)
}

} // verus!
