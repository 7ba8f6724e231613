//! Poll-interval configuration.
//!
//! The interval is resolved once, at daemon start, from an optional
//! environment override: an unsigned decimal integer count of seconds.
//! A missing or unparsable override falls back to a fixed default.

use vstd::prelude::*;

verus! {

/// Default poll interval in seconds, used when the override is absent or invalid.
pub const DEFAULT_POLL_INTERVAL_SECS: u64 = 30;

/// An ASCII decimal digit byte, `'0'` through `'9'`.
pub open spec fn is_digit_byte(b: u8) -> bool {
    48 <= b && b <= 57
}

/// Every byte of `s` is a decimal digit.
pub open spec fn all_digit_bytes(s: Seq<u8>) -> bool {
    forall|i: int| 0 <= i < s.len() ==> is_digit_byte(#[trigger] s[i])
}

/// Numeric value of a sequence of decimal digit bytes, most significant first.
pub open spec fn dec_value(s: Seq<u8>) -> int
    decreases s.len(),
{
    if s.len() == 0 {
        0
    } else {
        dec_value(s.drop_last()) * 10 + (s.last() - 48)
    }
}

/// The digit portion of a candidate integer: everything after one
/// optional leading `'+'`.
pub open spec fn digits_part(s: Seq<u8>) -> Seq<u8> {
    if s.len() > 0 && s[0] == 43 {
        s.drop_first()
    } else {
        s
    }
}

/// What parsing an unsigned 64-bit decimal integer from `s` yields: after one
/// optional leading `'+'` there must be at least one byte, all bytes must be
/// decimal digits, and their value must fit in `u64`; otherwise nothing.
pub open spec fn parse_u64_spec(s: Seq<u8>) -> Option<u64> {
    let d = digits_part(s);
    if d.len() > 0 && all_digit_bytes(d) && dec_value(d) <= u64::MAX {
        Some(dec_value(d) as u64)
    } else {
        None
    }
}

proof fn lemma_dec_value_nonneg(s: Seq<u8>)
    requires
        all_digit_bytes(s),
    ensures
        dec_value(s) >= 0,
    decreases s.len(),
{
    if s.len() > 0 {
        assert(all_digit_bytes(s.drop_last())) by {
            assert forall|i: int| 0 <= i < s.drop_last().len() implies is_digit_byte(
                #[trigger] s.drop_last()[i],
            ) by {
                assert(s.drop_last()[i] == s[i]);
            }
        }
        lemma_dec_value_nonneg(s.drop_last());
    }
}

proof fn lemma_all_digit_bytes_take(s: Seq<u8>, i: int)
    requires
        all_digit_bytes(s),
        0 <= i <= s.len(),
    ensures
        all_digit_bytes(s.take(i)),
{
    assert forall|j: int| 0 <= j < s.take(i).len() implies is_digit_byte(
        #[trigger] s.take(i)[j],
    ) by {
        assert(s.take(i)[j] == s[j]);
    }
}

/// The value of a digit string never shrinks as more digits follow:
/// any prefix is worth at most the whole.
proof fn lemma_dec_value_prefix_le(s: Seq<u8>, i: int)
    requires
        all_digit_bytes(s),
        0 <= i <= s.len(),
    ensures
        dec_value(s.take(i)) <= dec_value(s),
    decreases s.len() - i,
{
    if i < s.len() {
        let t = s.take(i + 1);
        assert(t.drop_last() =~= s.take(i));
        assert(t.last() == s[i]);
        lemma_all_digit_bytes_take(s, i);
        lemma_dec_value_nonneg(s.take(i));
        assert(dec_value(t) == dec_value(s.take(i)) * 10 + (s[i] - 48));
        assert(dec_value(s.take(i)) <= dec_value(s.take(i + 1)));
        lemma_dec_value_prefix_le(s, i + 1);
    } else {
        assert(s.take(i) =~= s);
    }
}

/// Parse an unsigned decimal integer exactly as `parse_u64_spec` describes,
/// rejecting anything with a stray byte or a value over `u64::MAX`.
pub fn parse_u64_dec(s: &[u8]) -> (r: Option<u64>)
    ensures
        r == parse_u64_spec(s@),
{
    let n = s.len();
    let start: usize = if n > 0 && s[0] == 43 {
        1
    } else {
        0
    };
    proof {
        assert(digits_part(s@) =~= s@.subrange(start as int, n as int));
    }
    if n == start {
        return None;
    }
    let mut acc: u64 = 0;
    let mut i: usize = start;
    while i < n
        invariant
            start <= i <= n,
            n == s@.len(),
            digits_part(s@) =~= s@.subrange(start as int, n as int),
            all_digit_bytes(s@.subrange(start as int, i as int)),
            acc == dec_value(s@.subrange(start as int, i as int)),
        decreases n - i,
    {
        let ghost dpart = digits_part(s@);
        let ghost k = i - start;
        let b = s[i];
        if b < 48 || b > 57 {
            proof {
                assert(dpart[k] == s@[i as int]);
                assert(!is_digit_byte(dpart[k]));
            }
            return None;
        }
        let d: u64 = (b - 48) as u64;
        proof {
            assert(s@.subrange(start as int, i + 1).drop_last() =~= s@.subrange(
                start as int,
                i as int,
            ));
            assert(s@.subrange(start as int, i + 1).last() == s@[i as int]);
            assert(dec_value(s@.subrange(start as int, i + 1)) == acc * 10 + d);
        }
        let m = acc.checked_mul(10);
        let next: Option<u64> = match m {
            Some(v) => v.checked_add(d),
            None => None,
        };
        match next {
            Some(x) => {
                acc = x;
                proof {
                    assert(all_digit_bytes(s@.subrange(start as int, i + 1))) by {
                        let t = s@.subrange(start as int, i + 1);
                        assert forall|j: int| 0 <= j < t.len() implies is_digit_byte(
                            #[trigger] t[j],
                        ) by {
                            if j < t.len() - 1 {
                                assert(t[j] == s@.subrange(start as int, i as int)[j]);
                            } else {
                                assert(t[j] == s@[i as int]);
                            }
                        }
                    }
                }
                i = i + 1;
            },
            None => {
                proof {
                    // The digits seen so far are already worth more than u64::MAX,
                    // so the whole digit string is too (or a later byte is not a
                    // digit at all); either way parsing yields nothing.
                    assert(acc * 10 + d > u64::MAX);
                    if all_digit_bytes(dpart) {
                        assert(dpart.take(k + 1) =~= s@.subrange(start as int, i + 1));
                        lemma_dec_value_prefix_le(dpart, k + 1);
                        assert(dec_value(dpart) > u64::MAX);
                    }
                }
                return None;
            },
        }
    }
    proof {
        assert(s@.subrange(start as int, n as int) =~= digits_part(s@));
    }
    Some(acc)
}

/// The byte views of an optional environment value.
pub open spec fn env_view(env: Option<&[u8]>) -> Option<Seq<u8>> {
    match env {
        Some(s) => Some(s@),
        None => None,
    }
}

/// The interval the daemon runs at: the override's value when it parses as an
/// unsigned decimal integer, and the default of 30 seconds otherwise.
pub open spec fn poll_interval_spec(env: Option<Seq<u8>>) -> u64 {
    match env {
        Some(s) => match parse_u64_spec(s) {
            Some(v) => v,
            None => DEFAULT_POLL_INTERVAL_SECS,
        },
        None => DEFAULT_POLL_INTERVAL_SECS,
    }
}

/// Resolve the poll interval from the raw bytes of the environment override,
/// if it was set.
pub fn resolve_poll_interval(env: Option<&[u8]>) -> (r: u64)
    ensures
        r == poll_interval_spec(env_view(env)),
{
    match env {
        Some(s) => match parse_u64_dec(s) {
            Some(v) => v,
            None => DEFAULT_POLL_INTERVAL_SECS,
        },
        None => DEFAULT_POLL_INTERVAL_SECS,
    }
}

} // verus!
