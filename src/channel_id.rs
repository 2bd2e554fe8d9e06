use vstd::prelude::*;

verus! {

/// An ASCII decimal digit.
pub open spec fn is_digit(c: char) -> bool {
    '0' <= c && c <= '9'
}

pub open spec fn digit_value(c: char) -> nat {
    (c as u32 - '0' as u32) as nat
}

pub open spec fn all_digits(s: Seq<char>) -> bool {
    forall|i: int| 0 <= i < s.len() ==> #[trigger] is_digit(s[i])
}

/// The number that a string of decimal digits denotes (leading zeros allowed).
pub open spec fn digits_value(s: Seq<char>) -> nat
    decreases s.len(),
{
    if s.len() == 0 {
        0
    } else {
        digits_value(s.drop_last()) * 10 + digit_value(s.last())
    }
}

/// `s` is how a number is written in decimal: digits only, at least one,
/// and no leading zero unless the number is zero itself.
pub open spec fn is_canonical_decimal(s: Seq<char>) -> bool {
    &&& s.len() > 0
    &&& all_digits(s)
    &&& (s.len() == 1 || s[0] != '0')
}

/// The channel identifier that a mapping key stands for: the key must be
/// the decimal form of a `u64`, exactly as a number is printed.
pub open spec fn source_key_spec(s: Seq<char>) -> Option<u64> {
    if is_canonical_decimal(s) && digits_value(s) <= u64::MAX {
        Some(digits_value(s) as u64)
    } else {
        None
    }
}

/// The digits of an unsigned number written with an optional leading `+`.
pub open spec fn unsigned_digits(s: Seq<char>) -> Seq<char> {
    if s.len() > 0 && s[0] == '+' {
        s.skip(1)
    } else {
        s
    }
}

/// The `u64` that a destination value denotes, read as an unsigned decimal
/// number: an optional `+`, then one or more digits, the value in range.
pub open spec fn channel_id_spec(s: Seq<char>) -> Option<u64> {
    let d = unsigned_digits(s);
    if d.len() > 0 && all_digits(d) && digits_value(d) <= u64::MAX {
        Some(digits_value(d) as u64)
    } else {
        None
    }
}

proof fn lemma_digits_value_grows(s: Seq<char>, i: int, j: int)
    requires
        0 <= i <= j <= s.len(),
    ensures
        digits_value(s.subrange(0, i)) <= digits_value(s.subrange(0, j)),
    decreases j - i,
{
    if i < j {
        lemma_digits_value_grows(s, i, j - 1);
        assert(s.subrange(0, j).drop_last() =~= s.subrange(0, j - 1));
    }
}

/// Reads the digits of `s` from position `start` on; `None` where a
/// character is not a digit, there is no digit, or the value exceeds `u64`.
fn read_digits(s: &str, start: usize) -> (r: Option<u64>)
    requires
        start <= s@.len(),
    ensures
        ({
            let d = s@.skip(start as int);
            r == (if d.len() > 0 && all_digits(d) && digits_value(d) <= u64::MAX {
                Some(digits_value(d) as u64)
            } else {
                None::<u64>
            })
        }),
{
    let ghost d = s@.skip(start as int);
    let n = s.unicode_len();
    if start == n {
        return None;
    }
    let mut acc: u64 = 0;
    let mut i: usize = start;
    while i < n
        invariant
            start <= i <= n,
            n == s@.len(),
            d == s@.skip(start as int),
            all_digits(d.subrange(0, i - start)),
            acc as nat == digits_value(d.subrange(0, i - start)),
        decreases n - i,
    {
        let c = s.get_char(i);
        let ghost k: int = i - start;
        assert(d.subrange(0, k + 1).drop_last() =~= d.subrange(0, k));
        assert(d[k] == c);
        if c < '0' || c > '9' {
            assert(!is_digit(d[k]));
            return None;
        }
        let v: u64 = (c as u32 - '0' as u32) as u64;
        assert(v == digit_value(c));
        if acc > (u64::MAX - v) / 10 {
            proof {
                lemma_digits_value_grows(d, k + 1, d.len() as int);
                assert(d.subrange(0, d.len() as int) =~= d);
                assert(acc * 10 + v > u64::MAX) by (nonlinear_arith)
                    requires
                        acc > (u64::MAX - v) / 10,
                        v <= 9,
                ;
            }
            return None;
        }
        acc = acc * 10 + v;
        i = i + 1;
        proof {
            assert forall|j: int| 0 <= j < i - start implies #[trigger] is_digit(
                d.subrange(0, i - start)[j],
            ) by {
                if j < k {
                    assert(d.subrange(0, i - start)[j] == d.subrange(0, k)[j]);
                }
            }
        }
    }
    assert(d.subrange(0, n - start) =~= d);
    Some(acc)
}

/// Reads a destination channel identifier: an unsigned decimal number with
/// an optional leading `+`. `None` for anything else, or a value beyond `u64`.
pub fn parse_channel_id(s: &str) -> (r: Option<u64>)
    ensures
        r == channel_id_spec(s@),
{
    let n = s.unicode_len();
    if n > 0 && s.get_char(0) == '+' {
        read_digits(s, 1)
    } else {
        proof {
            assert(s@.skip(0) =~= s@);
        }
        read_digits(s, 0)
    }
}

/// The channel identifier that a mapping key stands for: `Some(id)` exactly
/// when the key is `id` written in decimal, as `id` itself would print.
pub fn source_key_id(s: &str) -> (r: Option<u64>)
    ensures
        r == source_key_spec(s@),
{
    let n = s.unicode_len();
    if n == 0 {
        return None;
    }
    if n > 1 && s.get_char(0) == '0' {
        return None;
    }
    proof {
        assert(s@.skip(0) =~= s@);
    }
    read_digits(s, 0)
}

} // verus!
