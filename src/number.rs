use vstd::prelude::*;

use crate::text::{lemma_split_len, split, split_chars};

verus! {

pub open spec fn is_digit(c: char) -> bool {
    '0' <= c && c <= '9'
}

pub open spec fn all_digits(s: Seq<char>) -> bool {
    forall|i: int| 0 <= i < s.len() ==> is_digit(#[trigger] s[i])
}

pub open spec fn digit_value(c: char) -> nat {
    (c as u32 - '0' as u32) as nat
}

/// The number that the decimal digits `s` write (0 for no digits).
pub open spec fn digits_value(s: Seq<char>) -> nat
    decreases s.len(),
{
    if s.len() == 0 {
        0
    } else {
        digits_value(s.drop_last()) * 10 + digit_value(s.last())
    }
}

/// `s` without one leading `+`.
pub open spec fn unsigned_part(s: Seq<char>) -> Seq<char> {
    if s.len() > 0 && s[0] == '+' {
        s.drop_first()
    } else {
        s
    }
}

/// What `u64::from_str` accepts: an optional `+`, then one or more decimal
/// digits whose value fits in a `u64`.
pub open spec fn parse_u64(s: Seq<char>) -> Option<u64> {
    let d = unsigned_part(s);
    if d.len() > 0 && all_digits(d) && digits_value(d) <= u64::MAX {
        Some(digits_value(d) as u64)
    } else {
        None
    }
}

/// The value of two fractional digits in hundredths; digits past the second
/// are dropped.
pub open spec fn frac_hundredths(f: Seq<char>) -> nat {
    (if f.len() > 0 {
        digit_value(f[0]) * 10
    } else {
        0
    }) + (if f.len() > 1 {
        digit_value(f[1])
    } else {
        0
    })
}

/// A decimal number in hundredths: an optional `+`, digits, and optionally a
/// `.` followed by digits, with at least one digit in all.
pub open spec fn parse_hundredths(s: Seq<char>) -> Option<u64> {
    let parts = split(unsigned_part(s), '.');
    if parts.len() <= 2 {
        let ip = parts[0];
        let fp = if parts.len() == 2 {
            parts[1]
        } else {
            Seq::empty()
        };
        let v = digits_value(ip) * 100 + frac_hundredths(fp);
        if ip.len() + fp.len() > 0 && all_digits(ip) && all_digits(fp) && v <= u64::MAX {
            Some(v as u64)
        } else {
            None
        }
    } else {
        None
    }
}

/// The lenient policy for numeric text from outside tools: what does not
/// parse counts as zero.
pub open spec fn u64_or_zero(s: Seq<char>) -> u64 {
    match parse_u64(s) {
        Some(v) => v,
        None => 0,
    }
}

/// The same lenient policy for a decimal in hundredths.
pub open spec fn hundredths_or_zero(s: Seq<char>) -> u64 {
    match parse_hundredths(s) {
        Some(v) => v,
        None => 0,
    }
}

proof fn lemma_digits_value_prefix(s: Seq<char>, k: int)
    requires
        0 <= k <= s.len(),
        all_digits(s),
    ensures
        digits_value(s.take(k)) <= digits_value(s),
    decreases s.len(),
{
    if k < s.len() {
        let t = s.drop_last();
        assert(t.take(k) =~= s.take(k));
        assert(all_digits(t)) by {
            assert forall|i: int| 0 <= i < t.len() implies is_digit(#[trigger] t[i]) by {
                assert(t[i] == s[i]);
            }
        }
        lemma_digits_value_prefix(t, k);
    } else {
        assert(s.take(k) =~= s);
    }
}

/// The value of the digits `s[lo..]`, where they are one or more digits whose
/// value fits in a `u64`.
fn digits_to_u64(s: &[char], lo: usize) -> (r: Option<u64>)
    requires
        lo <= s@.len(),
    ensures
        ({
            let d = s@.subrange(lo as int, s@.len() as int);
            r == if d.len() > 0 && all_digits(d) && digits_value(d) <= u64::MAX {
                Some(digits_value(d) as u64)
            } else {
                None::<u64>
            }
        }),
{
    let n = s.len();
    let ghost d = s@.subrange(lo as int, n as int);
    if lo == n {
        return None;
    }
    let mut acc: u64 = 0;
    let mut i: usize = lo;
    proof {
        assert(d.take(0) =~= Seq::<char>::empty());
    }
    while i < n
        invariant
            lo <= i <= n == s@.len(),
            d == s@.subrange(lo as int, n as int),
            all_digits(d.take(i - lo)),
            acc as nat == digits_value(d.take(i - lo)),
        decreases n - i,
    {
        let c = s[i];
        let ghost k = i - lo;
        proof {
            assert(d.take(k + 1).drop_last() =~= d.take(k));
            assert(d.take(k + 1).last() == c);
        }
        if !('0' <= c && c <= '9') {
            assert(!all_digits(d)) by {
                assert(d[k] == c);
            }
            return None;
        }
        let dv = (c as u32 - '0' as u32) as u64;
        let m = acc.checked_mul(10);
        if m.is_none() {
            proof {
                if all_digits(d) {
                    lemma_digits_value_prefix(d, k + 1);
                }
            }
            return None;
        }
        let m = m.unwrap();
        let v = m.checked_add(dv);
        if v.is_none() {
            proof {
                if all_digits(d) {
                    lemma_digits_value_prefix(d, k + 1);
                }
            }
            return None;
        }
        acc = v.unwrap();
        proof {
            assert(all_digits(d.take(k + 1))) by {
                assert forall|j: int| 0 <= j < k + 1 implies is_digit(#[trigger] d.take(k + 1)[j]) by {
                    if j < k {
                        assert(d.take(k + 1)[j] == d.take(k)[j]);
                    }
                }
            }
        }
        i = i + 1;
    }
    proof {
        assert(d.take(n - lo) =~= d);
    }
    Some(acc)
}

fn all_digit_chars(s: &Vec<char>) -> (r: bool)
    ensures
        r == all_digits(s@),
{
    let mut j: usize = 0;
    while j < s.len()
        invariant
            0 <= j <= s@.len(),
            forall|t: int| 0 <= t < j ==> is_digit(#[trigger] s@[t]),
        decreases s@.len() - j,
    {
        if !('0' <= s[j] && s[j] <= '9') {
            assert(!is_digit(s@[j as int]));
            return false;
        }
        j = j + 1;
    }
    true
}

/// Parses `s` as `u64::from_str` does.
pub fn parse_u64_text(s: &[char]) -> (r: Option<u64>)
    ensures
        r == parse_u64(s@),
{
    let lo: usize = if s.len() > 0 && s[0] == '+' {
        1
    } else {
        0
    };
    proof {
        assert(unsigned_part(s@) =~= s@.subrange(lo as int, s@.len() as int));
    }
    digits_to_u64(s, lo)
}

/// Parses `s` as a decimal number in hundredths.
pub fn parse_hundredths_text(s: &[char]) -> (r: Option<u64>)
    ensures
        r == parse_hundredths(s@),
{
    let lo: usize = if s.len() > 0 && s[0] == '+' {
        1
    } else {
        0
    };
    let ghost u = unsigned_part(s@);
    proof {
        assert(u =~= s@.subrange(lo as int, s@.len() as int));
    }
    let parts = split_chars(&s[lo..s.len()], '.');
    proof {
        lemma_split_len(u, '.');
    }
    if parts.len() > 2 {
        return None;
    }
    let ip = &parts[0];
    let empty: Vec<char> = Vec::new();
    let fp = if parts.len() == 2 {
        &parts[1]
    } else {
        &empty
    };
    let ghost fs: Seq<char> = if parts@.len() == 2 {
        split(u, '.')[1]
    } else {
        Seq::empty()
    };
    assert(fp@ == fs);
    assert(ip@ == split(u, '.')[0]);
    if ip.len() == 0 && fp.len() == 0 {
        return None;
    }
    if !all_digit_chars(fp) {
        return None;
    }
    let mut frac: u64 = 0;
    if fp.len() > 0 {
        frac = (fp[0] as u32 - '0' as u32) as u64 * 10;
    }
    if fp.len() > 1 {
        frac = frac + (fp[1] as u32 - '0' as u32) as u64;
    }
    assert(frac as nat == frac_hundredths(fp@));
    let whole: u64 = if ip.len() == 0 {
        0
    } else {
        match digits_to_u64(ip.as_slice(), 0) {
            Some(v) => v,
            None => {
                proof {
                    assert(ip@.subrange(0, ip@.len() as int) =~= ip@);
                }
                return None;
            },
        }
    };
    proof {
        assert(ip@.subrange(0, ip@.len() as int) =~= ip@);
        if ip@.len() == 0 {
            assert(ip@ =~= Seq::<char>::empty());
        }
    }
    let h = whole.checked_mul(100);
    if h.is_none() {
        return None;
    }
    let h = h.unwrap();
    h.checked_add(frac)
}

/// The lenient policy for a whole number from an outside tool: its value,
/// or zero where it does not parse.
pub fn parse_or_default(s: &[char]) -> (r: u64)
    ensures
        r == u64_or_zero(s@),
{
    match parse_u64_text(s) {
        Some(v) => v,
        None => 0,
    }
}

/// The lenient policy for a decimal from an outside tool: its value in
/// hundredths, or zero where it does not parse.
pub fn hundredths_or_default(s: &[char]) -> (r: u64)
    ensures
        r == hundredths_or_zero(s@),
{
    match parse_hundredths_text(s) {
        Some(v) => v,
        None => 0,
    }
}

} // verus!
