use vstd::prelude::*;

verus! {

/// ASCII whitespace as the metadata probe's line output may carry it:
/// space, tab, line feed, carriage return.
pub open spec fn is_ascii_space(b: u8) -> bool {
    b == 32 || b == 9 || b == 10 || b == 13
}

/// ASCII decimal digit.
pub open spec fn is_ascii_digit(b: u8) -> bool {
    48 <= b <= 57
}

pub open spec fn all_digits(s: Seq<u8>) -> bool {
    forall|i: int| 0 <= i < s.len() ==> is_ascii_digit(#[trigger] s[i])
}

/// The number a digit string denotes, most significant digit first.
pub open spec fn digits_value(s: Seq<u8>) -> int
    decreases s.len(),
{
    if s.len() == 0 {
        0
    } else {
        digits_value(s.drop_last()) * 10 + (s.last() - 48)
    }
}

pub open spec fn trim_start_spec(s: Seq<u8>) -> Seq<u8>
    decreases s.len(),
{
    if s.len() > 0 && is_ascii_space(s[0]) {
        trim_start_spec(s.drop_first())
    } else {
        s
    }
}

pub open spec fn trim_end_spec(s: Seq<u8>) -> Seq<u8>
    decreases s.len(),
{
    if s.len() > 0 && is_ascii_space(s.last()) {
        trim_end_spec(s.drop_last())
    } else {
        s
    }
}

/// `s` with leading and trailing ASCII whitespace removed.
pub open spec fn trimmed(s: Seq<u8>) -> Seq<u8> {
    trim_end_spec(trim_start_spec(s))
}

proof fn lemma_digits_value_nonneg(s: Seq<u8>)
    requires
        all_digits(s),
    ensures
        digits_value(s) >= 0,
    decreases s.len(),
{
    if s.len() > 0 {
        assert(all_digits(s.drop_last())) by {
            assert(forall|i: int|
                0 <= i < s.drop_last().len() ==> #[trigger] s.drop_last()[i] == s[i]);
        }
        lemma_digits_value_nonneg(s.drop_last());
    }
}

/// A digit string's value only grows as digits are appended.
proof fn lemma_digits_value_monotone(s: Seq<u8>, j: int)
    requires
        0 <= j <= s.len(),
        all_digits(s),
    ensures
        digits_value(s.take(j)) <= digits_value(s),
    decreases s.len() - j,
{
    if j < s.len() {
        lemma_digits_value_monotone(s, j + 1);
        assert(s.take(j + 1).drop_last() =~= s.take(j));
        assert(all_digits(s.take(j))) by {
            assert(forall|i: int| 0 <= i < j ==> #[trigger] s.take(j)[i] == s[i]);
        }
        lemma_digits_value_nonneg(s.take(j));
        assert(digits_value(s.take(j + 1)) == digits_value(s.take(j)) * 10 + (s.take(j + 1).last()
            - 48));
        assert(digits_value(s.take(j)) * 10 >= digits_value(s.take(j))) by (nonlinear_arith)
            requires
                digits_value(s.take(j)) >= 0,
        ;
    } else {
        assert(s.take(j) =~= s);
    }
}

proof fn lemma_trim_start_skip(s: Seq<u8>, j: int)
    requires
        0 <= j <= s.len(),
        forall|i: int| 0 <= i < j ==> is_ascii_space(#[trigger] s[i]),
        j == s.len() || !is_ascii_space(s[j]),
    ensures
        trim_start_spec(s) == s.skip(j),
    decreases j,
{
    if j == 0 {
        assert(s.skip(0) =~= s);
    } else {
        assert(is_ascii_space(s[0]));
        let rest = s.drop_first();
        assert(forall|i: int| 0 <= i < j - 1 ==> is_ascii_space(#[trigger] rest[i]));
        lemma_trim_start_skip(rest, j - 1);
        assert(rest.skip(j - 1) =~= s.skip(j));
    }
}

proof fn lemma_trim_end_take(s: Seq<u8>, j: int)
    requires
        0 <= j <= s.len(),
        forall|i: int| j <= i < s.len() ==> is_ascii_space(#[trigger] s[i]),
        j == 0 || !is_ascii_space(s[j - 1]),
    ensures
        trim_end_spec(s) == s.take(j),
    decreases s.len() - j,
{
    if j == s.len() {
        assert(s.take(j) =~= s);
    } else {
        assert(is_ascii_space(s.last()));
        let head = s.drop_last();
        assert(forall|i: int| j <= i < head.len() ==> is_ascii_space(#[trigger] head[i]));
        lemma_trim_end_take(head, j);
        assert(head.take(j) =~= s.take(j));
    }
}

fn is_space_byte(b: u8) -> (r: bool)
    ensures
        r == is_ascii_space(b),
{
    b == 32 || b == 9 || b == 10 || b == 13
}

fn is_digit_byte(b: u8) -> (r: bool)
    ensures
        r == is_ascii_digit(b),
{
    48 <= b && b <= 57
}

/// The half-open index range of `bytes` left after trimming ASCII
/// whitespace from both ends.
fn trim_bounds(bytes: &[u8]) -> (r: (usize, usize))
    ensures
        r.0 <= r.1 <= bytes@.len(),
        bytes@.subrange(r.0 as int, r.1 as int) == trimmed(bytes@),
{
    let len = bytes.len();
    let mut s: usize = 0;
    while s < len && is_space_byte(bytes[s])
        invariant
            s <= len,
            len == bytes@.len(),
            forall|i: int| 0 <= i < s ==> is_ascii_space(#[trigger] bytes@[i]),
        decreases len - s,
    {
        s += 1;
    }
    let mut e: usize = len;
    while e > s && is_space_byte(bytes[e - 1])
        invariant
            s <= e <= len,
            len == bytes@.len(),
            forall|i: int| e <= i < len ==> is_ascii_space(#[trigger] bytes@[i]),
        decreases e,
    {
        e -= 1;
    }
    proof {
        lemma_trim_start_skip(bytes@, s as int);
        let sk = bytes@.skip(s as int);
        assert(forall|i: int|
            e - s <= i < sk.len() ==> is_ascii_space(#[trigger] sk[i]) && sk[i] == bytes@[i
                + s]) by {
            assert(forall|i: int| 0 <= i < sk.len() ==> #[trigger] sk[i] == bytes@[i + s]);
        }
        if e > s {
            assert(sk[e - s - 1] == bytes@[e - 1]);
        }
        lemma_trim_end_take(sk, e - s);
        assert(sk.take(e - s) =~= bytes@.subrange(s as int, e as int));
    }
    (s, e)
}

/// Parse the decimal digits in `bytes[start..end]` as a `u32`. `None`
/// exactly when the range is empty, holds any non-digit, or denotes a value
/// above `u32::MAX`.
fn parse_digit_range(bytes: &[u8], start: usize, end: usize) -> (r: Option<u32>)
    requires
        start <= end <= bytes@.len(),
    ensures
        ({
            let t = bytes@.subrange(start as int, end as int);
            match r {
                Some(n) => t.len() > 0 && all_digits(t) && digits_value(t) == n,
                None => t.len() == 0 || !all_digits(t) || digits_value(t) > u32::MAX,
            }
        }),
{
    let ghost t = bytes@.subrange(start as int, end as int);
    if start == end {
        return None;
    }
    let mut acc: u64 = 0;
    let mut k: usize = start;
    while k < end
        invariant
            start <= k <= end <= bytes@.len(),
            t == bytes@.subrange(start as int, end as int),
            acc <= u32::MAX,
            all_digits(t.take(k - start)),
            acc == digits_value(t.take(k - start)),
        decreases end - k,
    {
        let b = bytes[k];
        proof {
            assert(t[k - start] == bytes@[k as int]);
        }
        if !is_digit_byte(b) {
            proof {
                assert(!is_ascii_digit(t[k - start]));
            }
            return None;
        }
        let nv: u64 = acc * 10 + ((b - 48) as u64);
        proof {
            assert(t.take(k - start + 1).drop_last() =~= t.take(k - start));
            assert(t.take(k - start + 1).last() == t[k - start]);
            assert(all_digits(t.take(k - start + 1))) by {
                assert forall|i: int| 0 <= i < k - start + 1 implies is_ascii_digit(
                    #[trigger] t.take(k - start + 1)[i],
                ) by {
                    assert(t.take(k - start + 1)[i] == t[i]);
                    if i < k - start {
                        assert(is_ascii_digit(t.take((k - start) as int)[i]));
                        assert(t.take((k - start) as int)[i] == t[i]);
                    }
                }
            }
            assert(digits_value(t.take(k - start + 1)) == nv);
        }
        if nv > u32::MAX as u64 {
            proof {
                if all_digits(t) {
                    lemma_digits_value_monotone(t, k - start + 1);
                }
            }
            return None;
        }
        acc = nv;
        k += 1;
    }
    proof {
        assert(t.take(end - start) =~= t);
    }
    Some(acc as u32)
}

/// Parse a probed decimal number — a frame width, height or count — from
/// one line of probe output: optional surrounding whitespace around decimal
/// digits. `None` exactly when the trimmed text is empty, holds any
/// non-digit, or denotes a value above `u32::MAX`.
pub fn parse_unsigned(bytes: &[u8]) -> (r: Option<u32>)
    ensures
        ({
            let t = trimmed(bytes@);
            match r {
                Some(n) => t.len() > 0 && all_digits(t) && digits_value(t) == n,
                None => t.len() == 0 || !all_digits(t) || digits_value(t) > u32::MAX,
            }
        }),
{
    let (s, e) = trim_bounds(bytes);
    parse_digit_range(bytes, s, e)
}

/// Parse a probed average frame rate of the form `N/1` (surrounding
/// whitespace allowed): only exact whole-number rates are accepted, so a
/// fractional rate such as `30000/1001` is rejected. `None` exactly when
/// the trimmed text is shorter than three bytes, does not end in `/1`, or
/// the part before the slash is empty, holds a non-digit, or denotes a
/// value above `u32::MAX`.
pub fn parse_frame_rate(bytes: &[u8]) -> (r: Option<u32>)
    ensures
        ({
            let t = trimmed(bytes@);
            match r {
                Some(n) => {
                    &&& t.len() >= 3
                    &&& t[t.len() - 2] == 47u8
                    &&& t[t.len() - 1] == 49u8
                    &&& all_digits(t.take(t.len() - 2))
                    &&& digits_value(t.take(t.len() - 2)) == n
                },
                None => {
                    ||| t.len() < 3
                    ||| t[t.len() - 2] != 47u8
                    ||| t[t.len() - 1] != 49u8
                    ||| !all_digits(t.take(t.len() - 2))
                    ||| digits_value(t.take(t.len() - 2)) > u32::MAX
                },
            }
        }),
{
    let (s, e) = trim_bounds(bytes);
    let ghost t = trimmed(bytes@);
    if e - s < 3 {
        return None;
    }
    // the rate must read `<digits>/1`: 47 is `/`, 49 is `1`
    if bytes[e - 2] != 47 || bytes[e - 1] != 49 {
        proof {
            assert(t[t.len() - 2] == bytes@[e - 2]);
            assert(t[t.len() - 1] == bytes@[e - 1]);
        }
        return None;
    }
    let r = parse_digit_range(bytes, s, e - 2);
    proof {
        assert(t[t.len() - 2] == bytes@[e - 2]);
        assert(t[t.len() - 1] == bytes@[e - 1]);
        assert(bytes@.subrange(s as int, e - 2) =~= t.take(t.len() - 2));
    }
    r
}

} // verus!
