//! Array-of-bytes pattern scanning: a Boyer-Moore-Horspool search over byte
//! patterns with single-byte wildcards, and the parser for the textual pattern
//! syntax (`"01 02 ?? 04"`).
use vstd::prelude::*;
use vstd::string::StringSliceAdditionalSpecFns;

verus! {

// ---------------------------------------------------------------------------
// Matching model
// ---------------------------------------------------------------------------

/// A pattern byte matches a haystack byte when it is a wildcard or equal to it.
pub open spec fn byte_matches(p: Option<u8>, b: u8) -> bool {
    match p {
        None => true,
        Some(v) => v == b,
    }
}

/// The pattern `nd` occurs in `h` at offset `i`.
pub open spec fn window_matches(h: Seq<u8>, nd: Seq<Option<u8>>, i: int) -> bool {
    &&& 0 <= i
    &&& i + nd.len() <= h.len()
    &&& forall|j: int| 0 <= j < nd.len() ==> #[trigger] byte_matches(nd[j], h[i + j])
}

/// The first offset at or after `i` where the pattern occurs.
pub open spec fn first_match_from(h: Seq<u8>, nd: Seq<Option<u8>>, i: int) -> Option<int>
    decreases h.len() - i,
{
    if i < 0 || i + nd.len() > h.len() {
        None
    } else if window_matches(h, nd, i) {
        Some(i)
    } else {
        first_match_from(h, nd, i + 1)
    }
}

/// The first offset where the pattern occurs in `h`.
pub open spec fn first_match(h: Seq<u8>, nd: Seq<Option<u8>>) -> Option<int> {
    first_match_from(h, nd, 0)
}

// ---------------------------------------------------------------------------
// The Horspool scan
// ---------------------------------------------------------------------------

/// The last index `k < upto` whose pattern byte matches `c` (a wildcard or
/// `c` itself), or `-1` if there is none.
pub open spec fn last_occurrence(nd: Seq<Option<u8>>, c: u8, upto: int) -> int
    decreases upto,
{
    if upto <= 0 {
        -1
    } else if byte_matches(nd[upto - 1], c) {
        upto - 1
    } else {
        last_occurrence(nd, c, upto - 1)
    }
}

/// The bad-character shift for byte `c`: the distance from the last pattern
/// byte that matches `c` (the final byte excluded; a wildcard matches every
/// byte) to the end of the pattern, or the pattern's length when none does.
pub open spec fn shift_for(nd: Seq<Option<u8>>, c: u8) -> int {
    nd.len() - 1 - last_occurrence(nd, c, nd.len() - 1)
}

pub proof fn lemma_last_occurrence_bounds(nd: Seq<Option<u8>>, c: u8, upto: int)
    ensures
        -1 <= last_occurrence(nd, c, upto),
        upto > 0 ==> last_occurrence(nd, c, upto) < upto,
        upto <= 0 ==> last_occurrence(nd, c, upto) == -1,
        last_occurrence(nd, c, upto) >= 0 ==> byte_matches(nd[last_occurrence(nd, c, upto)], c),
    decreases upto,
{
    if upto > 0 {
        lemma_last_occurrence_bounds(nd, c, upto - 1);
    }
}

/// Any pattern byte below `upto` that matches `c` is at or before the last one.
pub proof fn lemma_last_occurrence_is_last(nd: Seq<Option<u8>>, c: u8, upto: int, p: int)
    requires
        0 <= p < upto,
        byte_matches(nd[p], c),
    ensures
        p <= last_occurrence(nd, c, upto),
    decreases upto,
{
    if upto - 1 != p && !byte_matches(nd[upto - 1], c) {
        lemma_last_occurrence_is_last(nd, c, upto - 1, p);
    }
}

pub proof fn lemma_shift_positive(nd: Seq<Option<u8>>, c: u8)
    requires
        nd.len() >= 1,
    ensures
        1 <= shift_for(nd, c) <= nd.len(),
{
    lemma_last_occurrence_bounds(nd, c, nd.len() - 1);
}

/// The positions the scan visits: the window ending at `k` is compared, and
/// on a mismatch the scan moves by the shift of the byte under the window's
/// last position.
pub open spec fn scan_from(h: Seq<u8>, nd: Seq<Option<u8>>, k: int) -> Option<int>
    decreases (if 0 <= k < h.len() { h.len() - k } else { 0 }),
{
    if nd.len() == 0 || k < 0 || k >= h.len() {
        None
    } else if window_matches(h, nd, k - nd.len() + 1) {
        Some(k - nd.len() + 1)
    } else {
        proof {
            lemma_shift_positive(nd, h[k]);
        }
        scan_from(h, nd, k + shift_for(nd, h[k]))
    }
}

/// What the Horspool scan returns on `h` and `nd`.
pub open spec fn horspool(h: Seq<u8>, nd: Seq<Option<u8>>) -> Option<int> {
    if nd.len() > h.len() {
        None
    } else {
        scan_from(h, nd, nd.len() - 1)
    }
}

/// Compares one pattern byte with one haystack byte.
fn pattern_byte_matches(p: Option<u8>, b: u8) -> (r: bool)
    ensures
        r == byte_matches(p, b),
{
    match p {
        None => true,
        Some(v) => v == b,
    }
}

/// Searches `haystack` for `needle` with the Boyer-Moore-Horspool skip rule
/// (a wildcard caps the shift, as it matches every byte): the offset of the
/// first occurrence of the pattern, or `None` when it occurs nowhere.
pub fn bmh(haystack: &[u8], needle: &[Option<u8>]) -> (r: Option<usize>)
    requires
        needle@.len() > 0,
        haystack@.len() <= isize::MAX,
    ensures
        r matches Some(i) ==> first_match(haystack@, needle@) == Some(i as int),
        r is None ==> first_match(haystack@, needle@) is None,
{
    proof {
        lemma_horspool_finds_first_match(haystack@, needle@);
    }
    let m = needle.len();
    let n = haystack.len();
    if m > n {
        return None;
    }
    let ghost h = haystack@;
    let ghost nd = needle@;

    let mut skip: Vec<usize> = vec![m; 256];
    let mut k: usize = 0;
    while k < m - 1
        invariant
            m == nd.len(),
            nd == needle@,
            1 <= m <= n,
            k <= m - 1,
            skip@.len() == 256,
            forall|c: u8| #[trigger] skip@[c as int] == m - 1 - last_occurrence(nd, c, k as int),
        decreases m - 1 - k,
    {
        match needle[k] {
            Some(v) => {
                skip.set(v as usize, m - k - 1);
            },
            None => {
                let mut c: usize = 0;
                while c < 256
                    invariant
                        skip@.len() == 256,
                        c <= 256,
                        k < m,
                        forall|d: int| 0 <= d < c ==> skip@[d] == m - k - 1,
                    decreases 256 - c,
                {
                    skip.set(c, m - k - 1);
                    c = c + 1;
                }
            },
        }
        proof {
            assert forall|c: u8| #[trigger] skip@[c as int] == m - 1 - last_occurrence(
                nd,
                c,
                k + 1,
            ) by {
                lemma_last_occurrence_bounds(nd, c, k as int);
            }
        }
        k = k + 1;
    }

    let mut k: usize = m - 1;
    while k < n
        invariant
            m == nd.len(),
            n == h.len(),
            nd == needle@,
            h == haystack@,
            1 <= m <= n,
            n <= isize::MAX,
            m - 1 <= k,
            k <= n + m,
            skip@.len() == 256,
            forall|c: u8| #[trigger] skip@[c as int] == shift_for(nd, c),
            horspool(h, nd) == scan_from(h, nd, k as int),
            horspool(h, nd) == first_match(h, nd),
        decreases n + m - k,
    {
        // Compare the window ending at `k` from its last byte backwards;
        // `j` pattern bytes remain to be compared.
        let mut j: usize = m;
        while j > 0 && pattern_byte_matches(needle[j - 1], haystack[k + 1 - m + (j - 1)])
            invariant
                m == nd.len(),
                n == h.len(),
                nd == needle@,
                h == haystack@,
                1 <= m <= n,
                m - 1 <= k < n,
                j <= m,
                forall|p: int|
                    j <= p < m ==> #[trigger] byte_matches(nd[p], h[k - (m - 1) + p]),
            decreases j,
        {
            assert(h[k - (m - 1) + (j - 1)] == h[k + 1 - m + (j - 1)]);
            j = j - 1;
        }
        if j == 0 {
            assert(window_matches(h, nd, k - m + 1)) by {
                assert forall|p: int| 0 <= p < m implies #[trigger] byte_matches(
                    nd[p],
                    h[(k - m + 1) + p],
                ) by {
                    assert(h[k - (m - 1) + p] == h[(k - m + 1) + p]);
                }
            }
            return Some(k + 1 - m);
        }
        assert(!window_matches(h, nd, k - m + 1)) by {
            let p = j - 1;
            assert(!byte_matches(nd[p as int], h[k + 1 - m + p]));
            assert(h[k - (m - 1) + p] == h[(k - m + 1) + p]);
        }
        proof {
            lemma_shift_positive(nd, h[k as int]);
        }
        k = k + skip[haystack[k] as usize];
    }
    None
}

// ---------------------------------------------------------------------------
// Laws
// ---------------------------------------------------------------------------

/// Windows strictly between `a` and `b` that do not match can be skipped when
/// looking for the first match.
proof fn lemma_first_match_skip(h: Seq<u8>, nd: Seq<Option<u8>>, a: int, b: int)
    requires
        0 <= a <= b,
        forall|i: int| a <= i < b ==> !window_matches(h, nd, i),
    ensures
        first_match_from(h, nd, a) == first_match_from(h, nd, b),
    decreases b - a,
{
    if a < b {
        lemma_first_match_skip(h, nd, a + 1, b);
    }
}

/// No window that the bad-character shift jumps over can match.
proof fn lemma_shift_is_safe(h: Seq<u8>, nd: Seq<Option<u8>>, k: int, t: int)
    requires
        nd.len() >= 1,
        nd.len() - 1 <= k < h.len(),
        1 <= t < shift_for(nd, h[k]),
    ensures
        !window_matches(h, nd, k - nd.len() + 1 + t),
{
    let m = nd.len();
    let i = k - m + 1 + t;
    let p = m - 1 - t;
    lemma_shift_positive(nd, h[k]);
    if window_matches(h, nd, i) {
        assert(byte_matches(nd[p], h[i + p]));
        assert(i + p == k);
        lemma_last_occurrence_is_last(nd, h[k], m - 1, p);
    }
}

proof fn lemma_scan_finds_first(h: Seq<u8>, nd: Seq<Option<u8>>, k: int)
    requires
        nd.len() >= 1,
        nd.len() - 1 <= k,
        forall|i: int| 0 <= i < k - nd.len() + 1 ==> !window_matches(h, nd, i),
    ensures
        scan_from(h, nd, k) == first_match(h, nd),
    decreases (if 0 <= k < h.len() { h.len() - k } else { 0 }),
{
    let m = nd.len();
    lemma_first_match_skip(h, nd, 0, k - m + 1);
    if k >= h.len() {
        assert(first_match_from(h, nd, k - m + 1) is None);
    } else if window_matches(h, nd, k - m + 1) {
    } else {
        let s = shift_for(nd, h[k]);
        lemma_shift_positive(nd, h[k]);
        assert forall|i: int| 0 <= i < k + s - m + 1 implies !window_matches(h, nd, i) by {
            if i > k - m + 1 {
                lemma_shift_is_safe(h, nd, k, i - (k - m + 1));
            }
        }
        lemma_scan_finds_first(h, nd, k + s);
    }
}

/// The search never reports a position where the pattern does not occur.
pub proof fn lemma_horspool_sound(h: Seq<u8>, nd: Seq<Option<u8>>)
    ensures
        horspool(h, nd) matches Some(i) ==> window_matches(h, nd, i),
{
    if nd.len() <= h.len() {
        lemma_scan_sound(h, nd, nd.len() - 1);
    }
}

proof fn lemma_scan_sound(h: Seq<u8>, nd: Seq<Option<u8>>, k: int)
    ensures
        scan_from(h, nd, k) matches Some(i) ==> window_matches(h, nd, i),
    decreases (if 0 <= k < h.len() { h.len() - k } else { 0 }),
{
    if nd.len() != 0 && 0 <= k < h.len() && !window_matches(h, nd, k - nd.len() + 1) {
        lemma_shift_positive(nd, h[k]);
        lemma_scan_sound(h, nd, k + shift_for(nd, h[k]));
    }
}

/// The skipping scan returns the first offset where the pattern occurs, and
/// `None` exactly when it occurs nowhere, wildcards or not.
pub proof fn lemma_horspool_finds_first_match(h: Seq<u8>, nd: Seq<Option<u8>>)
    requires
        nd.len() >= 1,
    ensures
        horspool(h, nd) == first_match(h, nd),
{
    if nd.len() > h.len() {
        assert(first_match_from(h, nd, 0) is None);
    } else {
        lemma_scan_finds_first(h, nd, nd.len() - 1);
    }
}


// ---------------------------------------------------------------------------
// Pattern syntax
// ---------------------------------------------------------------------------

/// `s` cut at every space byte, as `str::split(" ")` does: `k` spaces give
/// `k + 1` pieces, empty ones included.
pub open spec fn split_spaces(s: Seq<u8>) -> Seq<Seq<u8>>
    decreases s.len(),
{
    if s.len() == 0 {
        seq![Seq::empty()]
    } else {
        let init = split_spaces(s.drop_last());
        if s.last() == 0x20u8 {
            init.push(Seq::empty())
        } else {
            init.update(init.len() - 1, init.last().push(s.last()))
        }
    }
}

pub proof fn lemma_split_spaces_nonempty(s: Seq<u8>)
    ensures
        split_spaces(s).len() >= 1,
    decreases s.len(),
{
    if s.len() > 0 {
        lemma_split_spaces_nonempty(s.drop_last());
    }
}

/// The value of an ASCII digit in base 16 (`0-9`, `a-f`, `A-F`).
pub open spec fn hex_digit(b: u8) -> Option<nat> {
    if 0x30 <= b <= 0x39 {
        Some((b - 0x30) as nat)
    } else if 0x61 <= b <= 0x66 {
        Some((b - 0x61 + 10) as nat)
    } else if 0x41 <= b <= 0x46 {
        Some((b - 0x41 + 10) as nat)
    } else {
        None
    }
}

/// The value of a string of hexadecimal digits (`Some(0)` for the empty one),
/// or `None` if a byte is not a hexadecimal digit.
pub open spec fn hex_value(t: Seq<u8>) -> Option<nat>
    decreases t.len(),
{
    if t.len() == 0 {
        Some(0)
    } else {
        match (hex_value(t.drop_last()), hex_digit(t.last())) {
            (Some(v), Some(d)) => Some(v * 16 + d),
            _ => None,
        }
    }
}

/// A byte written in base 16, as `u8::from_str_radix(t, 16)` reads it: an
/// optional leading `+`, then at least one hexadecimal digit, with a value
/// that fits in a byte.
pub open spec fn parse_hex_byte(t: Seq<u8>) -> Option<u8> {
    let digits = if t.len() > 0 && t[0] == 0x2bu8 {
        t.drop_first()
    } else {
        t
    };
    if digits.len() == 0 {
        None
    } else {
        match hex_value(digits) {
            Some(v) => if v < 256 {
                Some(v as u8)
            } else {
                None
            },
            None => None,
        }
    }
}

/// One piece of a pattern: `?` and `??` are wildcards, anything else is a
/// hexadecimal byte, and a piece that does not parse is a wildcard as well.
pub open spec fn parse_piece(t: Seq<u8>) -> Option<u8> {
    if t =~= seq![0x3fu8] || t =~= seq![0x3fu8, 0x3fu8] {
        None
    } else {
        parse_hex_byte(t)
    }
}

/// The pattern that `into_needle` builds from the bytes of its text.
pub open spec fn needle_of(s: Seq<u8>) -> Seq<Option<u8>> {
    split_spaces(s).map_values(|t: Seq<u8>| parse_piece(t))
}

/// The lower-case hexadecimal digit of `d` (below 16).
pub open spec fn hex_char(d: int) -> u8 {
    if d < 10 {
        (0x30 + d) as u8
    } else {
        (0x61 + d - 10) as u8
    }
}

/// A byte written as two lower-case hexadecimal digits (`{:02x}`).
pub open spec fn hex_pair(b: u8) -> Seq<u8> {
    seq![hex_char((b / 16) as int), hex_char((b % 16) as int)]
}

/// Bytes written as two-digit hexadecimal pieces joined by single spaces.
pub open spec fn hex_text(bs: Seq<u8>) -> Seq<u8>
    decreases bs.len(),
{
    if bs.len() == 0 {
        Seq::empty()
    } else if bs.len() == 1 {
        hex_pair(bs[0])
    } else {
        hex_text(bs.drop_last()) + seq![0x20u8] + hex_pair(bs.last())
    }
}

proof fn lemma_hex_pair_parses(b: u8)
    ensures
        parse_piece(hex_pair(b)) == Some(b),
        forall|i: int| 0 <= i < 2 ==> #[trigger] hex_pair(b)[i] != 0x20u8,
{
    let p = hex_pair(b);
    let hi = (b / 16) as int;
    let lo = (b % 16) as int;
    assert(hex_digit(hex_char(hi)) == Some(hi as nat));
    assert(hex_digit(hex_char(lo)) == Some(lo as nat));
    assert(p.drop_last() =~= seq![hex_char(hi)]);
    let one = seq![hex_char(hi)];
    assert(one.drop_last() =~= Seq::<u8>::empty());
    assert(one.last() == hex_char(hi));
    assert(hex_value(Seq::<u8>::empty()) == Some(0nat));
    assert(hex_value(one) == Some(hi as nat));
    assert(hex_value(p) == Some((hi * 16 + lo) as nat));
    assert(!(p =~= seq![0x3fu8]));
    assert(p[0] != 0x3fu8);
}

/// Appending bytes without a space to `t` extends the last piece of `t`.
proof fn lemma_split_append(t: Seq<u8>, q: Seq<u8>)
    requires
        forall|i: int| 0 <= i < q.len() ==> #[trigger] q[i] != 0x20u8,
    ensures
        split_spaces(t + q) == split_spaces(t).update(
            split_spaces(t).len() - 1,
            split_spaces(t).last() + q,
        ),
    decreases q.len(),
{
    lemma_split_spaces_nonempty(t);
    if q.len() == 0 {
        assert(t + q =~= t);
        assert(split_spaces(t).last() + q =~= split_spaces(t).last());
        assert(split_spaces(t).update(split_spaces(t).len() - 1, split_spaces(t).last())
            =~= split_spaces(t));
    } else {
        let q0 = q.drop_last();
        lemma_split_append(t, q0);
        assert((t + q).drop_last() =~= t + q0);
        assert((t + q).last() == q.last());
        assert(q[q.len() - 1] != 0x20u8);
        let i = split_spaces(t);
        let init = split_spaces(t + q0);
        assert(init == i.update(i.len() - 1, i.last() + q0));
        assert(init.len() == i.len());
        assert(init.last() == i.last() + q0);
        assert((i.last() + q0).push(q.last()) =~= i.last() + q);
        assert(split_spaces(t + q) == init.update(init.len() - 1, init.last().push(q.last())));
        assert(split_spaces(t + q) =~= i.update(i.len() - 1, i.last() + q));
    }
}

proof fn lemma_split_hex_text(bs: Seq<u8>)
    requires
        bs.len() >= 1,
    ensures
        split_spaces(hex_text(bs)) == bs.map_values(|b: u8| hex_pair(b)),
    decreases bs.len(),
{
    lemma_hex_pair_parses(bs.last());
    if bs.len() == 1 {
        lemma_split_append(Seq::empty(), hex_pair(bs[0]));
        assert(Seq::<u8>::empty() + hex_pair(bs[0]) =~= hex_pair(bs[0]));
        assert(split_spaces(Seq::<u8>::empty()) =~= seq![Seq::<u8>::empty()]);
        assert(Seq::<u8>::empty() + hex_pair(bs[0]) =~= hex_pair(bs[0]));
        assert(split_spaces(hex_text(bs)) =~= bs.map_values(|b: u8| hex_pair(b)));
    } else {
        let init = bs.drop_last();
        lemma_split_hex_text(init);
        let t = hex_text(init) + seq![0x20u8];
        assert(t.drop_last() =~= hex_text(init));
        assert(split_spaces(t) == split_spaces(hex_text(init)).push(Seq::empty()));
        lemma_split_append(t, hex_pair(bs.last()));
        assert(Seq::<u8>::empty() + hex_pair(bs.last()) =~= hex_pair(bs.last()));
        assert(split_spaces(hex_text(bs)) =~= bs.map_values(|b: u8| hex_pair(b)));
    }
}

/// Bytes written as two-digit lower-case hexadecimal pieces joined by single
/// spaces (as `format!("{:02x}")` and `join(" ")` write them) parse back to
/// the same bytes, none of them a wildcard.
pub proof fn lemma_into_needle_round_trip(bs: Seq<u8>)
    requires
        bs.len() >= 1,
    ensures
        needle_of(hex_text(bs)) == bs.map_values(|b: u8| Some(b)),
{
    lemma_split_hex_text(bs);
    assert forall|i: int| 0 <= i < bs.len() implies #[trigger] needle_of(hex_text(bs))[i] == Some(
        bs[i],
    ) by {
        lemma_hex_pair_parses(bs[i]);
    }
    assert(needle_of(hex_text(bs)) =~= bs.map_values(|b: u8| Some(b)));
}

/// The value of one hexadecimal digit byte.
fn hex_digit_value(b: u8) -> (r: Option<u8>)
    ensures
        r matches Some(d) ==> hex_digit(b) == Some(d as nat) && d < 16,
        r is None ==> hex_digit(b) is None,
{
    if 0x30 <= b && b <= 0x39 {
        Some(b - 0x30)
    } else if 0x61 <= b && b <= 0x66 {
        Some(b - 0x61 + 10)
    } else if 0x41 <= b && b <= 0x46 {
        Some(b - 0x41 + 10)
    } else {
        None
    }
}

/// Reads a byte written in base 16 from the bytes of `t`.
fn parse_hex(t: &[u8]) -> (r: Option<u8>)
    ensures
        r == parse_hex_byte(t@),
{
    let mut start: usize = 0;
    if t.len() > 0 && t[0] == 0x2b {
        start = 1;
    }
    if start >= t.len() {
        return None;
    }
    let ghost digits = t@.subrange(start as int, t@.len() as int);
    assert(digits =~= (if t@.len() > 0 && t@[0] == 0x2bu8 { t@.drop_first() } else { t@ }));
    let mut acc: u32 = 0;
    let mut i: usize = start;
    while i < t.len()
        invariant
            start <= i <= t@.len(),
            start < t@.len(),
            digits == t@.subrange(start as int, t@.len() as int),
            digits == (if t@.len() > 0 && t@[0] == 0x2bu8 { t@.drop_first() } else { t@ }),
            hex_value(t@.subrange(start as int, i as int)) == Some(acc as nat),
            acc < 256,
        decreases t@.len() - i,
    {
        let ghost prefix = t@.subrange(start as int, i as int);
        assert(t@.subrange(start as int, i + 1) =~= prefix.push(t@[i as int]));
        match hex_digit_value(t[i]) {
            None => {
                proof {
                    assert(digits[i - start] == t@[i as int]);
                    lemma_hex_value_none_stays(digits, i - start);
                }
                return None;
            },
            Some(d) => {
                let next = acc * 16 + d as u32;
                proof {
                    assert(digits.subrange(0, i - start + 1) =~= prefix.push(t@[i as int]));
                    assert(prefix.push(t@[i as int]).drop_last() =~= prefix);
                    assert(hex_value(prefix.push(t@[i as int])) == Some(next as nat));
                }
                if next >= 256 {
                    proof {
                        lemma_hex_value_big_stays(digits, (i - start + 1) as int);
                    }
                    return None;
                }
                acc = next;
            },
        }
        i = i + 1;
    }
    assert(t@.subrange(start as int, i as int) =~= digits);
    Some(acc as u8)
}

/// Once a prefix holds a byte that is not a hexadecimal digit, so does the
/// whole string.
proof fn lemma_hex_value_none_stays(t: Seq<u8>, p: int)
    requires
        0 <= p < t.len(),
        hex_digit(t[p]) is None,
    ensures
        hex_value(t) is None,
    decreases t.len(),
{
    if p == t.len() - 1 {
    } else {
        assert(t.drop_last()[p] == t[p]);
        lemma_hex_value_none_stays(t.drop_last(), p);
    }
}

/// Once a prefix of digits is worth at least 256, the whole string is too
/// (or holds a non-digit).
proof fn lemma_hex_value_big_stays(t: Seq<u8>, p: int)
    requires
        0 < p <= t.len(),
        hex_value(t.subrange(0, p)) matches Some(v) && v >= 256,
    ensures
        match hex_value(t) {
            Some(v) => v >= 256,
            None => true,
        },
    decreases t.len(),
{
    if p == t.len() {
        assert(t.subrange(0, p) =~= t);
    } else {
        assert(t.drop_last().subrange(0, p) =~= t.subrange(0, p));
        lemma_hex_value_big_stays(t.drop_last(), p);
    }
}

/// Reads one piece of a pattern.
fn parse_pattern_piece(t: &[u8]) -> (r: Option<u8>)
    ensures
        r == parse_piece(t@),
{
    if t.len() == 1 && t[0] == 0x3f {
        assert(t@ =~= seq![0x3fu8]);
        return None;
    }
    if t.len() == 2 && t[0] == 0x3f && t[1] == 0x3f {
        assert(t@ =~= seq![0x3fu8, 0x3fu8]);
        return None;
    }
    parse_hex(t)
}

/// Builds a byte pattern from its textual form: space-separated hexadecimal
/// bytes, where `?` or `??` (or any piece that is not a byte in base 16)
/// stands for a wildcard.
pub fn into_needle(pattern: &str) -> (r: Vec<Option<u8>>)
    ensures
        r@ == needle_of(pattern.spec_bytes()),
        r@.len() >= 1,
{
    let bytes = pattern.as_bytes();
    let ghost s = bytes@;
    let mut out: Vec<Option<u8>> = Vec::new();
    let mut cur: Vec<u8> = Vec::new();
    let mut i: usize = 0;
    while i < bytes.len()
        invariant
            s == bytes@,
            i <= s.len(),
            split_spaces(s.take(i as int)).len() >= 1,
            out@ == split_spaces(s.take(i as int)).drop_last().map_values(
                |t: Seq<u8>| parse_piece(t),
            ),
            cur@ == split_spaces(s.take(i as int)).last(),
        decreases s.len() - i,
    {
        let ghost pre = split_spaces(s.take(i as int));
        assert(s.take(i + 1).drop_last() =~= s.take(i as int));
        let b = bytes[i];
        if b == 0x20 {
            let piece = parse_pattern_piece(cur.as_slice());
            out.push(piece);
            cur = Vec::new();
            assert(split_spaces(s.take(i + 1)) == pre.push(Seq::empty()));
            assert(split_spaces(s.take(i + 1)).drop_last() =~= pre);
            assert(out@ =~= pre.map_values(|t: Seq<u8>| parse_piece(t)));
        } else {
            cur.push(b);
            let ghost post = split_spaces(s.take(i + 1));
            assert(post == pre.update(pre.len() - 1, pre.last().push(b)));
            assert(post.drop_last() =~= pre.drop_last());
        }
        i = i + 1;
    }
    let piece = parse_pattern_piece(cur.as_slice());
    out.push(piece);
    assert(s.take(s.len() as int) =~= s);
    let ghost all = split_spaces(s);
    assert(all =~= all.drop_last().push(all.last()));
    assert(out@ =~= all.map_values(|t: Seq<u8>| parse_piece(t)));
    out
}

/// The scanning half of an array-of-bytes scan: reads the pattern from its
/// text and searches the first `bytes_read` bytes of `buffer` for it.
pub fn aob_scan_buffer(pattern: &str, buffer: &[u8], bytes_read: usize) -> (r: Option<usize>)
    requires
        bytes_read <= buffer@.len(),
        buffer@.len() <= isize::MAX,
    ensures
        r matches Some(i) ==> first_match(
            buffer@.take(bytes_read as int),
            needle_of(pattern.spec_bytes()),
        ) == Some(i as int),
        r is None ==> first_match(buffer@.take(bytes_read as int), needle_of(pattern.spec_bytes())) is None,
{
    let needle = into_needle(pattern);
    let read = &buffer[0..bytes_read];
    assert(read@ =~= buffer@.take(bytes_read as int));
    bmh(read, needle.as_slice())
}

} // verus!
