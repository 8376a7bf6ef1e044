//! Matching a process by its executable name, as the injector does while
//! it walks the system's process list: each entry carries its name in a
//! fixed-size buffer, ended by the first zero.
use vstd::prelude::*;

verus! {

/// `k` is where the name in the buffer `s` ends: no zero before it, and
/// either a zero at it or the end of the buffer.
pub open spec fn ends_at_u8(s: Seq<u8>, k: int) -> bool {
    &&& 0 <= k <= s.len()
    &&& forall|j: int| 0 <= j < k ==> s[j] != 0
    &&& (k == s.len() || s[k] == 0)
}

/// `k` is where the name in the wide buffer `s` ends.
pub open spec fn ends_at_u16(s: Seq<u16>, k: int) -> bool {
    &&& 0 <= k <= s.len()
    &&& forall|j: int| 0 <= j < k ==> s[j] != 0
    &&& (k == s.len() || s[k] == 0)
}

/// Where the name in an ANSI name buffer ends.
pub fn name_end_u8(s: &[u8]) -> (k: usize)
    ensures
        ends_at_u8(s@, k as int),
{
    let mut k: usize = 0;
    while k < s.len()
        invariant
            0 <= k <= s@.len(),
            forall|j: int| 0 <= j < k ==> s@[j] != 0,
        decreases s@.len() - k,
    {
        if s[k] == 0 {
            return k;
        }
        k = k + 1;
    }
    k
}

/// Where the name in a wide name buffer ends.
pub fn name_end_u16(s: &[u16]) -> (k: usize)
    ensures
        ends_at_u16(s@, k as int),
{
    let mut k: usize = 0;
    while k < s.len()
        invariant
            0 <= k <= s@.len(),
            forall|j: int| 0 <= j < k ==> s@[j] != 0,
        decreases s@.len() - k,
    {
        if s[k] == 0 {
            return k;
        }
        k = k + 1;
    }
    k
}

/// The ANSI match: the entry's name and the wanted name agree on every
/// position both have (the shorter is compared as a prefix of the longer).
pub open spec fn ansi_match(name: Seq<u8>, wanted: Seq<u8>) -> bool {
    forall|i: int| 0 <= i < name.len() && 0 <= i < wanted.len() ==> name[i] == wanted[i]
}

/// Whether the ANSI name buffer `entry` matches the name `wanted`: the bytes
/// before the buffer's first zero agree with `wanted` on every position both
/// have.
pub fn ansi_name_matches(entry: &[u8], wanted: &[u8]) -> (r: bool)
    ensures
        forall|k: int| ends_at_u8(entry@, k) ==> r == ansi_match(entry@.subrange(0, k), wanted@),
{
    let end = name_end_u8(entry);
    let mut i: usize = 0;
    while i < end && i < wanted.len()
        invariant
            ends_at_u8(entry@, end as int),
            0 <= i <= end,
            forall|j: int| 0 <= j < i && j < wanted@.len() ==> entry@[j] == wanted@[j],
        decreases end - i,
    {
        if entry[i] != wanted[i] {
            proof {
                assert forall|k: int| ends_at_u8(entry@, k) implies k == end by {
                    if k < end {
                        assert(entry@[k] != 0);
                    } else if k > end {
                        assert(entry@[end as int] != 0);
                    }
                }
                assert(entry@.subrange(0, end as int)[i as int] == entry@[i as int]);
            }
            return false;
        }
        i = i + 1;
    }
    proof {
        assert forall|k: int| ends_at_u8(entry@, k) implies k == end by {
            if k < end {
                assert(entry@[k] != 0);
            } else if k > end {
                assert(entry@[end as int] != 0);
            }
        }
    }
    true
}

/// Whether the wide name buffer `entry` holds exactly the name `wanted`.
pub fn wide_name_matches(entry: &[u16], wanted: &[u16]) -> (r: bool)
    ensures
        forall|k: int| ends_at_u16(entry@, k) ==> r == (entry@.subrange(0, k) == wanted@),
{
    let end = name_end_u16(entry);
    proof {
        assert forall|k: int| ends_at_u16(entry@, k) implies k == end by {
            if k < end {
                assert(entry@[k] != 0);
            } else if k > end {
                assert(entry@[end as int] != 0);
            }
        }
    }
    if end != wanted.len() {
        assert(entry@.subrange(0, end as int).len() != wanted@.len());
        return false;
    }
    let mut i: usize = 0;
    while i < end
        invariant
            end == wanted@.len(),
            end <= entry@.len(),
            0 <= i <= end,
            forall|j: int| 0 <= j < i ==> entry@[j] == wanted@[j],
        decreases end - i,
    {
        if entry[i] != wanted[i] {
            assert(entry@.subrange(0, end as int)[i as int] != wanted@[i as int]);
            return false;
        }
        i = i + 1;
    }
    assert(entry@.subrange(0, end as int) =~= wanted@);
    true
}

/// The index of the first entry whose ANSI name matches `wanted`, if any.
pub fn find_ansi(entries: &Vec<Vec<u8>>, wanted: &[u8]) -> (r: Option<usize>)
    ensures
        r matches Some(i) ==> i < entries@.len() && (forall|k: int|
            ends_at_u8(entries@[i as int]@, k) ==> ansi_match(
                entries@[i as int]@.subrange(0, k),
                wanted@,
            )),
        forall|i: int|
            0 <= i < entries@.len() && (r matches Some(f) ==> i < f) ==> forall|k: int|
                ends_at_u8(#[trigger] entries@[i]@, k) ==> !ansi_match(
                    entries@[i]@.subrange(0, k),
                    wanted@,
                ),
{
    let mut i: usize = 0;
    while i < entries.len()
        invariant
            0 <= i <= entries@.len(),
            forall|j: int|
                0 <= j < i ==> forall|k: int|
                    ends_at_u8(#[trigger] entries@[j]@, k) ==> !ansi_match(
                        entries@[j]@.subrange(0, k),
                        wanted@,
                    ),
        decreases entries@.len() - i,
    {
        if ansi_name_matches(entries[i].as_slice(), wanted) {
            return Some(i);
        }
        i = i + 1;
    }
    None
}

/// The index of the first entry whose wide name is exactly `wanted`, if any.
pub fn find_wide(entries: &Vec<Vec<u16>>, wanted: &[u16]) -> (r: Option<usize>)
    ensures
        r matches Some(i) ==> i < entries@.len() && (forall|k: int|
            ends_at_u16(entries@[i as int]@, k) ==> entries@[i as int]@.subrange(0, k) == wanted@),
        forall|i: int|
            0 <= i < entries@.len() && (r matches Some(f) ==> i < f) ==> forall|k: int|
                ends_at_u16(#[trigger] entries@[i]@, k) ==> entries@[i]@.subrange(0, k) != wanted@,
{
    let mut i: usize = 0;
    while i < entries.len()
        invariant
            0 <= i <= entries@.len(),
            forall|j: int|
                0 <= j < i ==> forall|k: int|
                    ends_at_u16(#[trigger] entries@[j]@, k) ==> entries@[j]@.subrange(0, k)
                        != wanted@,
        decreases entries@.len() - i,
    {
        if wide_name_matches(entries[i].as_slice(), wanted) {
            return Some(i);
        }
        i = i + 1;
    }
    None
}

} // verus!
