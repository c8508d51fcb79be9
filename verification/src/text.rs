//! Byte-string helpers: occurrence counting, first-occurrence search,
//! sub-vector extraction and ASCII lower-casing, each with an exact
//! specification over `Seq<u8>`.

use vstd::prelude::*;

verus! {

/// How many times the byte `b` occurs in `s`.
pub open spec fn count_byte(s: Seq<u8>, b: u8) -> int
    decreases s.len(),
{
    if s.len() == 0 {
        0
    } else {
        count_byte(s.drop_last(), b) + if s.last() == b {
            1int
        } else {
            0int
        }
    }
}

/// The index of the first occurrence of `b` in `s` (meaningful when `b` occurs).
pub open spec fn first_pos(s: Seq<u8>, b: u8) -> int
    decreases s.len(),
{
    if s.len() == 0 {
        0
    } else if s[0] == b {
        0
    } else {
        1 + first_pos(s.drop_first(), b)
    }
}

/// ASCII lower-casing of a single byte: `A`..`Z` map to `a`..`z`.
pub open spec fn lower_byte(b: u8) -> u8 {
    if 65 <= b && b <= 90 {
        (b + 32) as u8
    } else {
        b
    }
}

/// ASCII lower-casing of a byte string, byte by byte.
pub open spec fn lower(s: Seq<u8>) -> Seq<u8> {
    s.map_values(|b: u8| lower_byte(b))
}

pub proof fn lemma_count_le_len(s: Seq<u8>, b: u8)
    ensures
        0 <= count_byte(s, b) <= s.len(),
    decreases s.len(),
{
    if s.len() > 0 {
        lemma_count_le_len(s.drop_last(), b);
    }
}

pub proof fn lemma_count_zero_iff_absent(s: Seq<u8>, b: u8)
    ensures
        count_byte(s, b) == 0 <==> (forall|j: int| 0 <= j < s.len() ==> s[j] != b),
    decreases s.len(),
{
    if s.len() > 0 {
        lemma_count_zero_iff_absent(s.drop_last(), b);
        lemma_count_le_len(s.drop_last(), b);
        assert(forall|j: int| 0 <= j < s.len() - 1 ==> s.drop_last()[j] == s[j]);
        assert(s.last() == s[s.len() - 1]);
    }
}

pub proof fn lemma_first_pos_found(s: Seq<u8>, b: u8, i: int)
    requires
        0 <= i < s.len(),
        s[i] == b,
        forall|j: int| 0 <= j < i ==> s[j] != b,
    ensures
        first_pos(s, b) == i,
    decreases s.len(),
{
    if i > 0 {
        assert(s[0] != b);
        assert(forall|j: int| 0 <= j < i - 1 ==> s.drop_first()[j] == s[j + 1]);
        assert(s.drop_first()[i - 1] == s[i]);
        lemma_first_pos_found(s.drop_first(), b, i - 1);
    }
}

/// A byte outside both ASCII letter ranges: lower-casing neither changes it
/// nor maps any other byte onto it. The credential delimiters are such bytes.
pub open spec fn case_neutral(b: u8) -> bool {
    b < 65 || (90 < b && b < 97) || 122 < b
}

pub proof fn lemma_first_pos_in_bounds(s: Seq<u8>, b: u8)
    requires
        count_byte(s, b) > 0,
    ensures
        0 <= first_pos(s, b) < s.len(),
        s[first_pos(s, b)] == b,
    decreases s.len(),
{
    lemma_count_zero_iff_absent(s, b);
    if s[0] != b {
        let j = choose|j: int| 0 <= j < s.len() && s[j] == b;
        assert(s.drop_first()[j - 1] == b);
        lemma_count_zero_iff_absent(s.drop_first(), b);
        lemma_count_le_len(s.drop_first(), b);
        lemma_first_pos_in_bounds(s.drop_first(), b);
    }
}

pub proof fn lemma_lower_preserves_count(s: Seq<u8>, b: u8)
    requires
        case_neutral(b),
    ensures
        count_byte(lower(s), b) == count_byte(s, b),
    decreases s.len(),
{
    if s.len() > 0 {
        lemma_lower_preserves_count(s.drop_last(), b);
        assert(lower(s).drop_last() =~= lower(s.drop_last()));
        assert(lower(s).last() == lower_byte(s.last()));
        assert(lower(s).len() > 0);
    }
}

pub proof fn lemma_lower_preserves_first_pos(s: Seq<u8>, b: u8)
    requires
        case_neutral(b),
    ensures
        first_pos(lower(s), b) == first_pos(s, b),
    decreases s.len(),
{
    if s.len() > 0 {
        assert(lower(s)[0] == lower_byte(s[0]));
        if s[0] != b {
            assert(lower(s).drop_first() =~= lower(s.drop_first()));
            lemma_lower_preserves_first_pos(s.drop_first(), b);
        }
    }
}

pub proof fn lemma_lower_take(s: Seq<u8>, k: int)
    requires
        0 <= k <= s.len(),
    ensures
        lower(s.take(k)) == lower(s).take(k),
{
    assert forall|i: int| 0 <= i < k implies lower(s.take(k))[i] == lower(s).take(k)[i] by {
        assert(lower(s.take(k))[i] == lower_byte(s.take(k)[i]));
        assert(lower(s)[i] == lower_byte(s[i]));
    }
    assert(lower(s.take(k)) =~= lower(s).take(k));
}

pub proof fn lemma_lower_skip(s: Seq<u8>, k: int)
    requires
        0 <= k <= s.len(),
    ensures
        lower(s.skip(k)) == lower(s).skip(k),
{
    assert forall|i: int| 0 <= i < s.len() - k implies lower(s.skip(k))[i] == lower(s).skip(k)[i]
        by {
        assert(lower(s.skip(k))[i] == lower_byte(s.skip(k)[i]));
        assert(lower(s)[k + i] == lower_byte(s[k + i]));
    }
    assert(lower(s.skip(k)) =~= lower(s).skip(k));
}

/// Counts how many times `b` occurs in `v`.
pub fn count_occurrences(v: &Vec<u8>, b: u8) -> (c: usize)
    ensures
        c as int == count_byte(v@, b),
{
    let mut c: usize = 0;
    let mut i: usize = 0;
    while i < v.len()
        invariant
            i <= v@.len(),
            c <= i,
            c as int == count_byte(v@.take(i as int), b),
        decreases v@.len() - i,
    {
        proof {
            assert(v@.take(i as int + 1).drop_last() =~= v@.take(i as int));
            assert(v@.take(i as int + 1).last() == v@[i as int]);
        }
        if v[i] == b {
            c = c + 1;
        }
        i = i + 1;
    }
    proof {
        assert(v@.take(v@.len() as int) =~= v@);
    }
    c
}

/// Finds the index of the first occurrence of `b` in `v`.
pub fn find_first(v: &Vec<u8>, b: u8) -> (p: usize)
    requires
        count_byte(v@, b) > 0,
    ensures
        p < v@.len(),
        v@[p as int] == b,
        p as int == first_pos(v@, b),
        forall|j: int| 0 <= j < p ==> v@[j] != b,
{
    let mut i: usize = 0;
    while i < v.len()
        invariant
            i <= v@.len(),
            count_byte(v@, b) > 0,
            forall|j: int| 0 <= j < i ==> v@[j] != b,
        decreases v@.len() - i,
    {
        if v[i] == b {
            proof {
                lemma_first_pos_found(v@, b, i as int);
            }
            return i;
        }
        i = i + 1;
    }
    proof {
        lemma_count_zero_iff_absent(v@, b);
        assert(false);
    }
    0
}

/// Copies the bytes of `v` in the index range `start..end` into a fresh vector.
pub fn subvec(v: &Vec<u8>, start: usize, end: usize) -> (r: Vec<u8>)
    requires
        start <= end <= v@.len(),
    ensures
        r@ == v@.subrange(start as int, end as int),
{
    let mut r: Vec<u8> = Vec::new();
    let mut i: usize = start;
    while i < end
        invariant
            start <= i <= end <= v@.len(),
            r@ =~= v@.subrange(start as int, i as int),
        decreases end - i,
    {
        r.push(v[i]);
        proof {
            assert(v@.subrange(start as int, i as int + 1) =~= v@.subrange(
                start as int,
                i as int,
            ).push(v@[i as int]));
        }
        i = i + 1;
    }
    proof {
        assert(r@ =~= v@.subrange(start as int, end as int));
    }
    r
}

/// Lower-cases every byte of `v` in the ASCII sense.
pub fn to_lower(v: &Vec<u8>) -> (r: Vec<u8>)
    ensures
        r@ == lower(v@),
{
    let mut r: Vec<u8> = Vec::new();
    let mut i: usize = 0;
    while i < v.len()
        invariant
            i <= v@.len(),
            r@ =~= lower(v@.take(i as int)),
        decreases v@.len() - i,
    {
        let b = v[i];
        if 65 <= b && b <= 90 {
            r.push(b + 32);
        } else {
            r.push(b);
        }
        proof {
            assert(lower(v@.take(i as int + 1)) =~= lower(v@.take(i as int)).push(
                lower_byte(v@[i as int]),
            ));
        }
        i = i + 1;
    }
    proof {
        assert(v@.take(v@.len() as int) =~= v@);
        assert(r@ =~= lower(v@));
    }
    r
}

/// Compares two byte vectors for equality of their contents.
pub fn bytes_eq(a: &Vec<u8>, b: &Vec<u8>) -> (r: bool)
    ensures
        r <==> a@ == b@,
{
    if a.len() != b.len() {
        return false;
    }
    let mut i: usize = 0;
    while i < a.len()
        invariant
            i <= a@.len(),
            a@.len() == b@.len(),
            forall|j: int| 0 <= j < i ==> a@[j] == b@[j],
        decreases a@.len() - i,
    {
        if a[i] != b[i] {
            return false;
        }
        i = i + 1;
    }
    proof {
        assert(a@ =~= b@);
    }
    true
}

} // verus!
