//! Searching and trimming of byte strings.

use vstd::prelude::*;

verus! {

/// The byte `/`, which separates the segments of a path.
pub const SLASH: u8 = 0x2f;

/// `needle` stands in `hay` at offset `at`.
pub open spec fn occurs_at(hay: Seq<u8>, needle: Seq<u8>, at: int) -> bool {
    &&& 0 <= at
    &&& at + needle.len() <= hay.len()
    &&& hay.subrange(at, at + needle.len()) == needle
}

/// The least offset at or after `from` at which `needle` stands in `hay`.
pub open spec fn find_from(hay: Seq<u8>, needle: Seq<u8>, from: int) -> Option<int>
    decreases hay.len() + 1 - from,
{
    if from < 0 || from + needle.len() > hay.len() {
        None
    } else if occurs_at(hay, needle, from) {
        Some(from)
    } else {
        find_from(hay, needle, from + 1)
    }
}

/// The offset of the first occurrence of `needle` in `hay`, `None` where
/// `needle` stands nowhere in `hay`.
pub open spec fn first_occurrence(hay: Seq<u8>, needle: Seq<u8>) -> Option<int> {
    find_from(hay, needle, 0)
}

/// `s` without its leading run of the byte `b`.
pub open spec fn trim_leading(s: Seq<u8>, b: u8) -> Seq<u8>
    decreases s.len(),
{
    if s.len() > 0 && s[0] == b {
        trim_leading(s.drop_first(), b)
    } else {
        s
    }
}

/// The search finds the least offset: `find_from` gives an offset at or after
/// `from` at which `needle` stands and before which, from `from` on, it does
/// not, and `None` only where `needle` stands nowhere from `from` on.
pub proof fn lemma_find_from(hay: Seq<u8>, needle: Seq<u8>, from: int)
    requires
        0 <= from,
    ensures
        match find_from(hay, needle, from) {
            Some(at) => from <= at && occurs_at(hay, needle, at) && forall|j: int|
                from <= j < at ==> !occurs_at(hay, needle, j),
            None => forall|j: int| from <= j ==> !occurs_at(hay, needle, j),
        },
    decreases hay.len() + 1 - from,
{
    if from + needle.len() > hay.len() {
    } else if occurs_at(hay, needle, from) {
    } else {
        lemma_find_from(hay, needle, from + 1);
    }
}

/// What trimming leaves: `trim_leading` drops a prefix that holds nothing but
/// `b`, and what it leaves does not begin with `b`.
pub proof fn lemma_trim_leading(s: Seq<u8>, b: u8)
    ensures
        trim_leading(s, b).len() <= s.len(),
        trim_leading(s, b) == s.subrange(s.len() - trim_leading(s, b).len(), s.len() as int),
        forall|i: int| 0 <= i < s.len() - trim_leading(s, b).len() ==> s[i] == b,
        trim_leading(s, b).len() > 0 ==> trim_leading(s, b)[0] != b,
    decreases s.len(),
{
    if s.len() > 0 && s[0] == b {
        let rest = s.drop_first();
        lemma_trim_leading(rest, b);
        let kept = trim_leading(rest, b);
        assert(kept == s.subrange(s.len() - kept.len(), s.len() as int));
        assert forall|i: int| 0 <= i < s.len() - kept.len() implies s[i] == b by {
            if i > 0 {
                assert(s[i] == rest[i - 1]);
            }
        }
    }
}

/// Whether `needle` stands in `hay` at offset `at`.
pub fn matches_at(hay: &[u8], needle: &[u8], at: usize) -> (r: bool)
    ensures
        r == occurs_at(hay@, needle@, at as int),
{
    if needle.len() > hay.len() || at > hay.len() - needle.len() {
        return false;
    }
    let mut k: usize = 0;
    while k < needle.len()
        invariant
            k <= needle.len(),
            at + needle.len() <= hay.len(),
            forall|j: int| 0 <= j < k ==> hay@[at + j] == needle@[j],
        decreases needle.len() - k,
    {
        if hay[at + k] != needle[k] {
            return false;
        }
        k += 1;
    }
    assert(hay@.subrange(at as int, at + needle.len()) =~= needle@);
    true
}

/// The offset of the first occurrence of `needle` in `hay`: the least offset
/// at which `needle` stands in `hay`, or `None` where it stands nowhere.
pub fn find(hay: &[u8], needle: &[u8]) -> (r: Option<usize>)
    ensures
        match r {
            Some(at) => first_occurrence(hay@, needle@) == Some(at as int),
            None => first_occurrence(hay@, needle@) is None,
        },
        match r {
            Some(at) => occurs_at(hay@, needle@, at as int) && forall|j: int|
                0 <= j < at ==> !occurs_at(hay@, needle@, j),
            None => forall|j: int| !occurs_at(hay@, needle@, j),
        },
{
    proof {
        lemma_find_from(hay@, needle@, 0);
    }
    if needle.len() > hay.len() {
        return None;
    }
    let last: usize = hay.len() - needle.len();
    let mut at: usize = 0;
    loop
        invariant
            at <= last,
            last + needle.len() == hay.len(),
            find_from(hay@, needle@, 0) == find_from(hay@, needle@, at as int),
        decreases last - at,
    {
        if matches_at(hay, needle, at) {
            proof {
                lemma_find_from(hay@, needle@, 0);
            }
            return Some(at);
        }
        if at == last {
            assert(find_from(hay@, needle@, at + 1) is None);
            proof {
                lemma_find_from(hay@, needle@, 0);
            }
            return None;
        }
        at += 1;
    }
}

/// The offset of the first byte at or after `from` that is not `b`.
pub fn skip_leading(s: &[u8], from: usize, b: u8) -> (r: usize)
    requires
        from <= s.len(),
    ensures
        from <= r <= s.len(),
        s@.subrange(r as int, s.len() as int) == trim_leading(
            s@.subrange(from as int, s.len() as int),
            b,
        ),
{
    let mut at: usize = from;
    while at < s.len() && s[at] == b
        invariant
            from <= at <= s.len(),
            trim_leading(s@.subrange(at as int, s.len() as int), b) == trim_leading(
                s@.subrange(from as int, s.len() as int),
                b,
            ),
        decreases s.len() - at,
    {
        assert(s@.subrange(at as int, s.len() as int).drop_first() =~= s@.subrange(
            at + 1,
            s.len() as int,
        ));
        at += 1;
    }
    at
}

/// Whether `a` and `b` hold the same bytes.
pub fn equal(a: &[u8], b: &[u8]) -> (r: bool)
    ensures
        r == (a@ == b@),
{
    if a.len() != b.len() {
        return false;
    }
    assert(a@.subrange(0, a.len() as int) =~= a@);
    matches_at(a, b, 0)
}

} // verus!
