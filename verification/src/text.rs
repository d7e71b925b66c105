//! Case-insensitive name matching for the search filter, and extraction of
//! the extension part of a file name.

use vstd::prelude::*;

verus! {

/// The case folding of a character sequence: what `str::to_lowercase`
/// returns for a string holding those characters. The mapping is not
/// written out here; it is a fixed function of the characters alone.
pub uninterp spec fn lower_of(s: Seq<char>) -> Seq<char>;

/// Relies on `str::to_lowercase`: the result depends on the characters
/// alone, and an empty string stays empty.
#[verifier::external_body]
fn lowercase(s: &str) -> (r: String)
    ensures
        r@ == lower_of(s@),
        s@.len() == 0 ==> r@.len() == 0,
{
    s.to_lowercase()
}

/// `needle` occurs in `hay` as a contiguous run of characters.
pub open spec fn contains_seq(hay: Seq<char>, needle: Seq<char>) -> bool {
    exists|i: int|
        0 <= i && i + needle.len() <= hay.len() && #[trigger] hay.subrange(
            i,
            i + needle.len() as int,
        ) == needle
}

/// The folded name contains the folded phrase: the search filter.
pub open spec fn name_matches(name: Seq<char>, phrase: Seq<char>) -> bool {
    contains_seq(lower_of(name), lower_of(phrase))
}

/// Whether `needle` stands at position `i` of `hay`.
fn occurs_at(hay: &str, needle: &str, i: usize) -> (r: bool)
    requires
        i + needle@.len() <= hay@.len(),
    ensures
        r == (hay@.subrange(i as int, i + needle@.len()) == needle@),
{
    let hlen = hay.unicode_len();
    let nlen = needle.unicode_len();
    let ghost sub = hay@.subrange(i as int, i + needle@.len());
    let mut k: usize = 0;
    while k < nlen
        invariant
            hlen == hay@.len(),
            i + nlen <= hlen,
            nlen == needle@.len(),
            sub == hay@.subrange(i as int, i + needle@.len()),
            k <= nlen,
            forall|m: int| 0 <= m < k ==> hay@[i + m] == needle@[m],
        decreases nlen - k,
    {
        if hay.get_char(i + k) != needle.get_char(k) {
            proof {
                assert(sub[k as int] != needle@[k as int]);
            }
            return false;
        }
        k = k + 1;
    }
    proof {
        assert(sub =~= needle@);
    }
    true
}

/// Whether `needle` occurs in `hay`, as in `contains_seq`.
fn str_contains(hay: &str, needle: &str) -> (r: bool)
    ensures
        r == contains_seq(hay@, needle@),
{
    let hlen = hay.unicode_len();
    let nlen = needle.unicode_len();
    if nlen > hlen {
        proof {
            assert(!contains_seq(hay@, needle@));
        }
        return false;
    }
    if nlen == 0 {
        proof {
            assert(hay@.subrange(0, 0 + needle@.len() as int) =~= needle@);
        }
        return true;
    }
    let mut i: usize = 0;
    while i <= hlen - nlen
        invariant
            1 <= nlen <= hlen,
            hlen == hay@.len(),
            nlen == needle@.len(),
            i <= hlen - nlen + 1,
            forall|j: int|
                0 <= j < i ==> #[trigger] hay@.subrange(j, j + needle@.len()) != needle@,
        decreases hlen + 1 - nlen - i,
    {
        if occurs_at(hay, needle, i) {
            return true;
        }
        i = i + 1;
    }
    proof {
        assert forall|j: int|
            !(0 <= j && j + needle@.len() <= hay@.len() && #[trigger] hay@.subrange(
                j,
                j + needle@.len(),
            ) == needle@) by {
            if 0 <= j && j + needle@.len() <= hay@.len() {
                assert(j <= hlen - nlen);
            }
        }
    }
    false
}

/// Whether the folded `name` contains the folded `phrase`, as in
/// `name_matches`.
pub fn ci_contains(name: &str, phrase: &str) -> (r: bool)
    ensures
        r == name_matches(name@, phrase@),
{
    let folded_name = lowercase(name);
    let folded_phrase = lowercase(phrase);
    str_contains(folded_name.as_str(), folded_phrase.as_str())
}

/// Index of the last dot in `n`, or -1 when there is none.
pub open spec fn last_dot(n: Seq<char>) -> int
    decreases n.len(),
{
    if n.len() == 0 {
        -1
    } else if n[n.len() - 1] == '.' {
        n.len() - 1
    } else {
        last_dot(n.subrange(0, n.len() - 1))
    }
}

/// The icon table key for a file name: what follows the last dot, or the
/// whole name when it holds no dot.
pub open spec fn icon_key(n: Seq<char>) -> Seq<char> {
    if last_dot(n) == -1 {
        n
    } else {
        n.skip(last_dot(n) + 1)
    }
}

/// The extension of a file name: what follows the last dot, unless the dot
/// is missing or leading.
pub open spec fn extension_key(n: Seq<char>) -> Seq<char> {
    if last_dot(n) <= 0 {
        Seq::empty()
    } else {
        n.skip(last_dot(n) + 1)
    }
}

proof fn lemma_last_dot_at(n: Seq<char>, i: int)
    requires
        0 <= i < n.len(),
        n[i] == '.',
        forall|k: int| i < k < n.len() ==> n[k] != '.',
    ensures
        last_dot(n) == i,
    decreases n.len(),
{
    if n.len() - 1 != i {
        let q = n.subrange(0, n.len() - 1);
        lemma_last_dot_at(q, i);
    }
}

proof fn lemma_no_dot(n: Seq<char>)
    requires
        forall|k: int| 0 <= k < n.len() ==> n[k] != '.',
    ensures
        last_dot(n) == -1,
    decreases n.len(),
{
    if n.len() > 0 {
        let q = n.subrange(0, n.len() - 1);
        assert(forall|k: int| 0 <= k < q.len() ==> q[k] == n[k]);
        lemma_no_dot(q);
    }
}

/// One past the last dot of `n` (0 when there is none).
fn find_dot_cut(n: &str) -> (cut: usize)
    ensures
        cut as int == last_dot(n@) + 1,
        cut <= n@.len(),
{
    let len = n.unicode_len();
    let mut i: usize = len;
    while i > 0
        invariant
            i <= len,
            len == n@.len(),
            forall|k: int| i <= k < len ==> n@[k] != '.',
        decreases i,
    {
        if n.get_char(i - 1) == '.' {
            proof {
                lemma_last_dot_at(n@, i - 1);
            }
            return i;
        }
        i = i - 1;
    }
    proof {
        lemma_no_dot(n@);
    }
    0
}

/// The icon table key of a file name, as in `icon_key`.
pub fn icon_key_of(n: &str) -> (r: String)
    ensures
        r@ == icon_key(n@),
{
    let len = n.unicode_len();
    let cut = find_dot_cut(n);
    if cut == 0 {
        n.to_owned()
    } else {
        let s = n.substring_char(cut, len);
        s.to_owned()
    }
}

/// The extension of a file name, as in `extension_key`.
pub fn extension_key_of(n: &str) -> (r: String)
    ensures
        r@ == extension_key(n@),
{
    let len = n.unicode_len();
    let cut = find_dot_cut(n);
    if cut <= 1 {
        let s = String::new();
        proof {
            assert(s@ =~= extension_key(n@));
        }
        s
    } else {
        let s = n.substring_char(cut, len);
        s.to_owned()
    }
}

} // verus!
