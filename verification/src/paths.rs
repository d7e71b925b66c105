//! Lexicographic order and structure of absolute slash-separated paths.
//!
//! Paths are plain strings such as `/root/a.txt`. The filesystem model keeps
//! its entries strictly sorted by this order, and directory listings inherit
//! their name order from it.

use vstd::prelude::*;

verus! {

/// Strict lexicographic order on character sequences, by code point.
pub open spec fn lex_lt(a: Seq<char>, b: Seq<char>) -> bool
    decreases a.len(),
{
    if b.len() == 0 {
        false
    } else if a.len() == 0 {
        true
    } else if a[0] != b[0] {
        (a[0] as int) < (b[0] as int)
    } else {
        lex_lt(a.skip(1), b.skip(1))
    }
}

/// `pre` is a prefix of `p`.
pub open spec fn has_prefix(p: Seq<char>, pre: Seq<char>) -> bool {
    p.len() >= pre.len() && p.subrange(0, pre.len() as int) == pre
}

/// Exactly one of `lex_lt(a, b)`, `lex_lt(b, a)`, `a == b` holds.
pub proof fn lemma_lex_trichotomy(a: Seq<char>, b: Seq<char>)
    ensures
        lex_lt(a, b) || lex_lt(b, a) || a == b,
        lex_lt(a, b) ==> !lex_lt(b, a) && a != b,
    decreases a.len(),
{
    if a.len() == 0 || b.len() == 0 {
        if a.len() == 0 && b.len() == 0 {
            assert(a =~= b);
        }
    } else if a[0] == b[0] {
        lemma_lex_trichotomy(a.skip(1), b.skip(1));
        if a.skip(1) == b.skip(1) {
            assert forall|i: int| 0 <= i < a.len() implies a[i] == b[i] by {
                if i > 0 {
                    assert(a.skip(1)[i - 1] == a[i]);
                    assert(b.skip(1)[i - 1] == b[i]);
                }
            }
            assert(a =~= b);
        }
    }
}

/// Lexicographic order is transitive.
pub proof fn lemma_lex_trans(a: Seq<char>, b: Seq<char>, c: Seq<char>)
    requires
        lex_lt(a, b),
        lex_lt(b, c),
    ensures
        lex_lt(a, c),
    decreases a.len(),
{
    if c.len() == 0 {
    } else if a.len() == 0 {
    } else if b.len() == 0 {
    } else {
        if a[0] == b[0] && b[0] == c[0] {
            lemma_lex_trans(a.skip(1), b.skip(1), c.skip(1));
        }
    }
}

/// Appending a common prefix does not change the order.
pub proof fn lemma_lex_common_prefix(p: Seq<char>, a: Seq<char>, b: Seq<char>)
    ensures
        lex_lt(p + a, p + b) == lex_lt(a, b),
    decreases p.len(),
{
    if p.len() == 0 {
        assert(p + a =~= a);
        assert(p + b =~= b);
    } else {
        assert((p + a).len() > 0);
        assert((p + b).len() > 0);
        assert((p + a)[0] == p[0]);
        assert((p + b)[0] == p[0]);
        assert((p + a).skip(1) =~= p.skip(1) + a);
        assert((p + b).skip(1) =~= p.skip(1) + b);
        lemma_lex_common_prefix(p.skip(1), a, b);
    }
}

/// A file or directory name: non-empty and free of separators.
pub open spec fn valid_name(n: Seq<char>) -> bool {
    n.len() > 0 && forall|i: int| 0 <= i < n.len() ==> n[i] != '/'
}

/// The prefix every child path of `dir` starts with.
pub open spec fn child_prefix(dir: Seq<char>) -> Seq<char> {
    if dir == seq!['/'] {
        dir
    } else {
        dir.push('/')
    }
}

/// The path of the entry called `name` inside directory `dir`.
pub open spec fn spec_join(dir: Seq<char>, name: Seq<char>) -> Seq<char> {
    child_prefix(dir) + name
}

/// `p` names an immediate child of directory `dir`.
pub open spec fn is_child(p: Seq<char>, dir: Seq<char>) -> bool {
    &&& p.len() > child_prefix(dir).len()
    &&& has_prefix(p, child_prefix(dir))
    &&& forall|i: int| child_prefix(dir).len() <= i < p.len() ==> p[i] != '/'
}

/// `p` lies in the subtree rooted at `root` (including `root` itself).
pub open spec fn in_subtree(p: Seq<char>, root: Seq<char>) -> bool {
    p == root || has_prefix(p, child_prefix(root))
}

/// Index of the last separator in `p`, or -1 when there is none.
pub open spec fn last_slash(p: Seq<char>) -> int
    decreases p.len(),
{
    if p.len() == 0 {
        -1
    } else if p[p.len() - 1] == '/' {
        p.len() - 1
    } else {
        last_slash(p.subrange(0, p.len() - 1))
    }
}

/// The directory that holds `p`; the root is its own parent.
pub open spec fn parent_of(p: Seq<char>) -> Seq<char> {
    if last_slash(p) <= 0 {
        seq!['/']
    } else {
        p.subrange(0, last_slash(p))
    }
}

/// The final component of `p`.
pub open spec fn base_name(p: Seq<char>) -> Seq<char> {
    p.subrange(last_slash(p) + 1, p.len() as int)
}

/// An absolute path: starts at the root, no trailing or doubled separator.
pub open spec fn valid_abs_path(p: Seq<char>) -> bool {
    &&& p.len() >= 1
    &&& p[0] == '/'
    &&& (p.len() == 1 || p[p.len() - 1] != '/')
    &&& forall|i: int| 0 <= i < p.len() - 1 ==> !(#[trigger] p[i] == '/' && p[i + 1] == '/')
}

/// Joining a well-formed name under a directory yields a child of it.
pub proof fn lemma_join_is_child(dir: Seq<char>, name: Seq<char>)
    requires
        valid_name(name),
    ensures
        is_child(spec_join(dir, name), dir),
        base_name(spec_join(dir, name)) == name,
{
    let cp = child_prefix(dir);
    let p = cp + name;
    assert(p.subrange(0, cp.len() as int) =~= cp);
    assert(forall|i: int| cp.len() <= i < p.len() ==> p[i] == name[i - cp.len()]);
    assert(cp.len() >= 1 && cp[cp.len() - 1] == '/');
    lemma_last_slash_at(p, cp.len() - 1);
    assert(base_name(p) =~= name);
}

/// If the last separator of `p` stands at `i`, `last_slash` finds it.
pub proof fn lemma_last_slash_at(p: Seq<char>, i: int)
    requires
        0 <= i < p.len(),
        p[i] == '/',
        forall|k: int| i < k < p.len() ==> p[k] != '/',
    ensures
        last_slash(p) == i,
    decreases p.len(),
{
    if p.len() - 1 == i {
    } else {
        let q = p.subrange(0, p.len() - 1);
        lemma_last_slash_at(q, i);
    }
}

/// `last_slash` points at a separator and nothing later is one.
pub proof fn lemma_last_slash_props(p: Seq<char>)
    ensures
        -1 <= last_slash(p) < p.len(),
        last_slash(p) >= 0 ==> p[last_slash(p)] == '/',
        forall|k: int| last_slash(p) < k < p.len() ==> p[k] != '/',
        last_slash(p) == -1 ==> forall|k: int| 0 <= k < p.len() ==> p[k] != '/',
    decreases p.len(),
{
    if p.len() == 0 {
    } else if p[p.len() - 1] == '/' {
    } else {
        let q = p.subrange(0, p.len() - 1);
        lemma_last_slash_props(q);
        assert(forall|k: int| 0 <= k < q.len() ==> q[k] == p[k]);
    }
}

/// Children of one directory are ordered by their names.
pub proof fn lemma_child_order(dir: Seq<char>, p1: Seq<char>, p2: Seq<char>)
    requires
        is_child(p1, dir),
        is_child(p2, dir),
    ensures
        lex_lt(p1, p2) == lex_lt(base_name(p1), base_name(p2)),
    decreases dir.len(),
{
    let cp = child_prefix(dir);
    lemma_child_base_name(dir, p1);
    lemma_child_base_name(dir, p2);
    assert(p1 =~= cp + base_name(p1));
    assert(p2 =~= cp + base_name(p2));
    lemma_lex_common_prefix(cp, base_name(p1), base_name(p2));
}

/// A child's name is what follows the directory prefix.
pub proof fn lemma_child_base_name(dir: Seq<char>, p: Seq<char>)
    requires
        is_child(p, dir),
    ensures
        base_name(p) == p.subrange(child_prefix(dir).len() as int, p.len() as int),
        valid_name(base_name(p)),
        p == spec_join(dir, base_name(p)),
{
    let cp = child_prefix(dir);
    assert(cp.len() >= 1 && cp[cp.len() - 1] == '/') by {
        if dir == seq!['/'] {
        }
    }
    assert(p[cp.len() - 1] == '/');
    lemma_last_slash_at(p, cp.len() - 1);
    assert(p =~= cp + p.subrange(cp.len() as int, p.len() as int));
}

/// Equal prefixes can be stripped before comparing.
pub proof fn lemma_lex_skip(a: Seq<char>, b: Seq<char>, i: int)
    requires
        0 <= i <= a.len(),
        i <= b.len(),
        forall|k: int| 0 <= k < i ==> a[k] == b[k],
    ensures
        lex_lt(a, b) == lex_lt(a.skip(i), b.skip(i)),
    decreases i,
{
    if i > 0 {
        assert(a.len() > 0 && b.len() > 0 && a[0] == b[0]);
        assert(forall|k: int| 0 <= k < i - 1 ==> a.skip(1)[k] == b.skip(1)[k]);
        lemma_lex_skip(a.skip(1), b.skip(1), i - 1);
        assert(a.skip(1).skip(i - 1) =~= a.skip(i));
        assert(b.skip(1).skip(i - 1) =~= b.skip(i));
    } else {
        assert(a.skip(0) =~= a);
        assert(b.skip(0) =~= b);
    }
}

/// A sequence without separators has no last separator.
pub proof fn lemma_no_slash(p: Seq<char>)
    requires
        forall|k: int| 0 <= k < p.len() ==> p[k] != '/',
    ensures
        last_slash(p) == -1,
    decreases p.len(),
{
    if p.len() > 0 {
        let q = p.subrange(0, p.len() - 1);
        assert(forall|k: int| 0 <= k < q.len() ==> q[k] == p[k]);
        lemma_no_slash(q);
    }
}

/// Compares two strings in the order of `lex_lt`.
pub fn str_lt(a: &str, b: &str) -> (r: bool)
    ensures
        r == lex_lt(a@, b@),
{
    let alen = a.unicode_len();
    let blen = b.unicode_len();
    let mut i: usize = 0;
    while i < alen && i < blen
        invariant
            i <= alen,
            i <= blen,
            alen == a@.len(),
            blen == b@.len(),
            forall|k: int| 0 <= k < i ==> a@[k] == b@[k],
        decreases alen - i,
    {
        let ca = a.get_char(i);
        let cb = b.get_char(i);
        if ca != cb {
            proof {
                lemma_lex_skip(a@, b@, i as int);
                assert(a@.skip(i as int)[0] == ca);
                assert(b@.skip(i as int)[0] == cb);
            }
            return (ca as u32) < (cb as u32);
        }
        i = i + 1;
    }
    proof {
        lemma_lex_skip(a@, b@, i as int);
    }
    alen < blen
}

/// Whether `pre` is a prefix of `p`, as in `has_prefix`.
pub fn str_has_prefix(p: &str, pre: &str) -> (r: bool)
    ensures
        r == has_prefix(p@, pre@),
{
    let plen = p.unicode_len();
    let prelen = pre.unicode_len();
    if prelen > plen {
        return false;
    }
    let mut i: usize = 0;
    while i < prelen
        invariant
            i <= prelen <= plen,
            plen == p@.len(),
            prelen == pre@.len(),
            forall|k: int| 0 <= k < i ==> p@[k] == pre@[k],
        decreases prelen - i,
    {
        if p.get_char(i) != pre.get_char(i) {
            proof {
                assert(p@.subrange(0, prelen as int)[i as int] != pre@[i as int]);
            }
            return false;
        }
        i = i + 1;
    }
    proof {
        assert(p@.subrange(0, prelen as int) =~= pre@);
    }
    true
}

/// Whether two string slices hold the same characters.
pub fn str_eq(a: &str, b: &str) -> (r: bool)
    ensures
        r == (a@ == b@),
{
    let alen = a.unicode_len();
    let blen = b.unicode_len();
    if alen != blen {
        return false;
    }
    let mut i: usize = 0;
    while i < alen
        invariant
            i <= alen,
            alen == a@.len(),
            alen == b@.len(),
            forall|k: int| 0 <= k < i ==> a@[k] == b@[k],
        decreases alen - i,
    {
        if a.get_char(i) != b.get_char(i) {
            return false;
        }
        i = i + 1;
    }
    proof {
        assert(a@ =~= b@);
    }
    true
}

/// Whether `dir` is the root path.
pub fn str_is_root(dir: &str) -> (r: bool)
    ensures
        r == (dir@ == seq!['/']),
{
    if dir.unicode_len() == 1 && dir.get_char(0) == '/' {
        proof {
            assert(dir@ =~= seq!['/']);
        }
        true
    } else {
        proof {
            if dir@ == seq!['/'] {
                assert(dir@.len() == 1);
            }
        }
        false
    }
}

/// Joins a name under a directory, as in `spec_join`.
pub fn join_path(dir: &str, name: &str) -> (r: String)
    ensures
        r@ == spec_join(dir@, name@),
{
    let mut s = dir.to_owned();
    if !str_is_root(dir) {
        s.append("/");
        proof {
            reveal_strlit("/");
            assert(s@ =~= child_prefix(dir@));
        }
    }
    s.append(name);
    s
}

/// One past the last separator of `p` (0 when there is none).
fn find_cut(p: &str) -> (cut: usize)
    ensures
        cut as int == last_slash(p@) + 1,
        cut <= p@.len(),
{
    let len = p.unicode_len();
    let mut i: usize = len;
    while i > 0
        invariant
            i <= len,
            len == p@.len(),
            forall|k: int| i <= k < len ==> p@[k] != '/',
        decreases i,
    {
        if p.get_char(i - 1) == '/' {
            proof {
                lemma_last_slash_at(p@, i - 1);
            }
            return i;
        }
        i = i - 1;
    }
    proof {
        lemma_no_slash(p@);
    }
    0
}

/// The final component of a path, as in `base_name`.
pub fn base_name_of(p: &str) -> (r: String)
    ensures
        r@ == base_name(p@),
{
    let len = p.unicode_len();
    let cut = find_cut(p);
    let s = p.substring_char(cut, len);
    s.to_owned()
}

/// The directory holding a path, as in `parent_of`.
pub fn parent_dir_of(p: &str) -> (r: String)
    ensures
        r@ == parent_of(p@),
{
    let cut = find_cut(p);
    if cut <= 1 {
        let s = "/".to_owned();
        proof {
            reveal_strlit("/");
            assert(s@ =~= seq!['/']);
        }
        s
    } else {
        let s = p.substring_char(0, cut - 1);
        s.to_owned()
    }
}

/// Whether `p` names an immediate child of `dir`, as in `is_child`.
pub fn str_is_child(p: &str, dir: &str) -> (r: bool)
    ensures
        r == is_child(p@, dir@),
{
    let plen = p.unicode_len();
    let dlen = dir.unicode_len();
    let cpl: usize = if str_is_root(dir) {
        1
    } else {
        if dlen >= usize::MAX {
            proof {
                assert(p@.len() <= usize::MAX);
            }
            return false;
        }
        dlen + 1
    };
    proof {
        assert(cpl as int == child_prefix(dir@).len());
    }
    if plen <= cpl {
        return false;
    }
    if !str_has_prefix(p, dir) {
        proof {
            assert(has_prefix(p@, child_prefix(dir@)) ==> has_prefix(p@, dir@)) by {
                if has_prefix(p@, child_prefix(dir@)) {
                    assert(forall|k: int|
                        0 <= k < dir@.len() ==> p@.subrange(0, child_prefix(dir@).len() as int)[k]
                            == dir@[k]);
                    assert(p@.subrange(0, dir@.len() as int) =~= dir@);
                }
            }
        }
        return false;
    }
    if cpl > dlen && p.get_char(dlen) != '/' {
        proof {
            assert(has_prefix(p@, child_prefix(dir@)) ==> p@[dlen as int] == '/') by {
                if has_prefix(p@, child_prefix(dir@)) {
                    assert(p@.subrange(0, cpl as int)[dlen as int] == child_prefix(
                        dir@,
                    )[dlen as int]);
                }
            }
        }
        return false;
    }
    let mut i: usize = cpl;
    while i < plen
        invariant
            cpl <= i <= plen,
            plen == p@.len(),
            cpl as int == child_prefix(dir@).len(),
            forall|k: int| cpl <= k < i ==> p@[k] != '/',
        decreases plen - i,
    {
        if p.get_char(i) == '/' {
            return false;
        }
        i = i + 1;
    }
    proof {
        assert(has_prefix(p@, child_prefix(dir@))) by {
            assert(p@.subrange(0, cpl as int) =~= child_prefix(dir@)) by {
                assert(forall|k: int| 0 <= k < dlen ==> p@.subrange(0, dlen as int)[k] == dir@[k]);
            }
        }
    }
    true
}

/// Whether `p` is an absolute path, as in `valid_abs_path`.
pub fn str_is_valid_abs_path(p: &str) -> (r: bool)
    ensures
        r == valid_abs_path(p@),
{
    let len = p.unicode_len();
    if len == 0 {
        return false;
    }
    if p.get_char(0) != '/' {
        return false;
    }
    if len > 1 && p.get_char(len - 1) == '/' {
        return false;
    }
    let mut i: usize = 0;
    while i + 1 < len
        invariant
            i < len,
            len == p@.len(),
            forall|k: int| 0 <= k < i ==> !(#[trigger] p@[k] == '/' && p@[k + 1] == '/'),
        decreases len - i,
    {
        if p.get_char(i) == '/' && p.get_char(i + 1) == '/' {
            return false;
        }
        i = i + 1;
    }
    true
}

/// A leading tilde replaced by the home directory: the tilde alone becomes
/// the home directory itself, `~/rest` goes under it, anything else stays.
pub open spec fn spec_expand_tilde(p: Seq<char>, home: Option<Seq<char>>) -> Option<Seq<char>> {
    if p.len() == 0 || p[0] != '~' {
        Some(p)
    } else if p.len() == 1 {
        home
    } else if p[1] == '/' {
        match home {
            None => None,
            Some(h) => if h == seq!['/'] {
                Some(p.skip(1))
            } else {
                Some(h + p.skip(1))
            },
        }
    } else {
        Some(p)
    }
}

/// Expands a leading tilde against the home directory, as in
/// `spec_expand_tilde`.
pub fn expand_if_contains_tilde(input: &str, home: Option<&String>) -> (r: Option<String>)
    ensures
        match r {
            Some(s) => spec_expand_tilde(
                input@,
                match home {
                    Some(h) => Some(h@),
                    None => None,
                },
            ) == Some(s@),
            None => spec_expand_tilde(
                input@,
                match home {
                    Some(h) => Some(h@),
                    None => None,
                },
            ) is None,
        },
{
    let len = input.unicode_len();
    if len == 0 || input.get_char(0) != '~' {
        return Some(input.to_owned());
    }
    if len == 1 {
        return match home {
            Some(h) => Some(h.clone()),
            None => None,
        };
    }
    if input.get_char(1) == '/' {
        match home {
            None => None,
            Some(h) => {
                let rest = input.substring_char(1, len);
                if str_is_root(h.as_str()) {
                    Some(rest.to_owned())
                } else {
                    let mut s = h.clone();
                    s.append(rest);
                    Some(s)
                }
            },
        }
    } else {
        Some(input.to_owned())
    }
}

/// Whether `p` lies in the subtree rooted at `root`, as in `in_subtree`.
pub fn str_in_subtree(p: &str, root: &str) -> (r: bool)
    ensures
        r == in_subtree(p@, root@),
{
    if str_eq(p, root) {
        return true;
    }
    let plen = p.unicode_len();
    let rlen = root.unicode_len();
    if str_is_root(root) {
        let r = str_has_prefix(p, root);
        proof {
            assert(child_prefix(root@) == root@);
        }
        return r;
    }
    if !str_has_prefix(p, root) {
        proof {
            assert(has_prefix(p@, child_prefix(root@)) ==> has_prefix(p@, root@)) by {
                if has_prefix(p@, child_prefix(root@)) {
                    assert(forall|k: int|
                        0 <= k < root@.len() ==> p@.subrange(0, child_prefix(root@).len() as int)[k]
                            == root@[k]);
                    assert(p@.subrange(0, root@.len() as int) =~= root@);
                }
            }
        }
        return false;
    }
    if plen <= rlen {
        proof {
            assert(p@.len() >= root@.len() && p@.subrange(0, root@.len() as int) == root@);
            assert(p@ =~= root@);
        }
        return false;
    }
    let r = p.get_char(rlen) == '/';
    proof {
        if r {
            assert(p@.subrange(0, rlen + 1 as int) =~= child_prefix(root@)) by {
                assert(forall|k: int| 0 <= k < rlen ==> p@.subrange(0, rlen as int)[k] == root@[k]);
            }
        } else {
            if has_prefix(p@, child_prefix(root@)) {
                assert(p@.subrange(0, rlen + 1 as int)[rlen as int] == child_prefix(
                    root@,
                )[rlen as int]);
            }
        }
    }
    r
}

} // verus!
