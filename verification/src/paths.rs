//! Path-string manipulation: trimming the leading separator, joining a
//! relative path onto a root, and the component-wise prefix test used for
//! confinement verification on canonical paths.

use vstd::prelude::*;

verus! {

/// `s` with a single leading `/` removed, if present.
pub open spec fn trim_slash_spec(s: Seq<char>) -> Seq<char> {
    if s.len() > 0 && s[0] == '/' {
        s.subrange(1, s.len() as int)
    } else {
        s
    }
}

/// `rel` joined onto `root` with a `/` separator; an empty `rel` leaves
/// `root` unchanged.
pub open spec fn join_spec(root: Seq<char>, rel: Seq<char>) -> Seq<char> {
    if rel.len() == 0 {
        root
    } else {
        root + "/"@ + rel
    }
}

/// Component-wise prefix: `p` lies at or under `base`, where `base` and `p`
/// are `/`-separated paths.  True when `p` equals `base`, when `p` extends
/// `base` at a `/` boundary, or when `base` itself ends in `/` (the
/// filesystem root) and `p` extends it.  A sibling whose name merely starts
/// with `base`'s last component (`/b/sitex` under `/b/site`) is not a match.
pub open spec fn component_prefix(base: Seq<char>, p: Seq<char>) -> bool {
    ||| base == p
    ||| (p.len() > base.len() && p.subrange(0, base.len() as int) == base && p[base.len() as int]
        == '/')
    ||| (base.len() > 0 && base[base.len() - 1] == '/' && p.len() >= base.len() && p.subrange(
        0,
        base.len() as int,
    ) == base)
}

/// Joining never leaves the root at the string level: the candidate path
/// built for a relative path always lies component-wise at or under the
/// root it was joined onto.  An escape can therefore only happen through
/// `..` segments or symlinks that the filesystem resolves, which is what
/// the canonicalization-based confinement test re-checks.
pub proof fn lemma_join_confined(root: Seq<char>, rel: Seq<char>)
    ensures
        component_prefix(root, join_spec(root, rel)),
{
    reveal_strlit("/");
    if rel.len() != 0 {
        let joined = join_spec(root, rel);
        assert(joined.subrange(0, root.len() as int) =~= root);
        assert(joined[root.len() as int] == '/');
    }
}

/// A path that extends `base` without a `/` at the boundary — a sibling
/// directory whose name begins with `base`'s final component — is never
/// treated as confined under `base`.
pub proof fn lemma_sibling_prefix_rejected(base: Seq<char>, p: Seq<char>)
    requires
        p.len() > base.len(),
        p.subrange(0, base.len() as int) == base,
        p[base.len() as int] != '/',
        base.len() > 0,
        base[base.len() - 1] != '/',
    ensures
        !component_prefix(base, p),
{
}

/// Whatever passes the confinement test really lies under `base` textually:
/// a canonical path accepted as confined starts with the canonical root.
/// Together with `lemma_sibling_prefix_rejected` this pins the accepted set
/// down: exactly the root itself and its `/`-separated descendants pass, so
/// a canonical ancestor that escaped the root never does.
pub proof fn lemma_component_prefix_is_prefix(base: Seq<char>, p: Seq<char>)
    requires
        component_prefix(base, p),
    ensures
        p.len() >= base.len(),
        p.subrange(0, base.len() as int) == base,
{
    if base == p {
        assert(p.subrange(0, base.len() as int) =~= base);
    }
}

/// Strips one leading `/` from a caller-supplied path: the caller-visible
/// path is always interpreted as bucket-root-relative.
pub fn trim_leading_slash(s: &str) -> (r: &str)
    ensures
        r@ == trim_slash_spec(s@),
{
    let n = s.unicode_len();
    if n > 0 && s.get_char(0) == '/' {
        s.substring_char(1, n)
    } else {
        s
    }
}

/// Joins `rel` onto `root` with a `/` separator.
pub fn join_path(root: &str, rel: &str) -> (r: String)
    ensures
        r@ == join_spec(root@, rel@),
{
    let mut out = root.to_owned();
    if !rel.is_empty() {
        out.append("/");
        out.append(rel);
    }
    out
}

/// The position of the last `/` in `s`, or `-1` when `s` holds none.
pub open spec fn last_slash_index(s: Seq<char>) -> int
    decreases s.len(),
{
    if s.len() == 0 {
        -1
    } else if s[s.len() - 1] == '/' {
        s.len() - 1
    } else {
        last_slash_index(s.subrange(0, s.len() - 1))
    }
}

/// `last_slash_index` really names the last separator: it is in range,
/// it points at a `/`, and nothing to its right is one.
pub proof fn lemma_last_slash_index(s: Seq<char>)
    ensures
        -1 <= last_slash_index(s) < s.len(),
        last_slash_index(s) >= 0 ==> s[last_slash_index(s)] == '/',
        forall|k: int| last_slash_index(s) < k < s.len() ==> #[trigger] s[k] != '/',
    decreases s.len(),
{
    if s.len() == 0 {
    } else if s[s.len() - 1] == '/' {
    } else {
        let t = s.subrange(0, s.len() - 1);
        lemma_last_slash_index(t);
        assert forall|k: int| last_slash_index(s) < k < s.len() implies #[trigger] s[k] != '/' by {
            if k < s.len() - 1 {
                assert(t[k] == s[k]);
            }
        }
    }
}

/// The parent of a `/`-separated path: the path cut at its last `/`, with
/// the filesystem root `/` kept as is.  A path with no `/`, or the root
/// itself, has no parent.
pub open spec fn parent_spec(s: Seq<char>) -> Option<Seq<char>> {
    let j = last_slash_index(s);
    if j < 0 {
        None
    } else if j == 0 {
        if s.len() == 1 {
            None
        } else {
            Some(s.subrange(0, 1))
        }
    } else {
        Some(s.subrange(0, j))
    }
}

/// A parent is a component-wise ancestor of its path: cutting at the last
/// separator yields something the path lies under.
pub proof fn lemma_parent_is_component_prefix(s: Seq<char>)
    requires
        parent_spec(s) is Some,
    ensures
        component_prefix(parent_spec(s)->0, s),
        parent_spec(s)->0.len() < s.len(),
{
    lemma_last_slash_index(s);
    let j = last_slash_index(s);
    let p = parent_spec(s)->0;
    if j == 0 {
        assert(p[0] == s[0]);
        assert(s[0] == '/');
    } else {
        assert(s[p.len() as int] == '/');
    }
}

/// Lying component-wise under a path is transitive: an ancestor of an
/// ancestor is an ancestor.
pub proof fn lemma_component_prefix_transitive(a: Seq<char>, b: Seq<char>, c: Seq<char>)
    requires
        component_prefix(a, b),
        component_prefix(b, c),
    ensures
        component_prefix(a, c),
{
    if a == b || b == c {
    } else {
        assert(c.subrange(0, b.len() as int) == b);
        assert forall|i: int| 0 <= i < b.len() implies c[i] == b[i] by {
            assert(c.subrange(0, b.len() as int)[i] == c[i]);
        }
        assert(b.subrange(0, a.len() as int) == a);
        assert forall|i: int| 0 <= i < a.len() implies b[i] == a[i] by {
            assert(b.subrange(0, a.len() as int)[i] == b[i]);
        }
        assert(c.subrange(0, a.len() as int) =~= a);
        if a.len() > 0 && a[a.len() - 1] == '/' {
        } else {
            assert(b[a.len() as int] == '/');
        }
    }
}

/// The exact parent step of the ancestor walk: the path cut at its last
/// `/` (kept as `/` when that separator is the first character), `None`
/// for a path with no separator and for the root itself.  The result is
/// always strictly shorter, so a walk through `parent_of` terminates.
pub fn parent_of(s: &str) -> (r: Option<&str>)
    ensures
        r is Some <==> parent_spec(s@) is Some,
        r is Some ==> r->0@ == parent_spec(s@)->0,
        r is Some ==> r->0@.len() < s@.len(),
{
    let n = s.unicode_len();
    if n == 0 {
        return None;
    }
    let mut j: usize = n;
    while j > 0
        invariant
            n == s@.len(),
            j <= n,
            forall|k: int| j <= k < n ==> #[trigger] s@[k] != '/',
        decreases j,
    {
        j = j - 1;
        if s.get_char(j) == '/' {
            proof {
                lemma_last_slash_index(s@);
                let l = last_slash_index(s@);
                if l < j as int {
                    assert(s@[j as int] != '/');
                    assert(false);
                }
                if l > j as int {
                    assert(s@[l] != '/');
                    assert(false);
                }
            }
            if j == 0 {
                if n == 1 {
                    return None;
                }
                return Some(s.substring_char(0, 1));
            }
            return Some(s.substring_char(0, j));
        }
    }
    proof {
        lemma_last_slash_index(s@);
        let l = last_slash_index(s@);
        if l >= 0 {
            assert(s@[l] != '/');
            assert(false);
        }
    }
    None
}

/// One step of the upward walk to an existing ancestor, carrying its whole
/// policy: a path whose last component is the parent reference `..` is
/// refused (cutting `..` off a path does not yield an ancestor of it), and
/// otherwise the path is cut exactly at its last separator, failing when no
/// parent remains.  Whatever comes back is a component-wise ancestor.
pub fn step_to_parent(ancestor: &str) -> (r: Option<&str>)
    ensures
        r is Some <==> (!ends_in_parent_ref(ancestor@) && parent_spec(ancestor@) is Some),
        r is Some ==> r->0@ == parent_spec(ancestor@)->0,
        r is Some ==> r->0@.len() < ancestor@.len(),
        r is Some ==> component_prefix(r->0@, ancestor@),
{
    if last_component_is_parent_ref(ancestor) {
        return None;
    }
    proof {
        if parent_spec(ancestor@) is Some {
            lemma_parent_is_component_prefix(ancestor@);
        }
    }
    parent_of(ancestor)
}

/// The last `/`-separated component of `s` is a parent reference `..`.
pub open spec fn ends_in_parent_ref(s: Seq<char>) -> bool {
    &&& s.len() >= 2
    &&& s[s.len() - 1] == '.'
    &&& s[s.len() - 2] == '.'
    &&& (s.len() == 2 || s[s.len() - 3] == '/')
}

/// Decides whether a path's last component is the parent reference `..`.
/// An ancestor walk must not pop such a component textually: cutting `..`
/// off a path does not yield an ancestor of that path.
pub fn last_component_is_parent_ref(s: &str) -> (b: bool)
    ensures
        b == ends_in_parent_ref(s@),
{
    let n = s.unicode_len();
    if n < 2 {
        return false;
    }
    s.get_char(n - 1) == '.' && s.get_char(n - 2) == '.' && (n == 2 || s.get_char(n - 3) == '/')
}

/// A bare directory-entry name: non-empty, holding no `/` separator, and
/// neither of the special entries `.` and `..`.
pub open spec fn bare_name(s: Seq<char>) -> bool {
    &&& s.len() > 0
    &&& forall|i: int| 0 <= i < s.len() ==> #[trigger] s[i] != '/'
    &&& s != "."@
    &&& s != ".."@
}

/// The shape of a root-relative listed path: non-empty, `/`-joined from
/// non-empty components, with no leading or trailing separator — portable
/// across storage backends whatever the host's path conventions are.
pub open spec fn rel_path_shape(s: Seq<char>) -> bool {
    &&& s.len() > 0
    &&& s[0] != '/'
    &&& s[s.len() - 1] != '/'
    &&& forall|i: int| 0 <= i && i + 1 < s.len() && #[trigger] s[i] == '/' ==> s[i + 1] != '/'
}

/// Joining a bare name onto a well-shaped relative path keeps the shape:
/// the result is again `/`-joined non-empty components.
pub proof fn lemma_join_rel_shape(prefix: Seq<char>, name: Seq<char>)
    requires
        rel_path_shape(prefix),
        bare_name(name),
    ensures
        rel_path_shape(join_spec(prefix, name)),
{
    reveal_strlit("/");
    let j = join_spec(prefix, name);
    assert(j.len() == prefix.len() + 1 + name.len());
    assert(j[0] == prefix[0]);
    assert(j[j.len() - 1] == name[name.len() - 1]);
    assert forall|i: int| 0 <= i && i + 1 < j.len() && #[trigger] j[i] == '/' implies j[i + 1]
        != '/' by {
        if i + 1 < prefix.len() {
            assert(j[i] == prefix[i]);
            assert(j[i + 1] == prefix[i + 1]);
        } else if i + 1 == prefix.len() {
            assert(j[i] == prefix[i]);
        } else if i == prefix.len() {
            assert(j[i + 1] == name[0]);
        } else {
            assert(j[i] == name[i - prefix.len() - 1]);
        }
    }
}

/// A bare name is by itself a well-shaped relative path.
pub proof fn lemma_bare_name_shape(name: Seq<char>)
    requires
        bare_name(name),
    ensures
        rel_path_shape(name),
{
}

/// The confinement test run on canonical paths: decides whether `p` lies
/// at or under `base`, component-wise.
pub fn starts_with_components(base: &str, p: &str) -> (b: bool)
    ensures
        b == component_prefix(base@, p@),
{
    let nb = base.unicode_len();
    let np = p.unicode_len();
    if np < nb {
        return false;
    }
    let mut i: usize = 0;
    while i < nb
        invariant
            nb == base@.len(),
            np == p@.len(),
            nb <= np,
            i <= nb,
            forall|j: int| 0 <= j < i ==> base@[j] == p@[j],
        decreases nb - i,
    {
        if base.get_char(i) != p.get_char(i) {
            assert(p.view().subrange(0, nb as int)[i as int] != base@[i as int]);
            assert(base@ != p@);
            return false;
        }
        i = i + 1;
    }
    assert(p.view().subrange(0, nb as int) =~= base@);
    if np == nb {
        assert(base@ =~= p@);
        true
    } else if nb > 0 && base.get_char(nb - 1) == '/' {
        true
    } else {
        p.get_char(nb) == '/'
    }
}

} // verus!
