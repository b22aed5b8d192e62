//! Pure path validation: the protected-path blocklist and the
//! component-wise confinement test applied to canonical paths.

use vstd::prelude::*;

verus! {

/// Unicode code point of `c` after ASCII case folding: the 26 uppercase
/// ASCII letters map to their lowercase forms, everything else is unchanged.
pub open spec fn lower_code(c: char) -> int {
    if 65 <= c as int && c as int <= 90 {
        c as int + 32
    } else {
        c as int
    }
}

/// `a` and `b` are equal under ASCII case folding.
pub open spec fn ci_eq(a: Seq<char>, b: Seq<char>) -> bool {
    a.len() == b.len() && forall|i: int| 0 <= i < a.len() ==> lower_code(a[i]) == lower_code(b[i])
}

/// `s` starts with `p` under ASCII case folding.
pub open spec fn ci_prefix(p: Seq<char>, s: Seq<char>) -> bool {
    s.len() >= p.len() && ci_eq(p, s.subrange(0, p.len() as int))
}

/// The protected-path predicate: a relative path that is, or lies under,
/// the per-bucket configuration file `config.toml`, or the reserved
/// metadata prefix `_meta`, compared case-insensitively.
pub open spec fn is_protected_spec(s: Seq<char>) -> bool {
    ||| ci_eq(s, "config.toml"@)
    ||| ci_prefix("config.toml/"@, s)
    ||| ci_eq(s, "_meta"@)
    ||| ci_prefix("_meta/"@, s)
}

/// Whether a path is protected depends only on its letters up to ASCII
/// case: two paths that agree under case folding are either both protected
/// or both not, so no letter-casing of `config.toml` or `_meta` slips past
/// the blocklist.
pub proof fn lemma_protected_casing(a: Seq<char>, b: Seq<char>)
    requires
        ci_eq(a, b),
    ensures
        is_protected_spec(a) == is_protected_spec(b),
{
    lemma_ci_eq_symmetric(a, b);
    if is_protected_spec(a) {
        lemma_protected_casing_one_way(a, b);
    }
    if is_protected_spec(b) {
        lemma_protected_casing_one_way(b, a);
    }
}

proof fn lemma_ci_eq_symmetric(a: Seq<char>, b: Seq<char>)
    requires
        ci_eq(a, b),
    ensures
        ci_eq(b, a),
{
}

proof fn lemma_protected_casing_one_way(a: Seq<char>, b: Seq<char>)
    requires
        ci_eq(a, b),
        is_protected_spec(a),
    ensures
        is_protected_spec(b),
{
    if ci_eq(a, "config.toml"@) {
        assert(ci_eq(b, "config.toml"@));
    } else if ci_prefix("config.toml/"@, a) {
        lemma_ci_prefix_casing("config.toml/"@, a, b);
    } else if ci_eq(a, "_meta"@) {
        assert(ci_eq(b, "_meta"@));
    } else {
        lemma_ci_prefix_casing("_meta/"@, a, b);
    }
}

proof fn lemma_ci_prefix_casing(p: Seq<char>, a: Seq<char>, b: Seq<char>)
    requires
        ci_eq(a, b),
        ci_prefix(p, a),
    ensures
        ci_prefix(p, b),
{
    assert forall|i: int| 0 <= i < p.len() implies lower_code(p[i]) == lower_code(
        b.subrange(0, p.len() as int)[i],
    ) by {
        assert(a.subrange(0, p.len() as int)[i] == a[i]);
        assert(b.subrange(0, p.len() as int)[i] == b[i]);
    }
}

fn lower_code_x(c: char) -> (r: u32)
    ensures
        r as int == lower_code(c),
{
    let u = c as u32;
    if 65 <= u && u <= 90 {
        u + 32
    } else {
        u
    }
}

/// `s == t` up to ASCII case folding.
pub fn eq_ignore_ascii_case(s: &str, t: &str) -> (b: bool)
    ensures
        b == ci_eq(s@, t@),
{
    let n = s.unicode_len();
    let m = t.unicode_len();
    if n != m {
        return false;
    }
    let mut i: usize = 0;
    while i < n
        invariant
            n == s@.len(),
            n == t@.len(),
            i <= n,
            forall|j: int| 0 <= j < i ==> lower_code(s@[j]) == lower_code(t@[j]),
        decreases n - i,
    {
        if lower_code_x(s.get_char(i)) != lower_code_x(t.get_char(i)) {
            return false;
        }
        i = i + 1;
    }
    true
}

/// `s` starts with `p`, up to ASCII case folding.
pub fn starts_with_ignore_ascii_case(s: &str, p: &str) -> (b: bool)
    ensures
        b == ci_prefix(p@, s@),
{
    let n = s.unicode_len();
    let m = p.unicode_len();
    if n < m {
        return false;
    }
    let mut i: usize = 0;
    while i < m
        invariant
            n == s@.len(),
            m == p@.len(),
            m <= n,
            i <= m,
            forall|j: int| 0 <= j < i ==> lower_code(p@[j]) == lower_code(s@[j]),
        decreases m - i,
    {
        if lower_code_x(p.get_char(i)) != lower_code_x(s.get_char(i)) {
            assert(!ci_eq(p@, s@.subrange(0, m as int)));
            return false;
        }
        i = i + 1;
    }
    assert forall|j: int| 0 <= j < m implies lower_code(p@[j]) == lower_code(
        s@.subrange(0, m as int)[j],
    ) by {
        assert(s@.subrange(0, m as int)[j] == s@[j]);
    }
    true
}

/// Decides whether a relative path collides with the protected set:
/// the bucket configuration file and the reserved metadata namespace,
/// in any letter casing.
pub fn is_protected_path(path: &str) -> (b: bool)
    ensures
        b == is_protected_spec(path@),
{
    eq_ignore_ascii_case(path, "config.toml")
        || starts_with_ignore_ascii_case(path, "config.toml/")
        || eq_ignore_ascii_case(path, "_meta")
        || starts_with_ignore_ascii_case(path, "_meta/")
}

} // verus!
