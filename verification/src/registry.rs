//! Bucket resolution: maps a tenant-supplied bucket name to its isolated
//! storage root, enforcing name-level isolation before any filesystem
//! access happens.

use vstd::prelude::*;

use crate::bucket::{credential_of, Bucket};
use crate::fsio::path_is_dir;
use crate::paths::{join_path, join_spec};

verus! {

/// A bucket name is safe when it holds no parent-reference sequence `..`
/// and no path separator, forward or backward; only such a name may be
/// used to address a subdirectory of the buckets directory.
pub open spec fn valid_bucket_name(n: Seq<char>) -> bool {
    &&& !(exists|i: int| 0 <= i && i + 1 < n.len() && #[trigger] n[i] == '.' && n[i + 1] == '.')
    &&& !(exists|i: int| 0 <= i < n.len() && #[trigger] n[i] == '/')
    &&& !(exists|i: int| 0 <= i < n.len() && #[trigger] n[i] == '\\')
}

/// Decides `valid_bucket_name` for a candidate bucket name.
pub fn bucket_name_is_safe(name: &str) -> (b: bool)
    ensures
        b == valid_bucket_name(name@),
{
    let n = name.unicode_len();
    let mut i: usize = 0;
    while i < n
        invariant
            n == name@.len(),
            i <= n,
            forall|j: int| 0 <= j < i ==> name@[j] != '/' && name@[j] != '\\',
            forall|j: int|
                0 <= j && j + 1 < i as int ==> !(#[trigger] name@[j] == '.' && name@[j + 1] == '.'),
        decreases n - i,
    {
        let c = name.get_char(i);
        if c == '/' || c == '\\' {
            return false;
        }
        if i > 0 && c == '.' && name.get_char(i - 1) == '.' {
            return false;
        }
        i = i + 1;
    }
    true
}

/// Name-level isolation: two distinct bucket names never map to the same
/// root directory under the shared buckets directory.
pub proof fn lemma_distinct_names_distinct_roots(dir: Seq<char>, a: Seq<char>, b: Seq<char>)
    requires
        a != b,
    ensures
        join_spec(dir, a) != join_spec(dir, b),
{
    reveal_strlit("/");
    assert("/"@.len() == 1);
    if a.len() == 0 {
        if b.len() == 0 {
            assert(a =~= b);
        }
        assert(join_spec(dir, b).len() == dir.len() + 1 + b.len());
    } else if b.len() == 0 {
        assert(join_spec(dir, a).len() == dir.len() + 1 + a.len());
    } else if join_spec(dir, a) == join_spec(dir, b) {
        assert(a.len() == b.len());
        assert forall|i: int| 0 <= i < a.len() implies a[i] == b[i] by {
            assert(join_spec(dir, a)[dir.len() + 1 + i] == a[i]);
            assert(join_spec(dir, b)[dir.len() + 1 + i] == b[i]);
        }
        assert(a =~= b);
    }
}

/// Resolves bucket names against one shared buckets directory.
pub struct BucketManager {
    pub buckets_dir: String,
}

impl BucketManager {
    /// A registry over the given buckets directory.
    pub fn new(buckets_dir: String) -> (r: BucketManager)
        ensures
            r.buckets_dir@ == buckets_dir@,
    {
        BucketManager { buckets_dir }
    }

    /// The location of a named bucket's configuration file, or `None` for a
    /// name that fails syntactic validation — such a name never turns into
    /// a filesystem path at all.
    pub fn config_path(&self, name: &str) -> (r: Option<String>)
        ensures
            r is Some <==> valid_bucket_name(name@),
            r is Some ==> r->0@ == join_spec(
                join_spec(self.buckets_dir@, name@),
                "config.toml"@,
            ),
    {
        if !bucket_name_is_safe(name) {
            return None;
        }
        let bucket_path = join_path(self.buckets_dir.as_str(), name);
        Some(join_path(bucket_path.as_str(), "config.toml"))
    }

    /// Resolves a bucket: the name must pass syntactic validation before
    /// the filesystem is consulted, the named subdirectory must exist and
    /// be a directory, and its configuration text must define a credential.
    /// Every failure looks the same to the caller, so that bucket names
    /// cannot be probed.
    pub fn get_bucket(&self, name: &str, config_text: &str) -> (r: Option<Bucket>)
        ensures
            !valid_bucket_name(name@) ==> r is None,
            r is Some ==> valid_bucket_name(name@),
            r is Some ==> r->0.path@ == join_spec(self.buckets_dir@, name@),
            r is Some ==> credential_of(config_text@) is Some && r->0.config.auth.token@
                == credential_of(config_text@)->0,
    {
        if !bucket_name_is_safe(name) {
            return None;
        }
        let bucket_path = join_path(self.buckets_dir.as_str(), name);
        if !path_is_dir(bucket_path.as_str()) {
            return None;
        }
        Bucket::load(bucket_path, config_text)
    }
}

} // verus!
