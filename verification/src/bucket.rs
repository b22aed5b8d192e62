//! One tenant's isolated storage: its root directory, its credential, safe
//! path resolution inside the root, and the protected-path-aware listing of
//! its files.

use vstd::prelude::*;

use crate::fsio::{canonicalize_path, path_exists, path_is_dir, read_dir_names};
use crate::guard::{is_protected_path, is_protected_spec};
use crate::paths::{
    bare_name, component_prefix, join_path, join_spec, lemma_bare_name_shape,
    lemma_component_prefix_transitive, lemma_join_rel_shape, rel_path_shape,
    starts_with_components, step_to_parent, trim_leading_slash, trim_slash_spec,
};

verus! {

/// The credential section of a bucket's configuration: the bearer token
/// that authorizes write, delete and list operations.
#[derive(Debug)]
pub struct BucketAuth {
    pub token: String,
}

/// A bucket's configuration, loaded from the fixed file `config.toml` at
/// the bucket root.  It carries exactly one field of interest: the
/// credential.
#[derive(Debug)]
pub struct BucketConfig {
    pub auth: BucketAuth,
}

/// The `auth.token` string field that the TOML text defines, if the text
/// parses and carries one.
pub uninterp spec fn credential_of(text: Seq<char>) -> Option<Seq<char>>;

/// Relies on `toml::Table`'s `FromStr` (TOML parsing), `toml::map::Map::get`
/// and `toml::Value::get`/`as_str`: extracts the `auth.token` string from
/// the configuration text.  The result is a function of the text alone.
#[verifier::external_body]
fn parse_credential(text: &str) -> (r: Option<String>)
    ensures
        r is Some <==> credential_of(text@) is Some,
        r is Some ==> r->0@ == credential_of(text@)->0,
{
    let table: toml::Table = match text.parse() {
        Ok(t) => t,
        Err(_) => return None,
    };
    match table.get("auth") {
        Some(auth) => match auth.get("token") {
            Some(v) => match v.as_str() {
                Some(s) => Some(s.to_string()),
                None => None,
            },
            None => None,
        },
        None => None,
    }
}

impl BucketConfig {
    /// Parses a bucket's configuration text, failing closed on any text
    /// that does not define the credential.
    pub fn load(text: &str) -> (r: Option<BucketConfig>)
        ensures
            r is Some <==> credential_of(text@) is Some,
            r is Some ==> r->0.auth.token@ == credential_of(text@)->0,
    {
        match parse_credential(text) {
            Some(token) => Some(BucketConfig { auth: BucketAuth { token } }),
            None => None,
        }
    }
}

/// One tenant: an isolated root directory plus the credential protecting it.
#[derive(Debug)]
pub struct Bucket {
    pub path: String,
    pub config: BucketConfig,
}

/// The iteration budget for a directory walk; a traversal that visits more
/// entries than this fails closed instead of running unboundedly (a symlink
/// cycle on disk could otherwise make the walk endless).
pub const LIST_FUEL: u64 = 0x10_0000_0000;

impl Bucket {
    /// Builds a bucket from its root path and its configuration text.
    pub fn load(path: String, config_text: &str) -> (r: Option<Bucket>)
        ensures
            r is Some <==> credential_of(config_text@) is Some,
            r is Some ==> r->0.path@ == path@ && r->0.config.auth.token@ == credential_of(
                config_text@,
            )->0,
    {
        match BucketConfig::load(config_text) {
            Some(config) => Some(Bucket { path, config }),
            None => None,
        }
    }

    /// Exact-match validation of a presented credential against the
    /// bucket's own.
    pub fn validate_token(&self, token: &str) -> (b: bool)
        ensures
            b == (self.config.auth.token@ == token@),
    {
        let candidate = token.to_owned();
        self.config.auth.token == candidate
    }

    /// Turns a tenant-supplied relative path into the full path under this
    /// bucket's root, or rejects it: a single leading `/` is stripped, a
    /// protected path is refused, and the joined path must pass the
    /// canonicalization-based confinement test.
    pub fn resolve_path(&self, file_path: &str) -> (r: Option<String>)
        ensures
            is_protected_spec(trim_slash_spec(file_path@)) ==> r is None,
            r is Some ==> !is_protected_spec(trim_slash_spec(file_path@)),
            r is Some ==> r->0@ == join_spec(self.path@, trim_slash_spec(file_path@)),
    {
        let trimmed = trim_leading_slash(file_path);
        if is_protected_path(trimmed) {
            return None;
        }
        let full = join_path(self.path.as_str(), trimmed);
        if !is_safe_path(self.path.as_str(), full.as_str()) {
            return None;
        }
        Some(full)
    }

    /// Walks this bucket's directory tree depth-first and returns every
    /// file's root-relative path, excluding the protected configuration
    /// file and metadata namespace.  Each entry is `/`-joined from the bare
    /// entry names encountered on the way down, so the listing is
    /// forward-slash-normalized whatever the host's path conventions are.
    /// Any read failure, non-UTF-8 name, or an exhausted iteration budget
    /// yields `None`.
    pub fn list_files(&self) -> (r: Option<Vec<String>>)
        ensures
            r is Some ==> forall|i: int|
                0 <= i < r->0@.len() ==> !is_protected_spec(#[trigger] r->0@[i]@)
                    && rel_path_shape(r->0@[i]@),
    {
        let mut out: Vec<String> = Vec::new();
        let mut stack: Vec<(String, String)> = Vec::new();
        stack.push((self.path.clone(), String::new()));
        let mut fuel: u64 = LIST_FUEL;
        while stack.len() != 0
            invariant
                forall|i: int|
                    0 <= i < out@.len() ==> !is_protected_spec(#[trigger] out@[i]@)
                        && rel_path_shape(out@[i]@),
                forall|j: int|
                    0 <= j < stack@.len() ==> (#[trigger] stack@[j]).1@.len() == 0
                        || rel_path_shape(stack@[j].1@),
            decreases fuel,
        {
            if fuel == 0 {
                return None;
            }
            fuel = fuel - 1;
            let (dir, prefix) = match stack.pop() {
                Some(top) => top,
                None => {
                    return None;
                },
            };
            let names = match read_dir_names(dir.as_str()) {
                Some(names) => names,
                None => {
                    return None;
                },
            };
            let mut k: usize = 0;
            while k < names.len()
                invariant
                    forall|i: int|
                        0 <= i < out@.len() ==> !is_protected_spec(#[trigger] out@[i]@)
                            && rel_path_shape(out@[i]@),
                    forall|j: int|
                        0 <= j < stack@.len() ==> (#[trigger] stack@[j]).1@.len() == 0
                            || rel_path_shape(stack@[j].1@),
                    forall|m: int| 0 <= m < names@.len() ==> bare_name(#[trigger] names@[m]@),
                    prefix@.len() == 0 || rel_path_shape(prefix@),
                decreases names.len() - k,
            {
                let name = &names[k];
                k = k + 1;
                let rel = if prefix.as_str().is_empty() {
                    proof {
                        lemma_bare_name_shape(name@);
                    }
                    name.clone()
                } else {
                    proof {
                        lemma_join_rel_shape(prefix@, name@);
                    }
                    join_path(prefix.as_str(), name.as_str())
                };
                if is_protected_path(rel.as_str()) {
                    continue;
                }
                let full = join_path(dir.as_str(), name.as_str());
                if path_is_dir(full.as_str()) {
                    stack.push((full, rel));
                } else {
                    out.push(rel);
                }
            }
        }
        Some(out)
    }
}

/// The confinement test of the path guard: canonicalize the bucket root,
/// canonicalize the target — or, when the target does not exist yet, its
/// deepest existing ancestor — and accept only if the canonical form lies
/// component-wise at or under the canonical root.  The walk steps through
/// `step_to_parent`, whose contract fixes each step exactly: the cut is at
/// the last separator, and a trailing `..` component is refused outright
/// (cutting `..` off a path does not yield one of its ancestors), so a
/// parent reference that cannot be resolved on disk is rejected even when
/// the location it escapes to does not exist yet.  The loop invariant
/// states that every probe is a component-wise ancestor of the joined
/// candidate; stopping at the first that exists makes it the deepest
/// existing one.  Every canonicalization failure resolves to unsafe, so
/// the guard fails closed; which branch runs depends on the filesystem's
/// authoritative view, which is why this function's result carries no
/// contract of its own.
pub fn is_safe_path(base: &str, full_path: &str) -> bool {
    let canonical_base = match canonicalize_path(base) {
        Some(c) => c,
        None => {
            return false;
        },
    };
    if let Some(canonical) = canonicalize_path(full_path) {
        return starts_with_components(canonical_base.as_str(), canonical.as_str());
    }
    let mut ancestor = full_path.to_owned();
    while !path_exists(ancestor.as_str())
        invariant
            component_prefix(ancestor@, full_path@),
        decreases ancestor@.len(),
    {
        let next = match step_to_parent(ancestor.as_str()) {
            Some(parent) => parent.to_owned(),
            None => {
                return false;
            },
        };
        proof {
            lemma_component_prefix_transitive(next@, ancestor@, full_path@);
        }
        ancestor = next;
    }
    match canonicalize_path(ancestor.as_str()) {
        Some(canonical_ancestor) => starts_with_components(
            canonical_base.as_str(),
            canonical_ancestor.as_str(),
        ),
        None => false,
    }
}

} // verus!
