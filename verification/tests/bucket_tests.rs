use stathost::bucket::{is_safe_path, Bucket};

fn rt() -> tokio::runtime::Runtime {
    tokio::runtime::Builder::new_current_thread()
        .enable_all()
        .build()
        .unwrap()
}

fn fresh_root(name: &str) -> String {
    let root = format!("/tmp/stathost_bucket_tests/{}", name);
    rt().block_on(async {
        let _ = tokio::fs::remove_dir_all(&root).await;
        tokio::fs::create_dir_all(&root).await.unwrap();
    });
    root
}

fn bucket_at(root: &str, token: &str) -> Bucket {
    let text = format!("[auth]\ntoken = \"{}\"", token);
    Bucket::load(root.to_string(), &text).unwrap()
}

#[test]
fn token_validation_is_exact_match() {
    let root = fresh_root("token");
    let bucket = bucket_at(&root, "token1");
    assert!(bucket.validate_token("token1"));
    assert!(!bucket.validate_token("token2"));
    assert!(!bucket.validate_token("token1 "));
    assert!(!bucket.validate_token("token"));
    assert!(!bucket.validate_token(""));
}

#[test]
fn load_fails_without_credential() {
    assert!(Bucket::load("/tmp/anywhere".to_string(), "no credential here").is_none());
}

#[test]
fn resolve_accepts_paths_inside_the_root() {
    let root = fresh_root("inside");
    let bucket = bucket_at(&root, "t");
    assert_eq!(
        bucket.resolve_path("index.html"),
        Some(format!("{}/index.html", root))
    );
    // A single leading separator is stripped.
    assert_eq!(
        bucket.resolve_path("/index.html"),
        Some(format!("{}/index.html", root))
    );
    // The target need not exist yet: its deepest existing ancestor decides.
    assert_eq!(
        bucket.resolve_path("a/b/c.txt"),
        Some(format!("{}/a/b/c.txt", root))
    );
}

#[test]
fn resolve_rejects_protected_paths() {
    let root = fresh_root("protected");
    let bucket = bucket_at(&root, "t");
    assert_eq!(bucket.resolve_path("config.toml"), None);
    assert_eq!(bucket.resolve_path("Config.TOML"), None);
    assert_eq!(bucket.resolve_path("/config.toml"), None);
    assert_eq!(bucket.resolve_path("_meta/list"), None);
    assert_eq!(bucket.resolve_path("_META"), None);
}

#[test]
fn resolve_rejects_parent_reference_escapes() {
    let root = fresh_root("dotdot");
    let bucket = bucket_at(&root, "t");
    assert_eq!(bucket.resolve_path("../outside.txt"), None);
    assert_eq!(bucket.resolve_path("a/../../outside.txt"), None);
    assert_eq!(bucket.resolve_path("../../../../etc/passwd"), None);
    // Even when the escaping ancestor does not exist yet.
    assert_eq!(bucket.resolve_path("../nonexistent/deep/file.txt"), None);
    assert_eq!(bucket.resolve_path("missing/../../escape.txt"), None);
    // A parent reference that resolves on disk and stays inside the root is
    // not an escape.
    rt().block_on(tokio::fs::create_dir_all(format!("{}/a", root))).unwrap();
    assert_eq!(
        bucket.resolve_path("a/../index.html"),
        Some(format!("{}/a/../index.html", root))
    );
    // With `a` existing, its parent references resolve on disk — and escape.
    assert_eq!(bucket.resolve_path("a/../../outside.txt"), None);
}

#[test]
fn resolve_rejects_symlink_escapes() {
    let root = fresh_root("symlink/root");
    let outside = fresh_root("symlink/outside");
    rt().block_on(async {
        tokio::fs::symlink(&outside, format!("{}/link", root))
            .await
            .unwrap();
    });
    let bucket = bucket_at(&root, "t");
    // The existing ancestor of the target is a symlink pointing outside.
    assert_eq!(bucket.resolve_path("link/file.txt"), None);
    assert_eq!(bucket.resolve_path("link"), None);
}

#[test]
fn safety_check_fails_closed_without_a_root() {
    let root = format!("/tmp/stathost_bucket_tests/never_created_{}", "gone");
    let _ = rt().block_on(tokio::fs::remove_dir_all(&root));
    assert!(!is_safe_path(&root, &format!("{}/x", root)));
}

#[test]
fn safety_check_distinguishes_siblings() {
    let root = fresh_root("sib/site");
    let sibling = fresh_root("sib/sitex");
    assert!(!is_safe_path(&root, &sibling));
    assert!(is_safe_path(&root, &format!("{}/x", root)));
}

#[test]
fn listing_excludes_protected_entries() {
    let root = fresh_root("listing");
    rt().block_on(async {
        tokio::fs::create_dir_all(format!("{}/assets", root)).await.unwrap();
        tokio::fs::create_dir_all(format!("{}/_meta", root)).await.unwrap();
        tokio::fs::write(format!("{}/index.html", root), b"<h1>Hello</h1>")
            .await
            .unwrap();
        tokio::fs::write(format!("{}/assets/style.css", root), b"body {}")
            .await
            .unwrap();
        tokio::fs::write(format!("{}/config.toml", root), b"[auth]\ntoken = \"t\"")
            .await
            .unwrap();
        tokio::fs::write(format!("{}/_meta/hidden.txt", root), b"secret")
            .await
            .unwrap();
    });
    let bucket = bucket_at(&root, "t");
    let mut files = bucket.list_files().unwrap();
    files.sort();
    assert_eq!(files, vec!["assets/style.css".to_string(), "index.html".to_string()]);
}

#[test]
fn listing_missing_root_fails() {
    let root = "/tmp/stathost_bucket_tests/no_such_root".to_string();
    let _ = rt().block_on(tokio::fs::remove_dir_all(&root));
    let bucket = bucket_at(&root, "t");
    assert!(bucket.list_files().is_none());
}
