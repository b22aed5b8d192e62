use stathost::guard::{eq_ignore_ascii_case, is_protected_path, starts_with_ignore_ascii_case};

#[test]
fn protected_exact_configuration_file() {
    assert!(is_protected_path("config.toml"));
    assert!(is_protected_path("config.toml/nested"));
    assert!(is_protected_path("_meta"));
    assert!(is_protected_path("_meta/list"));
    assert!(is_protected_path("_meta/deep/nested"));
}

#[test]
fn protected_in_any_casing() {
    assert!(is_protected_path("Config.TOML"));
    assert!(is_protected_path("CONFIG.TOML"));
    assert!(is_protected_path("cOnFiG.tOmL"));
    assert!(is_protected_path("Config.TOML/nested"));
    assert!(is_protected_path("_META"));
    assert!(is_protected_path("_Meta/list"));
}

#[test]
fn unprotected_paths_pass() {
    assert!(!is_protected_path("index.html"));
    assert!(!is_protected_path("assets/style.css"));
    assert!(!is_protected_path("config.tom"));
    assert!(!is_protected_path("config.tomlx"));
    assert!(!is_protected_path("xconfig.toml"));
    assert!(!is_protected_path("_metadata"));
    assert!(!is_protected_path("meta"));
    assert!(!is_protected_path(""));
    assert!(!is_protected_path("sub/config.toml"));
}

#[test]
fn case_insensitive_equality() {
    assert!(eq_ignore_ascii_case("abc", "AbC"));
    assert!(eq_ignore_ascii_case("", ""));
    assert!(!eq_ignore_ascii_case("abc", "abd"));
    assert!(!eq_ignore_ascii_case("abc", "ab"));
    assert!(eq_ignore_ascii_case("a-b_c.1", "A-B_C.1"));
    // Folding is ASCII-only: letters outside ASCII compare exactly.
    assert!(!eq_ignore_ascii_case("ö", "Ö"));
}

#[test]
fn case_insensitive_prefix() {
    assert!(starts_with_ignore_ascii_case("Config.TOML/x", "config.toml/"));
    assert!(starts_with_ignore_ascii_case("abc", "ab"));
    assert!(starts_with_ignore_ascii_case("abc", ""));
    assert!(!starts_with_ignore_ascii_case("ab", "abc"));
    assert!(!starts_with_ignore_ascii_case("axc", "ab"));
}
