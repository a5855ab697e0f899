use mini_crates::crate_name::{
    claim_matches, crate_filename, crate_name_from_sparse_path, normalized_name,
    sparse_index_path, validate_claim_pattern, validate_crate_name, validate_release,
    versioned_filename,
};
use mini_crates::error::AppError;

fn bad_request<T>(result: Result<T, AppError>) -> String {
    match result.err() {
        Some(AppError::BadRequest(text)) => text,
        other => panic!("not a bad request: {:?}", other),
    }
}

#[test]
fn validates_crate_names() {
    assert!(validate_crate_name("liberte_shared").is_ok());
    assert!(validate_crate_name("liberte-shared").is_ok());
    assert!(validate_crate_name("Liberte").is_err());
    assert!(validate_crate_name("_liberte").is_err());
}

#[test]
fn computes_sparse_paths() {
    assert_eq!(sparse_index_path("a").unwrap(), "1/a");
    assert_eq!(sparse_index_path("ab").unwrap(), "2/ab");
    assert_eq!(sparse_index_path("abc").unwrap(), "3/a/abc");
    assert_eq!(sparse_index_path("cargo").unwrap(), "ca/rg/cargo");
}

#[test]
fn matches_claim_patterns() {
    assert!(claim_matches("*", "liberte_shared"));
    assert!(claim_matches("liberte_*", "liberte_shared"));
    assert!(claim_matches("liberte_shared", "liberte_shared"));
    assert!(!claim_matches("other_*", "liberte_shared"));
}

#[test]
fn explains_bad_names() {
    assert_eq!(bad_request(validate_crate_name("")), "invalid crate name length");
    let long = "a".repeat(65);
    assert_eq!(bad_request(validate_crate_name(&long)), "invalid crate name length");
    assert!(validate_crate_name(&long[..64]).is_ok());
    assert_eq!(
        bad_request(validate_crate_name("9lives")),
        "crate name must start with an ASCII lowercase letter"
    );
    assert_eq!(
        bad_request(validate_crate_name("a.b")),
        "crate name contains unsupported characters"
    );
    assert_eq!(
        bad_request(validate_crate_name("a\u{e9}")),
        "crate name contains unsupported characters"
    );
}

#[test]
fn counts_name_length_in_bytes() {
    let wide = "\u{e9}".repeat(33);
    assert_eq!(bad_request(validate_crate_name(&wide)), "invalid crate name length");
    let narrow = "\u{e9}".repeat(32);
    assert_eq!(
        bad_request(validate_crate_name(&narrow)),
        "crate name must start with an ASCII lowercase letter"
    );
}

#[test]
fn validates_claim_patterns() {
    assert!(validate_claim_pattern("*").is_ok());
    assert!(validate_claim_pattern("liberte_*").is_ok());
    assert!(validate_claim_pattern("-*").is_ok());
    assert!(validate_claim_pattern("liberte").is_ok());
    let long = "a".repeat(100) + "*";
    assert!(validate_claim_pattern(&long).is_ok());
    assert_eq!(bad_request(validate_claim_pattern("**")), "invalid crate claim pattern");
    assert_eq!(bad_request(validate_claim_pattern("A*")), "invalid crate claim pattern");
    assert_eq!(bad_request(validate_claim_pattern("")), "invalid crate name length");
    assert_eq!(
        bad_request(validate_claim_pattern("a*b")),
        "crate name contains unsupported characters"
    );
}

#[test]
fn claims_cover_by_prefix() {
    assert!(claim_matches("a*", "a"));
    assert!(claim_matches("a*", "ab"));
    assert!(!claim_matches("ab*", "a"));
    assert!(!claim_matches("", "a"));
    assert!(claim_matches("a*", "a*") && claim_matches("A*", "Ab"));
    assert!(!claim_matches("a", "ab"));
    assert!(claim_matches("li*", "liberte") && claim_matches("liber*", "liberte"));
}

#[test]
fn normalizes_hyphens() {
    assert_eq!(normalized_name("a-b_c-d"), "a_b_c_d");
    assert_eq!(normalized_name(&normalized_name("a-b_c-d")), "a_b_c_d");
    assert_eq!(normalized_name("a-b"), normalized_name("a_b"));
    assert_ne!(normalized_name("a-b"), normalized_name("ab"));
    assert!(validate_crate_name(&normalized_name("-a")).is_err() && validate_crate_name("-a").is_err());
}

#[test]
fn index_paths_lead_back() {
    for name in ["a", "ab", "abc", "cargo", "a-b_9", "download"] {
        let path = sparse_index_path(name).unwrap();
        assert_eq!(crate_name_from_sparse_path(&path).unwrap(), name);
    }
    assert!(sparse_index_path("Cargo").is_err());
}

#[test]
fn wrong_index_paths_are_not_found() {
    for path in ["", "ca/rg/", "cargo", "ca/rg/other", "1/cargo", "/ca/rg/cargo", "2/a"] {
        assert!(matches!(crate_name_from_sparse_path(path), Err(AppError::NotFound)), "{}", path);
    }
    assert_eq!(
        bad_request(crate_name_from_sparse_path("Ca/rg/Cargo")),
        "crate name must start with an ASCII lowercase letter"
    );
}

#[test]
fn names_tarballs() {
    assert_eq!(crate_filename("liberte", "0.1.0-beta.1").unwrap(), "liberte-0.1.0-beta.1.crate");
    assert_eq!(versioned_filename("a", "b"), "a-b.crate");
    assert_eq!(bad_request(crate_filename("liberte", "1.0")), "crate version must be semver");
    assert_eq!(
        bad_request(crate_filename("Liberte", "1.0")),
        "crate name must start with an ASCII lowercase letter"
    );
}

#[test]
fn reads_versions() {
    let version = validate_release("liberte", "1.22.333-rc.1+build.5").unwrap();
    assert_eq!((version.major, version.minor, version.patch), (1, 22, 333));
    assert_eq!(version.pre, "rc.1");
    assert_eq!(version.build, "build.5");
    assert_eq!(version.key(), "1.22.333-rc.1");
    for bad in ["", "1", "1.2", "01.2.3", "1.2.3-", "1.2.3+", "1.2.3-01", "v1.2.3", "1.2.3/4"] {
        assert_eq!(bad_request(validate_release("liberte", bad)), "crate version must be semver");
    }
}

#[test]
fn keys_are_written_as_versions_are() {
    for text in ["0.0.0", "1.2.3", "10.20.30-a.b-c", "18446744073709551615.9.10+x", "1.0.0-a+b"] {
        let mut version = semver::Version::parse(text).unwrap();
        assert_eq!(version.to_string(), text);
        version.build = semver::BuildMetadata::EMPTY;
        assert_eq!(validate_release("a", text).unwrap().key(), version.to_string());
    }
}

#[test]
fn keys_ignore_build_metadata_only() {
    let key = |text: &str| validate_release("a", text).unwrap().key();
    assert_eq!(key("1.0.0+one"), key("1.0.0+two"));
    assert_eq!(key("1.0.0+one"), key("1.0.0"));
    assert_ne!(key("1.0.0-one"), key("1.0.0-two"));
    assert_ne!(key("1.0.1"), key("1.0.10"));
}
