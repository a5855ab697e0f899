use mini_crates::error::AppError;
use mini_crates::frame::{
    frame_publish_body, publish_metadata_bytes, read_u32_le, METADATA_ALLOWANCE,
};
use mini_crates::publish::{
    build_index_entry, crate_name_from_publish_body, declared_name, index_dependency,
    metadata_value, name_from_reading, normalize_publish, parse_publish_body, Feature, PublishDependency,
    PublishMetadata,
};
use serde_json::Value;

fn text(value: &str) -> Value {
    Value::String(value.to_owned())
}

fn object(members: Vec<(&str, Value)>) -> Value {
    let mut map = serde_json::Map::new();
    for (name, value) in members {
        map.insert(name.to_owned(), value);
    }
    Value::Object(map)
}

fn framed(metadata: &[u8], tarball: &[u8]) -> Vec<u8> {
    let mut body = Vec::new();
    body.extend_from_slice(&(metadata.len() as u32).to_le_bytes());
    body.extend_from_slice(metadata);
    body.extend_from_slice(&(tarball.len() as u32).to_le_bytes());
    body.extend_from_slice(tarball);
    body
}

fn bad_request<T>(result: Result<T, AppError>) -> String {
    match result.err() {
        Some(AppError::BadRequest(text)) => text,
        other => panic!("not a bad request: {:?}", other),
    }
}

fn plain_metadata(name: &str, vers: &str) -> PublishMetadata {
    PublishMetadata {
        name: name.to_owned(),
        vers: vers.to_owned(),
        deps: vec![],
        features: vec![],
        links: None,
        rust_version: None,
        description: None,
    }
}

fn dependency(alias: Option<&str>) -> PublishDependency {
    PublishDependency {
        name: "real_name".to_owned(),
        version_req: "^1".to_owned(),
        features: vec!["std".to_owned()],
        optional: false,
        default_features: true,
        target: None,
        kind: "normal".to_owned(),
        registry: Some("liberte".to_owned()),
        explicit_name_in_toml: alias.map(|name| name.to_owned()),
    }
}

#[test]
fn parses_cargo_publish_body() {
    let metadata = object(vec![
        ("name", text("liberte_shared")),
        ("vers", text("0.1.0-beta.1")),
        ("deps", Value::Array(vec![])),
        ("features", object(vec![])),
        ("links", Value::Null),
        ("rust_version", Value::Null),
    ])
    .to_string()
    .into_bytes();
    let tarball = b"fake-crate";
    let mut body = Vec::new();
    body.extend_from_slice(&(metadata.len() as u32).to_le_bytes());
    body.extend_from_slice(&metadata);
    body.extend_from_slice(&(tarball.len() as u32).to_le_bytes());
    body.extend_from_slice(tarball);

    let mut cursor = 0usize;
    let metadata_len = read_u32_le(&body, &mut cursor).unwrap();
    assert_eq!(metadata_len as usize, metadata.len());
    cursor += metadata_len as usize;
    let crate_len = read_u32_le(&body, &mut cursor).unwrap();
    assert_eq!(crate_len as usize, tarball.len());

    assert_eq!(crate_name_from_publish_body(&body).unwrap(), "liberte_shared");
}

#[test]
fn maps_dependency_aliases_to_index_package_field() {
    let metadata = PublishMetadata {
        name: "liberte_shared".to_owned(),
        vers: "0.1.0".to_owned(),
        deps: vec![PublishDependency {
            name: "real_name".to_owned(),
            version_req: "^1".to_owned(),
            features: vec![],
            optional: false,
            default_features: true,
            target: None,
            kind: "normal".to_owned(),
            registry: None,
            explicit_name_in_toml: Some("alias_name".to_owned()),
        }],
        features: vec![],
        links: None,
        rust_version: None,
        description: None,
    };
    let entry = build_index_entry(&metadata, "abc");
    let dep = &entry["deps"][0];
    assert_eq!(dep["name"], "alias_name");
    assert_eq!(dep["package"], "real_name");
}

#[test]
fn reads_little_endian_numbers() {
    let bytes = [9u8, 0x78, 0x56, 0x34, 0x12];
    let mut cursor = 1usize;
    assert_eq!(read_u32_le(&bytes, &mut cursor).unwrap(), 0x12345678);
    assert_eq!(cursor, 5);
    assert_eq!(bad_request(read_u32_le(&bytes, &mut cursor)), "publish body too short");
    assert_eq!(cursor, 5);
    let mut far = usize::MAX;
    assert_eq!(bad_request(read_u32_le(&bytes, &mut far)), "publish body too short");
    assert_eq!(read_u32_le(&[0xff, 0xff, 0xff, 0xff], &mut 0).unwrap(), u32::MAX);
}

#[test]
fn takes_requests_apart() {
    let body = framed(b"{}", b"tar");
    let frame = frame_publish_body(&body, 100).ok().unwrap();
    assert_eq!(frame.metadata, b"{}");
    assert_eq!(frame.tarball, b"tar");
    assert_eq!(publish_metadata_bytes(&body).unwrap(), b"{}");
    let empty = framed(b"", b"");
    let frame = frame_publish_body(&empty, 0).ok().unwrap();
    assert!(frame.metadata.is_empty() && frame.tarball.is_empty());
}

#[test]
fn refuses_broken_frames() {
    let refused = |body: &[u8], max: usize| bad_request(frame_publish_body(body, max));
    assert_eq!(refused(&[], 10), "publish body too short");
    assert_eq!(refused(&[1, 0, 0], 10), "publish body too short");
    assert_eq!(refused(&[5, 0, 0, 0, 1], 10), "publish metadata length mismatch");
    assert_eq!(refused(&[1, 0, 0, 0, 1, 0, 0], 10), "publish body too short");
    assert_eq!(refused(&[0, 0, 0, 0, 2, 0, 0, 0, 7], 10), "crate tarball length mismatch");
    let mut trailing = framed(b"{}", b"tar");
    trailing.push(0);
    assert_eq!(refused(&trailing, 10), "publish body contains trailing data");
    assert_eq!(refused(&framed(b"{}", b"tar"), 2), "crate tarball too large");
    assert!(frame_publish_body(&framed(b"{}", b"tar"), 3).is_ok());
    let huge = vec![0u8; METADATA_ALLOWANCE + 6];
    assert_eq!(refused(&huge, 5), "publish payload too large");
    assert_eq!(refused(&huge, 6), "publish body contains trailing data");
}

#[test]
fn finds_the_declared_name() {
    assert_eq!(crate_name_from_publish_body(&framed(b"{\"name\":\"a\"}", b"")).unwrap(), "a");
    // The rest of the request is not looked at.
    assert_eq!(crate_name_from_publish_body(&framed(b"{\"name\":\"a\"}", b"")[..16]).unwrap(), "a");
    let refused = |body: &[u8]| bad_request(crate_name_from_publish_body(body));
    assert_eq!(refused(b"abc"), "publish body too short");
    assert_eq!(refused(&[1, 0, 0, 0]), "publish metadata length mismatch");
    assert_eq!(refused(&[0xff, 0xff, 0xff, 0xff]), "publish metadata length mismatch");
    assert_eq!(refused(&framed(b"{", b"")), "invalid publish metadata JSON");
    assert_eq!(refused(&framed(b"{}", b"")), "publish metadata missing name");
    assert_eq!(refused(&framed(b"{\"name\":1}", b"")), "publish metadata missing name");
    assert_eq!(refused(&framed(b"[\"name\"]", b"")), "publish metadata missing name");
    assert_eq!(bad_request(declared_name(&Value::Null)), "publish metadata missing name");
    assert_eq!(name_from_reading(serde_json::from_slice(b"{\"name\":\"c\"}")).unwrap(), "c");
    assert_eq!(
        bad_request(name_from_reading(serde_json::from_slice(b"nul"))),
        "invalid publish metadata JSON"
    );
    assert_eq!(declared_name(&object(vec![("name", text("b"))])).unwrap(), "b");
}

#[test]
fn builds_index_entries() {
    let mut metadata = plain_metadata("liberte", "1.0.0+x");
    metadata.deps = vec![dependency(None), dependency(Some("alias"))];
    metadata.features = vec![
        Feature { name: "default".to_owned(), enables: vec!["std".to_owned()] },
        Feature { name: "std".to_owned(), enables: vec![] },
        Feature { name: "default".to_owned(), enables: vec![] },
    ];
    metadata.links = Some("git2".to_owned());
    metadata.rust_version = Some("1.70".to_owned());
    let listed = |name: &str, package: Value| {
        object(vec![
            ("name", text(name)),
            ("req", text("^1")),
            ("features", Value::Array(vec![text("std")])),
            ("optional", Value::Bool(false)),
            ("default_features", Value::Bool(true)),
            ("target", Value::Null),
            ("kind", text("normal")),
            ("registry", text("liberte")),
            ("package", package),
        ])
    };
    let expected = object(vec![
        ("name", text("liberte")),
        ("vers", text("1.0.0+x")),
        (
            "deps",
            Value::Array(vec![listed("real_name", Value::Null), listed("alias", text("real_name"))]),
        ),
        ("cksum", text("abc")),
        (
            "features",
            object(vec![("default", Value::Array(vec![])), ("std", Value::Array(vec![]))]),
        ),
        ("yanked", Value::Bool(false)),
        ("links", text("git2")),
        ("v", Value::Number(2.into())),
        ("rust_version", text("1.70")),
    ]);
    assert_eq!(build_index_entry(&metadata, "abc"), expected);
}

#[test]
fn lists_dependencies() {
    let plain = index_dependency(&dependency(None));
    assert_eq!(plain.name, "real_name");
    assert_eq!(plain.package, None);
    let renamed = index_dependency(&dependency(Some("alias")));
    assert_eq!(renamed.name, "alias");
    assert_eq!(renamed.package.as_deref(), Some("real_name"));
    assert_eq!(renamed.req, "^1");
    assert_eq!(renamed.features, vec!["std".to_owned()]);
    assert_eq!(renamed.registry.as_deref(), Some("liberte"));
}

#[test]
fn stores_metadata_as_requested() {
    let mut metadata = plain_metadata("liberte", "1.0.0");
    metadata.deps = vec![dependency(Some("alias"))];
    metadata.description = Some("shared".to_owned());
    let expected = object(vec![
        ("name", text("liberte")),
        ("vers", text("1.0.0")),
        (
            "deps",
            Value::Array(vec![object(vec![
                ("name", text("real_name")),
                ("version_req", text("^1")),
                ("features", Value::Array(vec![text("std")])),
                ("optional", Value::Bool(false)),
                ("default_features", Value::Bool(true)),
                ("target", Value::Null),
                ("kind", text("normal")),
                ("registry", text("liberte")),
                ("explicit_name_in_toml", text("alias")),
            ])]),
        ),
        ("features", object(vec![])),
        ("links", Value::Null),
        ("rust_version", Value::Null),
        ("description", text("shared")),
    ]);
    assert_eq!(metadata_value(&metadata), expected);
}

#[test]
fn reads_publish_requests() {
    let body = framed(b"{}", b"abc");
    let publish = parse_publish_body(&body, 100, |bytes: &[u8]| {
        assert_eq!(bytes, b"{}");
        Some(plain_metadata("liberte-shared", "1.0.0-rc.1+build"))
    })
    .ok()
    .unwrap();
    assert_eq!(publish.name, "liberte-shared");
    assert_eq!(publish.normalized_name, "liberte_shared");
    assert_eq!(publish.version, "1.0.0-rc.1+build");
    assert_eq!(publish.semver_key, "1.0.0-rc.1");
    assert_eq!(publish.crate_bytes, b"abc");
    assert_eq!(
        publish.checksum_sha256,
        "ba7816bf8f01cfea414140de5dae2223b00361a396177a9cb410ff61f20015ad"
    );
    assert_eq!(
        publish.object_key,
        "crates/liberte_shared/1.0.0-rc.1+build/ba7816bf8f01cfea414140de/liberte-shared-1.0.0-rc.1+build.crate"
    );
    assert_eq!(publish.metadata["vers"], "1.0.0-rc.1+build");
    assert_eq!(publish.index_entry["cksum"], publish.checksum_sha256.as_str());
}

#[test]
fn refuses_publish_requests() {
    let body = framed(b"{}", b"abc");
    let refused = |decoded: Option<PublishMetadata>| {
        let frame = frame_publish_body(&body, 100).ok().unwrap();
        bad_request(normalize_publish(frame, decoded))
    };
    assert_eq!(refused(None), "invalid publish metadata JSON");
    assert_eq!(
        refused(Some(plain_metadata("Liberte", "1"))),
        "crate name must start with an ASCII lowercase letter"
    );
    assert_eq!(refused(Some(plain_metadata("liberte", "1"))), "crate version must be semver");
    assert_eq!(
        bad_request(parse_publish_body(b"", 100, |_: &[u8]| None)),
        "publish body too short"
    );
}
