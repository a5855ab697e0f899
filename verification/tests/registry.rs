use mini_crates::error::AppError;
use mini_crates::registry::{
    append_index_line, clamp_per_page, config_reply, download_reply, found_download, mark_yanked,
    ok_reply, publish_reply, render_sparse_index, search_reply, sparse_config, whoami_reply,
    yank_reply, CrateDownloadRecord, IndexVersionRow, SearchResult,
};
use serde_json::Value;

fn text(value: &str) -> Value {
    Value::String(value.to_owned())
}

fn object(members: Vec<(&str, Value)>) -> Value {
    let mut map = serde_json::Map::new();
    for (name, value) in members {
        map.insert(name.to_owned(), value);
    }
    Value::Object(map)
}

#[test]
fn configuration_ignores_trailing_slashes() {
    for url in ["https://crates.example", "https://crates.example/", "https://crates.example///"] {
        let config = sparse_config(url);
        assert_eq!(config.api, "https://crates.example");
        assert_eq!(
            config.dl,
            "https://crates.example/api/v1/crates/{crate}/{version}/download"
        );
        assert!(config.auth_required);
    }
    assert_eq!(sparse_config("//").api, "");
    let reply = config_reply(&sparse_config("http://a/"));
    assert_eq!(
        reply,
        object(vec![
            ("dl", text("http://a/api/v1/crates/{crate}/{version}/download")),
            ("api", text("http://a")),
            ("auth-required", Value::Bool(true)),
        ])
    );
}

#[test]
fn index_has_a_line_for_each_version() {
    let rows = vec![
        IndexVersionRow {
            index_entry: object(vec![("vers", text("1.0.0")), ("yanked", Value::Bool(false))]),
            yanked: true,
        },
        IndexVersionRow {
            index_entry: object(vec![("vers", text("line\nfeed")), ("name", text("a"))]),
            yanked: false,
        },
    ];
    assert_eq!(
        render_sparse_index(Some(rows)).unwrap(),
        "{\"vers\":\"1.0.0\",\"yanked\":true}\n{\"name\":\"a\",\"vers\":\"line\\nfeed\",\"yanked\":false}\n"
    );
    assert_eq!(render_sparse_index(Some(vec![])).unwrap(), "");
}

#[test]
fn index_can_be_missing_or_broken() {
    assert!(matches!(render_sparse_index(None), Err(AppError::NotFound)));
    let rows = vec![
        IndexVersionRow { index_entry: object(vec![]), yanked: false },
        IndexVersionRow { index_entry: Value::Null, yanked: false },
    ];
    match render_sparse_index(Some(rows)) {
        Err(AppError::Internal(text)) => {
            assert_eq!(text, "stored crate index entry is not an object")
        }
        other => panic!("{:?}", other),
    }
    let mut output = "a".to_owned();
    match append_index_line(&mut output, Err("boom".to_owned())) {
        Err(AppError::Internal(text)) => assert_eq!(text, "failed to encode index entry: boom"),
        other => panic!("{:?}", other),
    }
    assert_eq!(output, "a");
    append_index_line(&mut output, Ok("b".to_owned())).unwrap();
    assert_eq!(output, "ab\n");
}

#[test]
fn yanking_can_be_undone() {
    let fresh = object(vec![("vers", text("1.0.0")), ("yanked", Value::Bool(false))]);
    let mut entry = fresh.clone();
    mark_yanked(&mut entry, true).unwrap();
    assert_eq!(entry["yanked"], true);
    mark_yanked(&mut entry, false).unwrap();
    assert_eq!(entry, fresh);
    let mut broken = Value::Array(vec![]);
    assert!(mark_yanked(&mut broken, true).is_err());
    assert_eq!(broken, Value::Array(vec![]));
}

#[test]
fn hands_out_tarballs() {
    let download = download_reply("liberte-1.0.0.crate", b"abc".to_vec()).ok().unwrap();
    assert_eq!(download.bytes, b"abc");
    assert_eq!(download.content_type, "application/octet-stream");
    assert_eq!(
        download.content_disposition,
        b"attachment; filename=\"liberte-1.0.0.crate\"".to_vec()
    );
    match download_reply("line\nfeed", vec![]).err() {
        Some(AppError::Internal(text)) => assert_eq!(text, "invalid crate filename"),
        other => panic!("{:?}", other),
    }
    assert!(download_reply("del\u{7f}", vec![]).is_err());
    assert!(download_reply("tab\t\u{e9}", vec![]).is_ok());
}

#[test]
fn missing_downloads_are_not_found() {
    assert!(matches!(found_download(None).err(), Some(AppError::NotFound)));
    let record = CrateDownloadRecord { object_key: "k".to_owned(), filename: "f".to_owned() };
    assert_eq!(found_download(Some(record)).ok().unwrap().object_key, "k");
}

#[test]
fn answers_requests() {
    assert_eq!(ok_reply(), object(vec![("ok", Value::Bool(true))]));
    assert_eq!(yank_reply(true).unwrap(), ok_reply());
    assert!(matches!(yank_reply(false), Err(AppError::NotFound)));
    assert_eq!(
        publish_reply().to_string(),
        "{\"ok\":true,\"warnings\":{\"invalid_badges\":[],\"invalid_categories\":[],\"other\":[]}}"
    );
    assert_eq!(
        whoami_reply("token", true),
        object(vec![("username", text("token")), ("bootstrap", Value::Bool(true))])
    );
}

#[test]
fn pages_are_bounded() {
    assert_eq!(clamp_per_page(0), 1);
    assert_eq!(clamp_per_page(1), 1);
    assert_eq!(clamp_per_page(42), 42);
    assert_eq!(clamp_per_page(100), 100);
    assert_eq!(clamp_per_page(u64::MAX), 100);
}

#[test]
fn shows_what_was_found() {
    let rows = vec![
        SearchResult {
            name: "a".to_owned(),
            max_version: "1.0.0".to_owned(),
            description: Some("first".to_owned()),
        },
        SearchResult { name: "b".to_owned(), max_version: "2.0.0".to_owned(), description: None },
    ];
    assert_eq!(
        search_reply(rows).to_string(),
        "{\"crates\":[{\"description\":\"first\",\"max_version\":\"1.0.0\",\"name\":\"a\"},{\"description\":null,\"max_version\":\"2.0.0\",\"name\":\"b\"}],\"meta\":{\"total\":null}}"
    );
}
