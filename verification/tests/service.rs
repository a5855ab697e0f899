use mini_crates::crate_name::validate_release;
use mini_crates::error::AppError;
use mini_crates::registry::{ok_reply, CrateDownloadRecord, IndexVersionRow};
use mini_crates::service_flow::{
    begin_download, begin_yank, continue_download, continue_index, continue_yank, start_download,
    start_index, start_yank, DownloadAction, DownloadEvent, DownloadState, IndexAction,
    IndexEvent, IndexState, YankAction, YankEvent, YankState,
};
use serde_json::Value;

fn record(filename: &str) -> CrateDownloadRecord {
    CrateDownloadRecord { object_key: "key".to_owned(), filename: filename.to_owned() }
}

#[test]
fn index_requests_take_their_course() {
    let (state, action) = start_index("a-b");
    assert!(matches!(action, IndexAction::List { crate_name } if crate_name == "a-b"));
    let row: Value = serde_json::from_str("{\"name\":\"a-b\",\"yanked\":false}").unwrap();
    let rows = vec![IndexVersionRow { index_entry: row, yanked: true }];
    let (state, action) = continue_index(state, IndexEvent::Listed(Some(rows)));
    assert!(matches!(state, IndexState::Finished));
    match action {
        IndexAction::Reply(output) => {
            assert_eq!(output, "{\"name\":\"a-b\",\"yanked\":true}\n");
        }
        _ => panic!("no index"),
    }
}

#[test]
fn index_requests_can_fail() {
    let (state, action) = start_index("-a");
    assert!(matches!(state, IndexState::Finished));
    assert!(matches!(action, IndexAction::Refuse(AppError::BadRequest(_))));
    let (_, action) = continue_index(start_index("a").0, IndexEvent::Listed(None));
    assert!(matches!(action, IndexAction::Refuse(AppError::NotFound)));
    let rows = vec![IndexVersionRow { index_entry: Value::Null, yanked: false }];
    let (_, action) = continue_index(start_index("a").0, IndexEvent::Listed(Some(rows)));
    assert!(matches!(action, IndexAction::Refuse(AppError::Internal(_))));
    let (_, action) = continue_index(start_index("a").0, IndexEvent::ListFailed);
    assert!(matches!(action, IndexAction::PassError));
}

#[test]
fn downloads_take_their_course() {
    let (state, action) = start_download("a", "1.0.0");
    assert!(matches!(
        action,
        DownloadAction::Find { crate_name, version } if crate_name == "a" && version == "1.0.0"
    ));
    let (state, action) =
        continue_download(state, DownloadEvent::Found(Some(record("a-1.0.0.crate"))));
    assert!(matches!(action, DownloadAction::Fetch { object_key } if object_key == "key"));
    let (state, action) = continue_download(state, DownloadEvent::Fetched(b"abc".to_vec()));
    assert!(matches!(state, DownloadState::Finished));
    match action {
        DownloadAction::Reply(download) => {
            assert_eq!(download.bytes, b"abc");
            assert_eq!(download.content_type, "application/octet-stream");
            assert_eq!(
                download.content_disposition,
                b"attachment; filename=\"a-1.0.0.crate\"".to_vec()
            );
        }
        _ => panic!("no tarball"),
    }
}

#[test]
fn downloads_can_fail() {
    for (name, version) in [("-a", "1.0.0"), ("a", "1.0"), ("a", "latest")] {
        let (state, action) = start_download(name, version);
        assert!(matches!(state, DownloadState::Finished));
        assert!(matches!(action, DownloadAction::Refuse(AppError::BadRequest(_))));
    }
    let (_, action) = continue_download(start_download("a", "1.0.0").0, DownloadEvent::Found(None));
    assert!(matches!(action, DownloadAction::Refuse(AppError::NotFound)));
    let (_, action) = continue_download(start_download("a", "1.0.0").0, DownloadEvent::FindFailed);
    assert!(matches!(action, DownloadAction::PassError));
    let fetching = DownloadState::Fetching { filename: "a".to_owned() };
    let (_, action) = continue_download(fetching, DownloadEvent::FetchFailed);
    assert!(matches!(action, DownloadAction::PassError));
    let fetching = DownloadState::Fetching { filename: "a\nb".to_owned() };
    let (_, action) = continue_download(fetching, DownloadEvent::Fetched(vec![]));
    assert!(matches!(
        action,
        DownloadAction::Refuse(AppError::Internal(text)) if text == "invalid crate filename"
    ));
}

#[test]
fn yanks_take_their_course() {
    for mark in [true, false] {
        let (state, action) = start_yank("a", "1.0.0", mark);
        assert!(matches!(
            action,
            YankAction::Mark { crate_name, version, yanked }
                if crate_name == "a" && version == "1.0.0" && yanked == mark
        ));
        let (state, action) = continue_yank(state, YankEvent::Marked(true));
        assert!(matches!(state, YankState::Finished));
        assert!(matches!(action, YankAction::Reply(reply) if reply == ok_reply()));
    }
}

#[test]
fn yanks_can_fail() {
    let (state, action) = start_yank("a", "1", true);
    assert!(matches!(state, YankState::Finished));
    assert!(matches!(action, YankAction::Refuse(AppError::BadRequest(_))));
    let (_, action) = continue_yank(start_yank("a", "1.0.0", true).0, YankEvent::Marked(false));
    assert!(matches!(action, YankAction::Refuse(AppError::NotFound)));
    let (_, action) = continue_yank(start_yank("a", "1.0.0", true).0, YankEvent::MarkFailed);
    assert!(matches!(action, YankAction::PassError));
}

#[test]
fn checks_decide_how_requests_begin() {
    let (_, action) = begin_download("a", "1.0.0", validate_release("a", "1.0.0"));
    assert!(matches!(action, DownloadAction::Find { .. }));
    let (_, action) = begin_download("a", "1.0.0", Err(AppError::NotFound));
    assert!(matches!(action, DownloadAction::Refuse(AppError::NotFound)));
    let (_, action) = begin_yank("a", "1.0.0", true, Err(AppError::NotFound));
    assert!(matches!(action, YankAction::Refuse(AppError::NotFound)));
}
