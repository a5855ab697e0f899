use mini_crates::error::AppError;
use mini_crates::publish::{normalize_publish, NormalizedPublish, PublishMetadata};
use mini_crates::frame::frame_publish_body;
use mini_crates::publish_flow::{
    continue_publish, start_publish, PublishAction, PublishEvent, PublishFinalizeInput,
    PublishStartInput, PublishState,
};
use mini_crates::registry::{publish_reply, IndexVersionRow};
use mini_crates::repo::{
    begin_publish, continue_task, finalize_publish, find_download, index_versions, mark_failed,
    set_yanked, DbCommand, DbEvent, RepoOutcome, RepoStep, RepoTask,
};
use mini_crates::schema::schema_statements;
use mini_crates::statements::{
    find_download_statement, index_versions_statement, record_event, search_statement, SqlParam,
    SqlStatement, FAIL_VERSION, FINALIZE_VERSION, INSERT_VERSION, RECORD_EVENT, SEARCH_CRATES,
    SELECT_DOWNLOAD, SELECT_INDEX, SET_YANKED, UPSERT_CRATE,
};
use serde_json::Value;

fn shown(statement: &SqlStatement) -> Vec<String> {
    statement
        .params
        .iter()
        .map(|param| match param {
            SqlParam::Text(text) => format!("text {}", text),
            SqlParam::OptionalText(text) => format!("optional {:?}", text),
            SqlParam::BigInt(number) => format!("number {}", number),
            SqlParam::Flag(flag) => format!("flag {}", flag),
            SqlParam::Document(value) => format!("document {}", value),
        })
        .collect()
}

fn start_input() -> PublishStartInput {
    PublishStartInput {
        name: "a-b".to_owned(),
        normalized_name: "a_b".to_owned(),
        version: "1.0.0+x".to_owned(),
        semver_key: "1.0.0".to_owned(),
        metadata: Value::Bool(true),
        index_entry: Value::Bool(false),
        publisher_token_id: "token".to_owned(),
    }
}

fn finalize_input() -> PublishFinalizeInput {
    PublishFinalizeInput {
        version_id: 7,
        object_key: "key".to_owned(),
        checksum_sha256: "sum".to_owned(),
        size_bytes: 3,
    }
}

fn run(task: RepoTask, event: DbEvent) -> (RepoTask, DbCommand) {
    match continue_task(task, event) {
        RepoStep::Run(task, command) => (task, command),
        RepoStep::Return(_) => panic!("returned early"),
    }
}

fn statement(command: DbCommand) -> SqlStatement {
    match command {
        DbCommand::UpsertCrate(statement)
        | DbCommand::InsertVersion(statement)
        | DbCommand::FinalizeVersion(statement)
        | DbCommand::FailVersion(statement)
        | DbCommand::SetYanked(statement)
        | DbCommand::RecordEvent(statement) => statement,
        _ => panic!("not a statement"),
    }
}

fn publish() -> NormalizedPublish {
    let body = [2, 0, 0, 0, b'{', b'}', 3, 0, 0, 0, b'a', b'b', b'c'];
    let frame = frame_publish_body(&body, 100).ok().unwrap();
    let metadata = PublishMetadata {
        name: "a-b".to_owned(),
        vers: "1.0.0+x".to_owned(),
        deps: vec![],
        features: vec![],
        links: None,
        rust_version: None,
        description: None,
    };
    normalize_publish(frame, Some(metadata)).ok().unwrap()
}

#[test]
fn reserving_is_recorded_and_kept() {
    let (task, command) = begin_publish(start_input());
    assert!(matches!(command, DbCommand::Begin));
    let (task, command) = run(task, DbEvent::Done);
    assert!(matches!(command, DbCommand::UpsertCrate(_)));
    let upsert = statement(command);
    assert_eq!(upsert.sql, UPSERT_CRATE);
    assert_eq!(shown(&upsert), vec!["text a-b", "text a_b"]);
    let (task, command) = run(task, DbEvent::CrateId(5));
    assert!(matches!(command, DbCommand::InsertVersion(_)));
    let insert = statement(command);
    assert_eq!(insert.sql, INSERT_VERSION);
    assert_eq!(
        shown(&insert),
        vec![
            "number 5",
            "text 1.0.0+x",
            "text 1.0.0",
            "document true",
            "document false",
            "text token"
        ]
    );
    let (task, command) = run(task, DbEvent::VersionId(Some(9)));
    let event = statement(command);
    assert_eq!(event.sql, RECORD_EVENT);
    assert_eq!(
        shown(&event),
        vec![
            "text publish_started",
            "optional Some(\"token\")",
            "optional Some(\"a-b\")",
            "optional Some(\"1.0.0+x\")",
            "document {}"
        ]
    );
    let (task, command) = run(task, DbEvent::Affected(1));
    assert!(matches!(command, DbCommand::Commit));
    assert!(matches!(
        continue_task(task, DbEvent::Done),
        RepoStep::Return(RepoOutcome::Reserved(Some(9)))
    ));
}

#[test]
fn taken_keys_are_rolled_back() {
    let (task, _) = begin_publish(start_input());
    let (task, _) = run(task, DbEvent::Done);
    let (task, _) = run(task, DbEvent::CrateId(5));
    let (task, command) = run(task, DbEvent::VersionId(None));
    assert!(matches!(command, DbCommand::Rollback));
    assert!(matches!(
        continue_task(task, DbEvent::Done),
        RepoStep::Return(RepoOutcome::Reserved(None))
    ));
}

#[test]
fn finalizing_is_recorded_and_kept() {
    let (task, command) = finalize_publish(finalize_input());
    assert!(matches!(command, DbCommand::Begin));
    let (task, command) = run(task, DbEvent::Done);
    assert!(matches!(command, DbCommand::FinalizeVersion(_)));
    let update = statement(command);
    assert_eq!(update.sql, FINALIZE_VERSION);
    assert_eq!(shown(&update), vec!["number 7", "text key", "text sum", "number 3"]);
    let ready = DbEvent::Ready {
        version: "1.0.0".to_owned(),
        publisher_token_id: Some("token".to_owned()),
    };
    let (task, command) = run(task, ready);
    assert_eq!(
        shown(&statement(command)),
        vec![
            "text publish_ready",
            "optional Some(\"token\")",
            "optional None",
            "optional Some(\"1.0.0\")",
            "document {\"checksum_sha256\":\"sum\",\"object_key\":\"key\",\"size_bytes\":3}"
        ]
    );
    let (task, command) = run(task, DbEvent::Affected(1));
    assert!(matches!(command, DbCommand::Commit));
    assert!(matches!(continue_task(task, DbEvent::Done), RepoStep::Return(RepoOutcome::Finalized)));
}

#[test]
fn failures_are_noted() {
    let (task, command) = mark_failed(7, "lost".to_owned());
    let update = statement(command);
    assert_eq!(update.sql, FAIL_VERSION);
    assert_eq!(shown(&update), vec!["number 7"]);
    let (task, command) = run(task, DbEvent::Affected(0));
    assert_eq!(
        shown(&statement(command)),
        vec![
            "text publish_failed",
            "optional None",
            "optional None",
            "optional None",
            "document {\"reason\":\"lost\",\"version_id\":7}"
        ]
    );
    assert!(matches!(
        continue_task(task, DbEvent::Affected(1)),
        RepoStep::Return(RepoOutcome::FailureNoted)
    ));
}

#[test]
fn yanking_is_recorded_and_kept() {
    for (yanked, event) in [(true, "text yanked"), (false, "text unyanked")] {
        let (task, command) = set_yanked("a", "1.0.0", yanked);
        assert!(matches!(command, DbCommand::Begin));
        let (task, command) = run(task, DbEvent::Done);
        let update = statement(command);
        assert_eq!(update.sql, SET_YANKED);
        assert_eq!(
            shown(&update),
            vec!["text a".to_owned(), "text 1.0.0".to_owned(), format!("flag {}", yanked)]
        );
        let (task, command) = run(task, DbEvent::Affected(1));
        assert_eq!(
            shown(&statement(command)),
            vec![
                event,
                "optional None",
                "optional Some(\"a\")",
                "optional Some(\"1.0.0\")",
                "document {}"
            ]
        );
        let (task, command) = run(task, DbEvent::Affected(1));
        assert!(matches!(command, DbCommand::Commit));
        assert!(matches!(
            continue_task(task, DbEvent::Done),
            RepoStep::Return(RepoOutcome::Yanked(true))
        ));
    }
}

#[test]
fn yanking_nothing_is_rolled_back() {
    let (task, _) = set_yanked("a", "1.0.0", true);
    let (task, _) = run(task, DbEvent::Done);
    let (task, command) = run(task, DbEvent::Affected(0));
    assert!(matches!(command, DbCommand::Rollback));
    assert!(matches!(
        continue_task(task, DbEvent::Done),
        RepoStep::Return(RepoOutcome::Yanked(false))
    ));
}

#[test]
fn queries_are_given_their_values() {
    let index = index_versions_statement("a");
    assert_eq!((index.sql, shown(&index)), (SELECT_INDEX, vec!["text a".to_owned()]));
    let download = find_download_statement("a", "1.0.0");
    assert_eq!(download.sql, SELECT_DOWNLOAD);
    assert_eq!(shown(&download), vec!["text a", "text 1.0.0"]);
    let search = search_statement("lib", 20);
    assert_eq!(search.sql, SEARCH_CRATES);
    assert_eq!(shown(&search), vec!["text %lib%", "number 20"]);
    assert_eq!(shown(&search_statement("", u64::MAX)), vec!["text %%", "number -1"]);
    let event = record_event("seen", None, None, None, Value::Null);
    assert_eq!(event.sql, RECORD_EVENT);
    assert_eq!(
        shown(&event),
        vec!["text seen", "optional None", "optional None", "optional None", "document null"]
    );
}

#[test]
fn rows_become_records() {
    assert!(index_versions(vec![]).is_none());
    let row = IndexVersionRow { index_entry: Value::Null, yanked: true };
    let rows = index_versions(vec![row]).unwrap();
    assert!(rows.len() == 1 && rows[0].yanked);
    assert!(find_download("a", "1.0.0", None).is_none());
    let record = find_download("a", "1.0.0", Some("key".to_owned())).unwrap();
    assert_eq!((record.object_key.as_str(), record.filename.as_str()), ("key", "a-1.0.0.crate"));
}

#[test]
fn schema_is_in_order() {
    let statements = schema_statements();
    assert_eq!(statements.len(), 8);
    assert!(statements[0].contains("CREATE TABLE IF NOT EXISTS tokens"));
    assert!(statements[3].contains("UNIQUE (crate_id, semver_key)"));
    assert!(statements[7].ends_with("WHERE status = 'ready'"));
}

#[test]
fn publishes_take_their_course() {
    let (state, action) = start_publish(publish(), "token".to_owned());
    match action {
        PublishAction::Reserve(input) => {
            assert_eq!(input.name, "a-b");
            assert_eq!(input.normalized_name, "a_b");
            assert_eq!(input.semver_key, "1.0.0");
            assert_eq!(input.publisher_token_id, "token");
            assert_eq!(input.index_entry["name"], "a-b");
            assert_eq!(input.metadata["vers"], "1.0.0+x");
        }
        _ => panic!("not reserved"),
    }
    let (state, action) = continue_publish(state, PublishEvent::Reserved(Some(9)));
    match action {
        PublishAction::Store { object_key, crate_bytes } => {
            assert!(object_key.ends_with("/a-b-1.0.0+x.crate"));
            assert_eq!(crate_bytes, b"abc");
        }
        _ => panic!("not stored"),
    }
    let (state, action) = continue_publish(state, PublishEvent::Stored);
    match action {
        PublishAction::Finalize(input) => {
            assert_eq!((input.version_id, input.size_bytes), (9, 3));
            assert!(input.checksum_sha256.starts_with("ba7816bf"));
        }
        _ => panic!("not finalized"),
    }
    let (state, action) = continue_publish(state, PublishEvent::Finalized);
    assert!(matches!(action, PublishAction::Reply(reply) if reply == publish_reply()));
    assert!(matches!(state, PublishState::Finished));
}

#[test]
fn publishes_can_fail() {
    let (state, _) = start_publish(publish(), "token".to_owned());
    let (_, action) = continue_publish(state, PublishEvent::Reserved(None));
    assert!(matches!(
        action,
        PublishAction::Refuse(AppError::Conflict(text)) if text == "a-b 1.0.0+x already exists"
    ));
    let (state, _) = start_publish(publish(), "token".to_owned());
    let (_, action) = continue_publish(state, PublishEvent::ReserveFailed);
    assert!(matches!(action, PublishAction::PassError));
    let (state, _) = start_publish(publish(), "token".to_owned());
    let (state, _) = continue_publish(state, PublishEvent::Reserved(Some(9)));
    let (state, action) =
        continue_publish(state, PublishEvent::StoreFailed { reason: "lost".to_owned() });
    assert!(matches!(
        action,
        PublishAction::NoteFailure { version_id: 9, reason } if reason == "lost"
    ));
    let (_, action) = continue_publish(state, PublishEvent::FailureNoted);
    assert!(matches!(action, PublishAction::PassError));
    let (_, action) = continue_publish(PublishState::Finalizing, PublishEvent::FinalizeFailed);
    assert!(matches!(action, PublishAction::PassError));
}

#[test]
fn copies_hold_the_same() {
    let mut input = start_input();
    input.metadata = serde_json::from_str("{\"description\":\"d\",\"deps\":[1,null]}").unwrap();
    let copy = input.clone();
    assert_eq!((&copy.name, &copy.normalized_name), (&input.name, &input.normalized_name));
    assert_eq!((&copy.version, &copy.semver_key), (&input.version, &input.semver_key));
    assert_eq!((&copy.metadata, &copy.index_entry), (&input.metadata, &input.index_entry));
    assert_eq!(copy.publisher_token_id, input.publisher_token_id);
    let row = IndexVersionRow { index_entry: input.metadata, yanked: true };
    let copy = row.clone();
    assert_eq!(copy.index_entry, row.index_entry);
    assert!(copy.yanked);
}
