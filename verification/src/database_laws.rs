//! What holds of what the database is asked to do: the statements, word for word,
//! with the values that stand in their places, and the order in which they come.

use crate::publish_flow::{PublishFinalizeInput, PublishStartInput};
use crate::registry::{CrateDownloadRecord, IndexVersionRow, SearchResult};
use crate::repo::{
    begin_publish, continue_task, finalize_publish, find_download, index_versions, mark_failed,
    set_yanked, DbCommand, DbEvent, RepoOutcome, RepoStep, RepoTask,
};
use crate::schema::schema_statements;
use crate::service_flow::{start_yank, YankAction, YankState};
use crate::statements::{
    find_download_statement, index_versions_statement, record_event, search_statement, SqlParam,
    SqlStatement,
};
use serde_json::Value;
use vstd::prelude::*;
use vstd::string::*;

verus! {

use crate::json::{document, no_members, Json};
use crate::name_laws::{lemma_names, names_a_crate};
use crate::repo::{failure_payload, ready_payload};
use crate::search::{
    finds_crates, is_found, is_plain, is_ready_of, law_search_is_by_part, stands_at, Locale,
};
use crate::tables::{
    at_rest, comes_to, has_ready, is_ready, law_yank_marks_the_version, number_at, text_at,
    Database, Tables,
};
use crate::version::semver_reading;

/// The text in a string, where there is one.
pub open spec fn text_of(text: Option<String>) -> Option<Seq<char>> {
    match text {
        Some(text) => Some(text@),
        None => None,
    }
}

/// The value is the text.
pub open spec fn is_text(value: SqlParam, text: Seq<char>) -> bool {
    value matches SqlParam::Text(held) && held@ == text
}

/// The value is the text, or null where there is none.
pub open spec fn is_optional_text(value: SqlParam, text: Option<Seq<char>>) -> bool {
    &&& value matches SqlParam::OptionalText(held)
    &&& match (held, text) {
        (Some(held), Some(text)) => held@ == text,
        (None, None) => true,
        _ => false,
    }
}

/// The value is the number.
pub open spec fn is_number(value: SqlParam, number: int) -> bool {
    value matches SqlParam::BigInt(held) && held == number
}

/// The value is the flag.
pub open spec fn is_flag(value: SqlParam, flag: bool) -> bool {
    value == SqlParam::Flag(flag)
}

/// The value is the document.
pub open spec fn is_document(value: SqlParam, content: Json) -> bool {
    value matches SqlParam::Document(held) && document(held) == content
}

/// The values of a statement are those that its view gives.
proof fn lemma_values(statement: SqlStatement)
    ensures
        statement@.params.len() == statement.params@.len(),
        forall|k: int|
            0 <= k < statement.params@.len() ==> (#[trigger] statement.params@[k])@
                == statement@.params[k],
        statement@.sql == statement.sql@,
{
}

/// The statement records the event.
pub open spec fn records(
    statement: SqlStatement,
    event_type: Seq<char>,
    actor: Option<Seq<char>>,
    crate_name: Option<Seq<char>>,
    crate_version: Option<Seq<char>>,
    payload: Json,
) -> bool {
    &&& statement.sql@ == r#"
INSERT INTO registry_events(event_type, actor_token_id, crate_name, crate_version, payload)
VALUES ($1, $2, $3, $4, $5)
"#@
    &&& statement.params@.len() == 5
    &&& is_text(statement.params@[0], event_type)
    &&& is_optional_text(statement.params@[1], actor)
    &&& is_optional_text(statement.params@[2], crate_name)
    &&& is_optional_text(statement.params@[3], crate_version)
    &&& is_document(statement.params@[4], payload)
}

/// An event is recorded in the events' table, each of its properties in its own
/// column.
pub proof fn law_events_are_recorded(
    event_type: &str,
    actor: Option<String>,
    crate_name: Option<String>,
    crate_version: Option<String>,
    payload: Value,
    statement: SqlStatement,
)
    requires
        call_ensures(
            record_event,
            (event_type, actor, crate_name, crate_version, payload),
            statement,
        ),
    ensures
        records(
            statement,
            event_type@,
            text_of(actor),
            text_of(crate_name),
            text_of(crate_version),
            document(payload),
        ),
{
    lemma_values(statement);
}

/// The index of a crate is read from the ready versions of the crate with that
/// name, in the order in which they were published.
pub proof fn law_index_is_read(name: &str, statement: SqlStatement)
    requires
        call_ensures(index_versions_statement, (name,), statement),
    ensures
        statement.sql@ == r#"
SELECT cv.index_entry, cv.yanked
FROM crate_versions cv
JOIN crates c ON c.id = cv.crate_id
WHERE c.name = $1
  AND cv.status = 'ready'
ORDER BY cv.published_at ASC
"#@,
        statement.params@.len() == 1,
        is_text(statement.params@[0], name@),
{
    lemma_values(statement);
}

/// The tarball of a version is looked up among the ready versions of the crate
/// with that name.
pub proof fn law_tarballs_are_looked_up(crate_name: &str, version: &str, statement: SqlStatement)
    requires
        call_ensures(find_download_statement, (crate_name, version), statement),
    ensures
        statement.sql@ == r#"
SELECT cv.object_key
FROM crate_versions cv
JOIN crates c ON c.id = cv.crate_id
WHERE c.name = $1
  AND cv.version = $2
  AND cv.status = 'ready'
"#@,
        statement.params@.len() == 2,
        is_text(statement.params@[0], crate_name@),
        is_text(statement.params@[1], version@),
{
    lemma_values(statement);
}

/// A search is for the whole text, with anything before and behind it, and for
/// as many crates as are asked for.
pub proof fn law_searches_are_for_the_text(
    query: &str,
    per_page: u64,
    statement: SqlStatement,
)
    requires
        call_ensures(search_statement, (query, per_page), statement),
    ensures
        statement.sql@ == r#"
SELECT c.name,
       cv.version AS max_version,
       cv.metadata->>'description' AS description
FROM crates c
JOIN LATERAL (
    SELECT version, metadata, published_at
    FROM crate_versions
    WHERE crate_id = c.id
      AND status = 'ready'
    ORDER BY published_at DESC
    LIMIT 1
) cv ON TRUE
WHERE c.name ILIKE $1
ORDER BY c.name ASC
LIMIT $2
"#@,
        statement.params@.len() == 2,
        is_text(statement.params@[0], seq!['%'] + query@ + seq!['%']),
        per_page <= i64::MAX ==> is_number(statement.params@[1], per_page as int),
{
    lemma_values(statement);
    reveal_strlit("%");
    assert("%"@ =~= seq!['%']);
}

/// A search whose text has no marks of patterns in it shows crates alone whose
/// names hold that text somewhere, but for case, and no more of them than were
/// asked for.
pub proof fn law_searches_show_names_with_the_text(
    query: &str,
    per_page: u64,
    statement: SqlStatement,
    tables: Tables,
    locale: Locale,
    found: Seq<int>,
    latest: Seq<int>,
    rows: Seq<SearchResult>,
    k: int,
)
    requires
        call_ensures(search_statement, (query, per_page), statement),
        per_page <= i64::MAX,
        is_plain(query@),
        finds_crates(tables, locale, statement@, found, latest, rows),
        0 <= k < rows.len(),
    ensures
        rows.len() <= per_page,
        exists|place: int| #[trigger] stands_at(locale, rows[k].name@, query@, place),
{
    assert(per_page as i64 == per_page);
    assert(is_found(tables, locale, found[k], "%"@ + query@ + "%"@));
    law_search_is_by_part(locale, rows[k].name@, query@);
}

/// A search whose text has no marks of patterns in it, and whose page is not
/// full, shows every crate that has a ready version and whose name holds the text
/// somewhere, but for case.
pub proof fn law_searches_show_every_name_with_the_text(
    query: &str,
    per_page: u64,
    statement: SqlStatement,
    tables: Tables,
    locale: Locale,
    found: Seq<int>,
    latest: Seq<int>,
    rows: Seq<SearchResult>,
    id: int,
    place: int,
)
    requires
        call_ensures(search_statement, (query, per_page), statement),
        per_page <= i64::MAX,
        is_plain(query@),
        finds_crates(tables, locale, statement@, found, latest, rows),
        rows.len() < per_page,
        tables.versions.dom().contains(id),
        tables.versions[id].status is Ready,
        tables.crates.dom().contains(tables.versions[id].crate_id),
        stands_at(locale, tables.crates[tables.versions[id].crate_id].name, query@, place),
    ensures
        exists|k: int|
            0 <= k < rows.len() && (#[trigger] rows[k]).name@
                == tables.crates[tables.versions[id].crate_id].name,
{
    let crate_id = tables.versions[id].crate_id;
    assert(per_page as i64 == per_page);
    assert(text_at(statement@, 0) == "%"@ + query@ + "%"@);
    assert(number_at(statement@, 1) == per_page);
    law_search_is_by_part(locale, tables.crates[crate_id].name, query@);
    assert(is_ready_of(tables, id, crate_id));
    assert(is_found(tables, locale, crate_id, "%"@ + query@ + "%"@));
    assert(found.contains(crate_id));
    let k = choose|k: int| 0 <= k < found.len() && found[k] == crate_id;
    assert(rows[k].name@ == tables.crates[found[k]].name);
}

/// An object without members.
pub open spec fn is_empty_object(content: Json) -> bool {
    content matches Json::Object(all) && forall|key: Seq<char>| !#[trigger] all.dom().contains(key)
}

/// The statement records the event, with nothing more to say of it.
pub open spec fn records_plainly(
    statement: SqlStatement,
    event_type: Seq<char>,
    actor: Option<Seq<char>>,
    crate_name: Seq<char>,
    crate_version: Seq<char>,
) -> bool {
    exists|payload: Json| #[trigger]
        records(statement, event_type, actor, Some(crate_name), Some(crate_version), payload)
            && is_empty_object(payload)
}

/// Reserving a version finds or makes the row of its crate by its name, adds the
/// version to it as being published unless its key is taken, and records that.
/// All this is kept together, and undone where the key is taken.
pub proof fn law_versions_are_reserved(
    input: PublishStartInput,
    start: (RepoTask, DbCommand),
    opened: RepoStep,
    crate_id: i64,
    added: RepoStep,
    reserved: Option<i64>,
    recorded: RepoStep,
    rows: u64,
    ending: RepoStep,
    last: RepoStep,
)
    requires
        call_ensures(begin_publish, (input,), start),
        call_ensures(continue_task, (start.0, DbEvent::Done), opened),
        call_ensures(continue_task, (opened->Run_0, DbEvent::CrateId(crate_id)), added),
        call_ensures(continue_task, (added->Run_0, DbEvent::VersionId(reserved)), recorded),
        reserved is Some ==> call_ensures(
            continue_task,
            (recorded->Run_0, DbEvent::Affected(rows)),
            ending,
        ),
        reserved is Some ==> call_ensures(continue_task, (ending->Run_0, DbEvent::Done), last),
        reserved is None ==> call_ensures(continue_task, (recorded->Run_0, DbEvent::Done), last),
    ensures
        start.1 is Begin,
        opened matches RepoStep::Run(_, DbCommand::UpsertCrate(upsert)) && upsert.sql@ == r#"
INSERT INTO crates(name, normalized_name)
VALUES ($1, $2)
ON CONFLICT (name) DO UPDATE SET name = EXCLUDED.name
RETURNING id
"#@
            && upsert.params@.len() == 2 && is_text(upsert.params@[0], input.name@) && is_text(
            upsert.params@[1],
            input.normalized_name@,
        ),
        added matches RepoStep::Run(_, DbCommand::InsertVersion(insert)) && insert.sql@ == r#"
INSERT INTO crate_versions(
    crate_id,
    version,
    semver_key,
    status,
    metadata,
    index_entry,
    publisher_token_id
)
VALUES ($1, $2, $3, 'publishing', $4, $5, $6)
ON CONFLICT (crate_id, semver_key) DO NOTHING
RETURNING id
"#@
            && insert.params@.len() == 6 && is_number(insert.params@[0], crate_id as int)
            && is_text(insert.params@[1], input.version@) && is_text(
            insert.params@[2],
            input.semver_key@,
        ) && is_document(insert.params@[3], document(input.metadata)) && is_document(
            insert.params@[4],
            document(input.index_entry),
        ) && is_text(insert.params@[5], input.publisher_token_id@),
        reserved is Some ==> (recorded matches RepoStep::Run(_, DbCommand::RecordEvent(event))
            && records_plainly(
            event,
            "publish_started"@,
            Some(input.publisher_token_id@),
            input.name@,
            input.version@,
        )),
        reserved is Some ==> (ending matches RepoStep::Run(_, command) && command is Commit),
        reserved is None ==> (recorded matches RepoStep::Run(_, command) && command is Rollback),
        last == RepoStep::Return(RepoOutcome::Reserved(reserved)),
{
    let upsert = opened->Run_1->UpsertCrate_0;
    lemma_values(upsert);
    let insert = added->Run_1->InsertVersion_0;
    lemma_values(insert);
    if reserved is Some {
        let event = recorded->Run_1->RecordEvent_0;
        lemma_values(event);
        let payload = no_members();
        assert(records(
            event,
            "publish_started"@,
            Some(input.publisher_token_id@),
            Some(input.name@),
            Some(input.version@),
            Json::Object(payload),
        ));
    }
}

/// The payload tells where the tarball is, its checksum and its size.
pub open spec fn tells_of_tarball(payload: Json, input: PublishFinalizeInput) -> bool {
    &&& payload matches Json::Object(all)
    &&& all["object_key"@] == Json::Text(input.object_key@)
    &&& all["checksum_sha256"@] == Json::Text(input.checksum_sha256@)
    &&& all["size_bytes"@] == Json::Integer(input.size_bytes as int)
    &&& forall|key: Seq<char>| #[trigger]
        all.dom().contains(key) <==> key == "object_key"@ || key == "checksum_sha256"@ || key
            == "size_bytes"@
}

/// Making a version ready changes that version, to ready, with the key, the
/// checksum and the size of its tarball, records that for its publisher, and
/// keeps both together.
pub proof fn law_versions_are_made_ready(
    input: PublishFinalizeInput,
    start: (RepoTask, DbCommand),
    opened: RepoStep,
    version: String,
    publisher: Option<String>,
    recorded: RepoStep,
    rows: u64,
    ending: RepoStep,
    last: RepoStep,
)
    requires
        call_ensures(finalize_publish, (input,), start),
        call_ensures(continue_task, (start.0, DbEvent::Done), opened),
        call_ensures(
            continue_task,
            (opened->Run_0, DbEvent::Ready { version, publisher_token_id: publisher }),
            recorded,
        ),
        call_ensures(continue_task, (recorded->Run_0, DbEvent::Affected(rows)), ending),
        call_ensures(continue_task, (ending->Run_0, DbEvent::Done), last),
    ensures
        start.1 is Begin,
        opened matches RepoStep::Run(_, DbCommand::FinalizeVersion(update)) && update.sql@ == r#"
UPDATE crate_versions
SET status = 'ready',
    object_key = $2,
    checksum_sha256 = $3,
    size_bytes = $4,
    published_at = now()
WHERE id = $1
RETURNING version, publisher_token_id
"#@
            && update.params@.len() == 4 && is_number(update.params@[0], input.version_id as int)
            && is_text(update.params@[1], input.object_key@) && is_text(
            update.params@[2],
            input.checksum_sha256@,
        ) && is_number(update.params@[3], input.size_bytes as int),
        recorded matches RepoStep::Run(_, DbCommand::RecordEvent(event)) && exists|
            payload: Json,
        | #[trigger]
            records(event, "publish_ready"@, text_of(publisher), None, Some(version@), payload)
                && tells_of_tarball(payload, input),
        ending matches RepoStep::Run(_, command) && command is Commit,
        last == RepoStep::Return(RepoOutcome::Finalized),
{
    lemma_values(opened->Run_1->FinalizeVersion_0);
    let event = recorded->Run_1->RecordEvent_0;
    lemma_values(event);
    let payload = ready_payload(input);
    reveal_strlit("object_key");
    reveal_strlit("checksum_sha256");
    reveal_strlit("size_bytes");
    assert("object_key"@.len() == 10 && "checksum_sha256"@.len() == 15 && "size_bytes"@.len() == 10);
    assert("object_key"@[0] == 'o' && "size_bytes"@[0] == 's');
    assert(tells_of_tarball(payload, input));
    assert(records(
        event,
        "publish_ready"@,
        text_of(publisher),
        None,
        Some(version@),
        payload,
    ));
}

/// The payload tells which version failed, and why.
pub open spec fn tells_of_failure(payload: Json, version_id: i64, reason: Seq<char>) -> bool {
    &&& payload matches Json::Object(all)
    &&& all["version_id"@] == Json::Integer(version_id as int)
    &&& all["reason"@] == Json::Text(reason)
    &&& forall|key: Seq<char>| #[trigger]
        all.dom().contains(key) <==> key == "version_id"@ || key == "reason"@
}

/// Noting a failure marks the version as failed, where it was still being
/// published, and records which version failed and why.
pub proof fn law_failures_are_noted(
    version_id: i64,
    reason: String,
    start: (RepoTask, DbCommand),
    rows: u64,
    recorded: RepoStep,
    more: u64,
    last: RepoStep,
)
    requires
        call_ensures(mark_failed, (version_id, reason), start),
        call_ensures(continue_task, (start.0, DbEvent::Affected(rows)), recorded),
        call_ensures(continue_task, (recorded->Run_0, DbEvent::Affected(more)), last),
    ensures
        start.1 matches DbCommand::FailVersion(update) && update.sql@ == r#"
UPDATE crate_versions
SET status = 'failed'
WHERE id = $1 AND status = 'publishing'
"#@
            && update.params@.len() == 1 && is_number(update.params@[0], version_id as int),
        recorded matches RepoStep::Run(_, DbCommand::RecordEvent(event)) && exists|
            payload: Json,
        | #[trigger]
            records(event, "publish_failed"@, None, None, None, payload) && tells_of_failure(
                payload,
                version_id,
                reason@,
            ),
        last == RepoStep::Return(RepoOutcome::FailureNoted),
{
    lemma_values(start.1->FailVersion_0);
    let event = recorded->Run_1->RecordEvent_0;
    lemma_values(event);
    let payload = failure_payload(version_id, reason@);
    reveal_strlit("version_id");
    reveal_strlit("reason");
    assert("version_id"@.len() == 10 && "reason"@.len() == 6);
    assert(tells_of_failure(payload, version_id, reason@));
    assert(records(event, "publish_failed"@, None, None, None, payload));
}

/// Yanking a version, or taking that back, sets the mark of the ready version
/// that is written like this, of the crate with that name. Where one was marked,
/// that is recorded and both are kept; where none was, all is undone and none was
/// found.
pub proof fn law_versions_are_marked(
    crate_name: &str,
    version: &str,
    yanked: bool,
    start: (RepoTask, DbCommand),
    opened: RepoStep,
    rows: u64,
    recorded: RepoStep,
    more: u64,
    ending: RepoStep,
    last: RepoStep,
)
    requires
        call_ensures(set_yanked, (crate_name, version, yanked), start),
        call_ensures(continue_task, (start.0, DbEvent::Done), opened),
        call_ensures(continue_task, (opened->Run_0, DbEvent::Affected(rows)), recorded),
        rows > 0 ==> call_ensures(
            continue_task,
            (recorded->Run_0, DbEvent::Affected(more)),
            ending,
        ),
        rows > 0 ==> call_ensures(continue_task, (ending->Run_0, DbEvent::Done), last),
        rows == 0 ==> call_ensures(continue_task, (recorded->Run_0, DbEvent::Done), last),
    ensures
        start.1 is Begin,
        opened matches RepoStep::Run(_, DbCommand::SetYanked(update)) && update.sql@ == r#"
UPDATE crate_versions cv
SET yanked = $3
FROM crates c
WHERE c.id = cv.crate_id
  AND c.name = $1
  AND cv.version = $2
  AND cv.status = 'ready'
"#@
            && update.params@.len() == 3 && is_text(update.params@[0], crate_name@) && is_text(
            update.params@[1],
            version@,
        ) && is_flag(update.params@[2], yanked),
        rows > 0 ==> (recorded matches RepoStep::Run(_, DbCommand::RecordEvent(event))
            && records_plainly(
            event,
            if yanked {
                "yanked"@
            } else {
                "unyanked"@
            },
            None,
            crate_name@,
            version@,
        )),
        rows > 0 ==> (ending matches RepoStep::Run(_, command) && command is Commit),
        rows == 0 ==> (recorded matches RepoStep::Run(_, command) && command is Rollback),
        last == RepoStep::Return(RepoOutcome::Yanked(rows > 0)),
{
    lemma_values(opened->Run_1->SetYanked_0);
    if rows > 0 {
        let event = recorded->Run_1->RecordEvent_0;
        lemma_values(event);
        assert(records(
            event,
            if yanked {
                "yanked"@
            } else {
                "unyanked"@
            },
            None,
            Some(crate_name@),
            Some(version@),
            Json::Object(no_members()),
        ));
    }
}

/// A request to yank a version of a crate, or to take that back, succeeds exactly
/// when the crate with the name in the request has a ready version that is
/// written as the request writes it. Then that version has the mark that was
/// asked for, and every other version the mark that it had.
pub proof fn law_yank_requests_mark_the_version(
    crate_name: &str,
    version: &str,
    yanked: bool,
    step: (YankState, YankAction),
    marked_name: &str,
    marked_version: &str,
    start: (RepoTask, DbCommand),
    tables: Tables,
    outcome: RepoOutcome,
    end: Database,
)
    requires
        names_a_crate(crate_name@),
        semver_reading(version@) is Some,
        call_ensures(start_yank, (crate_name, version, yanked), step),
        step.1 is Mark ==> marked_name@ == step.1->Mark_crate_name@ && marked_version@
            == step.1->Mark_version@ && call_ensures(
            set_yanked,
            (marked_name, marked_version, step.1->Mark_yanked),
            start,
        ) && comes_to(start.0, start.1@, at_rest(tables), outcome, end),
    ensures
        step.1 is Mark,
        outcome matches RepoOutcome::Yanked(found) && (found <==> exists|id: int|
            #![trigger tables.versions[id]]
            tables.versions.dom().contains(id) && tables.versions[id].status is Ready
                && tables.versions[id].version == version@ && tables.crates.dom().contains(
                tables.versions[id].crate_id,
            ) && tables.crates[tables.versions[id].crate_id].name == crate_name@),
        forall|id: int|
            #![trigger end.kept.versions[id]]
            tables.versions.dom().contains(id) ==> end.kept.versions.dom().contains(id) && end.kept.versions[id].yanked
                == if tables.versions[id].status is Ready && tables.versions[id].version == version@
                && tables.crates.dom().contains(tables.versions[id].crate_id)
                && tables.crates[tables.versions[id].crate_id].name == crate_name@ {
                yanked
            } else {
                tables.versions[id].yanked
            },
{
    lemma_names(crate_name@);
    match start.0 {
        RepoTask::OpenYank { crate_name: name, version: number, yanked: mark } => {
            law_yank_marks_the_version(name, number, mark, tables, outcome, end);
            if has_ready(tables, crate_name@, version@) {
                let id = choose|id: int| is_ready(tables, id, crate_name@, version@);
                assert(tables.versions[id].version == version@);
            }
            assert forall|id: int|
                #![trigger tables.versions[id]]
                tables.versions.dom().contains(id) && tables.versions[id].status is Ready
                    && tables.versions[id].version == version@ && tables.crates.dom().contains(
                    tables.versions[id].crate_id,
                ) && tables.crates[tables.versions[id].crate_id].name == crate_name@ implies has_ready(
                tables,
                crate_name@,
                version@,
            ) by {
                assert(is_ready(tables, id, crate_name@, version@));
            }
            assert forall|id: int|
                #![trigger end.kept.versions[id]]
                tables.versions.dom().contains(id) implies end.kept.versions.dom().contains(id)
                && end.kept.versions[id].yanked == if tables.versions[id].status is Ready
                && tables.versions[id].version == version@ && tables.crates.dom().contains(
                tables.versions[id].crate_id,
            ) && tables.crates[tables.versions[id].crate_id].name == crate_name@ {
                yanked
            } else {
                tables.versions[id].yanked
            } by {
                assert(is_ready(tables, id, crate_name@, version@) ==> has_ready(
                    tables,
                    crate_name@,
                    version@,
                ));
            }
        },
        _ => {},
    }
}

/// A crate without ready versions has no index; the rows of any other are its
/// index, as they are.
pub proof fn law_listed_versions_are_the_index(
    rows: Vec<IndexVersionRow>,
    versions: Option<Vec<IndexVersionRow>>,
)
    requires
        call_ensures(index_versions, (rows,), versions),
    ensures
        rows@.len() == 0 ==> versions is None,
        rows@.len() > 0 ==> versions == Some(rows),
{
}

/// The record of a download is the key that was looked up and the name of the
/// version's file.
pub proof fn law_records_are_of_the_version(
    crate_name: &str,
    version: &str,
    object_key: Option<String>,
    record: Option<CrateDownloadRecord>,
)
    requires
        call_ensures(find_download, (crate_name, version, object_key), record),
    ensures
        object_key is None ==> record is None,
        object_key matches Some(key) ==> (record matches Some(found) && found.object_key == key
            && found.filename@ == crate_name@ + seq!['-'] + version@ + seq![
            '.',
            'c',
            'r',
            'a',
            't',
            'e',
        ]),
{
    reveal_strlit("-");
    reveal_strlit(".crate");
    assert("-"@ =~= seq!['-']);
    assert(".crate"@ =~= seq!['.', 'c', 'r', 'a', 't', 'e']);
}

/// The tables are made by these statements, in this order: a name or a normalized
/// name belongs to one crate, and a key to one version of a crate.
pub proof fn law_tables_are_made(statements: Vec<&'static str>)
    requires
        call_ensures(schema_statements, (), statements),
    ensures
        statements@.len() == 8,
        statements@[0]@ == r#"
CREATE TABLE IF NOT EXISTS tokens (
    id TEXT PRIMARY KEY,
    name TEXT NOT NULL,
    token_prefix TEXT NOT NULL,
    secret_hash TEXT NOT NULL,
    admin BOOLEAN NOT NULL DEFAULT FALSE,
    created_at TIMESTAMPTZ NOT NULL DEFAULT now(),
    expires_at TIMESTAMPTZ NULL,
    rotated_at TIMESTAMPTZ NULL,
    revoked_at TIMESTAMPTZ NULL,
    last_used_at TIMESTAMPTZ NULL
)
"#@,
        statements@[1]@ == r#"
CREATE TABLE IF NOT EXISTS token_claims (
    id BIGSERIAL PRIMARY KEY,
    token_id TEXT NOT NULL REFERENCES tokens(id) ON DELETE CASCADE,
    action TEXT NOT NULL,
    scope TEXT NOT NULL,
    created_at TIMESTAMPTZ NOT NULL DEFAULT now(),
    UNIQUE (token_id, action, scope)
)
"#@,
        statements@[2]@ == r#"
CREATE TABLE IF NOT EXISTS crates (
    id BIGSERIAL PRIMARY KEY,
    name TEXT NOT NULL UNIQUE,
    normalized_name TEXT NOT NULL UNIQUE,
    created_at TIMESTAMPTZ NOT NULL DEFAULT now()
)
"#@,
        statements@[3]@ == r#"
CREATE TABLE IF NOT EXISTS crate_versions (
    id BIGSERIAL PRIMARY KEY,
    crate_id BIGINT NOT NULL REFERENCES crates(id) ON DELETE CASCADE,
    version TEXT NOT NULL,
    semver_key TEXT NOT NULL,
    status TEXT NOT NULL,
    yanked BOOLEAN NOT NULL DEFAULT FALSE,
    object_key TEXT NULL,
    checksum_sha256 TEXT NULL,
    size_bytes BIGINT NULL,
    metadata JSONB NOT NULL,
    index_entry JSONB NOT NULL,
    publisher_token_id TEXT NULL,
    created_at TIMESTAMPTZ NOT NULL DEFAULT now(),
    published_at TIMESTAMPTZ NULL,
    UNIQUE (crate_id, semver_key)
)
"#@,
        statements@[4]@ == r#"
CREATE TABLE IF NOT EXISTS registry_events (
    id BIGSERIAL PRIMARY KEY,
    event_type TEXT NOT NULL,
    actor_token_id TEXT NULL,
    crate_name TEXT NULL,
    crate_version TEXT NULL,
    payload JSONB NOT NULL DEFAULT '{}'::jsonb,
    created_at TIMESTAMPTZ NOT NULL DEFAULT now()
)
"#@,
        statements@[5]@ == "CREATE INDEX IF NOT EXISTS idx_token_claims_token_id ON token_claims(token_id)"@,
        statements@[6]@ == "CREATE INDEX IF NOT EXISTS idx_crate_versions_crate_id ON crate_versions(crate_id)"@,
        statements@[7]@ == "CREATE INDEX IF NOT EXISTS idx_crate_versions_ready ON crate_versions(crate_id, version) WHERE status = 'ready'"@,
{
}

} // verus!
