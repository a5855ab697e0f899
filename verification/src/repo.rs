//! How the registry's database is changed: which statements are carried out, in
//! which order, and what is kept of them.

use crate::json::{integer_value, object_value, text_value};
use crate::publish_flow::{PublishFinalizeInput, PublishStartInput};
use crate::registry::{CrateDownloadRecord, IndexVersionRow};
use crate::crate_name::versioned_filename;
use crate::statements::{
    record_event, SqlParam, SqlStatement, FAIL_VERSION, FINALIZE_VERSION, INSERT_VERSION, RECORD_EVENT,
    SET_YANKED, UPSERT_CRATE,
};
use serde_json::Value;
use vstd::pervasive::unreached;
use vstd::prelude::*;
use vstd::string::*;

verus! {

use crate::crate_name::filename;
use crate::json::{document, no_members, Json};
use crate::statements::{event_query, optional_view, Param, Query};

/// What the database is to do next.
pub enum DbCommand {
    /// Begin a transaction.
    Begin,
    /// Find or make a crate's row, and report its number.
    UpsertCrate(SqlStatement),
    /// Reserve a version, and report its number, or that its key is taken.
    InsertVersion(SqlStatement),
    /// Make a version ready, and report which version it is and who published it.
    FinalizeVersion(SqlStatement),
    /// Mark a version as failed, and report how many rows were changed.
    FailVersion(SqlStatement),
    /// Set or clear a yanked mark, and report how many rows were changed.
    SetYanked(SqlStatement),
    /// Record an event, and report how many rows were added.
    RecordEvent(SqlStatement),
    /// Keep what the transaction has done.
    Commit,
    /// Undo what the transaction has done.
    Rollback,
}

/// The mathematical counterpart of [`DbCommand`].
pub enum Work {
    Begin,
    UpsertCrate(Query),
    InsertVersion(Query),
    FinalizeVersion(Query),
    FailVersion(Query),
    SetYanked(Query),
    RecordEvent(Query),
    Commit,
    Rollback,
}

impl View for DbCommand {
    type V = Work;

    open spec fn view(&self) -> Work {
        match self {
            DbCommand::Begin => Work::Begin,
            DbCommand::UpsertCrate(statement) => Work::UpsertCrate(statement@),
            DbCommand::InsertVersion(statement) => Work::InsertVersion(statement@),
            DbCommand::FinalizeVersion(statement) => Work::FinalizeVersion(statement@),
            DbCommand::FailVersion(statement) => Work::FailVersion(statement@),
            DbCommand::SetYanked(statement) => Work::SetYanked(statement@),
            DbCommand::RecordEvent(statement) => Work::RecordEvent(statement@),
            DbCommand::Commit => Work::Commit,
            DbCommand::Rollback => Work::Rollback,
        }
    }
}

/// What the database reports.
pub enum DbEvent {
    /// A transaction has begun, or has ended.
    Done,
    CrateId(i64),
    VersionId(Option<i64>),
    Ready { version: String, publisher_token_id: Option<String> },
    Affected(u64),
}

/// What the database is being changed for, and how far that has come.
pub enum RepoTask {
    OpenReserve(PublishStartInput),
    ReserveCrate(PublishStartInput),
    ReserveVersion { name: String, version: String, publisher_token_id: String },
    RecordReserve(i64),
    CommitReserve(i64),
    UndoReserve,
    OpenFinalize(PublishFinalizeInput),
    FinalizeVersion(PublishFinalizeInput),
    RecordFinalize,
    CommitFinalize,
    Fail { version_id: i64, reason: String },
    RecordFail,
    OpenYank { crate_name: String, version: String, yanked: bool },
    Yank { crate_name: String, version: String, yanked: bool },
    RecordYank,
    CommitYank,
    UndoYank,
}

/// What has come of a change.
pub enum RepoOutcome {
    /// The version has the number, or its key was taken.
    Reserved(Option<i64>),
    Finalized,
    FailureNoted,
    /// Whether there is such a version.
    Yanked(bool),
}

/// What follows: more work, or the outcome.
pub enum RepoStep {
    Run(RepoTask, DbCommand),
    Return(RepoOutcome),
}

/// The event can follow in the task.
pub open spec fn answers(task: RepoTask, event: DbEvent) -> bool {
    match task {
        RepoTask::OpenReserve(_) => event is Done,
        RepoTask::ReserveCrate(_) => event is CrateId,
        RepoTask::ReserveVersion { .. } => event is VersionId,
        RepoTask::RecordReserve(_) => event is Affected,
        RepoTask::CommitReserve(_) => event is Done,
        RepoTask::UndoReserve => event is Done,
        RepoTask::OpenFinalize(_) => event is Done,
        RepoTask::FinalizeVersion(_) => event is Ready,
        RepoTask::RecordFinalize => event is Affected,
        RepoTask::CommitFinalize => event is Done,
        RepoTask::Fail { .. } => event is Affected,
        RepoTask::RecordFail => event is Affected,
        RepoTask::OpenYank { .. } => event is Done,
        RepoTask::Yank { .. } => event is Affected,
        RepoTask::RecordYank => event is Affected,
        RepoTask::CommitYank => event is Done,
        RepoTask::UndoYank => event is Done,
    }
}

/// Finds or makes the row of the crate to be published.
pub open spec fn upsert_query(input: PublishStartInput) -> Query {
    Query {
        sql: UPSERT_CRATE@,
        params: seq![Param::Text(input.name@), Param::Text(input.normalized_name@)],
    }
}

/// Reserves the version to be published.
pub open spec fn insert_query(crate_id: i64, input: PublishStartInput) -> Query {
    Query {
        sql: INSERT_VERSION@,
        params: seq![
            Param::BigInt(crate_id as int),
            Param::Text(input.version@),
            Param::Text(input.semver_key@),
            Param::Document(document(input.metadata)),
            Param::Document(document(input.index_entry)),
            Param::Text(input.publisher_token_id@),
        ],
    }
}

/// Makes the version ready.
pub open spec fn finalize_query(input: PublishFinalizeInput) -> Query {
    Query {
        sql: FINALIZE_VERSION@,
        params: seq![
            Param::BigInt(input.version_id as int),
            Param::Text(input.object_key@),
            Param::Text(input.checksum_sha256@),
            Param::BigInt(input.size_bytes as int),
        ],
    }
}

/// What is recorded of a version that was made ready.
pub open spec fn ready_payload(input: PublishFinalizeInput) -> Json {
    Json::Object(
        map![
            "object_key"@ => Json::Text(input.object_key@),
            "checksum_sha256"@ => Json::Text(input.checksum_sha256@),
            "size_bytes"@ => Json::Integer(input.size_bytes as int),
        ],
    )
}

/// What is recorded of a version that failed.
pub open spec fn failure_payload(version_id: i64, reason: Seq<char>) -> Json {
    Json::Object(
        map!["version_id"@ => Json::Integer(version_id as int), "reason"@ => Json::Text(reason)],
    )
}

/// Marks a version as failed.
pub open spec fn fail_query(version_id: i64) -> Query {
    Query { sql: FAIL_VERSION@, params: seq![Param::BigInt(version_id as int)] }
}

/// Sets or clears the yanked mark.
pub open spec fn yank_query(crate_name: Seq<char>, version: Seq<char>, yanked: bool) -> Query {
    Query {
        sql: SET_YANKED@,
        params: seq![Param::Text(crate_name), Param::Text(version), Param::Flag(yanked)],
    }
}

/// The event of setting or clearing the yanked mark.
pub open spec fn yank_event(yanked: bool) -> Seq<char> {
    if yanked {
        "yanked"@
    } else {
        "unyanked"@
    }
}

/// The step goes on with the task and the work.
pub open spec fn runs(step: RepoStep, task: RepoTask, work: Work) -> bool {
    step matches RepoStep::Run(next, command) && next == task && command@ == work
}

/// How a change goes on.
pub open spec fn repo_goes_on(task: RepoTask, event: DbEvent, step: RepoStep) -> bool {
    match (task, event) {
        (RepoTask::OpenReserve(input), _) => runs(
            step,
            RepoTask::ReserveCrate(input),
            Work::UpsertCrate(upsert_query(input)),
        ),
        (RepoTask::ReserveCrate(input), DbEvent::CrateId(crate_id)) => runs(
            step,
            RepoTask::ReserveVersion {
                name: input.name,
                version: input.version,
                publisher_token_id: input.publisher_token_id,
            },
            Work::InsertVersion(insert_query(crate_id, input)),
        ),
        (
            RepoTask::ReserveVersion { name, version, publisher_token_id },
            DbEvent::VersionId(reserved),
        ) => match reserved {
            Some(version_id) => runs(
                step,
                RepoTask::RecordReserve(version_id),
                Work::RecordEvent(
                    event_query(
                        "publish_started"@,
                        Some(publisher_token_id@),
                        Some(name@),
                        Some(version@),
                        Json::Object(no_members()),
                    ),
                ),
            ),
            None => runs(step, RepoTask::UndoReserve, Work::Rollback),
        },
        (RepoTask::RecordReserve(version_id), _) => runs(
            step,
            RepoTask::CommitReserve(version_id),
            Work::Commit,
        ),
        (RepoTask::CommitReserve(version_id), _) => step == RepoStep::Return(
            RepoOutcome::Reserved(Some(version_id)),
        ),
        (RepoTask::UndoReserve, _) => step == RepoStep::Return(RepoOutcome::Reserved(None)),
        (RepoTask::OpenFinalize(input), _) => runs(
            step,
            RepoTask::FinalizeVersion(input),
            Work::FinalizeVersion(finalize_query(input)),
        ),
        (RepoTask::FinalizeVersion(input), DbEvent::Ready { version, publisher_token_id }) => runs(
            step,
            RepoTask::RecordFinalize,
            Work::RecordEvent(
                event_query(
                    "publish_ready"@,
                    optional_view(publisher_token_id),
                    None,
                    Some(version@),
                    ready_payload(input),
                ),
            ),
        ),
        (RepoTask::RecordFinalize, _) => runs(step, RepoTask::CommitFinalize, Work::Commit),
        (RepoTask::CommitFinalize, _) => step == RepoStep::Return(RepoOutcome::Finalized),
        (RepoTask::Fail { version_id, reason }, _) => runs(
            step,
            RepoTask::RecordFail,
            Work::RecordEvent(
                event_query(
                    "publish_failed"@,
                    None,
                    None,
                    None,
                    failure_payload(version_id, reason@),
                ),
            ),
        ),
        (RepoTask::RecordFail, _) => step == RepoStep::Return(RepoOutcome::FailureNoted),
        (RepoTask::OpenYank { crate_name, version, yanked }, _) => runs(
            step,
            RepoTask::Yank { crate_name, version, yanked },
            Work::SetYanked(yank_query(crate_name@, version@, yanked)),
        ),
        (RepoTask::Yank { crate_name, version, yanked }, DbEvent::Affected(rows)) => if rows == 0 {
            runs(step, RepoTask::UndoYank, Work::Rollback)
        } else {
            runs(
                step,
                RepoTask::RecordYank,
                Work::RecordEvent(
                    event_query(
                        yank_event(yanked),
                        None,
                        Some(crate_name@),
                        Some(version@),
                        Json::Object(no_members()),
                    ),
                ),
            )
        },
        (RepoTask::RecordYank, _) => runs(step, RepoTask::CommitYank, Work::Commit),
        (RepoTask::CommitYank, _) => step == RepoStep::Return(RepoOutcome::Yanked(true)),
        (RepoTask::UndoYank, _) => step == RepoStep::Return(RepoOutcome::Yanked(false)),
        _ => true,
    }
}

/// Begins to reserve a version for a publish.
pub fn begin_publish(input: PublishStartInput) -> (start: (RepoTask, DbCommand))
    ensures
        start == (RepoTask::OpenReserve(input), DbCommand::Begin),
{
    (RepoTask::OpenReserve(input), DbCommand::Begin)
}

/// Begins to make a reserved version ready.
pub fn finalize_publish(input: PublishFinalizeInput) -> (start: (RepoTask, DbCommand))
    ensures
        start == (RepoTask::OpenFinalize(input), DbCommand::Begin),
{
    (RepoTask::OpenFinalize(input), DbCommand::Begin)
}

/// Begins to note that a version could not be published.
pub fn mark_failed(version_id: i64, reason: String) -> (start: (RepoTask, DbCommand))
    ensures
        start.0 == (RepoTask::Fail { version_id, reason }),
        start.1@ == Work::FailVersion(fail_query(version_id)),
{
    let statement = SqlStatement { sql: FAIL_VERSION, params: vec![SqlParam::BigInt(version_id)] };
    proof {
        assert(statement@.params =~= seq![Param::BigInt(version_id as int)]);
    }
    (RepoTask::Fail { version_id, reason }, DbCommand::FailVersion(statement))
}

/// Begins to set or clear the yanked mark of a version.
pub fn set_yanked(crate_name: &str, version: &str, yanked: bool) -> (start: (RepoTask, DbCommand))
    ensures
        start.0 matches RepoTask::OpenYank { crate_name: name, version: number, yanked: mark }
            && name@ == crate_name@ && number@ == version@ && mark == yanked,
        start.1 is Begin,
{
    (
        RepoTask::OpenYank {
            crate_name: crate_name.to_owned(),
            version: version.to_owned(),
            yanked,
        },
        DbCommand::Begin,
    )
}

fn upsert_statement(input: &PublishStartInput) -> (statement: SqlStatement)
    ensures
        statement@ == upsert_query(*input),
{
    let statement = SqlStatement {
        sql: UPSERT_CRATE,
        params: vec![
            SqlParam::Text(input.name.clone()),
            SqlParam::Text(input.normalized_name.clone()),
        ],
    };
    proof {
        assert(statement@.params =~= upsert_query(*input).params);
    }
    statement
}

fn finalize_statement(input: &PublishFinalizeInput) -> (statement: SqlStatement)
    ensures
        statement@ == finalize_query(*input),
{
    let statement = SqlStatement {
        sql: FINALIZE_VERSION,
        params: vec![
            SqlParam::BigInt(input.version_id),
            SqlParam::Text(input.object_key.clone()),
            SqlParam::Text(input.checksum_sha256.clone()),
            SqlParam::BigInt(input.size_bytes),
        ],
    };
    proof {
        assert(statement@.params =~= finalize_query(*input).params);
    }
    statement
}

fn yank_statement(crate_name: &str, version: &str, yanked: bool) -> (statement: SqlStatement)
    ensures
        statement@ == yank_query(crate_name@, version@, yanked),
{
    let statement = SqlStatement {
        sql: SET_YANKED,
        params: vec![
            SqlParam::Text(crate_name.to_owned()),
            SqlParam::Text(version.to_owned()),
            SqlParam::Flag(yanked),
        ],
    };
    proof {
        assert(statement@.params =~= yank_query(crate_name@, version@, yanked).params);
    }
    statement
}

fn empty_object() -> (value: Value)
    ensures
        document(value) == Json::Object(no_members()),
{
    object_value(serde_json::Map::new())
}

/// Reserves the version, and keeps what the rest of the change needs.
fn insert_version(crate_id: i64, input: PublishStartInput) -> (step: RepoStep)
    ensures
        runs(
            step,
            RepoTask::ReserveVersion {
                name: input.name,
                version: input.version,
                publisher_token_id: input.publisher_token_id,
            },
            Work::InsertVersion(insert_query(crate_id, input)),
        ),
{
    let statement = SqlStatement {
        sql: INSERT_VERSION,
        params: vec![
            SqlParam::BigInt(crate_id),
            SqlParam::Text(input.version.clone()),
            SqlParam::Text(input.semver_key),
            SqlParam::Document(input.metadata),
            SqlParam::Document(input.index_entry),
            SqlParam::Text(input.publisher_token_id.clone()),
        ],
    };
    proof {
        assert(statement@.params =~= insert_query(crate_id, input).params);
    }
    RepoStep::Run(
        RepoTask::ReserveVersion {
            name: input.name,
            version: input.version,
            publisher_token_id: input.publisher_token_id,
        },
        DbCommand::InsertVersion(statement),
    )
}

/// Records that a version was made ready.
fn record_ready(
    input: PublishFinalizeInput,
    version: String,
    publisher_token_id: Option<String>,
) -> (statement: SqlStatement)
    ensures
        statement@ == event_query(
            "publish_ready"@,
            optional_view(publisher_token_id),
            None,
            Some(version@),
            ready_payload(input),
        ),
{
    let mut payload = serde_json::Map::new();
    payload.insert("object_key".to_owned(), text_value(input.object_key));
    payload.insert("checksum_sha256".to_owned(), text_value(input.checksum_sha256));
    payload.insert("size_bytes".to_owned(), integer_value(input.size_bytes));
    record_event(
        "publish_ready",
        publisher_token_id,
        None,
        Some(version),
        object_value(payload),
    )
}

/// Records that a version failed.
fn record_failure(version_id: i64, reason: String) -> (statement: SqlStatement)
    ensures
        statement@ == event_query(
            "publish_failed"@,
            None,
            None,
            None,
            failure_payload(version_id, reason@),
        ),
{
    let mut payload = serde_json::Map::new();
    payload.insert("version_id".to_owned(), integer_value(version_id));
    payload.insert("reason".to_owned(), text_value(reason));
    record_event("publish_failed", None, None, None, object_value(payload))
}

/// Goes on with a change after an event.
pub fn continue_task(task: RepoTask, event: DbEvent) -> (step: RepoStep)
    requires
        answers(task, event),
    ensures
        repo_goes_on(task, event, step),
{
    match task {
        RepoTask::OpenReserve(input) => {
            let statement = upsert_statement(&input);
            RepoStep::Run(RepoTask::ReserveCrate(input), DbCommand::UpsertCrate(statement))
        },
        RepoTask::ReserveCrate(input) => match event {
            DbEvent::CrateId(crate_id) => insert_version(crate_id, input),
            _ => unreached(),
        },
        RepoTask::ReserveVersion { name, version, publisher_token_id } => match event {
            DbEvent::VersionId(Some(version_id)) => RepoStep::Run(
                RepoTask::RecordReserve(version_id),
                DbCommand::RecordEvent(
                    record_event(
                        "publish_started",
                        Some(publisher_token_id),
                        Some(name),
                        Some(version),
                        empty_object(),
                    ),
                ),
            ),
            _ => RepoStep::Run(RepoTask::UndoReserve, DbCommand::Rollback),
        },
        RepoTask::RecordReserve(version_id) => RepoStep::Run(
            RepoTask::CommitReserve(version_id),
            DbCommand::Commit,
        ),
        RepoTask::CommitReserve(version_id) => RepoStep::Return(
            RepoOutcome::Reserved(Some(version_id)),
        ),
        RepoTask::UndoReserve => RepoStep::Return(RepoOutcome::Reserved(None)),
        RepoTask::OpenFinalize(input) => {
            let statement = finalize_statement(&input);
            RepoStep::Run(RepoTask::FinalizeVersion(input), DbCommand::FinalizeVersion(statement))
        },
        RepoTask::FinalizeVersion(input) => match event {
            DbEvent::Ready { version, publisher_token_id } => RepoStep::Run(
                RepoTask::RecordFinalize,
                DbCommand::RecordEvent(record_ready(input, version, publisher_token_id)),
            ),
            _ => unreached(),
        },
        RepoTask::RecordFinalize => RepoStep::Run(RepoTask::CommitFinalize, DbCommand::Commit),
        RepoTask::CommitFinalize => RepoStep::Return(RepoOutcome::Finalized),
        RepoTask::Fail { version_id, reason } => RepoStep::Run(
            RepoTask::RecordFail,
            DbCommand::RecordEvent(record_failure(version_id, reason)),
        ),
        RepoTask::RecordFail => RepoStep::Return(RepoOutcome::FailureNoted),
        RepoTask::OpenYank { crate_name, version, yanked } => {
            let statement = yank_statement(crate_name.as_str(), version.as_str(), yanked);
            RepoStep::Run(
                RepoTask::Yank { crate_name, version, yanked },
                DbCommand::SetYanked(statement),
            )
        },
        RepoTask::Yank { crate_name, version, yanked } => match event {
            DbEvent::Affected(rows) if rows != 0 => RepoStep::Run(
                RepoTask::RecordYank,
                DbCommand::RecordEvent(
                    record_event(
                        if yanked {
                            "yanked"
                        } else {
                            "unyanked"
                        },
                        None,
                        Some(crate_name),
                        Some(version),
                        empty_object(),
                    ),
                ),
            ),
            _ => RepoStep::Run(RepoTask::UndoYank, DbCommand::Rollback),
        },
        RepoTask::RecordYank => RepoStep::Run(RepoTask::CommitYank, DbCommand::Commit),
        RepoTask::CommitYank => RepoStep::Return(RepoOutcome::Yanked(true)),
        RepoTask::UndoYank => RepoStep::Return(RepoOutcome::Yanked(false)),
    }
}

/// The published versions of a crate; a crate without any is not there.
pub fn index_versions(rows: Vec<IndexVersionRow>) -> (versions: Option<Vec<IndexVersionRow>>)
    ensures
        match versions {
            Some(versions) => rows@.len() > 0 && versions == rows,
            None => rows@.len() == 0,
        },
{
    if rows.len() == 0 {
        return None;
    }
    Some(rows)
}

/// The record of a download, given where the tarball is.
pub fn find_download(crate_name: &str, version: &str, object_key: Option<String>) -> (record: Option<
    CrateDownloadRecord,
>)
    ensures
        match object_key {
            Some(key) => record matches Some(found) && found.object_key == key && found.filename@
                == filename(crate_name@, version@),
            None => record is None,
        },
{
    match object_key {
        Some(object_key) => Some(
            CrateDownloadRecord { object_key, filename: versioned_filename(crate_name, version) },
        ),
        None => None,
    }
}

/// How many events a change can still wait for.
pub open spec fn tasks_left(task: RepoTask) -> nat {
    match task {
        RepoTask::OpenReserve(_) => 5,
        RepoTask::ReserveCrate(_) => 4,
        RepoTask::ReserveVersion { .. } => 3,
        RepoTask::RecordReserve(_) => 2,
        RepoTask::CommitReserve(_) => 1,
        RepoTask::UndoReserve => 1,
        RepoTask::OpenFinalize(_) => 4,
        RepoTask::FinalizeVersion(_) => 3,
        RepoTask::RecordFinalize => 2,
        RepoTask::CommitFinalize => 1,
        RepoTask::Fail { .. } => 2,
        RepoTask::RecordFail => 1,
        RepoTask::OpenYank { .. } => 4,
        RepoTask::Yank { .. } => 3,
        RepoTask::RecordYank => 2,
        RepoTask::CommitYank => 1,
        RepoTask::UndoYank => 1,
    }
}

/// The task has just recorded what it did.
pub open spec fn has_recorded(task: RepoTask) -> bool {
    task is RecordReserve || task is RecordFinalize || task is RecordYank
}

/// A change is kept only after it has been recorded, in the same transaction,
/// and every change comes to its end.
pub proof fn law_changes_are_recorded(task: RepoTask, event: DbEvent, step: RepoStep)
    requires
        answers(task, event),
        repo_goes_on(task, event, step),
    ensures
        step matches RepoStep::Run(next, command) ==> {
            &&& command@ is Commit <==> has_recorded(task)
            &&& has_recorded(next) ==> (command@ matches Work::RecordEvent(query) && query.sql
                == RECORD_EVENT@)
            &&& !(command@ is Begin)
            &&& tasks_left(next) < tasks_left(task)
        },
{
}

/// A version is reserved only by a change that was kept; one whose key is taken
/// is not, and the change is undone.
pub proof fn law_reserving(task: RepoTask, event: DbEvent, step: RepoStep)
    requires
        answers(task, event),
        repo_goes_on(task, event, step),
    ensures
        step matches RepoStep::Return(RepoOutcome::Reserved(reserved)) ==> match reserved {
            Some(version_id) => task == RepoTask::CommitReserve(version_id),
            None => task is UndoReserve,
        },
        task is ReserveVersion ==> (event matches DbEvent::VersionId(reserved) && match reserved {
            Some(version_id) => step matches RepoStep::Run(next, _) && next
                == RepoTask::RecordReserve(version_id),
            None => step matches RepoStep::Run(next, command) && next is UndoReserve && command@
                is Rollback,
        }),
{
}

/// Yanking is reported as done exactly when some version was marked; otherwise
/// the change is undone.
pub proof fn law_yanking(
    crate_name: String,
    version: String,
    yanked: bool,
    rows: u64,
    after_update: RepoStep,
)
    requires
        repo_goes_on(
            RepoTask::Yank { crate_name, version, yanked },
            DbEvent::Affected(rows),
            after_update,
        ),
    ensures
        rows == 0 ==> runs(after_update, RepoTask::UndoYank, Work::Rollback),
        rows > 0 ==> (after_update matches RepoStep::Run(next, _) && next is RecordYank),
        forall|event: DbEvent, step: RepoStep|
            #[trigger] repo_goes_on(RepoTask::UndoYank, event, step) ==> step == RepoStep::Return(
                RepoOutcome::Yanked(false),
            ),
        forall|event: DbEvent, step: RepoStep|
            #[trigger] repo_goes_on(RepoTask::RecordYank, event, step) ==> runs(
                step,
                RepoTask::CommitYank,
                Work::Commit,
            ),
        forall|event: DbEvent, step: RepoStep|
            #[trigger] repo_goes_on(RepoTask::CommitYank, event, step) ==> step == RepoStep::Return(
                RepoOutcome::Yanked(true),
            ),
{
}

} // verus!
