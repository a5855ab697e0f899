//! What the registry's tables hold, what the statements mean for them, and what
//! becomes of them when a change is carried out with nobody else changing them
//! in between. Of times, only those of publication are held.

use crate::publish::{NormalizedPublish, PublishMetadata};
use crate::publish_flow::{
    PublishAction, PublishFinalizeInput, PublishStartInput, PublishState,
};
use crate::repo::{DbEvent, RepoOutcome, RepoStep, RepoTask};
use vstd::prelude::*;
use vstd::string::*;

verus! {

use crate::json::{document, no_members, Json};
use crate::publish::normalizes;
use crate::publish_flow::begins;
use crate::repo::{
    answers, fail_query, failure_payload, insert_query, ready_payload, repo_goes_on, tasks_left,
    upsert_query, yank_event, Work,
};
use crate::statements::{
    download_query, optional_view, Query, FAIL_VERSION, FINALIZE_VERSION, INSERT_VERSION,
    RECORD_EVENT, SELECT_DOWNLOAD, SET_YANKED, UPSERT_CRATE,
};
use crate::version::{semver_reading, version_text, without_build};

/// A row of the table of crates.
pub struct CrateRow {
    pub name: Seq<char>,
    pub normalized_name: Seq<char>,
}

/// How far a version has come.
pub enum Status {
    Publishing,
    Ready,
    Failed,
}

/// A row of the table of versions.
pub struct VersionRow {
    pub crate_id: int,
    pub version: Seq<char>,
    pub semver_key: Seq<char>,
    pub status: Status,
    pub yanked: bool,
    pub object_key: Option<Seq<char>>,
    pub checksum_sha256: Option<Seq<char>>,
    pub size_bytes: Option<int>,
    pub metadata: Json,
    pub index_entry: Json,
    pub publisher_token_id: Option<Seq<char>>,
    pub published_at: Option<int>,
}

/// A row of the table of events.
pub struct EventRow {
    pub event_type: Seq<char>,
    pub actor_token_id: Option<Seq<char>>,
    pub crate_name: Option<Seq<char>>,
    pub crate_version: Option<Seq<char>>,
    pub payload: Json,
}

/// The tables, with crates and versions by their numbers and events in the
/// order in which they were recorded.
#[verifier::ext_equal]
pub struct Tables {
    pub crates: Map<int, CrateRow>,
    pub versions: Map<int, VersionRow>,
    pub events: Seq<EventRow>,
}

/// A database: what it keeps, and what the open transaction sees in its place.
pub struct Database {
    pub kept: Tables,
    pub open: Option<Tables>,
}

/// The tables that a statement sees and changes.
pub open spec fn seen(db: Database) -> Tables {
    match db.open {
        Some(tables) => tables,
        None => db.kept,
    }
}

/// The database after a statement has left the tables it sees like this.
pub open spec fn with_seen(db: Database, tables: Tables) -> Database {
    match db.open {
        Some(_) => Database { open: Some(tables), ..db },
        None => Database { kept: tables, ..db },
    }
}

/// The number is that of the crate.
pub open spec fn is_crate(tables: Tables, id: int, name: Seq<char>) -> bool {
    tables.crates.dom().contains(id) && tables.crates[id].name == name
}

/// The crate has a row.
pub open spec fn has_crate(tables: Tables, name: Seq<char>) -> bool {
    exists|id: int| is_crate(tables, id, name)
}

/// A version of the crate has the key.
pub open spec fn is_key_taken(tables: Tables, crate_id: int, key: Seq<char>) -> bool {
    exists|id: int| is_key_of(tables, id, crate_id, key)
}

/// The version with this number belongs to the crate and has the key.
pub open spec fn is_key_of(tables: Tables, id: int, crate_id: int, key: Seq<char>) -> bool {
    &&& tables.versions.dom().contains(id)
    &&& tables.versions[id].crate_id == crate_id
    &&& tables.versions[id].semver_key == key
}

/// The number is that of a ready version of the crate, written like this.
pub open spec fn is_ready(
    tables: Tables,
    id: int,
    crate_name: Seq<char>,
    version: Seq<char>,
) -> bool {
    &&& tables.versions.dom().contains(id)
    &&& is_crate(tables, tables.versions[id].crate_id, crate_name)
    &&& tables.versions[id].version == version
    &&& tables.versions[id].status is Ready
}

/// The crate has such a ready version.
pub open spec fn has_ready(tables: Tables, crate_name: Seq<char>, version: Seq<char>) -> bool {
    exists|id: int| is_ready(tables, id, crate_name, version)
}

/// The tables with the yanked mark of a ready version set or cleared, and all
/// else as it was.
pub open spec fn with_mark(
    tables: Tables,
    crate_name: Seq<char>,
    version: Seq<char>,
    yanked: bool,
) -> Tables {
    Tables {
        versions: Map::new(
            |id: int| tables.versions.dom().contains(id),
            |id: int|
                if is_ready(tables, id, crate_name, version) {
                    VersionRow { yanked, ..tables.versions[id] }
                } else {
                    tables.versions[id]
                },
        ),
        ..tables
    }
}

/// The tables with one event more.
pub open spec fn with_event(tables: Tables, event: EventRow) -> Tables {
    Tables { events: tables.events.push(event), ..tables }
}

/// The tables with one version changed, or added.
pub open spec fn with_version(tables: Tables, id: int, row: VersionRow) -> Tables {
    Tables { versions: tables.versions.insert(id, row), ..tables }
}

/// The text that stands in a place of a query.
pub open spec fn text_at(query: Query, place: int) -> Seq<char> {
    query.params[place]->Text_0
}

/// The text that may stand in a place of a query.
pub open spec fn optional_at(query: Query, place: int) -> Option<Seq<char>> {
    query.params[place]->OptionalText_0
}

/// The number that stands in a place of a query.
pub open spec fn number_at(query: Query, place: int) -> int {
    query.params[place]->BigInt_0
}

/// The document that stands in a place of a query.
pub open spec fn document_at(query: Query, place: int) -> Json {
    query.params[place]->Document_0
}

/// Neither the number nor the normalized name is that of a crate.
pub open spec fn can_add_crate(tables: Tables, id: int, normalized_name: Seq<char>) -> bool {
    &&& !tables.crates.dom().contains(id)
    &&& forall|other: int| #[trigger]
        tables.crates.dom().contains(other) ==> tables.crates[other].normalized_name
            != normalized_name
}

/// Finding or making a crate's row: a crate without one gets it under a new
/// number. No two crates share a normalized name, so that the database reports
/// no number for a crate whose normalized name is another's.
pub open spec fn upserts_crate(tables: Tables, query: Query, id: int, next: Tables) -> bool {
    if has_crate(tables, text_at(query, 0)) {
        is_crate(tables, id, text_at(query, 0)) && next == tables
    } else {
        &&& can_add_crate(tables, id, text_at(query, 1))
        &&& next == Tables {
            crates: tables.crates.insert(
                id,
                CrateRow { name: text_at(query, 0), normalized_name: text_at(query, 1) },
            ),
            ..tables
        }
    }
}

/// Reserving a version: where no version of the crate has its key, it is added
/// under a new number, and otherwise nothing changes.
pub open spec fn inserts_version(
    tables: Tables,
    query: Query,
    reserved: Option<i64>,
    next: Tables,
) -> bool {
    match reserved {
        None => is_key_taken(tables, number_at(query, 0), text_at(query, 2)) && next == tables,
        Some(id) => {
            &&& !is_key_taken(tables, number_at(query, 0), text_at(query, 2))
            &&& tables.crates.dom().contains(number_at(query, 0))
            &&& !tables.versions.dom().contains(id as int)
            &&& next == with_version(
                tables,
                id as int,
                VersionRow {
                    crate_id: number_at(query, 0),
                    version: text_at(query, 1),
                    semver_key: text_at(query, 2),
                    status: Status::Publishing,
                    yanked: false,
                    object_key: None,
                    checksum_sha256: None,
                    size_bytes: None,
                    metadata: document_at(query, 3),
                    index_entry: document_at(query, 4),
                    publisher_token_id: Some(text_at(query, 5)),
                    published_at: None,
                },
            )
        },
    }
}

/// A version made ready at a time.
pub open spec fn ready_row(
    row: VersionRow,
    object_key: Seq<char>,
    checksum: Seq<char>,
    size: int,
    time: int,
) -> VersionRow {
    VersionRow {
        status: Status::Ready,
        object_key: Some(object_key),
        checksum_sha256: Some(checksum),
        size_bytes: Some(size),
        published_at: Some(time),
        ..row
    }
}

/// The tables with a version made ready at a time.
pub open spec fn with_ready(tables: Tables, query: Query, time: int) -> Tables {
    let id = number_at(query, 0);
    with_version(
        tables,
        id,
        ready_row(
            tables.versions[id],
            text_at(query, 1),
            text_at(query, 2),
            number_at(query, 3),
            time,
        ),
    )
}

/// Making a version ready, which the database reports on where there is one. The
/// time is the one that the database's clock shows.
pub open spec fn finalizes_version(
    tables: Tables,
    query: Query,
    version: Seq<char>,
    publisher: Option<Seq<char>>,
    next: Tables,
) -> bool {
    let id = number_at(query, 0);
    &&& tables.versions.dom().contains(id)
    &&& version == tables.versions[id].version
    &&& publisher == tables.versions[id].publisher_token_id
    &&& exists|time: int| next == #[trigger] with_ready(tables, query, time)
}

/// The number is that of a version that is still being published.
pub open spec fn is_being_published(tables: Tables, id: int) -> bool {
    tables.versions.dom().contains(id) && tables.versions[id].status is Publishing
}

/// The tables with a version marked as failed that was still being published;
/// any other stays as it is.
pub open spec fn with_failure(tables: Tables, id: int) -> Tables {
    if is_being_published(tables, id) {
        with_version(tables, id, VersionRow { status: Status::Failed, ..tables.versions[id] })
    } else {
        tables
    }
}

/// What a statement does to the tables it sees, and what the database reports.
pub open spec fn changes(tables: Tables, work: Work, event: DbEvent, next: Tables) -> bool {
    match work {
        Work::UpsertCrate(query) => {
            &&& query.sql == UPSERT_CRATE@
            &&& event matches DbEvent::CrateId(id)
            &&& upserts_crate(tables, query, id as int, next)
        },
        Work::InsertVersion(query) => {
            &&& query.sql == INSERT_VERSION@
            &&& event matches DbEvent::VersionId(reserved)
            &&& inserts_version(tables, query, reserved, next)
        },
        Work::FinalizeVersion(query) => {
            &&& query.sql == FINALIZE_VERSION@
            &&& event matches DbEvent::Ready { version, publisher_token_id }
            &&& finalizes_version(
                tables,
                query,
                version@,
                optional_view(publisher_token_id),
                next,
            )
        },
        Work::FailVersion(query) => {
            &&& query.sql == FAIL_VERSION@
            &&& event matches DbEvent::Affected(rows)
            &&& rows == if is_being_published(tables, number_at(query, 0)) {
                1int
            } else {
                0
            }
            &&& next == with_failure(tables, number_at(query, 0))
        },
        Work::SetYanked(query) => {
            &&& query.sql == SET_YANKED@
            &&& event matches DbEvent::Affected(rows)
            &&& rows > 0 <==> has_ready(tables, text_at(query, 0), text_at(query, 1))
            &&& next == with_mark(
                tables,
                text_at(query, 0),
                text_at(query, 1),
                query.params[2]->Flag_0,
            )
        },
        Work::RecordEvent(query) => {
            &&& query.sql == RECORD_EVENT@
            &&& event == DbEvent::Affected(1)
            &&& next == with_event(
                tables,
                EventRow {
                    event_type: text_at(query, 0),
                    actor_token_id: optional_at(query, 1),
                    crate_name: optional_at(query, 2),
                    crate_version: optional_at(query, 3),
                    payload: document_at(query, 4),
                },
            )
        },
        _ => false,
    }
}

/// What a command does to the database where it does not fail.
pub open spec fn carried_out(db: Database, work: Work, event: DbEvent, next: Database) -> bool {
    match work {
        Work::Begin => {
            &&& event is Done
            &&& next == Database { open: Some(db.kept), ..db }
        },
        Work::Commit => {
            &&& event is Done
            &&& next == Database { kept: seen(db), open: None }
        },
        Work::Rollback => {
            &&& event is Done
            &&& next == Database { open: None, ..db }
        },
        _ => exists|tables: Tables| #[trigger]
            changes(seen(db), work, event, tables) && next == with_seen(db, tables),
    }
}

/// The database carries out the work of the task and reports the event, after
/// which the step follows.
pub open spec fn advances(
    task: RepoTask,
    work: Work,
    db: Database,
    event: DbEvent,
    after: Database,
    step: RepoStep,
) -> bool {
    &&& carried_out(db, work, event, after)
    &&& answers(task, event)
    &&& repo_goes_on(task, event, step)
}

/// The task, with the work it has asked for, can come to the outcome and leave
/// the database like this, each command being carried out.
pub open spec fn comes_to(
    task: RepoTask,
    work: Work,
    db: Database,
    outcome: RepoOutcome,
    end: Database,
) -> bool
    decreases tasks_left(task),
{
    exists|event: DbEvent, after: Database, step: RepoStep| #[trigger]
        advances(task, work, db, event, after, step) && match step {
            RepoStep::Return(result) => result == outcome && end == after,
            RepoStep::Run(next, command) => tasks_left(next) < tasks_left(task) && comes_to(
                next,
                command@,
                after,
                outcome,
                end,
            ),
        }
}

/// The first event on the way to the outcome, and what follows it.
proof fn lemma_first_step(
    task: RepoTask,
    work: Work,
    db: Database,
    outcome: RepoOutcome,
    end: Database,
) -> (first: (DbEvent, Database, RepoStep))
    requires
        comes_to(task, work, db, outcome, end),
    ensures
        advances(task, work, db, first.0, first.1, first.2),
        match first.2 {
            RepoStep::Return(result) => result == outcome && end == first.1,
            RepoStep::Run(next, command) => comes_to(next, command@, first.1, outcome, end),
        },
{
    choose|event: DbEvent, after: Database, step: RepoStep| #[trigger]
        advances(task, work, db, event, after, step) && match step {
            RepoStep::Return(result) => result == outcome && end == after,
            RepoStep::Run(next, command) => tasks_left(next) < tasks_left(task) && comes_to(
                next,
                command@,
                after,
                outcome,
                end,
            ),
        }
}

/// A database with no transaction open.
pub open spec fn at_rest(tables: Tables) -> Database {
    Database { kept: tables, open: None }
}

/// Nothing is kept of an open transaction before it is committed.
pub proof fn law_unfinished_changes_are_not_kept(
    db: Database,
    work: Work,
    event: DbEvent,
    after: Database,
)
    requires
        db.open is Some,
        !(work is Commit),
        carried_out(db, work, event, after),
    ensures
        after.kept == db.kept,
{
}

/// The event of setting or clearing the yanked mark of a version.
pub open spec fn yank_row(crate_name: Seq<char>, version: Seq<char>, yanked: bool) -> EventRow {
    EventRow {
        event_type: yank_event(yanked),
        actor_token_id: None,
        crate_name: Some(crate_name),
        crate_version: Some(version),
        payload: Json::Object(no_members()),
    }
}

/// Yanking a version, or taking that back, succeeds exactly when the crate has
/// that version and it is ready. Then its mark is set as asked, whatever it was,
/// one event is recorded, and nothing else changes. Otherwise nothing changes.
pub proof fn law_yank_marks_the_version(
    crate_name: String,
    version: String,
    yanked: bool,
    tables: Tables,
    outcome: RepoOutcome,
    end: Database,
)
    requires
        comes_to(
            RepoTask::OpenYank { crate_name, version, yanked },
            Work::Begin,
            at_rest(tables),
            outcome,
            end,
        ),
    ensures
        outcome == RepoOutcome::Yanked(has_ready(tables, crate_name@, version@)),
        end == at_rest(
            if has_ready(tables, crate_name@, version@) {
                with_event(
                    with_mark(tables, crate_name@, version@, yanked),
                    yank_row(crate_name@, version@, yanked),
                )
            } else {
                tables
            },
        ),
{
    reveal_with_fuel(comes_to, 4);
}

/// What holds of the tables at all times: no two crates share a name or a
/// normalized name, a version belongs to a crate and has the key of what it is
/// written as, no two versions of a crate share a key, and of a ready version it
/// is known where its tarball is and when it was published. Index entries are
/// objects.
pub open spec fn is_valid(tables: Tables) -> bool {
    &&& forall|a: int, b: int|
        #![trigger tables.crates[a], tables.crates[b]]
        tables.crates.dom().contains(a) && tables.crates.dom().contains(b) && (
        tables.crates[a].name == tables.crates[b].name || tables.crates[a].normalized_name
            == tables.crates[b].normalized_name) ==> a == b
    &&& forall|id: int| #[trigger]
        tables.versions.dom().contains(id) ==> has_own_key(tables.versions[id])
            && is_complete(tables.versions[id]) && tables.versions[id].index_entry is Object
            && tables.crates.dom().contains(tables.versions[id].crate_id)
    &&& forall|a: int, b: int|
        #![trigger tables.versions[a], tables.versions[b]]
        tables.versions.dom().contains(a) && tables.versions.dom().contains(b)
            && tables.versions[a].crate_id == tables.versions[b].crate_id
            && tables.versions[a].semver_key == tables.versions[b].semver_key ==> a == b
}

/// The key is that of the version as it is written.
pub open spec fn is_key_for(key: Seq<char>, version: Seq<char>) -> bool {
    semver_reading(version) matches Some(release) && key == version_text(without_build(release))
}

/// The version has the key of what it is written as.
pub open spec fn has_own_key(row: VersionRow) -> bool {
    is_key_for(row.semver_key, row.version)
}

/// Of a ready version it is known where its tarball is and when it was published.
pub open spec fn is_complete(row: VersionRow) -> bool {
    row.status is Ready ==> row.object_key is Some && row.published_at is Some
}

/// A crate has at most one ready version that is written like this.
pub proof fn law_one_version_is_meant(
    tables: Tables,
    a: int,
    b: int,
    crate_name: Seq<char>,
    version: Seq<char>,
)
    requires
        is_valid(tables),
        is_ready(tables, a, crate_name, version),
        is_ready(tables, b, crate_name, version),
    ensures
        a == b,
{
    let crate_a = tables.versions[a].crate_id;
    let crate_b = tables.versions[b].crate_id;
    assert(tables.crates[crate_a].name == tables.crates[crate_b].name);
    assert(has_own_key(tables.versions[a]) && has_own_key(tables.versions[b]));
}

/// Yanking keeps which versions are ready and where their tarballs are: a yanked
/// version can still be downloaded.
pub proof fn law_yanked_versions_stay(
    tables: Tables,
    crate_name: Seq<char>,
    version: Seq<char>,
    yanked: bool,
    id: int,
    other_name: Seq<char>,
    other_version: Seq<char>,
)
    ensures
        is_ready(with_mark(tables, crate_name, version, yanked), id, other_name, other_version)
            <==> is_ready(tables, id, other_name, other_version),
        tables.versions.dom().contains(id) ==> with_mark(
            tables,
            crate_name,
            version,
            yanked,
        ).versions[id].object_key == tables.versions[id].object_key,
{
}

/// A version that was yanked and then unyanked is not yanked, whatever its mark
/// was before, and all else is as it was, but for the two events.
pub proof fn law_unyank_undoes_yank(
    crate_name: String,
    version: String,
    tables: Tables,
    yanked: RepoOutcome,
    between: Tables,
    unyanked: RepoOutcome,
    end: Database,
)
    requires
        has_ready(tables, crate_name@, version@),
        comes_to(
            RepoTask::OpenYank { crate_name, version, yanked: true },
            Work::Begin,
            at_rest(tables),
            yanked,
            at_rest(between),
        ),
        comes_to(
            RepoTask::OpenYank { crate_name, version, yanked: false },
            Work::Begin,
            at_rest(between),
            unyanked,
            end,
        ),
    ensures
        yanked == RepoOutcome::Yanked(true),
        unyanked == RepoOutcome::Yanked(true),
        end == at_rest(
            with_event(
                with_event(
                    with_mark(tables, crate_name@, version@, false),
                    yank_row(crate_name@, version@, true),
                ),
                yank_row(crate_name@, version@, false),
            ),
        ),
{
    law_yank_marks_the_version(crate_name, version, true, tables, yanked, at_rest(between));
    law_yank_marks_the_version(crate_name, version, false, between, unyanked, end);
    let id = choose|id: int| is_ready(tables, id, crate_name@, version@);
    assert(is_ready(between, id, crate_name@, version@));
    let once = with_mark(tables, crate_name@, version@, false);
    let twice = with_mark(between, crate_name@, version@, false);
    assert forall|other: int| #[trigger]
        tables.versions.dom().contains(other) implies once.versions[other]
        == twice.versions[other] by {
        assert(is_ready(between, other, crate_name@, version@) == is_ready(
            tables,
            other,
            crate_name@,
            version@,
        ));
    }
    assert(once.versions =~= twice.versions);
}

/// A version of the crate has the key.
pub open spec fn is_published(tables: Tables, crate_name: Seq<char>, key: Seq<char>) -> bool {
    exists|crate_id: int| #[trigger]
        is_crate(tables, crate_id, crate_name) && is_key_taken(tables, crate_id, key)
}

/// The tables with a row for the crate under the number; one that is there stays.
pub open spec fn with_crate(
    tables: Tables,
    id: int,
    name: Seq<char>,
    normalized_name: Seq<char>,
) -> Tables {
    if has_crate(tables, name) {
        tables
    } else {
        Tables { crates: tables.crates.insert(id, CrateRow { name, normalized_name }), ..tables }
    }
}

/// A version as it is reserved.
pub open spec fn reserved_row(crate_id: int, input: PublishStartInput) -> VersionRow {
    VersionRow {
        crate_id,
        version: input.version@,
        semver_key: input.semver_key@,
        status: Status::Publishing,
        yanked: false,
        object_key: None,
        checksum_sha256: None,
        size_bytes: None,
        metadata: document(input.metadata),
        index_entry: document(input.index_entry),
        publisher_token_id: Some(input.publisher_token_id@),
        published_at: None,
    }
}

/// The event of reserving a version.
pub open spec fn started_row(input: PublishStartInput) -> EventRow {
    EventRow {
        event_type: "publish_started"@,
        actor_token_id: Some(input.publisher_token_id@),
        crate_name: Some(input.name@),
        crate_version: Some(input.version@),
        payload: Json::Object(no_members()),
    }
}

/// The version is reserved under the number: its crate has a row, the version is
/// added to it as being published, one event is recorded, and nothing else
/// changes.
pub open spec fn reserves(
    tables: Tables,
    input: PublishStartInput,
    crate_id: int,
    id: int,
    next: Tables,
) -> bool {
    let with_row = with_crate(tables, crate_id, input.name@, input.normalized_name@);
    &&& has_crate(tables, input.name@) || can_add_crate(
        tables,
        crate_id,
        input.normalized_name@,
    )
    &&& is_crate(with_row, crate_id, input.name@)
    &&& !tables.versions.dom().contains(id)
    &&& next == with_event(
        with_version(with_row, id, reserved_row(crate_id, input)),
        started_row(input),
    )
}

/// Reserving a version succeeds exactly when no version of the crate has its
/// key. Then it is added as being published; otherwise nothing changes.
pub proof fn law_reserve_adds_the_version(
    input: PublishStartInput,
    tables: Tables,
    outcome: RepoOutcome,
    end: Database,
)
    requires
        is_valid(tables),
        comes_to(RepoTask::OpenReserve(input), Work::Begin, at_rest(tables), outcome, end),
    ensures
        outcome matches RepoOutcome::Reserved(reserved) && match reserved {
            None => is_published(tables, input.name@, input.semver_key@) && end == at_rest(tables),
            Some(id) => {
                &&& !is_published(tables, input.name@, input.semver_key@)
                &&& end.open is None
                &&& exists|crate_id: int| #[trigger]
                    reserves(tables, input, crate_id, id as int, end.kept)
            },
        },
{
    let task = RepoTask::OpenReserve(input);
    let (_, opened, _) = lemma_first_step(task, Work::Begin, at_rest(tables), outcome, end);
    let upsert = Work::UpsertCrate(upsert_query(input));
    let task = RepoTask::ReserveCrate(input);
    let (found, with_row, _) = lemma_first_step(task, upsert, opened, outcome, end);
    let crate_id = found->CrateId_0;
    let task = RepoTask::ReserveVersion {
        name: input.name,
        version: input.version,
        publisher_token_id: input.publisher_token_id,
    };
    let insert = Work::InsertVersion(insert_query(crate_id, input));
    let (reserved, with_both, step) = lemma_first_step(task, insert, with_row, outcome, end);
    assert(seen(with_row) == with_crate(
        tables,
        crate_id as int,
        input.name@,
        input.normalized_name@,
    ));
    assert(is_crate(seen(with_row), crate_id as int, input.name@));
    match reserved->VersionId_0 {
        None => {
            assert(is_key_taken(seen(with_row), crate_id as int, input.semver_key@));
            assert(outcome == RepoOutcome::Reserved(None));
            assert(end == at_rest(tables));
            assert(is_published(tables, input.name@, input.semver_key@));
        },
        Some(id) => {
            assert(outcome == RepoOutcome::Reserved(Some(id)) && end.open is None) by {
                reveal_with_fuel(comes_to, 3);
            }
            assert(reserves(tables, input, crate_id as int, id as int, end.kept)) by {
                reveal_with_fuel(comes_to, 3);
            }
            assert(!is_published(tables, input.name@, input.semver_key@));
        },
    }
}

/// The event of making a version ready.
pub open spec fn ready_event(row: VersionRow, input: PublishFinalizeInput) -> EventRow {
    EventRow {
        event_type: "publish_ready"@,
        actor_token_id: row.publisher_token_id,
        crate_name: None,
        crate_version: Some(row.version),
        payload: ready_payload(input),
    }
}

/// The tables after a version was made ready at a time and that was recorded.
pub open spec fn with_finalized(tables: Tables, input: PublishFinalizeInput, time: int) -> Tables {
    let row = tables.versions[input.version_id as int];
    with_event(
        with_version(
            tables,
            input.version_id as int,
            ready_row(
                row,
                input.object_key@,
                input.checksum_sha256@,
                input.size_bytes as int,
                time,
            ),
        ),
        ready_event(row, input),
    )
}

/// Making a version ready changes how far it has come, where its tarball is and
/// since when, records one event, and leaves all else as it was.
pub proof fn law_finalize_makes_the_version_ready(
    input: PublishFinalizeInput,
    tables: Tables,
    outcome: RepoOutcome,
    end: Database,
)
    requires
        comes_to(RepoTask::OpenFinalize(input), Work::Begin, at_rest(tables), outcome, end),
    ensures
        outcome is Finalized,
        tables.versions.dom().contains(input.version_id as int),
        exists|time: int| end == at_rest(#[trigger] with_finalized(tables, input, time)),
{
    reveal_with_fuel(comes_to, 4);
    let time = end.kept.versions[input.version_id as int].published_at.unwrap();
    assert(end == at_rest(with_finalized(tables, input, time)));
}

/// The event of noting that a version could not be published.
pub open spec fn failed_event(version_id: i64, reason: Seq<char>) -> EventRow {
    EventRow {
        event_type: "publish_failed"@,
        actor_token_id: None,
        crate_name: None,
        crate_version: None,
        payload: failure_payload(version_id, reason),
    }
}

/// Noting a failure marks a version that was still being published and no other,
/// so that a ready version stays ready. One event is recorded either way.
pub proof fn law_failure_marks_the_version(
    version_id: i64,
    reason: String,
    tables: Tables,
    outcome: RepoOutcome,
    end: Database,
)
    requires
        comes_to(
            RepoTask::Fail { version_id, reason },
            Work::FailVersion(fail_query(version_id)),
            at_rest(tables),
            outcome,
            end,
        ),
    ensures
        outcome is FailureNoted,
        end == at_rest(
            with_event(
                with_failure(tables, version_id as int),
                failed_event(version_id, reason@),
            ),
        ),
{
    reveal_with_fuel(comes_to, 2);
}

/// The version is to be reserved under its own key, with an object as its entry.
pub open spec fn is_well_made(input: PublishStartInput) -> bool {
    is_key_for(input.semver_key@, input.version@) && document(input.index_entry) is Object
}

/// A change as the library begins it.
pub open spec fn begins_change(task: RepoTask, work: Work) -> bool {
    match task {
        RepoTask::OpenReserve(input) => work is Begin && is_well_made(input),
        RepoTask::OpenFinalize(_) => work is Begin,
        RepoTask::Fail { version_id, .. } => work == Work::FailVersion(fail_query(version_id)),
        RepoTask::OpenYank { .. } => work is Begin,
        _ => false,
    }
}

/// Reserving a version keeps the tables valid.
proof fn lemma_reserving_keeps_valid(
    tables: Tables,
    input: PublishStartInput,
    crate_id: int,
    id: int,
    next: Tables,
)
    requires
        is_valid(tables),
        is_well_made(input),
        !is_published(tables, input.name@, input.semver_key@),
        reserves(tables, input, crate_id, id, next),
    ensures
        is_valid(next),
{
    assert forall|a: int, b: int|
        #![trigger next.crates[a], next.crates[b]]
        next.crates.dom().contains(a) && next.crates.dom().contains(b) && (next.crates[a].name
            == next.crates[b].name || next.crates[a].normalized_name
            == next.crates[b].normalized_name) implies a == b by {
        if !has_crate(tables, input.name@) {
            assert(a != crate_id ==> !is_crate(tables, a, input.name@));
            assert(b != crate_id ==> !is_crate(tables, b, input.name@));
            assert(a != crate_id ==> tables.crates.dom().contains(a));
            assert(b != crate_id ==> tables.crates.dom().contains(b));
        }
        assert(a != crate_id ==> next.crates[a] == tables.crates[a]);
        assert(b != crate_id ==> next.crates[b] == tables.crates[b]);
    }
    assert forall|other: int| #[trigger]
        next.versions.dom().contains(other) implies has_own_key(next.versions[other])
        && is_complete(next.versions[other]) && next.versions[other].index_entry is Object
        && next.crates.dom().contains(next.versions[other].crate_id) by {
        assert(other != id ==> tables.versions.dom().contains(other));
    }
    assert(!is_key_taken(tables, crate_id, input.semver_key@));
    assert forall|a: int, b: int|
        #![trigger next.versions[a], next.versions[b]]
        next.versions.dom().contains(a) && next.versions.dom().contains(b)
            && next.versions[a].crate_id == next.versions[b].crate_id
            && next.versions[a].semver_key == next.versions[b].semver_key implies a == b by {
        assert(a != id ==> next.versions[a] == tables.versions[a]);
        assert(b != id ==> next.versions[b] == tables.versions[b]);
        assert(a != id ==> !is_key_of(tables, a, crate_id, input.semver_key@));
        assert(b != id ==> !is_key_of(tables, b, crate_id, input.semver_key@));
    }
}

/// Every change keeps the tables valid, and leaves no transaction open.
pub proof fn law_tables_stay_valid(
    task: RepoTask,
    work: Work,
    tables: Tables,
    outcome: RepoOutcome,
    end: Database,
)
    requires
        is_valid(tables),
        begins_change(task, work),
        comes_to(task, work, at_rest(tables), outcome, end),
    ensures
        end.open is None,
        is_valid(end.kept),
{
    match task {
        RepoTask::OpenReserve(input) => {
            law_reserve_adds_the_version(input, tables, outcome, end);
            if let RepoOutcome::Reserved(Some(id)) = outcome {
                let crate_id = choose|crate_id: int| #[trigger]
                    reserves(tables, input, crate_id, id as int, end.kept);
                lemma_reserving_keeps_valid(tables, input, crate_id, id as int, end.kept);
            }
        },
        RepoTask::OpenFinalize(input) => {
            law_finalize_makes_the_version_ready(input, tables, outcome, end);
        },
        RepoTask::Fail { version_id, reason } => {
            law_failure_marks_the_version(version_id, reason, tables, outcome, end);
        },
        RepoTask::OpenYank { crate_name, version, yanked } => {
            law_yank_marks_the_version(crate_name, version, yanked, tables, outcome, end);
        },
        _ => {},
    }
}

/// A version that is reserved and then made ready can be found by the names that
/// it was published under, with the tarball and the index entry that it was
/// published with, and not yanked. Before it is made ready it is not found.
pub proof fn law_published_versions_are_found(
    input: PublishStartInput,
    stored: PublishFinalizeInput,
    tables: Tables,
    between: Tables,
    outcome: RepoOutcome,
    end: Database,
)
    requires
        is_valid(tables),
        comes_to(
            RepoTask::OpenReserve(input),
            Work::Begin,
            at_rest(tables),
            RepoOutcome::Reserved(Some(stored.version_id)),
            at_rest(between),
        ),
        comes_to(RepoTask::OpenFinalize(stored), Work::Begin, at_rest(between), outcome, end),
    ensures
        ({
            let id = stored.version_id as int;
            &&& !is_ready(between, id, input.name@, input.version@)
            &&& is_ready(end.kept, id, input.name@, input.version@)
            &&& end.kept.versions[id].object_key == Some(stored.object_key@)
            &&& end.kept.versions[id].index_entry == document(input.index_entry)
            &&& !end.kept.versions[id].yanked
            &&& is_published(end.kept, input.name@, input.semver_key@)
        }),
{
    let id = stored.version_id as int;
    law_reserve_adds_the_version(
        input,
        tables,
        RepoOutcome::Reserved(Some(stored.version_id)),
        at_rest(between),
    );
    law_finalize_makes_the_version_ready(stored, between, outcome, end);
    let crate_id = choose|crate_id: int| #[trigger]
        reserves(tables, input, crate_id, id, between);
    assert(is_crate(end.kept, crate_id, input.name@));
    assert(is_key_of(end.kept, id, crate_id, input.semver_key@));
}

/// Looking for the tarball of a version: where the crate has that version and it
/// is ready, its tarball is found.
pub open spec fn finds_tarball(tables: Tables, query: Query, key: Option<Seq<char>>) -> bool {
    &&& query.sql == SELECT_DOWNLOAD@
    &&& match key {
        Some(_) => exists|id: int| #[trigger]
            is_ready(tables, id, text_at(query, 0), text_at(query, 1))
                && tables.versions[id].object_key == key,
        None => !has_ready(tables, text_at(query, 0), text_at(query, 1)),
    }
}

/// Looking for the tarball of a version that was published gives the one that it
/// was published with, also after it has been yanked or unyanked.
pub proof fn law_published_tarballs_are_found(
    input: PublishStartInput,
    stored: PublishFinalizeInput,
    tables: Tables,
    between: Tables,
    outcome: RepoOutcome,
    published: Tables,
    yanked: bool,
    query: Query,
    key: Option<Seq<char>>,
)
    requires
        is_valid(tables),
        is_well_made(input),
        comes_to(
            RepoTask::OpenReserve(input),
            Work::Begin,
            at_rest(tables),
            RepoOutcome::Reserved(Some(stored.version_id)),
            at_rest(between),
        ),
        comes_to(
            RepoTask::OpenFinalize(stored),
            Work::Begin,
            at_rest(between),
            outcome,
            at_rest(published),
        ),
        query == download_query(input.name@, input.version@),
        finds_tarball(published, query, key) || finds_tarball(
            with_mark(published, input.name@, input.version@, yanked),
            query,
            key,
        ),
    ensures
        key == Some(stored.object_key@),
{
    let id = stored.version_id as int;
    let reserved = RepoOutcome::Reserved(Some(stored.version_id));
    let finalize = RepoTask::OpenFinalize(stored);
    law_published_versions_are_found(input, stored, tables, between, outcome, at_rest(published));
    law_tables_stay_valid(
        RepoTask::OpenReserve(input),
        Work::Begin,
        tables,
        reserved,
        at_rest(between),
    );
    law_tables_stay_valid(finalize, Work::Begin, between, outcome, at_rest(published));
    let marked = with_mark(published, input.name@, input.version@, yanked);
    assert(is_ready(marked, id, input.name@, input.version@));
    assert forall|other: int|
        is_ready(published, other, input.name@, input.version@) || #[trigger] is_ready(
            marked,
            other,
            input.name@,
            input.version@,
        ) implies other == id by {
        law_one_version_is_meant(published, other, id, input.name@, input.version@);
    }
    assert forall|other: int| #[trigger]
        is_ready(published, other, input.name@, input.version@) implies other == id by {
        law_one_version_is_meant(published, other, id, input.name@, input.version@);
    }
}

/// A publish is reserved under the key of its version, with an object as its
/// index entry.
pub proof fn law_publishes_are_well_made(
    publish: NormalizedPublish,
    decoded: Option<PublishMetadata>,
    tarball: Seq<u8>,
    publisher: String,
    state: PublishState,
    action: PublishAction,
)
    requires
        normalizes(Ok(publish), decoded, tarball),
        begins(publish, publisher, state, action),
    ensures
        action matches PublishAction::Reserve(input) && is_well_made(input),
{
}

/// A version whose key one of the crate's versions has is not reserved: nothing
/// that was published is published over, not even where only the build metadata
/// differ.
pub proof fn law_versions_are_not_replaced(
    input: PublishStartInput,
    tables: Tables,
    outcome: RepoOutcome,
    end: Database,
)
    requires
        is_valid(tables),
        is_published(tables, input.name@, input.semver_key@),
        comes_to(RepoTask::OpenReserve(input), Work::Begin, at_rest(tables), outcome, end),
    ensures
        outcome == RepoOutcome::Reserved(None),
        end == at_rest(tables),
{
    law_reserve_adds_the_version(input, tables, outcome, end);
}

} // verus!
