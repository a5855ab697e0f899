//! The course of index, download and yank requests: nothing is asked of the
//! database or of the tarball store before the request has been checked.

use crate::crate_name::{validate_crate_name, validate_release};
use crate::error::AppError;
use crate::registry::{
    download_reply, found_download, render_sparse_index, yank_reply, CrateDownload,
    CrateDownloadRecord, IndexVersionRow,
};
use crate::version::SemVersion;
use serde_json::Value;
use vstd::prelude::*;
use vstd::string::*;

verus! {

use crate::crate_name::{name_fault, release_fault};
use crate::error::Fault;
use crate::json::document;
use crate::registry::{
    disposition, index_file, is_header_text, is_shown, line_count, ok_json,
};
use crate::version::semver_reading;
use vstd::utf8::encode_utf8;

/// How far an index request has come.
pub enum IndexState {
    /// The versions of the crate are being listed.
    Listing,
    /// Nothing is left to do.
    Finished,
}

/// What has come of the action before.
pub enum IndexEvent {
    /// The published versions, where there are any.
    Listed(Option<Vec<IndexVersionRow>>),
    ListFailed,
}

/// What is to be done next.
pub enum IndexAction {
    List { crate_name: String },
    /// The index file is the answer.
    Reply(String),
    /// The request is refused.
    Refuse(AppError),
    /// The error that listing met is the answer.
    PassError,
}

/// Begins to answer an index request.
pub fn start_index(crate_name: &str) -> (step: (IndexState, IndexAction))
    ensures
        match name_fault(crate_name@) {
            Some(fault) => {
                &&& step.0 is Finished
                &&& step.1 matches IndexAction::Refuse(error)
                &&& error@ == fault
            },
            None => {
                &&& step.0 is Listing
                &&& step.1 matches IndexAction::List { crate_name: name }
                &&& name@ == crate_name@
            },
        },
{
    match validate_crate_name(crate_name) {
        Ok(()) => (
            IndexState::Listing,
            IndexAction::List { crate_name: crate_name.to_owned() },
        ),
        Err(error) => (IndexState::Finished, IndexAction::Refuse(error)),
    }
}

/// The answer to an index request, once the versions have been listed.
pub open spec fn index_answer(event: IndexEvent, action: IndexAction) -> bool {
    match event {
        IndexEvent::Listed(None) => action matches IndexAction::Refuse(error) && error@
            == Fault::NotFound,
        IndexEvent::Listed(Some(rows)) => if forall|k: int|
            0 <= k < rows@.len() ==> is_shown(#[trigger] rows@[k]) {
            &&& action matches IndexAction::Reply(output)
            &&& output@ == index_file(rows@)
            &&& line_count(output@) == rows@.len()
        } else {
            &&& action matches IndexAction::Refuse(error)
            &&& error@ == Fault::Internal("stored crate index entry is not an object"@)
        },
        IndexEvent::ListFailed => action is PassError,
    }
}

/// Answers an index request whose crate is known.
pub fn continue_index(state: IndexState, event: IndexEvent) -> (step: (IndexState, IndexAction))
    requires
        state is Listing,
    ensures
        step.0 is Finished,
        index_answer(event, step.1),
{
    let action = match event {
        IndexEvent::Listed(versions) => match render_sparse_index(versions) {
            Ok(output) => IndexAction::Reply(output),
            Err(error) => IndexAction::Refuse(error),
        },
        IndexEvent::ListFailed => IndexAction::PassError,
    };
    (IndexState::Finished, action)
}

/// How far a download has come.
pub enum DownloadState {
    /// The record of the version is being looked up.
    Finding,
    /// The tarball is being fetched, to be handed out under the file name.
    Fetching { filename: String },
    /// Nothing is left to do.
    Finished,
}

/// What has come of the action before.
pub enum DownloadEvent {
    /// The record of the version, where there is one.
    Found(Option<CrateDownloadRecord>),
    FindFailed,
    Fetched(Vec<u8>),
    FetchFailed,
}

/// What is to be done next.
pub enum DownloadAction {
    Find { crate_name: String, version: String },
    Fetch { object_key: String },
    /// The tarball is the answer.
    Reply(CrateDownload),
    /// The request is refused.
    Refuse(AppError),
    /// The error that finding or fetching met is the answer.
    PassError,
}

/// The event can follow in the state.
pub open spec fn download_fits(state: DownloadState, event: DownloadEvent) -> bool {
    match state {
        DownloadState::Finding => event is Found || event is FindFailed,
        DownloadState::Fetching { .. } => event is Fetched || event is FetchFailed,
        DownloadState::Finished => false,
    }
}

/// How a download begins, given what is wrong with the name and the version.
pub open spec fn download_begins(
    fault: Option<Fault>,
    crate_name: Seq<char>,
    version: Seq<char>,
    state: DownloadState,
    action: DownloadAction,
) -> bool {
    match fault {
        Some(fault) => {
            &&& state is Finished
            &&& action matches DownloadAction::Refuse(error)
            &&& error@ == fault
        },
        None => {
            &&& state is Finding
            &&& action matches DownloadAction::Find { crate_name: name, version: number }
            &&& name@ == crate_name
            &&& number@ == version
        },
    }
}

/// How a download goes on.
pub open spec fn download_goes_on(
    state: DownloadState,
    event: DownloadEvent,
    next: DownloadState,
    action: DownloadAction,
) -> bool {
    match (state, event) {
        (DownloadState::Finding, DownloadEvent::Found(record)) => match record {
            Some(record) => {
                &&& next == (DownloadState::Fetching { filename: record.filename })
                &&& action == (DownloadAction::Fetch { object_key: record.object_key })
            },
            None => {
                &&& next is Finished
                &&& action matches DownloadAction::Refuse(error)
                &&& error@ == Fault::NotFound
            },
        },
        (DownloadState::Fetching { filename }, DownloadEvent::Fetched(bytes)) => {
            &&& next is Finished
            &&& if is_header_text(disposition(filename@)) {
                &&& action matches DownloadAction::Reply(download)
                &&& download.bytes == bytes
                &&& download.content_type@ == "application/octet-stream"@
                &&& download.content_disposition@ == encode_utf8(disposition(filename@))
            } else {
                &&& action matches DownloadAction::Refuse(error)
                &&& error@ == Fault::Internal("invalid crate filename"@)
            }
        },
        _ => next is Finished && action is PassError,
    }
}

/// Begins a download, given what came of checking the name and the version.
pub fn begin_download(
    crate_name: &str,
    version: &str,
    checked: Result<SemVersion, AppError>,
) -> (step: (DownloadState, DownloadAction))
    ensures
        download_begins(
            match checked {
                Ok(_) => None,
                Err(error) => Some(error@),
            },
            crate_name@,
            version@,
            step.0,
            step.1,
        ),
{
    match checked {
        Ok(_) => (
            DownloadState::Finding,
            DownloadAction::Find { crate_name: crate_name.to_owned(), version: version.to_owned() },
        ),
        Err(error) => (DownloadState::Finished, DownloadAction::Refuse(error)),
    }
}

/// Begins a download.
pub fn start_download(crate_name: &str, version: &str) -> (step: (DownloadState, DownloadAction))
    ensures
        download_begins(
            release_fault(crate_name@, semver_reading(version@)),
            crate_name@,
            version@,
            step.0,
            step.1,
        ),
{
    begin_download(crate_name, version, validate_release(crate_name, version))
}

/// Goes on with a download after an event.
pub fn continue_download(state: DownloadState, event: DownloadEvent) -> (step: (
    DownloadState,
    DownloadAction,
))
    requires
        download_fits(state, event),
    ensures
        download_goes_on(state, event, step.0, step.1),
{
    match (state, event) {
        (DownloadState::Finding, DownloadEvent::Found(record)) => match found_download(record) {
            Ok(record) => (
                DownloadState::Fetching { filename: record.filename },
                DownloadAction::Fetch { object_key: record.object_key },
            ),
            Err(error) => (DownloadState::Finished, DownloadAction::Refuse(error)),
        },
        (DownloadState::Fetching { filename }, DownloadEvent::Fetched(bytes)) => {
            let action = match download_reply(filename.as_str(), bytes) {
                Ok(download) => DownloadAction::Reply(download),
                Err(error) => DownloadAction::Refuse(error),
            };
            (DownloadState::Finished, action)
        },
        _ => (DownloadState::Finished, DownloadAction::PassError),
    }
}

/// How far a request to yank a version, or to take that back, has come.
pub enum YankState {
    /// The version is being marked.
    Marking,
    /// Nothing is left to do.
    Finished,
}

/// What has come of the action before.
pub enum YankEvent {
    /// Whether there is such a version.
    Marked(bool),
    MarkFailed,
}

/// What is to be done next.
pub enum YankAction {
    Mark { crate_name: String, version: String, yanked: bool },
    /// The request was carried out; this is the answer.
    Reply(Value),
    /// The request is refused.
    Refuse(AppError),
    /// The error that marking met is the answer.
    PassError,
}

/// How a yank begins, given what is wrong with the name and the version.
pub open spec fn yank_begins(
    fault: Option<Fault>,
    crate_name: Seq<char>,
    version: Seq<char>,
    yanked: bool,
    state: YankState,
    action: YankAction,
) -> bool {
    match fault {
        Some(fault) => {
            &&& state is Finished
            &&& action matches YankAction::Refuse(error)
            &&& error@ == fault
        },
        None => {
            &&& state is Marking
            &&& action matches YankAction::Mark { crate_name: name, version: number, yanked: mark }
            &&& name@ == crate_name
            &&& number@ == version
            &&& mark == yanked
        },
    }
}

/// Begins to yank a version, or to take that back, given what came of checking
/// the name and the version.
pub fn begin_yank(
    crate_name: &str,
    version: &str,
    yanked: bool,
    checked: Result<SemVersion, AppError>,
) -> (step: (YankState, YankAction))
    ensures
        yank_begins(
            match checked {
                Ok(_) => None,
                Err(error) => Some(error@),
            },
            crate_name@,
            version@,
            yanked,
            step.0,
            step.1,
        ),
{
    match checked {
        Ok(_) => (
            YankState::Marking,
            YankAction::Mark {
                crate_name: crate_name.to_owned(),
                version: version.to_owned(),
                yanked,
            },
        ),
        Err(error) => (YankState::Finished, YankAction::Refuse(error)),
    }
}

/// Begins to yank a version, or to take that back.
pub fn start_yank(crate_name: &str, version: &str, yanked: bool) -> (step: (YankState, YankAction))
    ensures
        yank_begins(
            release_fault(crate_name@, semver_reading(version@)),
            crate_name@,
            version@,
            yanked,
            step.0,
            step.1,
        ),
{
    begin_yank(crate_name, version, yanked, validate_release(crate_name, version))
}

/// Answers a request to yank a version or to take that back.
pub fn continue_yank(state: YankState, event: YankEvent) -> (step: (YankState, YankAction))
    requires
        state is Marking,
    ensures
        step.0 is Finished,
        match event {
            YankEvent::Marked(true) => step.1 matches YankAction::Reply(reply) && document(reply)
                == ok_json(),
            YankEvent::Marked(false) => step.1 matches YankAction::Refuse(error) && error@
                == Fault::NotFound,
            YankEvent::MarkFailed => step.1 is PassError,
        },
{
    let action = match event {
        YankEvent::Marked(found) => match yank_reply(found) {
            Ok(reply) => YankAction::Reply(reply),
            Err(error) => YankAction::Refuse(error),
        },
        YankEvent::MarkFailed => YankAction::PassError,
    };
    (YankState::Finished, action)
}

/// A download that meets no obstacle looks up exactly the version asked for,
/// fetches the tarball of the record found, and hands out what was fetched under
/// the name in the record.
pub proof fn law_download_succeeds(
    crate_name: Seq<char>,
    version: Seq<char>,
    record: CrateDownloadRecord,
    bytes: Vec<u8>,
    finding: DownloadState,
    fetching: DownloadState,
    finished: DownloadState,
    find: DownloadAction,
    fetch: DownloadAction,
    answer: DownloadAction,
)
    requires
        is_header_text(disposition(record.filename@)),
        download_begins(None, crate_name, version, finding, find),
        download_goes_on(finding, DownloadEvent::Found(Some(record)), fetching, fetch),
        download_goes_on(fetching, DownloadEvent::Fetched(bytes), finished, answer),
    ensures
        download_fits(finding, DownloadEvent::Found(Some(record))),
        download_fits(fetching, DownloadEvent::Fetched(bytes)),
        find matches DownloadAction::Find { crate_name: name, version: number } && name@
            == crate_name && number@ == version,
        fetch == (DownloadAction::Fetch { object_key: record.object_key }),
        answer matches DownloadAction::Reply(download) && download.bytes == bytes
            && download.content_disposition@ == encode_utf8(disposition(record.filename@)),
        finished is Finished,
{
}

/// A tarball is fetched only after its record has been found, and handed out
/// only after it has been fetched.
pub proof fn law_order_of_download(
    state: DownloadState,
    event: DownloadEvent,
    next: DownloadState,
    action: DownloadAction,
)
    requires
        download_fits(state, event),
        download_goes_on(state, event, next, action),
    ensures
        !(action is Find),
        action is Fetch <==> (event matches DownloadEvent::Found(record) && record is Some),
        action is Reply ==> event is Fetched,
        next is Finished <==> !(action is Fetch),
{
}

} // verus!
