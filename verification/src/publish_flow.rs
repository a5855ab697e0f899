//! The course of a publish: a version is reserved, its tarball is stored, and
//! then the version is made ready; or the failure is noted.

use crate::error::AppError;
use crate::publish::NormalizedPublish;
use crate::registry::publish_reply;
use serde_json::Value;
use vstd::prelude::*;
use vstd::string::*;

verus! {

use crate::error::Fault;
use crate::json::document;
use crate::registry::publish_json;

/// What reserves a version.
pub struct PublishStartInput {
    pub name: String,
    pub normalized_name: String,
    pub version: String,
    pub semver_key: String,
    pub metadata: Value,
    pub index_entry: Value,
    pub publisher_token_id: String,
}

impl Clone for PublishStartInput {
    fn clone(&self) -> (copy: Self)
        ensures
            copy.name == self.name,
            copy.normalized_name == self.normalized_name,
            copy.version == self.version,
            copy.semver_key == self.semver_key,
            document(copy.metadata) == document(self.metadata),
            document(copy.index_entry) == document(self.index_entry),
            copy.publisher_token_id == self.publisher_token_id,
    {
        PublishStartInput {
            name: self.name.clone(),
            normalized_name: self.normalized_name.clone(),
            version: self.version.clone(),
            semver_key: self.semver_key.clone(),
            metadata: self.metadata.clone(),
            index_entry: self.index_entry.clone(),
            publisher_token_id: self.publisher_token_id.clone(),
        }
    }
}

/// What makes a reserved version ready.
pub struct PublishFinalizeInput {
    pub version_id: i64,
    pub object_key: String,
    pub checksum_sha256: String,
    pub size_bytes: i64,
}

impl Clone for PublishFinalizeInput {
    fn clone(&self) -> (copy: Self)
        ensures
            copy == *self,
    {
        PublishFinalizeInput {
            version_id: self.version_id,
            object_key: self.object_key.clone(),
            checksum_sha256: self.checksum_sha256.clone(),
            size_bytes: self.size_bytes,
        }
    }
}

/// How far a publish has come.
pub enum PublishState {
    /// The version is being reserved.
    Reserving {
        name: String,
        version: String,
        object_key: String,
        checksum_sha256: String,
        crate_bytes: Vec<u8>,
    },
    /// The tarball is being stored.
    Storing { version_id: i64, object_key: String, checksum_sha256: String, size_bytes: i64 },
    /// It is being noted that the tarball could not be stored.
    Failing,
    /// The version is being made ready.
    Finalizing,
    /// Nothing is left to do.
    Finished,
}

/// What has come of the action before.
pub enum PublishEvent {
    /// The version has the number, or was there before.
    Reserved(Option<i64>),
    ReserveFailed,
    Stored,
    StoreFailed { reason: String },
    /// The failure was noted, or could not be.
    FailureNoted,
    Finalized,
    FinalizeFailed,
}

/// What is to be done next.
pub enum PublishAction {
    Reserve(PublishStartInput),
    Store { object_key: String, crate_bytes: Vec<u8> },
    NoteFailure { version_id: i64, reason: String },
    Finalize(PublishFinalizeInput),
    /// The publish has succeeded; this is the answer.
    Reply(Value),
    /// The publish is refused.
    Refuse(AppError),
    /// The error that reserving, storing or finalizing met is the answer.
    PassError,
}

/// The event can follow in the state.
pub open spec fn fits(state: PublishState, event: PublishEvent) -> bool {
    match state {
        PublishState::Reserving { .. } => event is Reserved || event is ReserveFailed,
        PublishState::Storing { .. } => event is Stored || event is StoreFailed,
        PublishState::Failing => event is FailureNoted,
        PublishState::Finalizing => event is Finalized || event is FinalizeFailed,
        PublishState::Finished => false,
    }
}

/// How a publish begins: the version is to be reserved for the publisher.
pub open spec fn begins(
    publish: NormalizedPublish,
    publisher: String,
    state: PublishState,
    action: PublishAction,
) -> bool {
    &&& state == (PublishState::Reserving {
        name: publish.name,
        version: publish.version,
        object_key: publish.object_key,
        checksum_sha256: publish.checksum_sha256,
        crate_bytes: publish.crate_bytes,
    })
    &&& action == PublishAction::Reserve(
        PublishStartInput {
            name: publish.name,
            normalized_name: publish.normalized_name,
            version: publish.version,
            semver_key: publish.semver_key,
            metadata: publish.metadata,
            index_entry: publish.index_entry,
            publisher_token_id: publisher,
        },
    )
}

/// How a publish goes on.
pub open spec fn goes_on(
    state: PublishState,
    event: PublishEvent,
    next: PublishState,
    action: PublishAction,
) -> bool {
    match (state, event) {
        (
            PublishState::Reserving { name, version, object_key, checksum_sha256, crate_bytes },
            PublishEvent::Reserved(reserved),
        ) => match reserved {
            Some(version_id) => {
                &&& next == (PublishState::Storing {
                    version_id,
                    object_key,
                    checksum_sha256,
                    size_bytes: crate_bytes@.len() as i64,
                })
                &&& action == (PublishAction::Store { object_key, crate_bytes })
            },
            None => {
                &&& next is Finished
                &&& action matches PublishAction::Refuse(error)
                &&& error@ == Fault::Conflict(name@ + " "@ + version@ + " already exists"@)
            },
        },
        (
            PublishState::Storing { version_id, object_key, checksum_sha256, size_bytes },
            PublishEvent::Stored,
        ) => {
            &&& next is Finalizing
            &&& action == PublishAction::Finalize(
                PublishFinalizeInput { version_id, object_key, checksum_sha256, size_bytes },
            )
        },
        (PublishState::Storing { version_id, .. }, PublishEvent::StoreFailed { reason }) => {
            &&& next is Failing
            &&& action == (PublishAction::NoteFailure { version_id, reason })
        },
        (PublishState::Finalizing, PublishEvent::Finalized) => {
            &&& next is Finished
            &&& action matches PublishAction::Reply(reply)
            &&& document(reply) == publish_json()
        },
        _ => next is Finished && action is PassError,
    }
}

/// Begins to publish what was read from a request.
pub fn start_publish(publish: NormalizedPublish, publisher_token_id: String) -> (step: (
    PublishState,
    PublishAction,
))
    ensures
        begins(publish, publisher_token_id, step.0, step.1),
{
    let state = PublishState::Reserving {
        name: publish.name.clone(),
        version: publish.version.clone(),
        object_key: publish.object_key,
        checksum_sha256: publish.checksum_sha256,
        crate_bytes: publish.crate_bytes,
    };
    let action = PublishAction::Reserve(
        PublishStartInput {
            name: publish.name,
            normalized_name: publish.normalized_name,
            version: publish.version,
            semver_key: publish.semver_key,
            metadata: publish.metadata,
            index_entry: publish.index_entry,
            publisher_token_id,
        },
    );
    (state, action)
}

/// The text that refuses a version that is there already.
fn conflict_text(name: &str, version: &str) -> (text: String)
    ensures
        text@ == name@ + " "@ + version@ + " already exists"@,
{
    let mut text = name.to_owned();
    text.append(" ");
    text.append(version);
    text.append(" already exists");
    text
}

/// Goes on with a publish after an event.
pub fn continue_publish(state: PublishState, event: PublishEvent) -> (step: (
    PublishState,
    PublishAction,
))
    requires
        fits(state, event),
    ensures
        goes_on(state, event, step.0, step.1),
{
    match (state, event) {
        (
            PublishState::Reserving { name, version, object_key, checksum_sha256, crate_bytes },
            PublishEvent::Reserved(reserved),
        ) => match reserved {
            Some(version_id) => {
                let size_bytes: i64 = crate_bytes.len() as i64;
                let stored_under = object_key.clone();
                (
                    PublishState::Storing { version_id, object_key, checksum_sha256, size_bytes },
                    PublishAction::Store { object_key: stored_under, crate_bytes },
                )
            },
            None => (
                PublishState::Finished,
                PublishAction::Refuse(
                    AppError::Conflict(conflict_text(name.as_str(), version.as_str())),
                ),
            ),
        },
        (
            PublishState::Storing { version_id, object_key, checksum_sha256, size_bytes },
            PublishEvent::Stored,
        ) => (
            PublishState::Finalizing,
            PublishAction::Finalize(
                PublishFinalizeInput { version_id, object_key, checksum_sha256, size_bytes },
            ),
        ),
        (PublishState::Storing { version_id, .. }, PublishEvent::StoreFailed { reason }) => (
            PublishState::Failing,
            PublishAction::NoteFailure { version_id, reason },
        ),
        (PublishState::Finalizing, PublishEvent::Finalized) => (
            PublishState::Finished,
            PublishAction::Reply(publish_reply()),
        ),
        _ => (PublishState::Finished, PublishAction::PassError),
    }
}

/// A publish that meets no obstacle stores the tarball under its key and makes
/// exactly that reserved version ready, with the tarball's key, checksum and size.
pub proof fn law_publish_succeeds(
    publish: NormalizedPublish,
    publisher: String,
    version_id: i64,
    reserving: PublishState,
    storing: PublishState,
    finalizing: PublishState,
    finished: PublishState,
    reserve: PublishAction,
    store: PublishAction,
    finalize: PublishAction,
    answer: PublishAction,
)
    requires
        publish.crate_bytes@.len() <= u32::MAX,
        begins(publish, publisher, reserving, reserve),
        goes_on(reserving, PublishEvent::Reserved(Some(version_id)), storing, store),
        goes_on(storing, PublishEvent::Stored, finalizing, finalize),
        goes_on(finalizing, PublishEvent::Finalized, finished, answer),
    ensures
        fits(reserving, PublishEvent::Reserved(Some(version_id))),
        fits(storing, PublishEvent::Stored),
        fits(finalizing, PublishEvent::Finalized),
        store == (PublishAction::Store {
            object_key: publish.object_key,
            crate_bytes: publish.crate_bytes,
        }),
        finalize matches PublishAction::Finalize(input) && input.version_id == version_id
            && input.object_key == publish.object_key && input.checksum_sha256
            == publish.checksum_sha256 && input.size_bytes == publish.crate_bytes@.len(),
        answer matches PublishAction::Reply(reply) && document(reply) == publish_json(),
{
}

/// A tarball that cannot be stored leaves its version noted as failed, for the
/// reason given, and the publish ends with the error that storing met.
pub proof fn law_failed_store_is_noted(
    publish: NormalizedPublish,
    publisher: String,
    version_id: i64,
    reason: String,
    reserving: PublishState,
    storing: PublishState,
    failing: PublishState,
    finished: PublishState,
    reserve: PublishAction,
    store: PublishAction,
    note: PublishAction,
    answer: PublishAction,
)
    requires
        begins(publish, publisher, reserving, reserve),
        goes_on(reserving, PublishEvent::Reserved(Some(version_id)), storing, store),
        goes_on(storing, PublishEvent::StoreFailed { reason }, failing, note),
        goes_on(failing, PublishEvent::FailureNoted, finished, answer),
    ensures
        fits(storing, PublishEvent::StoreFailed { reason }),
        fits(failing, PublishEvent::FailureNoted),
        note == (PublishAction::NoteFailure { version_id, reason }),
        answer is PassError,
        finished is Finished,
{
}

/// A version that is there already is refused, and nothing is stored.
pub proof fn law_conflict_is_refused(
    publish: NormalizedPublish,
    publisher: String,
    reserving: PublishState,
    finished: PublishState,
    reserve: PublishAction,
    answer: PublishAction,
)
    requires
        begins(publish, publisher, reserving, reserve),
        goes_on(reserving, PublishEvent::Reserved(None), finished, answer),
    ensures
        finished is Finished,
        answer matches PublishAction::Refuse(error) && error@ == Fault::Conflict(
            publish.name@ + " "@ + publish.version@ + " already exists"@,
        ),
{
}

/// How many events a publish can still wait for.
pub open spec fn events_left(state: PublishState) -> nat {
    match state {
        PublishState::Reserving { .. } => 3,
        PublishState::Storing { .. } => 2,
        PublishState::Failing => 1,
        PublishState::Finalizing => 1,
        PublishState::Finished => 0,
    }
}

/// A version is made ready only when its tarball has been stored, and a tarball
/// is stored only under a version that has been reserved. Every publish comes to
/// its end.
pub proof fn law_order_of_publish(
    state: PublishState,
    event: PublishEvent,
    next: PublishState,
    action: PublishAction,
)
    requires
        fits(state, event),
        goes_on(state, event, next, action),
    ensures
        action is Finalize <==> state is Storing && event is Stored,
        action is NoteFailure <==> state is Storing && event is StoreFailed,
        action is Store <==> (event matches PublishEvent::Reserved(id) && id is Some),
        action is Refuse <==> (event matches PublishEvent::Reserved(id) && id is None),
        action is Reply <==> event is Finalized,
        next is Finished <==> action is Reply || action is Refuse || action is PassError,
        events_left(next) < events_left(state),
{
}

} // verus!
