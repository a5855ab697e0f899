//! The course of a request before it is carried out: who makes it is found out,
//! and whether they may.

use crate::error::{bad_request, AppError};
use crate::frame::METADATA_ALLOWANCE;
use crate::publish::crate_name_from_publish_body;
use crate::routing::{required_access, Access, CargoRequest, SearchRequest};
use vstd::prelude::*;
use vstd::string::*;

verus! {

use crate::error::Fault;
use crate::publish::{is_authorized_as, publish_name_fault};
use crate::routing::{need, Need};

/// A request of which nothing has been checked.
pub enum Pending {
    Crate(CargoRequest),
    Search(SearchRequest),
    /// A publish, whose body has not been read.
    Publish { max_tarball_bytes: usize },
}

/// A request that can be carried out.
pub enum Operation {
    Crate(CargoRequest),
    Search(SearchRequest),
    /// A publish with its body.
    Publish(Vec<u8>),
}

/// How far a request has come.
pub enum GateState {
    Authenticating(Pending),
    ReadingBody,
    Authorizing(Operation),
    Closed,
}

/// What has come of the action before.
pub enum GateEvent {
    Authenticated,
    AuthenticationFailed,
    BodyRead(Vec<u8>),
    BodyFailed,
    Allowed,
    Denied,
}

/// What is to be done next.
pub enum GateAction {
    Authenticate,
    ReadBody { limit: usize },
    Require(Access),
    Perform(Operation),
    /// The request is refused.
    Refuse(AppError),
    /// The error that authentication or authorization met is the answer.
    PassError,
}

/// The event can follow in the state.
pub open spec fn gate_answers(state: GateState, event: GateEvent) -> bool {
    match state {
        GateState::Authenticating(pending) => {
            &&& event is Authenticated || event is AuthenticationFailed
            &&& pending matches Pending::Publish { max_tarball_bytes } ==> max_tarball_bytes
                + METADATA_ALLOWANCE <= usize::MAX
        },
        GateState::ReadingBody => event is BodyRead || event is BodyFailed,
        GateState::Authorizing(_) => event is Allowed || event is Denied,
        GateState::Closed => false,
    }
}

/// How a request goes on.
pub open spec fn gate_goes_on(
    state: GateState,
    event: GateEvent,
    next: GateState,
    action: GateAction,
) -> bool {
    match (state, event) {
        (GateState::Authenticating(pending), GateEvent::Authenticated) => match pending {
            Pending::Crate(request) => {
                &&& next == GateState::Authorizing(Operation::Crate(request))
                &&& action matches GateAction::Require(access)
                &&& access@ == need(request@)
            },
            Pending::Search(request) => {
                &&& next == GateState::Authorizing(Operation::Search(request))
                &&& action matches GateAction::Require(access)
                &&& access@ == Need::Read("*"@)
            },
            Pending::Publish { max_tarball_bytes } => {
                &&& next is ReadingBody
                &&& action matches GateAction::ReadBody { limit }
                &&& limit == max_tarball_bytes + METADATA_ALLOWANCE
            },
        },
        (GateState::ReadingBody, GateEvent::BodyRead(body)) => match publish_name_fault(body@) {
            Some(fault) => {
                &&& next is Closed
                &&& action matches GateAction::Refuse(error)
                &&& error@ == fault
            },
            None => {
                &&& next == GateState::Authorizing(Operation::Publish(body))
                &&& action matches GateAction::Require(Access::Publish(name))
                &&& is_authorized_as(body@, name@)
            },
        },
        (GateState::ReadingBody, GateEvent::BodyFailed) => {
            &&& next is Closed
            &&& action matches GateAction::Refuse(error)
            &&& error@ == Fault::BadRequest("failed to read publish body"@)
        },
        (GateState::Authorizing(operation), GateEvent::Allowed) => {
            &&& next is Closed
            &&& action == GateAction::Perform(operation)
        },
        _ => next is Closed && action is PassError,
    }
}

/// Takes a request in.
pub fn admit_request(pending: Pending) -> (step: (GateState, GateAction))
    ensures
        step == (GateState::Authenticating(pending), GateAction::Authenticate),
{
    (GateState::Authenticating(pending), GateAction::Authenticate)
}

/// Goes on with a publish whose body was read, given the name that the body
/// declares.
pub fn authorize_publish(body: Vec<u8>, declared: Result<String, AppError>) -> (step: (
    GateState,
    GateAction,
))
    ensures
        match declared {
            Ok(name) => {
                &&& step.0 == GateState::Authorizing(Operation::Publish(body))
                &&& step.1 == GateAction::Require(Access::Publish(name))
            },
            Err(error) => step.0 is Closed && step.1 == GateAction::Refuse(error),
        },
{
    match declared {
        Ok(name) => (
            GateState::Authorizing(Operation::Publish(body)),
            GateAction::Require(Access::Publish(name)),
        ),
        Err(error) => (GateState::Closed, GateAction::Refuse(error)),
    }
}

/// Goes on with a request after an event.
pub fn continue_request(state: GateState, event: GateEvent) -> (step: (GateState, GateAction))
    requires
        gate_answers(state, event),
    ensures
        gate_goes_on(state, event, step.0, step.1),
{
    match (state, event) {
        (GateState::Authenticating(pending), GateEvent::Authenticated) => match pending {
            Pending::Crate(request) => {
                let access = required_access(&request);
                (GateState::Authorizing(Operation::Crate(request)), GateAction::Require(access))
            },
            Pending::Search(request) => (
                GateState::Authorizing(Operation::Search(request)),
                GateAction::Require(Access::Read("*".to_owned())),
            ),
            Pending::Publish { max_tarball_bytes } => (
                GateState::ReadingBody,
                GateAction::ReadBody { limit: max_tarball_bytes + METADATA_ALLOWANCE },
            ),
        },
        (GateState::ReadingBody, GateEvent::BodyRead(body)) => {
            let declared = crate_name_from_publish_body(&body);
            authorize_publish(body, declared)
        },
        (GateState::ReadingBody, GateEvent::BodyFailed) => (
            GateState::Closed,
            GateAction::Refuse(bad_request("failed to read publish body")),
        ),
        (GateState::Authorizing(operation), GateEvent::Allowed) => (
            GateState::Closed,
            GateAction::Perform(operation),
        ),
        _ => (GateState::Closed, GateAction::PassError),
    }
}

/// The claim that an operation needs.
pub open spec fn operation_need(operation: Operation, wanted: Need) -> bool {
    match operation {
        Operation::Crate(request) => wanted == need(request@),
        Operation::Search(_) => wanted == Need::Read("*"@),
        Operation::Publish(body) => {
            &&& wanted matches Need::Publish(name)
            &&& is_authorized_as(body@, name)
        },
    }
}

/// Nothing is carried out that was not allowed, and what is to be allowed is
/// exactly the claim that the operation needs. Nothing is looked at before the
/// client is known.
pub proof fn law_nothing_without_leave(
    state: GateState,
    event: GateEvent,
    next: GateState,
    action: GateAction,
)
    requires
        gate_answers(state, event),
        gate_goes_on(state, event, next, action),
    ensures
        action matches GateAction::Perform(operation) ==> state == GateState::Authorizing(operation)
            && event is Allowed,
        next matches GateState::Authorizing(operation) ==> (action matches GateAction::Require(access)
            && operation_need(operation, access@)),
        !(next is Authenticating),
        state is Authenticating && !(next is Closed) ==> event is Authenticated,
{
}

} // verus!
