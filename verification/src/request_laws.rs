//! What holds of which request an address leads to, and of what a client needs
//! to make it.

use crate::crate_name::crate_name_from_sparse_path;
use crate::error::AppError;
use crate::gate::{
    admit_request, authorize_publish, continue_request, GateAction, GateEvent, GateState, Operation,
    Pending,
};
use crate::routing::{
    parse_crate_action_path, required_access, route_cargo, search_request, Access, CargoRequest,
    Method, SearchRequest,
};
use vstd::prelude::*;
use vstd::string::*;

verus! {

use crate::crate_name::{index_path_fault, last_segment};
use crate::frame::{le32_at, metadata_end};
use crate::json::{json_reading, Json};
use crate::name_laws::{
    index_directories, law_index_path_round_trip, lemma_index_directories, lemma_names,
    names_a_crate, slashless, with_slashes,
};
use crate::publish_laws::{is_bad, writes_length};
use crate::routing::{crates_prefix, lemma_action_path};
use crate::text::{begins_with, segments};

/// The parts with slashes between them.
pub open spec fn joined(parts: Seq<Seq<char>>) -> Seq<char>
    decreases parts.len(),
{
    if parts.len() == 0 {
        Seq::empty()
    } else if parts.len() == 1 {
        parts[0]
    } else {
        joined(parts.drop_last()) + seq!['/'] + parts.last()
    }
}

proof fn lemma_joined(text: Seq<char>)
    ensures
        segments(text).len() > 0,
        joined(segments(text)) == text,
        forall|i: int| 0 <= i < segments(text).len() ==> slashless(#[trigger] segments(text)[i]),
    decreases text.len(),
{
    if text.len() == 0 {
        assert(joined(segments(text)) =~= text);
    } else {
        let shorter = text.drop_last();
        let parts = segments(shorter);
        lemma_joined(shorter);
        if text.last() == '/' {
            assert(segments(text).drop_last() =~= parts);
            assert(joined(segments(text)) =~= text);
        } else {
            let last = parts.last().push(text.last());
            let changed = parts.update(parts.len() - 1, last);
            assert(segments(text) == changed);
            assert(slashless(parts[parts.len() - 1]));
            assert(changed.drop_last() =~= parts.drop_last());
            assert(shorter.push(text.last()) =~= text);
            if parts.len() > 1 {
                let front = joined(parts.drop_last()) + seq!['/'];
                assert(joined(changed) == front + last);
                assert(front + last =~= (front + parts.last()).push(text.last()));
            }
            assert(joined(changed) == text);
            assert forall|i: int| 0 <= i < changed.len() implies slashless(#[trigger] changed[i]) by {
                if i < parts.len() - 1 {
                    assert(slashless(parts[i]));
                }
            }
        }
    }
}

proof fn lemma_three_parts(text: Seq<char>)
    requires
        segments(text).len() == 3,
    ensures
        text == segments(text)[0] + seq!['/'] + segments(text)[1] + seq!['/'] + segments(text)[2],
        slashless(segments(text)[0]),
        slashless(segments(text)[1]),
        slashless(segments(text)[2]),
{
    lemma_joined(text);
    let parts = segments(text);
    assert(parts.drop_last().drop_last().len() == 1);
    assert(joined(parts.drop_last().drop_last()) == parts[0]);
    assert(joined(parts.drop_last()) == parts[0] + seq!['/'] + parts[1]);
}

/// The path names a crate, a version and an action, in this order, and nothing
/// else.
pub open spec fn is_address(
    path: Seq<char>,
    name: Seq<char>,
    version: Seq<char>,
    action: Seq<char>,
) -> bool {
    slashless(name) && slashless(version) && path == name + seq!['/'] + version + seq!['/'] + action
}

/// The path is that of the crate's index file.
pub open spec fn is_index_address(path: Seq<char>, name: Seq<char>) -> bool {
    names_a_crate(name) && path == with_slashes(index_directories(name)) + name
}

proof fn lemma_index_address(path: Seq<char>)
    ensures
        index_path_fault(path) is None ==> is_index_address(path, last_segment(path)),
        forall|name: Seq<char>| #[trigger]
            is_index_address(path, name) ==> index_path_fault(path) is None && last_segment(path)
                == name,
{
    if index_path_fault(path) is None {
        lemma_names(last_segment(path));
        lemma_index_directories(last_segment(path));
    }
    assert forall|name: Seq<char>| #[trigger] is_index_address(path, name) implies index_path_fault(
        path,
    ) is None && last_segment(path) == name by {
        lemma_names(name);
        lemma_index_directories(name);
        law_index_path_round_trip(name);
    }
}

proof fn lemma_address(
    path: Seq<char>,
    name: Seq<char>,
    version: Seq<char>,
    action: Seq<char>,
)
    requires
        is_address(path, name, version, action),
        action == "download"@ || action == "yank"@ || action == "unyank"@,
    ensures
        segments(path) == seq![name, version, action],
{
    reveal_strlit("download");
    reveal_strlit("yank");
    reveal_strlit("unyank");
    lemma_action_path(name, version, action);
}

/// Taking an address apart gives the crate, the version and the action that it
/// names, for exactly the three actions there are.
pub proof fn law_addresses_are_taken_apart(path: &str, found: Option<(String, String, &str)>)
    requires
        call_ensures(parse_crate_action_path, (path,), found),
    ensures
        found matches Some(parts) ==> is_address(path@, parts.0@, parts.1@, parts.2@) && (parts.2@
            == "download"@ || parts.2@ == "yank"@ || parts.2@ == "unyank"@),
        forall|name: Seq<char>, version: Seq<char>, action: Seq<char>| #[trigger]
            is_address(path@, name, version, action) && (action == "download"@ || action == "yank"@
                || action == "unyank"@) ==> (found matches Some(parts) && parts.0@ == name
                && parts.1@ == version && parts.2@ == action),
{
    if segments(path@).len() == 3 {
        lemma_three_parts(path@);
    }
    assert forall|name: Seq<char>, version: Seq<char>, action: Seq<char>| #[trigger]
        is_address(path@, name, version, action) && (action == "download"@ || action == "yank"@
            || action == "unyank"@) implies (found matches Some(parts) && parts.0@ == name
        && parts.1@ == version && parts.2@ == action) by {
        lemma_address(path@, name, version, action);
        assert(segments(path@)[0] == name);
        assert(segments(path@)[1] == version);
        assert(segments(path@)[2] == action);
    }
}

/// A request is read only from the address that it belongs to: an index file's
/// or a download's where something is asked for, a version's with `yank` behind
/// it where something is deleted, and with `unyank` behind it where something is
/// put. It is about the crate and the version that stand in the address.
pub proof fn law_requests_are_read_from_their_address(
    method: Method,
    path: &str,
    rest: Seq<char>,
    result: Result<CargoRequest, AppError>,
)
    requires
        call_ensures(route_cargo, (method, path), result),
    ensures
        path@ == "/api/v1/crates/"@ + rest && result is Ok ==> match result->Ok_0 {
            CargoRequest::SparseIndex { name } => method is Get && is_index_address(rest, name@),
            CargoRequest::Download { name, version } => method is Get && is_address(
                rest,
                name@,
                version@,
                "download"@,
            ),
            CargoRequest::Yank { name, version } => method is Delete && is_address(
                rest,
                name@,
                version@,
                "yank"@,
            ),
            CargoRequest::Unyank { name, version } => method is Put && is_address(
                rest,
                name@,
                version@,
                "unyank"@,
            ),
        },
        (forall|tail: Seq<char>| path@ != #[trigger] ("/api/v1/crates/"@ + tail)) ==> (
        result matches Err(error) && error is NotFound),
{
    if begins_with(path@, crates_prefix()) {
        assert(path@ =~= "/api/v1/crates/"@ + path@.skip(crates_prefix().len() as int));
    }
    if path@ == "/api/v1/crates/"@ + rest {
        lemma_rest(path@, rest);
        lemma_index_address(rest);
        if segments(rest).len() == 3 {
            lemma_three_parts(rest);
        }
    }
}

/// What follows the crates' path.
proof fn lemma_rest(path: Seq<char>, rest: Seq<char>)
    requires
        path == "/api/v1/crates/"@ + rest,
    ensures
        begins_with(path, crates_prefix()),
        path.skip(crates_prefix().len() as int) == rest,
{
    assert(path.subrange(0, crates_prefix().len() as int) =~= crates_prefix());
    assert(path.skip(crates_prefix().len() as int) =~= rest);
}

/// Every address leads to its request: an index path to the index file of its
/// crate, and an address of a version, with the method that goes with its action,
/// to that action on that version.
pub proof fn law_addresses_lead_to_their_request(
    method: Method,
    path: &str,
    rest: Seq<char>,
    name: Seq<char>,
    version: Seq<char>,
    result: Result<CargoRequest, AppError>,
)
    requires
        call_ensures(route_cargo, (method, path), result),
        path@ == "/api/v1/crates/"@ + rest,
    ensures
        method is Get && is_index_address(rest, name) ==> (result matches Ok(
            CargoRequest::SparseIndex { name: found },
        ) && found@ == name),
        method is Get && is_address(rest, name, version, "download"@) && (forall|other: Seq<char>|
            !#[trigger] is_index_address(rest, other)) ==> (result matches Ok(
            CargoRequest::Download { name: found, version: number },
        ) && found@ == name && number@ == version),
        method is Delete && is_address(rest, name, version, "yank"@) ==> (result matches Ok(
            CargoRequest::Yank { name: found, version: number },
        ) && found@ == name && number@ == version),
        method is Put && is_address(rest, name, version, "unyank"@) ==> (result matches Ok(
            CargoRequest::Unyank { name: found, version: number },
        ) && found@ == name && number@ == version),
{
    lemma_rest(path@, rest);
    lemma_index_address(rest);
    reveal_strlit("download");
    reveal_strlit("yank");
    reveal_strlit("unyank");
    assert("download"@.len() == 8 && "yank"@.len() == 4 && "unyank"@.len() == 6);
    if is_address(rest, name, version, "download"@) {
        lemma_address(rest, name, version, "download"@);
        assert(segments(rest)[0] == name && segments(rest)[1] == version);
        assert(segments(rest)[2] == "download"@);
        if method is Get && forall|other: Seq<char>| !#[trigger] is_index_address(rest, other) {
            assert(index_path_fault(rest) is Some);
        }
    }
    if is_address(rest, name, version, "yank"@) {
        lemma_address(rest, name, version, "yank"@);
        assert(segments(rest)[0] == name && segments(rest)[1] == version);
        assert(segments(rest)[2] == "yank"@);
    }
    if is_address(rest, name, version, "unyank"@) {
        lemma_address(rest, name, version, "unyank"@);
        assert(segments(rest)[0] == name && segments(rest)[1] == version);
        assert(segments(rest)[2] == "unyank"@);
    }
}

/// An address that leads nowhere is not found where nothing is to be read, or
/// where it names an action; any other is answered as an index path that it is
/// not.
pub proof fn law_other_addresses_are_refused(
    method: Method,
    path: &str,
    rest: &str,
    sparse: Result<String, AppError>,
    result: Result<CargoRequest, AppError>,
)
    requires
        call_ensures(route_cargo, (method, path), result),
        call_ensures(crate_name_from_sparse_path, (rest,), sparse),
        path@ == "/api/v1/crates/"@ + rest@,
        result is Err,
    ensures
        !(method is Get) ==> result->Err_0 is NotFound,
        (exists|name: Seq<char>, version: Seq<char>, action: Seq<char>| #[trigger]
            is_address(rest@, name, version, action) && (action == "download"@ || action == "yank"@
                || action == "unyank"@)) ==> result->Err_0 is NotFound,
        method is Get && !(exists|name: Seq<char>, version: Seq<char>, action: Seq<char>| #[trigger]
            is_address(rest@, name, version, action) && (action == "download"@ || action == "yank"@
                || action == "unyank"@)) ==> (sparse matches Err(error) && result->Err_0@ == error@),
{
    lemma_rest(path@, rest@);
    if segments(rest@).len() == 3 {
        lemma_three_parts(rest@);
        assert(is_address(rest@, segments(rest@)[0], segments(rest@)[1], segments(rest@)[2]));
    }
    assert forall|name: Seq<char>, version: Seq<char>, action: Seq<char>| #[trigger]
        is_address(rest@, name, version, action) && (action == "download"@ || action == "yank"@
            || action == "unyank"@) implies segments(rest@) == seq![name, version, action] by {
        lemma_address(rest@, name, version, action);
    }
    if exists|name: Seq<char>, version: Seq<char>, action: Seq<char>| #[trigger]
        is_address(rest@, name, version, action) && (action == "download"@ || action == "yank"@
            || action == "unyank"@) {
        let (name, version, action) = choose|
            name: Seq<char>,
            version: Seq<char>,
            action: Seq<char>,
        | #[trigger]
            is_address(rest@, name, version, action) && (action == "download"@ || action == "yank"@
                || action == "unyank"@);
        assert(segments(rest@)[2] == action);
    }
}

/// Reading a crate's index file or a version's tarball takes a claim to read that
/// crate; yanking a version, or taking that back, one to publish it.
pub proof fn law_requests_need_a_claim(request: &CargoRequest, access: Access)
    requires
        call_ensures(required_access, (request,), access),
    ensures
        match *request {
            CargoRequest::SparseIndex { name } => access matches Access::Read(scope) && scope@
                == name@,
            CargoRequest::Download { name, .. } => access matches Access::Read(scope) && scope@
                == name@,
            CargoRequest::Yank { name, .. } => access matches Access::Publish(scope) && scope@
                == name@,
            CargoRequest::Unyank { name, .. } => access matches Access::Publish(scope) && scope@
                == name@,
        },
{
}

/// A search is for what the client says, and shows as many crates as it says;
/// for everything, and ten, where it does not say.
pub proof fn law_searches_are_as_asked(
    q: Option<String>,
    per_page: Option<u64>,
    request: SearchRequest,
)
    requires
        call_ensures(search_request, (q, per_page), request),
    ensures
        q matches Some(query) ==> request.query@ == query@,
        q is None ==> request.query@.len() == 0,
        per_page matches Some(count) ==> request.per_page == count,
        per_page is None ==> request.per_page == 10,
{
}

/// A request begins with finding out who makes it.
pub proof fn law_clients_are_asked_first(pending: Pending, step: (GateState, GateAction))
    requires
        call_ensures(admit_request, (pending,), step),
    ensures
        step.1 is Authenticate,
        step.0 == GateState::Authenticating(pending),
{
}

/// A known client needs the claim that goes with the request: to read or publish
/// the crate it is about, or to read everything for a search. Of a publish the
/// body is read first, no more of it than the tarball may have and a mebibyte
/// beside. An unknown client gets nothing.
pub proof fn law_known_clients_need_claims(
    pending: Pending,
    event: GateEvent,
    step: (GateState, GateAction),
)
    requires
        event is Authenticated || event is AuthenticationFailed,
        pending matches Pending::Publish { max_tarball_bytes } ==> max_tarball_bytes + 1048576
            <= usize::MAX,
        call_ensures(continue_request, (GateState::Authenticating(pending), event), step),
    ensures
        event is AuthenticationFailed ==> step.0 is Closed && step.1 is PassError,
        event is Authenticated ==> match pending {
            Pending::Crate(request) => {
                &&& step.0 == GateState::Authorizing(Operation::Crate(request))
                &&& step.1 matches GateAction::Require(access)
                &&& match request {
                    CargoRequest::SparseIndex { name } => access matches Access::Read(scope)
                        && scope@ == name@,
                    CargoRequest::Download { name, .. } => access matches Access::Read(scope)
                        && scope@ == name@,
                    CargoRequest::Yank { name, .. } => access matches Access::Publish(scope)
                        && scope@ == name@,
                    CargoRequest::Unyank { name, .. } => access matches Access::Publish(scope)
                        && scope@ == name@,
                }
            },
            Pending::Search(request) => {
                &&& step.0 == GateState::Authorizing(Operation::Search(request))
                &&& step.1 matches GateAction::Require(Access::Read(scope))
                &&& scope@ == seq!['*']
            },
            Pending::Publish { max_tarball_bytes } => {
                &&& step.0 is ReadingBody
                &&& step.1 matches GateAction::ReadBody { limit }
                &&& limit == max_tarball_bytes + 1048576
            },
        },
{
    reveal_strlit("*");
    assert("*"@ =~= seq!['*']);
}

/// A publish needs the claim to publish the crate that the JSON in its body
/// names, and is carried out with that body. A body that names none, or that
/// could not be read, is refused.
pub proof fn law_publishes_need_a_claim(
    event: GateEvent,
    metadata_len: int,
    step: (GateState, GateAction),
)
    requires
        event is BodyRead || event is BodyFailed,
        call_ensures(continue_request, (GateState::ReadingBody, event), step),
    ensures
        match event {
            GateEvent::BodyRead(body) => {
                &&& body@.len() < 4 ==> step.0 is Closed && (step.1 matches GateAction::Refuse(
                    error,
                ) && is_bad(error, "publish body too short"@))
                &&& writes_length(body@, 0, metadata_len) && metadata_len + 4 > body@.len()
                    ==> step.0 is Closed && (step.1 matches GateAction::Refuse(error) && is_bad(
                    error,
                    "publish metadata length mismatch"@,
                ))
                &&& writes_length(body@, 0, metadata_len) && metadata_len + 4 <= body@.len()
                    ==> match json_reading(body@.subrange(4, 4 + metadata_len)) {
                    Some(Json::Object(all)) => if all.dom().contains("name"@)
                        && all["name"@] is Text {
                        &&& step.0 == GateState::Authorizing(Operation::Publish(body))
                        &&& step.1 matches GateAction::Require(Access::Publish(name))
                        &&& all["name"@] == Json::Text(name@)
                    } else {
                        &&& step.0 is Closed
                        &&& step.1 matches GateAction::Refuse(error)
                        &&& is_bad(error, "publish metadata missing name"@)
                    },
                    Some(_) => step.0 is Closed && (step.1 matches GateAction::Refuse(error)
                        && is_bad(error, "publish metadata missing name"@)),
                    None => step.0 is Closed && (step.1 matches GateAction::Refuse(error) && is_bad(
                        error,
                        "invalid publish metadata JSON"@,
                    )),
                }
            },
            _ => step.0 is Closed && (step.1 matches GateAction::Refuse(error) && is_bad(
                error,
                "failed to read publish body"@,
            )),
        },
{
    if let GateEvent::BodyRead(body) = event {
        if writes_length(body@, 0, metadata_len) {
            assert(le32_at(body@, 0) == metadata_len);
            assert(metadata_end(body@) == 4 + metadata_len);
        }
    }
}

/// The same of a body whose name is known, or known to be missing.
pub proof fn law_declared_publishes_need_a_claim(
    body: Vec<u8>,
    declared: Result<String, AppError>,
    step: (GateState, GateAction),
)
    requires
        call_ensures(authorize_publish, (body, declared), step),
    ensures
        declared matches Ok(name) ==> step.0 == GateState::Authorizing(Operation::Publish(body)) && (
        step.1 matches GateAction::Require(Access::Publish(scope)) && scope@ == name@),
        declared matches Err(fault) ==> step.0 is Closed && (step.1 matches GateAction::Refuse(error)
            && error@ == fault@),
{
}

/// What was allowed is carried out as it stands, and what was denied is not.
pub proof fn law_allowed_requests_are_carried_out(
    operation: Operation,
    event: GateEvent,
    step: (GateState, GateAction),
)
    requires
        event is Allowed || event is Denied,
        call_ensures(continue_request, (GateState::Authorizing(operation), event), step),
    ensures
        step.0 is Closed,
        event is Allowed ==> step.1 == GateAction::Perform(operation),
        event is Denied ==> step.1 is PassError,
{
}

} // verus!
