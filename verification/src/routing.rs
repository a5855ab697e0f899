//! Which request a client makes, by its method and its path.

use crate::crate_name::crate_name_from_sparse_path;
use crate::error::AppError;
use crate::text::{chars_of, has_prefix, same_text, split_segments};
use vstd::prelude::*;
use vstd::string::*;

verus! {

use crate::crate_name::{index_path, index_path_fault, last_segment, valid_name};
use crate::error::Fault;
use crate::name_laws::{
    law_index_path_round_trip, lemma_last_segment, lemma_name_marks, slashless,
};
use crate::text::{begins_with, segments};
use crate::version::{
    is_identifier_char, lemma_version_chars, lemma_version_has_dot, writes_version, Release,
};

/// How a client makes a request.
#[derive(Clone, Copy)]
pub enum Method {
    Get,
    Put,
    Delete,
    Other,
}

/// What a client wants of a crate.
pub enum CargoRequest {
    Download { name: String, version: String },
    Yank { name: String, version: String },
    Unyank { name: String, version: String },
    SparseIndex { name: String },
}

/// The mathematical counterpart of [`CargoRequest`].
pub enum Wish {
    Download(Seq<char>, Seq<char>),
    Yank(Seq<char>, Seq<char>),
    Unyank(Seq<char>, Seq<char>),
    SparseIndex(Seq<char>),
}

impl View for CargoRequest {
    type V = Wish;

    open spec fn view(&self) -> Wish {
        match self {
            CargoRequest::Download { name, version } => Wish::Download(name@, version@),
            CargoRequest::Yank { name, version } => Wish::Yank(name@, version@),
            CargoRequest::Unyank { name, version } => Wish::Unyank(name@, version@),
            CargoRequest::SparseIndex { name } => Wish::SparseIndex(name@),
        }
    }
}

/// What a request needs a claim for.
pub enum Access {
    Read(String),
    Publish(String),
}

/// The mathematical counterpart of [`Access`].
pub enum Need {
    Read(Seq<char>),
    Publish(Seq<char>),
}

impl View for Access {
    type V = Need;

    open spec fn view(&self) -> Need {
        match self {
            Access::Read(scope) => Need::Read(scope@),
            Access::Publish(scope) => Need::Publish(scope@),
        }
    }
}

/// An action on a crate version.
pub open spec fn is_action(text: Seq<char>) -> bool {
    text == "download"@ || text == "yank"@ || text == "unyank"@
}

/// A path with a crate, a version and an action, and nothing else.
pub open spec fn is_action_path(path: Seq<char>) -> bool {
    segments(path).len() == 3 && is_action(segments(path)[2])
}

/// Takes apart a path that names a crate, a version and an action on it.
pub fn parse_crate_action_path(path: &str) -> (found: Option<(String, String, &str)>)
    ensures
        match found {
            Some((name, version, action)) => {
                &&& is_action_path(path@)
                &&& name@ == segments(path@)[0]
                &&& version@ == segments(path@)[1]
                &&& action@ == segments(path@)[2]
            },
            None => !is_action_path(path@),
        },
{
    let mut parts = split_segments(path);
    if parts.len() != 3 {
        return None;
    }
    let action = if same_text(parts[2].as_str(), "download") {
        "download"
    } else if same_text(parts[2].as_str(), "yank") {
        "yank"
    } else if same_text(parts[2].as_str(), "unyank") {
        "unyank"
    } else {
        return None;
    };
    let version = parts.swap_remove(1);
    let name = parts.swap_remove(0);
    Some((name, version, action))
}

/// Where everything about crates is reached.
pub open spec fn crates_prefix() -> Seq<char> {
    "/api/v1/crates/"@
}

/// What a request below the crates' path asks for. A path that leads to an index
/// file is read as that, also where its last part is the name of an action.
pub open spec fn wish(method: Method, path: Seq<char>) -> Result<Wish, Fault> {
    if method is Get && index_path_fault(path) is None {
        Ok(Wish::SparseIndex(last_segment(path)))
    } else if is_action_path(path) {
        let name = segments(path)[0];
        let version = segments(path)[1];
        let action = segments(path)[2];
        if method is Get && action == "download"@ {
            Ok(Wish::Download(name, version))
        } else if method is Delete && action == "yank"@ {
            Ok(Wish::Yank(name, version))
        } else if method is Put && action == "unyank"@ {
            Ok(Wish::Unyank(name, version))
        } else {
            Err(Fault::NotFound)
        }
    } else if !(method is Get) {
        Err(Fault::NotFound)
    } else {
        Err(index_path_fault(path).unwrap())
    }
}

/// What a request asks for.
pub open spec fn routed(method: Method, path: Seq<char>) -> Result<Wish, Fault> {
    if begins_with(path, crates_prefix()) {
        wish(method, path.skip(crates_prefix().len() as int))
    } else {
        Err(Fault::NotFound)
    }
}

/// Finds out what a request asks for that no fixed route takes.
pub fn route_cargo(method: Method, path: &str) -> (result: Result<CargoRequest, AppError>)
    ensures
        match result {
            Ok(request) => routed(method, path@) == Ok::<Wish, Fault>(request@),
            Err(error) => routed(method, path@) == Err::<Wish, Fault>(error@),
        },
{
    let prefix = "/api/v1/crates/";
    if !has_prefix(path, &chars_of(prefix)) {
        return Err(AppError::NotFound);
    }
    let rest = path.substring_char(prefix.unicode_len(), path.unicode_len());
    proof {
        assert(rest@ == path@.skip(crates_prefix().len() as int));
    }
    let fault = match method {
        Method::Get => match crate_name_from_sparse_path(rest) {
            Ok(name) => return Ok(CargoRequest::SparseIndex { name }),
            Err(error) => error,
        },
        _ => AppError::NotFound,
    };
    match parse_crate_action_path(rest) {
        Some((name, version, action)) => {
            let download = same_text(action, "download");
            let yank = same_text(action, "yank");
            let unyank = same_text(action, "unyank");
            match method {
                Method::Get if download => Ok(CargoRequest::Download { name, version }),
                Method::Delete if yank => Ok(CargoRequest::Yank { name, version }),
                Method::Put if unyank => Ok(CargoRequest::Unyank { name, version }),
                _ => Err(AppError::NotFound),
            }
        },
        None => Err(fault),
    }
}

/// The claim that a request needs: to read for what only reads, to publish for
/// what changes a version.
pub open spec fn need(wish: Wish) -> Need {
    match wish {
        Wish::Download(name, _) => Need::Read(name),
        Wish::Yank(name, _) => Need::Publish(name),
        Wish::Unyank(name, _) => Need::Publish(name),
        Wish::SparseIndex(name) => Need::Read(name),
    }
}

/// The claim that a request needs.
pub fn required_access(request: &CargoRequest) -> (access: Access)
    ensures
        access@ == need(request@),
{
    match request {
        CargoRequest::Download { name, .. } => Access::Read(name.clone()),
        CargoRequest::Yank { name, .. } => Access::Publish(name.clone()),
        CargoRequest::Unyank { name, .. } => Access::Publish(name.clone()),
        CargoRequest::SparseIndex { name } => Access::Read(name.clone()),
    }
}

/// What a search looks for, and how many crates it is to show.
pub struct SearchRequest {
    pub query: String,
    pub per_page: u64,
}

/// How many crates a search is to show where the client does not say.
pub const DEFAULT_PER_PAGE: u64 = 10;

/// What a search looks for, given what the client says: everything, and ten
/// crates, where it says nothing.
pub fn search_request(q: Option<String>, per_page: Option<u64>) -> (request: SearchRequest)
    ensures
        request.query@ == match q {
            Some(query) => query@,
            None => Seq::empty(),
        },
        request.per_page == match per_page {
            Some(count) => count,
            None => DEFAULT_PER_PAGE,
        },
{
    let query = match q {
        Some(query) => query,
        None => String::new(),
    };
    let per_page = match per_page {
        Some(count) => count,
        None => DEFAULT_PER_PAGE,
    };
    SearchRequest { query, per_page }
}

/// A part without slashes, behind a slash or at the front, is a segment of its
/// own.
proof fn lemma_segments_push(front: Seq<char>, part: Seq<char>)
    requires
        slashless(part),
    ensures
        segments(front + seq!['/'] + part) == segments(front).push(part),
    decreases part.len(),
{
    let text = front + seq!['/'] + part;
    if part.len() == 0 {
        assert(text.drop_last() == front);
        assert(text.last() == '/');
        assert(part == Seq::<char>::empty());
    } else {
        assert(text.drop_last() == front + seq!['/'] + part.drop_last());
        assert(text.last() == part.last());
        assert(part.last() == part[part.len() - 1]);
        lemma_segments_push(front, part.drop_last());
        let parts = segments(front).push(part.drop_last());
        assert(parts.update(parts.len() - 1, parts.last().push(part.last())) =~= segments(front).push(
            part,
        )) by {
            assert(part.drop_last().push(part.last()) == part);
        }
    }
}

/// A text without slashes is its only segment.
proof fn lemma_segments_single(part: Seq<char>)
    requires
        slashless(part),
    ensures
        segments(part) == seq![part],
    decreases part.len(),
{
    if part.len() == 0 {
        assert(part == Seq::<char>::empty());
    } else {
        assert(part.last() == part[part.len() - 1]);
        lemma_segments_single(part.drop_last());
        assert(part.drop_last().push(part.last()) == part);
        let parts = seq![part.drop_last()];
        assert(parts.update(0, parts.last().push(part.last())) =~= seq![part]);
    }
}

/// The index file of every crate is reached under its index path.
pub proof fn law_index_is_reached(name: Seq<char>)
    requires
        valid_name(name),
    ensures
        routed(Method::Get, crates_prefix() + index_path(name)) == Ok::<Wish, Fault>(
            Wish::SparseIndex(name),
        ),
        need(Wish::SparseIndex(name)) == Need::Read(name),
{
    law_index_path_round_trip(name);
    let whole = crates_prefix() + index_path(name);
    assert(whole.subrange(0, crates_prefix().len() as int) == crates_prefix());
    assert(whole.skip(crates_prefix().len() as int) == index_path(name));
}

/// Every download, yank and unyank address leads where it says, where the
/// download address is not the path of an index file.
pub proof fn law_actions_are_reached(name: Seq<char>, version: Seq<char>)
    requires
        slashless(name),
        slashless(version),
        index_path_fault(name + "/"@ + version + "/download"@) is Some,
    ensures
        routed(Method::Get, crates_prefix() + name + "/"@ + version + "/download"@) == Ok::<
            Wish,
            Fault,
        >(Wish::Download(name, version)),
        routed(Method::Delete, crates_prefix() + name + "/"@ + version + "/yank"@) == Ok::<
            Wish,
            Fault,
        >(Wish::Yank(name, version)),
        routed(Method::Put, crates_prefix() + name + "/"@ + version + "/unyank"@) == Ok::<
            Wish,
            Fault,
        >(Wish::Unyank(name, version)),
{
    reveal_strlit("/");
    reveal_strlit("/download");
    reveal_strlit("/yank");
    reveal_strlit("/unyank");
    reveal_strlit("download");
    reveal_strlit("yank");
    reveal_strlit("unyank");
    lemma_action_path(name, version, "download"@);
    lemma_action_path(name, version, "yank"@);
    lemma_action_path(name, version, "unyank"@);
    let slash = seq!['/'];
    let front = crates_prefix();
    let rest = name + slash + version + slash;
    assert("/"@ == slash);
    assert("/download"@ == slash + "download"@);
    assert("/yank"@ == slash + "yank"@);
    assert("/unyank"@ == slash + "unyank"@);
    let download = front + name + "/"@ + version + "/download"@;
    let yank = front + name + "/"@ + version + "/yank"@;
    let unyank = front + name + "/"@ + version + "/unyank"@;
    assert(download.skip(front.len() as int) == rest + "download"@);
    assert(rest + "download"@ == name + "/"@ + version + "/download"@);
    assert(yank.skip(front.len() as int) == rest + "yank"@);
    assert(unyank.skip(front.len() as int) == rest + "unyank"@);
    assert(download.subrange(0, front.len() as int) == front);
    assert(yank.subrange(0, front.len() as int) == front);
    assert(unyank.subrange(0, front.len() as int) == front);
}

/// Every crate version that can be published can be downloaded, yanked and
/// unyanked at its address.
pub proof fn law_releases_are_reached(name: Seq<char>, version: Seq<char>, release: Release)
    requires
        valid_name(name),
        writes_version(version, release),
    ensures
        routed(Method::Get, crates_prefix() + name + "/"@ + version + "/download"@) == Ok::<
            Wish,
            Fault,
        >(Wish::Download(name, version)),
        routed(Method::Delete, crates_prefix() + name + "/"@ + version + "/yank"@) == Ok::<
            Wish,
            Fault,
        >(Wish::Yank(name, version)),
        routed(Method::Put, crates_prefix() + name + "/"@ + version + "/unyank"@) == Ok::<
            Wish,
            Fault,
        >(Wish::Unyank(name, version)),
{
    lemma_name_marks(name);
    lemma_version_chars(version, release);
    assert forall|i: int| 0 <= i < version.len() implies #[trigger] version[i] != '/' by {
        assert(is_identifier_char(version[i]) || version[i] == '+');
    }
    lemma_download_is_no_index(name, version, release);
    law_actions_are_reached(name, version);
}

/// The download address of a written version is not the path of an index file:
/// a version holds a dot, and the middle part of an index path does not.
proof fn lemma_download_is_no_index(name: Seq<char>, version: Seq<char>, release: Release)
    requires
        slashless(name),
        slashless(version),
        writes_version(version, release),
    ensures
        index_path_fault(name + "/"@ + version + "/download"@) is Some,
{
    let path = name + "/"@ + version + "/download"@;
    if index_path_fault(path) is None {
        reveal_strlit("/");
        reveal_strlit("/download");
        reveal_strlit("download");
        let slash = seq!['/'];
        let action = "download"@;
        assert("/"@ == slash);
        assert("/download"@ == slash + action);
        let front = name + slash + version + slash;
        assert(path == front + action);
        lemma_last_segment(front, action);
        assert(path == index_path(action));
        assert(path == action.take(2) + slash + action.subrange(2, 4) + slash + action);
        lemma_action_path(name, version, action);
        lemma_action_path(action.take(2), action.subrange(2, 4), action);
        assert(path == name + slash + version + slash + action);
        assert(seq![name, version, action][1] == version);
        assert(seq![action.take(2), action.subrange(2, 4), action][1] == action.subrange(2, 4));
        lemma_version_has_dot(version, release);
        assert(!action.subrange(2, 4).contains('.'));
    }
}

/// The segments of a crate, a version and an action behind one another.
pub proof fn lemma_action_path(name: Seq<char>, version: Seq<char>, action: Seq<char>)
    requires
        slashless(name),
        slashless(version),
        slashless(action),
    ensures
        segments(name + seq!['/'] + version + seq!['/'] + action) == seq![name, version, action],
{
    lemma_segments_single(name);
    lemma_segments_push(name, version);
    lemma_segments_push(name + seq!['/'] + version, action);
    assert(seq![name].push(version).push(action) =~= seq![name, version, action]);
}

} // verus!
