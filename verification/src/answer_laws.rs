//! What holds of the answers that the registry gives, and of what it does on the
//! way to them.

use crate::error::AppError;
use crate::publish::NormalizedPublish;
use crate::publish_flow::{
    continue_publish, start_publish, PublishAction, PublishEvent, PublishState,
};
use crate::registry::{
    append_index_line, clamp_per_page, config_reply, download_reply, found_download, mark_yanked,
    ok_reply, publish_reply, render_sparse_index, search_reply, sparse_config, whoami_reply,
    yank_reply, CrateDownload, CrateDownloadRecord, IndexVersionRow, SearchResult, SparseConfig,
};
use crate::service_flow::{
    begin_download, begin_yank, continue_download, continue_index, continue_yank, start_download,
    start_index, start_yank, DownloadAction, DownloadEvent, DownloadState, IndexAction, IndexEvent,
    IndexState, YankAction, YankEvent, YankState,
};
use crate::version::SemVersion;
use serde_json::Value;
use vstd::prelude::*;
use vstd::string::*;

verus! {

use crate::json::{document, json_writing, Json};
use crate::name_laws::{is_name_error, is_release_error, lemma_names, names_a_crate};
use crate::publish_laws::gives_text;
use crate::registry::{
    index_file, is_header_byte, is_header_text, is_shown, marked_entry, publish_json,
    search_result_json,
};
use crate::text::trim_slashes;
use crate::version::semver_reading;
use vstd::utf8::{encode_utf8, is_ascii_chars, is_ascii_chars_encode_utf8};

/// The address is the base with nothing but slashes behind it.
pub open spec fn is_base_of(base: Seq<char>, url: Seq<char>) -> bool {
    &&& base.len() <= url.len()
    &&& url.take(base.len() as int) == base
    &&& forall|i: int| base.len() <= i < url.len() ==> #[trigger] url[i] == '/'
    &&& base.len() > 0 ==> base.last() != '/'
}

proof fn lemma_base(url: Seq<char>)
    ensures
        is_base_of(trim_slashes(url), url),
    decreases url.len(),
{
    if url.len() > 0 && url.last() == '/' {
        let shorter = url.drop_last();
        lemma_base(shorter);
        let base = trim_slashes(url);
        assert forall|i: int| base.len() <= i < url.len() implies #[trigger] url[i] == '/' by {
            if i < shorter.len() {
                assert(shorter[i] == '/');
            }
        }
        assert(url.take(base.len() as int) =~= shorter.take(base.len() as int));
    } else {
        assert(url.take(url.len() as int) =~= url);
    }
}

/// Clients are told the registry's address without the slashes at its end, the
/// place of downloads below it, and that they have to say who they are.
pub proof fn law_clients_are_told_the_address(url: &str, config: SparseConfig, reply: Value)
    requires
        call_ensures(sparse_config, (url,), config),
        call_ensures(config_reply, (&config,), reply),
    ensures
        is_base_of(config.api@, url@),
        config.dl@ == config.api@ + "/api/v1/crates/{crate}/{version}/download"@,
        config.auth_required,
        document(reply) matches Json::Object(all) && all["api"@] == Json::Text(config.api@)
            && all["dl"@] == Json::Text(config.dl@) && all["auth-required"@] == Json::Bool(true)
            && forall|key: Seq<char>| #[trigger]
            all.dom().contains(key) <==> key == "dl"@ || key == "api"@ || key == "auth-required"@,
{
    lemma_base(url@);
    reveal_strlit("dl");
    reveal_strlit("api");
    reveal_strlit("auth-required");
    assert("dl"@.len() == 2 && "api"@.len() == 3 && "auth-required"@.len() == 13);
}

/// The shown entry has the mark as its member `yanked`, and every other member
/// as the stored entry has it.
pub open spec fn shows_entry(shown: Json, stored: Json, mark: bool) -> bool {
    &&& shown matches Json::Object(all)
    &&& stored matches Json::Object(kept)
    &&& all.dom().contains("yanked"@)
    &&& all["yanked"@] == Json::Bool(mark)
    &&& forall|key: Seq<char>|
        key != "yanked"@ ==> (#[trigger] all.dom().contains(key) <==> kept.dom().contains(key))
    &&& forall|key: Seq<char>|
        key != "yanked"@ && kept.dom().contains(key) ==> #[trigger] all[key] == kept[key]
}

/// There is one way to show an entry with a mark.
proof fn lemma_shown(shown: Json, kept: Map<Seq<char>, Json>, mark: bool)
    ensures
        shows_entry(shown, Json::Object(kept), mark) <==> shown == marked_entry(kept, mark),
{
    if shows_entry(shown, Json::Object(kept), mark) {
        if let Json::Object(all) = shown {
            assert(all =~= kept.insert("yanked"@, Json::Bool(mark)));
        }
    }
}

/// Marking an entry sets its member `yanked` to the mark and changes no other;
/// what is no object stays as it is and is an internal error.
pub proof fn law_entries_are_marked(entry: &mut Value, yanked: bool, result: Result<(), AppError>)
    requires
        call_ensures(mark_yanked, (entry, yanked), result),
    ensures
        document(*old(entry)) is Object ==> result is Ok && shows_entry(
            document(*final(entry)),
            document(*old(entry)),
            yanked,
        ),
        !(document(*old(entry)) is Object) ==> *final(entry) == *old(entry) && (result matches Err(
            AppError::Internal(text),
        ) && text@ == "stored crate index entry is not an object"@),
{
    if let Json::Object(kept) = document(*old(entry)) {
        lemma_shown(document(*final(entry)), kept, yanked);
    }
}

/// The texts, each with a line feed behind it, one after another.
pub open spec fn as_lines(texts: Seq<Seq<char>>) -> Seq<char>
    decreases texts.len(),
{
    if texts.len() == 0 {
        Seq::empty()
    } else {
        as_lines(texts.drop_last()) + texts.last().push('\n')
    }
}

proof fn lemma_lines(rows: Seq<IndexVersionRow>, shown: Seq<Json>, texts: Seq<Seq<char>>)
    requires
        shown.len() == rows.len(),
        texts.len() == rows.len(),
        forall|k: int|
            0 <= k < rows.len() ==> #[trigger] texts[k] == json_writing(shown[k]) && shows_entry(
                shown[k],
                document(rows[k].index_entry),
                rows[k].yanked,
            ),
    ensures
        index_file(rows) == as_lines(texts),
    decreases rows.len(),
{
    if rows.len() > 0 {
        let last = rows.len() - 1;
        assert(texts[last] == json_writing(shown[last]));
        if let Json::Object(kept) = document(rows[last].index_entry) {
            lemma_shown(shown[last], kept, rows[last].yanked);
        }
        assert forall|k: int| 0 <= k < last implies #[trigger] texts.drop_last()[k] == json_writing(
            shown.drop_last()[k],
        ) && shows_entry(
            shown.drop_last()[k],
            document(rows.drop_last()[k].index_entry),
            rows.drop_last()[k].yanked,
        ) by {
            assert(texts[k] == json_writing(shown[k]));
        }
        lemma_lines(rows.drop_last(), shown.drop_last(), texts.drop_last());
    }
}

/// The index file of a crate has a line for each of its versions, in order: its
/// entry, written as JSON, with the version's mark as the member `yanked`. A
/// crate without versions is not found, and an entry that is no object is an
/// internal error.
pub proof fn law_index_files_show_each_version(
    rows: Vec<IndexVersionRow>,
    shown: Seq<Json>,
    texts: Seq<Seq<char>>,
    result: Result<String, AppError>,
)
    requires
        call_ensures(render_sparse_index, (Some(rows),), result),
        shown.len() == rows@.len(),
        texts.len() == rows@.len(),
        forall|k: int|
            0 <= k < rows@.len() ==> #[trigger] texts[k] == json_writing(shown[k]) && shows_entry(
                shown[k],
                document(rows@[k].index_entry),
                rows@[k].yanked,
            ),
    ensures
        result matches Ok(output) && output@ == as_lines(texts),
{
    lemma_lines(rows@, shown, texts);
    assert forall|k: int| 0 <= k < rows@.len() implies document(
        #[trigger] rows@[k].index_entry,
    ) is Object by {
        assert(texts[k] == json_writing(shown[k]));
    }
}

/// What is not shown in an index: a crate without versions is not found, and an
/// entry that is no object is an internal error.
pub proof fn law_index_files_can_be_missing(
    versions: Option<Vec<IndexVersionRow>>,
    result: Result<String, AppError>,
)
    requires
        call_ensures(render_sparse_index, (versions,), result),
    ensures
        versions is None ==> (result matches Err(error) && error is NotFound),
        versions matches Some(rows) ==> {
            (result is Err <==> exists|k: int|
                0 <= k < rows@.len() && !(document((#[trigger] rows@[k]).index_entry) is Object))
        },
        versions is Some && result is Err ==> (result matches Err(AppError::Internal(text)) && text@
            == "stored crate index entry is not an object"@),
{
}

/// A line is appended with a line feed behind it.
pub proof fn law_lines_are_appended(
    output: &mut String,
    written: Result<String, String>,
    result: Result<(), AppError>,
)
    requires
        call_ensures(append_index_line, (output, written), result),
    ensures
        written matches Ok(text) ==> result is Ok && final(output)@ == old(output)@ + text@ + seq![
            '\n',
        ],
        written is Err ==> final(output)@ == old(output)@ && (result matches Err(error)
            && error is Internal),
{
    if let Ok(text) = written {
        assert(old(output)@ + text@.push('\n') =~= old(output)@ + text@ + seq!['\n']);
    }
}

/// A record that was found is handed on as it is, and one that was not is not
/// found.
pub proof fn law_records_are_handed_on(
    record: Option<CrateDownloadRecord>,
    result: Result<CrateDownloadRecord, AppError>,
)
    requires
        call_ensures(found_download, (record,), result),
    ensures
        record matches Some(found) ==> result == Ok::<CrateDownloadRecord, AppError>(found),
        record is None ==> (result matches Err(error) && error is NotFound),
{
}

/// What is handed out of a tarball: its bytes, as an octet stream, attached
/// under its file name.
pub open spec fn hands_out(download: CrateDownload, filename: Seq<char>, bytes: Seq<u8>) -> bool {
    &&& download.bytes@ == bytes
    &&& download.content_type@ == "application/octet-stream"@
    &&& download.content_disposition@ == encode_utf8(
        "attachment; filename=\""@ + filename + "\""@,
    )
}

/// A tarball is handed out unchanged under its file name, where that is
/// printable ASCII always.
pub proof fn law_tarballs_are_handed_out(
    filename: &str,
    bytes: Vec<u8>,
    result: Result<CrateDownload, AppError>,
)
    requires
        call_ensures(download_reply, (filename, bytes), result),
    ensures
        result matches Ok(download) ==> hands_out(download, filename@, bytes@),
        (forall|i: int| 0 <= i < filename@.len() ==> ' ' <= #[trigger] filename@[i] <= '~')
            ==> result is Ok,
        (exists|i: int|
            0 <= i < filename@.len() && #[trigger] filename@[i] == '\n') && is_ascii_chars(
            filename@,
        ) ==> result is Err,
        result matches Err(error) ==> (error matches AppError::Internal(text) && text@
            == "invalid crate filename"@),
{
    let front = "attachment; filename=\""@;
    let text = front + filename@ + "\""@;
    reveal_strlit("attachment; filename=\"");
    reveal_strlit("\"");
    assert forall|i: int| 0 <= i < front.len() implies ' ' <= #[trigger] front[i] <= '~' by {}
    if is_ascii_chars(filename@) {
        assert forall|i: int| 0 <= i < text.len() implies '\0' <= #[trigger] text[i] <= '\u{7f}' by {
            if i < front.len() {
                assert(text[i] == front[i]);
            } else if i < front.len() + filename@.len() {
                assert(text[i] == filename@[i - front.len()]);
            }
        }
        assert(is_ascii_chars(text));
        is_ascii_chars_encode_utf8(text);
        if exists|i: int| 0 <= i < filename@.len() && #[trigger] filename@[i] == '\n' {
            let i = choose|i: int| 0 <= i < filename@.len() && #[trigger] filename@[i] == '\n';
            let at = front.len() + i;
            assert(text[at] == '\n');
            assert(text[at] as u8 == encode_utf8(text)[at]);
            assert(!is_header_byte(encode_utf8(text)[at]));
        }
    }
    if forall|i: int| 0 <= i < filename@.len() ==> ' ' <= #[trigger] filename@[i] <= '~' {
        lemma_printable(filename@);
    }
}

/// The document says that all went well, and nothing else.
pub open spec fn says_ok(reply: Json) -> bool {
    &&& reply matches Json::Object(all)
    &&& all["ok"@] == Json::Bool(true)
    &&& forall|key: Seq<char>| #[trigger] all.dom().contains(key) <==> key == "ok"@
}

/// A version that is there is answered that all went well, and one that is not
/// is not found.
pub proof fn law_yanks_are_answered(found: bool, result: Result<Value, AppError>, reply: Value)
    requires
        call_ensures(yank_reply, (found,), result),
        call_ensures(ok_reply, (), reply),
    ensures
        found ==> (result matches Ok(answer) && says_ok(document(answer))),
        !found ==> (result matches Err(error) && error is NotFound),
        says_ok(document(reply)),
{
}

/// The document says that all went well and warns of nothing.
pub open spec fn warns_of_nothing(reply: Json) -> bool {
    &&& reply matches Json::Object(all)
    &&& all["ok"@] == Json::Bool(true)
    &&& all["warnings"@] matches Json::Object(warnings)
    &&& warnings["invalid_categories"@] == Json::Array(Seq::empty())
    &&& warnings["invalid_badges"@] == Json::Array(Seq::empty())
    &&& warnings["other"@] == Json::Array(Seq::empty())
    &&& forall|key: Seq<char>| #[trigger]
        all.dom().contains(key) <==> key == "ok"@ || key == "warnings"@
    &&& forall|key: Seq<char>| #[trigger]
        warnings.dom().contains(key) <==> key == "invalid_categories"@ || key == "invalid_badges"@
            || key == "other"@
}

proof fn lemma_publish_json()
    ensures
        warns_of_nothing(publish_json()),
{
    reveal_strlit("ok");
    reveal_strlit("warnings");
    reveal_strlit("invalid_categories");
    reveal_strlit("invalid_badges");
    reveal_strlit("other");
    assert("ok"@.len() == 2 && "warnings"@.len() == 8);
    assert("invalid_categories"@.len() == 18 && "invalid_badges"@.len() == 14 && "other"@.len()
        == 5);
}

/// A publish that was carried out is answered that all went well, with nothing
/// to warn of.
pub proof fn law_publishes_are_answered(reply: Value)
    requires
        call_ensures(publish_reply, (), reply),
    ensures
        warns_of_nothing(document(reply)),
{
    lemma_publish_json();
}

/// The document shows the crate that was found.
pub open spec fn shows_found(shown: Json, found: SearchResult) -> bool {
    &&& shown matches Json::Object(all)
    &&& all["name"@] == Json::Text(found.name@)
    &&& all["max_version"@] == Json::Text(found.max_version@)
    &&& gives_text(all["description"@], found.description)
    &&& forall|key: Seq<char>| #[trigger]
        all.dom().contains(key) <==> key == "name"@ || key == "max_version"@ || key
            == "description"@
}

proof fn lemma_found(found: SearchResult)
    ensures
        shows_found(search_result_json(found), found),
{
    reveal_strlit("name");
    reveal_strlit("max_version");
    reveal_strlit("description");
    assert("name"@.len() == 4 && "max_version"@.len() == 11 && "description"@.len() == 11);
    assert("max_version"@[0] == 'm' && "description"@[0] == 'd');
}

/// The document shows the crates that were found, in order, and no total.
pub open spec fn shows_search(reply: Json, rows: Seq<SearchResult>) -> bool {
    &&& reply matches Json::Object(all)
    &&& all["crates"@] matches Json::Array(crates)
    &&& crates.len() == rows.len()
    &&& forall|i: int| 0 <= i < rows.len() ==> shows_found(#[trigger] crates[i], rows[i])
    &&& all["meta"@] matches Json::Object(meta)
    &&& meta["total"@] == Json::Null
    &&& forall|key: Seq<char>| #[trigger]
        all.dom().contains(key) <==> key == "crates"@ || key == "meta"@
    &&& forall|key: Seq<char>| #[trigger] meta.dom().contains(key) <==> key == "total"@
}

/// A search is answered with every crate that was found, in order, and with no
/// total.
pub proof fn law_searches_are_answered(rows: Vec<SearchResult>, reply: Value)
    requires
        call_ensures(search_reply, (rows,), reply),
    ensures
        shows_search(document(reply), rows@),
{
    reveal_strlit("crates");
    reveal_strlit("meta");
    assert("crates"@.len() == 6 && "meta"@.len() == 4);
    assert forall|i: int| 0 <= i < rows@.len() implies shows_found(
        #[trigger] search_result_json(rows@[i]),
        rows@[i],
    ) by {
        lemma_found(rows@[i]);
    }
}

/// As many crates are shown as were asked for, but one at least and a hundred at
/// most.
pub proof fn law_pages_have_a_size(per_page: u64, size: u64)
    requires
        call_ensures(clamp_per_page, (per_page,), size),
    ensures
        1 <= size <= 100,
        1 <= per_page <= 100 ==> size == per_page,
        per_page == 0 ==> size == 1,
        per_page > 100 ==> size == 100,
{
}

/// A client is told the token it uses, and whether that is the one that the
/// registry was set up with.
pub proof fn law_clients_are_told_who_they_are(token_id: &str, bootstrap: bool, reply: Value)
    requires
        call_ensures(whoami_reply, (token_id, bootstrap), reply),
    ensures
        document(reply) matches Json::Object(all) && all["username"@] == Json::Text(token_id@)
            && all["bootstrap"@] == Json::Bool(bootstrap) && forall|key: Seq<char>| #[trigger]
            all.dom().contains(key) <==> key == "username"@ || key == "bootstrap"@,
{
    reveal_strlit("username");
    reveal_strlit("bootstrap");
    assert("username"@.len() == 8 && "bootstrap"@.len() == 9);
}

/// A request for the index of a crate lists the versions of exactly the crate it
/// names; a text that names no crate is refused before anything is asked of the
/// database.
pub proof fn law_index_requests_begin(crate_name: &str, step: (IndexState, IndexAction))
    requires
        call_ensures(start_index, (crate_name,), step),
    ensures
        names_a_crate(crate_name@) ==> step.0 is Listing && (step.1 matches IndexAction::List {
            crate_name: name,
        } && name@ == crate_name@),
        !names_a_crate(crate_name@) ==> step.0 is Finished && (step.1 matches IndexAction::Refuse(
            error,
        ) && is_name_error(error, crate_name@)),
{
    lemma_names(crate_name@);
}

/// A request for the index of a crate is answered with the entries of the
/// versions that were listed, each with its mark. A crate without any is not
/// found, and an error of the database is passed on.
pub proof fn law_index_requests_end(
    event: IndexEvent,
    shown: Seq<Json>,
    texts: Seq<Seq<char>>,
    step: (IndexState, IndexAction),
)
    requires
        call_ensures(continue_index, (IndexState::Listing, event), step),
        event matches IndexEvent::Listed(Some(rows)) ==> {
            &&& shown.len() == rows@.len()
            &&& texts.len() == rows@.len()
            &&& forall|k: int|
                0 <= k < rows@.len() ==> #[trigger] texts[k] == json_writing(shown[k])
                    && shows_entry(
                    shown[k],
                    document(rows@[k].index_entry),
                    rows@[k].yanked,
                )
        },
    ensures
        step.0 is Finished,
        match event {
            IndexEvent::Listed(Some(_)) => step.1 matches IndexAction::Reply(output) && output@
                == as_lines(texts),
            IndexEvent::Listed(None) => step.1 matches IndexAction::Refuse(error)
                && error is NotFound,
            IndexEvent::ListFailed => step.1 is PassError,
        },
{
    if let IndexEvent::Listed(Some(rows)) = event {
        lemma_lines(rows@, shown, texts);
        assert forall|k: int| 0 <= k < rows@.len() implies is_shown(
            #[trigger] rows@[k],
        ) by {
            assert(texts[k] == json_writing(shown[k]));
        }
    }
}

/// An entry that is no object cannot be shown in the index of its crate.
pub proof fn law_index_requests_can_fail(
    rows: Vec<IndexVersionRow>,
    k: int,
    step: (IndexState, IndexAction),
)
    requires
        call_ensures(
            continue_index,
            (IndexState::Listing, IndexEvent::Listed(Some(rows))),
            step,
        ),
        0 <= k < rows@.len(),
        !(document(rows@[k].index_entry) is Object),
    ensures
        step.0 is Finished,
        step.1 matches IndexAction::Refuse(AppError::Internal(text)) && text@
            == "stored crate index entry is not an object"@,
{
    assert(!is_shown(rows@[k]));
}

/// The action looks for the version of the crate, both as the request gives
/// them.
pub open spec fn looks_for(
    action: DownloadAction,
    crate_name: Seq<char>,
    version: Seq<char>,
) -> bool {
    action matches DownloadAction::Find { crate_name: name, version: number } && name@ == crate_name
        && number@ == version
}

/// A download looks for exactly the crate and the version that it names, and is
/// refused before that where it names no crate or no semantic version.
pub proof fn law_downloads_begin(
    crate_name: &str,
    version: &str,
    step: (DownloadState, DownloadAction),
)
    requires
        call_ensures(start_download, (crate_name, version), step),
    ensures
        names_a_crate(crate_name@) && semver_reading(version@) is Some ==> step.0 is Finding
            && looks_for(step.1, crate_name@, version@),
        !(names_a_crate(crate_name@) && semver_reading(version@) is Some) ==> step.0 is Finished && (
        step.1 matches DownloadAction::Refuse(error) && is_release_error(error, crate_name@)),
{
    lemma_names(crate_name@);
}

/// The same, given what came of the check.
pub proof fn law_checked_downloads_begin(
    crate_name: &str,
    version: &str,
    checked: Result<SemVersion, AppError>,
    step: (DownloadState, DownloadAction),
)
    requires
        call_ensures(begin_download, (crate_name, version, checked), step),
    ensures
        checked is Ok ==> step.0 is Finding && looks_for(step.1, crate_name@, version@),
        checked matches Err(fault) ==> step.0 is Finished && (step.1 matches DownloadAction::Refuse(
            error,
        ) && error@ == fault@),
{
}

/// What was found decides how a download goes on: the tarball of the record is
/// fetched, to be handed out under the name in the record; where there is no
/// record, nothing is found.
pub proof fn law_downloads_fetch_what_was_found(
    event: DownloadEvent,
    step: (DownloadState, DownloadAction),
)
    requires
        event is Found || event is FindFailed,
        call_ensures(continue_download, (DownloadState::Finding, event), step),
    ensures
        match event {
            DownloadEvent::Found(Some(record)) => step.0 == (DownloadState::Fetching {
                filename: record.filename,
            }) && step.1 == (DownloadAction::Fetch { object_key: record.object_key }),
            DownloadEvent::Found(None) => step.0 is Finished && (
            step.1 matches DownloadAction::Refuse(error) && error is NotFound),
            _ => step.0 is Finished && step.1 is PassError,
        },
{
}

/// What was fetched is handed out unchanged under the file's name, where that is
/// printable ASCII always.
pub proof fn law_downloads_hand_out_what_was_fetched(
    filename: String,
    event: DownloadEvent,
    step: (DownloadState, DownloadAction),
)
    requires
        event is Fetched || event is FetchFailed,
        call_ensures(continue_download, (DownloadState::Fetching { filename }, event), step),
    ensures
        step.0 is Finished,
        match event {
            DownloadEvent::Fetched(bytes) => match step.1 {
                DownloadAction::Reply(download) => hands_out(download, filename@, bytes@),
                DownloadAction::Refuse(AppError::Internal(text)) => text@
                    == "invalid crate filename"@,
                _ => false,
            },
            _ => step.1 is PassError,
        },
        event is Fetched && (forall|i: int|
            0 <= i < filename@.len() ==> ' ' <= #[trigger] filename@[i] <= '~')
            ==> step.1 is Reply,
{
    if forall|i: int| 0 <= i < filename@.len() ==> ' ' <= #[trigger] filename@[i] <= '~' {
        lemma_printable(filename@);
    }
}

/// A printable file name can stand in a header.
proof fn lemma_printable(filename: Seq<char>)
    requires
        forall|i: int| 0 <= i < filename.len() ==> ' ' <= #[trigger] filename[i] <= '~',
    ensures
        is_header_text("attachment; filename=\""@ + filename + "\""@),
{
    let front = "attachment; filename=\""@;
    let text = front + filename + "\""@;
    reveal_strlit("attachment; filename=\"");
    reveal_strlit("\"");
    assert forall|i: int| 0 <= i < front.len() implies ' ' <= #[trigger] front[i] <= '~' by {}
    assert forall|i: int| 0 <= i < text.len() implies ' ' <= #[trigger] text[i] <= '~' by {
        if i < front.len() {
            assert(text[i] == front[i]);
        } else if i < front.len() + filename.len() {
            assert(text[i] == filename[i - front.len()]);
        }
    }
    assert(is_ascii_chars(text));
    is_ascii_chars_encode_utf8(text);
    assert forall|i: int| 0 <= i < encode_utf8(text).len() implies is_header_byte(
        #[trigger] encode_utf8(text)[i],
    ) by {
        assert(text[i] as u8 == encode_utf8(text)[i]);
    }
}

/// The action marks the version of the crate, all as the request gives them.
pub open spec fn marks(
    action: YankAction,
    crate_name: Seq<char>,
    version: Seq<char>,
    mark: bool,
) -> bool {
    action matches YankAction::Mark { crate_name: name, version: number, yanked } && name@
        == crate_name && number@ == version && yanked == mark
}

/// A yank, or an unyank, marks exactly the crate and the version that it names
/// with exactly the mark that it asks for, and is refused before that where it
/// names no crate or no semantic version.
pub proof fn law_yanks_begin(
    crate_name: &str,
    version: &str,
    yanked: bool,
    step: (YankState, YankAction),
)
    requires
        call_ensures(start_yank, (crate_name, version, yanked), step),
    ensures
        names_a_crate(crate_name@) && semver_reading(version@) is Some ==> step.0 is Marking
            && marks(step.1, crate_name@, version@, yanked),
        !(names_a_crate(crate_name@) && semver_reading(version@) is Some) ==> step.0 is Finished && (
        step.1 matches YankAction::Refuse(error) && is_release_error(error, crate_name@)),
{
    lemma_names(crate_name@);
}

/// The same, given what came of the check.
pub proof fn law_checked_yanks_begin(
    crate_name: &str,
    version: &str,
    yanked: bool,
    checked: Result<SemVersion, AppError>,
    step: (YankState, YankAction),
)
    requires
        call_ensures(begin_yank, (crate_name, version, yanked, checked), step),
    ensures
        checked is Ok ==> step.0 is Marking && marks(step.1, crate_name@, version@, yanked),
        checked matches Err(fault) ==> step.0 is Finished && (step.1 matches YankAction::Refuse(
            error,
        ) && error@ == fault@),
{
}

/// A yank is answered by whether there was such a version.
pub proof fn law_yanks_end(event: YankEvent, step: (YankState, YankAction))
    requires
        call_ensures(continue_yank, (YankState::Marking, event), step),
    ensures
        step.0 is Finished,
        match event {
            YankEvent::Marked(found) => if found {
                step.1 matches YankAction::Reply(reply) && says_ok(document(reply))
            } else {
                step.1 matches YankAction::Refuse(error) && error is NotFound
            },
            YankEvent::MarkFailed => step.1 is PassError,
        },
{
}

/// What is asked for when a version is to be reserved is what was read from the
/// request, for the publisher who makes it.
pub proof fn law_publishes_begin(
    publish: NormalizedPublish,
    publisher: String,
    step: (PublishState, PublishAction),
)
    requires
        call_ensures(start_publish, (publish, publisher), step),
    ensures
        step.1 matches PublishAction::Reserve(input) && input.name@ == publish.name@
            && input.normalized_name@ == publish.normalized_name@ && input.version@
            == publish.version@ && input.semver_key@ == publish.semver_key@ && document(
            input.metadata,
        ) == document(publish.metadata) && document(input.index_entry) == document(
            publish.index_entry,
        ) && input.publisher_token_id@ == publisher@,
        step.0 is Reserving,
{
}

/// A version that was reserved has the tarball of its request stored under the
/// key of its request; one that was not is refused as a conflict that names it.
pub proof fn law_reserved_versions_are_stored(
    publish: NormalizedPublish,
    publisher: String,
    first: (PublishState, PublishAction),
    event: PublishEvent,
    step: (PublishState, PublishAction),
)
    requires
        call_ensures(start_publish, (publish, publisher), first),
        event is Reserved || event is ReserveFailed,
        call_ensures(continue_publish, (first.0, event), step),
    ensures
        match event {
            PublishEvent::Reserved(Some(version_id)) => {
                &&& step.1 matches PublishAction::Store { object_key, crate_bytes }
                &&& object_key@ == publish.object_key@
                &&& crate_bytes@ == publish.crate_bytes@
                &&& step.0 matches PublishState::Storing {
                    version_id: id,
                    object_key: key,
                    checksum_sha256,
                    size_bytes,
                }
                &&& id == version_id
                &&& key@ == publish.object_key@
                &&& checksum_sha256@ == publish.checksum_sha256@
                &&& publish.crate_bytes@.len() <= i64::MAX ==> size_bytes
                    == publish.crate_bytes@.len()
            },
            PublishEvent::Reserved(None) => {
                &&& step.0 is Finished
                &&& step.1 matches PublishAction::Refuse(AppError::Conflict(text))
                &&& text@ == publish.name@ + seq![' '] + publish.version@ + " already exists"@
            },
            _ => step.0 is Finished && step.1 is PassError,
        },
{
    reveal_strlit(" ");
    assert(" "@ =~= seq![' ']);
}

/// A version whose tarball was stored is made ready with that tarball's key,
/// checksum and size; one whose tarball could not be stored is noted as failed
/// for the reason given.
pub proof fn law_stored_versions_are_made_ready(
    version_id: i64,
    object_key: String,
    checksum_sha256: String,
    size_bytes: i64,
    event: PublishEvent,
    step: (PublishState, PublishAction),
)
    requires
        event is Stored || event is StoreFailed,
        call_ensures(
            continue_publish,
            (
                PublishState::Storing { version_id, object_key, checksum_sha256, size_bytes },
                event,
            ),
            step,
        ),
    ensures
        match event {
            PublishEvent::Stored => {
                &&& step.0 is Finalizing
                &&& step.1 matches PublishAction::Finalize(input)
                &&& input.version_id == version_id
                &&& input.object_key@ == object_key@
                &&& input.checksum_sha256@ == checksum_sha256@
                &&& input.size_bytes == size_bytes
            },
            PublishEvent::StoreFailed { reason } => {
                &&& step.0 is Failing
                &&& step.1 matches PublishAction::NoteFailure { version_id: id, reason: noted }
                &&& id == version_id
                &&& noted@ == reason@
            },
            _ => false,
        },
{
}

/// A version that was made ready ends the publish well; one that was not, or
/// whose failure was noted, ends it with the error that was met.
pub proof fn law_publishes_end(
    state: PublishState,
    event: PublishEvent,
    step: (PublishState, PublishAction),
)
    requires
        state is Finalizing && (event is Finalized || event is FinalizeFailed) || state is Failing
            && event is FailureNoted,
        call_ensures(continue_publish, (state, event), step),
    ensures
        step.0 is Finished,
        event is Finalized ==> (step.1 matches PublishAction::Reply(reply) && warns_of_nothing(
            document(reply),
        )),
        !(event is Finalized) ==> step.1 is PassError,
{
    lemma_publish_json();
}

} // verus!
