//! What the registry answers to configuration, index, download, yank and search
//! requests.

use crate::error::{internal, AppError};
use crate::json::{
    array_value, bool_value, null_value, object_value, optional_text_value, text_value,
    write_document,
};
use crate::text::without_trailing_slashes;
use serde_json::Value;
use vstd::prelude::*;
use vstd::string::*;

verus! {

use crate::crate_name::{filename, is_name_char, valid_name};
use crate::error::Fault;
use crate::json::{document, json_writing, optional_text, Json};
use crate::publish::{index_entry_json, PublishMetadata};
use crate::text::trim_slashes;
use crate::version::{is_identifier_char, lemma_version_chars, writes_version, Release};
use vstd::utf8::{encode_utf8, is_ascii_chars, is_ascii_chars_encode_utf8};

/// What a client is told about the registry.
pub struct SparseConfig {
    pub dl: String,
    pub api: String,
    pub auth_required: bool,
}

/// The registry's configuration, given the address under which it is reached.
pub fn sparse_config(registry_public_url: &str) -> (config: SparseConfig)
    ensures
        config.dl@ == trim_slashes(registry_public_url@)
            + "/api/v1/crates/{crate}/{version}/download"@,
        config.api@ == trim_slashes(registry_public_url@),
        config.auth_required,
{
    let base = without_trailing_slashes(registry_public_url);
    let mut dl = base.clone();
    dl.append("/api/v1/crates/{crate}/{version}/download");
    SparseConfig { dl, api: base, auth_required: true }
}

/// The configuration as a document.
pub fn config_reply(config: &SparseConfig) -> (reply: Value)
    ensures
        document(reply) == Json::Object(
            map![
                "dl"@ => Json::Text(config.dl@),
                "api"@ => Json::Text(config.api@),
                "auth-required"@ => Json::Bool(config.auth_required),
            ],
        ),
{
    let mut object = serde_json::Map::new();
    object.insert("dl".to_owned(), text_value(config.dl.clone()));
    object.insert("api".to_owned(), text_value(config.api.clone()));
    object.insert("auth-required".to_owned(), bool_value(config.auth_required));
    object_value(object)
}

/// Slashes at the end of the registry's address do not matter, and none is left.
pub proof fn law_trailing_slashes(url: Seq<char>, slashes: nat)
    ensures
        trim_slashes(url + Seq::new(slashes, |i: int| '/')) == trim_slashes(url),
        trim_slashes(url).len() > 0 ==> trim_slashes(url).last() != '/',
    decreases slashes, url.len(),
{
    let tail = Seq::new(slashes, |i: int| '/');
    if slashes == 0 {
        assert(url + tail == url);
        if url.len() > 0 && url.last() == '/' {
            law_trailing_slashes(url.drop_last(), 0);
        }
    } else {
        let shorter = Seq::new((slashes - 1) as nat, |i: int| '/');
        assert((url + tail).drop_last() == url + shorter);
        assert((url + tail).last() == '/');
        law_trailing_slashes(url, (slashes - 1) as nat);
    }
}

/// A version of a crate as the index stores it.
pub struct IndexVersionRow {
    pub index_entry: Value,
    pub yanked: bool,
}

impl Clone for IndexVersionRow {
    fn clone(&self) -> (copy: Self)
        ensures
            document(copy.index_entry) == document(self.index_entry),
            copy.yanked == self.yanked,
    {
        IndexVersionRow { index_entry: self.index_entry.clone(), yanked: self.yanked }
    }
}

/// The entry with its yanked mark set.
pub open spec fn marked_entry(entry: Map<Seq<char>, Json>, yanked: bool) -> Json {
    Json::Object(entry.insert("yanked"@, Json::Bool(yanked)))
}

/// The version has an entry that can be shown.
pub open spec fn is_shown(row: IndexVersionRow) -> bool {
    document(row.index_entry) is Object
}

/// The line of the index for a version that can be shown.
pub open spec fn index_line(entry: Json, yanked: bool) -> Seq<char> {
    json_writing(marked_entry(entry->Object_0, yanked)).push('\n')
}

/// The index file of a crate: a line for each of its versions, in order.
pub open spec fn index_file(rows: Seq<IndexVersionRow>) -> Seq<char>
    decreases rows.len(),
{
    if rows.len() == 0 {
        Seq::empty()
    } else {
        index_file(rows.drop_last()) + index_line(
            document(rows.last().index_entry),
            rows.last().yanked,
        )
    }
}

/// The line feeds in a text.
pub open spec fn line_count(text: Seq<char>) -> nat
    decreases text.len(),
{
    if text.len() == 0 {
        0
    } else if text.last() == '\n' {
        line_count(text.drop_last()) + 1
    } else {
        line_count(text.drop_last())
    }
}

/// Appends a line to an index file, given how the document was written.
pub fn append_index_line(output: &mut String, written: Result<String, String>) -> (result: Result<
    (),
    AppError,
>)
    ensures
        match written {
            Ok(text) => result is Ok && final(output)@ == old(output)@ + text@.push('\n'),
            Err(message) => {
                &&& result matches Err(error)
                &&& error@ == Fault::Internal("failed to encode index entry: "@ + message@)
                &&& final(output)@ == old(output)@
            },
        },
{
    match written {
        Ok(text) => {
            output.append(text.as_str());
            output.push('\n');
            Ok(())
        },
        Err(message) => {
            let mut text = "failed to encode index entry: ".to_owned();
            text.append(message.as_str());
            Err(AppError::Internal(text))
        },
    }
}

/// A text without line feeds, followed by one, adds one line.
proof fn lemma_line_count(text: Seq<char>, line: Seq<char>)
    requires
        !line.contains('\n'),
    ensures
        line_count(text + line.push('\n')) == line_count(text) + 1,
        line_count(text + line) == line_count(text),
    decreases line.len(),
{
    assert((text + line.push('\n')).drop_last() == text + line);
    assert((text + line.push('\n')).last() == '\n');
    assert(line_count(text + line.push('\n')) == line_count(text + line) + 1);
    if line.len() == 0 {
        assert(text + line == text);
    } else {
        assert((text + line).drop_last() == text + line.drop_last());
        assert(line[line.len() - 1] != '\n');
        assert forall|i: int| 0 <= i < line.drop_last().len() implies line.drop_last()[i] != '\n' by {
            assert(line.drop_last()[i] == line[i]);
        }
        lemma_line_count(text, line.drop_last());
    }
}

/// Sets the yanked mark of a stored index entry.
pub fn mark_yanked(entry: &mut Value, yanked: bool) -> (result: Result<(), AppError>)
    ensures
        match document(*old(entry)) {
            Json::Object(all) => result is Ok && document(*final(entry)) == marked_entry(all, yanked),
            _ => {
                &&& result matches Err(error)
                &&& error@ == Fault::Internal("stored crate index entry is not an object"@)
                &&& *final(entry) == *old(entry)
            },
        },
{
    match entry.as_object_mut() {
        Some(object) => {
            object.insert("yanked".to_owned(), bool_value(yanked));
            Ok(())
        },
        None => Err(internal("stored crate index entry is not an object")),
    }
}

/// The index file of a crate, given its published versions; nothing is known
/// of a crate that has none.
pub fn render_sparse_index(versions: Option<Vec<IndexVersionRow>>) -> (result: Result<
    String,
    AppError,
>)
    ensures
        match versions {
            None => result matches Err(error) && error@ == Fault::NotFound,
            Some(rows) => match result {
                Ok(output) => {
                    &&& forall|k: int| 0 <= k < rows@.len() ==> is_shown(#[trigger] rows@[k])
                    &&& output@ == index_file(rows@)
                    &&& line_count(output@) == rows@.len()
                },
                Err(error) => {
                    &&& exists|k: int| 0 <= k < rows@.len() && !is_shown(#[trigger] rows@[k])
                    &&& error@ == Fault::Internal("stored crate index entry is not an object"@)
                },
            },
        },
{
    let rows = match versions {
        Some(rows) => rows,
        None => return Err(AppError::NotFound),
    };
    let ghost all = rows@;
    let mut output = String::new();
    for row in it: rows
        invariant
            versions matches Some(rows) && rows@ == all,
            it.seq() == all,
            forall|k: int| 0 <= k < it.index() ==> is_shown(#[trigger] all[k]),
            output@ == index_file(all.take(it.index())),
            line_count(output@) == it.index(),
    {
        proof {
            assert(row == all[it.index()]);
            assert(all.take(it.index() + 1).drop_last() == all.take(it.index()));
        }
        let mut entry = row.index_entry;
        mark_yanked(&mut entry, row.yanked)?;
        let written = write_document(&entry);
        proof {
            lemma_line_count(output@, json_writing(document(entry)));
        }
        append_index_line(&mut output, written)?;
    }
    proof {
        assert(all.take(all.len() as int) == all);
    }
    Ok(output)
}

/// Marking an entry anew forgets the mark it had, and changes nothing else.
pub proof fn law_yank_undone(entry: Map<Seq<char>, Json>, first: bool, second: bool)
    ensures
        marked_entry(entry, first) matches Json::Object(marked) && marked_entry(marked, second)
            == marked_entry(entry, second),
        marked_entry(entry, first) matches Json::Object(marked) && forall|name: Seq<char>|
            name != "yanked"@ ==> (marked.dom().contains(name) <==> entry.dom().contains(name)) && (
            entry.dom().contains(name) ==> #[trigger] marked[name] == entry[name]),
{
    let once = entry.insert("yanked"@, Json::Bool(first));
    assert(once.insert("yanked"@, Json::Bool(second)) =~= entry.insert(
        "yanked"@,
        Json::Bool(second),
    ));
}

/// A version that has just been published is shown in the index as it was
/// stored.
pub proof fn law_fresh_entry(metadata: PublishMetadata, checksum: Seq<char>)
    ensures
        index_entry_json(metadata, checksum) matches Json::Object(entry) && marked_entry(
            entry,
            false,
        ) == index_entry_json(metadata, checksum),
        index_line(index_entry_json(metadata, checksum), false) == json_writing(
            index_entry_json(metadata, checksum),
        ).push('\n'),
{
    reveal_strlit("yanked");
    reveal_strlit("links");
    reveal_strlit("v");
    reveal_strlit("rust_version");
    if let Json::Object(entry) = index_entry_json(metadata, checksum) {
        assert("yanked"@[0] == 'y');
        assert("links"@[0] == 'l');
        assert("v"@[0] == 'v');
        assert("rust_version"@[0] == 'r');
        assert(entry["yanked"@] == Json::Bool(false));
        assert(entry.insert("yanked"@, Json::Bool(false)) =~= entry);
    }
}

/// Where a crate version's tarball is, and the name under which it is handed out.
pub struct CrateDownloadRecord {
    pub object_key: String,
    pub filename: String,
}

/// A tarball with the headers under which it is handed out. The disposition is
/// the bytes of a header's value.
pub struct CrateDownload {
    pub bytes: Vec<u8>,
    pub content_type: String,
    pub content_disposition: Vec<u8>,
}

/// `axum::http::header::InvalidHeaderValue`, which is only carried.
#[verifier::external_type_specification]
#[verifier::external_body]
pub struct ExInvalidHeaderValue(axum::http::header::InvalidHeaderValue);

/// A byte that the value of a header may hold.
pub open spec fn is_header_byte(byte: u8) -> bool {
    byte >= 32 && byte != 127 || byte == 9
}

/// The text can be the value of a header.
pub open spec fn is_header_text(text: Seq<char>) -> bool {
    forall|i: int| 0 <= i < encode_utf8(text).len() ==> is_header_byte(#[trigger] encode_utf8(text)[i])
}

/// `axum::http::HeaderValue::from_str`, with the bytes of the value it makes:
/// those of the text. It refuses control characters other than the tab.
#[verifier::external_body]
fn header_value(text: &str) -> (result: Result<Vec<u8>, axum::http::header::InvalidHeaderValue>)
    ensures
        match result {
            Ok(bytes) => is_header_text(text@) && bytes@ == encode_utf8(text@),
            Err(_) => !is_header_text(text@),
        },
{
    let value = axum::http::HeaderValue::from_str(text)?;
    Ok(value.as_bytes().to_vec())
}

/// The disposition under which a file is handed out.
pub open spec fn disposition(file: Seq<char>) -> Seq<char> {
    "attachment; filename=\""@ + file + "\""@
}

/// The record of a download; nothing is known of a version that has none.
pub fn found_download(record: Option<CrateDownloadRecord>) -> (result: Result<
    CrateDownloadRecord,
    AppError,
>)
    ensures
        match record {
            Some(record) => result == Ok::<CrateDownloadRecord, AppError>(record),
            None => result matches Err(error) && error@ == Fault::NotFound,
        },
{
    match record {
        Some(record) => Ok(record),
        None => Err(AppError::NotFound),
    }
}

/// Hands out a tarball under its file name.
pub fn download_reply(filename: &str, bytes: Vec<u8>) -> (result: Result<CrateDownload, AppError>)
    ensures
        match result {
            Ok(download) => {
                &&& is_header_text(disposition(filename@))
                &&& download.bytes == bytes
                &&& download.content_type@ == "application/octet-stream"@
                &&& download.content_disposition@ == encode_utf8(disposition(filename@))
            },
            Err(error) => {
                &&& !is_header_text(disposition(filename@))
                &&& error@ == Fault::Internal("invalid crate filename"@)
            },
        },
{
    let mut text = "attachment; filename=\"".to_owned();
    text.append(filename);
    text.append("\"");
    match header_value(text.as_str()) {
        Ok(content_disposition) => Ok(
            CrateDownload {
                bytes,
                content_type: "application/octet-stream".to_owned(),
                content_disposition,
            },
        ),
        Err(_) => Err(internal("invalid crate filename")),
    }
}

/// Every published crate version can be handed out under its file name.
pub proof fn law_downloads_have_headers(name: Seq<char>, version: Seq<char>, release: Release)
    requires
        valid_name(name),
        writes_version(version, release),
    ensures
        is_header_text(disposition(filename(name, version))),
{
    reveal_strlit("attachment; filename=\"");
    reveal_strlit("\"");
    reveal_strlit("-");
    reveal_strlit(".crate");
    lemma_version_chars(version, release);
    let text = disposition(filename(name, version));
    let front = "attachment; filename=\""@.len() as int;
    let name_end = front + name.len();
    let version_end = name_end + 1 + version.len();
    assert forall|i: int| 0 <= i < text.len() implies ' ' <= #[trigger] text[i] <= '~' by {
        if i < front {
            assert(text[i] == "attachment; filename=\""@[i]);
        } else if i < name_end {
            assert(text[i] == name[i - front]);
            assert(is_name_char(name[i - front]));
        } else if i == name_end {
            assert(text[i] == '-');
        } else if i < version_end {
            assert(text[i] == version[i - name_end - 1]);
            assert(is_identifier_char(version[i - name_end - 1]) || version[i - name_end - 1] == '+');
        } else if i < version_end + 6 {
            assert(text[i] == ".crate"@[i - version_end]);
        } else {
            assert(text[i] == '"');
        }
    }
    assert(is_ascii_chars(text));
    is_ascii_chars_encode_utf8(text);
    assert forall|i: int| 0 <= i < encode_utf8(text).len() implies is_header_byte(
        #[trigger] encode_utf8(text)[i],
    ) by {
        assert(text[i] as u8 == encode_utf8(text)[i]);
    }
}

/// The answer to a request that was carried out.
pub open spec fn ok_json() -> Json {
    Json::Object(map!["ok"@ => Json::Bool(true)])
}

/// The answer to a request that was carried out.
pub fn ok_reply() -> (reply: Value)
    ensures
        document(reply) == ok_json(),
{
    let mut object = serde_json::Map::new();
    object.insert("ok".to_owned(), bool_value(true));
    object_value(object)
}

/// The answer to a request to yank a version or to take that back, given
/// whether there is such a version.
pub fn yank_reply(found: bool) -> (result: Result<Value, AppError>)
    ensures
        match result {
            Ok(reply) => found && document(reply) == ok_json(),
            Err(error) => !found && error@ == Fault::NotFound,
        },
{
    if !found {
        return Err(AppError::NotFound);
    }
    Ok(ok_reply())
}

/// The answer to a publish request that was carried out.
pub open spec fn publish_json() -> Json {
    Json::Object(
        map![
            "ok"@ => Json::Bool(true),
            "warnings"@ => Json::Object(map![
                "invalid_categories"@ => Json::Array(Seq::empty()),
                "invalid_badges"@ => Json::Array(Seq::empty()),
                "other"@ => Json::Array(Seq::empty()),
            ]),
        ],
    )
}

/// An empty list.
fn empty_list() -> (value: Value)
    ensures
        document(value) == Json::Array(Seq::empty()),
{
    let items: Vec<Value> = Vec::new();
    proof {
        assert(items@.map_values(|item: Value| document(item)) =~= Seq::<Json>::empty());
    }
    array_value(items)
}

/// The answer to a publish request that was carried out: there is nothing to
/// warn of.
pub fn publish_reply() -> (reply: Value)
    ensures
        document(reply) == publish_json(),
{
    let mut warnings = serde_json::Map::new();
    warnings.insert("invalid_categories".to_owned(), empty_list());
    warnings.insert("invalid_badges".to_owned(), empty_list());
    warnings.insert("other".to_owned(), empty_list());
    let mut object = serde_json::Map::new();
    object.insert("ok".to_owned(), bool_value(true));
    object.insert("warnings".to_owned(), object_value(warnings));
    object_value(object)
}

/// A crate that a search found, with its latest version.
pub struct SearchResult {
    pub name: String,
    pub max_version: String,
    pub description: Option<String>,
}

impl Clone for SearchResult {
    fn clone(&self) -> (copy: Self)
        ensures
            copy == *self,
    {
        let description = match &self.description {
            Some(text) => Some(text.clone()),
            None => None,
        };
        SearchResult { name: self.name.clone(), max_version: self.max_version.clone(), description }
    }
}

/// The fewest crates that a search shows at once.
pub const MIN_PER_PAGE: u64 = 1;

/// The most crates that a search shows at once.
pub const MAX_PER_PAGE: u64 = 100;

/// How many crates a search shows at once, given how many were asked for.
pub open spec fn page_size(per_page: u64) -> u64 {
    if per_page < MIN_PER_PAGE {
        MIN_PER_PAGE
    } else if per_page > MAX_PER_PAGE {
        MAX_PER_PAGE
    } else {
        per_page
    }
}

/// How many crates a search shows at once, given how many were asked for.
pub fn clamp_per_page(per_page: u64) -> (size: u64)
    ensures
        size == page_size(per_page),
{
    if per_page < MIN_PER_PAGE {
        MIN_PER_PAGE
    } else if per_page > MAX_PER_PAGE {
        MAX_PER_PAGE
    } else {
        per_page
    }
}

/// A crate that a search found, as it is shown.
pub open spec fn search_result_json(found: SearchResult) -> Json {
    Json::Object(
        map![
            "name"@ => Json::Text(found.name@),
            "max_version"@ => Json::Text(found.max_version@),
            "description"@ => optional_text(found.description),
        ],
    )
}

/// The answer to a search.
pub open spec fn search_json(rows: Seq<SearchResult>) -> Json {
    Json::Object(
        map![
            "crates"@ => Json::Array(rows.map_values(|found: SearchResult| search_result_json(found))),
            "meta"@ => Json::Object(map!["total"@ => Json::Null]),
        ],
    )
}

/// The answer to a search, given what was found.
pub fn search_reply(rows: Vec<SearchResult>) -> (reply: Value)
    ensures
        document(reply) == search_json(rows@),
{
    let mut crates: Vec<Value> = Vec::new();
    let mut i: usize = 0;
    while i < rows.len()
        invariant
            i <= rows.len(),
            crates@.len() == i,
            forall|k: int| 0 <= k < i ==> document(#[trigger] crates@[k]) == search_result_json(rows@[k]),
        decreases rows.len() - i,
    {
        let mut object = serde_json::Map::new();
        object.insert("name".to_owned(), text_value(rows[i].name.clone()));
        object.insert("max_version".to_owned(), text_value(rows[i].max_version.clone()));
        object.insert("description".to_owned(), optional_text_value(&rows[i].description));
        crates.push(object_value(object));
        i = i + 1;
    }
    proof {
        assert(crates@.map_values(|item: Value| document(item)) =~= rows@.map_values(
            |found: SearchResult| search_result_json(found),
        ));
    }
    let mut meta = serde_json::Map::new();
    meta.insert("total".to_owned(), null_value());
    let mut object = serde_json::Map::new();
    object.insert("crates".to_owned(), array_value(crates));
    object.insert("meta".to_owned(), object_value(meta));
    object_value(object)
}

/// The answer to a client that asks who it is.
pub fn whoami_reply(token_id: &str, bootstrap: bool) -> (reply: Value)
    ensures
        document(reply) == Json::Object(
            map!["username"@ => Json::Text(token_id@), "bootstrap"@ => Json::Bool(bootstrap)],
        ),
{
    let mut object = serde_json::Map::new();
    object.insert("username".to_owned(), text_value(token_id.to_owned()));
    object.insert("bootstrap".to_owned(), bool_value(bootstrap));
    object_value(object)
}

} // verus!
