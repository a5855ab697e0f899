//! The statements that the registry's database is asked to carry out.

use serde_json::Value;
use vstd::prelude::*;
use vstd::string::*;

verus! {

use crate::json::{document, Json};

/// Records an event.
pub const RECORD_EVENT: &'static str = r#"
INSERT INTO registry_events(event_type, actor_token_id, crate_name, crate_version, payload)
VALUES ($1, $2, $3, $4, $5)
"#;

/// Finds the row of a crate, or makes it.
pub const UPSERT_CRATE: &'static str = r#"
INSERT INTO crates(name, normalized_name)
VALUES ($1, $2)
ON CONFLICT (name) DO UPDATE SET name = EXCLUDED.name
RETURNING id
"#;

/// Reserves a version of a crate, unless its key is taken.
pub const INSERT_VERSION: &'static str = r#"
INSERT INTO crate_versions(
    crate_id,
    version,
    semver_key,
    status,
    metadata,
    index_entry,
    publisher_token_id
)
VALUES ($1, $2, $3, 'publishing', $4, $5, $6)
ON CONFLICT (crate_id, semver_key) DO NOTHING
RETURNING id
"#;

/// Makes a reserved version ready.
pub const FINALIZE_VERSION: &'static str = r#"
UPDATE crate_versions
SET status = 'ready',
    object_key = $2,
    checksum_sha256 = $3,
    size_bytes = $4,
    published_at = now()
WHERE id = $1
RETURNING version, publisher_token_id
"#;

/// Marks a version as failed that was never made ready.
pub const FAIL_VERSION: &'static str = r#"
UPDATE crate_versions
SET status = 'failed'
WHERE id = $1 AND status = 'publishing'
"#;

/// Lists the ready versions of a crate, in the order in which they were published.
pub const SELECT_INDEX: &'static str = r#"
SELECT cv.index_entry, cv.yanked
FROM crate_versions cv
JOIN crates c ON c.id = cv.crate_id
WHERE c.name = $1
  AND cv.status = 'ready'
ORDER BY cv.published_at ASC
"#;

/// Finds the tarball of a ready version.
pub const SELECT_DOWNLOAD: &'static str = r#"
SELECT cv.object_key
FROM crate_versions cv
JOIN crates c ON c.id = cv.crate_id
WHERE c.name = $1
  AND cv.version = $2
  AND cv.status = 'ready'
"#;

/// Sets or clears the yanked mark of a ready version.
pub const SET_YANKED: &'static str = r#"
UPDATE crate_versions cv
SET yanked = $3
FROM crates c
WHERE c.id = cv.crate_id
  AND c.name = $1
  AND cv.version = $2
  AND cv.status = 'ready'
"#;

/// Finds crates by a part of their name, each with its latest ready version.
pub const SEARCH_CRATES: &'static str = r#"
SELECT c.name,
       cv.version AS max_version,
       cv.metadata->>'description' AS description
FROM crates c
JOIN LATERAL (
    SELECT version, metadata, published_at
    FROM crate_versions
    WHERE crate_id = c.id
      AND status = 'ready'
    ORDER BY published_at DESC
    LIMIT 1
) cv ON TRUE
WHERE c.name ILIKE $1
ORDER BY c.name ASC
LIMIT $2
"#;

/// A value that a statement is given.
pub enum SqlParam {
    Text(String),
    OptionalText(Option<String>),
    BigInt(i64),
    Flag(bool),
    Document(Value),
}

/// A statement with the values that stand in the places `$1`, `$2` and so on.
pub struct SqlStatement {
    pub sql: &'static str,
    pub params: Vec<SqlParam>,
}

/// The mathematical counterpart of [`SqlParam`].
pub enum Param {
    Text(Seq<char>),
    OptionalText(Option<Seq<char>>),
    BigInt(int),
    Flag(bool),
    Document(Json),
}

/// The mathematical counterpart of [`SqlStatement`].
pub struct Query {
    pub sql: Seq<char>,
    pub params: Seq<Param>,
}

/// The text in a string that may be missing.
pub open spec fn optional_view(text: Option<String>) -> Option<Seq<char>> {
    match text {
        Some(text) => Some(text@),
        None => None,
    }
}

impl View for SqlParam {
    type V = Param;

    open spec fn view(&self) -> Param {
        match self {
            SqlParam::Text(text) => Param::Text(text@),
            SqlParam::OptionalText(text) => Param::OptionalText(optional_view(*text)),
            SqlParam::BigInt(number) => Param::BigInt(*number as int),
            SqlParam::Flag(flag) => Param::Flag(*flag),
            SqlParam::Document(value) => Param::Document(document(*value)),
        }
    }
}

impl View for SqlStatement {
    type V = Query;

    open spec fn view(&self) -> Query {
        Query { sql: self.sql@, params: self.params@.map_values(|param: SqlParam| param@) }
    }
}

/// The query that records an event.
pub open spec fn event_query(
    event_type: Seq<char>,
    actor: Option<Seq<char>>,
    crate_name: Option<Seq<char>>,
    crate_version: Option<Seq<char>>,
    payload: Json,
) -> Query {
    Query {
        sql: RECORD_EVENT@,
        params: seq![
            Param::Text(event_type),
            Param::OptionalText(actor),
            Param::OptionalText(crate_name),
            Param::OptionalText(crate_version),
            Param::Document(payload),
        ],
    }
}

/// Records an event.
pub fn record_event(
    event_type: &str,
    actor_token_id: Option<String>,
    crate_name: Option<String>,
    crate_version: Option<String>,
    payload: Value,
) -> (statement: SqlStatement)
    ensures
        statement@ == event_query(
            event_type@,
            optional_view(actor_token_id),
            optional_view(crate_name),
            optional_view(crate_version),
            document(payload),
        ),
{
    let statement = SqlStatement {
        sql: RECORD_EVENT,
        params: vec![
            SqlParam::Text(event_type.to_owned()),
            SqlParam::OptionalText(actor_token_id),
            SqlParam::OptionalText(crate_name),
            SqlParam::OptionalText(crate_version),
            SqlParam::Document(payload),
        ],
    };
    proof {
        assert(statement@.params =~= event_query(
            event_type@,
            optional_view(actor_token_id),
            optional_view(crate_name),
            optional_view(crate_version),
            document(payload),
        ).params);
    }
    statement
}

/// The query that lists the ready versions of a crate.
pub open spec fn index_query(name: Seq<char>) -> Query {
    Query { sql: SELECT_INDEX@, params: seq![Param::Text(name)] }
}

/// The ready versions of a crate.
pub fn index_versions_statement(name: &str) -> (statement: SqlStatement)
    ensures
        statement@ == index_query(name@),
{
    let statement = SqlStatement {
        sql: SELECT_INDEX,
        params: vec![SqlParam::Text(name.to_owned())],
    };
    proof {
        assert(statement@.params =~= index_query(name@).params);
    }
    statement
}

/// The query that finds the tarball of a ready version.
pub open spec fn download_query(crate_name: Seq<char>, version: Seq<char>) -> Query {
    Query { sql: SELECT_DOWNLOAD@, params: seq![Param::Text(crate_name), Param::Text(version)] }
}

/// The tarball of a ready version.
pub fn find_download_statement(crate_name: &str, version: &str) -> (statement: SqlStatement)
    ensures
        statement@ == download_query(crate_name@, version@),
{
    let statement = SqlStatement {
        sql: SELECT_DOWNLOAD,
        params: vec![SqlParam::Text(crate_name.to_owned()), SqlParam::Text(version.to_owned())],
    };
    proof {
        assert(statement@.params =~= download_query(crate_name@, version@).params);
    }
    statement
}

/// The query that finds crates by a part of their name, no more than asked for.
pub open spec fn search_query(query: Seq<char>, per_page: u64) -> Query {
    Query {
        sql: SEARCH_CRATES@,
        params: seq![Param::Text("%"@ + query + "%"@), Param::BigInt(per_page as i64 as int)],
    }
}

/// The crates whose names hold the text, no more than asked for.
pub fn search_statement(query: &str, per_page: u64) -> (statement: SqlStatement)
    ensures
        statement@ == search_query(query@, per_page),
{
    let mut pattern = "%".to_owned();
    pattern.append(query);
    pattern.append("%");
    let limit: i64 = per_page as i64;
    let statement = SqlStatement {
        sql: SEARCH_CRATES,
        params: vec![SqlParam::Text(pattern), SqlParam::BigInt(limit)],
    };
    proof {
        assert(statement@.params =~= search_query(query@, per_page).params);
    }
    statement
}

} // verus!
