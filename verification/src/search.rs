//! What a search shows of what the tables hold.

use crate::publish_flow::{PublishFinalizeInput, PublishStartInput};
use crate::registry::SearchResult;
use crate::repo::{RepoOutcome, RepoTask};
use vstd::prelude::*;
use vstd::string::*;

verus! {

use crate::json::{document, Json};
use crate::listings::{is_latest_of, is_listed, lemma_publishing, not_after};
use crate::registry::page_size;
use crate::repo::Work;
use crate::statements::{optional_view, search_query, Query, SEARCH_CRATES};
use crate::tables::{
    at_rest, comes_to, has_ready, is_crate, is_ready, is_valid, number_at, text_at, CrateRow,
    Tables, VersionRow,
};

/// How the database compares texts, which its locale decides: which characters
/// are the same where case does not matter, and which of two texts does not come
/// after the other.
pub struct Locale {
    pub same: spec_fn(char, char) -> bool,
    pub ordered: spec_fn(Seq<char>, Seq<char>) -> bool,
}

/// The text is like the pattern, in which `%` stands for any text, `_` for any
/// character, and a backslash takes the meaning from the character behind it.
/// Case does not matter.
pub open spec fn is_like(locale: Locale, text: Seq<char>, pattern: Seq<char>) -> bool
    decreases text.len() + pattern.len(),
{
    if pattern.len() == 0 {
        text.len() == 0
    } else if pattern[0] == '%' {
        ||| is_like(locale, text, pattern.skip(1))
        ||| text.len() > 0 && is_like(locale, text.skip(1), pattern)
    } else if text.len() == 0 {
        false
    } else if pattern[0] == '_' {
        is_like(locale, text.skip(1), pattern.skip(1))
    } else if pattern[0] == '\\' {
        &&& pattern.len() > 1
        &&& (locale.same)(text[0], pattern[1])
        &&& is_like(locale, text.skip(1), pattern.skip(2))
    } else {
        &&& (locale.same)(text[0], pattern[0])
        &&& is_like(locale, text.skip(1), pattern.skip(1))
    }
}

/// The part stands in the text at the place, but for case.
pub open spec fn stands_at(
    locale: Locale,
    text: Seq<char>,
    part: Seq<char>,
    place: int,
) -> bool {
    &&& 0 <= place <= text.len() - part.len()
    &&& forall|i: int|
        0 <= i < part.len() ==> (locale.same)(text[place + i], #[trigger] part[i])
}

/// None of the characters of the text has a meaning of its own in a pattern.
pub open spec fn is_plain(text: Seq<char>) -> bool {
    forall|i: int|
        0 <= i < text.len() ==> #[trigger] text[i] != '%' && text[i] != '_' && text[i] != '\\'
}

proof fn lemma_like_anything(locale: Locale, text: Seq<char>)
    ensures
        is_like(locale, text, seq!['%']),
    decreases text.len(),
{
    if text.len() == 0 {
        assert(seq!['%'].skip(1).len() == 0);
        assert(is_like(locale, text, seq!['%'].skip(1)));
    } else {
        lemma_like_anything(locale, text.skip(1));
    }
}

proof fn lemma_like_beginning(locale: Locale, text: Seq<char>, part: Seq<char>)
    requires
        is_plain(part),
    ensures
        is_like(locale, text, part + seq!['%']) <==> stands_at(locale, text, part, 0),
    decreases part.len(),
{
    let pattern = part + seq!['%'];
    if part.len() == 0 {
        assert(pattern == seq!['%']);
        lemma_like_anything(locale, text);
    } else if text.len() > 0 {
        assert(pattern[0] == part[0]);
        assert(pattern.skip(1) == part.skip(1) + seq!['%']);
        assert forall|i: int| 0 <= i < part.skip(1).len() implies #[trigger] part.skip(1)[i] != '%'
            && part.skip(1)[i] != '_' && part.skip(1)[i] != '\\' by {
            assert(part.skip(1)[i] == part[i + 1]);
        }
        lemma_like_beginning(locale, text.skip(1), part.skip(1));
        if stands_at(locale, text, part, 0) {
            assert((locale.same)(text[0], part[0]));
            assert forall|i: int| 0 <= i < part.skip(1).len() implies (locale.same)(
                text.skip(1)[i],
                #[trigger] part.skip(1)[i],
            ) by {
                assert((locale.same)(text[i + 1], part[i + 1]));
            }
        }
        if (locale.same)(text[0], part[0]) && stands_at(locale, text.skip(1), part.skip(1), 0) {
            assert forall|i: int| 0 <= i < part.len() implies (locale.same)(
                text[i],
                #[trigger] part[i],
            ) by {
                if i > 0 {
                    assert((locale.same)(text.skip(1)[i - 1], part.skip(1)[i - 1]));
                }
            }
        }
    }
}

proof fn lemma_like_part(locale: Locale, text: Seq<char>, part: Seq<char>)
    requires
        is_plain(part),
    ensures
        is_like(locale, text, seq!['%'] + part + seq!['%']) <==> exists|place: int| #[trigger]
            stands_at(locale, text, part, place),
    decreases text.len(),
{
    let pattern = seq!['%'] + part + seq!['%'];
    assert(pattern.skip(1) == part + seq!['%']);
    lemma_like_beginning(locale, text, part);
    if text.len() > 0 {
        let rest = text.skip(1);
        lemma_like_part(locale, rest, part);
        if exists|place: int| #[trigger] stands_at(locale, rest, part, place) {
            let place = choose|place: int| #[trigger] stands_at(locale, rest, part, place);
            assert forall|i: int| 0 <= i < part.len() implies (locale.same)(
                text[place + 1 + i],
                #[trigger] part[i],
            ) by {
                assert((locale.same)(rest[place + i], part[i]));
            }
            assert(stands_at(locale, text, part, place + 1));
        }
        if exists|place: int| #[trigger] stands_at(locale, text, part, place) {
            let place = choose|place: int| #[trigger] stands_at(locale, text, part, place);
            if place > 0 {
                assert forall|i: int| 0 <= i < part.len() implies (locale.same)(
                    rest[place - 1 + i],
                    #[trigger] part[i],
                ) by {
                    assert((locale.same)(text[place + i], part[i]));
                }
                assert(stands_at(locale, rest, part, place - 1));
            }
        }
    }
}

/// A search for a text without marks of patterns finds the names in which the
/// text stands somewhere, but for case; one for nothing finds every name.
pub proof fn law_search_is_by_part(locale: Locale, name: Seq<char>, text: Seq<char>)
    requires
        is_plain(text),
    ensures
        is_like(locale, name, "%"@ + text + "%"@) <==> exists|place: int| #[trigger]
            stands_at(locale, name, text, place),
        text.len() == 0 ==> is_like(locale, name, "%"@ + text + "%"@),
{
    reveal_strlit("%");
    assert("%"@ == seq!['%']);
    lemma_like_part(locale, name, text);
    if text.len() == 0 {
        assert(stands_at(locale, name, text, 0));
    }
}

/// The number is that of a ready version of the crate with this number.
pub open spec fn is_ready_of(tables: Tables, id: int, crate_id: int) -> bool {
    &&& tables.versions.dom().contains(id)
    &&& tables.versions[id].crate_id == crate_id
    &&& tables.versions[id].status is Ready
}

/// No ready version of the crate was published after this ready one.
pub open spec fn is_latest(tables: Tables, id: int, crate_id: int) -> bool {
    &&& is_ready_of(tables, id, crate_id)
    &&& forall|other: int| #[trigger]
        is_ready_of(tables, other, crate_id) ==> not_after(
            tables.versions[other].published_at,
            tables.versions[id].published_at,
        )
}

/// The crate has a ready version, and its name is like the pattern.
pub open spec fn is_found(
    tables: Tables,
    locale: Locale,
    crate_id: int,
    pattern: Seq<char>,
) -> bool {
    &&& tables.crates.dom().contains(crate_id)
    &&& is_like(locale, tables.crates[crate_id].name, pattern)
    &&& exists|id: int| is_ready_of(tables, id, crate_id)
}

/// The description that stands in metadata, where it is a text or missing.
pub open spec fn shows_description(metadata: Json, description: Option<Seq<char>>) -> bool {
    match metadata {
        Json::Object(all) => if all.dom().contains("description"@) {
            match all["description"@] {
                Json::Text(text) => description == Some(text),
                Json::Null => description is None,
                _ => description is Some,
            }
        } else {
            description is None
        },
        _ => description is None,
    }
}

/// The result shows the crate with the version.
pub open spec fn shows_crate(row: SearchResult, found: CrateRow, version: VersionRow) -> bool {
    &&& row.name@ == found.name
    &&& row.max_version@ == version.version
    &&& shows_description(version.metadata, optional_view(row.description))
}

/// Searching for crates: the numbers are those of crates that are found, each
/// once, in the order of their names, each shown with its latest ready version.
/// No more are shown than the limit allows, and a crate is left out only where
/// the limit is reached by crates whose names do not come after its own.
pub open spec fn finds_crates(
    tables: Tables,
    locale: Locale,
    query: Query,
    found: Seq<int>,
    latest: Seq<int>,
    rows: Seq<SearchResult>,
) -> bool {
    let pattern = text_at(query, 0);
    let limit = number_at(query, 1);
    &&& query.sql == SEARCH_CRATES@
    &&& found.no_duplicates()
    &&& found.len() == rows.len()
    &&& latest.len() == rows.len()
    &&& rows.len() <= limit
    &&& forall|k: int|
        #![trigger found[k]]
        #![trigger rows[k]]
        0 <= k < rows.len() ==> {
            &&& is_found(tables, locale, found[k], pattern)
            &&& is_latest(tables, latest[k], found[k])
            &&& shows_crate(rows[k], tables.crates[found[k]], tables.versions[latest[k]])
        }
    &&& forall|i: int, j: int|
        #![trigger found[i], found[j]]
        0 <= i < j < found.len() ==> (locale.ordered)(
            tables.crates[found[i]].name,
            tables.crates[found[j]].name,
        )
    &&& forall|crate_id: int| #[trigger]
        is_found(tables, locale, crate_id, pattern) && !found.contains(crate_id) ==> {
            &&& rows.len() == limit
            &&& forall|k: int|
                0 <= k < found.len() ==> (locale.ordered)(
                    tables.crates[#[trigger] found[k]].name,
                    tables.crates[crate_id].name,
                )
        }
}

/// A search shows no more crates than a page holds, no crate twice, and each
/// with the latest of its ready versions, in the order of their names.
pub proof fn law_search_shows_ready_crates(
    tables: Tables,
    locale: Locale,
    query: Seq<char>,
    per_page: u64,
    found: Seq<int>,
    latest: Seq<int>,
    rows: Seq<SearchResult>,
)
    requires
        is_valid(tables),
        finds_crates(
            tables,
            locale,
            search_query(query, page_size(per_page)),
            found,
            latest,
            rows,
        ),
    ensures
        rows.len() <= page_size(per_page),
        forall|k: int|
            0 <= k < rows.len() ==> has_ready(
                tables,
                (#[trigger] rows[k]).name@,
                rows[k].max_version@,
            ),
        forall|k: int|
            0 <= k < rows.len() ==> is_latest(tables, latest[k], found[k])
                && tables.versions[latest[k]].version == (#[trigger] rows[k]).max_version@,
        forall|i: int, j: int|
            #![trigger rows[i], rows[j]]
            0 <= i < j < rows.len() ==> rows[i].name@ != rows[j].name@ && (locale.ordered)(
                rows[i].name@,
                rows[j].name@,
            ),
{
    assert forall|k: int| 0 <= k < rows.len() implies has_ready(
        tables,
        (#[trigger] rows[k]).name@,
        rows[k].max_version@,
    ) by {
        assert(is_ready(tables, latest[k], rows[k].name@, rows[k].max_version@));
    }
    assert forall|i: int, j: int|
        #![trigger rows[i], rows[j]]
        0 <= i < j < rows.len() implies rows[i].name@ != rows[j].name@ && (locale.ordered)(
        rows[i].name@,
        rows[j].name@,
    ) by {
        assert(found[i] != found[j]);
        assert(tables.crates.dom().contains(found[i]) && tables.crates.dom().contains(found[j]));
        assert(tables.crates[found[i]].name != tables.crates[found[j]].name);
    }
}

/// A search whose page is not full shows every crate that has a ready version
/// and a name like the pattern, so also one of which a version was just
/// published. Where that version was published after all others of the crate, it
/// is the one that is shown, with the description that it was published with.
pub proof fn law_published_crates_are_found(
    input: PublishStartInput,
    stored: PublishFinalizeInput,
    tables: Tables,
    between: Tables,
    outcome: RepoOutcome,
    published: Tables,
    locale: Locale,
    query: Query,
    found: Seq<int>,
    latest: Seq<int>,
    rows: Seq<SearchResult>,
)
    requires
        is_valid(tables),
        comes_to(
            RepoTask::OpenReserve(input),
            Work::Begin,
            at_rest(tables),
            RepoOutcome::Reserved(Some(stored.version_id)),
            at_rest(between),
        ),
        comes_to(
            RepoTask::OpenFinalize(stored),
            Work::Begin,
            at_rest(between),
            outcome,
            at_rest(published),
        ),
        finds_crates(published, locale, query, found, latest, rows),
        is_like(locale, input.name@, text_at(query, 0)),
        rows.len() < number_at(query, 1),
    ensures
        exists|k: int| 0 <= k < rows.len() && (#[trigger] rows[k]).name@ == input.name@ && (
        is_latest_of(published, stored.version_id as int, input.name@) ==> rows[k].max_version@
            == input.version@ && shows_description(
            document(input.metadata),
            optional_view(rows[k].description),
        )),
{
    let id = stored.version_id as int;
    lemma_publishing(input, stored, tables, between, outcome, published);
    let crate_id = published.versions[id].crate_id;
    assert(is_ready_of(published, id, crate_id));
    assert(is_found(published, locale, crate_id, text_at(query, 0)));
    assert(found.contains(crate_id));
    let k = choose|k: int| 0 <= k < found.len() && found[k] == crate_id;
    assert(rows[k].name@ == input.name@);
    if is_latest_of(published, id, input.name@) && latest[k] != id {
        assert(is_ready_of(published, latest[k], crate_id));
        assert(is_crate(published, crate_id, input.name@));
        assert(is_listed(published, latest[k], input.name@));
    }
}

} // verus!
