//! What the index shows of what the tables hold.

use crate::publish_flow::{PublishFinalizeInput, PublishStartInput};
use crate::registry::IndexVersionRow;
use crate::repo::{RepoOutcome, RepoTask};
use vstd::prelude::*;
use vstd::string::*;

verus! {

use crate::json::document;
use crate::registry::is_shown;
use crate::repo::Work;
use crate::statements::{index_query, Query, SELECT_INDEX};
use crate::tables::{
    at_rest, comes_to, is_crate, is_ready, is_valid, law_finalize_makes_the_version_ready,
    law_reserve_adds_the_version, reserves, text_at, with_finalized, with_mark, Tables, VersionRow,
};

/// The number is that of a ready version of the crate.
pub open spec fn is_listed(tables: Tables, id: int, crate_name: Seq<char>) -> bool {
    is_ready(tables, id, crate_name, tables.versions[id].version)
}

/// The one time comes before the other or is the same; an unknown time comes
/// last.
pub open spec fn not_after(a: Option<int>, b: Option<int>) -> bool {
    match (a, b) {
        (_, None) => true,
        (None, Some(_)) => false,
        (Some(a), Some(b)) => a <= b,
    }
}

/// The row shows the entry and the mark of the version.
pub open spec fn shows_version(row: IndexVersionRow, version: VersionRow) -> bool {
    document(row.index_entry) == version.index_entry && row.yanked == version.yanked
}

/// Listing the versions of a crate: the numbers are those of its ready versions,
/// each once, in the order in which they were published, and each row shows the
/// version in its place. In which order versions come that were published at the
/// same time is open.
pub open spec fn lists_versions(
    tables: Tables,
    query: Query,
    ids: Seq<int>,
    rows: Seq<IndexVersionRow>,
) -> bool {
    &&& query.sql == SELECT_INDEX@
    &&& ids.no_duplicates()
    &&& forall|id: int| #[trigger] ids.contains(id) <==> is_listed(tables, id, text_at(query, 0))
    &&& forall|i: int, j: int|
        #![trigger ids[i], ids[j]]
        0 <= i < j < ids.len() ==> not_after(
            tables.versions[ids[i]].published_at,
            tables.versions[ids[j]].published_at,
        )
    &&& rows.len() == ids.len()
    &&& forall|k: int|
        0 <= k < rows.len() ==> shows_version(#[trigger] rows[k], tables.versions[ids[k]])
}

/// The index of a crate has a row for every ready version of it, which shows
/// that version's entry and mark, and no other row: a version that is being
/// published, or has failed, is not listed. It has no row exactly where the crate
/// has no ready version. Every row can be shown.
pub proof fn law_index_lists_ready_versions(
    tables: Tables,
    crate_name: Seq<char>,
    ids: Seq<int>,
    rows: Seq<IndexVersionRow>,
)
    requires
        is_valid(tables),
        lists_versions(tables, index_query(crate_name), ids, rows),
    ensures
        forall|id: int| #[trigger]
            is_listed(tables, id, crate_name) ==> exists|k: int|
                0 <= k < rows.len() && ids[k] == id && shows_version(
                    #[trigger] rows[k],
                    tables.versions[id],
                ),
        forall|k: int|
            #![trigger ids[k]]
            #![trigger rows[k]]
            0 <= k < rows.len() ==> is_listed(tables, ids[k], crate_name) && is_shown(rows[k]),
        rows.len() == 0 <==> !exists|id: int| is_listed(tables, id, crate_name),
{
    assert forall|id: int| #[trigger] is_listed(tables, id, crate_name) implies exists|k: int|
        0 <= k < rows.len() && ids[k] == id && shows_version(
            #[trigger] rows[k],
            tables.versions[id],
        ) by {
        assert(ids.contains(id));
        let k = choose|k: int| 0 <= k < ids.len() && ids[k] == id;
        assert(shows_version(rows[k], tables.versions[id]));
    }
    assert forall|k: int|
        #![trigger ids[k]]
        #![trigger rows[k]]
        0 <= k < rows.len() implies is_listed(tables, ids[k], crate_name) && is_shown(rows[k]) by {
        assert(ids.contains(ids[k]));
        assert(shows_version(rows[k], tables.versions[ids[k]]));
    }
    if rows.len() > 0 {
        assert(is_listed(tables, ids[0], crate_name));
    }
}

/// The version was published after all other ready versions of the crate.
pub open spec fn is_latest_of(tables: Tables, id: int, crate_name: Seq<char>) -> bool {
    forall|other: int| #[trigger]
        is_listed(tables, other, crate_name) && other != id ==> !not_after(
            tables.versions[id].published_at,
            tables.versions[other].published_at,
        )
}

/// Reserving a version and making it ready adds that version to those that are
/// listed of its crate, and changes none of the others.
pub proof fn lemma_publishing(
    input: PublishStartInput,
    stored: PublishFinalizeInput,
    tables: Tables,
    between: Tables,
    outcome: RepoOutcome,
    published: Tables,
)
    requires
        is_valid(tables),
        comes_to(
            RepoTask::OpenReserve(input),
            Work::Begin,
            at_rest(tables),
            RepoOutcome::Reserved(Some(stored.version_id)),
            at_rest(between),
        ),
        comes_to(
            RepoTask::OpenFinalize(stored),
            Work::Begin,
            at_rest(between),
            outcome,
            at_rest(published),
        ),
    ensures
        ({
            let id = stored.version_id as int;
            &&& !tables.versions.dom().contains(id)
            &&& is_ready(published, id, input.name@, input.version@)
            &&& published.versions[id].index_entry == document(input.index_entry)
            &&& published.versions[id].metadata == document(input.metadata)
            &&& !published.versions[id].yanked
            &&& forall|other: int|
                other != id ==> {
                    &&& tables.versions.dom().contains(other)
                        <==> published.versions.dom().contains(other)
                    &&& #[trigger] published.versions[other] == tables.versions[other]
                }
            &&& forall|other: int, name: Seq<char>|
                other != id ==> (#[trigger] is_listed(published, other, name) <==> is_listed(
                    tables,
                    other,
                    name,
                ))
        }),
{
    let id = stored.version_id as int;
    law_reserve_adds_the_version(
        input,
        tables,
        RepoOutcome::Reserved(Some(stored.version_id)),
        at_rest(between),
    );
    law_finalize_makes_the_version_ready(stored, between, outcome, at_rest(published));
    let crate_id = choose|crate_id: int| #[trigger] reserves(tables, input, crate_id, id, between);
    let time = choose|time: int| at_rest(published) == at_rest(
        #[trigger] with_finalized(between, stored, time),
    );
    assert(is_crate(published, crate_id, input.name@));
}

/// A version that was published is listed in the index of its crate, with the
/// entry that it was published with and not yanked. The versions that were
/// listed before are still listed, with the same entries and marks, and no other
/// joins them. Where it was published after all of them, it comes last.
pub proof fn law_published_versions_are_listed(
    input: PublishStartInput,
    stored: PublishFinalizeInput,
    tables: Tables,
    between: Tables,
    outcome: RepoOutcome,
    published: Tables,
    ids: Seq<int>,
    rows: Seq<IndexVersionRow>,
)
    requires
        is_valid(tables),
        comes_to(
            RepoTask::OpenReserve(input),
            Work::Begin,
            at_rest(tables),
            RepoOutcome::Reserved(Some(stored.version_id)),
            at_rest(between),
        ),
        comes_to(
            RepoTask::OpenFinalize(stored),
            Work::Begin,
            at_rest(between),
            outcome,
            at_rest(published),
        ),
        lists_versions(published, index_query(input.name@), ids, rows),
    ensures
        exists|k: int|
            0 <= k < rows.len() && ids[k] == stored.version_id && document(
                (#[trigger] rows[k]).index_entry,
            ) == document(input.index_entry) && !rows[k].yanked,
        forall|k: int|
            #![trigger ids[k]]
            #![trigger rows[k]]
            0 <= k < rows.len() && ids[k] != stored.version_id ==> is_listed(
                tables,
                ids[k],
                input.name@,
            ) && shows_version(rows[k], tables.versions[ids[k]]),
        forall|other: int| #[trigger] is_listed(tables, other, input.name@) ==> ids.contains(other),
        is_latest_of(published, stored.version_id as int, input.name@) ==> ids.last()
            == stored.version_id,
{
    let id = stored.version_id as int;
    lemma_publishing(input, stored, tables, between, outcome, published);
    assert(is_listed(published, id, input.name@));
    assert(ids.contains(id));
    let k = choose|k: int| 0 <= k < ids.len() && ids[k] == id;
    assert(shows_version(rows[k], published.versions[id]));
    assert forall|k: int|
        #![trigger ids[k]]
        #![trigger rows[k]]
        0 <= k < rows.len() && ids[k] != id implies is_listed(tables, ids[k], input.name@)
        && shows_version(rows[k], tables.versions[ids[k]]) by {
        assert(ids.contains(ids[k]));
        assert(is_listed(published, ids[k], input.name@));
        assert(published.versions[ids[k]] == tables.versions[ids[k]]);
    }
    assert forall|other: int| #[trigger] is_listed(tables, other, input.name@) implies ids.contains(
        other,
    ) by {
        assert(is_listed(published, other, input.name@));
    }
    if is_latest_of(published, id, input.name@) && ids.last() != id {
        let last = ids.last();
        assert(ids.contains(last)) by {
            assert(ids[ids.len() - 1] == last);
        }
        assert(is_listed(published, last, input.name@));
        assert(k < ids.len() - 1);
        assert(not_after(
            published.versions[ids[k]].published_at,
            published.versions[ids[ids.len() - 1]].published_at,
        ));
    }
}

/// Yanking a version, or taking that back, shows in the row of that version and
/// in no other, and lists the versions that were listed before.
pub proof fn law_index_shows_the_mark(
    tables: Tables,
    crate_name: Seq<char>,
    version: Seq<char>,
    yanked: bool,
    ids: Seq<int>,
    rows: Seq<IndexVersionRow>,
)
    requires
        lists_versions(
            with_mark(tables, crate_name, version, yanked),
            index_query(crate_name),
            ids,
            rows,
        ),
    ensures
        forall|id: int| #[trigger] ids.contains(id) <==> is_listed(tables, id, crate_name),
        forall|k: int|
            0 <= k < rows.len() ==> shows_version(
                #[trigger] rows[k],
                VersionRow {
                    yanked: if tables.versions[ids[k]].version == version {
                        yanked
                    } else {
                        tables.versions[ids[k]].yanked
                    },
                    ..tables.versions[ids[k]]
                },
            ),
{
    let marked = with_mark(tables, crate_name, version, yanked);
    assert forall|id: int| #[trigger] ids.contains(id) <==> is_listed(tables, id, crate_name) by {
        assert(is_listed(marked, id, crate_name) <==> is_listed(tables, id, crate_name));
    }
    assert forall|k: int| 0 <= k < rows.len() implies shows_version(
        #[trigger] rows[k],
        VersionRow {
            yanked: if tables.versions[ids[k]].version == version {
                yanked
            } else {
                tables.versions[ids[k]].yanked
            },
            ..tables.versions[ids[k]]
        },
    ) by {
        assert(ids.contains(ids[k]));
        assert(is_listed(tables, ids[k], crate_name));
    }
}

} // verus!
