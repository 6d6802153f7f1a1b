//! What follows from the catalog's definitions: how lookups, lists and
//! removals behave as rows come and go, that ids stay unique, and how a
//! conversation unfolds reply by reply.

use vstd::prelude::*;
use crate::catalog::{
    apply,
    artist_by_id,
    conducted,
    first_where,
    joined,
    permits,
    shown,
    tables_after,
    Tables,
};
use crate::conversation::StepView;
use crate::model::{ArtistView, VinylRowView, VinylView};
use crate::statement::{ReplyView, StatementView};

verus! {

/// The first row that is wanted stays the first when a row is appended.
pub proof fn first_where_push<R>(rows: Seq<R>, wanted: spec_fn(R) -> bool, row: R)
    ensures
        first_where(rows.push(row), wanted) == match first_where(rows, wanted) {
            Some(found) => Some(found),
            None => if wanted(row) {
                Some(row)
            } else {
                None
            },
        },
{
    assert(rows.push(row).drop_last() =~= rows);
}

/// Looking at one more row: the row found so far stays, and where none was
/// found the new row is found if it is wanted.
pub proof fn first_where_grows<R>(rows: Seq<R>, wanted: spec_fn(R) -> bool, n: int)
    requires
        0 <= n < rows.len(),
    ensures
        first_where(rows.take(n + 1), wanted) == match first_where(rows.take(n), wanted) {
            Some(row) => Some(row),
            None => if wanted(rows[n]) {
                Some(rows[n])
            } else {
                None
            },
        },
        rows.take(rows.len() as int) == rows,
{
    assert(rows.take(n + 1).drop_last() =~= rows.take(n));
    assert(rows.take(rows.len() as int) =~= rows);
}

/// Once a row is found among the first `n`, it is the row found among all.
pub proof fn first_where_settles<R>(rows: Seq<R>, wanted: spec_fn(R) -> bool, n: int)
    requires
        0 <= n <= rows.len(),
        first_where(rows.take(n), wanted) is Some,
    ensures
        first_where(rows, wanted) == first_where(rows.take(n), wanted),
    decreases rows.len() - n,
{
    if n == rows.len() {
        assert(rows.take(n) =~= rows);
    } else {
        assert(rows.drop_last().take(n) =~= rows.take(n));
        first_where_settles(rows.drop_last(), wanted, n);
    }
}

/// What a lookup says. The row that it finds is wanted and is one of the
/// rows; where it finds none, no row is wanted.
pub proof fn first_where_is_among<R>(rows: Seq<R>, wanted: spec_fn(R) -> bool)
    ensures
        match first_where(rows, wanted) {
            Some(found) => wanted(found) && exists|i: int|
                0 <= i < rows.len() && #[trigger] rows[i] == found,
            None => forall|i: int| 0 <= i < rows.len() ==> !wanted(#[trigger] rows[i]),
        },
    decreases rows.len(),
{
    if rows.len() > 0 {
        let earlier = rows.drop_last();
        first_where_is_among(earlier, wanted);
        match first_where(earlier, wanted) {
            Some(found) => {
                let i = choose|i: int| 0 <= i < earlier.len() && #[trigger] earlier[i] == found;
                assert(rows[i] == found);
            },
            None => {
                if wanted(rows.last()) {
                    assert(rows[rows.len() - 1] == rows.last());
                } else {
                    assert forall|i: int| 0 <= i < rows.len() implies !wanted(
                        #[trigger] rows[i],
                    ) by {
                        if i < rows.len() - 1 {
                            assert(earlier[i] == rows[i]);
                        }
                    }
                }
            },
        }
    }
}

/// Where one row alone is wanted, that row is the one found.
pub proof fn first_where_finds_the_only<R>(rows: Seq<R>, wanted: spec_fn(R) -> bool, k: int)
    requires
        0 <= k < rows.len(),
        wanted(rows[k]),
        forall|j: int| 0 <= j < rows.len() && j != k ==> !wanted(#[trigger] rows[j]),
    ensures
        first_where(rows, wanted) == Some(rows[k]),
    decreases rows.len(),
{
    let earlier = rows.drop_last();
    assert forall|j: int| 0 <= j < earlier.len() && j != k implies !wanted(
        #[trigger] earlier[j],
    ) by {
        assert(earlier[j] == rows[j]);
    }
    if k == rows.len() - 1 {
        first_where_is_among(earlier, wanted);
    } else {
        assert(earlier[k] == rows[k]);
        first_where_finds_the_only(earlier, wanted, k);
    }
}

/// A lookup by id finds a row if and only if a row has the id, and the row
/// that it finds has the id.
pub proof fn lookups_by_id(tables: Tables, id: u32)
    ensures
        artist_by_id(tables.artists, id) is None <==> tables.artist_id_is_free(id),
        artist_by_id(tables.artists, id) is Some ==> artist_by_id(tables.artists, id)->Some_0.id
            == id,
        tables.vinyl_row(id) is None <==> tables.vinyl_id_is_free(id),
        tables.vinyl_row(id) is Some ==> tables.vinyl_row(id)->Some_0.id == id,
{
    first_where_is_among(tables.artists, |artist: ArtistView| artist.id == id);
    first_where_is_among(tables.vinyls, |row: VinylRowView| row.id == id);
}

/// Where ids are unique, the row that a lookup by id finds is the one row
/// that has the id.
pub proof fn lookup_finds_the_row(tables: Tables, id: u32, k: int)
    requires
        tables.ids_are_unique(),
        0 <= k < tables.vinyls.len(),
        tables.vinyls[k].id == id,
    ensures
        tables.vinyl_row(id) == Some(tables.vinyls[k]),
{
    first_where_finds_the_only(tables.vinyls, |row: VinylRowView| row.id == id, k);
}

/// Removing rows by an id that no row has removes nothing.
pub proof fn filter_keeps_all<R>(rows: Seq<R>, kept: spec_fn(R) -> bool)
    requires
        forall|i: int| 0 <= i < rows.len() ==> kept(#[trigger] rows[i]),
    ensures
        rows.filter(kept) == rows,
    decreases rows.len(),
{
    reveal(Seq::filter);
    if rows.len() > 0 {
        filter_keeps_all(rows.drop_last(), kept);
        assert(rows.drop_last().push(rows.last()) =~= rows);
    }
}

/// Every row that stays after a removal is one of the rows that were
/// there.
pub proof fn filtered_rows_are_among<R>(rows: Seq<R>, kept: spec_fn(R) -> bool)
    ensures
        forall|k: int|
            0 <= k < rows.filter(kept).len() ==> exists|m: int|
                0 <= m < rows.len() && rows[m] == #[trigger] rows.filter(kept)[k],
    decreases rows.len(),
{
    reveal(Seq::filter);
    if rows.len() > 0 {
        let earlier = rows.drop_last();
        let stayed = earlier.filter(kept);
        filtered_rows_are_among(earlier, kept);
        let all = rows.filter(kept);
        assert forall|k: int| 0 <= k < all.len() implies exists|m: int|
            0 <= m < rows.len() && rows[m] == #[trigger] all[k] by {
            if k < stayed.len() {
                assert(all[k] == stayed[k]);
                let m = choose|m: int| 0 <= m < earlier.len() && earlier[m] == stayed[k];
                assert(rows[m] == all[k]);
            } else {
                assert(rows[rows.len() - 1] == all[k]);
            }
        }
    }
}

/// Removing rows leaves the ids of the rows that stay apart from one
/// another.
pub proof fn filter_keeps_ids_apart<R>(
    rows: Seq<R>,
    kept: spec_fn(R) -> bool,
    id_of: spec_fn(R) -> u32,
)
    requires
        forall|i: int, j: int| 0 <= i < j < rows.len() ==> id_of(rows[i]) != id_of(rows[j]),
    ensures
        forall|i: int, j: int|
            0 <= i < j < rows.filter(kept).len() ==> id_of(rows.filter(kept)[i]) != id_of(
                rows.filter(kept)[j],
            ),
    decreases rows.len(),
{
    reveal(Seq::filter);
    if rows.len() > 0 {
        let earlier = rows.drop_last();
        let stayed = earlier.filter(kept);
        assert forall|i: int, j: int| 0 <= i < j < earlier.len() implies id_of(earlier[i])
            != id_of(earlier[j]) by {
            assert(earlier[i] == rows[i] && earlier[j] == rows[j]);
        }
        filter_keeps_ids_apart(earlier, kept, id_of);
        filtered_rows_are_among(earlier, kept);
        let all = rows.filter(kept);
        assert forall|i: int, j: int| 0 <= i < j < all.len() implies id_of(all[i]) != id_of(
            all[j],
        ) by {
            assert(all[i] == stayed[i]);
            if j < stayed.len() {
                assert(all[j] == stayed[j]);
            } else {
                let m = choose|m: int| 0 <= m < earlier.len() && earlier[m] == stayed[i];
                assert(rows[m] == all[i]);
                assert(rows[rows.len() - 1] == all[j]);
            }
        }
    }
}

/// What a reader sees once a vinyl has been appended to the table.
pub proof fn joined_push(artists: Seq<ArtistView>, vinyls: Seq<VinylRowView>, row: VinylRowView)
    ensures
        joined(artists, vinyls.push(row)) == match artist_by_id(artists, row.artist_id) {
            Some(artist) => joined(artists, vinyls).push(shown(row, artist.name)),
            None => joined(artists, vinyls),
        },
{
    assert(vinyls.push(row).drop_last() =~= vinyls);
}

/// What the list shows of a vinyl row, where the ids of the rows are
/// unique: the row beside the name of its artist, or nothing where the
/// artist is gone.
pub open spec fn shown_of(artists: Seq<ArtistView>, row: VinylRowView) -> Option<VinylView> {
    match artist_by_id(artists, row.artist_id) {
        Some(artist) => Some(shown(row, artist.name)),
        None => None,
    }
}

/// Where the ids of the vinyls are unique, looking a vinyl up by its id
/// finds what the list shows of the one row with that id, and finds nothing
/// where no row has the id.
pub proof fn vinyl_by_id_finds_its_row(artists: Seq<ArtistView>, vinyls: Seq<VinylRowView>, id: u32)
    requires
        forall|i: int, j: int| 0 <= i < j < vinyls.len() ==> vinyls[i].id != vinyls[j].id,
    ensures
        forall|k: int|
            0 <= k < vinyls.len() && (#[trigger] vinyls[k]).id == id ==> first_where(
                joined(artists, vinyls),
                |vinyl: VinylView| vinyl.id == id,
            ) == shown_of(artists, vinyls[k]),
        (forall|k: int| 0 <= k < vinyls.len() ==> (#[trigger] vinyls[k]).id != id) ==> first_where(
            joined(artists, vinyls),
            |vinyl: VinylView| vinyl.id == id,
        ) is None,
    decreases vinyls.len(),
{
    let wanted = |vinyl: VinylView| vinyl.id == id;
    if vinyls.len() > 0 {
        let earlier = vinyls.drop_last();
        let last = vinyls.last();
        assert forall|i: int, j: int| 0 <= i < j < earlier.len() implies earlier[i].id
            != earlier[j].id by {
            assert(earlier[i] == vinyls[i] && earlier[j] == vinyls[j]);
        }
        vinyl_by_id_finds_its_row(artists, earlier, id);
        match artist_by_id(artists, last.artist_id) {
            Some(artist) => {
                first_where_push(joined(artists, earlier), wanted, shown(last, artist.name));
            },
            None => {},
        }
        assert forall|k: int| 0 <= k < vinyls.len() && (#[trigger] vinyls[k]).id == id implies
            first_where(joined(artists, vinyls), wanted) == shown_of(artists, vinyls[k]) by {
            if k < vinyls.len() - 1 {
                assert(earlier[k] == vinyls[k]);
                assert(vinyls[vinyls.len() - 1].id != id);
            } else {
                assert forall|m: int| 0 <= m < earlier.len() implies (#[trigger] earlier[m]).id
                    != id by {
                    assert(earlier[m] == vinyls[m]);
                }
            }
        }
        if forall|k: int| 0 <= k < vinyls.len() ==> (#[trigger] vinyls[k]).id != id {
            assert forall|m: int| 0 <= m < earlier.len() implies (#[trigger] earlier[m]).id
                != id by {
                assert(earlier[m] == vinyls[m]);
            }
            assert(vinyls[vinyls.len() - 1].id != id);
        }
    }
}

/// Whatever statement the store answers, and however, ids stay unique: an
/// insertion takes an id that was free, a change keeps every id, and a
/// removal leaves rows that were apart before.
pub proof fn statement_keeps_ids_unique(
    tables: Tables,
    statement: StatementView,
    reply: ReplyView,
)
    requires
        tables.ids_are_unique(),
        permits(tables, statement, reply),
    ensures
        apply(tables, statement, reply).ids_are_unique(),
{
    if !(reply is Failed) {
        match statement {
            StatementView::DeleteArtist { id } => {
                filter_keeps_ids_apart(
                    tables.artists,
                    |artist: ArtistView| artist.id != id,
                    |artist: ArtistView| artist.id,
                );
            },
            StatementView::DeleteVinyl { id } => {
                filter_keeps_ids_apart(
                    tables.vinyls,
                    |row: VinylRowView| row.id != id,
                    |row: VinylRowView| row.id,
                );
            },
            _ => {},
        }
    }
}

/// A conversation of no replies leaves the tables as they were.
pub proof fn conversation_begins<V>(
    plan: spec_fn(Seq<ReplyView>) -> StepView<V>,
    start: Tables,
    replies: Seq<ReplyView>,
)
    ensures
        tables_after(plan, start, replies.take(0)) == start,
        replies.take(replies.len() as int) == replies,
{
    assert(replies.take(0).len() == 0);
    assert(replies.take(replies.len() as int) =~= replies);
}

/// Every reply of a conversation answers a statement that the handler
/// named, is one that the store was permitted, and leaves the tables that
/// applying it gives.
pub proof fn conversation_unfolds<V>(
    plan: spec_fn(Seq<ReplyView>) -> StepView<V>,
    start: Tables,
    replies: Seq<ReplyView>,
    n: int,
)
    requires
        conducted(plan, start, replies),
        0 <= n < replies.len(),
    ensures
        plan(replies.take(n)) is Run,
        permits(
            tables_after(plan, start, replies.take(n)),
            plan(replies.take(n))->Run_0,
            replies[n],
        ),
        tables_after(plan, start, replies.take(n + 1)) == apply(
            tables_after(plan, start, replies.take(n)),
            plan(replies.take(n))->Run_0,
            replies[n],
        ),
    decreases replies.len(),
{
    if n == replies.len() - 1 {
        assert(replies.take(n) =~= replies.drop_last());
        assert(replies.take(n + 1) =~= replies);
    } else {
        conversation_unfolds(plan, start, replies.drop_last(), n);
        assert(replies.drop_last().take(n) =~= replies.take(n));
        assert(replies.drop_last().take(n + 1) =~= replies.take(n + 1));
    }
}

/// What [`conversation_unfolds`] says of reply `n`, where there is one.
pub open spec fn unfolds_at<V>(
    plan: spec_fn(Seq<ReplyView>) -> StepView<V>,
    start: Tables,
    replies: Seq<ReplyView>,
    n: int,
) -> bool {
    n < replies.len() ==> {
        &&& plan(replies.take(n)) is Run
        &&& permits(
            tables_after(plan, start, replies.take(n)),
            plan(replies.take(n))->Run_0,
            replies[n],
        )
        &&& tables_after(plan, start, replies.take(n + 1)) == apply(
            tables_after(plan, start, replies.take(n)),
            plan(replies.take(n))->Run_0,
            replies[n],
        )
        &&& replies.take(n + 1)[n] == replies[n]
        &&& replies.take(n + 1).take(n) == replies.take(n)
    }
}

/// The first four replies of a conversation, unfolded.
pub proof fn opening<V>(
    plan: spec_fn(Seq<ReplyView>) -> StepView<V>,
    start: Tables,
    replies: Seq<ReplyView>,
)
    requires
        conducted(plan, start, replies),
    ensures
        tables_after(plan, start, replies.take(0)) == start,
        replies.take(0).len() == 0,
        replies.take(replies.len() as int) == replies,
        unfolds_at(plan, start, replies, 0),
        unfolds_at(plan, start, replies, 1),
        unfolds_at(plan, start, replies, 2),
        unfolds_at(plan, start, replies, 3),
{
    conversation_begins(plan, start, replies);
    if replies.len() > 0 {
        conversation_unfolds(plan, start, replies, 0);
        assert(replies.take(1).take(0) =~= replies.take(0));
    }
    if replies.len() > 1 {
        conversation_unfolds(plan, start, replies, 1);
        assert(replies.take(2).take(1) =~= replies.take(1));
    }
    if replies.len() > 2 {
        conversation_unfolds(plan, start, replies, 2);
        assert(replies.take(3).take(2) =~= replies.take(2));
    }
    if replies.len() > 3 {
        conversation_unfolds(plan, start, replies, 3);
        assert(replies.take(4).take(3) =~= replies.take(3));
    }
}

/// No request brings two rows under one id: where ids were unique when a
/// conversation began, they are unique after every reply of it.
pub proof fn ids_stay_unique<V>(
    plan: spec_fn(Seq<ReplyView>) -> StepView<V>,
    start: Tables,
    replies: Seq<ReplyView>,
)
    requires
        start.ids_are_unique(),
        conducted(plan, start, replies),
    ensures
        tables_after(plan, start, replies).ids_are_unique(),
    decreases replies.len(),
{
    if replies.len() > 0 {
        ids_stay_unique(plan, start, replies.drop_last());
        statement_keeps_ids_unique(
            tables_after(plan, start, replies.drop_last()),
            plan(replies.drop_last())->Run_0,
            replies.last(),
        );
    }
}

} // verus!
