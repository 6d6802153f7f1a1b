//! What the handlers take the store to be: two tables, and for each
//! statement the replies that the store may give and the tables that it
//! leaves behind. A request is a conversation over these tables.
//!
//! Removing an artist leaves the artist's vinyls in their table. A list
//! shows each vinyl beside the name of its artist, so it passes over a
//! vinyl whose artist is gone. The row itself stays: it is found by its
//! id, it can be changed and removed, and it is listed again once a change
//! has given it an artist that exists.

use vstd::prelude::*;
use crate::conversation::StepView;
use crate::model::{ArtistView, VinylRowView, VinylView};
use crate::statement::{ReplyView, StatementView};

verus! {

/// The two tables, each in the store's order.
pub struct Tables {
    pub artists: Seq<ArtistView>,
    pub vinyls: Seq<VinylRowView>,
}

/// The first of `rows` that is `wanted`.
pub open spec fn first_where<R>(rows: Seq<R>, wanted: spec_fn(R) -> bool) -> Option<R>
    decreases rows.len(),
{
    if rows.len() == 0 {
        None
    } else {
        match first_where(rows.drop_last(), wanted) {
            Some(row) => Some(row),
            None => if wanted(rows.last()) {
                Some(rows.last())
            } else {
                None
            },
        }
    }
}

/// The artist with this id.
pub open spec fn artist_by_id(artists: Seq<ArtistView>, id: u32) -> Option<ArtistView> {
    first_where(artists, |artist: ArtistView| artist.id == id)
}

/// The first artist of this name.
pub open spec fn artist_by_name(artists: Seq<ArtistView>, name: Seq<char>) -> Option<ArtistView> {
    first_where(artists, |artist: ArtistView| artist.name == name)
}

/// A row of vinyls as a reader sees it, beside the name of its artist.
pub open spec fn shown(row: VinylRowView, artist_name: Seq<char>) -> VinylView {
    VinylView {
        id: row.id,
        name: row.name,
        artist_id: row.artist_id,
        artist_name,
        added_date: row.added_date,
        cover_file_name: row.cover_file_name,
    }
}

/// The vinyls whose artist exists, each with the artist's name, in the order
/// of the table of vinyls. A vinyl whose artist is gone is not among them.
pub open spec fn joined(artists: Seq<ArtistView>, vinyls: Seq<VinylRowView>) -> Seq<VinylView>
    decreases vinyls.len(),
{
    if vinyls.len() == 0 {
        Seq::empty()
    } else {
        let earlier = joined(artists, vinyls.drop_last());
        match artist_by_id(artists, vinyls.last().artist_id) {
            Some(artist) => earlier.push(shown(vinyls.last(), artist.name)),
            None => earlier,
        }
    }
}

impl Tables {
    /// No two artists share an id, and no two vinyls do.
    pub open spec fn ids_are_unique(self) -> bool {
        &&& forall|i: int, j: int|
            0 <= i < j < self.artists.len() ==> self.artists[i].id != self.artists[j].id
        &&& forall|i: int, j: int|
            0 <= i < j < self.vinyls.len() ==> self.vinyls[i].id != self.vinyls[j].id
    }

    /// What a reader of the vinyls sees.
    pub open spec fn listed(self) -> Seq<VinylView> {
        joined(self.artists, self.vinyls)
    }

    /// The first listed vinyl of this name.
    pub open spec fn vinyl_by_name(self, name: Seq<char>) -> Option<VinylView> {
        first_where(self.listed(), |vinyl: VinylView| vinyl.name == name)
    }

    /// The listed vinyl with this id.
    pub open spec fn vinyl_by_id(self, id: u32) -> Option<VinylView> {
        first_where(self.listed(), |vinyl: VinylView| vinyl.id == id)
    }

    /// The row of the table of vinyls with this id, whether or not its
    /// artist exists.
    pub open spec fn vinyl_row(self, id: u32) -> Option<VinylRowView> {
        first_where(self.vinyls, |row: VinylRowView| row.id == id)
    }

    /// The listed vinyls of one artist.
    pub open spec fn vinyls_of(self, artist_id: u32) -> Seq<VinylView> {
        self.listed().filter(|vinyl: VinylView| vinyl.artist_id == artist_id)
    }

    /// Whether no artist has this id yet.
    pub open spec fn artist_id_is_free(self, id: u32) -> bool {
        forall|i: int| 0 <= i < self.artists.len() ==> (#[trigger] self.artists[i]).id != id
    }

    /// Whether no vinyl has this id yet, listed or not.
    pub open spec fn vinyl_id_is_free(self, id: u32) -> bool {
        forall|i: int| 0 <= i < self.vinyls.len() ==> (#[trigger] self.vinyls[i]).id != id
    }
}

/// Whether `rows` is a draw of `count` from `pool`: as many rows as were
/// asked for, or all where the pool holds fewer, each from a place of its
/// own in the pool.
pub open spec fn is_sample(rows: Seq<VinylView>, pool: Seq<VinylView>, count: u32) -> bool {
    &&& rows.len() == if count <= pool.len() {
        count as int
    } else {
        pool.len() as int
    }
    &&& exists|places: Seq<int>| drawn_from(rows, pool, places)
}

/// Whether `places` says where in `pool` each of `rows` was drawn, no place
/// twice.
pub open spec fn drawn_from(rows: Seq<VinylView>, pool: Seq<VinylView>, places: Seq<int>) -> bool {
    &&& places.len() == rows.len()
    &&& places.no_duplicates()
    &&& forall|i: int|
        0 <= i < rows.len() ==> 0 <= #[trigger] places[i] < pool.len() && rows[i] == pool[places[i]]
}

/// Whether the store, holding `tables`, may answer `statement` with `reply`.
/// It may always fail. Where it does not, a question has one answer, but
/// for a draw; an insertion reports an id that no row of the table has; a
/// change or a removal is carried out whether or not it meets a row.
pub open spec fn permits(tables: Tables, statement: StatementView, reply: ReplyView) -> bool {
    reply is Failed || match statement {
        StatementView::ListArtists => reply == ReplyView::Artists(tables.artists),
        StatementView::FindArtistByName { name } => reply == ReplyView::Artist(
            artist_by_name(tables.artists, name),
        ),
        StatementView::FindArtistById { id } => reply == ReplyView::Artist(
            artist_by_id(tables.artists, id),
        ),
        StatementView::InsertArtist { .. } => reply is Inserted && tables.artist_id_is_free(
            reply->Inserted_0,
        ),
        StatementView::RenameArtist { .. } => reply is Completed,
        StatementView::DeleteArtist { .. } => reply is Completed,
        StatementView::ListVinyls => reply == ReplyView::Vinyls(tables.listed()),
        StatementView::ListVinylsOfArtist { artist_id } => reply == ReplyView::Vinyls(
            tables.vinyls_of(artist_id),
        ),
        StatementView::FindVinylByName { name } => reply == ReplyView::Vinyl(
            tables.vinyl_by_name(name),
        ),
        StatementView::FindVinylById { id } => reply == ReplyView::Row(tables.vinyl_row(id)),
        StatementView::InsertVinyl { .. } => reply is Inserted && tables.vinyl_id_is_free(
            reply->Inserted_0,
        ),
        StatementView::UpdateVinyl { .. } => reply is Completed,
        StatementView::DeleteVinyl { .. } => reply is Completed,
        StatementView::SampleVinyls { count } => reply is Vinyls && is_sample(
            reply->Vinyls_0,
            tables.listed(),
            count,
        ),
    }
}

/// The artist `id` under the name `name`, every other artist as it was.
pub open spec fn renamed(artist: ArtistView, id: u32, name: Seq<char>) -> ArtistView {
    if artist.id == id {
        ArtistView { id, name }
    } else {
        artist
    }
}

/// The vinyl `id` with a new name, artist and cover, every other vinyl as it
/// was.
pub open spec fn revised(
    row: VinylRowView,
    id: u32,
    name: Seq<char>,
    artist_id: u32,
    cover_file_name: Seq<char>,
) -> VinylRowView {
    if row.id == id {
        VinylRowView { id, name, artist_id, added_date: row.added_date, cover_file_name }
    } else {
        row
    }
}

/// The tables that the store holds after it has answered `statement` with
/// `reply`, where it held `tables` before.
pub open spec fn apply(tables: Tables, statement: StatementView, reply: ReplyView) -> Tables {
    if reply is Failed {
        tables
    } else {
        match statement {
            StatementView::InsertArtist { name } => match reply {
                ReplyView::Inserted(id) => Tables {
                    artists: tables.artists.push(ArtistView { id, name }),
                    ..tables
                },
                _ => tables,
            },
            StatementView::RenameArtist { id, name } => Tables {
                artists: tables.artists.map_values(|artist: ArtistView| renamed(artist, id, name)),
                ..tables
            },
            StatementView::DeleteArtist { id } => Tables {
                artists: tables.artists.filter(|artist: ArtistView| artist.id != id),
                ..tables
            },
            StatementView::InsertVinyl {
                name,
                artist_id,
                added_date,
                cover_file_name,
            } => match reply {
                ReplyView::Inserted(id) => Tables {
                    vinyls: tables.vinyls.push(
                        VinylRowView { id, name, artist_id, added_date, cover_file_name },
                    ),
                    ..tables
                },
                _ => tables,
            },
            StatementView::UpdateVinyl { id, name, artist_id, cover_file_name } => Tables {
                vinyls: tables.vinyls.map_values(
                    |row: VinylRowView| revised(row, id, name, artist_id, cover_file_name),
                ),
                ..tables
            },
            StatementView::DeleteVinyl { id } => Tables {
                vinyls: tables.vinyls.filter(|row: VinylRowView| row.id != id),
                ..tables
            },
            _ => tables,
        }
    }
}

/// The tables after a conversation that began on `start`: each reply
/// applied to the statement that the handler had named before it.
pub open spec fn tables_after<V>(
    plan: spec_fn(Seq<ReplyView>) -> StepView<V>,
    start: Tables,
    replies: Seq<ReplyView>,
) -> Tables
    decreases replies.len(),
{
    if replies.len() == 0 {
        start
    } else {
        let before = tables_after(plan, start, replies.drop_last());
        match plan(replies.drop_last()) {
            StepView::Run(statement) => apply(before, statement, replies.last()),
            StepView::Done(_) => before,
        }
    }
}

/// Whether `replies` is a conversation that `plan` can have had with a store
/// that held `start`: before each reply the handler named a statement, and
/// the store was permitted that reply to it.
pub open spec fn conducted<V>(
    plan: spec_fn(Seq<ReplyView>) -> StepView<V>,
    start: Tables,
    replies: Seq<ReplyView>,
) -> bool
    decreases replies.len(),
{
    replies.len() == 0 || {
        &&& conducted(plan, start, replies.drop_last())
        &&& match plan(replies.drop_last()) {
            StepView::Run(statement) => permits(
                tables_after(plan, start, replies.drop_last()),
                statement,
                replies.last(),
            ),
            StepView::Done(_) => false,
        }
    }
}

/// Whether the request that `plan` handles ran from `start` through
/// `replies` and ended there, with `outcome`.
pub open spec fn finished<V>(
    plan: spec_fn(Seq<ReplyView>) -> StepView<V>,
    start: Tables,
    replies: Seq<ReplyView>,
    outcome: Result<V, crate::error::ApiError>,
) -> bool {
    conducted(plan, start, replies) && plan(replies) == StepView::Done(outcome)
}

/// Whether a conversation asked the store for no change.
pub open spec fn only_read<V>(plan: spec_fn(Seq<ReplyView>) -> StepView<V>, replies: Seq<ReplyView>)
    -> bool {
    forall|n: int|
        0 <= n < replies.len() ==> match #[trigger] plan(replies.take(n)) {
            StepView::Run(statement) => crate::statement::reads_only(statement),
            StepView::Done(_) => true,
        }
}

} // verus!
