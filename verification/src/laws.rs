//! What holds of every request, whatever the store held when it began and
//! whichever of the permitted replies the store gave.

use vstd::prelude::*;
use crate::artists::{
    add_artist_plan,
    delete_artist_plan,
    list_all_artists_plan,
    list_vinyls_for_artist_plan,
    update_artist_plan,
};
use crate::catalog::{
    artist_by_id,
    artist_by_name,
    finished,
    is_sample,
    only_read,
    renamed,
    revised,
    shown,
    tables_after,
    Tables,
};
use crate::conversation::StepView;
use crate::error::{ApiError, StorageError};
use crate::lemmas::{
    filter_keeps_all,
    filtered_rows_are_among,
    first_where_finds_the_only,
    first_where_is_among,
    first_where_push,
    joined_push,
    lookup_finds_the_row,
    lookups_by_id,
    opening,
    vinyl_by_id_finds_its_row,
};
use crate::model::{ArtistView, VinylRowView, VinylUserDataView, VinylView};
use crate::statement::ReplyView;
use crate::text::{nothing_but_quotes, without_quotes};
use crate::vinyls::{
    add_vinyl_plan,
    created_vinyl,
    delete_vinyl_plan,
    list_all_vinyls_plan,
    shuffle_vinyls_plan,
    update_vinyl_plan,
    updated_vinyl,
};

verus! {

/// The error of a request that the store let down.
pub open spec fn let_down() -> ApiError {
    ApiError::Storage(StorageError::QueryFailed)
}

/// Whether the store carried out every statement of a conversation.
pub open spec fn answered(replies: Seq<ReplyView>) -> bool {
    forall|n: int| 0 <= n < replies.len() ==> !(#[trigger] replies[n] is Failed)
}

/// The handler that creates an artist called `name`.
pub open spec fn adding_artist(name: Seq<char>) -> spec_fn(Seq<ReplyView>) -> StepView<ArtistView> {
    |replies: Seq<ReplyView>| add_artist_plan(name, replies)
}

/// The handler that renames the artist `id`.
pub open spec fn updating_artist(id: u32, new_name: Seq<char>) -> spec_fn(Seq<ReplyView>)
    -> StepView<ArtistView> {
    |replies: Seq<ReplyView>| update_artist_plan(id, new_name, replies)
}

/// The handler that removes the artist `id`.
pub open spec fn deleting_artist(id: u32) -> spec_fn(Seq<ReplyView>) -> StepView<()> {
    |replies: Seq<ReplyView>| delete_artist_plan(id, replies)
}

/// The handler that lists the artists.
pub open spec fn listing_artists() -> spec_fn(Seq<ReplyView>) -> StepView<Seq<ArtistView>> {
    |replies: Seq<ReplyView>| list_all_artists_plan(replies)
}

/// The handler that lists the vinyls of the artist `id`.
pub open spec fn listing_vinyls_for(id: u32) -> spec_fn(Seq<ReplyView>) -> StepView<
    Seq<VinylView>,
> {
    |replies: Seq<ReplyView>| list_vinyls_for_artist_plan(id, replies)
}

/// The handler that lists the vinyls.
pub open spec fn listing_vinyls() -> spec_fn(Seq<ReplyView>) -> StepView<Seq<VinylView>> {
    |replies: Seq<ReplyView>| list_all_vinyls_plan(replies)
}

/// The handler that creates the vinyl that `data` describes.
pub open spec fn adding_vinyl(data: VinylUserDataView, now: u32) -> spec_fn(Seq<ReplyView>)
    -> StepView<VinylView> {
    |replies: Seq<ReplyView>| add_vinyl_plan(data, now, replies)
}

/// The handler that changes the vinyl `id`.
pub open spec fn updating_vinyl(id: u32, data: VinylUserDataView) -> spec_fn(Seq<ReplyView>)
    -> StepView<VinylView> {
    |replies: Seq<ReplyView>| update_vinyl_plan(id, data, replies)
}

/// The handler that removes the vinyl `id`.
pub open spec fn deleting_vinyl(id: u32) -> spec_fn(Seq<ReplyView>) -> StepView<()> {
    |replies: Seq<ReplyView>| delete_vinyl_plan(id, replies)
}

/// The handler that draws `count` vinyls.
pub open spec fn shuffling_vinyls(count: u32) -> spec_fn(Seq<ReplyView>) -> StepView<
    Seq<VinylView>,
> {
    |replies: Seq<ReplyView>| shuffle_vinyls_plan(count, replies)
}

/// The row that creating a vinyl inserts.
pub open spec fn inserted_row(data: VinylUserDataView, id: u32, now: u32) -> VinylRowView {
    VinylRowView {
        id,
        name: data.name,
        artist_id: data.artist_id,
        added_date: now,
        cover_file_name: data.cover_file_name,
    }
}

/// What creating an artist comes to. A name that holds nothing but double
/// quotes is refused with `InvalidName`, and the store is asked nothing.
/// Otherwise, where an artist of the name exists, the answer is that artist
/// and the tables stay; where none does, the answer is a new artist under
/// an id that was free, and the tables hold it as their last artist. The
/// artist of an answer has a name that is not empty. A request that fails
/// leaves the tables as they were, and fails for no other reason than the
/// name when the store carried out every statement.
pub proof fn add_artist_outcome(
    start: Tables,
    name: Seq<char>,
    replies: Seq<ReplyView>,
    outcome: Result<ArtistView, ApiError>,
)
    requires
        finished(adding_artist(name), start, replies, outcome),
    ensures
        ({
            let after = tables_after(adding_artist(name), start, replies);
            let name = without_quotes(name);
            match outcome {
                Ok(artist) => {
                    &&& artist.name == name
                    &&& artist.name.len() > 0
                    &&& match artist_by_name(start.artists, name) {
                        Some(existing) => artist.id == existing.id && after == start,
                        None => start.artist_id_is_free(artist.id) && after == (Tables {
                            artists: start.artists.push(artist),
                            ..start
                        }),
                    }
                },
                Err(error) => {
                    &&& after == start
                    &&& error == ApiError::InvalidName || error == let_down()
                    &&& error == ApiError::InvalidName <==> name.len() == 0
                    &&& error == ApiError::InvalidName ==> replies.len() == 0
                    &&& error == let_down() ==> !answered(replies)
                },
            }
        }),
{
    opening(adding_artist(name), start, replies);
}

/// Creating an artist twice under one name gives the same artist both
/// times, and the second request adds no row.
pub proof fn add_artist_is_idempotent(
    start: Tables,
    name: Seq<char>,
    first: Seq<ReplyView>,
    created: ArtistView,
    second: Seq<ReplyView>,
    again: ArtistView,
)
    requires
        finished(adding_artist(name), start, first, Ok(created)),
        finished(
            adding_artist(name),
            tables_after(adding_artist(name), start, first),
            second,
            Ok(again),
        ),
    ensures
        again == created,
        tables_after(
            adding_artist(name),
            tables_after(adding_artist(name), start, first),
            second,
        ) == tables_after(adding_artist(name), start, first),
{
    let plan = adding_artist(name);
    let between = tables_after(plan, start, first);
    add_artist_outcome(start, name, first, Ok(created));
    add_artist_outcome(between, name, second, Ok(again));
    let clean = without_quotes(name);
    if artist_by_name(start.artists, clean) is None {
        first_where_push(
            start.artists,
            |artist: ArtistView| artist.name == clean,
            created,
        );
    }
}

/// What creating a vinyl comes to. Where a vinyl of the name is listed, the
/// answer is that vinyl, whatever else the request says, and the tables
/// stay. Where none is, the artist must exist: then the answer is what the
/// request describes, under an id that was free and with `now` as its date,
/// and the tables hold it as their last vinyl. Where the artist does not
/// exist the request fails with `InvalidArtist`. A request that fails leaves
/// the tables as they were, and it fails for no other reason when the store
/// carried out every statement.
pub proof fn add_vinyl_outcome(
    start: Tables,
    data: VinylUserDataView,
    now: u32,
    replies: Seq<ReplyView>,
    outcome: Result<VinylView, ApiError>,
)
    requires
        finished(adding_vinyl(data, now), start, replies, outcome),
    ensures
        ({
            let after = tables_after(adding_vinyl(data, now), start, replies);
            match outcome {
                Ok(vinyl) => match start.vinyl_by_name(data.name) {
                    Some(existing) => vinyl == existing && after == start,
                    None => {
                        &&& artist_by_id(start.artists, data.artist_id) is Some
                        &&& vinyl == created_vinyl(data, vinyl.id, now)
                        &&& start.vinyl_id_is_free(vinyl.id)
                        &&& after == (Tables {
                            vinyls: start.vinyls.push(inserted_row(data, vinyl.id, now)),
                            ..start
                        })
                    },
                },
                Err(error) => {
                    &&& after == start
                    &&& error == let_down() || error == ApiError::InvalidArtist
                    &&& error == ApiError::InvalidArtist ==> start.vinyl_by_name(data.name) is None
                        && artist_by_id(start.artists, data.artist_id) is None
                    &&& answered(replies) ==> error == ApiError::InvalidArtist
                },
            }
        }),
{
    opening(adding_vinyl(data, now), start, replies);
}

/// Creating a vinyl that refers to no artist fails with `InvalidArtist`,
/// unless a vinyl of the name is listed already or the store lets the
/// request down; it asks the store for no change and leaves the tables as
/// they were.
pub proof fn add_vinyl_needs_artist(
    start: Tables,
    data: VinylUserDataView,
    now: u32,
    replies: Seq<ReplyView>,
    outcome: Result<VinylView, ApiError>,
)
    requires
        start.vinyl_by_name(data.name) is None,
        start.artist_id_is_free(data.artist_id),
        finished(adding_vinyl(data, now), start, replies, outcome),
    ensures
        outcome == Err::<VinylView, ApiError>(ApiError::InvalidArtist) || outcome == Err::<
            VinylView,
            ApiError,
        >(let_down()),
        answered(replies) ==> outcome == Err::<VinylView, ApiError>(ApiError::InvalidArtist),
        only_read(adding_vinyl(data, now), replies),
        tables_after(adding_vinyl(data, now), start, replies) == start,
{
    opening(adding_vinyl(data, now), start, replies);
    lookups_by_id(start, data.artist_id);
}

/// Creating a vinyl twice under one name gives the same vinyl both times,
/// whatever artist and cover the second request names, and the second
/// request adds no row. The artist's name alone can differ: the first
/// answer repeats what the client sent, the second holds what the store
/// has.
pub proof fn add_vinyl_is_idempotent(
    start: Tables,
    data: VinylUserDataView,
    now: u32,
    first: Seq<ReplyView>,
    created: VinylView,
    other: VinylUserDataView,
    later: u32,
    second: Seq<ReplyView>,
    again: VinylView,
)
    requires
        other.name == data.name,
        finished(adding_vinyl(data, now), start, first, Ok(created)),
        finished(
            adding_vinyl(other, later),
            tables_after(adding_vinyl(data, now), start, first),
            second,
            Ok(again),
        ),
    ensures
        again == (VinylView { artist_name: again.artist_name, ..created }),
        start.vinyl_by_name(data.name) is Some ==> again == created,
        start.vinyl_by_name(data.name) is None ==> Some(again.artist_name) == match artist_by_id(
            start.artists,
            data.artist_id,
        ) {
            Some(artist) => Some(artist.name),
            None => None,
        },
        tables_after(
            adding_vinyl(other, later),
            tables_after(adding_vinyl(data, now), start, first),
            second,
        ) == tables_after(adding_vinyl(data, now), start, first),
{
    let between = tables_after(adding_vinyl(data, now), start, first);
    add_vinyl_outcome(start, data, now, first, Ok(created));
    add_vinyl_outcome(between, other, later, second, Ok(again));
    if start.vinyl_by_name(data.name) is None {
        let row = inserted_row(data, created.id, now);
        joined_push(start.artists, start.vinyls, row);
        first_where_push(
            start.listed(),
            |vinyl: VinylView| vinyl.name == data.name,
            shown(row, artist_by_id(start.artists, data.artist_id)->Some_0.name),
        );
    }
}

/// What changing a vinyl comes to. Where no row of the table of vinyls has
/// the id, it is `NotFound`; where one has and no artist has the id that
/// the request names, it is `InvalidArtist`; neither asks the store for a
/// change. Otherwise every row with the id gets the request's name, artist
/// and cover and keeps its date, whether or not its former artist exists;
/// the other rows and the artists stay. The answer holds what the request
/// describes, the artist's name as the store has it and the date of the
/// row. A request that fails leaves the tables as they were.
pub proof fn update_vinyl_outcome(
    start: Tables,
    id: u32,
    data: VinylUserDataView,
    replies: Seq<ReplyView>,
    outcome: Result<VinylView, ApiError>,
)
    requires
        finished(updating_vinyl(id, data), start, replies, outcome),
    ensures
        ({
            let after = tables_after(updating_vinyl(id, data), start, replies);
            let row = start.vinyl_row(id);
            let artist = artist_by_id(start.artists, data.artist_id);
            match outcome {
                Ok(vinyl) => {
                    &&& !start.vinyl_id_is_free(id) && row is Some && row->Some_0.id == id
                    &&& !start.artist_id_is_free(data.artist_id) && artist is Some
                        && artist->Some_0.id == data.artist_id
                    &&& vinyl == updated_vinyl(
                        data,
                        id,
                        artist->Some_0.name,
                        row->Some_0.added_date,
                    )
                    &&& after.artists == start.artists
                    &&& after.vinyls == start.vinyls.map_values(
                        |row: VinylRowView|
                            revised(row, id, data.name, data.artist_id, data.cover_file_name),
                    )
                },
                Err(error) => {
                    &&& after == start
                    &&& error == ApiError::NotFound || error == ApiError::InvalidArtist || error
                        == let_down()
                    &&& error == ApiError::NotFound ==> start.vinyl_id_is_free(id)
                    &&& error == ApiError::InvalidArtist ==> !start.vinyl_id_is_free(id)
                        && start.artist_id_is_free(data.artist_id)
                    &&& answered(replies) ==> error != let_down()
                    &&& error != let_down() ==> only_read(updating_vinyl(id, data), replies)
                },
            }
        }),
{
    opening(updating_vinyl(id, data), start, replies);
    lookups_by_id(start, id);
    lookups_by_id(start, data.artist_id);
}

/// Removing a vinyl succeeds whether or not the vinyl exists, unless the
/// store lets the request down. Where no vinyl has the id, the tables stay
/// as they were.
pub proof fn delete_vinyl_outcome(
    start: Tables,
    id: u32,
    replies: Seq<ReplyView>,
    outcome: Result<(), ApiError>,
)
    requires
        finished(deleting_vinyl(id), start, replies, outcome),
    ensures
        ({
            let after = tables_after(deleting_vinyl(id), start, replies);
            match outcome {
                Ok(_) => after == (Tables {
                    vinyls: start.vinyls.filter(|row: VinylRowView| row.id != id),
                    ..start
                }) && (start.vinyl_id_is_free(id) ==> after == start),
                Err(error) => error == let_down() && after == start && !answered(replies),
            }
        }),
{
    opening(deleting_vinyl(id), start, replies);
    if start.vinyl_id_is_free(id) {
        filter_keeps_all(start.vinyls, |row: VinylRowView| row.id != id);
    }
}

/// What renaming an artist comes to: `NotFound` where no artist has the id;
/// `InvalidName` where one has and the new name is empty; otherwise the
/// artist under the new name, in the answer and in the tables. A request
/// that fails asks the store for no change, unless the store let it down,
/// and leaves the tables as they were.
pub proof fn update_artist_outcome(
    start: Tables,
    id: u32,
    new_name: Seq<char>,
    replies: Seq<ReplyView>,
    outcome: Result<ArtistView, ApiError>,
)
    requires
        finished(updating_artist(id, new_name), start, replies, outcome),
    ensures
        ({
            let after = tables_after(updating_artist(id, new_name), start, replies);
            match outcome {
                Ok(artist) => {
                    &&& !start.artist_id_is_free(id)
                    &&& new_name.len() > 0
                    &&& artist == (ArtistView { id, name: new_name })
                    &&& after.vinyls == start.vinyls
                    &&& after.artists == start.artists.map_values(
                        |artist: ArtistView| renamed(artist, id, new_name),
                    )
                },
                Err(error) => {
                    &&& after == start
                    &&& error == ApiError::NotFound || error == ApiError::InvalidName || error
                        == let_down()
                    &&& error == ApiError::NotFound ==> start.artist_id_is_free(id)
                    &&& error == ApiError::InvalidName ==> !start.artist_id_is_free(id)
                        && new_name.len() == 0
                    &&& answered(replies) ==> error != let_down()
                    &&& error != let_down() ==> only_read(updating_artist(id, new_name), replies)
                },
            }
        }),
{
    opening(updating_artist(id, new_name), start, replies);
    lookups_by_id(start, id);
}

/// What removing an artist comes to: `NotFound`, and no change asked for,
/// where no artist has the id; otherwise the artist is gone from the table
/// of artists, and the table of vinyls is as it was.
pub proof fn delete_artist_outcome(
    start: Tables,
    id: u32,
    replies: Seq<ReplyView>,
    outcome: Result<(), ApiError>,
)
    requires
        finished(deleting_artist(id), start, replies, outcome),
    ensures
        ({
            let after = tables_after(deleting_artist(id), start, replies);
            match outcome {
                Ok(_) => {
                    &&& !start.artist_id_is_free(id)
                    &&& after == (Tables {
                        artists: start.artists.filter(|artist: ArtistView| artist.id != id),
                        ..start
                    })
                },
                Err(error) => {
                    &&& after == start
                    &&& error == ApiError::NotFound || error == let_down()
                    &&& error == ApiError::NotFound ==> start.artist_id_is_free(id)
                    &&& answered(replies) ==> error != let_down()
                    &&& error != let_down() ==> only_read(deleting_artist(id), replies)
                },
            }
        }),
{
    opening(deleting_artist(id), start, replies);
    lookups_by_id(start, id);
}

/// A draw of `count` vinyls holds `count` of the listed vinyls, or all of
/// them where fewer are listed, none of them twice, and changes nothing.
pub proof fn shuffle_vinyls_outcome(
    start: Tables,
    count: u32,
    replies: Seq<ReplyView>,
    outcome: Result<Seq<VinylView>, ApiError>,
)
    requires
        finished(shuffling_vinyls(count), start, replies, outcome),
    ensures
        tables_after(shuffling_vinyls(count), start, replies) == start,
        match outcome {
            Ok(rows) => is_sample(rows, start.listed(), count) && rows.len() <= count
                && rows.len() <= start.listed().len(),
            Err(error) => error == let_down() && !answered(replies),
        },
{
    opening(shuffling_vinyls(count), start, replies);
    if outcome is Ok {
        let rows = replies[0]->Vinyls_0;
        assert(rows.take(rows.len() as int) =~= rows);
    }
}

/// The lists are what the tables hold: every artist; every vinyl whose
/// artist exists; of one artist, the vinyls that refer to it. Listing
/// changes nothing.
pub proof fn lists_show_the_tables(
    start: Tables,
    id: u32,
    replies: Seq<ReplyView>,
    artists: Seq<ArtistView>,
    vinyls: Seq<VinylView>,
)
    ensures
        finished(listing_artists(), start, replies, Ok(artists)) ==> artists == start.artists
            && tables_after(listing_artists(), start, replies) == start,
        finished(listing_vinyls(), start, replies, Ok(vinyls)) ==> vinyls == start.listed()
            && tables_after(listing_vinyls(), start, replies) == start,
        finished(listing_vinyls_for(id), start, replies, Ok(vinyls)) ==> vinyls
            == start.vinyls_of(id) && tables_after(listing_vinyls_for(id), start, replies)
            == start,
{
    if finished(listing_artists(), start, replies, Ok(artists)) {
        opening(listing_artists(), start, replies);
    }
    if finished(listing_vinyls(), start, replies, Ok(vinyls)) {
        opening(listing_vinyls(), start, replies);
    }
    if finished(listing_vinyls_for(id), start, replies, Ok(vinyls)) {
        opening(listing_vinyls_for(id), start, replies);
    }
}

/// A vinyl that was created is among the vinyls that are listed next, with
/// every field as the creation answered it but for the artist's name, which
/// the list takes from the store. Where the vinyl is new, it is the last
/// of the list, and the list is otherwise as it was.
pub proof fn created_vinyl_is_listed(
    start: Tables,
    data: VinylUserDataView,
    now: u32,
    replies: Seq<ReplyView>,
    created: VinylView,
    listing: Seq<ReplyView>,
    rows: Seq<VinylView>,
)
    requires
        finished(adding_vinyl(data, now), start, replies, Ok(created)),
        finished(
            listing_vinyls(),
            tables_after(adding_vinyl(data, now), start, replies),
            listing,
            Ok(rows),
        ),
    ensures
        exists|i: int|
            0 <= i < rows.len() && #[trigger] rows[i] == (VinylView {
                artist_name: rows[i].artist_name,
                ..created
            }),
        start.vinyl_by_name(data.name) is Some ==> rows == start.listed(),
        start.vinyl_by_name(data.name) is None ==> rows.drop_last() == start.listed()
            && rows.last() == (VinylView { artist_name: rows.last().artist_name, ..created })
            && Some(rows.last().artist_name) == match artist_by_id(start.artists, data.artist_id) {
            Some(artist) => Some(artist.name),
            None => None,
        },
{
    let after = tables_after(adding_vinyl(data, now), start, replies);
    add_vinyl_outcome(start, data, now, replies, Ok(created));
    lists_show_the_tables(after, 0, listing, Seq::empty(), rows);
    if start.vinyl_by_name(data.name) is Some {
        first_where_is_among(start.listed(), |vinyl: VinylView| vinyl.name == data.name);
        let i = choose|i: int| 0 <= i < rows.len() && #[trigger] rows[i] == created;
        assert(rows[i] == (VinylView { artist_name: rows[i].artist_name, ..created }));
    } else {
        joined_push(start.artists, start.vinyls, inserted_row(data, created.id, now));
        assert(rows.drop_last() =~= start.listed());
        let i = rows.len() - 1;
        assert(rows[i] == (VinylView { artist_name: rows[i].artist_name, ..created }));
    }
}

/// A vinyl that was changed is listed, and found under its id in the list,
/// as the change answered it, and its row holds the same; this where ids
/// were unique when the request began.
pub proof fn updated_vinyl_is_found(
    start: Tables,
    id: u32,
    data: VinylUserDataView,
    replies: Seq<ReplyView>,
    updated: VinylView,
)
    requires
        start.ids_are_unique(),
        finished(updating_vinyl(id, data), start, replies, Ok(updated)),
    ensures
        ({
            let after = tables_after(updating_vinyl(id, data), start, replies);
            &&& after.vinyl_by_id(id) == Some(updated)
            &&& after.vinyl_row(id) is Some
            &&& updated == shown(after.vinyl_row(id)->Some_0, updated.artist_name)
        }),
{
    let after = tables_after(updating_vinyl(id, data), start, replies);
    update_vinyl_outcome(start, id, data, replies, Ok(updated));
    let k = choose|k: int| 0 <= k < start.vinyls.len() && (#[trigger] start.vinyls[k]).id == id;
    lookup_finds_the_row(start, id, k);
    assert(after.vinyls[k].id == id);
    assert forall|i: int, j: int| 0 <= i < j < after.vinyls.len() implies after.vinyls[i].id
        != after.vinyls[j].id by {
        assert(after.vinyls[i].id == start.vinyls[i].id);
        assert(after.vinyls[j].id == start.vinyls[j].id);
    }
    vinyl_by_id_finds_its_row(after.artists, after.vinyls, id);
    lookup_finds_the_row(after, id, k);
}

/// Renaming an artist that does not exist fails with `NotFound`, whatever
/// the new name, unless the store lets the request down; it asks the store
/// for no change and leaves the tables as they were.
pub proof fn update_artist_needs_artist(
    start: Tables,
    id: u32,
    new_name: Seq<char>,
    replies: Seq<ReplyView>,
    outcome: Result<ArtistView, ApiError>,
)
    requires
        start.artist_id_is_free(id),
        finished(updating_artist(id, new_name), start, replies, outcome),
    ensures
        outcome == Err::<ArtistView, ApiError>(ApiError::NotFound) || outcome == Err::<
            ArtistView,
            ApiError,
        >(let_down()),
        answered(replies) ==> outcome == Err::<ArtistView, ApiError>(ApiError::NotFound),
        only_read(updating_artist(id, new_name), replies),
        tables_after(updating_artist(id, new_name), start, replies) == start,
{
    opening(updating_artist(id, new_name), start, replies);
    lookups_by_id(start, id);
}

/// Removing an artist that does not exist fails with `NotFound`, unless the
/// store lets the request down; it asks the store for no change and leaves
/// the tables as they were.
pub proof fn delete_artist_needs_artist(
    start: Tables,
    id: u32,
    replies: Seq<ReplyView>,
    outcome: Result<(), ApiError>,
)
    requires
        start.artist_id_is_free(id),
        finished(deleting_artist(id), start, replies, outcome),
    ensures
        outcome == Err::<(), ApiError>(ApiError::NotFound) || outcome == Err::<(), ApiError>(
            let_down(),
        ),
        answered(replies) ==> outcome == Err::<(), ApiError>(ApiError::NotFound),
        only_read(deleting_artist(id), replies),
        tables_after(deleting_artist(id), start, replies) == start,
{
    opening(deleting_artist(id), start, replies);
    lookups_by_id(start, id);
}

/// Changing a vinyl fails with `NotFound` where no row of the table of
/// vinyls has the id, whatever artist the request names, unless the store
/// lets the request down; it asks the store for no change and leaves the
/// tables as they were.
pub proof fn update_vinyl_needs_vinyl(
    start: Tables,
    id: u32,
    data: VinylUserDataView,
    replies: Seq<ReplyView>,
    outcome: Result<VinylView, ApiError>,
)
    requires
        start.vinyl_id_is_free(id),
        finished(updating_vinyl(id, data), start, replies, outcome),
    ensures
        outcome == Err::<VinylView, ApiError>(ApiError::NotFound) || outcome == Err::<
            VinylView,
            ApiError,
        >(let_down()),
        answered(replies) ==> outcome == Err::<VinylView, ApiError>(ApiError::NotFound),
        only_read(updating_vinyl(id, data), replies),
        tables_after(updating_vinyl(id, data), start, replies) == start,
{
    opening(updating_vinyl(id, data), start, replies);
    lookups_by_id(start, id);
}

/// Changing a vinyl that exists so that it refers to no artist fails with
/// `InvalidArtist`, whether or not the vinyl's present artist exists,
/// unless the store lets the request down; it asks the store for no change
/// and leaves the tables as they were.
pub proof fn update_vinyl_needs_artist(
    start: Tables,
    id: u32,
    data: VinylUserDataView,
    replies: Seq<ReplyView>,
    outcome: Result<VinylView, ApiError>,
)
    requires
        !start.vinyl_id_is_free(id),
        start.artist_id_is_free(data.artist_id),
        finished(updating_vinyl(id, data), start, replies, outcome),
    ensures
        outcome == Err::<VinylView, ApiError>(ApiError::InvalidArtist) || outcome == Err::<
            VinylView,
            ApiError,
        >(let_down()),
        answered(replies) ==> outcome == Err::<VinylView, ApiError>(ApiError::InvalidArtist),
        only_read(updating_vinyl(id, data), replies),
        tables_after(updating_vinyl(id, data), start, replies) == start,
{
    opening(updating_vinyl(id, data), start, replies);
    lookups_by_id(start, id);
    lookups_by_id(start, data.artist_id);
}

/// Changing a vinyl that exists so that it refers to an artist that exists
/// succeeds, whether or not the vinyl's present artist exists, unless the
/// store lets the request down. The answer keeps the id, and takes the
/// date from the row and the artist's name from the store, not from the
/// request; where ids are unique, the row is the one row with the id and
/// the artist the one artist with the id that the request names.
pub proof fn update_vinyl_revises_the_row(
    start: Tables,
    id: u32,
    data: VinylUserDataView,
    replies: Seq<ReplyView>,
    outcome: Result<VinylView, ApiError>,
)
    requires
        !start.vinyl_id_is_free(id),
        !start.artist_id_is_free(data.artist_id),
        finished(updating_vinyl(id, data), start, replies, outcome),
    ensures
        outcome is Ok || outcome == Err::<VinylView, ApiError>(let_down()),
        answered(replies) ==> outcome is Ok,
        outcome is Ok ==> outcome->Ok_0.id == id && outcome->Ok_0.name == data.name
            && outcome->Ok_0.artist_id == data.artist_id && outcome->Ok_0.cover_file_name
            == data.cover_file_name,
        outcome is Ok && start.ids_are_unique() ==> forall|k: int|
            0 <= k < start.vinyls.len() && (#[trigger] start.vinyls[k]).id == id
                ==> outcome->Ok_0.added_date == start.vinyls[k].added_date,
        outcome is Ok && start.ids_are_unique() ==> forall|k: int|
            0 <= k < start.artists.len() && (#[trigger] start.artists[k]).id == data.artist_id
                ==> outcome->Ok_0.artist_name == start.artists[k].name,
{
    update_vinyl_outcome(start, id, data, replies, outcome);
    if outcome is Ok && start.ids_are_unique() {
        assert forall|k: int|
            0 <= k < start.vinyls.len() && (#[trigger] start.vinyls[k]).id == id implies outcome->Ok_0.added_date
            == start.vinyls[k].added_date by {
            lookup_finds_the_row(start, id, k);
        }
        assert forall|k: int|
            0 <= k < start.artists.len() && (#[trigger] start.artists[k]).id
                == data.artist_id implies outcome->Ok_0.artist_name == start.artists[k].name by {
            first_where_finds_the_only(
                start.artists,
                |artist: ArtistView| artist.id == data.artist_id,
                k,
            );
        }
    }
}

/// An artist whose name is empty, or holds nothing but double quotes, is
/// not created: the request is refused with `InvalidName` whatever the
/// replies, names no statement, and leaves the tables as they were.
pub proof fn add_artist_needs_name(
    start: Tables,
    name: Seq<char>,
    replies: Seq<ReplyView>,
    outcome: Result<ArtistView, ApiError>,
)
    requires
        forall|i: int| 0 <= i < name.len() ==> name[i] == '"',
    ensures
        add_artist_plan(name, replies) == StepView::<ArtistView>::Done(
            Err(ApiError::InvalidName),
        ),
        finished(adding_artist(name), start, replies, outcome) ==> replies.len() == 0 && outcome
            == Err::<ArtistView, ApiError>(ApiError::InvalidName) && tables_after(
            adding_artist(name),
            start,
            replies,
        ) == start,
{
    nothing_but_quotes(name);
    if finished(adding_artist(name), start, replies, outcome) {
        add_artist_outcome(start, name, replies, outcome);
    }
}

/// Whether every artist has a name that is not empty.
pub open spec fn artists_are_named(tables: Tables) -> bool {
    forall|i: int| 0 <= i < tables.artists.len() ==> (#[trigger] tables.artists[i]).name.len() > 0
}

/// No request about artists leaves an artist without a name: where every
/// artist had a name that is not empty when a creation, a renaming or a
/// removal began, every artist has one when it has ended.
pub proof fn artists_stay_named(
    start: Tables,
    id: u32,
    name: Seq<char>,
    replies: Seq<ReplyView>,
    outcome: Result<ArtistView, ApiError>,
    removal: Result<(), ApiError>,
)
    requires
        artists_are_named(start),
    ensures
        finished(adding_artist(name), start, replies, outcome) ==> artists_are_named(
            tables_after(adding_artist(name), start, replies),
        ),
        finished(updating_artist(id, name), start, replies, outcome) ==> artists_are_named(
            tables_after(updating_artist(id, name), start, replies),
        ),
        finished(deleting_artist(id), start, replies, removal) ==> artists_are_named(
            tables_after(deleting_artist(id), start, replies),
        ),
{
    if finished(adding_artist(name), start, replies, outcome) {
        add_artist_outcome(start, name, replies, outcome);
    }
    if finished(updating_artist(id, name), start, replies, outcome) {
        update_artist_outcome(start, id, name, replies, outcome);
    }
    if finished(deleting_artist(id), start, replies, removal) {
        delete_artist_outcome(start, id, replies, removal);
        filtered_rows_are_among(start.artists, |artist: ArtistView| artist.id != id);
    }
}

/// Creating an artist ends: it has its outcome once two replies are in.
pub proof fn add_artist_ends(name: Seq<char>, replies: Seq<ReplyView>)
    requires
        replies.len() >= 2,
    ensures
        add_artist_plan(name, replies) is Done,
{
}

/// Renaming an artist ends: it has its outcome once two replies are in.
pub proof fn update_artist_ends(id: u32, new_name: Seq<char>, replies: Seq<ReplyView>)
    requires
        replies.len() >= 2,
    ensures
        update_artist_plan(id, new_name, replies) is Done,
{
}

/// Removing an artist ends: it has its outcome once two replies are in.
pub proof fn delete_artist_ends(id: u32, replies: Seq<ReplyView>)
    requires
        replies.len() >= 2,
    ensures
        delete_artist_plan(id, replies) is Done,
{
}

/// Listing the artists ends: it has its outcome once one reply is in.
pub proof fn list_all_artists_ends(replies: Seq<ReplyView>)
    requires
        replies.len() >= 1,
    ensures
        list_all_artists_plan(replies) is Done,
{
}

/// Listing the vinyls of an artist ends: it has its outcome once one reply
/// is in.
pub proof fn list_vinyls_for_artist_ends(id: u32, replies: Seq<ReplyView>)
    requires
        replies.len() >= 1,
    ensures
        list_vinyls_for_artist_plan(id, replies) is Done,
{
}

/// Listing the vinyls ends: it has its outcome once one reply is in.
pub proof fn list_all_vinyls_ends(replies: Seq<ReplyView>)
    requires
        replies.len() >= 1,
    ensures
        list_all_vinyls_plan(replies) is Done,
{
}

/// Creating a vinyl ends: it has its outcome once three replies are in.
pub proof fn add_vinyl_ends(data: VinylUserDataView, now: u32, replies: Seq<ReplyView>)
    requires
        replies.len() >= 3,
    ensures
        add_vinyl_plan(data, now, replies) is Done,
{
}

/// Changing a vinyl ends: it has its outcome once three replies are in.
pub proof fn update_vinyl_ends(id: u32, data: VinylUserDataView, replies: Seq<ReplyView>)
    requires
        replies.len() >= 3,
    ensures
        update_vinyl_plan(id, data, replies) is Done,
{
}

/// Removing a vinyl ends: it has its outcome once one reply is in.
pub proof fn delete_vinyl_ends(id: u32, replies: Seq<ReplyView>)
    requires
        replies.len() >= 1,
    ensures
        delete_vinyl_plan(id, replies) is Done,
{
}

/// Drawing vinyls ends: it has its outcome once one reply is in.
pub proof fn shuffle_vinyls_ends(count: u32, replies: Seq<ReplyView>)
    requires
        replies.len() >= 1,
    ensures
        shuffle_vinyls_plan(count, replies) is Done,
{
}

} // verus!
