//! The handlers of the requests about artists.

use vstd::prelude::*;
use crate::conversation::{
    artist_lookup,
    broken,
    check_artist_by_id,
    copy_artists,
    copy_vinyls,
    refused,
    Lookup,
    LookupView,
    Step,
    StepView,
};
use crate::error::{ApiError, StorageError};
use crate::model::{Artist, ArtistView, Vinyl, VinylView};
use crate::statement::{Reply, ReplyView, Statement, StatementView};
use crate::text::{strip_quotes, without_quotes};
use crate::vinyls::listing_plan;

verus! {

/// Creating an artist. The name is taken without its double quotes, and
/// must then hold something: an empty name is refused before the store is
/// asked anything. An artist of that name, where there is one, is the
/// answer; otherwise one is inserted.
pub open spec fn add_artist_plan(name: Seq<char>, replies: Seq<ReplyView>) -> StepView<ArtistView> {
    let name = without_quotes(name);
    if name.len() == 0 {
        refused(ApiError::InvalidName)
    } else if replies.len() == 0 {
        StepView::Run(StatementView::FindArtistByName { name })
    } else {
        match replies[0] {
            ReplyView::Artist(Some(existing)) => StepView::Done(
                Ok(ArtistView { id: existing.id, name }),
            ),
            ReplyView::Artist(None) => if replies.len() == 1 {
                StepView::Run(StatementView::InsertArtist { name })
            } else {
                match replies[1] {
                    ReplyView::Inserted(id) => StepView::Done(Ok(ArtistView { id, name })),
                    _ => broken(),
                }
            },
            _ => broken(),
        }
    }
}

/// One step of creating an artist called `name`.
pub fn add_artist(name: &str, replies: &Vec<Reply>) -> (step: Step<Artist>)
    ensures
        step.deep_view() == add_artist_plan(name@, replies.deep_view()),
{
    let name = strip_quotes(name);
    if name.as_str().is_empty() {
        return Step::Done(Err(ApiError::InvalidName));
    }
    if replies.len() == 0 {
        return Step::Run(Statement::FindArtistByName { name });
    }
    match &replies[0] {
        Reply::Artist(Some(existing)) => Step::Done(Ok(Artist { id: existing.id, name })),
        Reply::Artist(None) => {
            if replies.len() == 1 {
                return Step::Run(Statement::InsertArtist { name });
            }
            match &replies[1] {
                Reply::Inserted(id) => Step::Done(Ok(Artist { id: *id, name })),
                _ => Step::Done(Err(ApiError::Storage(StorageError::QueryFailed))),
            }
        },
        _ => Step::Done(Err(ApiError::Storage(StorageError::QueryFailed))),
    }
}

/// Renaming an artist. The artist must exist, and the new name must hold
/// something. Whether another artist goes by the new name already is not
/// asked.
pub open spec fn update_artist_plan(id: u32, new_name: Seq<char>, replies: Seq<ReplyView>)
    -> StepView<ArtistView> {
    match artist_lookup(id, replies, 0) {
        LookupView::Ask(statement) => StepView::Run(statement),
        LookupView::Missing => refused(ApiError::NotFound),
        LookupView::Failed => broken(),
        LookupView::Found(_) => if new_name.len() == 0 {
            refused(ApiError::InvalidName)
        } else if replies.len() == 1 {
            StepView::Run(StatementView::RenameArtist { id, name: new_name })
        } else {
            match replies[1] {
                ReplyView::Completed => StepView::Done(Ok(ArtistView { id, name: new_name })),
                _ => broken(),
            }
        },
    }
}

/// One step of renaming the artist `id` to `new_name`.
pub fn update_artist(id: u32, new_name: &str, replies: &Vec<Reply>) -> (step: Step<Artist>)
    ensures
        step.deep_view() == update_artist_plan(id, new_name@, replies.deep_view()),
{
    match check_artist_by_id(id, replies, 0) {
        Lookup::Ask(statement) => Step::Run(statement),
        Lookup::Missing => Step::Done(Err(ApiError::NotFound)),
        Lookup::Failed => Step::Done(Err(ApiError::Storage(StorageError::QueryFailed))),
        Lookup::Found(_) => {
            if new_name.is_empty() {
                return Step::Done(Err(ApiError::InvalidName));
            }
            if replies.len() == 1 {
                return Step::Run(Statement::RenameArtist { id, name: new_name.to_owned() });
            }
            match &replies[1] {
                Reply::Completed => Step::Done(Ok(Artist { id, name: new_name.to_owned() })),
                _ => Step::Done(Err(ApiError::Storage(StorageError::QueryFailed))),
            }
        },
    }
}

/// Removing an artist. The artist must exist. The vinyls that refer to the
/// artist are neither asked for nor removed.
pub open spec fn delete_artist_plan(id: u32, replies: Seq<ReplyView>) -> StepView<()> {
    match artist_lookup(id, replies, 0) {
        LookupView::Ask(statement) => StepView::Run(statement),
        LookupView::Missing => refused(ApiError::NotFound),
        LookupView::Failed => broken(),
        LookupView::Found(_) => if replies.len() == 1 {
            StepView::Run(StatementView::DeleteArtist { id })
        } else {
            match replies[1] {
                ReplyView::Completed => StepView::Done(Ok(())),
                _ => broken(),
            }
        },
    }
}

/// One step of removing the artist `id`.
pub fn delete_artist(id: u32, replies: &Vec<Reply>) -> (step: Step<()>)
    ensures
        step.deep_view() == delete_artist_plan(id, replies.deep_view()),
{
    match check_artist_by_id(id, replies, 0) {
        Lookup::Ask(statement) => Step::Run(statement),
        Lookup::Missing => Step::Done(Err(ApiError::NotFound)),
        Lookup::Failed => Step::Done(Err(ApiError::Storage(StorageError::QueryFailed))),
        Lookup::Found(_) => {
            if replies.len() == 1 {
                return Step::Run(Statement::DeleteArtist { id });
            }
            match &replies[1] {
                Reply::Completed => Step::Done(Ok(())),
                _ => Step::Done(Err(ApiError::Storage(StorageError::QueryFailed))),
            }
        },
    }
}

/// Listing every artist: one statement, whose rows are the answer.
pub open spec fn list_all_artists_plan(replies: Seq<ReplyView>) -> StepView<Seq<ArtistView>> {
    if replies.len() == 0 {
        StepView::Run(StatementView::ListArtists)
    } else {
        match replies[0] {
            ReplyView::Artists(rows) => StepView::Done(Ok(rows)),
            _ => broken(),
        }
    }
}

/// One step of listing every artist.
pub fn list_all_artists(replies: &Vec<Reply>) -> (step: Step<Vec<Artist>>)
    ensures
        step.deep_view() == list_all_artists_plan(replies.deep_view()),
{
    if replies.len() == 0 {
        return Step::Run(Statement::ListArtists);
    }
    match &replies[0] {
        Reply::Artists(rows) => Step::Done(Ok(copy_artists(rows))),
        _ => Step::Done(Err(ApiError::Storage(StorageError::QueryFailed))),
    }
}

/// Listing the vinyls of one artist. Whether the artist exists is not asked:
/// an id that names no artist has no vinyls to list.
pub open spec fn list_vinyls_for_artist_plan(id: u32, replies: Seq<ReplyView>) -> StepView<
    Seq<VinylView>,
> {
    listing_plan(StatementView::ListVinylsOfArtist { artist_id: id }, replies)
}

/// One step of listing the vinyls of the artist `id`.
pub fn list_vinyls_for_artist(id: u32, replies: &Vec<Reply>) -> (step: Step<Vec<Vinyl>>)
    ensures
        step.deep_view() == list_vinyls_for_artist_plan(id, replies.deep_view()),
{
    if replies.len() == 0 {
        return Step::Run(Statement::ListVinylsOfArtist { artist_id: id });
    }
    match &replies[0] {
        Reply::Vinyls(rows) => {
            let copy = copy_vinyls(rows, rows.len());
            assert(copy.deep_view() =~= rows.deep_view());
            Step::Done(Ok(copy))
        },
        _ => Step::Done(Err(ApiError::Storage(StorageError::QueryFailed))),
    }
}

} // verus!
