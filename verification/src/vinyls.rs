//! The handlers of the requests about vinyls.

use vstd::prelude::*;
use crate::conversation::{
    artist_lookup,
    broken,
    check_artist_by_id,
    check_vinyl_by_id,
    copy_vinyls,
    refused,
    vinyl_lookup,
    Lookup,
    LookupView,
    Step,
    StepView,
};
use crate::error::{ApiError, StorageError};
use crate::model::{Vinyl, VinylUserData, VinylUserDataView, VinylView};
use crate::statement::{Reply, ReplyView, Statement, StatementView};

verus! {

/// The vinyl that a creation request describes, once the store has taken it
/// in under `id` at the time `now`. The artist's name is the client's.
pub open spec fn created_vinyl(data: VinylUserDataView, id: u32, now: u32) -> VinylView {
    VinylView {
        id,
        name: data.name,
        artist_id: data.artist_id,
        artist_name: data.artist_name,
        added_date: now,
        cover_file_name: data.cover_file_name,
    }
}

/// The vinyl that an update request describes: the client's name, artist and
/// cover, the artist's name as the store has it, and the date on which the
/// vinyl was added, which no update changes.
pub open spec fn updated_vinyl(
    data: VinylUserDataView,
    id: u32,
    artist_name: Seq<char>,
    added_date: u32,
) -> VinylView {
    VinylView {
        id,
        name: data.name,
        artist_id: data.artist_id,
        artist_name,
        added_date,
        cover_file_name: data.cover_file_name,
    }
}

/// Creating a vinyl. A vinyl of the same name, where there is one, is the
/// answer, whatever else the request says. Otherwise the artist must exist,
/// and the vinyl is inserted with `now` as the date on which it was added.
pub open spec fn add_vinyl_plan(data: VinylUserDataView, now: u32, replies: Seq<ReplyView>)
    -> StepView<VinylView> {
    if replies.len() == 0 {
        StepView::Run(StatementView::FindVinylByName { name: data.name })
    } else {
        match replies[0] {
            ReplyView::Vinyl(Some(existing)) => StepView::Done(Ok(existing)),
            ReplyView::Vinyl(None) => match artist_lookup(data.artist_id, replies, 1) {
                LookupView::Ask(statement) => StepView::Run(statement),
                LookupView::Missing => refused(ApiError::InvalidArtist),
                LookupView::Failed => broken(),
                LookupView::Found(_) => if replies.len() == 2 {
                    StepView::Run(
                        StatementView::InsertVinyl {
                            name: data.name,
                            artist_id: data.artist_id,
                            added_date: now,
                            cover_file_name: data.cover_file_name,
                        },
                    )
                } else {
                    match replies[2] {
                        ReplyView::Inserted(id) => StepView::Done(Ok(created_vinyl(data, id, now))),
                        _ => broken(),
                    }
                },
            },
            _ => broken(),
        }
    }
}

/// One step of creating the vinyl that `data` describes, at the time `now`,
/// in seconds since the Unix epoch.
pub fn add_vinyl(data: &VinylUserData, now: u32, replies: &Vec<Reply>) -> (step: Step<Vinyl>)
    ensures
        step.deep_view() == add_vinyl_plan(data@, now, replies.deep_view()),
{
    if replies.len() == 0 {
        return Step::Run(Statement::FindVinylByName { name: data.name.clone() });
    }
    match &replies[0] {
        Reply::Vinyl(Some(existing)) => Step::Done(Ok(existing.clone())),
        Reply::Vinyl(None) => match check_artist_by_id(data.artist_id, replies, 1) {
            Lookup::Ask(statement) => Step::Run(statement),
            Lookup::Missing => Step::Done(Err(ApiError::InvalidArtist)),
            Lookup::Failed => Step::Done(Err(ApiError::Storage(StorageError::QueryFailed))),
            Lookup::Found(_) => {
                if replies.len() == 2 {
                    return Step::Run(
                        Statement::InsertVinyl {
                            name: data.name.clone(),
                            artist_id: data.artist_id,
                            added_date: now,
                            cover_file_name: data.cover_file_name.clone(),
                        },
                    );
                }
                match &replies[2] {
                    Reply::Inserted(id) => Step::Done(
                        Ok(
                            Vinyl {
                                id: *id,
                                name: data.name.clone(),
                                artist_id: data.artist_id,
                                artist_name: data.artist_name.clone(),
                                added_date: now,
                                cover_file_name: data.cover_file_name.clone(),
                            },
                        ),
                    ),
                    _ => Step::Done(Err(ApiError::Storage(StorageError::QueryFailed))),
                }
            },
        },
        _ => Step::Done(Err(ApiError::Storage(StorageError::QueryFailed))),
    }
}

/// Changing a vinyl. A vinyl must have the id, whether or not its present
/// artist exists, and the artist that it is to belong to must exist. The
/// answer carries the artist's name as the store has it.
pub open spec fn update_vinyl_plan(id: u32, data: VinylUserDataView, replies: Seq<ReplyView>)
    -> StepView<VinylView> {
    match vinyl_lookup(id, replies, 0) {
        LookupView::Ask(statement) => StepView::Run(statement),
        LookupView::Missing => refused(ApiError::NotFound),
        LookupView::Failed => broken(),
        LookupView::Found(existing) => match artist_lookup(data.artist_id, replies, 1) {
            LookupView::Ask(statement) => StepView::Run(statement),
            LookupView::Missing => refused(ApiError::InvalidArtist),
            LookupView::Failed => broken(),
            LookupView::Found(artist) => if replies.len() == 2 {
                StepView::Run(
                    StatementView::UpdateVinyl {
                        id,
                        name: data.name,
                        artist_id: data.artist_id,
                        cover_file_name: data.cover_file_name,
                    },
                )
            } else {
                match replies[2] {
                    ReplyView::Completed => StepView::Done(
                        Ok(updated_vinyl(data, id, artist.name, existing.added_date)),
                    ),
                    _ => broken(),
                }
            },
        },
    }
}

/// One step of changing the vinyl `id` to what `data` describes.
pub fn update_vinyl(id: u32, data: &VinylUserData, replies: &Vec<Reply>) -> (step: Step<Vinyl>)
    ensures
        step.deep_view() == update_vinyl_plan(id, data@, replies.deep_view()),
{
    match check_vinyl_by_id(id, replies, 0) {
        Lookup::Ask(statement) => Step::Run(statement),
        Lookup::Missing => Step::Done(Err(ApiError::NotFound)),
        Lookup::Failed => Step::Done(Err(ApiError::Storage(StorageError::QueryFailed))),
        Lookup::Found(existing) => match check_artist_by_id(data.artist_id, replies, 1) {
            Lookup::Ask(statement) => Step::Run(statement),
            Lookup::Missing => Step::Done(Err(ApiError::InvalidArtist)),
            Lookup::Failed => Step::Done(Err(ApiError::Storage(StorageError::QueryFailed))),
            Lookup::Found(artist) => {
                if replies.len() == 2 {
                    return Step::Run(
                        Statement::UpdateVinyl {
                            id,
                            name: data.name.clone(),
                            artist_id: data.artist_id,
                            cover_file_name: data.cover_file_name.clone(),
                        },
                    );
                }
                match &replies[2] {
                    Reply::Completed => Step::Done(
                        Ok(
                            Vinyl {
                                id,
                                name: data.name.clone(),
                                artist_id: data.artist_id,
                                artist_name: artist.name,
                                added_date: existing.added_date,
                                cover_file_name: data.cover_file_name.clone(),
                            },
                        ),
                    ),
                    _ => Step::Done(Err(ApiError::Storage(StorageError::QueryFailed))),
                }
            },
        },
    }
}

/// The rows that a sample of `count` vinyls may hold: what the store sent,
/// cut off after `count` rows.
pub open spec fn at_most(count: u32, rows: Seq<VinylView>) -> Seq<VinylView> {
    rows.take(
        if count <= rows.len() {
            count as int
        } else {
            rows.len() as int
        },
    )
}

/// Drawing vinyls at random. The store picks and orders them; the answer
/// never holds more than `count`.
pub open spec fn shuffle_vinyls_plan(count: u32, replies: Seq<ReplyView>) -> StepView<
    Seq<VinylView>,
> {
    if replies.len() == 0 {
        StepView::Run(StatementView::SampleVinyls { count })
    } else {
        match replies[0] {
            ReplyView::Vinyls(rows) => StepView::Done(Ok(at_most(count, rows))),
            _ => broken(),
        }
    }
}

/// One step of drawing `count` vinyls at random.
pub fn shuffle_vinyls(count: u32, replies: &Vec<Reply>) -> (step: Step<Vec<Vinyl>>)
    ensures
        step.deep_view() == shuffle_vinyls_plan(count, replies.deep_view()),
{
    if replies.len() == 0 {
        return Step::Run(Statement::SampleVinyls { count });
    }
    match &replies[0] {
        Reply::Vinyls(rows) => {
            let limit: usize = if count as u64 <= usize::MAX as u64 {
                count as usize
            } else {
                usize::MAX
            };
            Step::Done(Ok(copy_vinyls(rows, limit)))
        },
        _ => Step::Done(Err(ApiError::Storage(StorageError::QueryFailed))),
    }
}

/// Listing vinyls: one statement, whose rows are the answer.
pub open spec fn listing_plan(statement: StatementView, replies: Seq<ReplyView>) -> StepView<
    Seq<VinylView>,
> {
    if replies.len() == 0 {
        StepView::Run(statement)
    } else {
        match replies[0] {
            ReplyView::Vinyls(rows) => StepView::Done(Ok(rows)),
            _ => broken(),
        }
    }
}

/// Listing every vinyl whose artist exists.
pub open spec fn list_all_vinyls_plan(replies: Seq<ReplyView>) -> StepView<Seq<VinylView>> {
    listing_plan(StatementView::ListVinyls, replies)
}

/// One step of listing every vinyl.
pub fn list_all_vinyls(replies: &Vec<Reply>) -> (step: Step<Vec<Vinyl>>)
    ensures
        step.deep_view() == list_all_vinyls_plan(replies.deep_view()),
{
    if replies.len() == 0 {
        return Step::Run(Statement::ListVinyls);
    }
    match &replies[0] {
        Reply::Vinyls(rows) => {
            let copy = copy_vinyls(rows, rows.len());
            assert(copy.deep_view() =~= rows.deep_view());
            Step::Done(Ok(copy))
        },
        _ => Step::Done(Err(ApiError::Storage(StorageError::QueryFailed))),
    }
}

/// Removing a vinyl. Whether the vinyl exists is not asked: removing one
/// that does not exist succeeds and changes nothing.
pub open spec fn delete_vinyl_plan(id: u32, replies: Seq<ReplyView>) -> StepView<()> {
    if replies.len() == 0 {
        StepView::Run(StatementView::DeleteVinyl { id })
    } else {
        match replies[0] {
            ReplyView::Completed => StepView::Done(Ok(())),
            _ => broken(),
        }
    }
}

/// One step of removing the vinyl `id`.
pub fn delete_vinyl(id: u32, replies: &Vec<Reply>) -> (step: Step<()>)
    ensures
        step.deep_view() == delete_vinyl_plan(id, replies.deep_view()),
{
    if replies.len() == 0 {
        return Step::Run(Statement::DeleteVinyl { id });
    }
    match &replies[0] {
        Reply::Completed => Step::Done(Ok(())),
        _ => Step::Done(Err(ApiError::Storage(StorageError::QueryFailed))),
    }
}

} // verus!
