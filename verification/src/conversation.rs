//! How a handler talks to the store. A handler neither holds a connection
//! nor waits: it is asked, with the replies that the store has given so far,
//! what comes next, and names one statement to run or the outcome of the
//! request. Whoever holds the connection runs the statement, appends the
//! reply and asks again.

use vstd::prelude::*;
use crate::error::{ApiError, StorageError};
use crate::model::{Artist, ArtistView, Vinyl, VinylRow, VinylRowView};
use crate::statement::{Reply, ReplyView, Statement, StatementView};

verus! {

/// What a handler wants next.
#[derive(Debug, PartialEq, Eq)]
pub enum Step<T> {
    /// Run this statement and come back with the reply appended.
    Run(Statement),
    /// The request is over, with this outcome.
    Done(Result<T, ApiError>),
}

/// What a [`Step`] is to a contract.
pub enum StepView<V> {
    Run(StatementView),
    Done(Result<V, ApiError>),
}

impl<T: DeepView> DeepView for Step<T> {
    type V = StepView<T::V>;

    open spec fn deep_view(&self) -> StepView<T::V> {
        match *self {
            Step::Run(statement) => StepView::Run(statement@),
            Step::Done(Ok(value)) => StepView::Done(Ok(value.deep_view())),
            Step::Done(Err(error)) => StepView::Done(Err(error)),
        }
    }
}

/// The outcome of a request whose statement the store did not carry out, or
/// answered with a reply of the wrong kind.
pub open spec fn broken<V>() -> StepView<V> {
    StepView::Done(Err(ApiError::Storage(StorageError::QueryFailed)))
}

/// The outcome of a request that fails with `error`.
pub open spec fn refused<V>(error: ApiError) -> StepView<V> {
    StepView::Done(Err(error))
}

/// What a lookup that a handler depends on has come to.
#[derive(Debug, PartialEq, Eq)]
pub enum Lookup<T> {
    /// The store has not been asked yet: run this statement.
    Ask(Statement),
    /// The row exists.
    Found(T),
    /// No such row exists.
    Missing,
    /// The store did not answer the question.
    Failed,
}

/// What a [`Lookup`] is to a contract.
pub enum LookupView<V> {
    Ask(StatementView),
    Found(V),
    Missing,
    Failed,
}

impl<T: DeepView> DeepView for Lookup<T> {
    type V = LookupView<T::V>;

    open spec fn deep_view(&self) -> LookupView<T::V> {
        match *self {
            Lookup::Ask(statement) => LookupView::Ask(statement@),
            Lookup::Found(row) => LookupView::Found(row.deep_view()),
            Lookup::Missing => LookupView::Missing,
            Lookup::Failed => LookupView::Failed,
        }
    }
}

/// The lookup of the artist `id`, where the reply to it is the one at
/// position `at` of the conversation.
pub open spec fn artist_lookup(id: u32, replies: Seq<ReplyView>, at: int) -> LookupView<
    ArtistView,
> {
    if replies.len() <= at {
        LookupView::Ask(StatementView::FindArtistById { id })
    } else {
        match replies[at] {
            ReplyView::Artist(Some(artist)) => LookupView::Found(artist),
            ReplyView::Artist(None) => LookupView::Missing,
            _ => LookupView::Failed,
        }
    }
}

/// The lookup of the row of the vinyl `id`, where the reply to it is the one
/// at position `at` of the conversation.
pub open spec fn vinyl_lookup(id: u32, replies: Seq<ReplyView>, at: int) -> LookupView<
    VinylRowView,
> {
    if replies.len() <= at {
        LookupView::Ask(StatementView::FindVinylById { id })
    } else {
        match replies[at] {
            ReplyView::Row(Some(row)) => LookupView::Found(row),
            ReplyView::Row(None) => LookupView::Missing,
            _ => LookupView::Failed,
        }
    }
}

/// Whether the artist `id` exists: asks the store where reply `at` is still
/// to come, and reads the reply where it is there.
pub fn check_artist_by_id(id: u32, replies: &Vec<Reply>, at: usize) -> (lookup: Lookup<Artist>)
    ensures
        lookup.deep_view() == artist_lookup(id, replies.deep_view(), at as int),
{
    if replies.len() <= at {
        Lookup::Ask(Statement::FindArtistById { id })
    } else {
        match &replies[at] {
            Reply::Artist(Some(artist)) => Lookup::Found(artist.clone()),
            Reply::Artist(None) => Lookup::Missing,
            _ => Lookup::Failed,
        }
    }
}

/// Whether a vinyl has the id `id`, in the way of [`check_artist_by_id`].
/// The vinyl is found whether or not its artist exists.
pub fn check_vinyl_by_id(id: u32, replies: &Vec<Reply>, at: usize) -> (lookup: Lookup<VinylRow>)
    ensures
        lookup.deep_view() == vinyl_lookup(id, replies.deep_view(), at as int),
{
    if replies.len() <= at {
        Lookup::Ask(Statement::FindVinylById { id })
    } else {
        match &replies[at] {
            Reply::Row(Some(row)) => Lookup::Found(row.clone()),
            Reply::Row(None) => Lookup::Missing,
            _ => Lookup::Failed,
        }
    }
}

/// A copy of `rows`.
pub fn copy_artists(rows: &Vec<Artist>) -> (copy: Vec<Artist>)
    ensures
        copy.deep_view() == rows.deep_view(),
{
    let mut copy: Vec<Artist> = Vec::new();
    let mut i: usize = 0;
    while i < rows.len()
        invariant
            i <= rows.len(),
            copy.len() == i,
            forall|j: int| 0 <= j < i ==> copy[j] == rows[j],
        decreases rows.len() - i,
    {
        copy.push(rows[i].clone());
        i += 1;
    }
    assert(copy.deep_view() =~= rows.deep_view());
    copy
}

/// A copy of the first `limit` of `rows`, or of all of them where they are
/// fewer.
pub fn copy_vinyls(rows: &Vec<Vinyl>, limit: usize) -> (copy: Vec<Vinyl>)
    ensures
        copy.deep_view() == rows.deep_view().take(
            if limit <= rows.len() {
                limit as int
            } else {
                rows.len() as int
            },
        ),
{
    let end: usize = if limit <= rows.len() {
        limit
    } else {
        rows.len()
    };
    let mut copy: Vec<Vinyl> = Vec::new();
    let mut i: usize = 0;
    while i < end
        invariant
            i <= end <= rows.len(),
            copy.len() == i,
            forall|j: int| 0 <= j < i ==> copy[j] == rows[j],
        decreases end - i,
    {
        copy.push(rows[i].clone());
        i += 1;
    }
    assert(copy.deep_view() =~= rows.deep_view().take(end as int));
    copy
}

} // verus!
