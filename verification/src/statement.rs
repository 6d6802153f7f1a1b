//! The statements that the handlers send to the relational store, and what
//! the store answers. A statement's text is fixed; whatever a request
//! supplies travels beside it as a bound value.

use vstd::prelude::*;
use crate::model::{Artist, ArtistView, Vinyl, VinylRow, VinylRowView, VinylView};

verus! {

pub const SELECT_ARTISTS: &'static str = "SELECT id, name FROM artists";

pub const SELECT_ARTIST_BY_NAME: &'static str = "SELECT id, name FROM artists WHERE name = :name";

pub const SELECT_ARTIST_BY_ID: &'static str = "SELECT id, name FROM artists WHERE id = :id";

pub const INSERT_ARTIST: &'static str = "INSERT INTO artists (name) VALUES (:name)";

pub const UPDATE_ARTIST: &'static str = "UPDATE artists SET name = :name WHERE id = :id";

pub const DELETE_ARTIST: &'static str = "DELETE FROM artists WHERE id = :id";

pub const SELECT_VINYLS: &'static str =
    "SELECT vinyls.id, vinyls.name, vinyls.artist_id, artists.name AS artist_name, vinyls.added_date, vinyls.cover_file_name FROM vinyls JOIN artists ON vinyls.artist_id = artists.id";

pub const SELECT_VINYLS_OF_ARTIST: &'static str =
    "SELECT vinyls.id, vinyls.name, vinyls.artist_id, artists.name AS artist_name, vinyls.added_date, vinyls.cover_file_name FROM vinyls JOIN artists ON vinyls.artist_id = artists.id WHERE vinyls.artist_id = :artist_id";

pub const SELECT_VINYL_BY_NAME: &'static str =
    "SELECT vinyls.id, vinyls.name, vinyls.artist_id, artists.name AS artist_name, vinyls.added_date, vinyls.cover_file_name FROM vinyls JOIN artists ON vinyls.artist_id = artists.id WHERE vinyls.name = :name";

pub const SELECT_VINYL_BY_ID: &'static str =
    "SELECT id, name, artist_id, added_date, cover_file_name FROM vinyls WHERE id = :id";

pub const INSERT_VINYL: &'static str =
    "INSERT INTO vinyls (name, artist_id, added_date, cover_file_name) VALUES (:name, :artist_id, :added_date, :cover_file_name)";

pub const UPDATE_VINYL: &'static str =
    "UPDATE vinyls SET name = :name, artist_id = :artist_id, cover_file_name = :cover_file_name WHERE id = :id";

pub const DELETE_VINYL: &'static str = "DELETE FROM vinyls WHERE id = :id";

pub const SELECT_RANDOM_VINYLS: &'static str =
    "SELECT vinyls.id, vinyls.name, vinyls.artist_id, artists.name AS artist_name, vinyls.added_date, vinyls.cover_file_name FROM vinyls JOIN artists ON vinyls.artist_id = artists.id ORDER BY RAND() LIMIT :count";

/// One operation on the store.
#[derive(Debug, PartialEq, Eq)]
pub enum Statement {
    /// Every artist, in the store's order.
    ListArtists,
    /// The first artist called `name`.
    FindArtistByName { name: String },
    /// The artist with this id.
    FindArtistById { id: u32 },
    /// A new artist called `name`; the store chooses the id.
    InsertArtist { name: String },
    /// Calls the artist with this id `name` from now on.
    RenameArtist { id: u32, name: String },
    /// Removes the artist with this id, and nothing else.
    DeleteArtist { id: u32 },
    /// Every vinyl whose artist exists, with the artist's name.
    ListVinyls,
    /// The vinyls of [`Statement::ListVinyls`] that belong to this artist.
    ListVinylsOfArtist { artist_id: u32 },
    /// The first vinyl of [`Statement::ListVinyls`] called `name`.
    FindVinylByName { name: String },
    /// The row of the table of vinyls with this id, whether or not its
    /// artist exists.
    FindVinylById { id: u32 },
    /// A new vinyl; the store chooses the id.
    InsertVinyl { name: String, artist_id: u32, added_date: u32, cover_file_name: String },
    /// Gives the vinyl with this id a new name, artist and cover. The date
    /// on which it was added stays.
    UpdateVinyl { id: u32, name: String, artist_id: u32, cover_file_name: String },
    /// Removes the vinyl with this id.
    DeleteVinyl { id: u32 },
    /// Up to `count` vinyls of [`Statement::ListVinyls`], none of them
    /// twice, picked and ordered by the store.
    SampleVinyls { count: u32 },
}

/// What a [`Statement`] is to a contract.
pub enum StatementView {
    ListArtists,
    FindArtistByName { name: Seq<char> },
    FindArtistById { id: u32 },
    InsertArtist { name: Seq<char> },
    RenameArtist { id: u32, name: Seq<char> },
    DeleteArtist { id: u32 },
    ListVinyls,
    ListVinylsOfArtist { artist_id: u32 },
    FindVinylByName { name: Seq<char> },
    FindVinylById { id: u32 },
    InsertVinyl { name: Seq<char>, artist_id: u32, added_date: u32, cover_file_name: Seq<char> },
    UpdateVinyl { id: u32, name: Seq<char>, artist_id: u32, cover_file_name: Seq<char> },
    DeleteVinyl { id: u32 },
    SampleVinyls { count: u32 },
}

impl View for Statement {
    type V = StatementView;

    open spec fn view(&self) -> StatementView {
        match *self {
            Statement::ListArtists => StatementView::ListArtists,
            Statement::FindArtistByName { name } => StatementView::FindArtistByName { name: name@ },
            Statement::FindArtistById { id } => StatementView::FindArtistById { id },
            Statement::InsertArtist { name } => StatementView::InsertArtist { name: name@ },
            Statement::RenameArtist { id, name } => StatementView::RenameArtist { id, name: name@ },
            Statement::DeleteArtist { id } => StatementView::DeleteArtist { id },
            Statement::ListVinyls => StatementView::ListVinyls,
            Statement::ListVinylsOfArtist { artist_id } => StatementView::ListVinylsOfArtist {
                artist_id,
            },
            Statement::FindVinylByName { name } => StatementView::FindVinylByName { name: name@ },
            Statement::FindVinylById { id } => StatementView::FindVinylById { id },
            Statement::InsertVinyl {
                name,
                artist_id,
                added_date,
                cover_file_name,
            } => StatementView::InsertVinyl {
                name: name@,
                artist_id,
                added_date,
                cover_file_name: cover_file_name@,
            },
            Statement::UpdateVinyl {
                id,
                name,
                artist_id,
                cover_file_name,
            } => StatementView::UpdateVinyl {
                id,
                name: name@,
                artist_id,
                cover_file_name: cover_file_name@,
            },
            Statement::DeleteVinyl { id } => StatementView::DeleteVinyl { id },
            Statement::SampleVinyls { count } => StatementView::SampleVinyls { count },
        }
    }
}

/// Whether a statement leaves the store as it is.
pub open spec fn reads_only(statement: StatementView) -> bool {
    statement is ListArtists || statement is FindArtistByName || statement is FindArtistById
        || statement is ListVinyls || statement is ListVinylsOfArtist
        || statement is FindVinylByName || statement is FindVinylById
        || statement is SampleVinyls
}

/// The text of a statement. It depends on the kind of statement alone, never
/// on what the statement carries.
pub open spec fn text_of(statement: StatementView) -> Seq<char> {
    match statement {
        StatementView::ListArtists => SELECT_ARTISTS@,
        StatementView::FindArtistByName { .. } => SELECT_ARTIST_BY_NAME@,
        StatementView::FindArtistById { .. } => SELECT_ARTIST_BY_ID@,
        StatementView::InsertArtist { .. } => INSERT_ARTIST@,
        StatementView::RenameArtist { .. } => UPDATE_ARTIST@,
        StatementView::DeleteArtist { .. } => DELETE_ARTIST@,
        StatementView::ListVinyls => SELECT_VINYLS@,
        StatementView::ListVinylsOfArtist { .. } => SELECT_VINYLS_OF_ARTIST@,
        StatementView::FindVinylByName { .. } => SELECT_VINYL_BY_NAME@,
        StatementView::FindVinylById { .. } => SELECT_VINYL_BY_ID@,
        StatementView::InsertVinyl { .. } => INSERT_VINYL@,
        StatementView::UpdateVinyl { .. } => UPDATE_VINYL@,
        StatementView::DeleteVinyl { .. } => DELETE_VINYL@,
        StatementView::SampleVinyls { .. } => SELECT_RANDOM_VINYLS@,
    }
}

/// A value bound to a named placeholder of a statement's text.
#[derive(Debug, PartialEq, Eq)]
pub enum Param {
    Number(u32),
    Text(String),
}

/// What a [`Param`] is to a contract.
pub enum ParamView {
    Number(u32),
    Text(Seq<char>),
}

impl View for Param {
    type V = ParamView;

    open spec fn view(&self) -> ParamView {
        match *self {
            Param::Number(n) => ParamView::Number(n),
            Param::Text(s) => ParamView::Text(s@),
        }
    }
}

/// A placeholder's name, without the colon, and the value bound to it.
#[derive(Debug, PartialEq, Eq)]
pub struct Binding {
    pub name: &'static str,
    pub value: Param,
}

/// What a [`Binding`] is to a contract.
pub struct BindingView {
    pub name: Seq<char>,
    pub value: ParamView,
}

impl View for Binding {
    type V = BindingView;

    open spec fn view(&self) -> BindingView {
        BindingView { name: self.name@, value: self.value@ }
    }
}

impl DeepView for Binding {
    type V = BindingView;

    open spec fn deep_view(&self) -> BindingView {
        self@
    }
}

/// A number bound to the placeholder `name`.
pub open spec fn number(name: &'static str, value: u32) -> BindingView {
    BindingView { name: name@, value: ParamView::Number(value) }
}

/// A text bound to the placeholder `name`.
pub open spec fn text(name: &'static str, value: Seq<char>) -> BindingView {
    BindingView { name: name@, value: ParamView::Text(value) }
}

/// The values that a statement binds, in the order in which its text names
/// their placeholders.
pub open spec fn bound_by(statement: StatementView) -> Seq<BindingView> {
    match statement {
        StatementView::ListArtists => seq![],
        StatementView::FindArtistByName { name } => seq![text("name", name)],
        StatementView::FindArtistById { id } => seq![number("id", id)],
        StatementView::InsertArtist { name } => seq![text("name", name)],
        StatementView::RenameArtist { id, name } => seq![text("name", name), number("id", id)],
        StatementView::DeleteArtist { id } => seq![number("id", id)],
        StatementView::ListVinyls => seq![],
        StatementView::ListVinylsOfArtist { artist_id } => seq![number("artist_id", artist_id)],
        StatementView::FindVinylByName { name } => seq![text("name", name)],
        StatementView::FindVinylById { id } => seq![number("id", id)],
        StatementView::InsertVinyl { name, artist_id, added_date, cover_file_name } => seq![
            text("name", name),
            number("artist_id", artist_id),
            number("added_date", added_date),
            text("cover_file_name", cover_file_name),
        ],
        StatementView::UpdateVinyl { id, name, artist_id, cover_file_name } => seq![
            text("name", name),
            number("artist_id", artist_id),
            text("cover_file_name", cover_file_name),
            number("id", id),
        ],
        StatementView::DeleteVinyl { id } => seq![number("id", id)],
        StatementView::SampleVinyls { count } => seq![number("count", count)],
    }
}

fn bind_number(name: &'static str, value: u32) -> (binding: Binding)
    ensures
        binding@ == number(name, value),
{
    Binding { name, value: Param::Number(value) }
}

fn bind_text(name: &'static str, value: &String) -> (binding: Binding)
    ensures
        binding@ == text(name, value@),
{
    Binding { name, value: Param::Text(value.clone()) }
}

impl Statement {
    /// The SQL text to prepare, with a named placeholder wherever the
    /// statement carries a value.
    pub fn sql(&self) -> (sql: &'static str)
        ensures
            sql@ == text_of(self@),
    {
        match self {
            Statement::ListArtists => SELECT_ARTISTS,
            Statement::FindArtistByName { .. } => SELECT_ARTIST_BY_NAME,
            Statement::FindArtistById { .. } => SELECT_ARTIST_BY_ID,
            Statement::InsertArtist { .. } => INSERT_ARTIST,
            Statement::RenameArtist { .. } => UPDATE_ARTIST,
            Statement::DeleteArtist { .. } => DELETE_ARTIST,
            Statement::ListVinyls => SELECT_VINYLS,
            Statement::ListVinylsOfArtist { .. } => SELECT_VINYLS_OF_ARTIST,
            Statement::FindVinylByName { .. } => SELECT_VINYL_BY_NAME,
            Statement::FindVinylById { .. } => SELECT_VINYL_BY_ID,
            Statement::InsertVinyl { .. } => INSERT_VINYL,
            Statement::UpdateVinyl { .. } => UPDATE_VINYL,
            Statement::DeleteVinyl { .. } => DELETE_VINYL,
            Statement::SampleVinyls { .. } => SELECT_RANDOM_VINYLS,
        }
    }

    /// The values to bind to the placeholders of [`Statement::sql`].
    pub fn bindings(&self) -> (bindings: Vec<Binding>)
        ensures
            bindings.deep_view() == bound_by(self@),
    {
        let mut bindings: Vec<Binding> = Vec::new();
        match self {
            Statement::ListArtists => {},
            Statement::FindArtistByName { name } => {
                bindings.push(bind_text("name", name));
            },
            Statement::FindArtistById { id } => {
                bindings.push(bind_number("id", *id));
            },
            Statement::InsertArtist { name } => {
                bindings.push(bind_text("name", name));
            },
            Statement::RenameArtist { id, name } => {
                bindings.push(bind_text("name", name));
                bindings.push(bind_number("id", *id));
            },
            Statement::DeleteArtist { id } => {
                bindings.push(bind_number("id", *id));
            },
            Statement::ListVinyls => {},
            Statement::ListVinylsOfArtist { artist_id } => {
                bindings.push(bind_number("artist_id", *artist_id));
            },
            Statement::FindVinylByName { name } => {
                bindings.push(bind_text("name", name));
            },
            Statement::FindVinylById { id } => {
                bindings.push(bind_number("id", *id));
            },
            Statement::InsertVinyl { name, artist_id, added_date, cover_file_name } => {
                bindings.push(bind_text("name", name));
                bindings.push(bind_number("artist_id", *artist_id));
                bindings.push(bind_number("added_date", *added_date));
                bindings.push(bind_text("cover_file_name", cover_file_name));
            },
            Statement::UpdateVinyl { id, name, artist_id, cover_file_name } => {
                bindings.push(bind_text("name", name));
                bindings.push(bind_number("artist_id", *artist_id));
                bindings.push(bind_text("cover_file_name", cover_file_name));
                bindings.push(bind_number("id", *id));
            },
            Statement::DeleteVinyl { id } => {
                bindings.push(bind_number("id", *id));
            },
            Statement::SampleVinyls { count } => {
                bindings.push(bind_number("count", *count));
            },
        }
        assert(bindings.deep_view() =~= bound_by(self@));
        bindings
    }
}

/// What the store answers to a statement.
#[derive(Debug, PartialEq, Eq)]
pub enum Reply {
    /// The rows of a list of artists.
    Artists(Vec<Artist>),
    /// The artist that was looked for, if there is one.
    Artist(Option<Artist>),
    /// The rows of a list of vinyls.
    Vinyls(Vec<Vinyl>),
    /// The vinyl that was looked for, if there is one.
    Vinyl(Option<Vinyl>),
    /// The row of vinyls that was looked for, if there is one.
    Row(Option<VinylRow>),
    /// A row was inserted under this id.
    Inserted(u32),
    /// A change or a removal was carried out, on a row or on none.
    Completed,
    /// The store did not carry out the statement, and is as it was.
    Failed,
}

/// What a [`Reply`] is to a contract.
pub enum ReplyView {
    Artists(Seq<ArtistView>),
    Artist(Option<ArtistView>),
    Vinyls(Seq<VinylView>),
    Vinyl(Option<VinylView>),
    Row(Option<VinylRowView>),
    Inserted(u32),
    Completed,
    Failed,
}

impl View for Reply {
    type V = ReplyView;

    open spec fn view(&self) -> ReplyView {
        match *self {
            Reply::Artists(rows) => ReplyView::Artists(rows.deep_view()),
            Reply::Artist(row) => ReplyView::Artist(row.deep_view()),
            Reply::Vinyls(rows) => ReplyView::Vinyls(rows.deep_view()),
            Reply::Vinyl(row) => ReplyView::Vinyl(row.deep_view()),
            Reply::Row(row) => ReplyView::Row(row.deep_view()),
            Reply::Inserted(id) => ReplyView::Inserted(id),
            Reply::Completed => ReplyView::Completed,
            Reply::Failed => ReplyView::Failed,
        }
    }
}

impl DeepView for Reply {
    type V = ReplyView;

    open spec fn deep_view(&self) -> ReplyView {
        self@
    }
}

} // verus!
