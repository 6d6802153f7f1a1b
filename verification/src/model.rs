//! The catalog's entities: artists, the vinyls that belong to them, and what
//! a client sends to describe a vinyl.

use vstd::prelude::*;

verus! {

/// An artist of the catalog.
#[derive(Debug, PartialEq, Eq)]
pub struct Artist {
    /// Given by the store when the artist is created.
    pub id: u32,
    pub name: String,
}

/// What an [`Artist`] is to a contract.
pub struct ArtistView {
    pub id: u32,
    pub name: Seq<char>,
}

impl View for Artist {
    type V = ArtistView;

    open spec fn view(&self) -> ArtistView {
        ArtistView { id: self.id, name: self.name@ }
    }
}

impl DeepView for Artist {
    type V = ArtistView;

    open spec fn deep_view(&self) -> ArtistView {
        self@
    }
}

impl Clone for Artist {
    fn clone(&self) -> (copy: Artist)
        ensures
            copy == *self,
    {
        Artist { id: self.id, name: self.name.clone() }
    }
}

/// A vinyl of the catalog, as a reader sees it: the row of the vinyl together
/// with the name of the artist that it refers to.
#[derive(Debug, PartialEq, Eq)]
pub struct Vinyl {
    /// Given by the store when the vinyl is created.
    pub id: u32,
    pub name: String,
    /// The id of the artist that the vinyl belongs to.
    pub artist_id: u32,
    pub artist_name: String,
    /// When the vinyl was created, in seconds since the Unix epoch.
    pub added_date: u32,
    /// The name of the cover image in the image directory.
    pub cover_file_name: String,
}

/// What a [`Vinyl`] is to a contract.
pub struct VinylView {
    pub id: u32,
    pub name: Seq<char>,
    pub artist_id: u32,
    pub artist_name: Seq<char>,
    pub added_date: u32,
    pub cover_file_name: Seq<char>,
}

impl View for Vinyl {
    type V = VinylView;

    open spec fn view(&self) -> VinylView {
        VinylView {
            id: self.id,
            name: self.name@,
            artist_id: self.artist_id,
            artist_name: self.artist_name@,
            added_date: self.added_date,
            cover_file_name: self.cover_file_name@,
        }
    }
}

impl DeepView for Vinyl {
    type V = VinylView;

    open spec fn deep_view(&self) -> VinylView {
        self@
    }
}

impl Clone for Vinyl {
    fn clone(&self) -> (copy: Vinyl)
        ensures
            copy == *self,
    {
        Vinyl {
            id: self.id,
            name: self.name.clone(),
            artist_id: self.artist_id,
            artist_name: self.artist_name.clone(),
            added_date: self.added_date,
            cover_file_name: self.cover_file_name.clone(),
        }
    }
}

/// A row of the table of vinyls: a vinyl without the name of its artist,
/// which is not stored with it.
#[derive(Debug, PartialEq, Eq)]
pub struct VinylRow {
    pub id: u32,
    pub name: String,
    pub artist_id: u32,
    pub added_date: u32,
    pub cover_file_name: String,
}

/// What a [`VinylRow`] is to a contract.
pub struct VinylRowView {
    pub id: u32,
    pub name: Seq<char>,
    pub artist_id: u32,
    pub added_date: u32,
    pub cover_file_name: Seq<char>,
}

impl View for VinylRow {
    type V = VinylRowView;

    open spec fn view(&self) -> VinylRowView {
        VinylRowView {
            id: self.id,
            name: self.name@,
            artist_id: self.artist_id,
            added_date: self.added_date,
            cover_file_name: self.cover_file_name@,
        }
    }
}

impl DeepView for VinylRow {
    type V = VinylRowView;

    open spec fn deep_view(&self) -> VinylRowView {
        self@
    }
}

impl Clone for VinylRow {
    fn clone(&self) -> (copy: VinylRow)
        ensures
            copy == *self,
    {
        VinylRow {
            id: self.id,
            name: self.name.clone(),
            artist_id: self.artist_id,
            added_date: self.added_date,
            cover_file_name: self.cover_file_name.clone(),
        }
    }
}

/// What a client sends to create or to change a vinyl.
#[derive(Debug, PartialEq, Eq)]
pub struct VinylUserData {
    pub name: String,
    pub artist_id: u32,
    /// The artist's name as the client shows it. It is not stored.
    pub artist_name: String,
    pub cover_file_name: String,
}

/// What a [`VinylUserData`] is to a contract.
pub struct VinylUserDataView {
    pub name: Seq<char>,
    pub artist_id: u32,
    pub artist_name: Seq<char>,
    pub cover_file_name: Seq<char>,
}

impl View for VinylUserData {
    type V = VinylUserDataView;

    open spec fn view(&self) -> VinylUserDataView {
        VinylUserDataView {
            name: self.name@,
            artist_id: self.artist_id,
            artist_name: self.artist_name@,
            cover_file_name: self.cover_file_name@,
        }
    }
}

impl Clone for VinylUserData {
    fn clone(&self) -> (copy: VinylUserData)
        ensures
            copy == *self,
    {
        VinylUserData {
            name: self.name.clone(),
            artist_id: self.artist_id,
            artist_name: self.artist_name.clone(),
            cover_file_name: self.cover_file_name.clone(),
        }
    }
}

} // verus!
