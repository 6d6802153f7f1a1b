//! A store that keeps the two tables in memory and answers every statement
//! as the catalog permits. It takes the place of the relational store where
//! none is at hand.

use vstd::prelude::*;
use crate::catalog::{
    apply,
    artist_by_id,
    artist_by_name,
    drawn_from,
    first_where,
    is_sample,
    joined,
    permits,
    renamed,
    revised,
    shown,
    Tables,
};
use crate::conversation::{copy_artists, copy_vinyls};
use crate::lemmas::{first_where_grows, first_where_settles, statement_keeps_ids_unique};
use crate::model::{Artist, ArtistView, Vinyl, VinylRow, VinylRowView, VinylView};
use crate::statement::{Reply, ReplyView, Statement, StatementView};
use crate::vinyls::at_most;

verus! {

/// The two tables, and the ids that the next rows will get.
pub struct MemoryStore {
    artists: Vec<Artist>,
    vinyls: Vec<VinylRow>,
    next_artist_id: u32,
    next_vinyl_id: u32,
}

impl View for MemoryStore {
    type V = Tables;

    closed spec fn view(&self) -> Tables {
        Tables { artists: self.artists.deep_view(), vinyls: self.vinyls.deep_view() }
    }
}

fn find_artist_by_id(artists: &Vec<Artist>, id: u32) -> (found: Option<Artist>)
    ensures
        found.deep_view() == artist_by_id(artists.deep_view(), id),
{
    let ghost rows = artists.deep_view();
    let ghost wanted = |artist: ArtistView| artist.id == id;
    let mut i: usize = 0;
    while i < artists.len()
        invariant
            i <= artists.len(),
            rows == artists.deep_view(),
            wanted == |artist: ArtistView| artist.id == id,
            first_where(rows.take(i as int), wanted) is None,
        decreases artists.len() - i,
    {
        proof {
            first_where_grows(rows, wanted, i as int);
        }
        if artists[i].id == id {
            proof {
                first_where_settles(rows, wanted, i + 1);
            }
            return Some(artists[i].clone());
        }
        i += 1;
    }
    proof {
        assert(rows.take(rows.len() as int) =~= rows);
    }
    None
}

fn find_artist_by_name(artists: &Vec<Artist>, name: &String) -> (found: Option<Artist>)
    ensures
        found.deep_view() == artist_by_name(artists.deep_view(), name@),
{
    let ghost rows = artists.deep_view();
    let ghost wanted = |artist: ArtistView| artist.name == name@;
    let mut i: usize = 0;
    while i < artists.len()
        invariant
            i <= artists.len(),
            rows == artists.deep_view(),
            wanted == |artist: ArtistView| artist.name == name@,
            first_where(rows.take(i as int), wanted) is None,
        decreases artists.len() - i,
    {
        proof {
            first_where_grows(rows, wanted, i as int);
        }
        if artists[i].name == *name {
            proof {
                first_where_settles(rows, wanted, i + 1);
            }
            return Some(artists[i].clone());
        }
        i += 1;
    }
    proof {
        assert(rows.take(rows.len() as int) =~= rows);
    }
    None
}

fn find_row_by_id(vinyls: &Vec<VinylRow>, id: u32) -> (found: Option<VinylRow>)
    ensures
        found.deep_view() == first_where(vinyls.deep_view(), |row: VinylRowView| row.id == id),
{
    let ghost rows = vinyls.deep_view();
    let ghost wanted = |row: VinylRowView| row.id == id;
    let mut i: usize = 0;
    while i < vinyls.len()
        invariant
            i <= vinyls.len(),
            rows == vinyls.deep_view(),
            wanted == |row: VinylRowView| row.id == id,
            first_where(rows.take(i as int), wanted) is None,
        decreases vinyls.len() - i,
    {
        proof {
            first_where_grows(rows, wanted, i as int);
        }
        if vinyls[i].id == id {
            proof {
                first_where_settles(rows, wanted, i + 1);
            }
            return Some(vinyls[i].clone());
        }
        i += 1;
    }
    proof {
        assert(rows.take(rows.len() as int) =~= rows);
    }
    None
}

fn find_vinyl_by_name(listed: &Vec<Vinyl>, name: &String) -> (found: Option<Vinyl>)
    ensures
        found.deep_view() == first_where(
            listed.deep_view(),
            |vinyl: VinylView| vinyl.name == name@,
        ),
{
    let ghost rows = listed.deep_view();
    let ghost wanted = |vinyl: VinylView| vinyl.name == name@;
    let mut i: usize = 0;
    while i < listed.len()
        invariant
            i <= listed.len(),
            rows == listed.deep_view(),
            wanted == |vinyl: VinylView| vinyl.name == name@,
            first_where(rows.take(i as int), wanted) is None,
        decreases listed.len() - i,
    {
        proof {
            first_where_grows(rows, wanted, i as int);
        }
        if listed[i].name == *name {
            proof {
                first_where_settles(rows, wanted, i + 1);
            }
            return Some(listed[i].clone());
        }
        i += 1;
    }
    proof {
        assert(rows.take(rows.len() as int) =~= rows);
    }
    None
}

fn vinyls_of_artist(listed: &Vec<Vinyl>, artist_id: u32) -> (kept: Vec<Vinyl>)
    ensures
        kept.deep_view() == listed.deep_view().filter(
            |vinyl: VinylView| vinyl.artist_id == artist_id,
        ),
{
    let ghost rows = listed.deep_view();
    let ghost wanted = |vinyl: VinylView| vinyl.artist_id == artist_id;
    let mut kept: Vec<Vinyl> = Vec::new();
    let mut i: usize = 0;
    proof {
        reveal(Seq::filter);
        assert(kept.deep_view() =~= rows.take(0).filter(wanted));
    }
    while i < listed.len()
        invariant
            i <= listed.len(),
            rows == listed.deep_view(),
            wanted == |vinyl: VinylView| vinyl.artist_id == artist_id,
            kept.deep_view() == rows.take(i as int).filter(wanted),
        decreases listed.len() - i,
    {
        let ghost before = kept.deep_view();
        if listed[i].artist_id == artist_id {
            kept.push(listed[i].clone());
            assert(kept.deep_view() =~= before.push(rows[i as int]));
        }
        proof {
            reveal(Seq::filter);
            assert(rows.take(i + 1).drop_last() =~= rows.take(i as int));
        }
        i += 1;
    }
    proof {
        assert(rows.take(rows.len() as int) =~= rows);
    }
    kept
}

impl MemoryStore {
    /// Every row has an id below the one that the next row will get, and no
    /// two rows of a table share an id.
    pub closed spec fn well_formed(&self) -> bool {
        &&& self@.ids_are_unique()
        &&& 1 <= self.next_artist_id
        &&& 1 <= self.next_vinyl_id
        &&& forall|i: int|
            0 <= i < self.artists.len() ==> (#[trigger] self.artists[i]).id < self.next_artist_id
        &&& forall|i: int|
            0 <= i < self.vinyls.len() ==> (#[trigger] self.vinyls[i]).id < self.next_vinyl_id
    }

    /// The id that the next artist will get, if it is not the last number.
    pub closed spec fn next_artist_id(&self) -> u32 {
        self.next_artist_id
    }

    /// The id that the next vinyl will get, if it is not the last number.
    pub closed spec fn next_vinyl_id(&self) -> u32 {
        self.next_vinyl_id
    }

    /// The reply that this store gives to `statement`. It fails in one case
    /// alone: an insertion for which the numbers are used up. A draw takes
    /// the vinyls from the top of the list.
    pub open spec fn answer(&self, statement: StatementView) -> ReplyView {
        match statement {
            StatementView::ListArtists => ReplyView::Artists(self@.artists),
            StatementView::FindArtistByName { name } => ReplyView::Artist(
                artist_by_name(self@.artists, name),
            ),
            StatementView::FindArtistById { id } => ReplyView::Artist(
                artist_by_id(self@.artists, id),
            ),
            StatementView::InsertArtist { .. } => if self.next_artist_id() == u32::MAX {
                ReplyView::Failed
            } else {
                ReplyView::Inserted(self.next_artist_id())
            },
            StatementView::RenameArtist { .. } => ReplyView::Completed,
            StatementView::DeleteArtist { .. } => ReplyView::Completed,
            StatementView::ListVinyls => ReplyView::Vinyls(self@.listed()),
            StatementView::ListVinylsOfArtist { artist_id } => ReplyView::Vinyls(
                self@.vinyls_of(artist_id),
            ),
            StatementView::FindVinylByName { name } => ReplyView::Vinyl(self@.vinyl_by_name(name)),
            StatementView::FindVinylById { id } => ReplyView::Row(self@.vinyl_row(id)),
            StatementView::InsertVinyl { .. } => if self.next_vinyl_id() == u32::MAX {
                ReplyView::Failed
            } else {
                ReplyView::Inserted(self.next_vinyl_id())
            },
            StatementView::UpdateVinyl { .. } => ReplyView::Completed,
            StatementView::DeleteVinyl { .. } => ReplyView::Completed,
            StatementView::SampleVinyls { count } => ReplyView::Vinyls(
                at_most(count, self@.listed()),
            ),
        }
    }

    /// The ids that the next rows will get once `statement` has been
    /// answered: an insertion that succeeds uses up one number of its
    /// table, and nothing else uses any.
    pub open spec fn counts_on(&self, before: &MemoryStore, statement: StatementView) -> bool {
        &&& self.next_artist_id() == if statement is InsertArtist && before.next_artist_id()
            < u32::MAX {
            (before.next_artist_id() + 1) as u32
        } else {
            before.next_artist_id()
        }
        &&& self.next_vinyl_id() == if statement is InsertVinyl && before.next_vinyl_id()
            < u32::MAX {
            (before.next_vinyl_id() + 1) as u32
        } else {
            before.next_vinyl_id()
        }
    }

    /// A store with no artists and no vinyls, whose first rows will get the
    /// id 1.
    pub fn new() -> (store: MemoryStore)
        ensures
            store.well_formed(),
            store@ == (Tables { artists: Seq::empty(), vinyls: Seq::empty() }),
            store.next_artist_id() == 1,
            store.next_vinyl_id() == 1,
    {
        let store = MemoryStore {
            artists: Vec::new(),
            vinyls: Vec::new(),
            next_artist_id: 1,
            next_vinyl_id: 1,
        };
        assert(store@.artists =~= Seq::empty());
        assert(store@.vinyls =~= Seq::empty());
        store
    }

    fn listed(&self) -> (listed: Vec<Vinyl>)
        ensures
            listed.deep_view() == self@.listed(),
    {
        let ghost artists = self.artists.deep_view();
        let ghost rows = self.vinyls.deep_view();
        let mut listed: Vec<Vinyl> = Vec::new();
        let mut i: usize = 0;
        assert(listed.deep_view() =~= joined(artists, rows.take(0)));
        while i < self.vinyls.len()
            invariant
                i <= self.vinyls.len(),
                artists == self.artists.deep_view(),
                rows == self.vinyls.deep_view(),
                listed.deep_view() == joined(artists, rows.take(i as int)),
            decreases self.vinyls.len() - i,
        {
            let ghost before = listed.deep_view();
            let row = &self.vinyls[i];
            proof {
                assert(rows.take(i + 1).drop_last() =~= rows.take(i as int));
            }
            match find_artist_by_id(&self.artists, row.artist_id) {
                Some(artist) => {
                    listed.push(
                        Vinyl {
                            id: row.id,
                            name: row.name.clone(),
                            artist_id: row.artist_id,
                            artist_name: artist.name,
                            added_date: row.added_date,
                            cover_file_name: row.cover_file_name.clone(),
                        },
                    );
                    assert(listed.deep_view() =~= before.push(shown(rows[i as int], artist@.name)));
                },
                None => {},
            }
            i += 1;
        }
        proof {
            assert(rows.take(rows.len() as int) =~= rows);
        }
        listed
    }

    fn insert_artist(&mut self, name: &String) -> (reply: Reply)
        requires
            old(self).well_formed(),
        ensures
            final(self).well_formed(),
            permits(old(self)@, StatementView::InsertArtist { name: name@ }, reply@),
            final(self)@ == apply(old(self)@, StatementView::InsertArtist { name: name@ }, reply@),
            reply@ == old(self).answer(StatementView::InsertArtist { name: name@ }),
            final(self).counts_on(old(self), StatementView::InsertArtist { name: name@ }),
    {
        if self.next_artist_id == u32::MAX {
            return Reply::Failed;
        }
        let id = self.next_artist_id;
        let ghost before = self.artists.deep_view();
        self.artists.push(Artist { id, name: name.clone() });
        self.next_artist_id = id + 1;
        assert(self.artists.deep_view() =~= before.push(ArtistView { id, name: name@ }));
        proof {
            statement_keeps_ids_unique(
                old(self)@,
                StatementView::InsertArtist { name: name@ },
                ReplyView::Inserted(id),
            );
        }
        Reply::Inserted(id)
    }

    fn rename_artist(&mut self, id: u32, name: &String)
        requires
            old(self).well_formed(),
        ensures
            final(self).well_formed(),
            final(self)@ == apply(
                old(self)@,
                StatementView::RenameArtist { id, name: name@ },
                ReplyView::Completed,
            ),
            final(self).next_artist_id() == old(self).next_artist_id(),
            final(self).next_vinyl_id() == old(self).next_vinyl_id(),
    {
        let mut artists: Vec<Artist> = Vec::new();
        let mut i: usize = 0;
        while i < self.artists.len()
            invariant
                self.well_formed(),
                i <= self.artists.len(),
                artists.len() == i,
                forall|j: int|
                    0 <= j < i ==> (#[trigger] artists[j])@ == renamed(
                        self.artists[j]@,
                        id,
                        name@,
                    ),
            decreases self.artists.len() - i,
        {
            if self.artists[i].id == id {
                artists.push(Artist { id, name: name.clone() });
            } else {
                artists.push(self.artists[i].clone());
            }
            i += 1;
        }
        assert(artists.deep_view() =~= self.artists.deep_view().map_values(
            |artist: ArtistView| renamed(artist, id, name@),
        ));
        proof {
            statement_keeps_ids_unique(
                self@,
                StatementView::RenameArtist { id, name: name@ },
                ReplyView::Completed,
            );
        }
        self.artists = artists;
    }

    fn delete_artist(&mut self, id: u32)
        requires
            old(self).well_formed(),
        ensures
            final(self).well_formed(),
            final(self)@ == apply(
                old(self)@,
                StatementView::DeleteArtist { id },
                ReplyView::Completed,
            ),
            final(self).next_artist_id() == old(self).next_artist_id(),
            final(self).next_vinyl_id() == old(self).next_vinyl_id(),
    {
        let ghost rows = self.artists.deep_view();
        let ghost kept_if = |artist: ArtistView| artist.id != id;
        let mut artists: Vec<Artist> = Vec::new();
        let mut i: usize = 0;
        proof {
            reveal(Seq::filter);
            assert(artists.deep_view() =~= rows.take(0).filter(kept_if));
        }
        while i < self.artists.len()
            invariant
                self.well_formed(),
                i <= self.artists.len(),
                rows == self.artists.deep_view(),
                kept_if == |artist: ArtistView| artist.id != id,
                artists.deep_view() == rows.take(i as int).filter(kept_if),
                forall|j: int|
                    0 <= j < artists.len() ==> (#[trigger] artists[j]).id < self.next_artist_id,
            decreases self.artists.len() - i,
        {
            let ghost before = artists.deep_view();
            if self.artists[i].id != id {
                artists.push(self.artists[i].clone());
                assert(artists.deep_view() =~= before.push(rows[i as int]));
            }
            proof {
                reveal(Seq::filter);
                assert(rows.take(i + 1).drop_last() =~= rows.take(i as int));
            }
            i += 1;
        }
        proof {
            assert(rows.take(rows.len() as int) =~= rows);
            statement_keeps_ids_unique(
                self@,
                StatementView::DeleteArtist { id },
                ReplyView::Completed,
            );
        }
        self.artists = artists;
    }

    fn insert_vinyl(
        &mut self,
        name: &String,
        artist_id: u32,
        added_date: u32,
        cover_file_name: &String,
    ) -> (reply: Reply)
        requires
            old(self).well_formed(),
        ensures
            final(self).well_formed(),
            permits(
                old(self)@,
                StatementView::InsertVinyl {
                    name: name@,
                    artist_id,
                    added_date,
                    cover_file_name: cover_file_name@,
                },
                reply@,
            ),
            final(self)@ == apply(
                old(self)@,
                StatementView::InsertVinyl {
                    name: name@,
                    artist_id,
                    added_date,
                    cover_file_name: cover_file_name@,
                },
                reply@,
            ),
            reply@ == old(self).answer(
                StatementView::InsertVinyl {
                    name: name@,
                    artist_id,
                    added_date,
                    cover_file_name: cover_file_name@,
                },
            ),
            final(self).counts_on(
                old(self),
                StatementView::InsertVinyl {
                    name: name@,
                    artist_id,
                    added_date,
                    cover_file_name: cover_file_name@,
                },
            ),
    {
        if self.next_vinyl_id == u32::MAX {
            return Reply::Failed;
        }
        let id = self.next_vinyl_id;
        let ghost before = self.vinyls.deep_view();
        self.vinyls.push(
            VinylRow {
                id,
                name: name.clone(),
                artist_id,
                added_date,
                cover_file_name: cover_file_name.clone(),
            },
        );
        self.next_vinyl_id = id + 1;
        assert(self.vinyls.deep_view() =~= before.push(
            VinylRowView {
                id,
                name: name@,
                artist_id,
                added_date,
                cover_file_name: cover_file_name@,
            },
        ));
        proof {
            statement_keeps_ids_unique(
                old(self)@,
                StatementView::InsertVinyl {
                    name: name@,
                    artist_id,
                    added_date,
                    cover_file_name: cover_file_name@,
                },
                ReplyView::Inserted(id),
            );
        }
        Reply::Inserted(id)
    }

    fn update_vinyl(&mut self, id: u32, name: &String, artist_id: u32, cover_file_name: &String)
        requires
            old(self).well_formed(),
        ensures
            final(self).well_formed(),
            final(self)@ == apply(
                old(self)@,
                StatementView::UpdateVinyl {
                    id,
                    name: name@,
                    artist_id,
                    cover_file_name: cover_file_name@,
                },
                ReplyView::Completed,
            ),
            final(self).next_artist_id() == old(self).next_artist_id(),
            final(self).next_vinyl_id() == old(self).next_vinyl_id(),
    {
        let mut vinyls: Vec<VinylRow> = Vec::new();
        let mut i: usize = 0;
        while i < self.vinyls.len()
            invariant
                self.well_formed(),
                i <= self.vinyls.len(),
                vinyls.len() == i,
                forall|j: int|
                    0 <= j < i ==> (#[trigger] vinyls[j]).deep_view() == revised(
                        self.vinyls[j].deep_view(),
                        id,
                        name@,
                        artist_id,
                        cover_file_name@,
                    ),
            decreases self.vinyls.len() - i,
        {
            let row = &self.vinyls[i];
            if row.id == id {
                vinyls.push(
                    VinylRow {
                        id,
                        name: name.clone(),
                        artist_id,
                        added_date: row.added_date,
                        cover_file_name: cover_file_name.clone(),
                    },
                );
            } else {
                vinyls.push(
                    VinylRow {
                        id: row.id,
                        name: row.name.clone(),
                        artist_id: row.artist_id,
                        added_date: row.added_date,
                        cover_file_name: row.cover_file_name.clone(),
                    },
                );
            }
            i += 1;
        }
        assert(vinyls.deep_view() =~= self.vinyls.deep_view().map_values(
            |row: VinylRowView| revised(row, id, name@, artist_id, cover_file_name@),
        ));
        proof {
            statement_keeps_ids_unique(
                self@,
                StatementView::UpdateVinyl {
                    id,
                    name: name@,
                    artist_id,
                    cover_file_name: cover_file_name@,
                },
                ReplyView::Completed,
            );
        }
        self.vinyls = vinyls;
    }

    fn delete_vinyl(&mut self, id: u32)
        requires
            old(self).well_formed(),
        ensures
            final(self).well_formed(),
            final(self)@ == apply(
                old(self)@,
                StatementView::DeleteVinyl { id },
                ReplyView::Completed,
            ),
            final(self).next_artist_id() == old(self).next_artist_id(),
            final(self).next_vinyl_id() == old(self).next_vinyl_id(),
    {
        let ghost rows = self.vinyls.deep_view();
        let ghost kept_if = |row: VinylRowView| row.id != id;
        let mut vinyls: Vec<VinylRow> = Vec::new();
        let mut i: usize = 0;
        proof {
            reveal(Seq::filter);
            assert(vinyls.deep_view() =~= rows.take(0).filter(kept_if));
        }
        while i < self.vinyls.len()
            invariant
                self.well_formed(),
                i <= self.vinyls.len(),
                rows == self.vinyls.deep_view(),
                kept_if == |row: VinylRowView| row.id != id,
                vinyls.deep_view() == rows.take(i as int).filter(kept_if),
                forall|j: int|
                    0 <= j < vinyls.len() ==> (#[trigger] vinyls[j]).id < self.next_vinyl_id,
            decreases self.vinyls.len() - i,
        {
            let ghost before = vinyls.deep_view();
            let row = &self.vinyls[i];
            if row.id != id {
                vinyls.push(
                    VinylRow {
                        id: row.id,
                        name: row.name.clone(),
                        artist_id: row.artist_id,
                        added_date: row.added_date,
                        cover_file_name: row.cover_file_name.clone(),
                    },
                );
                assert(vinyls.deep_view() =~= before.push(rows[i as int]));
            }
            proof {
                reveal(Seq::filter);
                assert(rows.take(i + 1).drop_last() =~= rows.take(i as int));
            }
            i += 1;
        }
        proof {
            assert(rows.take(rows.len() as int) =~= rows);
            statement_keeps_ids_unique(
                self@,
                StatementView::DeleteVinyl { id },
                ReplyView::Completed,
            );
        }
        self.vinyls = vinyls;
    }

    fn sample_vinyls(&self, count: u32) -> (rows: Vec<Vinyl>)
        ensures
            is_sample(rows.deep_view(), self@.listed(), count),
            rows.deep_view() == at_most(count, self@.listed()),
    {
        let listed = self.listed();
        let limit: usize = if count as u64 <= usize::MAX as u64 {
            count as usize
        } else {
            usize::MAX
        };
        let rows = copy_vinyls(&listed, limit);
        proof {
            let places = Seq::new(rows.deep_view().len(), |i: int| i);
            assert(drawn_from(rows.deep_view(), self@.listed(), places));
        }
        rows
    }

    /// Carries out `statement` on the tables and answers it. The answer is
    /// the one that [`MemoryStore::answer`] names, which is one that the
    /// catalog permits, and the tables afterwards are those that the
    /// catalog gives for it. Insertions number the rows from 1 on and fail
    /// once the numbers are used up; nothing else fails.
    pub fn execute(&mut self, statement: &Statement) -> (reply: Reply)
        requires
            old(self).well_formed(),
        ensures
            final(self).well_formed(),
            reply@ == old(self).answer(statement@),
            permits(old(self)@, statement@, reply@),
            final(self)@ == apply(old(self)@, statement@, reply@),
            final(self).counts_on(old(self), statement@),
    {
        match statement {
            Statement::ListArtists => Reply::Artists(copy_artists(&self.artists)),
            Statement::FindArtistByName { name } => Reply::Artist(
                find_artist_by_name(&self.artists, name),
            ),
            Statement::FindArtistById { id } => Reply::Artist(
                find_artist_by_id(&self.artists, *id),
            ),
            Statement::InsertArtist { name } => self.insert_artist(name),
            Statement::RenameArtist { id, name } => {
                self.rename_artist(*id, name);
                Reply::Completed
            },
            Statement::DeleteArtist { id } => {
                self.delete_artist(*id);
                Reply::Completed
            },
            Statement::ListVinyls => Reply::Vinyls(self.listed()),
            Statement::ListVinylsOfArtist { artist_id } => {
                let listed = self.listed();
                Reply::Vinyls(vinyls_of_artist(&listed, *artist_id))
            },
            Statement::FindVinylByName { name } => {
                let listed = self.listed();
                Reply::Vinyl(find_vinyl_by_name(&listed, name))
            },
            Statement::FindVinylById { id } => Reply::Row(find_row_by_id(&self.vinyls, *id)),
            Statement::InsertVinyl {
                name,
                artist_id,
                added_date,
                cover_file_name,
            } => self.insert_vinyl(name, *artist_id, *added_date, cover_file_name),
            Statement::UpdateVinyl { id, name, artist_id, cover_file_name } => {
                self.update_vinyl(*id, name, *artist_id, cover_file_name);
                Reply::Completed
            },
            Statement::DeleteVinyl { id } => {
                self.delete_vinyl(*id);
                Reply::Completed
            },
            Statement::SampleVinyls { count } => Reply::Vinyls(self.sample_vinyls(*count)),
        }
    }
}

} // verus!
