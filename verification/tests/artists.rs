use vinyl_library_api::artists::{
    add_artist, delete_artist, list_all_artists, list_vinyls_for_artist, update_artist,
};
use vinyl_library_api::conversation::{check_artist_by_id, Lookup, Step};
use vinyl_library_api::error::{ApiError, StorageError};
use vinyl_library_api::memory::MemoryStore;
use vinyl_library_api::model::{Artist, VinylUserData};
use vinyl_library_api::statement::{Reply, Statement};
use vinyl_library_api::vinyls::{add_vinyl, list_all_vinyls};

fn run<T>(store: &mut MemoryStore, handler: impl Fn(&Vec<Reply>) -> Step<T>) -> Result<T, ApiError> {
    let mut replies = Vec::new();
    loop {
        match handler(&replies) {
            Step::Run(statement) => replies.push(store.execute(&statement)),
            Step::Done(outcome) => return outcome,
        }
    }
}

fn artist(id: u32, name: &str) -> Artist {
    Artist { id, name: name.to_string() }
}

fn broken<T>() -> Step<T> {
    Step::Done(Err(ApiError::Storage(StorageError::QueryFailed)))
}

#[test]
fn creating_an_artist_twice_gives_the_same_id() {
    let mut store = MemoryStore::new();
    let other = run(&mut store, |r| add_artist("Pink Floyd", r)).unwrap();
    let first = run(&mut store, |r| add_artist("The Beatles", r)).unwrap();
    let second = run(&mut store, |r| add_artist("The Beatles", r)).unwrap();
    assert_eq!(other, artist(1, "Pink Floyd"));
    assert_eq!(first, artist(2, "The Beatles"));
    assert_eq!(second, first);
    let all = run(&mut store, |r| list_all_artists(r)).unwrap();
    assert_eq!(all, vec![artist(1, "Pink Floyd"), artist(2, "The Beatles")]);
}

#[test]
fn an_artist_name_loses_its_quotes() {
    let mut store = MemoryStore::new();
    let created = run(&mut store, |r| add_artist("\"The \"Fab\" Four\"", r)).unwrap();
    assert_eq!(created, artist(1, "The Fab Four"));
    let again = run(&mut store, |r| add_artist("The Fab Four", r)).unwrap();
    assert_eq!(again, created);
}

#[test]
fn add_artist_asks_for_the_name_before_it_inserts() {
    let none = Vec::new();
    assert_eq!(
        add_artist("\"Queen\"", &none),
        Step::Run(Statement::FindArtistByName { name: "Queen".to_string() })
    );
    let absent = vec![Reply::Artist(None)];
    assert_eq!(
        add_artist("\"Queen\"", &absent),
        Step::Run(Statement::InsertArtist { name: "Queen".to_string() })
    );
    let inserted = vec![Reply::Artist(None), Reply::Inserted(17)];
    assert_eq!(add_artist("\"Queen\"", &inserted), Step::Done(Ok(artist(17, "Queen"))));
    let present = vec![Reply::Artist(Some(artist(4, "Queen")))];
    assert_eq!(add_artist("Queen", &present), Step::Done(Ok(artist(4, "Queen"))));
}

#[test]
fn add_artist_reports_a_store_that_fails() {
    assert_eq!(add_artist("Queen", &vec![Reply::Failed]), broken());
    assert_eq!(add_artist("Queen", &vec![Reply::Artist(None), Reply::Failed]), broken());
    assert_eq!(add_artist("Queen", &vec![Reply::Completed]), broken());
    assert_eq!(add_artist("Queen", &vec![Reply::Artist(None), Reply::Completed]), broken());
}

#[test]
fn renaming_an_unknown_artist_is_not_found() {
    let mut store = MemoryStore::new();
    run(&mut store, |r| add_artist("Queen", r)).unwrap();
    let outcome = run(&mut store, |r| update_artist(2, "King", r));
    assert_eq!(outcome, Err(ApiError::NotFound));
    let all = run(&mut store, |r| list_all_artists(r)).unwrap();
    assert_eq!(all, vec![artist(1, "Queen")]);
}

#[test]
fn renaming_an_artist_changes_the_name_and_keeps_the_id() {
    let mut store = MemoryStore::new();
    run(&mut store, |r| add_artist("Queen", r)).unwrap();
    run(&mut store, |r| add_artist("Abba", r)).unwrap();
    let renamed = run(&mut store, |r| update_artist(1, "Abba", r)).unwrap();
    assert_eq!(renamed, artist(1, "Abba"));
    let all = run(&mut store, |r| list_all_artists(r)).unwrap();
    assert_eq!(all, vec![artist(1, "Abba"), artist(2, "Abba")]);
}

#[test]
fn update_artist_steps() {
    assert_eq!(
        update_artist(3, "King", &vec![]),
        Step::Run(Statement::FindArtistById { id: 3 })
    );
    assert_eq!(
        update_artist(3, "King", &vec![Reply::Artist(Some(artist(3, "Queen")))]),
        Step::Run(Statement::RenameArtist { id: 3, name: "King".to_string() })
    );
    assert_eq!(
        update_artist(3, "King", &vec![Reply::Artist(Some(artist(3, "Queen"))), Reply::Completed]),
        Step::Done(Ok(artist(3, "King")))
    );
    assert_eq!(
        update_artist(3, "King", &vec![Reply::Artist(Some(artist(3, "Queen"))), Reply::Failed]),
        broken()
    );
    assert_eq!(update_artist(3, "King", &vec![Reply::Failed]), broken());
}

#[test]
fn removing_an_unknown_artist_is_not_found() {
    let mut store = MemoryStore::new();
    run(&mut store, |r| add_artist("Queen", r)).unwrap();
    assert_eq!(run(&mut store, |r| delete_artist(9, r)), Err(ApiError::NotFound));
    let all = run(&mut store, |r| list_all_artists(r)).unwrap();
    assert_eq!(all, vec![artist(1, "Queen")]);
}

#[test]
fn removing_an_artist_leaves_the_vinyls_unlisted() {
    let mut store = MemoryStore::new();
    run(&mut store, |r| add_artist("Queen", r)).unwrap();
    run(&mut store, |r| add_artist("Abba", r)).unwrap();
    let data = VinylUserData {
        name: "Jazz".to_string(),
        artist_id: 1,
        artist_name: "Queen".to_string(),
        cover_file_name: "jazz.jpg".to_string(),
    };
    run(&mut store, |r| add_vinyl(&data, 100, r)).unwrap();
    assert_eq!(run(&mut store, |r| delete_artist(1, r)), Ok(()));
    assert_eq!(run(&mut store, |r| list_all_artists(r)).unwrap(), vec![artist(2, "Abba")]);
    assert_eq!(run(&mut store, |r| list_all_vinyls(r)).unwrap(), vec![]);
    assert_eq!(run(&mut store, |r| list_vinyls_for_artist(1, r)).unwrap(), vec![]);
}

#[test]
fn delete_artist_steps() {
    assert_eq!(delete_artist(3, &vec![]), Step::Run(Statement::FindArtistById { id: 3 }));
    assert_eq!(delete_artist(3, &vec![Reply::Artist(None)]), Step::Done(Err(ApiError::NotFound)));
    assert_eq!(
        delete_artist(3, &vec![Reply::Artist(Some(artist(3, "Queen")))]),
        Step::Run(Statement::DeleteArtist { id: 3 })
    );
    assert_eq!(
        delete_artist(3, &vec![Reply::Artist(Some(artist(3, "Queen"))), Reply::Completed]),
        Step::Done(Ok(()))
    );
    assert_eq!(
        delete_artist(3, &vec![Reply::Artist(Some(artist(3, "Queen"))), Reply::Inserted(1)]),
        broken()
    );
}

#[test]
fn the_vinyls_of_an_artist_are_those_that_refer_to_it() {
    let mut store = MemoryStore::new();
    run(&mut store, |r| add_artist("Queen", r)).unwrap();
    run(&mut store, |r| add_artist("Abba", r)).unwrap();
    for (name, artist_id) in [("Jazz", 1), ("Arrival", 2), ("Innuendo", 1)] {
        let data = VinylUserData {
            name: name.to_string(),
            artist_id,
            artist_name: String::new(),
            cover_file_name: format!("{}.jpg", name),
        };
        run(&mut store, |r| add_vinyl(&data, 5, r)).unwrap();
    }
    let of_queen = run(&mut store, |r| list_vinyls_for_artist(1, r)).unwrap();
    let names: Vec<&str> = of_queen.iter().map(|v| v.name.as_str()).collect();
    assert_eq!(names, vec!["Jazz", "Innuendo"]);
    assert!(of_queen.iter().all(|v| v.artist_id == 1 && v.artist_name == "Queen"));
    assert_eq!(run(&mut store, |r| list_vinyls_for_artist(7, r)).unwrap(), vec![]);
}

#[test]
fn listing_artists_is_one_question() {
    assert_eq!(list_all_artists(&vec![]), Step::Run(Statement::ListArtists));
    let rows = vec![artist(2, "Abba"), artist(1, "Queen")];
    assert_eq!(
        list_all_artists(&vec![Reply::Artists(vec![artist(2, "Abba"), artist(1, "Queen")])]),
        Step::Done(Ok(rows))
    );
    assert_eq!(list_all_artists(&vec![Reply::Failed]), broken());
    assert_eq!(list_all_artists(&vec![Reply::Vinyls(vec![])]), broken());
}

#[test]
fn checking_an_artist_asks_once_and_reads_the_reply() {
    assert_eq!(
        check_artist_by_id(5, &vec![], 0),
        Lookup::Ask(Statement::FindArtistById { id: 5 })
    );
    assert_eq!(
        check_artist_by_id(5, &vec![Reply::Vinyl(None)], 1),
        Lookup::Ask(Statement::FindArtistById { id: 5 })
    );
    assert_eq!(
        check_artist_by_id(5, &vec![Reply::Vinyl(None), Reply::Artist(Some(artist(5, "Queen")))], 1),
        Lookup::Found(artist(5, "Queen"))
    );
    assert_eq!(check_artist_by_id(5, &vec![Reply::Artist(None)], 0), Lookup::Missing);
    assert_eq!(check_artist_by_id(5, &vec![Reply::Failed], 0), Lookup::Failed);
}

#[test]
fn the_memory_store_fails_rather_than_reuse_an_id() {
    let mut store = MemoryStore::new();
    let insert = Statement::InsertArtist { name: "Queen".to_string() };
    assert_eq!(store.execute(&insert), Reply::Inserted(1));
    assert_eq!(store.execute(&insert), Reply::Inserted(2));
    assert_eq!(store.execute(&Statement::DeleteArtist { id: 2 }), Reply::Completed);
    assert_eq!(store.execute(&insert), Reply::Inserted(3));
    assert_eq!(
        store.execute(&Statement::FindArtistByName { name: "Queen".to_string() }),
        Reply::Artist(Some(artist(1, "Queen")))
    );
}

#[test]
fn an_artist_without_a_name_is_refused_before_the_store_is_asked() {
    for name in ["", "\"", "\"\"", "\"\"\"\""] {
        assert_eq!(add_artist(name, &vec![]), Step::Done(Err(ApiError::InvalidName)), "{:?}", name);
        assert_eq!(
            add_artist(name, &vec![Reply::Artist(None)]),
            Step::Done(Err(ApiError::InvalidName)),
            "{:?}",
            name
        );
    }
    let mut store = MemoryStore::new();
    assert_eq!(run(&mut store, |r| add_artist("\"\"", r)), Err(ApiError::InvalidName));
    assert_eq!(run(&mut store, |r| list_all_artists(r)).unwrap(), vec![]);
    assert_eq!(run(&mut store, |r| add_artist("\" \"", r)).unwrap(), artist(1, " "));
}

#[test]
fn an_artist_cannot_be_renamed_to_nothing() {
    let mut store = MemoryStore::new();
    run(&mut store, |r| add_artist("Queen", r)).unwrap();
    assert_eq!(run(&mut store, |r| update_artist(1, "", r)), Err(ApiError::InvalidName));
    assert_eq!(run(&mut store, |r| update_artist(2, "", r)), Err(ApiError::NotFound));
    assert_eq!(run(&mut store, |r| list_all_artists(r)).unwrap(), vec![artist(1, "Queen")]);
    assert_eq!(
        update_artist(1, "", &vec![Reply::Artist(Some(artist(1, "Queen")))]),
        Step::Done(Err(ApiError::InvalidName))
    );
    assert_eq!(update_artist(1, "", &vec![]), Step::Run(Statement::FindArtistById { id: 1 }));
}

#[test]
fn the_memory_store_answers_every_statement_but_an_insertion_without_numbers() {
    let mut store = MemoryStore::new();
    assert_eq!(store.execute(&Statement::ListArtists), Reply::Artists(vec![]));
    assert_eq!(store.execute(&Statement::ListVinyls), Reply::Vinyls(vec![]));
    assert_eq!(store.execute(&Statement::FindArtistById { id: 1 }), Reply::Artist(None));
    assert_eq!(store.execute(&Statement::FindVinylById { id: 1 }), Reply::Row(None));
    assert_eq!(
        store.execute(&Statement::FindVinylByName { name: "x".to_string() }),
        Reply::Vinyl(None)
    );
    assert_eq!(store.execute(&Statement::DeleteVinyl { id: 1 }), Reply::Completed);
    assert_eq!(store.execute(&Statement::DeleteArtist { id: 1 }), Reply::Completed);
    assert_eq!(
        store.execute(&Statement::RenameArtist { id: 1, name: "x".to_string() }),
        Reply::Completed
    );
    assert_eq!(store.execute(&Statement::SampleVinyls { count: 3 }), Reply::Vinyls(vec![]));
    assert_eq!(
        store.execute(&Statement::InsertVinyl {
            name: "x".to_string(),
            artist_id: 9,
            added_date: 1,
            cover_file_name: "c".to_string(),
        }),
        Reply::Inserted(1)
    );
    assert_eq!(store.execute(&Statement::ListVinyls), Reply::Vinyls(vec![]));
}
