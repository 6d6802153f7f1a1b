use vinyl_library_api::artists::{add_artist, delete_artist};
use vinyl_library_api::conversation::{check_vinyl_by_id, Lookup, Step};
use vinyl_library_api::error::{ApiError, StorageError};
use vinyl_library_api::memory::MemoryStore;
use vinyl_library_api::model::{Artist, Vinyl, VinylRow, VinylUserData};
use vinyl_library_api::statement::{Reply, Statement};
use vinyl_library_api::vinyls::{
    add_vinyl, delete_vinyl, list_all_vinyls, shuffle_vinyls, update_vinyl,
};

fn run<T>(store: &mut MemoryStore, handler: impl Fn(&Vec<Reply>) -> Step<T>) -> Result<T, ApiError> {
    let mut replies = Vec::new();
    loop {
        match handler(&replies) {
            Step::Run(statement) => replies.push(store.execute(&statement)),
            Step::Done(outcome) => return outcome,
        }
    }
}

fn data(name: &str, artist_id: u32, artist_name: &str, cover: &str) -> VinylUserData {
    VinylUserData {
        name: name.to_string(),
        artist_id,
        artist_name: artist_name.to_string(),
        cover_file_name: cover.to_string(),
    }
}

fn vinyl(id: u32, name: &str, artist_id: u32, artist_name: &str, added: u32, cover: &str) -> Vinyl {
    Vinyl {
        id,
        name: name.to_string(),
        artist_id,
        artist_name: artist_name.to_string(),
        added_date: added,
        cover_file_name: cover.to_string(),
    }
}

fn row(id: u32, name: &str, artist_id: u32, added: u32, cover: &str) -> VinylRow {
    VinylRow {
        id,
        name: name.to_string(),
        artist_id,
        added_date: added,
        cover_file_name: cover.to_string(),
    }
}

fn broken<T>() -> Step<T> {
    Step::Done(Err(ApiError::Storage(StorageError::QueryFailed)))
}

fn beatles_and_stones() -> MemoryStore {
    let mut store = MemoryStore::new();
    run(&mut store, |r| add_artist("The Beatles", r)).unwrap();
    run(&mut store, |r| add_artist("The Rolling Stones", r)).unwrap();
    store
}

fn three_vinyls() -> MemoryStore {
    let mut store = beatles_and_stones();
    run(&mut store, |r| add_vinyl(&data("Abbey Road", 1, "The Beatles", "abbey.jpg"), 10, r)).unwrap();
    run(&mut store, |r| add_vinyl(&data("Aftermath", 2, "The Rolling Stones", "after.jpg"), 20, r)).unwrap();
    run(&mut store, |r| add_vinyl(&data("Revolver", 1, "The Beatles", "revolver.jpg"), 30, r)).unwrap();
    store
}

#[test]
fn abbey_road_round_trip() {
    let mut store = beatles_and_stones();
    let now = 1_700_000_000;
    let request = data("Abbey Road", 1, "The Beatles", "abbey.jpg");
    let created = run(&mut store, |r| add_vinyl(&request, now, r)).unwrap();
    assert_eq!(created, vinyl(1, "Abbey Road", 1, "The Beatles", now, "abbey.jpg"));
    let all = run(&mut store, |r| list_all_vinyls(r)).unwrap();
    assert_eq!(all, vec![vinyl(1, "Abbey Road", 1, "The Beatles", now, "abbey.jpg")]);
}

#[test]
fn a_new_vinyl_gets_a_new_id() {
    let mut store = three_vinyls();
    let created = run(&mut store, |r| add_vinyl(&data("Help!", 1, "The Beatles", "help.jpg"), 40, r)).unwrap();
    assert_eq!(created.id, 4);
    let all = run(&mut store, |r| list_all_vinyls(r)).unwrap();
    assert_eq!(all.len(), 4);
    assert_eq!(all[3], created);
}

#[test]
fn creating_a_vinyl_twice_gives_the_same_record() {
    let mut store = beatles_and_stones();
    let first = run(&mut store, |r| add_vinyl(&data("Abbey Road", 1, "The Beatles", "abbey.jpg"), 10, r)).unwrap();
    let second = run(&mut store, |r| add_vinyl(&data("Abbey Road", 2, "Somebody", "other.png"), 99, r)).unwrap();
    assert_eq!(second, first);
    let unknown_artist = run(&mut store, |r| add_vinyl(&data("Abbey Road", 77, "", ""), 100, r)).unwrap();
    assert_eq!(unknown_artist, first);
    assert_eq!(run(&mut store, |r| list_all_vinyls(r)).unwrap(), vec![first]);
}

#[test]
fn a_repeated_creation_shows_the_artist_name_of_the_store() {
    let mut store = beatles_and_stones();
    let first = run(&mut store, |r| add_vinyl(&data("Abbey Road", 1, "Beatles", "abbey.jpg"), 10, r)).unwrap();
    assert_eq!(first.artist_name, "Beatles");
    let second = run(&mut store, |r| add_vinyl(&data("Abbey Road", 1, "Beatles", "abbey.jpg"), 11, r)).unwrap();
    assert_eq!(second, vinyl(1, "Abbey Road", 1, "The Beatles", 10, "abbey.jpg"));
}

#[test]
fn creating_a_vinyl_for_an_unknown_artist_is_invalid_and_writes_nothing() {
    let mut store = three_vinyls();
    let before = run(&mut store, |r| list_all_vinyls(r)).unwrap();
    let outcome = run(&mut store, |r| add_vinyl(&data("Help!", 3, "Nobody", "help.jpg"), 40, r));
    assert_eq!(outcome, Err(ApiError::InvalidArtist));
    assert_eq!(run(&mut store, |r| list_all_vinyls(r)).unwrap(), before);
    let next = run(&mut store, |r| add_vinyl(&data("Help!", 1, "The Beatles", "help.jpg"), 41, r)).unwrap();
    assert_eq!(next.id, 4);
}

#[test]
fn add_vinyl_steps() {
    let request = data("Help!", 1, "The Beatles", "help.jpg");
    let found = Reply::Artist(Some(Artist { id: 1, name: "The Beatles".to_string() }));
    assert_eq!(
        add_vinyl(&request, 40, &vec![]),
        Step::Run(Statement::FindVinylByName { name: "Help!".to_string() })
    );
    assert_eq!(
        add_vinyl(&request, 40, &vec![Reply::Vinyl(None)]),
        Step::Run(Statement::FindArtistById { id: 1 })
    );
    assert_eq!(
        add_vinyl(&request, 40, &vec![Reply::Vinyl(None), Reply::Artist(None)]),
        Step::Done(Err(ApiError::InvalidArtist))
    );
    assert_eq!(
        add_vinyl(&request, 40, &vec![Reply::Vinyl(None), found]),
        Step::Run(Statement::InsertVinyl {
            name: "Help!".to_string(),
            artist_id: 1,
            added_date: 40,
            cover_file_name: "help.jpg".to_string(),
        })
    );
    let found = Reply::Artist(Some(Artist { id: 1, name: "The Beatles".to_string() }));
    assert_eq!(
        add_vinyl(&request, 40, &vec![Reply::Vinyl(None), found, Reply::Inserted(8)]),
        Step::Done(Ok(vinyl(8, "Help!", 1, "The Beatles", 40, "help.jpg")))
    );
    let found = Reply::Artist(Some(Artist { id: 1, name: "The Beatles".to_string() }));
    assert_eq!(add_vinyl(&request, 40, &vec![Reply::Vinyl(None), found, Reply::Failed]), broken());
    assert_eq!(add_vinyl(&request, 40, &vec![Reply::Vinyl(None), Reply::Failed]), broken());
    assert_eq!(add_vinyl(&request, 40, &vec![Reply::Failed]), broken());
}

#[test]
fn changing_an_unknown_vinyl_is_not_found() {
    let mut store = three_vinyls();
    let before = run(&mut store, |r| list_all_vinyls(r)).unwrap();
    let outcome = run(&mut store, |r| update_vinyl(9, &data("Help!", 1, "The Beatles", "help.jpg"), r));
    assert_eq!(outcome, Err(ApiError::NotFound));
    assert_eq!(run(&mut store, |r| list_all_vinyls(r)).unwrap(), before);
}

#[test]
fn changing_a_vinyl_to_an_unknown_artist_is_invalid_and_writes_nothing() {
    let mut store = three_vinyls();
    let before = run(&mut store, |r| list_all_vinyls(r)).unwrap();
    let outcome = run(&mut store, |r| update_vinyl(2, &data("Help!", 3, "Nobody", "help.jpg"), r));
    assert_eq!(outcome, Err(ApiError::InvalidArtist));
    assert_eq!(run(&mut store, |r| list_all_vinyls(r)).unwrap(), before);
}

#[test]
fn changing_a_vinyl_keeps_its_date_and_shows_the_artist_of_the_store() {
    let mut store = three_vinyls();
    let changed = run(&mut store, |r| update_vinyl(2, &data("Let It Be", 1, "Somebody Else", "let.jpg"), r)).unwrap();
    assert_eq!(changed, vinyl(2, "Let It Be", 1, "The Beatles", 20, "let.jpg"));
    let all = run(&mut store, |r| list_all_vinyls(r)).unwrap();
    assert_eq!(
        all,
        vec![
            vinyl(1, "Abbey Road", 1, "The Beatles", 10, "abbey.jpg"),
            vinyl(2, "Let It Be", 1, "The Beatles", 20, "let.jpg"),
            vinyl(3, "Revolver", 1, "The Beatles", 30, "revolver.jpg"),
        ]
    );
}

#[test]
fn update_vinyl_steps() {
    let request = data("Let It Be", 1, "Somebody Else", "let.jpg");
    let existing = || Reply::Row(Some(row(2, "Aftermath", 2, 20, "after.jpg")));
    let artist = || Reply::Artist(Some(Artist { id: 1, name: "The Beatles".to_string() }));
    assert_eq!(update_vinyl(2, &request, &vec![]), Step::Run(Statement::FindVinylById { id: 2 }));
    assert_eq!(
        update_vinyl(2, &request, &vec![Reply::Row(None)]),
        Step::Done(Err(ApiError::NotFound))
    );
    assert_eq!(
        update_vinyl(2, &request, &vec![existing()]),
        Step::Run(Statement::FindArtistById { id: 1 })
    );
    assert_eq!(
        update_vinyl(2, &request, &vec![existing(), Reply::Artist(None)]),
        Step::Done(Err(ApiError::InvalidArtist))
    );
    assert_eq!(
        update_vinyl(2, &request, &vec![existing(), artist()]),
        Step::Run(Statement::UpdateVinyl {
            id: 2,
            name: "Let It Be".to_string(),
            artist_id: 1,
            cover_file_name: "let.jpg".to_string(),
        })
    );
    assert_eq!(
        update_vinyl(2, &request, &vec![existing(), artist(), Reply::Completed]),
        Step::Done(Ok(vinyl(2, "Let It Be", 1, "The Beatles", 20, "let.jpg")))
    );
    assert_eq!(update_vinyl(2, &request, &vec![existing(), artist(), Reply::Failed]), broken());
    assert_eq!(update_vinyl(2, &request, &vec![existing(), Reply::Failed]), broken());
    assert_eq!(update_vinyl(2, &request, &vec![Reply::Failed]), broken());
}

#[test]
fn removing_an_unknown_vinyl_succeeds_and_changes_nothing() {
    let mut store = three_vinyls();
    let before = run(&mut store, |r| list_all_vinyls(r)).unwrap();
    assert_eq!(run(&mut store, |r| delete_vinyl(9, r)), Ok(()));
    assert_eq!(run(&mut store, |r| list_all_vinyls(r)).unwrap(), before);
}

#[test]
fn removing_a_vinyl_removes_that_vinyl_alone() {
    let mut store = three_vinyls();
    assert_eq!(run(&mut store, |r| delete_vinyl(2, r)), Ok(()));
    let all = run(&mut store, |r| list_all_vinyls(r)).unwrap();
    assert_eq!(
        all,
        vec![
            vinyl(1, "Abbey Road", 1, "The Beatles", 10, "abbey.jpg"),
            vinyl(3, "Revolver", 1, "The Beatles", 30, "revolver.jpg"),
        ]
    );
}

#[test]
fn delete_vinyl_steps() {
    assert_eq!(delete_vinyl(2, &vec![]), Step::Run(Statement::DeleteVinyl { id: 2 }));
    assert_eq!(delete_vinyl(2, &vec![Reply::Completed]), Step::Done(Ok(())));
    assert_eq!(delete_vinyl(2, &vec![Reply::Failed]), broken());
}

#[test]
fn a_draw_of_five_from_three_gives_the_three() {
    let mut store = three_vinyls();
    let drawn = run(&mut store, |r| shuffle_vinyls(5, r)).unwrap();
    assert_eq!(drawn.len(), 3);
    let mut ids: Vec<u32> = drawn.iter().map(|v| v.id).collect();
    ids.sort();
    assert_eq!(ids, vec![1, 2, 3]);
}

#[test]
fn a_draw_gives_as_many_as_were_asked_for() {
    let mut store = three_vinyls();
    assert_eq!(run(&mut store, |r| shuffle_vinyls(3, r)).unwrap().len(), 3);
    let two = run(&mut store, |r| shuffle_vinyls(2, r)).unwrap();
    assert_eq!(two.len(), 2);
    assert_ne!(two[0].id, two[1].id);
    assert_eq!(run(&mut store, |r| shuffle_vinyls(0, r)).unwrap(), vec![]);
    let mut empty = MemoryStore::new();
    assert_eq!(run(&mut empty, |r| shuffle_vinyls(5, r)).unwrap(), vec![]);
}

#[test]
fn a_draw_never_holds_more_than_was_asked_for() {
    let rows = || {
        vec![
            vinyl(3, "Revolver", 1, "The Beatles", 30, "revolver.jpg"),
            vinyl(1, "Abbey Road", 1, "The Beatles", 10, "abbey.jpg"),
            vinyl(2, "Aftermath", 2, "The Rolling Stones", 20, "after.jpg"),
        ]
    };
    assert_eq!(shuffle_vinyls(2, &vec![]), Step::Run(Statement::SampleVinyls { count: 2 }));
    assert_eq!(
        shuffle_vinyls(2, &vec![Reply::Vinyls(rows())]),
        Step::Done(Ok(vec![
            vinyl(3, "Revolver", 1, "The Beatles", 30, "revolver.jpg"),
            vinyl(1, "Abbey Road", 1, "The Beatles", 10, "abbey.jpg"),
        ]))
    );
    assert_eq!(shuffle_vinyls(3, &vec![Reply::Vinyls(rows())]), Step::Done(Ok(rows())));
    assert_eq!(shuffle_vinyls(4, &vec![Reply::Vinyls(rows())]), Step::Done(Ok(rows())));
    assert_eq!(shuffle_vinyls(4, &vec![Reply::Failed]), broken());
}

#[test]
fn listing_vinyls_is_one_question() {
    assert_eq!(list_all_vinyls(&vec![]), Step::Run(Statement::ListVinyls));
    assert_eq!(list_all_vinyls(&vec![Reply::Vinyls(vec![])]), Step::Done(Ok(vec![])));
    assert_eq!(list_all_vinyls(&vec![Reply::Artists(vec![])]), broken());
}

#[test]
fn checking_a_vinyl_asks_once_and_reads_the_reply() {
    assert_eq!(check_vinyl_by_id(5, &vec![], 0), Lookup::Ask(Statement::FindVinylById { id: 5 }));
    assert_eq!(check_vinyl_by_id(5, &vec![Reply::Row(None)], 0), Lookup::Missing);
    assert_eq!(check_vinyl_by_id(5, &vec![Reply::Vinyl(None)], 0), Lookup::Failed);
    assert_eq!(check_vinyl_by_id(5, &vec![Reply::Completed], 0), Lookup::Failed);
    assert_eq!(
        check_vinyl_by_id(5, &vec![Reply::Row(Some(row(5, "a", 1, 2, "c")))], 0),
        Lookup::Found(row(5, "a", 1, 2, "c"))
    );
}

fn vinyl_of_a_deleted_artist() -> MemoryStore {
    let mut store = MemoryStore::new();
    run(&mut store, |r| add_artist("The Beatles", r)).unwrap();
    run(&mut store, |r| add_artist("The Rolling Stones", r)).unwrap();
    run(&mut store, |r| add_vinyl(&data("Abbey Road", 1, "The Beatles", "abbey.jpg"), 10, r)).unwrap();
    run(&mut store, |r| delete_artist(1, r)).unwrap();
    store
}

#[test]
fn a_vinyl_whose_artist_is_gone_is_not_listed_and_is_still_there() {
    let mut store = vinyl_of_a_deleted_artist();
    assert_eq!(run(&mut store, |r| list_all_vinyls(r)).unwrap(), vec![]);
    assert_eq!(
        store.execute(&Statement::FindVinylById { id: 1 }),
        Reply::Row(Some(row(1, "Abbey Road", 1, 10, "abbey.jpg")))
    );
}

#[test]
fn a_vinyl_whose_artist_is_gone_can_be_given_another_artist() {
    let mut store = vinyl_of_a_deleted_artist();
    let changed =
        run(&mut store, |r| update_vinyl(1, &data("Aftermath", 2, "Somebody", "after.jpg"), r));
    assert_eq!(changed, Ok(vinyl(1, "Aftermath", 2, "The Rolling Stones", 10, "after.jpg")));
    assert_eq!(
        run(&mut store, |r| list_all_vinyls(r)).unwrap(),
        vec![vinyl(1, "Aftermath", 2, "The Rolling Stones", 10, "after.jpg")]
    );
}

#[test]
fn a_vinyl_whose_artist_is_gone_cannot_be_given_an_unknown_artist() {
    let mut store = vinyl_of_a_deleted_artist();
    for artist_id in [1, 3] {
        let outcome =
            run(&mut store, |r| update_vinyl(1, &data("Aftermath", artist_id, "", "after.jpg"), r));
        assert_eq!(outcome, Err(ApiError::InvalidArtist));
    }
    assert_eq!(
        store.execute(&Statement::FindVinylById { id: 1 }),
        Reply::Row(Some(row(1, "Abbey Road", 1, 10, "abbey.jpg")))
    );
    let unknown = run(&mut store, |r| update_vinyl(2, &data("Aftermath", 2, "", "after.jpg"), r));
    assert_eq!(unknown, Err(ApiError::NotFound));
}

#[test]
fn no_request_asks_for_more_than_three_statements() {
    let three = || vec![Reply::Completed, Reply::Completed, Reply::Completed];
    let request = data("Help!", 1, "The Beatles", "help.jpg");
    assert!(matches!(add_vinyl(&request, 1, &three()), Step::Done(_)));
    assert!(matches!(update_vinyl(1, &request, &three()), Step::Done(_)));
    assert!(matches!(delete_vinyl(1, &three()), Step::Done(_)));
    assert!(matches!(shuffle_vinyls(1, &three()), Step::Done(_)));
    assert!(matches!(list_all_vinyls(&three()), Step::Done(_)));
    let found = || Reply::Artist(Some(Artist { id: 1, name: "The Beatles".to_string() }));
    let longest = vec![Reply::Row(Some(row(1, "a", 1, 2, "c"))), found(), Reply::Completed];
    assert!(matches!(update_vinyl(1, &request, &longest), Step::Done(Ok(_))));
    let longest = vec![Reply::Vinyl(None), found(), Reply::Inserted(4)];
    assert!(matches!(add_vinyl(&request, 1, &longest), Step::Done(Ok(_))));
}
