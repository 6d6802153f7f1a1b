use vinyl_library_api::error::ApiError;
use vinyl_library_api::images::{
    get_image, get_image_names, image_contents, names_a_file, upload_image, upload_outcome,
    Upload, UPLOAD_LIMIT,
};

fn bytes(length: usize) -> Vec<u8> {
    (0..length).map(|i| (i % 251) as u8).collect()
}

#[test]
fn the_limit_is_128_kib() {
    assert_eq!(UPLOAD_LIMIT, 128 * 1024);
}

#[test]
fn an_upload_of_50_kib_is_kept_whole() {
    let data = bytes(50 * 1024);
    let upload = upload_image("cover.jpg", data.clone()).unwrap();
    assert_eq!(upload, Upload { file_name: "cover.jpg".to_string(), contents: data });
}

#[test]
fn an_upload_of_200_kib_is_cut_off_at_the_limit() {
    let data = bytes(200 * 1024);
    let upload = upload_image("cover.jpg", data.clone()).unwrap();
    assert_eq!(upload.contents.len(), 128 * 1024);
    assert_eq!(upload.contents[..], data[..128 * 1024]);
}

#[test]
fn an_upload_at_the_limit_is_kept_whole_and_one_byte_more_is_not() {
    let exact = bytes(UPLOAD_LIMIT);
    assert_eq!(upload_image("a.png", exact.clone()).unwrap().contents, exact);
    let below = bytes(UPLOAD_LIMIT - 1);
    assert_eq!(upload_image("a.png", below.clone()).unwrap().contents, below);
    let above = bytes(UPLOAD_LIMIT + 1);
    assert_eq!(upload_image("a.png", above).unwrap().contents, exact);
    assert_eq!(upload_image("a.png", Vec::new()).unwrap().contents, Vec::<u8>::new());
}

#[test]
fn an_upload_that_would_leave_the_directory_is_refused() {
    assert_eq!(upload_image("../cover.jpg", bytes(10)), Err(ApiError::NotFound));
    assert_eq!(upload_image("covers/cover.jpg", bytes(10)), Err(ApiError::NotFound));
    assert_eq!(upload_image("", bytes(10)), Err(ApiError::NotFound));
}

#[test]
fn a_failed_write_is_an_io_error() {
    assert_eq!(upload_outcome(true), Ok(()));
    assert_eq!(upload_outcome(false), Err(ApiError::IOError));
}

#[test]
fn an_image_is_served_under_its_own_name() {
    assert_eq!(get_image("cover.jpg"), Ok("cover.jpg".to_string()));
    assert_eq!(get_image("Abbey Road (1969).jpeg"), Ok("Abbey Road (1969).jpeg".to_string()));
    assert_eq!(get_image(".hidden"), Ok(".hidden".to_string()));
    assert_eq!(get_image("..."), Ok("...".to_string()));
    assert_eq!(get_image("caf\u{e9}.png"), Ok("caf\u{e9}.png".to_string()));
}

#[test]
fn a_name_that_leads_out_of_the_directory_is_not_found() {
    for name in [
        "", ".", "..", "../secret", "..\\secret", "a/b", "a\\b", "/etc/passwd", "C:secret",
        "cover.jpg\0.txt", "cover/", "\\",
    ] {
        assert!(!names_a_file(name), "{:?}", name);
        assert_eq!(get_image(name), Err(ApiError::NotFound), "{:?}", name);
    }
}

#[test]
fn a_missing_image_is_not_found() {
    assert_eq!(image_contents::<Vec<u8>>(None), Err(ApiError::NotFound));
    assert_eq!(image_contents(Some(vec![1, 2, 3])), Ok(vec![1, 2, 3]));
    assert_eq!(image_contents(Some(Vec::<u8>::new())), Ok(Vec::new()));
}

#[test]
fn an_unreadable_directory_lists_nothing() {
    assert_eq!(get_image_names(None), Vec::<String>::new());
}

#[test]
fn an_empty_directory_lists_nothing() {
    assert_eq!(get_image_names(Some(Vec::new())), Vec::<String>::new());
}

#[test]
fn a_directory_lists_its_entries() {
    let entries = vec!["b.jpg".to_string(), "a.jpg".to_string()];
    assert_eq!(get_image_names(Some(entries.clone())), entries);
}
