//! The cover images: files of one flat directory, known by their names.
//! Reading and writing the files is left to the caller; what is decided
//! here is which names are names of such files, how much of an upload is
//! kept, and what the outcome of each request is.

use vstd::prelude::*;
use crate::error::ApiError;

verus! {

/// The most bytes of an upload that are kept: 128 KiB.
pub const UPLOAD_LIMIT: usize = 131072;

/// Whether `c` can lead out of the directory: a path separator, the colon
/// that follows a drive letter, or the character that ends a C string.
pub open spec fn leads_out(c: char) -> bool {
    c == '/' || c == '\\' || c == ':' || c == '\0'
}

/// Whether `name` names a file of a flat directory: it is not empty, it is
/// neither `.` nor `..`, and no character of it leads out of the directory.
pub open spec fn is_file_name(name: Seq<char>) -> bool {
    &&& name.len() > 0
    &&& !(name.len() == 1 && name[0] == '.')
    &&& !(name.len() == 2 && name[0] == '.' && name[1] == '.')
    &&& forall|i: int| 0 <= i < name.len() ==> !leads_out(#[trigger] name[i])
}

/// Whether `name` names a file of a flat directory.
pub fn names_a_file(name: &str) -> (ok: bool)
    ensures
        ok == is_file_name(name@),
{
    let length = name.unicode_len();
    if length == 0 {
        return false;
    }
    if length == 1 && name.get_char(0) == '.' {
        return false;
    }
    if length == 2 && name.get_char(0) == '.' && name.get_char(1) == '.' {
        return false;
    }
    let mut i: usize = 0;
    while i < length
        invariant
            length == name@.len(),
            i <= length,
            forall|j: int| 0 <= j < i ==> !leads_out(#[trigger] name@[j]),
        decreases length - i,
    {
        let c = name.get_char(i);
        if c == '/' || c == '\\' || c == ':' || c == '\0' {
            return false;
        }
        i += 1;
    }
    true
}

/// The file to serve for `image_name`: the name itself, where it names a
/// file of the directory. Any other name names nothing there, and is
/// `NotFound`.
pub fn get_image(image_name: &str) -> (file: Result<String, ApiError>)
    ensures
        match file {
            Ok(name) => is_file_name(image_name@) && name@ == image_name@,
            Err(error) => !is_file_name(image_name@) && error == ApiError::NotFound,
        },
{
    if names_a_file(image_name) {
        Ok(image_name.to_owned())
    } else {
        Err(ApiError::NotFound)
    }
}

/// The answer to a request for an image, given what opening the file gave:
/// the file, or `NotFound` where there is no such file.
pub fn image_contents<F>(opened: Option<F>) -> (file: Result<F, ApiError>)
    ensures
        match opened {
            Some(found) => file == Ok::<F, ApiError>(found),
            None => file == Err::<F, ApiError>(ApiError::NotFound),
        },
{
    match opened {
        Some(found) => Ok(found),
        None => Err(ApiError::NotFound),
    }
}

/// The names to list, given what reading the directory gave: its entries,
/// or nothing where it could not be read. Listing never fails.
pub fn get_image_names(listing: Option<Vec<String>>) -> (names: Vec<String>)
    ensures
        match listing {
            Some(entries) => names == entries,
            None => names@.len() == 0,
        },
{
    match listing {
        Some(entries) => entries,
        None => Vec::new(),
    }
}

/// An upload that was accepted: the file to write, and what to write to it.
#[derive(Debug, PartialEq, Eq)]
pub struct Upload {
    pub file_name: String,
    pub contents: Vec<u8>,
}

/// What is kept of an upload of these bytes: all of them up to the limit,
/// and nothing beyond it.
pub open spec fn kept(image_data: Seq<u8>) -> Seq<u8> {
    if image_data.len() <= UPLOAD_LIMIT {
        image_data
    } else {
        image_data.take(UPLOAD_LIMIT as int)
    }
}

/// Accepts an upload under `filename`. The name must name a file of the
/// directory; any other is `NotFound`. The contents are cut off at
/// [`UPLOAD_LIMIT`]. A file of that name that exists already is to be
/// replaced.
pub fn upload_image(filename: &str, image_data: Vec<u8>) -> (upload: Result<Upload, ApiError>)
    ensures
        match upload {
            Ok(upload) => is_file_name(filename@) && upload.file_name@ == filename@
                && upload.contents@ == kept(image_data@),
            Err(error) => !is_file_name(filename@) && error == ApiError::NotFound,
        },
{
    if !names_a_file(filename) {
        return Err(ApiError::NotFound);
    }
    let mut contents = image_data;
    if contents.len() > UPLOAD_LIMIT {
        contents.truncate(UPLOAD_LIMIT);
        assert(contents@ =~= image_data@.take(UPLOAD_LIMIT as int));
    }
    Ok(Upload { file_name: filename.to_owned(), contents })
}

/// The answer to an upload, given whether the file was written: a write
/// that failed is reported as `IOError`.
pub fn upload_outcome(written: bool) -> (outcome: Result<(), ApiError>)
    ensures
        outcome == if written {
            Ok::<(), ApiError>(())
        } else {
            Err::<(), ApiError>(ApiError::IOError)
        },
{
    if written {
        Ok(())
    } else {
        Err(ApiError::IOError)
    }
}

} // verus!
