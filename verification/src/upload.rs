//! Image uploads: what is stored for an uploaded file, and where.

use vstd::prelude::*;

verus! {

/// An image that is about to be stored: `url` is the name of the file.
#[derive(Clone, Debug, PartialEq, Eq)]
pub struct NewImage {
    pub url: String,
}

/// Why an upload was turned away. Both are faults of the request.
#[derive(Clone, Copy, Debug, PartialEq, Eq, Structural)]
pub enum UploadError {
    /// The form has no file in its media field.
    NoFile,
    /// The file came without a name.
    NoFileName,
}

/// The directory that uploaded images are written to, with its separator.
pub open spec fn image_dir() -> Seq<char> {
    seq!['i', 'm', 'a', 'g', 'e', 's', '/']
}

/// The path that the image with this file name is written to.
pub open spec fn image_path(file_name: Seq<char>) -> Seq<char> {
    image_dir() + file_name
}

/// The text that the client is told for an upload error.
pub open spec fn upload_message(e: UploadError) -> Seq<char> {
    match e {
        UploadError::NoFile => "No file provided"@,
        UploadError::NoFileName => "No file name provided"@,
    }
}

impl UploadError {
    /// The HTTP status that the client receives: a bad request.
    pub fn status(&self) -> (code: u16)
        ensures
            code == 400,
    {
        400
    }

    /// The message that the client receives.
    pub fn message(&self) -> (text: &'static str)
        ensures
            text@ == upload_message(*self),
    {
        match self {
            UploadError::NoFile => "No file provided",
            UploadError::NoFileName => "No file name provided",
        }
    }
}

/// The path that the image with this file name is written to.
pub fn image_path_of(file_name: &str) -> (path: String)
    ensures
        path@ == image_path(file_name@),
{
    proof {
        reveal_strlit("images/");
        assert("images/"@ =~= image_dir());
    }
    let mut path = String::from_str("images/");
    path.append(file_name);
    path
}

/// Decides what to do with an upload. `first_file` is the name of the first
/// file of the media field: `None` where the form has no such file, and
/// `Some(None)` where the file has no name. An upload that is taken gives the
/// record to store, whose url is the file name, and the path to write the file
/// to.
pub fn plan_upload(first_file: Option<Option<String>>) -> (r: Result<(NewImage, String), UploadError>)
    ensures
        match first_file {
            None => r == Err::<(NewImage, String), UploadError>(UploadError::NoFile),
            Some(None) => r == Err::<(NewImage, String), UploadError>(UploadError::NoFileName),
            Some(Some(name)) => r is Ok && r->Ok_0.0.url == name && r->Ok_0.1@ == image_path(name@),
        },
{
    match first_file {
        None => Err(UploadError::NoFile),
        Some(None) => Err(UploadError::NoFileName),
        Some(Some(name)) => {
            let path = image_path_of(name.as_str());
            Ok((NewImage { url: name }, path))
        },
    }
}

} // verus!
