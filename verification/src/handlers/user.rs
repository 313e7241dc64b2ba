//! Profile pictures: where an upload is kept, and how a failed upload is
//! reported.

use crate::api::ApiError;
use crate::json::{no_members, object, put, view_members, Json, JsonView};
use vstd::prelude::*;

verus! {

/// The width and the height, in pixels, within which a profile picture
/// is kept.
pub const PROFILE_IMAGE_SIZE: u32 = 200;

/// Why an upload failed. Each variant but the last carries what the part
/// that failed said of it.
#[derive(Debug, PartialEq)]
pub enum UserError {
    ImageError(String),
    MongoError(String),
    BsonError(String),
    IoError(String),
    ActixError(String),
    MultipartError(String),
    BlockingError,
}

impl UserError {
    /// The line that reports the failure.
    pub open spec fn text(self) -> Seq<char> {
        match self {
            UserError::ImageError(e) => "Billedfejl: "@ + e@,
            UserError::MongoError(e) => "Database fejl: "@ + e@,
            UserError::BsonError(e) => "BSON fejl: "@ + e@,
            UserError::IoError(e) => "IO fejl: "@ + e@,
            UserError::ActixError(e) => "Actix fejl: "@ + e@,
            UserError::MultipartError(e) => "Multipart fejl: "@ + e@,
            UserError::BlockingError => "Blocking operation fejl"@,
        }
    }

    /// The body of the answer to a failed upload: `{error}`.
    pub open spec fn body(self) -> JsonView {
        JsonView::Object(seq![("error"@, JsonView::Str(self.text()))])
    }

    /// The line that reports the failure.
    pub fn message(&self) -> (line: String)
        ensures
            line@ == self.text(),
    {
        match self {
            UserError::ImageError(e) => "Billedfejl: ".to_owned().concat(e.as_str()),
            UserError::MongoError(e) => "Database fejl: ".to_owned().concat(e.as_str()),
            UserError::BsonError(e) => "BSON fejl: ".to_owned().concat(e.as_str()),
            UserError::IoError(e) => "IO fejl: ".to_owned().concat(e.as_str()),
            UserError::ActixError(e) => "Actix fejl: ".to_owned().concat(e.as_str()),
            UserError::MultipartError(e) => "Multipart fejl: ".to_owned().concat(e.as_str()),
            UserError::BlockingError => "Blocking operation fejl".to_owned(),
        }
    }

    /// The body of the answer to a failed upload, which goes out with the
    /// status 500.
    pub fn error_response(&self) -> (body: Json)
        ensures
            body@ == self.body(),
    {
        let mut members = no_members();
        put(&mut members, "error", Json::Str(self.message()));
        assert(view_members(members@) =~= self.body()->Object_0);
        object(members)
    }
}

/// Where an uploaded picture is kept.
#[derive(Debug, PartialEq)]
pub struct Upload {
    /// The file that holds the picture.
    pub file_path: String,
    /// The path under which clients fetch it.
    pub profile_image: String,
}

/// The file that holds the picture with the given id.
pub open spec fn upload_file(file_id: Seq<char>) -> Seq<char> {
    "uploads/"@ + file_id + ".jpg"@
}

/// The path under which clients fetch the picture with the given id.
pub open spec fn upload_url(file_id: Seq<char>) -> Seq<char> {
    "/uploads/"@ + file_id + ".jpg"@
}

/// Calls `Uuid::new_v4` of uuid and writes the result as text. The id is
/// random, so the contract claims nothing of it.
#[verifier::external_body]
fn new_file_id() -> (id: String) {
    uuid::Uuid::new_v4().to_string()
}

/// Where the picture with the given id is kept.
pub fn upload_target(file_id: &str) -> (upload: Upload)
    ensures
        upload.file_path@ == upload_file(file_id@),
        upload.profile_image@ == upload_url(file_id@),
{
    Upload {
        file_path: "uploads/".to_owned().concat(file_id).concat(".jpg"),
        profile_image: "/uploads/".to_owned().concat(file_id).concat(".jpg"),
    }
}

/// Decides where an uploaded picture is kept: under a new id, where the
/// upload holds a file at all.
pub fn upload_profile_image(has_file: bool) -> (outcome: Result<Upload, ApiError>)
    ensures
        match outcome {
            Ok(upload) => has_file && exists|id: Seq<char>|
                upload.file_path@ == upload_file(id) && upload.profile_image@ == upload_url(id),
            Err(error) => !has_file && error == ApiError::NoFile,
        },
{
    if !has_file {
        return Err(ApiError::NoFile);
    }
    let file_id = new_file_id();
    Ok(upload_target(file_id.as_str()))
}

} // verus!
