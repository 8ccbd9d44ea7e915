//! The image upload services the finished capture can be sent to, and
//! what each promises.

use vstd::prelude::*;

verus! {

/// The image upload service used when sending a capture online.
#[derive(Clone, Copy, Debug, PartialEq, Eq, Structural)]
pub enum ImageUploadService {
    /// litterbox.catbox.moe: large uploads, short-lived.
    Litterbox,
    /// catbox.moe: permanent-ish hosting.
    Catbox,
    /// 0x0.st: the null pointer.
    TheNullPointer,
    /// uguu.se: small, very short-lived uploads.
    Uguu,
}

/// What came back from a completed upload.
#[derive(Clone, Debug, PartialEq, Eq)]
pub struct ImageUploaded {
    /// Link to the uploaded image.
    pub link: String,
    /// Rough lifetime estimate, for display only.
    pub expires_in: String,
}

impl ImageUploadService {
    /// Conservative estimate of how long until an upload expires.
    pub fn expires_in(self) -> (r: &'static str)
        ensures
            self is Litterbox ==> r@ == "3 days"@,
            self is Catbox ==> r@ == "2 weeks"@,
            self is TheNullPointer ==> r@ == "30 days"@,
            self is Uguu ==> r@ == "3 hours"@,
    {
        match self {
            ImageUploadService::Litterbox => "3 days",
            ImageUploadService::Catbox => "2 weeks",
            ImageUploadService::TheNullPointer => "30 days",
            ImageUploadService::Uguu => "3 hours",
        }
    }

    /// The base URL where image files are posted.
    pub fn post_url(self) -> (r: &'static str)
        ensures
            self is TheNullPointer ==> r@ == "https://0x0.st"@,
            self is Uguu ==> r@ == "https://uguu.se/upload"@,
            self is Catbox ==> r@ == "https://catbox.moe/user/api.php"@,
            self is Litterbox ==> r@ == "https://litterbox.catbox.moe/resources/internals/api.php"@,
    {
        match self {
            ImageUploadService::TheNullPointer => "https://0x0.st",
            ImageUploadService::Uguu => "https://uguu.se/upload",
            ImageUploadService::Catbox => "https://catbox.moe/user/api.php",
            ImageUploadService::Litterbox => "https://litterbox.catbox.moe/resources/internals/api.php",
        }
    }
}

} // verus!
