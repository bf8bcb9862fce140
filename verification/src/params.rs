//! The query parameters of the two endpoints. Optional fields have
//! documented defaults: override is false, compression is 0, and the
//! string fields default to empty.

use vstd::prelude::*;

verus! {

/// The parameters of an upload request: the shared access token, the
/// destination category, whether an existing asset at the same path
/// may be replaced, and a reserved compression level of which only 0
/// is accepted.
pub struct UploadImgParam {
    pub override_flag: bool,
    pub compress: u8,
    pub category: String,
    pub access_token: String,
}

impl UploadImgParam {
    /// The parameters of one upload request.
    pub fn new(access_token: &str, compress: u8, category: &str, override_flag: bool) -> (r: Self)
        ensures
            r.access_token@ == access_token@,
            r.compress == compress,
            r.category@ == category@,
            r.override_flag == override_flag,
    {
        UploadImgParam {
            access_token: access_token.to_owned(),
            compress,
            category: category.to_owned(),
            override_flag,
        }
    }

    /// Whether an existing asset at the destination may be replaced.
    pub fn override_flag(&self) -> (r: bool)
        ensures
            r == self.override_flag,
    {
        self.override_flag
    }

    /// The requested compression level; only 0 is accepted.
    pub fn compress(&self) -> (r: u8)
        ensures
            r == self.compress,
    {
        self.compress
    }

    /// The destination category's name.
    pub fn category(&self) -> (r: &String)
        ensures
            r == &self.category,
    {
        &self.category
    }

    /// The supplied access token.
    pub fn access_token(&self) -> (r: &String)
        ensures
            r == &self.access_token,
    {
        &self.access_token
    }
}

/// The parameters of a retrieval request: a reserved compression
/// level of which only 0 is accepted.
pub struct GetImgParam {
    pub compress: u8,
}

impl GetImgParam {
    /// The parameters of one retrieval request.
    pub fn new(compress: u8) -> (r: Self)
        ensures
            r.compress == compress,
    {
        GetImgParam { compress }
    }

    /// The requested compression level; only 0 is accepted.
    pub fn compress(&self) -> (r: u8)
        ensures
            r == self.compress,
    {
        self.compress
    }
}

} // verus!
