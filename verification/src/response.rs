//! The uniform response envelope: every endpoint answers with a
//! `RestResponse`, whose `code` distinguishes success from each
//! failure kind.

use vstd::prelude::*;

verus! {

/// The outcome kind carried by every response envelope. `Ok` is the
/// only success kind; each other kind names one distinct failure.
#[derive(Clone, Copy, Debug, PartialEq, Eq, Structural)]
pub enum ResponseCode {
    /// The request succeeded.
    Success,
    /// A reserved, unbuilt feature was asked for (nonzero compression,
    /// or listing a category).
    NotImplemented,
    /// A storage or filesystem failure not attributable to the client.
    InternalError,
    /// The supplied access token does not match the configured one.
    InvalidToken,
    /// A file part arrived without a filename.
    BadFileName,
    /// A non-image part was uploaded to a category that only accepts
    /// image content.
    NotAnImage,
    /// The destination file already exists and override was not asked.
    FileExisted,
    /// The client's byte stream for a part could not be read.
    BadFile,
    /// The named category is not in the policy table.
    InvalidCategory,
}

impl ResponseCode {
    /// The integer that stands for this kind on the wire.
    pub open spec fn spec_u16(self) -> u16 {
        match self {
            ResponseCode::Success => 0,
            ResponseCode::NotImplemented => 998,
            ResponseCode::InternalError => 999,
            ResponseCode::InvalidToken => 1001,
            ResponseCode::BadFileName => 1002,
            ResponseCode::NotAnImage => 1003,
            ResponseCode::FileExisted => 1004,
            ResponseCode::BadFile => 1005,
            ResponseCode::InvalidCategory => 1006,
        }
    }

    /// The integer that stands for this kind on the wire.
    pub fn to_u16(&self) -> (r: u16)
        ensures
            r == self.spec_u16(),
    {
        match self {
            ResponseCode::Success => 0,
            ResponseCode::NotImplemented => 998,
            ResponseCode::InternalError => 999,
            ResponseCode::InvalidToken => 1001,
            ResponseCode::BadFileName => 1002,
            ResponseCode::NotAnImage => 1003,
            ResponseCode::FileExisted => 1004,
            ResponseCode::BadFile => 1005,
            ResponseCode::InvalidCategory => 1006,
        }
    }

    /// The kind that an integer on the wire stands for, if any.
    pub fn from_u16(code: u16) -> (r: Option<ResponseCode>)
        ensures
            r matches Some(c) ==> c.spec_u16() == code,
            r is None ==> forall|c: ResponseCode| c.spec_u16() != code,
    {
        match code {
            0u16 => Some(ResponseCode::Success),
            998u16 => Some(ResponseCode::NotImplemented),
            999u16 => Some(ResponseCode::InternalError),
            1001u16 => Some(ResponseCode::InvalidToken),
            1002u16 => Some(ResponseCode::BadFileName),
            1003u16 => Some(ResponseCode::NotAnImage),
            1004u16 => Some(ResponseCode::FileExisted),
            1005u16 => Some(ResponseCode::BadFile),
            1006u16 => Some(ResponseCode::InvalidCategory),
            _ => None,
        }
    }
}

/// The envelope wrapped around every endpoint's answer: a code, a
/// human-readable message, and the payload, present only on success.
pub struct RestResponse<TData> {
    pub code: ResponseCode,
    pub msg: String,
    pub data: Option<TData>,
}

impl<TData> RestResponse<TData> {
    /// An envelope carrying a payload.
    pub fn new(status: ResponseCode, msg: &str, data: TData) -> (r: Self)
        ensures
            r.code == status,
            r.msg@ == msg@,
            r.data == Some(data),
    {
        Self { code: status, msg: msg.to_owned(), data: Some(data) }
    }

    /// An envelope without a payload.
    pub fn new_no_data(status: ResponseCode, msg: &str) -> (r: Self)
        ensures
            r.code == status,
            r.msg@ == msg@,
            r.data is None,
    {
        Self { code: status, msg: msg.to_owned(), data: None }
    }

    /// The outcome kind of this envelope.
    pub fn code(&self) -> (r: ResponseCode)
        ensures
            r == self.code,
    {
        self.code
    }

    /// The human-readable message of this envelope.
    pub fn msg(&self) -> (r: &String)
        ensures
            r@ == self.msg@,
    {
        &self.msg
    }

    /// The payload, present only on success.
    pub fn data(&self) -> (r: Option<&TData>)
        ensures
            r matches Some(d) ==> self.data matches Some(e) && d == e,
            r is None ==> self.data is None,
    {
        self.data.as_ref()
    }
}

/// An HTTP status paired with the envelope sent as its body.
pub type StatusResponse<TData> = (u16, RestResponse<TData>);

/// A success answer: HTTP 200 with an `Ok` envelope carrying `data`.
pub fn response_ok<TData>(data: TData) -> (r: StatusResponse<TData>)
    ensures
        r.0 == 200,
        r.1.code == ResponseCode::Success,
        r.1.msg@ == "ok"@,
        r.1.data == Some(data),
{
    (200, RestResponse::new(ResponseCode::Success, "ok", data))
}

/// A success answer without a payload: HTTP 200 with an `Ok` envelope.
pub fn response_ok_no_data<TData>() -> (r: StatusResponse<TData>)
    ensures
        r.0 == 200,
        r.1.code == ResponseCode::Success,
        r.1.msg@ == "ok"@,
        r.1.data is None,
{
    (200, RestResponse::new_no_data(ResponseCode::Success, "ok"))
}

/// A failure answer: HTTP 400 with an envelope of the given kind.
pub fn response_no<TData>(code: ResponseCode, msg: &str) -> (r: StatusResponse<TData>)
    ensures
        r.0 == 400,
        r.1.code == code,
        r.1.msg@ == msg@,
        r.1.data is None,
{
    (400, RestResponse::new_no_data(code, msg))
}

} // verus!
