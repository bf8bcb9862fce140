//! The client-side half of an upload: once the server's answer has
//! been read and parsed into an envelope, decide what the upload call
//! returns to its caller.

use vstd::prelude::*;
use crate::response::ResponseCode;
use crate::response::RestResponse;

verus! {

/// Turns the server's parsed answer into the upload call's result:
/// the list of public URLs on success, the server's message as the
/// error otherwise.
pub fn picup_outcome(res: RestResponse<Vec<String>>) -> (r: Result<Vec<String>, String>)
    requires
        res.code == ResponseCode::Success ==> res.data is Some,
    ensures
        res.code == ResponseCode::Success ==> (r matches Ok(urls) && urls == res.data->0),
        res.code != ResponseCode::Success ==> (r matches Err(msg) && msg@ == res.msg@),
{
    if res.code() == ResponseCode::Success {
        match res.data {
            Some(urls) => Ok(urls),
            None => Err(res.msg),
        }
    } else {
        Err(res.msg)
    }
}

} // verus!
