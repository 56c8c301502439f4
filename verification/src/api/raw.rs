//! Raw calls: any intent, with data that the caller has made.

use vstd::prelude::*;
use crate::api::IntentCall;
use crate::util::json::Json;

verus! {

/// Raw calls.
pub struct RawService;

impl RawService {
    /// Call an arbitrary intent.
    pub fn call(intent: &str, data: Json, include_access_token: bool, idempotent: bool) -> (r:
        IntentCall)
        ensures
            r.intent@ == intent@,
            r.data == data,
            r.include_access_token == include_access_token,
            r.idempotent == idempotent,
    {
        IntentCall { intent: intent.to_owned(), data, include_access_token, idempotent }
    }
}

} // verus!
