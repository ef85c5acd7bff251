//! The ping route: a liveness check that always succeeds.

use vstd::prelude::*;

use crate::handler::{success_json, Response};
use crate::json::push_str_bytes;

verus! {

/// GET `/ping`: status 200 with the successful body.
pub fn handler() -> (resp: Response)
    ensures
        resp.status == 200,
        resp.body@ == success_json(true),
{
    let mut out: Vec<u8> = Vec::new();
    push_str_bytes(&mut out, "{\"success\":true}");
    proof {
        assert(out@ =~= success_json(true));
    }
    Response { status: 200, body: out }
}

} // verus!
