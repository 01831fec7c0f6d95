//! Properties of the request/response model that hold for every value
//! and every prior state.

use vstd::prelude::*;
use crate::decimal::decimal_seq;
use crate::handlers::Request;
use crate::handlers::next_state;
use crate::handlers::ok_empty_response;
use crate::handlers::response_of;

verus! {

/// A patch of any value `v`, in any state, leaves the value present, and
/// a read then answers 200 with exactly the decimal text of `v`.
pub proof fn lemma_patch_then_get(s: Option<u64>, v: u64)
    ensures
        next_state(s, Request::Patch(v)) == Some(v),
        response_of(next_state(s, Request::Patch(v)), Request::Get) == (
            200int,
            decimal_seq(v as nat),
        ),
{
}

/// A read changes nothing: the state after a read is the state before it.
pub proof fn lemma_get_preserves_state(s: Option<u64>)
    ensures
        next_state(s, Request::Get) == s,
{
}

/// Delete is idempotent: a delete in the absent state answers 200 and
/// leaves the state absent; after any delete, a second delete changes
/// nothing, and a read answers 404 with an empty body.
pub proof fn lemma_delete_idempotent(s: Option<u64>)
    ensures
        next_state(None::<u64>, Request::Delete) == None::<u64>,
        response_of(None::<u64>, Request::Delete) == ok_empty_response(),
        next_state(next_state(s, Request::Delete), Request::Delete) == next_state(
            s,
            Request::Delete,
        ),
        response_of(next_state(s, Request::Delete), Request::Get) == (
            404int,
            Seq::<char>::empty(),
        ),
{
}

/// After a patch of any value followed by a delete, the value is absent,
/// and a read answers 404 with an empty body.
pub proof fn lemma_patch_delete_get(s: Option<u64>, v: u64)
    ensures
        next_state(next_state(s, Request::Patch(v)), Request::Delete) == None::<u64>,
        response_of(
            next_state(next_state(s, Request::Patch(v)), Request::Delete),
            Request::Get,
        ) == (404int, Seq::<char>::empty()),
{
}

/// Last write wins: two patches in a row, with `v1` then `v2`, leave
/// exactly `v2` visible, whatever the prior state.
pub proof fn lemma_last_write_wins(s: Option<u64>, v1: u64, v2: u64)
    ensures
        next_state(next_state(s, Request::Patch(v1)), Request::Patch(v2)) == Some(v2),
        response_of(
            next_state(next_state(s, Request::Patch(v1)), Request::Patch(v2)),
            Request::Get,
        ) == (200int, decimal_seq(v2 as nat)),
{
}

} // verus!
