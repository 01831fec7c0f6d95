//! The three operations on the price, each as a function from store and
//! request to new store and response, with the response pinned exactly.

use vstd::prelude::*;
use crate::decimal::decimal_seq;
use crate::decimal::u64_to_decimal;
use crate::store::PriceStore;

verus! {

/// An HTTP response: a status code and a body.
pub struct Response {
    pub status: u16,
    pub body: String,
}

impl View for Response {
    type V = (int, Seq<char>);

    open spec fn view(&self) -> (int, Seq<char>) {
        (self.status as int, self.body@)
    }
}

/// One request to the price resource.
pub enum Request {
    Get,
    Patch(u64),
    Delete,
}

/// What a read returns: 200 with the decimal text when a value is
/// present, 404 with an empty body when it is absent.
pub open spec fn get_response(s: Option<u64>) -> (int, Seq<char>) {
    match s {
        Some(v) => (200int, decimal_seq(v as nat)),
        None => (404int, Seq::<char>::empty()),
    }
}

/// What every successful write returns: 200 with an empty body.
pub open spec fn ok_empty_response() -> (int, Seq<char>) {
    (200int, Seq::<char>::empty())
}

/// The state after a request: a patch stores its value, a delete clears,
/// a read changes nothing.
pub open spec fn next_state(s: Option<u64>, req: Request) -> Option<u64> {
    match req {
        Request::Get => s,
        Request::Patch(v) => Some(v),
        Request::Delete => None,
    }
}

/// The response to a request made in state `s`.
pub open spec fn response_of(s: Option<u64>, req: Request) -> (int, Seq<char>) {
    match req {
        Request::Get => get_response(s),
        Request::Patch(_) => ok_empty_response(),
        Request::Delete => ok_empty_response(),
    }
}

/// GET /price: 200 and the decimal text when present, else 404 and empty.
pub fn get_price(store: &PriceStore) -> (r: Response)
    ensures
        r@ == get_response(store@),
{
    match store.read() {
        Some(v) => Response { status: 200, body: u64_to_decimal(v) },
        None => Response { status: 404, body: String::new() },
    }
}

/// PATCH /price: stores the value, answers 200 with an empty body.
pub fn set_price(store: &mut PriceStore, v: u64) -> (r: Response)
    ensures
        final(store)@ == Some(v),
        r@ == ok_empty_response(),
{
    store.set(v);
    Response { status: 200, body: String::new() }
}

/// DELETE /price: clears the value, answers 200 with an empty body
/// whatever the prior state.
pub fn set_null_price(store: &mut PriceStore) -> (r: Response)
    ensures
        final(store)@ == None::<u64>,
        r@ == ok_empty_response(),
{
    store.clear();
    Response { status: 200, body: String::new() }
}

/// Dispatches one request: the new state and the response are exactly
/// `next_state` and `response_of` on the old state.
pub fn handle(store: &mut PriceStore, req: Request) -> (r: Response)
    ensures
        final(store)@ == next_state(old(store)@, req),
        r@ == response_of(old(store)@, req),
{
    match req {
        Request::Get => get_price(store),
        Request::Patch(v) => set_price(store, v),
        Request::Delete => set_null_price(store),
    }
}

} // verus!
