//! JSON-RPC request texts and the counter that numbers them.
use vstd::prelude::*;

use crate::json::{digits_value, is_canonical_digits, json_text, number_from_u64, to_json_text, Json};

verus! {

/// Whether `t` is the request object `{"id":id,"jsonrpc":"2.0","method":method,"params":params}`,
/// its members in that order.
pub open spec fn is_request_tree(t: Json, id: u64, method: Seq<char>, params: Seq<Json>) -> bool {
    match t {
        Json::Object(f) => {
            &&& f@.len() == 4
            &&& f@[0].0@ == "id"@
            &&& f@[0].1 matches Json::Number(n) && is_canonical_digits(n@) && digits_value(n@) == id
            &&& f@[1].0@ == "jsonrpc"@
            &&& f@[1].1 matches Json::Str(v) && v@ == "2.0"@
            &&& f@[2].0@ == "method"@
            &&& f@[2].1 matches Json::Str(m) && m@ == method
            &&& f@[3].0@ == "params"@
            &&& f@[3].1 matches Json::Array(p) && p@ == params
        },
        _ => false,
    }
}

/// Whether `text` is the JSON text of a request with this id, method and parameters.
pub open spec fn is_request_text(text: Seq<char>, id: u64, method: Seq<char>, params: Seq<Json>) -> bool {
    exists|t: Json| is_request_tree(t, id, method, params) && text == json_text(t)
}

/// The request object.
pub fn request_tree(id: u64, method: &str, params: Vec<Json>) -> (r: Json)
    ensures
        is_request_tree(r, id, method@, params@),
{
    let mut f: Vec<(String, Json)> = Vec::new();
    f.push(("id".to_owned(), number_from_u64(id)));
    f.push(("jsonrpc".to_owned(), Json::Str("2.0".to_owned())));
    f.push(("method".to_owned(), Json::Str(method.to_owned())));
    f.push(("params".to_owned(), Json::Array(params)));
    Json::Object(f)
}

/// The text of a request.
pub fn build_request(id: u64, method: &str, params: Vec<Json>) -> (r: String)
    ensures
        is_request_text(r@, id, method@, params@),
{
    let t = request_tree(id, method, params);
    to_json_text(&t)
}

/// Hands out request ids 1, 2, 3, ... and records those handed out.
pub struct RequestIds {
    next: u64,
    issued: Ghost<Seq<u64>>,
}

impl RequestIds {
    /// The id that the next request gets.
    pub closed spec fn next_id(&self) -> u64 {
        self.next
    }

    /// The ids handed out so far, in order.
    pub closed spec fn issued(&self) -> Seq<u64> {
        self.issued@
    }

    /// The ids handed out are 1 up to the one before the next.
    pub open spec fn wf(&self) -> bool {
        &&& self.next_id() >= 1
        &&& self.issued().len() + 1 == self.next_id()
        &&& forall|i: int| 0 <= i < self.issued().len() ==> self.issued()[i] == i + 1
    }

    pub fn new() -> (r: Self)
        ensures
            r.wf(),
            r.next_id() == 1,
            r.issued().len() == 0,
    {
        RequestIds { next: 1, issued: Ghost(Seq::empty()) }
    }

    /// Whether every id up to the largest `u64` has been handed out.
    pub fn is_exhausted(&self) -> (r: bool)
        ensures
            r == (self.next_id() == u64::MAX),
    {
        self.next == u64::MAX
    }

    /// Whether the next id is below `bound`.
    pub fn next_id_below(&self, bound: u64) -> (r: bool)
        ensures
            r == (self.next_id() < bound),
    {
        self.next < bound
    }

    /// Hands out the next id.
    pub fn take(&mut self) -> (id: u64)
        requires
            old(self).wf(),
            old(self).next_id() < u64::MAX,
        ensures
            final(self).wf(),
            id == old(self).next_id(),
            final(self).next_id() == id + 1,
            final(self).issued() == old(self).issued().push(id),
    {
        let id = self.next;
        self.next = self.next + 1;
        self.issued = Ghost(self.issued@.push(id));
        id
    }
}

/// Request ids are handed out as 1, 2, ..., N: strictly increasing, with no
/// repeat and no gap. The counter is never reset: every request of the
/// supervisor, the subscriptions after a reconnect included, takes its id here.
pub proof fn ids_are_consecutive(c: RequestIds)
    requires
        c.wf(),
    ensures
        forall|i: int| 0 <= i < c.issued().len() ==> c.issued()[i] == i + 1,
        forall|i: int, j: int| 0 <= i < j < c.issued().len() ==> c.issued()[i] < c.issued()[j],
        c.next_id() == c.issued().len() + 1,
{
}

} // verus!
