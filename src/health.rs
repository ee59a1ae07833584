//! Decoding of health replies and the decision whether the connection must be
//! rebuilt.
use vstd::prelude::*;

use crate::json::{get_member, member, number_u32, parse_json, parse_u32, parsed_json, Json};

verus! {

/// What a health reply reports of the node.
#[derive(Clone, Copy, Debug, PartialEq, Eq, Structural)]
pub struct HealthSnapshot {
    pub is_syncing: bool,
    pub peers: u32,
    pub should_have_peers: bool,
}

/// The boolean a member holds, if it is one.
pub open spec fn bool_of(v: Option<Json>) -> Option<bool> {
    match v {
        Some(Json::Bool(b)) => Some(b),
        _ => None,
    }
}

/// The `u32` a member holds, if it is one.
pub open spec fn u32_of(v: Option<Json>) -> Option<u32> {
    match v {
        Some(Json::Number(t)) => number_u32(t@),
        _ => None,
    }
}

/// Whether a member is present and is a string.
pub open spec fn is_string(v: Option<Json>) -> bool {
    v matches Some(Json::Str(_))
}

/// Builds a snapshot from its three members, where each has its type.
pub open spec fn snapshot_from(s: Option<bool>, p: Option<u32>, h: Option<bool>) -> Option<HealthSnapshot> {
    if s is Some && p is Some && h is Some {
        Some(HealthSnapshot { is_syncing: s->0, peers: p->0, should_have_peers: h->0 })
    } else {
        None
    }
}

/// The snapshot inside the `result` member of a health reply: an object with
/// the booleans `isSyncing` and `shouldHavePeers` and the `u32` `peers`, or an
/// array of exactly those three in that order.
pub open spec fn snapshot_of_result(v: Option<Json>) -> Option<HealthSnapshot> {
    match v {
        Some(Json::Object(r)) => snapshot_from(
            bool_of(member(r@, "isSyncing"@)),
            u32_of(member(r@, "peers"@)),
            bool_of(member(r@, "shouldHavePeers"@)),
        ),
        Some(Json::Array(r)) => if r@.len() == 3 {
            snapshot_from(bool_of(Some(r@[0])), u32_of(Some(r@[1])), bool_of(Some(r@[2])))
        } else {
            None
        },
        _ => None,
    }
}

/// A health reply is an object with a string `jsonrpc`, a `u32` `id` and a
/// `result` (see `snapshot_of_result`); other members are ignored. An array of
/// exactly those three, in that order, is read the same way. Anything else is
/// no health reply.
pub open spec fn health_snapshot(v: Json) -> Option<HealthSnapshot> {
    match v {
        Json::Object(fields) => {
            if is_string(member(fields@, "jsonrpc"@)) && u32_of(member(fields@, "id"@)) is Some {
                snapshot_of_result(member(fields@, "result"@))
            } else {
                None
            }
        },
        Json::Array(items) => {
            if items@.len() == 3 && is_string(Some(items@[0])) && u32_of(Some(items@[1])) is Some {
                snapshot_of_result(Some(items@[2]))
            } else {
                None
            }
        },
        _ => None,
    }
}

/// The stalled signal: not syncing, no peers, and none expected.
pub open spec fn unhealthy(h: HealthSnapshot) -> bool {
    !h.is_syncing && !h.should_have_peers && h.peers == 0
}

/// Whether a tree calls for a reconnect: only a health reply that is unhealthy does.
pub open spec fn value_verdict(v: Json) -> bool {
    match health_snapshot(v) {
        Some(h) => unhealthy(h),
        None => false,
    }
}

/// Whether a response text calls for a reconnect; a text that does not parse does not.
pub open spec fn text_verdict(s: Seq<char>) -> bool {
    match parsed_json(s) {
        Some(v) => value_verdict(v),
        None => false,
    }
}

fn json_bool(v: Option<&Json>) -> (r: Option<bool>)
    ensures
        r == bool_of(match v { Some(j) => Some(*j), None => None }),
{
    match v {
        Some(Json::Bool(b)) => Some(*b),
        _ => None,
    }
}

fn json_u32(v: Option<&Json>) -> (r: Option<u32>)
    ensures
        r == u32_of(match v { Some(j) => Some(*j), None => None }),
{
    match v {
        Some(Json::Number(t)) => parse_u32(t),
        _ => None,
    }
}

fn json_is_string(v: Option<&Json>) -> (r: bool)
    ensures
        r == is_string(match v { Some(j) => Some(*j), None => None }),
{
    match v {
        Some(Json::Str(_)) => true,
        _ => false,
    }
}

fn make_snapshot(s: Option<bool>, p: Option<u32>, h: Option<bool>) -> (r: Option<HealthSnapshot>)
    ensures
        r == snapshot_from(s, p, h),
{
    match (s, p, h) {
        (Some(s), Some(p), Some(h)) => Some(HealthSnapshot { is_syncing: s, peers: p, should_have_peers: h }),
        _ => None,
    }
}

fn decode_result(v: Option<&Json>) -> (r: Option<HealthSnapshot>)
    ensures
        r == snapshot_of_result(match v { Some(j) => Some(*j), None => None }),
{
    match v {
        Some(Json::Object(r)) => make_snapshot(
            json_bool(get_member(r, "isSyncing")),
            json_u32(get_member(r, "peers")),
            json_bool(get_member(r, "shouldHavePeers")),
        ),
        Some(Json::Array(r)) => {
            if r.len() == 3 {
                make_snapshot(json_bool(Some(&r[0])), json_u32(Some(&r[1])), json_bool(Some(&r[2])))
            } else {
                None
            }
        },
        _ => None,
    }
}

/// Reads a health reply out of a tree.
pub fn decode_health(v: &Json) -> (r: Option<HealthSnapshot>)
    ensures
        r == health_snapshot(*v),
{
    match v {
        Json::Object(fields) => {
            if json_is_string(get_member(fields, "jsonrpc")) && json_u32(get_member(fields, "id")).is_some() {
                decode_result(get_member(fields, "result"))
            } else {
                None
            }
        },
        Json::Array(items) => {
            if items.len() == 3 && json_is_string(Some(&items[0])) && json_u32(Some(&items[1])).is_some() {
                decode_result(Some(&items[2]))
            } else {
                None
            }
        },
        _ => None,
    }
}

impl HealthSnapshot {
    /// Whether this snapshot is the stalled signal.
    pub fn needs_reconnect(&self) -> (r: bool)
        ensures
            r == unhealthy(*self),
    {
        !self.is_syncing && !self.should_have_peers && self.peers == 0
    }
}

/// Whether a parsed response calls for a reconnect.
pub fn check_value(v: &Json) -> (r: bool)
    ensures
        r == value_verdict(*v),
{
    match decode_health(v) {
        Some(h) => h.needs_reconnect(),
        None => false,
    }
}

/// Whether a response text calls for a reconnect. Never fails: a text that is
/// not a health reply gives `false`.
pub fn check_if_need_reconnect(resp: &str) -> (r: bool)
    ensures
        r == text_verdict(resp@),
{
    match parse_json(resp) {
        Some(v) => check_value(&v),
        None => false,
    }
}

/// A health reply that reports peers, syncing, or that peers are expected
/// never calls for a reconnect.
pub proof fn healthy_reply_needs_no_reconnect(v: Json)
    requires
        health_snapshot(v) matches Some(h) && (h.peers > 0 || h.is_syncing || h.should_have_peers),
    ensures
        !value_verdict(v),
{
}

/// A reply with no peers, not syncing and expecting none calls for a reconnect.
pub proof fn stalled_reply_needs_reconnect(v: Json)
    requires
        health_snapshot(v) matches Some(h) && h.peers == 0 && !h.is_syncing && !h.should_have_peers,
    ensures
        value_verdict(v),
{
}

/// A text that does not parse, or parses to something other than a health
/// reply, never calls for a reconnect.
pub proof fn other_text_needs_no_reconnect(s: Seq<char>)
    requires
        parsed_json(s) matches Some(v) ==> health_snapshot(v) is None,
    ensures
        !text_verdict(s),
{
}

} // verus!
