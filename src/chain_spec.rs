//! The chain specification: a genesis document with the boot node put in.
use vstd::prelude::*;

use crate::json::{json_text, parse_json, parsed_json, same_text, to_json_text, Json};

verus! {

/// Why a genesis document cannot become a chain specification.
#[derive(Clone, Copy, Debug, PartialEq, Eq, Structural)]
pub enum ChainSpecError {
    /// The text is not well-formed JSON.
    NotJson,
    /// The document is JSON but not an object.
    NotObject,
}

/// `fields` without the members named `key`, the others in order.
pub open spec fn without_key(fields: Seq<(String, Json)>, key: Seq<char>) -> Seq<(String, Json)>
    decreases fields.len(),
{
    if fields.len() == 0 {
        Seq::empty()
    } else if fields[0].0@ == key {
        without_key(fields.drop_first(), key)
    } else {
        seq![fields[0]] + without_key(fields.drop_first(), key)
    }
}

/// Whether a member is `"bootNodes": [boot]`.
pub open spec fn is_boot_nodes_member(m: (String, Json), boot: Seq<char>) -> bool {
    &&& m.0@ == "bootNodes"@
    &&& m.1 matches Json::Array(a) && a@.len() == 1 && (a@[0] matches Json::Str(s) && s@ == boot)
}

/// Whether `t` is the genesis object `fields` with `bootNodes` set to the one
/// address `boot`: every other member kept in order, any earlier `bootNodes`
/// dropped, the new one last.
pub open spec fn is_chain_spec_tree(t: Json, fields: Seq<(String, Json)>, boot: Seq<char>) -> bool {
    match t {
        Json::Object(f) => {
            &&& f@.len() > 0
            &&& f@.drop_last() == without_key(fields, "bootNodes"@)
            &&& is_boot_nodes_member(f@.last(), boot)
        },
        _ => false,
    }
}

/// What a genesis text gives: the text of its chain specification, or why there is none.
pub open spec fn chain_spec_outcome(genesis: Seq<char>, boot: Seq<char>, r: Result<String, ChainSpecError>) -> bool {
    match parsed_json(genesis) {
        None => r == Err::<String, ChainSpecError>(ChainSpecError::NotJson),
        Some(Json::Object(fields)) => r matches Ok(text) && exists|t: Json|
            is_chain_spec_tree(t, fields@, boot) && text@ == json_text(t),
        Some(_) => r == Err::<String, ChainSpecError>(ChainSpecError::NotObject),
    }
}

/// Sets `bootNodes` in an object's members to the single address `boot`.
pub fn set_boot_nodes(fields: Vec<(String, Json)>, boot: String) -> (r: Vec<(String, Json)>)
    ensures
        r@.len() > 0,
        r@.drop_last() == without_key(fields@, "bootNodes"@),
        is_boot_nodes_member(r@.last(), boot@),
{
    let mut rest = fields;
    let mut out: Vec<(String, Json)> = Vec::new();
    let ghost orig = rest@;
    while rest.len() > 0
        invariant
            without_key(orig, "bootNodes"@) == out@ + without_key(rest@, "bootNodes"@),
        decreases rest@.len(),
    {
        let ghost before = rest@;
        let m = rest.remove(0);
        assert(before.drop_first() =~= rest@);
        if same_text(&m.0, "bootNodes") {
        } else {
            let ghost out0 = out@;
            out.push(m);
            assert(out0 + (seq![m] + without_key(rest@, "bootNodes"@))
                =~= out@ + without_key(rest@, "bootNodes"@));
        }
    }
    assert(out@ + without_key(rest@, "bootNodes"@) =~= out@);
    let mut nodes: Vec<Json> = Vec::new();
    nodes.push(Json::Str(boot));
    let ghost kept = out@;
    out.push(("bootNodes".to_owned(), Json::Array(nodes)));
    assert(out@.drop_last() =~= kept);
    out
}

/// Builds the chain specification from a genesis document and one boot node
/// address: the genesis object with `bootNodes` set to `[boot_node]`.
pub fn build_chain_spec(genesis: &str, boot_node: String) -> (r: Result<String, ChainSpecError>)
    ensures
        chain_spec_outcome(genesis@, boot_node@, r),
{
    match parse_json(genesis) {
        None => Err(ChainSpecError::NotJson),
        Some(Json::Object(fields)) => {
            let ghost f0 = fields@;
            let t = Json::Object(set_boot_nodes(fields, boot_node));
            let text = to_json_text(&t);
            assert(is_chain_spec_tree(t, f0, boot_node@));
            Ok(text)
        },
        Some(_) => Err(ChainSpecError::NotObject),
    }
}

} // verus!
