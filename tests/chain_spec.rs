use light_node::chain_spec::{build_chain_spec, ChainSpecError};

fn value(s: &str) -> serde_json::Value {
    serde_json::from_str(s).unwrap()
}

#[test]
fn boot_node_is_added() {
    let spec = build_chain_spec("{\"name\":\"test\"}", "/ip4/1.2.3.4/tcp/30333".to_string()).unwrap();
    assert_eq!(value(&spec), value("{\"name\":\"test\",\"bootNodes\":[\"/ip4/1.2.3.4/tcp/30333\"]}"));
    assert_eq!(spec, "{\"bootNodes\":[\"/ip4/1.2.3.4/tcp/30333\"],\"name\":\"test\"}");
}

#[test]
fn boot_nodes_are_replaced() {
    let genesis = "{\"bootNodes\":[\"a\",\"b\"],\"id\":\"x\",\"genesis\":{\"raw\":{}}}";
    let spec = build_chain_spec(genesis, "c".to_string()).unwrap();
    assert_eq!(value(&spec), value("{\"bootNodes\":[\"c\"],\"id\":\"x\",\"genesis\":{\"raw\":{}}}"));
}

#[test]
fn empty_genesis_object() {
    assert_eq!(build_chain_spec("{}", "n".to_string()).unwrap(), "{\"bootNodes\":[\"n\"]}");
}

#[test]
fn genesis_errors() {
    assert_eq!(build_chain_spec("{", "n".to_string()), Err(ChainSpecError::NotJson));
    assert_eq!(build_chain_spec("", "n".to_string()), Err(ChainSpecError::NotJson));
    assert_eq!(build_chain_spec("[1]", "n".to_string()), Err(ChainSpecError::NotObject));
    assert_eq!(build_chain_spec("\"s\"", "n".to_string()), Err(ChainSpecError::NotObject));
}

#[test]
fn other_members_are_kept() {
    let genesis = "{\"z\":[null,false,-2,\"\\u00e9\",1.5e3],\"a\":{\"b\":true}}";
    let spec = build_chain_spec(genesis, "x".to_string()).unwrap();
    assert_eq!(spec, "{\"a\":{\"b\":true},\"bootNodes\":[\"x\"],\"z\":[null,false,-2,\"\u{e9}\",1500.0]}");
}
