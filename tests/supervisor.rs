use light_node::supervisor::{Action, Phase, Supervisor, SupervisorError, RETRY_DELAY_SECS};

const STALLED: &str = "{\"jsonrpc\":\"2.0\",\"id\":5,\"result\":{\"isSyncing\":false,\"peers\":0,\"shouldHavePeers\":false}}";
const HEALTHY: &str = "{\"jsonrpc\":\"2.0\",\"id\":6,\"result\":{\"isSyncing\":true,\"peers\":3,\"shouldHavePeers\":true}}";
const NEW_HEADS: &str = "{\"id\":1,\"jsonrpc\":\"2.0\",\"method\":\"chain_subscribeNewHeads\",\"params\":[]}";
const JUSTIFICATIONS: &str = "{\"id\":2,\"jsonrpc\":\"2.0\",\"method\":\"grandpa_subscribeJustifications\",\"params\":[]}";

fn subscription(id: u64, method: &str) -> String {
    format!("{{\"id\":{},\"jsonrpc\":\"2.0\",\"method\":\"{}\",\"params\":[]}}", id, method)
}

fn health_request(id: u64) -> String {
    format!("{{\"id\":{},\"jsonrpc\":\"2.0\",\"method\":\"system_health\",\"params\":[]}}", id)
}

fn assert_bootstrap(acts: &[Action], session: u64, first: u64) {
    assert_eq!(acts.len(), 2);
    let heads = subscription(first, "chain_subscribeNewHeads");
    let justifications = subscription(first + 1, "grandpa_subscribeJustifications");
    assert!(matches!(&acts[0], Action::Submit { session: s, request, bootstrap: true } if *s == session && *request == heads));
    assert!(matches!(&acts[1], Action::Submit { session: s, request, bootstrap: true } if *s == session && *request == justifications));
}

fn poll_id(acts: &[Action], session: u64) -> u64 {
    assert_eq!(acts.len(), 1);
    match &acts[0] {
        Action::Submit { session: s, request, bootstrap: false } => {
            assert_eq!(*s, session);
            let v: serde_json::Value = serde_json::from_str(request).unwrap();
            let id = v["id"].as_u64().unwrap();
            assert_eq!(request, &health_request(id));
            id
        }
        other => panic!("unexpected {:?}", other),
    }
}

fn running(session: u64) -> Supervisor {
    let mut sup = Supervisor::new();
    let start = sup.start();
    assert!(matches!(start.as_slice(), [Action::Open]));
    let acts = sup.on_opened(session);
    assert_bootstrap(&acts, session, 1);
    assert!(matches!(&acts[0], Action::Submit { request, .. } if request == NEW_HEADS));
    assert!(matches!(&acts[1], Action::Submit { request, .. } if request == JUSTIFICATIONS));
    assert_eq!(sup.phase(), Phase::Running);
    sup
}

#[test]
fn first_open_subscribes() {
    let sup = running(4);
    assert_eq!(sup.session(), 4);
    assert_eq!(sup.failed_opens(), 0);
}

#[test]
fn first_open_failure_is_fatal() {
    let mut sup = Supervisor::new();
    let acts = sup.on_open_failed();
    assert!(matches!(acts.as_slice(), [Action::Fail { error: SupervisorError::StartFailed }]));
}

#[test]
fn reconnect_retries_then_resubscribes() {
    let mut sup = running(1);
    assert_eq!(poll_id(&sup.on_poll_tick(), 1), 3);

    let acts = sup.on_response(STALLED.to_string());
    assert_eq!(acts.len(), 3);
    assert!(matches!(&acts[0], Action::Forward { response } if response == STALLED));
    assert!(matches!(&acts[1], Action::Close { session: 1 }));
    assert!(matches!(&acts[2], Action::Open));
    assert_eq!(sup.phase(), Phase::Reconnecting);
    assert!(sup.on_close_result(true).is_empty());

    for n in 1..=2u64 {
        let acts = sup.on_open_failed();
        assert_eq!(acts.len(), 2);
        assert!(matches!(&acts[0], Action::Wait { seconds } if *seconds == RETRY_DELAY_SECS));
        assert!(matches!(&acts[1], Action::Open));
        assert_eq!(sup.failed_opens(), n);
    }
    assert_eq!(RETRY_DELAY_SECS, 5);

    assert!(sup.on_stream_end().is_empty());
    assert_bootstrap(&sup.on_opened(9), 9, 4);
    assert_eq!(sup.phase(), Phase::Running);
    assert_eq!(sup.session(), 9);
    assert_eq!(sup.failed_opens(), 0);

    for text in ["a", "b", HEALTHY] {
        let acts = sup.on_response(text.to_string());
        assert_eq!(acts.len(), 1);
        assert!(matches!(&acts[0], Action::Forward { response } if response == text));
    }
    assert_eq!(poll_id(&sup.on_poll_tick(), 9), 6);
}

#[test]
fn poll_during_reconnect_is_skipped() {
    let mut sup = running(2);
    assert_eq!(poll_id(&sup.on_poll_tick(), 2), 3);
    sup.on_response(STALLED.to_string());
    assert!(sup.on_poll_tick().is_empty());
    assert!(sup.on_poll_tick().is_empty());
    assert_bootstrap(&sup.on_opened(3), 3, 4);
    assert_eq!(poll_id(&sup.on_poll_tick(), 3), 6);
}

#[test]
fn unhealthy_signals_during_reconnect_are_absorbed() {
    let mut sup = running(2);
    sup.on_response(STALLED.to_string());
    let acts = sup.on_response(STALLED.to_string());
    assert_eq!(acts.len(), 1);
    assert!(matches!(&acts[0], Action::Forward { .. }));
    assert_eq!(sup.phase(), Phase::Reconnecting);
}

#[test]
fn poll_ids_have_no_gaps() {
    let mut sup = running(1);
    let ids: Vec<u64> = (0..20).map(|_| poll_id(&sup.on_poll_tick(), 1)).collect();
    assert_eq!(ids, (3..23).collect::<Vec<u64>>());
}

#[test]
fn stream_end_while_running_is_fatal() {
    let sup = running(1);
    assert!(matches!(sup.on_stream_end().as_slice(), [Action::Fail { error: SupervisorError::StreamEnded }]));
    assert!(Supervisor::new().on_stream_end().is_empty());
}

#[test]
fn submit_outcomes() {
    let sup = running(1);
    assert!(matches!(sup.on_submit_result(true, false).as_slice(), [Action::Fail { error: SupervisorError::SubscribeFailed }]));
    assert!(sup.on_submit_result(true, true).is_empty());
    assert!(sup.on_submit_result(false, false).is_empty());
    assert!(sup.on_submit_result(false, true).is_empty());
}

#[test]
fn closing_twice_is_harmless() {
    let mut sup = running(1);
    sup.on_response(STALLED.to_string());
    assert!(sup.on_close_result(true).is_empty());
    assert!(sup.on_close_result(false).is_empty());
    assert_eq!(sup.phase(), Phase::Reconnecting);
}

#[test]
fn ids_are_never_reused_across_reconnects() {
    let mut sup = running(1);
    let mut ids: Vec<u64> = vec![1, 2];
    for round in 0..3u64 {
        ids.push(poll_id(&sup.on_poll_tick(), 1 + round));
        sup.on_response(STALLED.to_string());
        sup.on_open_failed();
        let first = *ids.last().unwrap() + 1;
        assert_bootstrap(&sup.on_opened(2 + round), 2 + round, first);
        ids.push(first);
        ids.push(first + 1);
    }
    assert_eq!(ids, (1..=(ids.len() as u64)).collect::<Vec<u64>>());
}
