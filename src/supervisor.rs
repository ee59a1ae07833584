//! The connection supervisor's decisions: from its state and what happened to
//! the session, the next state and the actions to perform.
//!
//! The caller performs the actions in order and reports each outcome back.
//! While a reconnect is in progress, health polls are skipped rather than
//! queued: they fail fast and the next tick tries again.
use vstd::prelude::*;

use crate::health::{check_if_need_reconnect, text_verdict};
use crate::request::{build_request, is_request_text, RequestIds};

verus! {

/// Seconds to wait after a failed open before the next attempt.
pub const RETRY_DELAY_SECS: u64 = 5;

/// Seconds between two health polls.
pub const POLL_INTERVAL_SECS: u64 = 1;

/// Where the supervised session stands.
#[derive(Clone, Copy, Debug, PartialEq, Eq, Structural)]
pub enum Phase {
    /// No session has been opened yet.
    Starting,
    /// A session is open and its responses are being drained.
    Running,
    /// The old session was dropped and a new one is being opened.
    Reconnecting,
}

/// A condition that ends supervision.
#[derive(Clone, Copy, Debug, PartialEq, Eq, Structural)]
pub enum SupervisorError {
    /// The first session could not be opened.
    StartFailed,
    /// A subscription on a freshly opened session was refused.
    SubscribeFailed,
    /// The response stream ended with no unhealthy signal before it.
    StreamEnded,
    /// Fewer than two request ids are left for the subscriptions.
    IdsExhausted,
}

/// Something the caller must do.
#[derive(Debug)]
pub enum Action {
    /// Open a new session with the chain specification.
    Open,
    /// Close a session; its outcome does not matter.
    Close { session: u64 },
    /// Submit a request on a session. `bootstrap` marks the subscriptions
    /// sent right after an open.
    Submit { session: u64, request: String, bootstrap: bool },
    /// Hand a response to the output, as it is.
    Forward { response: String },
    /// Wait this many seconds.
    Wait { seconds: u64 },
    /// Stop supervising with this error.
    Fail { error: SupervisorError },
}

/// Whether `a` submits request `id` with `method` and no parameters on `session`.
pub open spec fn is_submit(a: Action, session: u64, id: u64, method: Seq<char>, bootstrap: bool) -> bool {
    a matches Action::Submit { session: s, request: q, bootstrap: b } && s == session && b
        == bootstrap && is_request_text(q@, id, method, Seq::empty())
}

/// Whether `acts` are the two subscriptions on `session`, with ids `first`
/// and `first + 1`.
pub open spec fn is_bootstrap(acts: Seq<Action>, session: u64, first: u64) -> bool {
    &&& first < u64::MAX
    &&& acts.len() == 2
    &&& is_submit(acts[0], session, first, "chain_subscribeNewHeads"@, true)
    &&& is_submit(acts[1], session, (first + 1) as u64, "grandpa_subscribeJustifications"@, true)
}

/// The supervisor of one session.
pub struct Supervisor {
    phase: Phase,
    session: u64,
    ids: RequestIds,
    failed_opens: u64,
}

impl Supervisor {
    pub closed spec fn spec_phase(&self) -> Phase {
        self.phase
    }

    /// The session in use, while `Running`.
    pub closed spec fn spec_session(&self) -> u64 {
        self.session
    }

    /// The counter of request ids.
    pub closed spec fn spec_ids(&self) -> RequestIds {
        self.ids
    }

    /// Failed opens since the current reconnect began.
    pub closed spec fn spec_failed_opens(&self) -> u64 {
        self.failed_opens
    }

    /// Before the first open no id is spent; after it, the two subscriptions
    /// hold ids 1 and 2.
    pub open spec fn wf(&self) -> bool {
        &&& self.spec_ids().wf()
        &&& self.spec_phase() == Phase::Starting ==> self.spec_ids().next_id() == 1
        &&& self.spec_phase() != Phase::Starting ==> self.spec_ids().next_id() >= 3
    }

    pub fn new() -> (r: Self)
        ensures
            r.wf(),
            r.spec_phase() == Phase::Starting,
            r.spec_ids().next_id() == 1,
            r.spec_ids().issued().len() == 0,
            r.spec_failed_opens() == 0,
    {
        Supervisor { phase: Phase::Starting, session: 0, ids: RequestIds::new(), failed_opens: 0 }
    }

    pub fn phase(&self) -> (r: Phase)
        ensures
            r == self.spec_phase(),
    {
        self.phase
    }

    pub fn session(&self) -> (r: u64)
        ensures
            r == self.spec_session(),
    {
        self.session
    }

    pub fn failed_opens(&self) -> (r: u64)
        ensures
            r == self.spec_failed_opens(),
    {
        self.failed_opens
    }

    /// The first step: open the first session.
    pub fn start(&self) -> (r: Vec<Action>)
        requires
            self.spec_phase() == Phase::Starting,
        ensures
            r@.len() == 1,
            r@[0] matches Action::Open,
    {
        let mut acts: Vec<Action> = Vec::new();
        acts.push(Action::Open);
        acts
    }

    /// A session was opened: it becomes the current one and both
    /// subscriptions go out on it, with the next two ids of the counter. The
    /// counter is never reset, so a reconnect never reuses an id. Where fewer
    /// than two ids are left, supervision ends and nothing else changes.
    pub fn on_opened(&mut self, session: u64) -> (r: Vec<Action>)
        requires
            old(self).wf(),
            old(self).spec_phase() != Phase::Running,
        ensures
            final(self).wf(),
            ({
                let n = old(self).spec_ids().next_id();
                if n < u64::MAX - 1 {
                    &&& final(self).spec_phase() == Phase::Running
                    &&& final(self).spec_session() == session
                    &&& final(self).spec_failed_opens() == 0
                    &&& is_bootstrap(r@, session, n)
                    &&& final(self).spec_ids().issued() == old(self).spec_ids().issued().push(
                        n,
                    ).push((n + 1) as u64)
                    &&& final(self).spec_ids().next_id() == n + 2
                } else {
                    &&& r@.len() == 1
                    &&& r@[0] matches Action::Fail { error } && error
                        == SupervisorError::IdsExhausted
                    &&& *final(self) == *old(self)
                }
            }),
            old(self).spec_phase() == Phase::Starting ==> is_bootstrap(r@, session, 1),
    {
        let mut acts: Vec<Action> = Vec::new();
        if self.ids.next_id_below(u64::MAX - 1) {
            let first = self.ids.take();
            let second = self.ids.take();
            acts.push(
                Action::Submit {
                    session,
                    request: build_request(first, "chain_subscribeNewHeads", Vec::new()),
                    bootstrap: true,
                },
            );
            acts.push(
                Action::Submit {
                    session,
                    request: build_request(second, "grandpa_subscribeJustifications", Vec::new()),
                    bootstrap: true,
                },
            );
            self.phase = Phase::Running;
            self.session = session;
            self.failed_opens = 0;
        } else {
            acts.push(Action::Fail { error: SupervisorError::IdsExhausted });
        }
        acts
    }

    /// An open failed. On the first open this ends supervision; during a
    /// reconnect it is retried after the fixed delay, without limit.
    pub fn on_open_failed(&mut self) -> (r: Vec<Action>)
        requires
            old(self).wf(),
            old(self).spec_phase() != Phase::Running,
        ensures
            final(self).wf(),
            final(self).spec_phase() == old(self).spec_phase(),
            final(self).spec_session() == old(self).spec_session(),
            final(self).spec_ids() == old(self).spec_ids(),
            old(self).spec_phase() == Phase::Starting ==> {
                &&& r@.len() == 1
                &&& r@[0] matches Action::Fail { error } && error == SupervisorError::StartFailed
                &&& final(self).spec_failed_opens() == old(self).spec_failed_opens()
            },
            old(self).spec_phase() == Phase::Reconnecting ==> {
                &&& r@.len() == 2
                &&& r@[0] matches Action::Wait { seconds } && seconds == RETRY_DELAY_SECS
                &&& r@[1] matches Action::Open
                &&& final(self).spec_failed_opens() == if old(self).spec_failed_opens() < u64::MAX {
                    (old(self).spec_failed_opens() + 1) as u64
                } else {
                    u64::MAX
                }
            },
    {
        let mut acts: Vec<Action> = Vec::new();
        if self.phase == Phase::Starting {
            acts.push(Action::Fail { error: SupervisorError::StartFailed });
        } else {
            if self.failed_opens < u64::MAX {
                self.failed_opens = self.failed_opens + 1;
            }
            acts.push(Action::Wait { seconds: RETRY_DELAY_SECS });
            acts.push(Action::Open);
        }
        acts
    }

    /// A response arrived. It is always forwarded. If it is an unhealthy
    /// health reply while running, the session is closed and a new one
    /// opened; during a reconnect further signals are absorbed.
    pub fn on_response(&mut self, response: String) -> (r: Vec<Action>)
        requires
            old(self).wf(),
        ensures
            final(self).wf(),
            final(self).spec_session() == old(self).spec_session(),
            final(self).spec_ids() == old(self).spec_ids(),
            r@.len() >= 1,
            r@[0] matches Action::Forward { response: f } && f == response,
            ({
                let reconnect = old(self).spec_phase() == Phase::Running && text_verdict(
                    response@,
                );
                if reconnect {
                    &&& r@.len() == 3
                    &&& r@[1] matches Action::Close { session } && session == old(
                        self,
                    ).spec_session()
                    &&& r@[2] matches Action::Open
                    &&& final(self).spec_phase() == Phase::Reconnecting
                    &&& final(self).spec_failed_opens() == 0
                } else {
                    &&& r@.len() == 1
                    &&& final(self).spec_phase() == old(self).spec_phase()
                    &&& final(self).spec_failed_opens() == old(self).spec_failed_opens()
                }
            }),
    {
        let reconnect = self.phase == Phase::Running && check_if_need_reconnect(response.as_str());
        let mut acts: Vec<Action> = Vec::new();
        acts.push(Action::Forward { response });
        if reconnect {
            acts.push(Action::Close { session: self.session });
            acts.push(Action::Open);
            self.phase = Phase::Reconnecting;
            self.failed_opens = 0;
        }
        acts
    }

    /// The response stream ended. While running this ends supervision, since
    /// no unhealthy signal justified it; otherwise it is the old stream going away.
    pub fn on_stream_end(&self) -> (r: Vec<Action>)
        ensures
            self.spec_phase() == Phase::Running ==> r@.len() == 1 && (r@[0] matches Action::Fail {
                error,
            } && error == SupervisorError::StreamEnded),
            self.spec_phase() != Phase::Running ==> r@.len() == 0,
    {
        let mut acts: Vec<Action> = Vec::new();
        if self.phase == Phase::Running {
            acts.push(Action::Fail { error: SupervisorError::StreamEnded });
        }
        acts
    }

    /// A poll tick. While running, a health request with the next id goes
    /// out on the current session. Otherwise the tick is skipped and no id
    /// is spent; so is it once every id has been spent.
    pub fn on_poll_tick(&mut self) -> (r: Vec<Action>)
        requires
            old(self).wf(),
        ensures
            final(self).wf(),
            final(self).spec_phase() == old(self).spec_phase(),
            final(self).spec_session() == old(self).spec_session(),
            final(self).spec_failed_opens() == old(self).spec_failed_opens(),
            ({
                let polls = old(self).spec_phase() == Phase::Running && old(
                    self,
                ).spec_ids().next_id() < u64::MAX;
                if polls {
                    let id = old(self).spec_ids().next_id();
                    &&& r@.len() == 1
                    &&& is_submit(r@[0], old(self).spec_session(), id, "system_health"@, false)
                    &&& final(self).spec_ids().issued() == old(self).spec_ids().issued().push(id)
                    &&& final(self).spec_ids().next_id() == id + 1
                } else {
                    &&& r@.len() == 0
                    &&& final(self).spec_ids() == old(self).spec_ids()
                }
            }),
    {
        let mut acts: Vec<Action> = Vec::new();
        if self.phase == Phase::Running && !self.ids.is_exhausted() {
            let id = self.ids.take();
            acts.push(
                Action::Submit {
                    session: self.session,
                    request: build_request(id, "system_health", Vec::new()),
                    bootstrap: false,
                },
            );
        }
        acts
    }

    /// A submission was answered. A refused subscription ends supervision; a
    /// refused health poll is only skipped.
    pub fn on_submit_result(&self, bootstrap: bool, accepted: bool) -> (r: Vec<Action>)
        ensures
            bootstrap && !accepted ==> r@.len() == 1 && (r@[0] matches Action::Fail { error }
                && error == SupervisorError::SubscribeFailed),
            !(bootstrap && !accepted) ==> r@.len() == 0,
    {
        let mut acts: Vec<Action> = Vec::new();
        if bootstrap && !accepted {
            acts.push(Action::Fail { error: SupervisorError::SubscribeFailed });
        }
        acts
    }

    /// A close was answered. Whether it succeeded or the session was already
    /// gone, nothing follows: closing is best effort.
    pub fn on_close_result(&self, closed: bool) -> (r: Vec<Action>)
        ensures
            r@.len() == 0,
    {
        Vec::new()
    }
}

} // verus!
