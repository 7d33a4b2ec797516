//! Per-connection state machine. A shard owns the handshake, the
//! heartbeat clock and the session record of one gateway connection.
//! All socket, timer and channel work happens outside: callers feed in
//! decoded frames and clock readings, and carry out the actions each
//! transition returns, in order.

use vstd::prelude::*;

use crate::error::{CloseFrame, ShardError};
use crate::payload::{
    DispatchPayload, GatewayReceivePayload, GatewaySendPayload, IdentifyConnectionProperties,
    IdentifyData, ReadyData, ResumeData,
};
use crate::MAX_TIME_MS;

verus! {

/// Position of a shard within the shard count.
pub type ShardId = usize;

/// Session record created by the first READY dispatch and used to
/// resume after a disconnect.
#[derive(Debug)]
pub struct Session {
    pub id: String,
    pub shard_id: ShardId,
    pub resume_url: String,
    pub shard_count: u64,
    pub sequence: i64,
}

impl Clone for Session {
    fn clone(&self) -> (res: Session)
        ensures
            res == *self,
    {
        Session {
            id: self.id.clone(),
            shard_id: self.shard_id,
            resume_url: self.resume_url.clone(),
            shard_count: self.shard_count,
            sequence: self.sequence,
        }
    }
}

/// Lifecycle state of a shard.
#[derive(Clone, Copy, Debug, PartialEq, Eq, Structural)]
pub enum WebSocketShardStatus {
    /// Connected, identified and receiving dispatches.
    Ready,
    /// A resume command has been sent and its reply is pending.
    Resuming,
    /// A connection is being established or the handshake is running.
    Connecting,
    /// No connection and no heartbeat timer.
    Idle,
}

/// Acknowledgement a shard sends its worker after a control message.
#[derive(Clone, Copy, Debug, PartialEq, Eq, Structural)]
pub enum ShardMessage {
    Connected,
    Destroyed,
}

/// Control message a worker sends its shard.
#[derive(Debug)]
pub enum WorkerMessage {
    Connect,
    Destroy(Option<CloseFrame>),
}

/// Configuration shared by every shard of one manager.
#[derive(Debug)]
pub struct WebSocketWorkerOptions {
    pub token: String,
    pub intents: u64,
    pub identify_properties: IdentifyConnectionProperties,
    pub gateway_url: String,
    pub shard_count: u64,
}

/// Structured debug report emitted by a transition.
#[derive(Clone, Copy, Debug, PartialEq, Eq, Structural)]
pub enum DebugMessage {
    /// Milliseconds between the last heartbeat and its acknowledgement.
    HeartbeatLatency(u64),
    /// An opcode the protocol does not define for receiving.
    UnknownOpcode(u64),
}

/// One step of outside work a transition asks its caller to perform.
/// Actions are carried out in the order they are returned.
#[derive(Debug)]
pub enum ShardAction {
    /// Open the socket at the URL.
    Open(String),
    /// Send the payload on the socket.
    Send(GatewaySendPayload),
    /// Wait for a slot on the shared identify queue, then send the
    /// payload on the socket.
    SendAfterIdentifySlot(GatewaySendPayload),
    /// Close the socket, with the close frame when one is given.
    Close(Option<CloseFrame>),
    /// Call the `ready` callback with the data, then the generic
    /// `dispatch` callback with the same payload.
    NotifyReady(ReadyData),
    /// Call the `resumed` callback, then the generic `dispatch`
    /// callback.
    NotifyResumed,
    /// Call the generic `dispatch` callback with the payload.
    NotifyDispatch(DispatchPayload),
    /// Report a debug measurement to the `debug` callback.
    Debug(DebugMessage),
}

/// Relies on `rand::random_range`: draws a number uniformly from
/// `[0, bound)`; the range is non-empty, so the draw cannot panic, and
/// nothing more is assumed of the outcome than its bound.
#[verifier::external_body]
fn sample_jitter(bound: u64) -> (r: u64)
    requires
        1 <= bound,
    ensures
        r < bound,
{
    rand::random_range(0..bound)
}

/// Larger of the tracked sequence and a newly observed one.
pub open spec fn seq_advance(cur: i64, s: i64) -> i64 {
    if s > cur {
        s
    } else {
        cur
    }
}

/// Sequence the tracked session would report in a heartbeat.
pub open spec fn session_seq_spec(s: Option<Session>) -> Option<i64> {
    match s {
        Option::Some(x) => Option::Some(x.sequence),
        Option::None => Option::None,
    }
}

/// Heartbeat interval stored for an advertised value: at least one
/// millisecond and at most `MAX_TIME_MS`, so the timer arithmetic stays
/// in range.
pub open spec fn hello_interval_spec(i: u64) -> i64 {
    if i == 0 {
        1
    } else if i > MAX_TIME_MS {
        MAX_TIME_MS as i64
    } else {
        i as i64
    }
}

/// Tracked sequence folded over a run of observed dispatch sequences.
pub open spec fn fold_sequence(initial: i64, ss: Seq<i64>) -> i64
    decreases ss.len(),
{
    if ss.len() == 0 {
        initial
    } else {
        seq_advance(fold_sequence(initial, ss.drop_last()), ss.last())
    }
}

/// Law (monotone sequence): after any finite run of dispatches the
/// tracked sequence is the largest sequence observed, and the initial
/// value when none exceeds it.
pub proof fn lemma_sequence_is_max(initial: i64, ss: Seq<i64>)
    ensures
        initial <= fold_sequence(initial, ss),
        forall|i: int| 0 <= i < ss.len() ==> ss[i] <= fold_sequence(initial, ss),
        fold_sequence(initial, ss) == initial || exists|i: int|
            0 <= i < ss.len() && ss[i] == fold_sequence(initial, ss),
    decreases ss.len(),
{
    if ss.len() > 0 {
        lemma_sequence_is_max(initial, ss.drop_last());
        let f = fold_sequence(initial, ss);
        let fp = fold_sequence(initial, ss.drop_last());
        assert forall|i: int| 0 <= i < ss.len() implies ss[i] <= f by {
            if i < ss.len() - 1 {
                assert(ss.drop_last()[i] == ss[i]);
            }
        }
        if f != initial {
            if f == fp {
                let i = choose|i: int| 0 <= i < ss.drop_last().len() && ss.drop_last()[i] == fp;
                assert(ss[i] == f);
            } else {
                assert(ss[ss.len() - 1] == f);
            }
        }
    }
}

/// State machine of one gateway connection.
#[derive(Debug)]
pub struct WebSocketShard {
    pub id: ShardId,
    pub options: WebSocketWorkerOptions,
    pub status: WebSocketShardStatus,
    pub session: Option<Session>,
    /// Whether an open socket is attached.
    pub connected: bool,
    /// Clock reading when the current connection attempt began.
    pub started_at_ms: u64,
    /// Clock reading of the last transmitted heartbeat.
    pub last_heartbeat_ms: u64,
    /// Advertised heartbeat interval, `-1` while none is known.
    pub heartbeat_interval: i64,
    /// Delay after `last_heartbeat_ms` at which the next heartbeat is
    /// due.
    pub next_heartbeat_ms: u64,
    /// Whether the last transmitted heartbeat has been acknowledged.
    pub is_ack: bool,
}

/// Shard state after the bookkeeping of a transmitted heartbeat.
pub open spec fn after_heartbeat_send(s: WebSocketShard, now: u64) -> WebSocketShard {
    WebSocketShard {
        last_heartbeat_ms: now,
        next_heartbeat_ms: s.heartbeat_interval as u64,
        is_ack: false,
        ..s
    }
}

/// Shard state after a destroy of a non-idle shard: the connection and
/// the timer are gone, the session is dropped exactly when the recovery
/// is a reconnect, and a recovery starts a new connection attempt.
pub open spec fn after_destroy(s: WebSocketShard, recover: Option<bool>, now: u64) -> WebSocketShard {
    WebSocketShard {
        session: if recover == Option::Some(false) {
            Option::None
        } else {
            s.session
        },
        is_ack: true,
        heartbeat_interval: -1 as i64,
        connected: false,
        status: if recover is Some {
            WebSocketShardStatus::Connecting
        } else {
            WebSocketShardStatus::Idle
        },
        started_at_ms: if recover is Some {
            now
        } else {
            s.started_at_ms
        },
        ..s
    }
}

/// A scheduled heartbeat is due when the interval has elapsed since the
/// last one.
pub open spec fn heartbeat_due(s: WebSocketShard, now: int) -> bool {
    now - s.last_heartbeat_ms >= s.next_heartbeat_ms
}

/// Law (state invariants): every well-formed shard satisfies the
/// lifecycle invariants — ready implies a connection, a session and a
/// positive heartbeat interval; idle implies no connection and no
/// interval. Every transition of `WebSocketShard` preserves `wf`.
pub proof fn lemma_state_invariants(s: WebSocketShard)
    requires
        s.wf(),
    ensures
        s.status == WebSocketShardStatus::Ready ==> s.connected && s.session is Some
            && s.heartbeat_interval > 0,
        s.status == WebSocketShardStatus::Idle ==> !s.connected && s.heartbeat_interval == -1,
{
}

/// Law (heartbeat idempotence): after a heartbeat is transmitted at
/// `now`, no further scheduled heartbeat is due before the interval has
/// elapsed, so an unrequested call of the heartbeat routine within it
/// sends nothing.
pub proof fn lemma_heartbeat_idempotent(s: WebSocketShard, now: u64, later: u64)
    requires
        s.heartbeat_interval > 0,
        now <= later,
        later - now < s.heartbeat_interval,
    ensures
        !heartbeat_due(after_heartbeat_send(s, now), later as int),
{
}

/// Fields of an identify payload built for a shard.
pub open spec fn identify_fields_ok(d: IdentifyData, s: WebSocketShard) -> bool {
    &&& d.token == s.options.token
    &&& d.intents == s.options.intents
    &&& d.properties == s.options.identify_properties
    &&& d.shard == Option::Some((s.id as u64, s.options.shard_count))
    &&& d.compress is None
    &&& d.large_threshold is None
    &&& d.presence is None
}

/// Fields of a resume payload built for a session.
pub open spec fn resume_fields_ok(d: ResumeData, s: WebSocketShard, sess: Session) -> bool {
    &&& d.token == s.options.token
    &&& d.session_id == sess.id
    &&& d.seq == sess.sequence
}

impl WebSocketShard {
    /// State invariant. Among what it holds: a ready shard has a
    /// connection, a session and a positive heartbeat interval; an idle
    /// shard has neither connection nor interval; a resuming shard has
    /// a connection and a session.
    pub open spec fn wf(&self) -> bool {
        &&& (self.status == WebSocketShardStatus::Ready ==> self.connected && self.session is Some
            && self.heartbeat_interval > 0)
        &&& (self.status == WebSocketShardStatus::Idle ==> !self.connected
            && self.heartbeat_interval == -1)
        &&& (self.status == WebSocketShardStatus::Resuming ==> self.connected
            && self.session is Some)
        &&& -1 <= self.heartbeat_interval <= MAX_TIME_MS
        &&& self.last_heartbeat_ms <= MAX_TIME_MS
        &&& self.next_heartbeat_ms <= MAX_TIME_MS
    }

    /// URL the next connection attempt opens: the session's resume URL
    /// when a session is held, else the gateway URL on record.
    pub open spec fn connect_url_spec(&self) -> Seq<char> {
        match self.session {
            Option::Some(s) => s.resume_url@,
            Option::None => self.options.gateway_url@,
        }
    }

    pub fn new(id: ShardId, options: WebSocketWorkerOptions, now_ms: u64) -> (r: WebSocketShard)
        requires
            now_ms <= MAX_TIME_MS,
        ensures
            r.wf(),
            r.id == id,
            r.options == options,
            r.status == WebSocketShardStatus::Idle,
            r.session is None,
            !r.connected,
            r.heartbeat_interval == -1,
            r.is_ack,
            r.started_at_ms == now_ms,
            r.last_heartbeat_ms == now_ms,
            r.next_heartbeat_ms == 0,
    {
        WebSocketShard {
            id,
            options,
            status: WebSocketShardStatus::Idle,
            session: None,
            connected: false,
            started_at_ms: now_ms,
            last_heartbeat_ms: now_ms,
            heartbeat_interval: -1,
            next_heartbeat_ms: 0,
            is_ack: true,
        }
    }

    pub fn status(&self) -> (r: WebSocketShardStatus)
        ensures
            r == self.status,
    {
        self.status
    }

    /// Decides the weight of a frame that does not decode: fatal while
    /// a handshake or a resume needs the next frame to advance, and
    /// only skipped once the shard is in steady state.
    pub fn decode_failure_is_fatal(&self) -> (r: bool)
        ensures
            r == (self.status == WebSocketShardStatus::Connecting || self.status
                == WebSocketShardStatus::Resuming),
    {
        matches!(self.status, WebSocketShardStatus::Connecting)
            || matches!(self.status, WebSocketShardStatus::Resuming)
    }

    fn connect_url(&self) -> (r: String)
        ensures
            r@ == self.connect_url_spec(),
    {
        match &self.session {
            Some(s) => s.resume_url.clone(),
            None => self.options.gateway_url.clone(),
        }
    }

    /// Begins a connection attempt. Only an idle shard may connect;
    /// otherwise the call fails with `NotIdle` and changes nothing. On
    /// success the shard is connecting and the caller must open the
    /// socket at the returned URL: the session's resume URL when a
    /// session is held, else the gateway URL.
    pub fn connect(&mut self, now_ms: u64) -> (r: Result<Vec<ShardAction>, ShardError>)
        requires
            old(self).wf(),
            now_ms <= MAX_TIME_MS,
        ensures
            final(self).wf(),
            old(self).status != WebSocketShardStatus::Idle ==> r == Result::<
                Vec<ShardAction>,
                ShardError,
            >::Err(ShardError::NotIdle) && *final(self) == *old(self),
            old(self).status == WebSocketShardStatus::Idle ==> {
                &&& *final(self) == (WebSocketShard {
                    status: WebSocketShardStatus::Connecting,
                    started_at_ms: now_ms,
                    ..*old(self)
                })
                &&& r matches Result::Ok(acts) && acts@.len() == 1 && (acts@[0] matches
                    ShardAction::Open(u) && u@ == old(self).connect_url_spec())
            },
    {
        if !matches!(self.status, WebSocketShardStatus::Idle) {
            return Err(ShardError::NotIdle);
        }
        self.started_at_ms = now_ms;
        self.status = WebSocketShardStatus::Connecting;
        let url = self.connect_url();
        let mut acts: Vec<ShardAction> = Vec::new();
        acts.push(ShardAction::Open(url));
        Ok(acts)
    }

    /// Records that the socket of a connection attempt is open.
    pub fn on_connection_opened(&mut self)
        requires
            old(self).wf(),
            old(self).status == WebSocketShardStatus::Connecting,
        ensures
            final(self).wf(),
            *final(self) == (WebSocketShard { connected: true, ..*old(self) }),
    {
        self.connected = true;
    }

    /// Records that a connection attempt failed: the shard falls back
    /// to idle, keeping its session for a later resume.
    pub fn on_connection_failed(&mut self)
        requires
            old(self).wf(),
            old(self).status == WebSocketShardStatus::Connecting,
        ensures
            final(self).wf(),
            *final(self) == (WebSocketShard {
                status: WebSocketShardStatus::Idle,
                connected: false,
                heartbeat_interval: -1 as i64,
                is_ack: true,
                ..*old(self)
            }),
    {
        self.status = WebSocketShardStatus::Idle;
        self.connected = false;
        self.heartbeat_interval = -1;
        self.is_ack = true;
    }

    /// Tears the connection down. Destroying an idle shard is a no-op
    /// and never fails. Otherwise the socket is closed when one is
    /// attached, the heartbeat state is cleared, the session is dropped
    /// exactly when `recover` asks for a reconnect, and any recovery
    /// starts a new connection attempt at once.
    pub fn destroy(
        &mut self,
        info: Option<CloseFrame>,
        recover: Option<bool>,
        now_ms: u64,
    ) -> (r: Vec<ShardAction>)
        requires
            old(self).wf(),
            now_ms <= MAX_TIME_MS,
        ensures
            final(self).wf(),
            old(self).status == WebSocketShardStatus::Idle ==> *final(self) == *old(self)
                && r@.len() == 0,
            old(self).status != WebSocketShardStatus::Idle ==> {
                &&& *final(self) == after_destroy(*old(self), recover, now_ms)
                &&& r@.len() == (if old(self).connected {
                    1int
                } else {
                    0int
                }) + (if recover is Some {
                    1int
                } else {
                    0int
                })
                &&& old(self).connected ==> (r@[0] matches ShardAction::Close(f) && f == info)
                &&& recover is Some ==> (r@[r@.len() - 1] matches ShardAction::Open(u) && u@
                    == final(self).connect_url_spec())
            },
    {
        if matches!(self.status, WebSocketShardStatus::Idle) {
            return Vec::new();
        }
        let mut acts: Vec<ShardAction> = Vec::new();
        if self.connected {
            acts.push(ShardAction::Close(info));
        }
        if matches!(recover, Some(false)) {
            self.session = None;
        }
        self.is_ack = true;
        self.heartbeat_interval = -1;
        self.connected = false;
        self.status = WebSocketShardStatus::Idle;
        if recover.is_some() {
            self.started_at_ms = now_ms;
            self.status = WebSocketShardStatus::Connecting;
            let url = self.connect_url();
            acts.push(ShardAction::Open(url));
        }
        acts
    }

    /// Runs the heartbeat routine. A requested beat (the server asked)
    /// is sent at once. A scheduled beat is sent only when the interval
    /// has elapsed since the last one — within it the routine sends
    /// nothing — and when the deadline passes while the previous beat
    /// is still unacknowledged, the connection is zombied: the shard
    /// tears down and reopens with its session kept for a resume.
    pub fn heartbeat(&mut self, now_ms: u64, requested: bool) -> (r: Vec<ShardAction>)
        requires
            old(self).wf(),
            old(self).connected,
            old(self).heartbeat_interval > 0,
            old(self).last_heartbeat_ms <= now_ms <= MAX_TIME_MS,
        ensures
            final(self).wf(),
            !requested && !heartbeat_due(*old(self), now_ms as int) ==> *final(self) == *old(self)
                && r@.len() == 0,
            requested || (heartbeat_due(*old(self), now_ms as int) && old(self).is_ack) ==> {
                &&& *final(self) == after_heartbeat_send(*old(self), now_ms)
                &&& r@.len() == 1
                &&& (r@[0] matches ShardAction::Send(GatewaySendPayload::Heartbeat(s)) && s
                    == session_seq_spec(old(self).session))
            },
            !requested && heartbeat_due(*old(self), now_ms as int) && !old(self).is_ack ==> {
                &&& *final(self) == after_destroy(*old(self), Option::Some(true), now_ms)
                &&& r@.len() == 2
                &&& (r@[0] matches ShardAction::Close(f) && f is None)
                &&& (r@[1] matches ShardAction::Open(u) && u@ == final(self).connect_url_spec())
            },
    {
        if !requested {
            if now_ms - self.last_heartbeat_ms < self.next_heartbeat_ms {
                return Vec::new();
            }
            if !self.is_ack {
                return self.destroy(None, Some(true), now_ms);
            }
        }
        let seq_no = match &self.session {
            Some(s) => Some(s.sequence),
            None => None,
        };
        let mut acts: Vec<ShardAction> = Vec::new();
        acts.push(ShardAction::Send(GatewaySendPayload::Heartbeat(seq_no)));
        self.last_heartbeat_ms = now_ms;
        self.next_heartbeat_ms = self.heartbeat_interval as u64;
        self.is_ack = false;
        acts
    }

    /// Sends a resume command for the held session. Without a
    /// connection and a session there is nothing to resume and the call
    /// falls back to a fresh connection attempt.
    pub fn resume(&mut self, now_ms: u64) -> (r: Result<Vec<ShardAction>, ShardError>)
        requires
            old(self).wf(),
            now_ms <= MAX_TIME_MS,
        ensures
            final(self).wf(),
            old(self).connected ==> (old(self).session matches Option::Some(sess) ==> {
                &&& *final(self) == (WebSocketShard {
                    status: WebSocketShardStatus::Resuming,
                    ..*old(self)
                })
                &&& r matches Result::Ok(acts) && acts@.len() == 1 && (acts@[0] matches
                    ShardAction::Send(GatewaySendPayload::Resume(d)) && resume_fields_ok(
                    d,
                    *old(self),
                    sess,
                ))
            }),
            !(old(self).connected && old(self).session is Some) && old(self).status
                == WebSocketShardStatus::Idle ==> {
                &&& *final(self) == (WebSocketShard {
                    status: WebSocketShardStatus::Connecting,
                    started_at_ms: now_ms,
                    ..*old(self)
                })
                &&& r matches Result::Ok(acts) && acts@.len() == 1 && (acts@[0] matches
                    ShardAction::Open(u) && u@ == old(self).connect_url_spec())
            },
            !(old(self).connected && old(self).session is Some) && old(self).status
                != WebSocketShardStatus::Idle ==> r == Result::<Vec<ShardAction>, ShardError>::Err(
                ShardError::NotIdle,
            ) && *final(self) == *old(self),
    {
        if self.connected {
            match &self.session {
                Some(sess) => {
                    let d = ResumeData {
                        token: self.options.token.clone(),
                        session_id: sess.id.clone(),
                        seq: sess.sequence,
                    };
                    self.status = WebSocketShardStatus::Resuming;
                    let mut acts: Vec<ShardAction> = Vec::new();
                    acts.push(ShardAction::Send(GatewaySendPayload::Resume(d)));
                    return Ok(acts);
                },
                None => {},
            }
        }
        self.connect(now_ms)
    }

    /// Builds the identify command of this shard, to be sent after a
    /// slot of the shared identify queue is granted.
    fn identify(&self) -> (r: Vec<ShardAction>)
        ensures
            r@.len() == 1,
            r@[0] matches ShardAction::SendAfterIdentifySlot(GatewaySendPayload::Identify(d))
                && identify_fields_ok(d, *self),
    {
        let d = IdentifyData {
            token: self.options.token.clone(),
            properties: self.options.identify_properties.clone(),
            compress: None,
            large_threshold: None,
            shard: Some((self.id as u64, self.options.shard_count)),
            presence: None,
            intents: self.options.intents,
        };
        let mut acts: Vec<ShardAction> = Vec::new();
        acts.push(ShardAction::SendAfterIdentifySlot(GatewaySendPayload::Identify(d)));
        acts
    }

    /// Resolves one frame received on the connection.
    ///
    /// HELLO records the interval and schedules the first heartbeat a
    /// uniform fraction of it away; during a handshake it then either
    /// identifies through the shared queue (no session) or sends a
    /// resume (session held). A heartbeat request forces an immediate
    /// beat; before HELLO it is sent without touching the timer, which
    /// only starts with the interval. An acknowledgement clears the pending flag
    /// and reports the measured latency. An invalid session resumes
    /// when allowed and a session is held, else reconnects with a fresh
    /// session; a reconnect request tears down and reopens keeping the
    /// session. A dispatch creates the session on the first READY,
    /// advances the tracked sequence to any larger observed one, marks
    /// the shard ready on READY and on a resume reply, and hands the
    /// payload to the caller for the event callbacks. An opcode the
    /// protocol does not define for receiving is only reported.
    pub fn resolve_event(&mut self, event: GatewayReceivePayload, now_ms: u64) -> (r: Vec<
        ShardAction,
    >)
        requires
            old(self).wf(),
            old(self).connected,
            old(self).last_heartbeat_ms <= now_ms <= MAX_TIME_MS,
        ensures
            final(self).wf(),
            final(self).id == old(self).id,
            final(self).options == old(self).options,
            (event matches GatewayReceivePayload::Hello(i) ==> {
                let iv = hello_interval_spec(i);
                &&& final(self).heartbeat_interval == iv
                &&& final(self).last_heartbeat_ms == now_ms
                &&& final(self).next_heartbeat_ms < iv
                &&& final(self).session == old(self).session
                &&& final(self).connected
                &&& (old(self).status == WebSocketShardStatus::Connecting ==> (
                    old(self).session is None ==> final(self).status
                    == WebSocketShardStatus::Connecting && r@.len() == 1 && (r@[0] matches
                    ShardAction::SendAfterIdentifySlot(GatewaySendPayload::Identify(d))
                    && identify_fields_ok(d, *old(self)))))
                &&& (old(self).status == WebSocketShardStatus::Connecting ==> (
                    old(self).session matches Option::Some(sess) ==> final(self).status
                    == WebSocketShardStatus::Resuming && r@.len() == 1 && (r@[0] matches
                    ShardAction::Send(GatewaySendPayload::Resume(d)) && resume_fields_ok(
                    d,
                    *old(self),
                    sess,
                ))))
                &&& (old(self).status != WebSocketShardStatus::Connecting ==> final(self).status
                    == old(self).status && r@.len() == 0)
            }),
            (event matches GatewayReceivePayload::HeartbeatRequest ==> {
                &&& (old(self).heartbeat_interval > 0 ==> *final(self) == after_heartbeat_send(
                    *old(self),
                    now_ms,
                ))
                &&& (old(self).heartbeat_interval <= 0 ==> *final(self) == *old(self))
                &&& r@.len() == 1
                &&& (r@[0] matches ShardAction::Send(GatewaySendPayload::Heartbeat(s)) && s
                    == session_seq_spec(old(self).session))
            }),
            (event matches GatewayReceivePayload::HeartbeatAck ==> *final(self) == (WebSocketShard {
                is_ack: true,
                ..*old(self)
            }) && r@.len() == 1 && r@[0] == ShardAction::Debug(
                DebugMessage::HeartbeatLatency((now_ms - old(self).last_heartbeat_ms) as u64),
            )),
            (event matches GatewayReceivePayload::InvalidSession(can_resume) ==> {
                &&& (can_resume ==> (old(self).session matches Option::Some(sess)
                    ==> *final(self) == (WebSocketShard {
                    status: WebSocketShardStatus::Resuming,
                    ..*old(self)
                }) && r@.len() == 1 && (r@[0] matches ShardAction::Send(
                    GatewaySendPayload::Resume(d),
                ) && resume_fields_ok(d, *old(self), sess))))
                &&& (!(can_resume && old(self).session is Some) ==> *final(self) == after_destroy(
                    *old(self),
                    Option::Some(false),
                    now_ms,
                ) && r@.len() == 2 && (r@[0] matches ShardAction::Close(f) && f is None) && (
                r@[1] matches ShardAction::Open(u) && u@ == final(self).connect_url_spec()))
            }),
            (event matches GatewayReceivePayload::Reconnect ==> *final(self) == after_destroy(
                *old(self),
                Option::Some(true),
                now_ms,
            ) && r@.len() == 2 && (r@[0] matches ShardAction::Close(f) && f is None) && (
            r@[1] matches ShardAction::Open(u) && u@ == final(self).connect_url_spec())),
            (event matches GatewayReceivePayload::Dispatch(s, payload) ==> {
                &&& (old(self).session matches Option::Some(sess) ==> final(self).session matches
                    Option::Some(ns) && ns == (Session {
                    sequence: seq_advance(sess.sequence, s),
                    ..sess
                }))
                &&& (old(self).session is None ==> (payload matches DispatchPayload::Ready(data)
                    ==> final(self).session matches Option::Some(ns) && ns.id == data.session_id
                    && ns.resume_url == data.resume_gateway_url && ns.sequence == s && ns.shard_id
                    == old(self).id && ns.shard_count == old(self).options.shard_count))
                &&& (old(self).session is None && !(payload matches DispatchPayload::Ready(_))
                    ==> final(self).session is None)
                &&& (payload matches DispatchPayload::Ready(_) ==> (if old(
                    self,
                ).heartbeat_interval > 0 {
                    final(self).status == WebSocketShardStatus::Ready
                } else {
                    final(self).status == old(self).status
                }))
                &&& (payload matches DispatchPayload::Resume ==> (if old(self).session is Some
                    && old(self).heartbeat_interval > 0 {
                    final(self).status == WebSocketShardStatus::Ready
                } else {
                    final(self).status == old(self).status
                }))
                &&& (!(payload matches DispatchPayload::Ready(_)) && !(payload matches
                    DispatchPayload::Resume) ==> final(self).status == old(self).status)
                &&& final(self).connected
                &&& final(self).heartbeat_interval == old(self).heartbeat_interval
                &&& final(self).last_heartbeat_ms == old(self).last_heartbeat_ms
                &&& final(self).next_heartbeat_ms == old(self).next_heartbeat_ms
                &&& final(self).is_ack == old(self).is_ack
                &&& (payload matches DispatchPayload::Ready(data) ==> r@.len() == 1 && (r@[0]
                    matches ShardAction::NotifyReady(dd) && dd == data))
                &&& (payload matches DispatchPayload::Resume ==> r@.len() == 1 && (r@[0] matches
                    ShardAction::NotifyResumed))
                &&& (!(payload matches DispatchPayload::Ready(_)) && !(payload matches
                    DispatchPayload::Resume) ==> r@.len() == 1 && (r@[0] matches
                    ShardAction::NotifyDispatch(pl) && pl == payload))
            }),
            (event matches GatewayReceivePayload::UnknownOp(op, raw) ==> *final(self) == *old(self)
                && r@.len() == 1 && r@[0] == ShardAction::Debug(DebugMessage::UnknownOpcode(op))),
    {
        match event {
            GatewayReceivePayload::Hello(i) => {
                let iv: i64 = if i == 0 {
                    1
                } else if i > MAX_TIME_MS {
                    MAX_TIME_MS as i64
                } else {
                    i as i64
                };
                self.heartbeat_interval = iv;
                self.last_heartbeat_ms = now_ms;
                self.next_heartbeat_ms = sample_jitter(iv as u64);
                if matches!(self.status, WebSocketShardStatus::Connecting) {
                    if self.session.is_some() {
                        match self.resume(now_ms) {
                            Ok(acts) => acts,
                            Err(_) => Vec::new(),
                        }
                    } else {
                        self.identify()
                    }
                } else {
                    Vec::new()
                }
            },
            GatewayReceivePayload::HeartbeatRequest => {
                if self.heartbeat_interval > 0 {
                    self.heartbeat(now_ms, true)
                } else {
                    // Before HELLO no timer exists; the requested beat
                    // is still sent, and timer bookkeeping begins with
                    // the interval.
                    let seq_no = match &self.session {
                        Some(sess) => Some(sess.sequence),
                        None => None,
                    };
                    let mut acts: Vec<ShardAction> = Vec::new();
                    acts.push(ShardAction::Send(GatewaySendPayload::Heartbeat(seq_no)));
                    acts
                }
            },
            GatewayReceivePayload::HeartbeatAck => {
                self.is_ack = true;
                let mut acts: Vec<ShardAction> = Vec::new();
                acts.push(
                    ShardAction::Debug(
                        DebugMessage::HeartbeatLatency(now_ms - self.last_heartbeat_ms),
                    ),
                );
                acts
            },
            GatewayReceivePayload::InvalidSession(can_resume) => {
                if can_resume && self.session.is_some() {
                    match self.resume(now_ms) {
                        Ok(acts) => acts,
                        Err(_) => Vec::new(),
                    }
                } else {
                    self.destroy(None, Some(false), now_ms)
                }
            },
            GatewayReceivePayload::Reconnect => self.destroy(None, Some(true), now_ms),
            GatewayReceivePayload::Dispatch(s, payload) => {
                let mut acts: Vec<ShardAction> = Vec::new();
                match payload {
                    DispatchPayload::Ready(data) => {
                        if self.session.is_none() {
                            self.session = Some(
                                Session {
                                    id: data.session_id.clone(),
                                    shard_id: self.id,
                                    resume_url: data.resume_gateway_url.clone(),
                                    shard_count: self.options.shard_count,
                                    sequence: s,
                                },
                            );
                        }
                        if self.heartbeat_interval > 0 {
                            self.status = WebSocketShardStatus::Ready;
                        }
                        acts.push(ShardAction::NotifyReady(data));
                    },
                    DispatchPayload::Resume => {
                        if self.session.is_some() && self.heartbeat_interval > 0 {
                            self.status = WebSocketShardStatus::Ready;
                        }
                        acts.push(ShardAction::NotifyResumed);
                    },
                    p => {
                        acts.push(ShardAction::NotifyDispatch(p));
                    },
                }
                match &mut self.session {
                    Some(sess) => {
                        if s > sess.sequence {
                            sess.sequence = s;
                        }
                    },
                    None => {},
                }
                acts
            },
            GatewayReceivePayload::UnknownOp(op, _raw) => {
                let mut acts: Vec<ShardAction> = Vec::new();
                acts.push(ShardAction::Debug(DebugMessage::UnknownOpcode(op)));
                acts
            },
        }
    }
}

} // verus!
