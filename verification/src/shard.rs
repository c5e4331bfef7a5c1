//! The decisions of a gateway connection: when to identify or resume, when to send a
//! heartbeat, when a connection that stopped acknowledging them is given up, and what each
//! payload from Discord changes. The connection itself (the websocket, the clock) is run by
//! the caller, which hands in what happened and carries out what these functions answer.

use vstd::prelude::*;

use crate::random::random_in_range;

verus! {

/// The gateway version this library speaks.
pub const API_VERSION: u8 = 8;

/// The close code that asks the other side to reconnect (service restart).
pub const CLOSE_RESTART: u16 = 1012;

/// The close code for an unexpected condition (internal error).
pub const CLOSE_ERROR: u16 = 1011;

/// How many heartbeats in a row may go unacknowledged before the connection is given up.
pub const MAX_STRIKES: u8 = 3;

/// A frame that closes the websocket.
#[derive(Debug, Clone)]
pub struct CloseFrame {
    pub code: u16,
    pub reason: String,
}

/// The state of one gateway connection, with times in milliseconds of a monotonic clock.
#[derive(Debug)]
pub struct ShardState {
    /// this shard's id and the number of shards
    pub shard_info: (u64, u64),
    /// whether a websocket is open
    pub connected: bool,
    /// the session to resume, once Discord has sent `Ready`
    pub session_id: Option<String>,
    /// the sequence number of the last dispatch received
    pub seq: Option<u64>,
    /// how often to send a heartbeat, once Discord has said `Hello`
    pub heartbeat_interval: Option<u64>,
    /// when the last heartbeat was sent
    pub heartbeat: Option<u64>,
    /// when the last heartbeat acknowledgement arrived
    pub ack: Option<u64>,
    /// heartbeats in a row sent no later than the last acknowledgement came
    pub strikes: u8,
}

/// What Discord sends over the gateway, as far as the connection's state depends on it.
#[derive(Debug, Clone)]
pub enum GatewayPayload {
    /// the first message, with the heartbeat interval in milliseconds
    Hello(u64),
    /// an event, with its sequence number
    Dispatch(u64),
    /// a heartbeat was acknowledged
    HeartbeatAck,
    /// Discord asks for a heartbeat
    Heartbeat(u64),
    /// Discord asks the client to reconnect
    Reconnect,
    /// the session is invalid; whether it can be resumed
    InvalidSession(bool),
    /// a payload a client should never receive
    Other,
}

/// What the connection does after a payload.
#[derive(Debug, Clone)]
pub struct PayloadAction {
    /// send an `Identify`
    pub identify: bool,
    /// how many dispatches were skipped before this one
    pub missed: u64,
    /// close the websocket with this frame, after this many seconds
    pub close: Option<(CloseFrame, u64)>,
    /// stop reading events and go back to connecting
    pub reconnect: bool,
}

/// What the connection does on a tick of the heartbeat timer.
#[derive(Debug, Clone)]
pub struct HeartbeatAction {
    /// close the websocket with this frame
    pub close: Option<CloseFrame>,
    /// send a heartbeat with this sequence number
    pub send: Option<u64>,
}

/// What happened on the websocket other than a payload.
#[derive(Debug, Clone)]
pub enum SocketEvent {
    /// Discord closed the connection, maybe with a frame
    Close(Option<CloseFrame>),
    /// the stream ended
    Ended,
    /// the websocket failed
    Error,
}

/// The state of a connection that has not yet said anything.
pub open spec fn fresh_state(s: ShardState) -> bool {
    &&& s.session_id.is_none()
    &&& s.seq.is_none()
    &&& s.heartbeat_interval.is_none()
    &&& s.heartbeat.is_none()
    &&& s.ack.is_none()
    &&& s.strikes == 0
}

/// The same connection after its session state was reset.
pub open spec fn reset_of(s: ShardState) -> ShardState {
    ShardState {
        session_id: None,
        seq: None,
        heartbeat_interval: None,
        heartbeat: None,
        ack: None,
        strikes: 0,
        ..s
    }
}

/// The connection's own invariant: it never holds as many strikes as it gives up at.
pub open spec fn shard_inv(s: ShardState) -> bool {
    s.strikes < MAX_STRIKES
}

/// The number of dispatches skipped between the last sequence number and `seq_num`.
pub open spec fn missed_between(last: Option<u64>, seq_num: u64) -> nat {
    match last {
        Some(curr) => if seq_num > curr + 1 { (seq_num - curr - 1) as nat } else { 0 },
        None => 0,
    }
}

/// Whether a heartbeat is due at `now`: none was sent, no interval is known, or the interval
/// has passed since the last one.
pub open spec fn heartbeat_due(heartbeat: Option<u64>, interval: Option<u64>, now: u64) -> bool {
    match (heartbeat, interval) {
        (Some(last), Some(iv)) => !((if now >= last { now - last } else { 0 }) < iv),
        _ => true,
    }
}

fn close_frame(code: u16, reason: &str) -> (f: CloseFrame)
    ensures
        f.code == code,
        f.reason@ == reason@,
{
    CloseFrame { code, reason: String::from_str(reason) }
}

impl ShardState {
    /// A connection that is not yet open, for shard `shard_info`.
    pub fn new(shard_info: (u64, u64)) -> (s: Self)
        ensures
            fresh_state(s),
            !s.connected,
            s.shard_info == shard_info,
            shard_inv(s),
    {
        ShardState {
            shard_info,
            connected: false,
            session_id: None,
            seq: None,
            heartbeat_interval: None,
            heartbeat: None,
            ack: None,
            strikes: 0,
        }
    }

    /// Forgets the session, the sequence number and the heartbeat timing.
    pub fn reset_connection_state(&mut self)
        ensures
            *final(self) == reset_of(*old(self)),
    {
        self.session_id = None;
        self.seq = None;
        self.heartbeat_interval = None;
        self.heartbeat = None;
        self.ack = None;
        self.strikes = 0;
    }

    /// The session and sequence number to resume with after connecting, if both are known.
    pub fn resume(&self) -> (r: Option<(String, u64)>)
        ensures
            match r {
                Some((session, seq)) => self.session_id == Some(session) && self.seq == Some(seq),
                None => self.session_id.is_none() || self.seq.is_none(),
            },
    {
        match (&self.session_id, self.seq) {
            (Some(session), Some(seq)) => Some((session.clone(), seq)),
            _ => None,
        }
    }

    /// A tick of the heartbeat timer at `now`. A heartbeat that went out no earlier than the
    /// last acknowledgement came is a strike, and the third in a row gives the connection up;
    /// an acknowledged one clears the strikes. Then a heartbeat is sent if one is due and a
    /// sequence number is known.
    pub fn heartbeat_tick(&mut self, now: u64) -> (a: HeartbeatAction)
        requires
            shard_inv(*old(self)),
        ensures
            shard_inv(*final(self)),
            ({
                let s = *old(self);
                let struck = s.heartbeat is Some && s.ack is Some && s.heartbeat.unwrap() >= s.ack.unwrap();
                let gave_up = struck && s.strikes + 1 >= MAX_STRIKES;
                let mid = if gave_up {
                    reset_of(ShardState { connected: false, ..s })
                } else if struck {
                    ShardState { strikes: (s.strikes + 1) as u8, ..s }
                } else if s.heartbeat is Some && s.ack is Some {
                    ShardState { strikes: 0, ..s }
                } else {
                    s
                };
                &&& (gave_up <==> a.close is Some)
                &&& (a.close matches Some(f) ==> f.code == CLOSE_RESTART
                    && f.reason@ == "ACK not recent enough, closing websocket"@)
                &&& if heartbeat_due(mid.heartbeat, mid.heartbeat_interval, now) && mid.seq is Some {
                    &&& a.send == mid.seq
                    &&& *final(self) == ShardState { heartbeat: Some(now), ..mid }
                } else {
                    &&& a.send.is_none()
                    &&& *final(self) == mid
                }
            }),
    {
        let mut close = None;
        if let (Some(heartbeat), Some(ack)) = (self.heartbeat, self.ack) {
            if heartbeat >= ack {
                self.strikes = self.strikes + 1;
                if self.strikes >= MAX_STRIKES {
                    self.reset_connection_state();
                    self.connected = false;
                    close = Some(close_frame(CLOSE_RESTART, "ACK not recent enough, closing websocket"));
                }
            } else {
                self.strikes = 0;
            }
        }
        let due = match (self.heartbeat, self.heartbeat_interval) {
            (Some(last), Some(interval)) => !(now.saturating_sub(last) < interval),
            _ => true,
        };
        let mut send = None;
        if due {
            if let Some(seq_num) = self.seq {
                send = Some(seq_num);
                self.heartbeat = Some(now);
            }
        }
        HeartbeatAction { close, send }
    }

    /// Handles one payload from Discord that arrived at `now`.
    pub fn handle_payload(&mut self, payload: GatewayPayload, now: u64) -> (a: PayloadAction)
        requires
            shard_inv(*old(self)),
        ensures
            shard_inv(*final(self)),
            match payload {
                GatewayPayload::Hello(interval) => {
                    &&& a.identify == old(self).session_id.is_none()
                    &&& *final(self) == if old(self).session_id.is_none() {
                        ShardState { heartbeat_interval: Some(interval), ..*old(self) }
                    } else {
                        *old(self)
                    }
                    &&& a.close.is_none() && !a.reconnect && a.missed == 0
                },
                GatewayPayload::Dispatch(seq_num) => {
                    &&& a.missed == missed_between(old(self).seq, seq_num)
                    &&& *final(self) == ShardState { seq: Some(seq_num), ..*old(self) }
                    &&& !a.identify && a.close.is_none() && !a.reconnect
                },
                GatewayPayload::HeartbeatAck => {
                    &&& *final(self) == ShardState { ack: Some(now), ..*old(self) }
                    &&& !a.identify && a.close.is_none() && !a.reconnect && a.missed == 0
                },
                GatewayPayload::Reconnect => {
                    &&& *final(self) == ShardState { connected: false, ..*old(self) }
                    &&& a.close matches Some((f, delay)) && f.code == CLOSE_RESTART
                        && f.reason@ == "Reconnect requested by Discord"@ && delay == 0
                    &&& a.reconnect && !a.identify && a.missed == 0
                },
                GatewayPayload::InvalidSession(resumable) => {
                    &&& a.reconnect && !a.identify && a.missed == 0
                    &&& if resumable {
                        *final(self) == *old(self) && a.close.is_none()
                    } else {
                        &&& *final(self) == reset_of(ShardState { connected: false, ..*old(self) })
                        &&& a.close matches Some((f, delay)) && f.code == CLOSE_RESTART
                            && f.reason@ == "(non-resumable) Invalid Session"@ && 1 <= delay < 6
                    }
                },
                _ => {
                    &&& *final(self) == *old(self)
                    &&& !a.identify && a.close.is_none() && !a.reconnect && a.missed == 0
                },
            },
    {
        let mut action = PayloadAction { identify: false, missed: 0, close: None, reconnect: false };
        match payload {
            GatewayPayload::Hello(interval) => {
                if self.session_id.is_none() {
                    self.heartbeat_interval = Some(interval);
                    action.identify = true;
                }
            },
            GatewayPayload::Dispatch(seq_num) => {
                if let Some(curr) = self.seq {
                    if curr < u64::MAX && seq_num > curr + 1 {
                        action.missed = seq_num - curr - 1;
                    }
                }
                self.seq = Some(seq_num);
            },
            GatewayPayload::HeartbeatAck => {
                self.ack = Some(now);
            },
            GatewayPayload::Heartbeat(_) => {},
            GatewayPayload::Reconnect => {
                self.connected = false;
                action.close = Some((close_frame(CLOSE_RESTART, "Reconnect requested by Discord"), 0));
                action.reconnect = true;
            },
            GatewayPayload::InvalidSession(resumable) => {
                if !resumable {
                    self.reset_connection_state();
                    let delay = random_in_range(1, 6);
                    self.connected = false;
                    action.close = Some((close_frame(CLOSE_RESTART, "(non-resumable) Invalid Session"), delay));
                }
                action.reconnect = true;
            },
            GatewayPayload::Other => {},
        }
        action
    }

    /// Whether a `Ready` event is for this connection: the gateway version this library
    /// speaks, and this shard (a `Ready` without shard information is for shard `(0, 0)`).
    pub fn ready_matches(&self, v: u8, shard: Option<(u64, u64)>) -> (b: bool)
        ensures
            b == (v == API_VERSION && match shard {
                Some(info) => info == self.shard_info,
                None => self.shard_info == (0u64, 0u64),
            }),
    {
        let (id, tot) = match shard {
            Some(info) => info,
            None => (0, 0),
        };
        v == API_VERSION && id == self.shard_info.0 && tot == self.shard_info.1
    }

    /// Takes the session of a `Ready` event meant for this connection.
    pub fn ready(&mut self, v: u8, shard: Option<(u64, u64)>, session_id: String)
        requires
            v == API_VERSION,
            match shard {
                Some(info) => info == old(self).shard_info,
                None => old(self).shard_info == (0u64, 0u64),
            },
        ensures
            *final(self) == (ShardState { session_id: Some(session_id), ..*old(self) }),
    {
        self.session_id = Some(session_id);
    }

    /// Handles the websocket closing or failing: the session state is reset and the socket
    /// closed, with Discord's frame or one that says what happened.
    pub fn socket_event(&mut self, event: SocketEvent) -> (f: CloseFrame)
        ensures
            *final(self) == reset_of((ShardState { connected: false, ..*old(self) })),
            match event {
                SocketEvent::Close(Some(frame)) => f == frame,
                SocketEvent::Close(None) => f.code == CLOSE_RESTART
                    && f.reason@ == "Received `Message::Close` (without a CloseFrame)"@,
                SocketEvent::Ended => f.code == CLOSE_RESTART && f.reason@ == "Websocket closed"@,
                SocketEvent::Error => f.code == CLOSE_ERROR && f.reason@ == "websocket error"@,
            },
    {
        self.reset_connection_state();
        self.connected = false;
        match event {
            SocketEvent::Close(Some(frame)) => frame,
            SocketEvent::Close(None) => close_frame(CLOSE_RESTART, "Received `Message::Close` (without a CloseFrame)"),
            SocketEvent::Ended => close_frame(CLOSE_RESTART, "Websocket closed"),
            SocketEvent::Error => close_frame(CLOSE_ERROR, "websocket error"),
        }
    }
}

} // verus!
