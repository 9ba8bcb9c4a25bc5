//! The gateway session engine: sequence tracking, the heartbeat liveness
//! protocol, identify-versus-resume selection, close-code classification,
//! frame decoding and per-frame state transitions, and the reconnect/backoff
//! policy. The surrounding socket I/O hands frames in and carries the
//! returned outbound frames and decisions out.

use vstd::prelude::*;
use vstd::string::*;
use crate::json::{
    json_as_bool, json_as_str, json_as_u64, json_field, spec_json_bool, spec_json_field,
    spec_json_ok, spec_json_str, spec_json_u64,
};
use crate::strings::{spec_trim_trailing_slashes, str_eq, trim_trailing_slashes};

verus! {

/// The gateway endpoint used when none can be fetched.
pub const DEFAULT_GATEWAY_URL: &'static str = "wss://gateway.fluxer.app/?v=1&encoding=json";

/// The query string every gateway URL must end with.
pub const GATEWAY_URL_PARAMS: &'static str = "/?v=1&encoding=json";

/// The heartbeat cadence assumed when the hello frame names none.
pub const DEFAULT_HEARTBEAT_INTERVAL_MS: u64 = 41250;

/// The capability flags declared in the identify frame.
pub const DEFAULT_INTENTS: u64 = 0;

// ---------------------------------------------------------------------------
// Sequence tracking
// ---------------------------------------------------------------------------

/// The last sequence number seen on this connection, if any.
#[derive(Debug, Clone, PartialEq, Eq)]
pub struct SequenceCursor {
    pub last_seq: Option<u64>,
}

/// How the cursor moves when a frame carries sequence number `s`: it only
/// ever advances, never regresses.
pub open spec fn spec_advance(last: Option<u64>, s: Option<u64>) -> Option<u64> {
    match s {
        Option::None => last,
        Option::Some(v) => match last {
            Option::None => Option::Some(v),
            Option::Some(l) => if v > l {
                Option::Some(v)
            } else {
                Option::Some(l)
            },
        },
    }
}

/// The cursor after a whole run of frames, oldest first.
pub open spec fn spec_advance_all(init: Option<u64>, seqs: Seq<u64>) -> Option<u64>
    decreases seqs.len(),
{
    if seqs.len() == 0 {
        init
    } else {
        spec_advance_all(spec_advance(init, Option::Some(seqs[0])), seqs.drop_first())
    }
}

/// Whether a run of sequence numbers is strictly increasing.
pub open spec fn spec_strictly_increasing(seqs: Seq<u64>) -> bool {
    forall|i: int, j: int| 0 <= i < j < seqs.len() ==> seqs[i] < seqs[j]
}

impl SequenceCursor {
    /// A cursor that has seen no frame yet.
    pub fn new() -> (c: SequenceCursor)
        ensures
            c.last_seq is None,
    {
        SequenceCursor { last_seq: None }
    }

    /// Notes the sequence number of one frame, advancing the cursor when the
    /// frame carries one that is larger than everything seen so far.
    pub fn note(&mut self, seq: Option<u64>)
        ensures
            final(self).last_seq == spec_advance(old(self).last_seq, seq),
    {
        match seq {
            Option::Some(v) => {
                match self.last_seq {
                    Option::Some(l) => {
                        if v > l {
                            self.last_seq = Some(v);
                        }
                    },
                    Option::None => {
                        self.last_seq = Some(v);
                    },
                }
            },
            Option::None => {},
        }
    }
}

proof fn lemma_advance_all_increasing(init: Option<u64>, seqs: Seq<u64>)
    requires
        spec_strictly_increasing(seqs),
        seqs.len() > 0,
        init matches Some(m) ==> m < seqs[0],
    ensures
        spec_advance_all(init, seqs) == Some(seqs.last()),
    decreases seqs.len(),
{
    let next = spec_advance(init, Option::Some(seqs[0]));
    assert(next == Some(seqs[0]));
    if seqs.len() == 1 {
        assert(spec_advance_all(init, seqs) == spec_advance_all(next, seqs.drop_first()));
    } else {
        let rest = seqs.drop_first();
        assert(spec_strictly_increasing(rest)) by {
            assert(forall|i: int, j: int|
                0 <= i < j < rest.len() ==> rest[i] == seqs[i + 1] && rest[j] == seqs[j + 1]);
        }
        assert(seqs[0] < rest[0]);
        lemma_advance_all_increasing(next, rest);
        assert(rest.last() == seqs.last());
    }
}

/// After a run of dispatch frames whose sequence numbers strictly increase,
/// the cursor holds exactly the maximum — the last — of them.
pub proof fn lemma_cursor_tracks_max(seqs: Seq<u64>)
    requires
        spec_strictly_increasing(seqs),
        seqs.len() > 0,
    ensures
        spec_advance_all(None, seqs) == Some(seqs.last()),
        forall|i: int| 0 <= i < seqs.len() ==> seqs[i] <= seqs.last(),
{
    lemma_advance_all_increasing(None, seqs);
    assert(forall|i: int| 0 <= i < seqs.len() - 1 ==> seqs[i] < seqs.last());
}

// ---------------------------------------------------------------------------
// Heartbeat liveness
// ---------------------------------------------------------------------------

/// The liveness state of one connection: the announced cadence and whether a
/// heartbeat is still waiting for its acknowledgement.
#[derive(Debug, Clone, PartialEq, Eq)]
pub struct LivenessState {
    pub interval_ms: u64,
    pub ack_pending: bool,
}

/// What one heartbeat tick decides: send a heartbeat carrying the given
/// sequence number, or condemn the connection as unresponsive.
#[derive(Debug, Clone, PartialEq, Eq)]
pub enum HeartbeatTick {
    Send { seq: Option<u64> },
    Zombie,
}

/// The liveness state after one tick: sending a heartbeat marks its
/// acknowledgement as outstanding; a zombie connection is left as it is.
pub open spec fn spec_tick_state(l: LivenessState) -> LivenessState {
    if l.ack_pending {
        l
    } else {
        LivenessState { interval_ms: l.interval_ms, ack_pending: true }
    }
}

/// Whether a tick finds the previous heartbeat still unacknowledged.
pub open spec fn spec_tick_is_zombie(l: LivenessState) -> bool {
    l.ack_pending
}

impl LivenessState {
    /// Liveness for a fresh connection with the announced cadence; no
    /// heartbeat is outstanding yet.
    pub fn new(interval_ms: u64) -> (l: LivenessState)
        requires
            interval_ms >= 1,
        ensures
            l == (LivenessState { interval_ms, ack_pending: false }),
    {
        LivenessState { interval_ms, ack_pending: false }
    }

    /// One tick of the heartbeat cadence. If the previous heartbeat was
    /// never acknowledged the connection is condemned; otherwise a heartbeat
    /// carrying `last_seq` is due and its acknowledgement becomes
    /// outstanding.
    pub fn on_tick(&mut self, last_seq: Option<u64>) -> (t: HeartbeatTick)
        ensures
            *final(self) == spec_tick_state(*old(self)),
            t == HeartbeatTick::Zombie <==> spec_tick_is_zombie(*old(self)),
            !old(self).ack_pending ==> t == (HeartbeatTick::Send { seq: last_seq }),
    {
        if self.ack_pending {
            HeartbeatTick::Zombie
        } else {
            self.ack_pending = true;
            HeartbeatTick::Send { seq: last_seq }
        }
    }

    /// Notes the peer's acknowledgement of the outstanding heartbeat.
    pub fn on_ack(&mut self)
        ensures
            *final(self) == (LivenessState {
                interval_ms: old(self).interval_ms,
                ack_pending: false,
            }),
    {
        self.ack_pending = false;
    }
}

/// If a heartbeat is sent at one tick and no acknowledgement arrives before
/// the next tick, that next tick condemns the connection as a zombie.
pub proof fn lemma_unacked_heartbeat_is_zombie(l: LivenessState)
    requires
        !spec_tick_is_zombie(l),
    ensures
        spec_tick_is_zombie(spec_tick_state(l)),
{
}

// ---------------------------------------------------------------------------
// Session state
// ---------------------------------------------------------------------------

/// What a successful identify leaves behind and a resume needs: the session
/// id and, when the server announced one, the endpoint to resume against.
#[derive(Debug, Clone, PartialEq, Eq)]
pub struct SessionIdentity {
    pub session_id: String,
    pub resume_endpoint: Option<String>,
}

/// The engine's state across one connection: the captured session identity,
/// the sequence cursor, and the liveness of the current connection.
#[derive(Debug, Clone)]
pub struct SessionState {
    pub session_id: Option<String>,
    pub resume_url: Option<String>,
    pub cursor: SequenceCursor,
    pub liveness: Option<LivenessState>,
}

impl SessionState {
    /// The state before any connection was made.
    pub fn new() -> (s: SessionState)
        ensures
            s.session_id is None,
            s.resume_url is None,
            s.cursor.last_seq is None,
            s.liveness is None,
    {
        SessionState {
            session_id: None,
            resume_url: None,
            cursor: SequenceCursor::new(),
            liveness: None,
        }
    }

    /// Whether the next connection attempt may resume: it needs both a prior
    /// session identity and a sequence number to resume from.
    pub open spec fn spec_can_resume(self) -> bool {
        self.session_id is Some && self.cursor.last_seq is Some
    }

    /// The captured session identity, when one exists.
    pub fn identity(&self) -> (r: Option<SessionIdentity>)
        ensures
            r matches Some(id) ==> (Some(id.session_id) == self.session_id && id.resume_endpoint
                == self.resume_url),
            r is None <==> self.session_id is None,
    {
        match &self.session_id {
            Option::Some(sid) => Some(
                SessionIdentity {
                    session_id: sid.clone(),
                    resume_endpoint: match &self.resume_url {
                        Option::Some(u) => Some(u.clone()),
                        Option::None => None,
                    },
                },
            ),
            Option::None => None,
        }
    }
}

// ---------------------------------------------------------------------------
// Outbound frames
// ---------------------------------------------------------------------------

/// A frame the engine asks the connection's single writer to send. The
/// writer serializes these; their operation codes are fixed by the wire
/// protocol: identify 2, resume 6, heartbeat 1, voice-state-update 4.
#[derive(Debug, Clone, PartialEq, Eq)]
pub enum OutboundFrame {
    Identify { token: String, intents: u64 },
    Resume { token: String, session_id: String, seq: u64 },
    Heartbeat { seq: Option<u64> },
    VoiceStateUpdate { guild_id: String, channel_id: Option<String>, self_mute: bool, self_deaf: bool },
}

/// The session-start handshake: a resume frame exactly when a prior session
/// identity and sequence number are present, an identify frame otherwise —
/// never both, never the other way around.
pub fn opening_frame(state: &SessionState, auth_token: &str, intents: u64) -> (f: OutboundFrame)
    ensures
        state.spec_can_resume() ==> (f matches OutboundFrame::Resume { token, session_id, seq }
            && token@ == auth_token@ && Some(session_id) == state.session_id && Some(seq)
            == state.cursor.last_seq),
        !state.spec_can_resume() ==> (f matches OutboundFrame::Identify { token, intents: i }
            && token@ == auth_token@ && i == intents),
{
    match (&state.session_id, &state.cursor.last_seq) {
        (Option::Some(sid), Option::Some(seq)) => OutboundFrame::Resume {
            token: auth_token.to_owned(),
            session_id: sid.clone(),
            seq: *seq,
        },
        _ => OutboundFrame::Identify { token: auth_token.to_owned(), intents },
    }
}

/// The gateway URL derived from a REST-provided base: trailing slashes are
/// trimmed and the version and encoding parameters appended.
pub open spec fn spec_gateway_url(base: Seq<char>) -> Seq<char> {
    spec_trim_trailing_slashes(base) + GATEWAY_URL_PARAMS@
}

/// Appends the gateway version and encoding parameters to a base URL.
pub fn gateway_url_with_params(base: &str) -> (r: String)
    ensures
        r@ == spec_gateway_url(base@),
{
    let trimmed = trim_trailing_slashes(base);
    trimmed.concat(GATEWAY_URL_PARAMS)
}

/// The URL the next connection attempt goes to. A resume prefers the
/// server-provided resume endpoint and falls back to the default; a fresh
/// connection uses the endpoint fetched over REST, when that fetch
/// succeeded, and the default otherwise.
pub fn connect_url(state: &SessionState, fetched: Option<&str>) -> (r: String)
    ensures
        state.session_id is Some ==> r@ == (match state.resume_url {
            Option::Some(u) => u@,
            Option::None => DEFAULT_GATEWAY_URL@,
        }),
        state.session_id is None ==> r@ == (match fetched {
            Option::Some(u) => spec_gateway_url(u@),
            Option::None => DEFAULT_GATEWAY_URL@,
        }),
{
    if state.session_id.is_some() {
        match &state.resume_url {
            Option::Some(u) => u.clone(),
            Option::None => DEFAULT_GATEWAY_URL.to_owned(),
        }
    } else {
        match fetched {
            Option::Some(u) => gateway_url_with_params(u),
            Option::None => DEFAULT_GATEWAY_URL.to_owned(),
        }
    }
}

// ---------------------------------------------------------------------------
// Reconnect policy
// ---------------------------------------------------------------------------

/// The outcome of one session attempt: stop for good, retry keeping the
/// session identity and cursor, or retry discarding them.
#[derive(Debug, Clone, PartialEq, Eq)]
pub enum ReconnectDecision {
    Done,
    ReconnectResume,
    ReconnectFresh,
}

/// Close codes that end the session for good: invalid credential (4004),
/// invalid shard (4010), sharding required (4011), invalid protocol
/// version (4012).
pub open spec fn spec_fatal_close_code(code: u16) -> bool {
    code == 4004 || code == 4010 || code == 4011 || code == 4012
}

/// Classifies a close code from the transport: the four fatal codes stop
/// the session permanently; every other close allows a resumable reconnect.
pub fn classify_close(code: u16) -> (d: ReconnectDecision)
    ensures
        spec_fatal_close_code(code) ==> d == ReconnectDecision::Done,
        !spec_fatal_close_code(code) ==> d == ReconnectDecision::ReconnectResume,
{
    if code == 4004 || code == 4010 || code == 4011 || code == 4012 {
        ReconnectDecision::Done
    } else {
        ReconnectDecision::ReconnectResume
    }
}

/// Whether the outer loop opens another connection after a session attempt
/// ended with this decision: it does for either reconnect, and never after
/// `Done` — once a fatal close ends the session, no reconnect follows.
pub fn session_continues(d: &ReconnectDecision) -> (c: bool)
    ensures
        c <==> *d != ReconnectDecision::Done,
{
    !matches!(d, ReconnectDecision::Done)
}

/// Applies a reconnect decision to the session state before the next
/// attempt: a fresh reconnect discards identity, resume endpoint and cursor;
/// a resumable one keeps all three. Liveness belongs to one connection and
/// is dropped either way.
pub fn apply_decision(state: &mut SessionState, d: &ReconnectDecision)
    ensures
        final(state).liveness is None,
        *d == ReconnectDecision::ReconnectFresh ==> final(state).session_id is None
            && final(state).resume_url is None && final(state).cursor.last_seq is None,
        *d != ReconnectDecision::ReconnectFresh ==> final(state).session_id
            == old(state).session_id && final(state).resume_url == old(state).resume_url
            && final(state).cursor == old(state).cursor,
{
    self_liveness_clear(state);
    if matches!(d, ReconnectDecision::ReconnectFresh) {
        state.session_id = None;
        state.resume_url = None;
        state.cursor = SequenceCursor::new();
    }
}

fn self_liveness_clear(state: &mut SessionState)
    ensures
        final(state).liveness is None,
        final(state).session_id == old(state).session_id,
        final(state).resume_url == old(state).resume_url,
        final(state).cursor == old(state).cursor,
{
    state.liveness = None;
}

/// The smallest backoff, used for the first retry after a failure.
pub const INITIAL_BACKOFF_MS: u64 = 1000;

/// The ceiling the exponential backoff never exceeds.
pub const MAX_BACKOFF_MS: u64 = 60000;

/// The next backoff after a failed resumable attempt: doubled, capped at
/// one minute.
pub fn next_backoff_ms(cur: u64) -> (r: u64)
    requires
        cur <= MAX_BACKOFF_MS,
    ensures
        r == if 2 * cur < MAX_BACKOFF_MS {
            2 * cur
        } else {
            MAX_BACKOFF_MS as int
        },
{
    if cur < 30000 {
        2 * cur
    } else {
        MAX_BACKOFF_MS
    }
}

/// The delay before a fresh reconnect, jittered into the one-to-five-second
/// band from a random draw.
pub open spec fn spec_fresh_delay(r: u64) -> int {
    1000 + r % 4000
}

fn fresh_delay_from(r: u64) -> (d: u64)
    ensures
        d == spec_fresh_delay(r),
        1000 <= d <= 4999,
{
    1000 + r % 4000
}

/// The first heartbeat waits a random part of one interval so that many
/// clients do not tick in step; the wait is at least one millisecond.
pub open spec fn spec_heartbeat_jitter(r: u64, interval_ms: u64) -> int {
    if r % interval_ms == 0 {
        1
    } else {
        (r % interval_ms) as int
    }
}

fn heartbeat_jitter_from(r: u64, interval_ms: u64) -> (d: u64)
    requires
        interval_ms >= 1,
    ensures
        d == spec_heartbeat_jitter(r, interval_ms),
        1 <= d <= interval_ms,
{
    let m = r % interval_ms;
    if m == 0 {
        1
    } else {
        m
    }
}

/// Draws a 64-bit value.
///
/// Relies on `rand::random`: a value drawn from the thread's generator;
/// nothing is promised about which value comes back. The thread generator
/// aborts if the operating system's entropy source fails — an environmental
/// failure, not one any input can cause.
#[verifier::external_body]
fn random_u64() -> u64 {
    rand::random()
}

/// The delay before a fresh reconnect attempt: between one and five
/// seconds, jittered.
pub fn fresh_reconnect_delay_ms() -> (d: u64)
    ensures
        1000 <= d <= 4999,
{
    fresh_delay_from(random_u64())
}

/// The jittered delay before the first heartbeat of a connection: within
/// one interval, and at least one millisecond.
pub fn heartbeat_jitter_ms(interval_ms: u64) -> (d: u64)
    requires
        interval_ms >= 1,
    ensures
        1 <= d <= interval_ms,
{
    heartbeat_jitter_from(random_u64(), interval_ms)
}

// ---------------------------------------------------------------------------
// Inbound frames
// ---------------------------------------------------------------------------

/// The sequence number carried by a frame's envelope: its `s` field read
/// as an unsigned integer.
pub open spec fn spec_frame_seq(v: serde_json::Value) -> Option<u64> {
    match spec_json_field(v, "s"@) {
        Option::Some(sv) => spec_json_u64(sv),
        Option::None => Option::None,
    }
}

/// The operation code of a frame: its `op` field, read as 255 when absent
/// or not an integer, which no recognized code uses.
pub open spec fn spec_frame_op(v: serde_json::Value) -> u64 {
    match spec_json_field(v, "op"@) {
        Option::Some(ov) => match spec_json_u64(ov) {
            Option::Some(o) => o,
            Option::None => 255,
        },
        Option::None => 255,
    }
}

/// The event-type tag of a dispatch frame: its `t` field, read as empty
/// when absent or not a string.
pub open spec fn spec_frame_tag(v: serde_json::Value) -> Seq<char> {
    match spec_json_field(v, "t"@) {
        Option::Some(tv) => match spec_json_str(tv) {
            Option::Some(t) => t,
            Option::None => Seq::empty(),
        },
        Option::None => Seq::empty(),
    }
}

/// A string field of a frame's payload, when the payload and the field are
/// both present and the field is a string.
pub open spec fn spec_payload_field_str(v: serde_json::Value, key: Seq<char>) -> Option<
    Seq<char>,
> {
    match spec_json_field(v, "d"@) {
        Option::Some(d) => match spec_json_field(d, key) {
            Option::Some(fv) => spec_json_str(fv),
            Option::None => Option::None,
        },
        Option::None => Option::None,
    }
}

/// The heartbeat cadence a hello frame announces: the payload's
/// `heartbeat_interval`, with the default standing in when the field is
/// missing, not an integer, or zero.
pub open spec fn spec_hello_interval(v: serde_json::Value) -> u64 {
    let raw = match spec_json_field(v, "d"@) {
        Option::Some(d) => match spec_json_field(d, "heartbeat_interval"@) {
            Option::Some(iv) => match spec_json_u64(iv) {
                Option::Some(i) => i,
                Option::None => DEFAULT_HEARTBEAT_INTERVAL_MS,
            },
            Option::None => DEFAULT_HEARTBEAT_INTERVAL_MS,
        },
        Option::None => DEFAULT_HEARTBEAT_INTERVAL_MS,
    };
    if raw == 0 {
        DEFAULT_HEARTBEAT_INTERVAL_MS
    } else {
        raw
    }
}

/// Whether an invalid-session payload marks the session resumable: its
/// payload read as a boolean, not resumable when missing or of another
/// type.
pub open spec fn spec_invalid_resumable(v: serde_json::Value) -> bool {
    match spec_json_field(v, "d"@) {
        Option::Some(d) => match spec_json_bool(d) {
            Option::Some(b) => b,
            Option::None => false,
        },
        Option::None => false,
    }
}

/// What a ready event carries for session bookkeeping: the session id and
/// the endpoint to resume against, each only when the payload named it.
#[derive(Debug, Clone, PartialEq, Eq)]
pub struct ReadyCapture {
    pub session_id: Option<String>,
    pub resume_gateway_url: Option<String>,
}

/// An inbound frame after envelope decoding, classified by operation code:
/// dispatch 0, heartbeat request 1, resume/identify answers arrive as
/// dispatches, reconnect 7, invalid-session 9, hello 10, heartbeat-ack 11.
#[derive(Debug)]
pub enum FrameKind {
    Dispatch { event_type: String, ready: Option<ReadyCapture>, payload: Option<serde_json::Value> },
    Hello { heartbeat_interval_ms: u64 },
    HeartbeatRequest,
    HeartbeatAck,
    Reconnect,
    InvalidSession { resumable: bool },
    Other { op: u64 },
}

/// One inbound frame: its sequence number, when it carries one, and its
/// classified kind.
#[derive(Debug)]
pub struct ParsedFrame {
    pub seq: Option<u64>,
    pub kind: FrameKind,
}

/// Decodes the envelope of one inbound frame: the operation code routes it,
/// the sequence number is kept, and for a dispatch the event-type tag and
/// payload are pulled out — with the session identity fields captured
/// eagerly when the tag is the ready event.
pub fn decode_frame(v: &serde_json::Value) -> (f: ParsedFrame)
    ensures
        f.seq == spec_frame_seq(*v),
        f.kind matches FrameKind::Hello { heartbeat_interval_ms } ==> heartbeat_interval_ms >= 1,
        ({
            let op = spec_frame_op(*v);
            if op == 0 {
                f.kind matches FrameKind::Dispatch { event_type, ready, payload } && event_type@
                    == spec_frame_tag(*v) && payload == spec_json_field(*v, "d"@) && (
                ready is Some <==> event_type@ == "READY"@) && (ready matches Some(rc) ==> ((
                rc.session_id is Some <==> spec_payload_field_str(*v, "session_id"@) is Some) && (
                rc.session_id matches Some(s) ==> Some(s@) == spec_payload_field_str(
                    *v,
                    "session_id"@,
                )) && (rc.resume_gateway_url is Some <==> spec_payload_field_str(
                    *v,
                    "resume_gateway_url"@,
                ) is Some) && (rc.resume_gateway_url matches Some(u) ==> Some(u@)
                    == spec_payload_field_str(*v, "resume_gateway_url"@))))
            } else if op == 10 {
                f.kind matches FrameKind::Hello { heartbeat_interval_ms }
                    && heartbeat_interval_ms == spec_hello_interval(*v)
            } else if op == 11 {
                f.kind is HeartbeatAck
            } else if op == 7 {
                f.kind is Reconnect
            } else if op == 9 {
                f.kind matches FrameKind::InvalidSession { resumable } && resumable
                    == spec_invalid_resumable(*v)
            } else if op == 1 {
                f.kind is HeartbeatRequest
            } else {
                f.kind matches FrameKind::Other { op: o } && o == op
            }
        }),
{
    let seq = match json_field(v, "s") {
        Option::Some(sv) => json_as_u64(&sv),
        Option::None => None,
    };
    let op = match json_field(v, "op") {
        Option::Some(ov) => match json_as_u64(&ov) {
            Option::Some(o) => o,
            Option::None => 255,
        },
        Option::None => 255,
    };
    let payload = json_field(v, "d");
    let kind = if op == 0 {
        let event_type = match json_field(v, "t") {
            Option::Some(tv) => match json_as_str(&tv) {
                Option::Some(t) => t,
                Option::None => String::new(),
            },
            Option::None => String::new(),
        };
        let ready = if str_eq(event_type.as_str(), "READY") {
            let session_id = match &payload {
                Option::Some(d) => match json_field(d, "session_id") {
                    Option::Some(sv) => json_as_str(&sv),
                    Option::None => None,
                },
                Option::None => None,
            };
            let resume_gateway_url = match &payload {
                Option::Some(d) => match json_field(d, "resume_gateway_url") {
                    Option::Some(uv) => json_as_str(&uv),
                    Option::None => None,
                },
                Option::None => None,
            };
            Some(ReadyCapture { session_id, resume_gateway_url })
        } else {
            None
        };
        FrameKind::Dispatch { event_type, ready, payload }
    } else if op == 10 {
        let interval = match &payload {
            Option::Some(d) => match json_field(d, "heartbeat_interval") {
                Option::Some(iv) => match json_as_u64(&iv) {
                    Option::Some(i) => i,
                    Option::None => DEFAULT_HEARTBEAT_INTERVAL_MS,
                },
                Option::None => DEFAULT_HEARTBEAT_INTERVAL_MS,
            },
            Option::None => DEFAULT_HEARTBEAT_INTERVAL_MS,
        };
        let interval = if interval == 0 {
            DEFAULT_HEARTBEAT_INTERVAL_MS
        } else {
            interval
        };
        FrameKind::Hello { heartbeat_interval_ms: interval }
    } else if op == 11 {
        FrameKind::HeartbeatAck
    } else if op == 7 {
        FrameKind::Reconnect
    } else if op == 9 {
        let resumable = match &payload {
            Option::Some(d) => match json_as_bool(d) {
                Option::Some(b) => b,
                Option::None => false,
            },
            Option::None => false,
        };
        FrameKind::InvalidSession { resumable }
    } else if op == 1 {
        FrameKind::HeartbeatRequest
    } else {
        FrameKind::Other { op }
    };
    ParsedFrame { seq, kind }
}

/// Decodes one wire frame from its JSON text: text that is not valid JSON is
/// reported as this library's JSON error, and the engine drops such a frame
/// while the connection continues; anything else is classified by
/// [`decode_frame`].
pub fn decode_text(text: &str) -> (r: Result<ParsedFrame, crate::error::ClientError>)
    ensures
        r is Ok <==> spec_json_ok(text@),
        r matches Err(e) ==> e is Json,
        r matches Ok(f) ==> (f.kind matches FrameKind::Hello { heartbeat_interval_ms }
            ==> heartbeat_interval_ms >= 1),
{
    match crate::json::parse_json(text) {
        Result::Ok(v) => Ok(decode_frame(&v)),
        Result::Err(e) => Err(e),
    }
}

/// What the engine asks its surroundings to do after one frame: nothing,
/// start the heartbeat monitor, send a frame, hand an event to the
/// dispatcher, or end this session attempt with a decision.
#[derive(Debug)]
pub enum FrameOutcome {
    Continue,
    StartHeartbeat { interval_ms: u64 },
    Emit { frame: OutboundFrame },
    DispatchEvent { event_type: String, payload: Option<serde_json::Value> },
    Complete { decision: ReconnectDecision },
}

/// The session identity after a dispatch frame: a ready capture installs the
/// fields it carries and leaves the others as they were.
pub open spec fn spec_session_id_after(
    prior: Option<String>,
    ready: Option<ReadyCapture>,
) -> Option<String> {
    match ready {
        Option::Some(rc) => match rc.session_id {
            Option::Some(sid) => Option::Some(sid),
            Option::None => prior,
        },
        Option::None => prior,
    }
}

/// Processes one inbound frame: the sequence cursor advances first, then the
/// frame's kind decides the outcome and the state change.
pub fn process_frame(state: &mut SessionState, frame: ParsedFrame) -> (o: FrameOutcome)
    ensures
        final(state).cursor.last_seq == spec_advance(old(state).cursor.last_seq, frame.seq),
        (match frame.kind {
            FrameKind::Hello { heartbeat_interval_ms } => {
                &&& o matches FrameOutcome::StartHeartbeat { interval_ms } && interval_ms
                    == heartbeat_interval_ms
                &&& final(state).liveness == Some(
                    LivenessState { interval_ms: heartbeat_interval_ms, ack_pending: false },
                )
                &&& final(state).session_id == old(state).session_id
                &&& final(state).resume_url == old(state).resume_url
            },
            FrameKind::HeartbeatAck => {
                &&& o is Continue
                &&& final(state).liveness == (match old(state).liveness {
                    Option::Some(l) => Option::Some(
                        LivenessState { interval_ms: l.interval_ms, ack_pending: false },
                    ),
                    Option::None => Option::None::<LivenessState>,
                })
                &&& final(state).session_id == old(state).session_id
                &&& final(state).resume_url == old(state).resume_url
            },
            FrameKind::HeartbeatRequest => {
                &&& o matches FrameOutcome::Emit { frame: hb } && hb == (OutboundFrame::Heartbeat {
                    seq: final(state).cursor.last_seq,
                })
                &&& final(state).liveness == old(state).liveness
                &&& final(state).session_id == old(state).session_id
                &&& final(state).resume_url == old(state).resume_url
            },
            FrameKind::Reconnect => {
                &&& o matches FrameOutcome::Complete { decision } && decision
                    == ReconnectDecision::ReconnectResume
                &&& final(state).session_id == old(state).session_id
                &&& final(state).resume_url == old(state).resume_url
            },
            FrameKind::InvalidSession { resumable } => {
                &&& o matches FrameOutcome::Complete { decision } && decision == (if resumable {
                    ReconnectDecision::ReconnectResume
                } else {
                    ReconnectDecision::ReconnectFresh
                })
                &&& final(state).session_id == old(state).session_id
                &&& final(state).resume_url == old(state).resume_url
            },
            FrameKind::Dispatch { event_type, ready, payload } => {
                &&& o matches FrameOutcome::DispatchEvent { event_type: et, payload: p } && et
                    == event_type && p == payload
                &&& final(state).session_id == spec_session_id_after(
                    old(state).session_id,
                    ready,
                )
                &&& (match ready {
                    Option::Some(rc) => match rc.resume_gateway_url {
                        Option::Some(raw) => final(state).resume_url matches Some(ru) && ru@
                            == spec_gateway_url(raw@),
                        Option::None => final(state).resume_url == old(state).resume_url,
                    },
                    Option::None => final(state).resume_url == old(state).resume_url,
                })
                &&& final(state).liveness == old(state).liveness
            },
            FrameKind::Other { op } => {
                &&& o is Continue
                &&& final(state).liveness == old(state).liveness
                &&& final(state).session_id == old(state).session_id
                &&& final(state).resume_url == old(state).resume_url
            },
        }),
{
    state.cursor.note(frame.seq);
    match frame.kind {
        FrameKind::Hello { heartbeat_interval_ms } => {
            state.liveness = Some(
                LivenessState { interval_ms: heartbeat_interval_ms, ack_pending: false },
            );
            FrameOutcome::StartHeartbeat { interval_ms: heartbeat_interval_ms }
        },
        FrameKind::HeartbeatAck => {
            match &mut state.liveness {
                Option::Some(l) => {
                    l.on_ack();
                },
                Option::None => {},
            }
            FrameOutcome::Continue
        },
        FrameKind::HeartbeatRequest => {
            let seq = match &state.cursor.last_seq {
                Option::Some(s) => Some(*s),
                Option::None => None,
            };
            FrameOutcome::Emit { frame: OutboundFrame::Heartbeat { seq } }
        },
        FrameKind::Reconnect => FrameOutcome::Complete {
            decision: ReconnectDecision::ReconnectResume,
        },
        FrameKind::InvalidSession { resumable } => FrameOutcome::Complete {
            decision: if resumable {
                ReconnectDecision::ReconnectResume
            } else {
                ReconnectDecision::ReconnectFresh
            },
        },
        FrameKind::Dispatch { event_type, ready, payload } => {
            match ready {
                Option::Some(rc) => {
                    match rc.session_id {
                        Option::Some(sid) => {
                            state.session_id = Some(sid);
                        },
                        Option::None => {},
                    }
                    match rc.resume_gateway_url {
                        Option::Some(raw) => {
                            state.resume_url = Some(gateway_url_with_params(raw.as_str()));
                        },
                        Option::None => {},
                    }
                },
                Option::None => {},
            }
            FrameOutcome::DispatchEvent { event_type, payload }
        },
        FrameKind::Other { op: _ } => FrameOutcome::Continue,
    }
}

} // verus!
