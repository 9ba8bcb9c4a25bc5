//! The voice side of the engine: the per-guild voice-state aggregator that
//! merges the two signaling fragments into one credential, the registries of
//! media-session and playback handles, the join/leave steps, and the raw
//! audio-frame conversion.

use vstd::prelude::*;
use vstd::string::*;
use crate::gateway::OutboundFrame;
use crate::registry::{
    lemma_assoc_get_push, lemma_assoc_get_remove, lemma_assoc_remove_snoc, spec_assoc_get,
    spec_assoc_remove, HandleMap,
};
use crate::strings::{spec_starts_with, str_eq, str_starts_with};

verus! {

/// Voice connection state for one guild, populated incrementally from the
/// two signaling fragments of the voice handshake.
#[derive(Debug, Clone)]
pub struct VoiceState {
    pub token: String,
    pub endpoint: String,
    pub session_id: Option<String>,
}

/// A voice state is ready for the media layer only when both the token and
/// the endpoint have arrived; a partial state never is.
pub open spec fn spec_voice_ready(vs: VoiceState) -> bool {
    vs.token@.len() > 0 && vs.endpoint@.len() > 0
}

/// A state that misses either constituent field — as one fragment alone
/// leaves it — is not ready.
pub proof fn lemma_partial_state_not_ready(vs: VoiceState)
    requires
        vs.token@.len() == 0 || vs.endpoint@.len() == 0,
    ensures
        !spec_voice_ready(vs),
{
}

impl VoiceState {
    /// A state with no fragment recorded yet.
    pub fn empty() -> (vs: VoiceState)
        ensures
            vs.token@ == Seq::<char>::empty(),
            vs.endpoint@ == Seq::<char>::empty(),
            vs.session_id is None,
    {
        VoiceState { token: String::new(), endpoint: String::new(), session_id: None }
    }

    /// A field-for-field copy, equal to this state.
    pub fn duplicate(&self) -> (r: VoiceState)
        ensures
            r == *self,
    {
        VoiceState {
            token: self.token.clone(),
            endpoint: self.endpoint.clone(),
            session_id: match &self.session_id {
                Option::Some(s) => Some(s.clone()),
                Option::None => None,
            },
        }
    }
}

/// An endpoint not already carrying a secure-websocket or secure-http scheme
/// gets the secure-websocket scheme prepended.
pub open spec fn spec_normalize_endpoint(e: Seq<char>) -> Seq<char> {
    if spec_starts_with(e, "wss://"@) || spec_starts_with(e, "https://"@) {
        e
    } else {
        "wss://"@ + e
    }
}

/// Normalizes a voice endpoint to a secure scheme.
pub fn normalize_endpoint(e: &str) -> (r: String)
    ensures
        r@ == spec_normalize_endpoint(e@),
{
    if str_starts_with(e, "wss://") || str_starts_with(e, "https://") {
        e.to_owned()
    } else {
        String::from_str("wss://").concat(e)
    }
}

/// The per-guild voice-state aggregator: each guild's entry is built up from
/// the two independently-timed signaling fragments and handed out only once
/// complete.
pub struct VoiceStateMap {
    entries: Vec<(String, VoiceState)>,
}

impl VoiceStateMap {
    /// The state recorded for a guild, if any.
    pub closed spec fn spec_get(self, g: Seq<char>) -> Option<VoiceState> {
        spec_assoc_get(self.entries@, g)
    }

    /// An aggregator with no state recorded.
    pub fn new() -> (m: VoiceStateMap)
        ensures
            forall|g: Seq<char>| m.spec_get(g) is None,
    {
        VoiceStateMap { entries: Vec::new() }
    }

    /// The state recorded for `guild_id`, if any.
    pub fn get(&self, guild_id: &str) -> (r: Option<VoiceState>)
        ensures
            r == self.spec_get(guild_id@),
    {
        let mut i: usize = 0;
        proof {
            assert(self.entries@.skip(0) =~= self.entries@);
        }
        while i < self.entries.len()
            invariant
                i <= self.entries@.len(),
                spec_assoc_get(self.entries@, guild_id@) == spec_assoc_get(
                    self.entries@.skip(i as int),
                    guild_id@,
                ),
            decreases self.entries@.len() - i,
        {
            let e = &self.entries[i];
            if str_eq(e.0.as_str(), guild_id) {
                proof {
                    assert(self.entries@.skip(i as int)[0] == self.entries@[i as int]);
                }
                return Some(e.1.duplicate());
            }
            proof {
                assert(self.entries@.skip(i as int)[0] == self.entries@[i as int]);
                assert(self.entries@.skip(i as int).drop_first() =~= self.entries@.skip(i + 1));
            }
            i = i + 1;
        }
        proof {
            assert(self.entries@.skip(i as int) =~= Seq::<(String, VoiceState)>::empty());
        }
        None
    }

    fn remove_key(&mut self, guild_id: &str)
        ensures
            final(self).entries@ == spec_assoc_remove(old(self).entries@, guild_id@),
    {
        let mut out: Vec<(String, VoiceState)> = Vec::new();
        let mut i: usize = 0;
        while i < self.entries.len()
            invariant
                i <= self.entries@.len(),
                out@ == spec_assoc_remove(self.entries@.subrange(0, i as int), guild_id@),
            decreases self.entries@.len() - i,
        {
            let e = &self.entries[i];
            proof {
                assert(self.entries@.subrange(0, i as int).push(self.entries@[i as int])
                    =~= self.entries@.subrange(0, i + 1 as int));
                lemma_assoc_remove_snoc(
                    self.entries@.subrange(0, i as int),
                    self.entries@[i as int],
                    guild_id@,
                );
            }
            if !str_eq(e.0.as_str(), guild_id) {
                let key = e.0.clone();
                let val = e.1.duplicate();
                out.push((key, val));
                proof {
                    assert((key, val) == self.entries@[i as int]);
                }
            }
            i = i + 1;
        }
        proof {
            assert(self.entries@.subrange(0, self.entries@.len() as int) =~= self.entries@);
        }
        self.entries = out;
    }

    fn put(&mut self, guild_id: &str, vs: VoiceState)
        ensures
            final(self).spec_get(guild_id@) == Some(vs),
            forall|h: Seq<char>|
                h != guild_id@ ==> final(self).spec_get(h) == old(self).spec_get(h),
    {
        self.remove_key(guild_id);
        let key: String = guild_id.to_owned();
        proof {
            let removed = spec_assoc_remove(old(self).entries@, guild_id@);
            assert forall|h: Seq<char>| true implies spec_assoc_get(removed.push((key, vs)), h)
                == if h == guild_id@ {
                Option::Some(vs)
            } else {
                spec_assoc_get(old(self).entries@, h)
            } by {
                lemma_assoc_get_remove(old(self).entries@, guild_id@, h);
                lemma_assoc_get_push(removed, (key, vs), h);
            }
        }
        self.entries.push((key, vs));
    }

    /// Records the voice-state fragment for a guild: its session id. The
    /// entry is created when absent; the server fragment's fields are kept.
    pub fn record_state_fragment(&mut self, guild_id: &str, session_id: String)
        ensures
            final(self).spec_get(guild_id@) matches Some(vs) && vs.session_id == Some(session_id)
                && (match old(self).spec_get(guild_id@) {
                Option::Some(p) => vs.token == p.token && vs.endpoint == p.endpoint,
                Option::None => vs.token@ == Seq::<char>::empty() && vs.endpoint@
                    == Seq::<char>::empty(),
            }),
            forall|h: Seq<char>|
                h != guild_id@ ==> final(self).spec_get(h) == old(self).spec_get(h),
    {
        let mut entry = match self.get(guild_id) {
            Option::Some(vs) => vs,
            Option::None => VoiceState::empty(),
        };
        entry.session_id = Some(session_id);
        self.put(guild_id, entry);
    }

    /// Records the voice-server fragment for a guild: the token and the
    /// normalized endpoint. The entry is created when absent; the state
    /// fragment's session id is kept.
    pub fn record_server_fragment(&mut self, guild_id: &str, token: String, endpoint: String)
        ensures
            final(self).spec_get(guild_id@) matches Some(vs) && vs.token == token && vs.endpoint@
                == spec_normalize_endpoint(endpoint@) && vs.session_id == (match old(
                self,
            ).spec_get(guild_id@) {
                Option::Some(p) => p.session_id,
                Option::None => Option::None::<String>,
            }),
            forall|h: Seq<char>|
                h != guild_id@ ==> final(self).spec_get(h) == old(self).spec_get(h),
    {
        let mut entry = match self.get(guild_id) {
            Option::Some(vs) => vs,
            Option::None => VoiceState::empty(),
        };
        entry.token = token;
        entry.endpoint = normalize_endpoint(endpoint.as_str());
        self.put(guild_id, entry);
    }

    /// The completed voice state for a guild: the entry exactly when both
    /// the token and the endpoint have arrived, and never a partial state.
    pub fn ready_state(&self, guild_id: &str) -> (r: Option<VoiceState>)
        ensures
            r is Some <==> (self.spec_get(guild_id@) matches Some(e) && spec_voice_ready(e)),
            r matches Some(vs) ==> self.spec_get(guild_id@) == Some(vs),
    {
        match self.get(guild_id) {
            Option::Some(vs) => {
                if !vs.token.as_str().is_empty() && !vs.endpoint.as_str().is_empty() {
                    Some(vs)
                } else {
                    None
                }
            },
            Option::None => None,
        }
    }

    /// Forgets any partial or stale state for a guild, so that nothing of a
    /// previous handshake leaks into the next one.
    pub fn clear(&mut self, guild_id: &str)
        ensures
            final(self).spec_get(guild_id@) is None,
            forall|h: Seq<char>|
                h != guild_id@ ==> final(self).spec_get(h) == old(self).spec_get(h),
    {
        proof {
            assert forall|h: Seq<char>| true implies spec_assoc_get(
                spec_assoc_remove(old(self).entries@, guild_id@),
                h,
            ) == if h == guild_id@ {
                Option::None::<VoiceState>
            } else {
                spec_assoc_get(old(self).entries@, h)
            } by {
                lemma_assoc_get_remove(old(self).entries@, guild_id@, h);
            }
        }
        self.remove_key(guild_id);
    }
}

// ---------------------------------------------------------------------------
// Join / leave steps
// ---------------------------------------------------------------------------

/// The signaling frame that asks to join a channel of a guild.
pub fn voice_join_frame(guild_id: &str, channel_id: &str) -> (f: OutboundFrame)
    ensures
        f matches OutboundFrame::VoiceStateUpdate { guild_id: g, channel_id: c, self_mute, self_deaf }
            && g@ == guild_id@ && (c matches Some(ch) && ch@ == channel_id@) && !self_mute
            && !self_deaf,
{
    OutboundFrame::VoiceStateUpdate {
        guild_id: guild_id.to_owned(),
        channel_id: Some(channel_id.to_owned()),
        self_mute: false,
        self_deaf: false,
    }
}

/// The signaling frame that formally leaves voice in a guild.
pub fn voice_leave_frame(guild_id: &str) -> (f: OutboundFrame)
    ensures
        f matches OutboundFrame::VoiceStateUpdate { guild_id: g, channel_id: c, self_mute, self_deaf }
            && g@ == guild_id@ && c is None && !self_mute && !self_deaf,
{
    OutboundFrame::VoiceStateUpdate {
        guild_id: guild_id.to_owned(),
        channel_id: None,
        self_mute: false,
        self_deaf: false,
    }
}

/// Starts a join: any stale aggregator state for the guild is dropped first,
/// so a previous session's leftover fragment can never satisfy the new
/// handshake, and the join request frame is produced.
pub fn begin_join(agg: &mut VoiceStateMap, guild_id: &str, channel_id: &str) -> (f: OutboundFrame)
    ensures
        final(agg).spec_get(guild_id@) is None,
        forall|h: Seq<char>| h != guild_id@ ==> final(agg).spec_get(h) == old(agg).spec_get(h),
        f matches OutboundFrame::VoiceStateUpdate { guild_id: g, channel_id: c, self_mute, self_deaf }
            && g@ == guild_id@ && (c matches Some(ch) && ch@ == channel_id@) && !self_mute
            && !self_deaf,
{
    agg.clear(guild_id);
    voice_join_frame(guild_id, channel_id)
}

/// Completes a join: the opened media-session handle is recorded for the
/// guild, displacing and returning any prior handle.
pub fn finish_join(rooms: &mut HandleMap, guild_id: &str, room_handle: u64) -> (prior: Option<
    u64,
>)
    ensures
        prior == old(rooms).spec_get(guild_id@),
        final(rooms).spec_get(guild_id@) == Some(room_handle),
        forall|h: Seq<char>| h != guild_id@ ==> final(rooms).spec_get(h) == old(rooms).spec_get(h),
{
    rooms.insert(guild_id, room_handle)
}

/// Leaves voice in a guild: the media-session handle to close is surfaced
/// and forgotten, the aggregator state is dropped, and the leave frame is
/// produced. Leaving a guild with no session finds nothing to close and
/// changes nothing, so a second consecutive leave is a no-op.
pub fn leave_voice_step(rooms: &mut HandleMap, agg: &mut VoiceStateMap, guild_id: &str) -> (r: (
    Option<u64>,
    OutboundFrame,
))
    ensures
        r.0 == old(rooms).spec_get(guild_id@),
        final(rooms).spec_get(guild_id@) is None,
        forall|h: Seq<char>| h != guild_id@ ==> final(rooms).spec_get(h) == old(rooms).spec_get(h),
        final(agg).spec_get(guild_id@) is None,
        forall|h: Seq<char>| h != guild_id@ ==> final(agg).spec_get(h) == old(agg).spec_get(h),
        r.1 matches OutboundFrame::VoiceStateUpdate { guild_id: g, channel_id: c, self_mute, self_deaf }
            && g@ == guild_id@ && c is None && !self_mute && !self_deaf,
{
    let prior = rooms.remove(guild_id);
    agg.clear(guild_id);
    (prior, voice_leave_frame(guild_id))
}

/// Leaves voice in a guild with its playback stopped first: the playback
/// handle to cancel is surfaced before the media-session handle to close,
/// so the caller aborts the stream before the session it writes to is torn
/// down; both registries and the aggregator forget the guild, and the leave
/// frame is produced. With nothing active, everything surfaced is empty and
/// nothing changes.
pub fn leave_voice_full(
    playback: &mut HandleMap,
    rooms: &mut HandleMap,
    agg: &mut VoiceStateMap,
    guild_id: &str,
) -> (r: (Option<u64>, Option<u64>, OutboundFrame))
    ensures
        r.0 == old(playback).spec_get(guild_id@),
        final(playback).spec_get(guild_id@) is None,
        forall|h: Seq<char>|
            h != guild_id@ ==> final(playback).spec_get(h) == old(playback).spec_get(h),
        r.1 == old(rooms).spec_get(guild_id@),
        final(rooms).spec_get(guild_id@) is None,
        forall|h: Seq<char>| h != guild_id@ ==> final(rooms).spec_get(h) == old(rooms).spec_get(h),
        final(agg).spec_get(guild_id@) is None,
        forall|h: Seq<char>| h != guild_id@ ==> final(agg).spec_get(h) == old(agg).spec_get(h),
        r.2 matches OutboundFrame::VoiceStateUpdate { guild_id: g, channel_id: c, self_mute, self_deaf }
            && g@ == guild_id@ && c is None && !self_mute && !self_deaf,
{
    let playing = playback.remove(guild_id);
    let (room, frame) = leave_voice_step(rooms, agg, guild_id);
    (playing, room, frame)
}

/// Registers a new playback handle for a guild, surfacing the prior one for
/// cancellation: at most one playback runs per guild, and starting a new one
/// hands the old one back to be stopped first.
pub fn start_playback(playback: &mut HandleMap, guild_id: &str, handle: u64) -> (prior: Option<
    u64,
>)
    ensures
        prior == old(playback).spec_get(guild_id@),
        final(playback).spec_get(guild_id@) == Some(handle),
        forall|h: Seq<char>|
            h != guild_id@ ==> final(playback).spec_get(h) == old(playback).spec_get(h),
{
    playback.insert(guild_id, handle)
}

/// Whatever a registry held before, registering a handle for a guild makes
/// exactly that handle the guild's entry — so registering another one next
/// surfaces this one as the prior handle to cancel.
pub proof fn lemma_replacement_surfaces_prior<V>(
    s: Seq<(String, V)>,
    key: String,
    handle: V,
    g: Seq<char>,
)
    requires
        key@ == g,
    ensures
        spec_assoc_get(spec_assoc_remove(s, g).push((key, handle)), g) == Some(handle),
{
    lemma_assoc_get_remove(s, g, g);
    lemma_assoc_get_push(spec_assoc_remove(s, g), (key, handle), g);
}

/// Removing a guild's entry is idempotent: a removal from a registry that
/// holds nothing under the key finds nothing and changes nothing.
pub proof fn lemma_remove_idempotent<V>(s: Seq<(String, V)>, g: Seq<char>)
    ensures
        spec_assoc_remove(spec_assoc_remove(s, g), g) == spec_assoc_remove(s, g),
        spec_assoc_get(spec_assoc_remove(s, g), g) is None,
    decreases s.len(),
{
    lemma_assoc_get_remove(s, g, g);
    if s.len() > 0 {
        lemma_remove_idempotent(s.drop_first(), g);
        if s[0].0@ != g {
            let rest = spec_assoc_remove(s.drop_first(), g);
            let whole = seq![s[0]] + rest;
            assert(whole[0] == s[0]);
            assert(whole.drop_first() =~= rest);
            assert(spec_assoc_remove(whole, g) =~= seq![s[0]] + spec_assoc_remove(rest, g));
            assert(spec_assoc_remove(whole, g) =~= whole);
        }
    }
}

// ---------------------------------------------------------------------------
// Raw audio frames
// ---------------------------------------------------------------------------

/// The signed 16-bit sample encoded little-endian by two bytes, in two's
/// complement.
pub open spec fn spec_s16_le(lo: u8, hi: u8) -> int {
    if lo + hi * 256 >= 32768 {
        lo + hi * 256 - 65536
    } else {
        lo + hi * 256
    }
}

/// Converts little-endian 16-bit PCM bytes, as the external decoder emits
/// them, into samples; a trailing odd byte is dropped.
pub fn pcm_bytes_to_samples(bytes: &Vec<u8>) -> (r: Vec<i16>)
    ensures
        r@.len() == bytes@.len() / 2,
        forall|i: int|
            0 <= i < r@.len() ==> r@[i] as int == spec_s16_le(bytes@[2 * i], bytes@[2 * i + 1]),
{
    let mut r: Vec<i16> = Vec::new();
    let mut i: usize = 0;
    let half = bytes.len() / 2;
    while i < half
        invariant
            bytes@.len() <= usize::MAX,
            half == bytes@.len() / 2,
            i <= half,
            r@.len() == i,
            forall|k: int|
                0 <= k < i ==> r@[k] as int == spec_s16_le(bytes@[2 * k], bytes@[2 * k + 1]),
        decreases half - i,
    {
        proof {
            assert(2 * (half as int) <= bytes@.len());
            assert(2 * (i as int) + 1 < bytes@.len());
        }
        let lo = bytes[2 * i];
        let hi = bytes[2 * i + 1];
        let v: u16 = lo as u16 + (hi as u16) * 256;
        let sample: i16 = if v >= 32768 {
            let neg: u32 = 65536u32 - v as u32;
            -((neg - 1) as i16) - 1
        } else {
            v as i16
        };
        r.push(sample);
        i = i + 1;
    }
    r
}

} // verus!
