//! The engine: couples the handshake state machine, the codec and the
//! cryptography, and keeps the traffic counters. It never touches the
//! transport itself: every operation returns the bytes to write, and inbound
//! bytes are handed in.

use vstd::prelude::*;
use vstd::string::StringExecFns;
use crate::crypto::{
    max_plaintext_len, sealed, session_key_for, CryptoState, NONCE_LEN, TAG_LEN,
};
use crate::error::{DerpError, DerpResult};
use crate::frame::{decoded, encoded, frame_bytes, FrameType};
use crate::protocol::{
    announced, both_compress, client_info_bytes, compatible, default_features, server_info_of,
    version_text, ProtocolState, ProtocolView, CLIENT_ID_LEN, MAX_PACKET_SIZE, SERVER_KEY_LEN,
};

verus! {

/// After this many scheduled reopens the engine stops trying.
pub const MAX_RECONNECT_ATTEMPTS: u32 = 5;

/// The base of the reconnect backoff, in milliseconds.
pub const INITIAL_RECONNECT_DELAY_MS: u32 = 1000;

/// A counter value: sums stop at the largest `u64` instead of wrapping, so
/// the counters never go down.
pub open spec fn capped(n: int) -> u64 {
    if n > u64::MAX {
        u64::MAX
    } else if n < 0 {
        0
    } else {
        n as u64
    }
}

/// The sum of a list of lengths.
pub open spec fn total(lens: Seq<nat>) -> nat
    decreases lens.len(),
{
    if lens.len() == 0 {
        0
    } else {
        total(lens.drop_last()) + lens.last()
    }
}

/// The delay in milliseconds before reopen number `attempt`: the initial
/// delay doubled `attempt` times.
pub open spec fn reconnect_delay(attempt: nat) -> nat
    decreases attempt,
{
    if attempt == 0 {
        INITIAL_RECONNECT_DELAY_MS as nat
    } else {
        2 * reconnect_delay((attempt - 1) as nat)
    }
}

/// Traffic counters. They count plaintext bytes and never go down.
#[derive(Debug, Clone, Copy, PartialEq, Eq, Structural)]
pub struct NetworkStats {
    pub bytes_received: u64,
    pub bytes_sent: u64,
    pub packets_received: u64,
    pub packets_sent: u64,
    pub reconnect_attempts: u32,
}

impl Default for NetworkStats {
    fn default() -> (made: NetworkStats)
        ensures
            made == NetworkStats::zero(),
    {
        NetworkStats {
            bytes_received: 0,
            bytes_sent: 0,
            packets_received: 0,
            packets_sent: 0,
            reconnect_attempts: 0,
        }
    }
}

impl NetworkStats {
    /// Counters that have counted nothing yet.
    pub open spec fn zero() -> NetworkStats {
        NetworkStats {
            bytes_received: 0,
            bytes_sent: 0,
            packets_received: 0,
            packets_sent: 0,
            reconnect_attempts: 0,
        }
    }

    /// The counters after one more packet of `len` plaintext bytes was sent.
    pub open spec fn after_send(self, len: nat) -> NetworkStats {
        NetworkStats {
            bytes_sent: capped(self.bytes_sent + len),
            packets_sent: capped(self.packets_sent + 1),
            ..self
        }
    }

    /// The counters after one more packet of `len` plaintext bytes arrived.
    pub open spec fn after_receive(self, len: nat) -> NetworkStats {
        NetworkStats {
            bytes_received: capped(self.bytes_received + len),
            packets_received: capped(self.packets_received + 1),
            ..self
        }
    }

    /// The counters after packets of these lengths were sent one by one.
    pub open spec fn after_sends(self, lens: Seq<nat>) -> NetworkStats
        decreases lens.len(),
    {
        if lens.len() == 0 {
            self
        } else {
            self.after_sends(lens.drop_last()).after_send(lens.last())
        }
    }

    /// Counts one sent packet.
    pub fn record_sent(&mut self, len: usize)
        ensures
            *final(self) == old(self).after_send(len as nat),
    {
        self.bytes_sent = add_capped(self.bytes_sent, len as u64);
        self.packets_sent = add_capped(self.packets_sent, 1);
    }

    /// Counts one received packet.
    pub fn record_received(&mut self, len: usize)
        ensures
            *final(self) == old(self).after_receive(len as nat),
    {
        self.bytes_received = add_capped(self.bytes_received, len as u64);
        self.packets_received = add_capped(self.packets_received, 1);
    }
}

/// Adds two counters, stopping at the largest value.
pub fn add_capped(a: u64, b: u64) -> (sum: u64)
    ensures
        sum == capped(a + b),
{
    if a > u64::MAX - b {
        u64::MAX
    } else {
        a + b
    }
}

/// The backoff stays small: no delay within the reconnect limit exceeds 32
/// seconds, and every delay but the last is at most half of that.
pub proof fn lemma_reconnect_delay_bound(attempt: nat)
    requires
        attempt <= MAX_RECONNECT_ATTEMPTS,
    ensures
        reconnect_delay(attempt) <= 32000,
        attempt < MAX_RECONNECT_ATTEMPTS ==> reconnect_delay(attempt) <= 16000,
{
    reveal_with_fuel(reconnect_delay, 7);
}

/// The delay before reopen number `attempt`, in milliseconds.
pub fn reconnect_delay_ms(attempt: u32) -> (delay: u32)
    requires
        attempt <= MAX_RECONNECT_ATTEMPTS,
    ensures
        delay == reconnect_delay(attempt as nat),
        delay <= 32000,
{
    let mut delay: u32 = INITIAL_RECONNECT_DELAY_MS;
    let mut i: u32 = 0;
    while i < attempt
        invariant
            i <= attempt <= MAX_RECONNECT_ATTEMPTS,
            delay == reconnect_delay(i as nat),
        decreases attempt - i,
    {
        proof {
            lemma_reconnect_delay_bound(i as nat);
        }
        delay = delay * 2;
        i += 1;
    }
    proof {
        lemma_reconnect_delay_bound(attempt as nat);
    }
    delay
}

/// After any run of sends the sent counters hold the sum of the plaintext
/// lengths and the number of packets, on top of what they held before (and
/// stop at the largest `u64`); the other counters are untouched.
pub proof fn lemma_stats_count_sends(start: NetworkStats, lens: Seq<nat>)
    ensures
        start.after_sends(lens).bytes_sent == capped(start.bytes_sent + total(lens)),
        start.after_sends(lens).packets_sent == capped(start.packets_sent + lens.len()),
        start.after_sends(lens).bytes_received == start.bytes_received,
        start.after_sends(lens).packets_received == start.packets_received,
        start.after_sends(lens).reconnect_attempts == start.reconnect_attempts,
        start.after_sends(lens).bytes_sent >= start.bytes_sent,
        start.after_sends(lens).packets_sent >= start.packets_sent,
    decreases lens.len(),
{
    if lens.len() > 0 {
        lemma_stats_count_sends(start, lens.drop_last());
    }
}

/// What the engine asks of its caller after an inbound message.
#[derive(Debug)]
pub enum InboundAction {
    /// Nothing: the message was consumed or dropped.
    Ignore,
    /// Write these bytes to the transport.
    Reply(Vec<u8>),
    /// Hand this decrypted payload on to the local endpoint.
    Deliver(Vec<u8>),
}

/// Whether `frame` is a Send frame around a sealed buffer from which the
/// engine's key recovers `plaintext`.
pub open spec fn carries(
    crypto: CryptoState,
    compression_enabled: bool,
    plaintext: Seq<u8>,
    frame: Seq<u8>,
) -> bool {
    exists|sealed_buf: Seq<u8>|
        frame == #[trigger] encoded(FrameType::Send, sealed_buf, compression_enabled)
            && crypto.plaintext_of(sealed_buf) == Some(plaintext) && sealed_buf.len()
            == plaintext.len() + NONCE_LEN + TAG_LEN
}

/// The engine.
pub struct NetworkState {
    stats: NetworkStats,
    crypto_state: CryptoState,
    protocol_state: ProtocolState,
    url: Option<String>,
}

impl NetworkState {
    /// The traffic counters.
    pub closed spec fn stats(self) -> NetworkStats {
        self.stats
    }

    /// The handshake state machine.
    pub closed spec fn protocol(self) -> ProtocolState {
        self.protocol_state
    }

    /// The keys.
    pub closed spec fn crypto(self) -> CryptoState {
        self.crypto_state
    }

    /// The relay's URL, once `connect` was called.
    pub closed spec fn url(self) -> Option<Seq<char>> {
        match self.url {
            Some(u) => Some(u@),
            None => None,
        }
    }

    /// An engine with zeroed counters, a fresh handshake and no URL.
    pub fn new(crypto_state: CryptoState) -> (made: NetworkState)
        ensures
            made.stats() == NetworkStats::zero(),
            made.crypto() == crypto_state,
            made.url() is None,
            made.protocol().state() is Initial,
            made.protocol()@ == (ProtocolView {
                client_info: None,
                server_info: None,
                last_ping_time: None,
                supported_features: default_features(),
                compression_enabled: false,
                peers: Map::empty(),
            }),
    {
        NetworkState {
            stats: NetworkStats::default(),
            crypto_state,
            protocol_state: ProtocolState::new(),
            url: None,
        }
    }

    /// Whether the handshake has completed.
    pub fn is_connected(&self) -> (connected: bool)
        ensures
            connected == (self.protocol().state() is Complete),
    {
        self.protocol_state.is_connected()
    }

    /// Remembers the relay's URL and starts the handshake. The ClientInfo
    /// frame that comes back is the first thing to write once the transport
    /// is open. With a handshake already under way this is a state error,
    /// without entropy for the client identifier a crypto error; either
    /// leaves the handshake as it is.
    pub fn connect(&mut self, url: &str) -> (out: DerpResult<Vec<u8>>)
        ensures
            final(self).url() == Some(url@),
            final(self).stats() == old(self).stats(),
            final(self).crypto() == old(self).crypto(),
            Self::handshake_started(old(self).protocol(), final(self).protocol(), out),
    {
        self.url = Some(String::from_str(url));
        self.protocol_state.start_handshake()
    }

    /// What starting the handshake does to the state machine and returns.
    pub open spec fn handshake_started(
        before: ProtocolState,
        after: ProtocolState,
        out: DerpResult<Vec<u8>>,
    ) -> bool {
        match out {
            Ok(frame) => before.state() is Initial && (
            after@.client_info matches Some(info) && ProtocolState::announces(
                before,
                after,
                info.client_id,
                frame@,
            )),
            Err(e) => after == before && if before.state() is Initial {
                e is CryptoError
            } else {
                e is InvalidState
            },
        }
    }

    /// What a reconnect leaves of the state machine and returns: a fresh
    /// machine whose handshake has started.
    pub open spec fn handshake_restarted(after: ProtocolState, frame: Seq<u8>) -> bool {
        &&& after.state() is AwaitingServerKey
        &&& after@.client_info matches Some(info) && info.client_id.len() == CLIENT_ID_LEN
            && after@ == (ProtocolView {
            client_info: Some(announced(default_features(), info.client_id)),
            server_info: None,
            last_ping_time: None,
            supported_features: default_features(),
            compression_enabled: false,
            peers: Map::empty(),
        }) && frame == encoded(
            FrameType::ClientInfo,
            client_info_bytes(
                version_text(),
                info.client_id,
                default_features(),
                MAX_PACKET_SIZE,
            ),
            false,
        )
    }

    /// Starts over after the transport was reopened: the handshake goes back
    /// to its initial state and starts again, and the counters stay. Without
    /// a URL this is a state error, without entropy for the client
    /// identifier a crypto error; either changes nothing.
    pub fn reconnect(&mut self) -> (out: DerpResult<Vec<u8>>)
        ensures
            final(self).url() == old(self).url(),
            final(self).stats() == old(self).stats(),
            final(self).crypto() == old(self).crypto(),
            match out {
                Ok(frame) => old(self).url() is Some && Self::handshake_restarted(
                    final(self).protocol(),
                    frame@,
                ),
                Err(e) => *final(self) == *old(self) && if old(self).url() is None {
                    e is InvalidState
                } else {
                    e is CryptoError
                },
            },
    {
        if self.url.is_none() {
            return Err(DerpError::InvalidState(String::from_str("No URL configured")));
        }
        let mut fresh = ProtocolState::new();
        match fresh.start_handshake() {
            Ok(frame) => {
                self.protocol_state = fresh;
                Ok(frame)
            },
            Err(e) => Err(e),
        }
    }

    /// Makes the frame that sends a packet: seals the packet and wraps it in
    /// a Send frame for the transport. Nothing is counted yet: the caller
    /// writes the frame and reports the write with `packet_written`. Before
    /// the handshake has completed this is a state error; a failure to seal
    /// is a crypto error.
    pub fn send_packet(&self, data: &[u8]) -> (out: DerpResult<Vec<u8>>)
        ensures
            match out {
                Ok(frame) => self.protocol().state() is Complete && carries(
                    self.crypto(),
                    self.protocol()@.compression_enabled,
                    data@,
                    frame@,
                ),
                Err(e) => if self.protocol().state() is Complete {
                    e is CryptoError
                } else {
                    e is InvalidState && e.detail() == "Not connected"@
                },
            },
    {
        if !self.protocol_state.is_connected() {
            return Err(DerpError::InvalidState(String::from_str("Not connected")));
        }
        let sealed_buf = self.crypto_state.encrypt(data)?;
        Ok(self.protocol_state.encode_frame(FrameType::Send, sealed_buf.as_slice()))
    }

    /// Makes the frame that sends a packet, sealed under the nonce given.
    /// Once the handshake has completed, a 12-byte nonce and a packet of at
    /// most 2^36 bytes always give a frame.
    pub fn send_packet_with_nonce(&self, nonce: &[u8], data: &[u8]) -> (out: DerpResult<Vec<u8>>)
        ensures
            self.protocol().state() is Complete && nonce@.len() == NONCE_LEN
                && data@.len() <= max_plaintext_len() ==> out is Ok,
            match out {
                Ok(frame) => self.protocol().state() is Complete && nonce@.len()
                    == NONCE_LEN && frame@ == encoded(
                    FrameType::Send,
                    nonce@ + sealed(self.crypto().aead_key(), nonce@, data@),
                    self.protocol()@.compression_enabled,
                ) && carries(
                    self.crypto(),
                    self.protocol()@.compression_enabled,
                    data@,
                    frame@,
                ),
                Err(e) => if self.protocol().state() is Complete {
                    e is CryptoError
                } else {
                    e is InvalidState && e.detail() == "Not connected"@
                },
            },
    {
        if !self.protocol_state.is_connected() {
            return Err(DerpError::InvalidState(String::from_str("Not connected")));
        }
        let sealed_buf = self.crypto_state.encrypt_with_nonce(nonce, data)?;
        Ok(self.protocol_state.encode_frame(FrameType::Send, sealed_buf.as_slice()))
    }

    /// Counts a packet once the transport has taken its frame: the plaintext
    /// bytes and one packet more. Nothing else changes.
    pub fn packet_written(&mut self, plaintext_len: usize)
        ensures
            final(self).stats() == old(self).stats().after_send(plaintext_len as nat),
            final(self).protocol() == old(self).protocol(),
            final(self).crypto() == old(self).crypto(),
            final(self).url() == old(self).url(),
    {
        self.stats.record_sent(plaintext_len);
    }

    /// The keys that the engine seals and opens with.
    pub fn crypto_state(&self) -> (keys: &CryptoState)
        ensures
            *keys == self.crypto(),
    {
        &self.crypto_state
    }

    /// A snapshot of the counters.
    pub fn get_stats(&self) -> (snapshot: NetworkStats)
        ensures
            snapshot == self.stats(),
    {
        self.stats
    }

    /// Reacts to the transport closing. While fewer than five reopens have
    /// been scheduled, one more is counted and the delay before it is
    /// returned; after that nothing is scheduled and nothing changes.
    pub fn handle_close(&mut self) -> (delay: Option<u32>)
        ensures
            final(self).protocol() == old(self).protocol(),
            final(self).crypto() == old(self).crypto(),
            final(self).url() == old(self).url(),
            old(self).stats().reconnect_attempts < MAX_RECONNECT_ATTEMPTS ==> final(self).stats()
                == (NetworkStats {
                reconnect_attempts: (old(self).stats().reconnect_attempts + 1) as u32,
                ..old(self).stats()
            }) && (delay matches Some(ms) && ms == reconnect_delay(
                final(self).stats().reconnect_attempts as nat,
            )),
            old(self).stats().reconnect_attempts >= MAX_RECONNECT_ATTEMPTS ==> delay is None
                && *final(self) == *old(self),
    {
        if self.stats.reconnect_attempts < MAX_RECONNECT_ATTEMPTS {
            self.stats.reconnect_attempts = self.stats.reconnect_attempts + 1;
            Some(reconnect_delay_ms(self.stats.reconnect_attempts))
        } else {
            None
        }
    }

    /// Takes the relay's key off a ServerKey frame: drives the handshake and,
    /// where the key is accepted, derives the session key unless one exists.
    /// Nothing is written in reply.
    pub fn on_server_key(&mut self, payload: Vec<u8>)
        ensures
            final(self).stats() == old(self).stats(),
            final(self).url() == old(self).url(),
            final(self).protocol()@ == old(self).protocol()@,
            final(self).crypto().aead_key() == old(self).crypto().aead_key(),
            final(self).crypto().mac_key() == old(self).crypto().mac_key(),
            if old(self).protocol().state() is AwaitingServerKey && payload@.len()
                == SERVER_KEY_LEN {
                final(self).protocol().state() is AwaitingServerInfo
                    && final(self).crypto().session_key() == match old(
                    self,
                ).crypto().session_key() {
                    Some(k) => Some(k),
                    None => Some(session_key_for(old(self).crypto().aead_key(), payload@)),
                }
            } else {
                *final(self) == *old(self)
            },
    {
        let key = crate::bytes::copy_range(payload.as_slice(), 0, payload.len());
        assert(key@ =~= payload@);
        match self.protocol_state.handle_server_key(payload) {
            Ok(_) => {
                let _ = self.crypto_state.derive_session_key(key.as_slice());
            },
            Err(_) => {},
        }
    }

    /// Takes a payload that arrived from a peer: where it opens under the
    /// engine's key, the packet is counted and handed on; where it does not,
    /// it is dropped and nothing is counted.
    pub fn on_peer_payload(&mut self, payload: &[u8]) -> (action: InboundAction)
        ensures
            final(self).protocol() == old(self).protocol(),
            final(self).crypto() == old(self).crypto(),
            final(self).url() == old(self).url(),
            match old(self).crypto().plaintext_of(payload@) {
                Some(plain) => (action matches InboundAction::Deliver(p) && p@ == plain)
                    && final(self).stats() == old(self).stats().after_receive(plain.len()),
                None => action is Ignore && *final(self) == *old(self),
            },
    {
        match self.crypto_state.decrypt(payload) {
            Ok(plain) => {
                self.stats.record_received(plain.len());
                InboundAction::Deliver(plain)
            },
            Err(_) => InboundAction::Ignore,
        }
    }

    /// What an inbound message does to the engine and asks of the caller,
    /// given the frame it decodes to.
    pub open spec fn dispatched(
        before: NetworkState,
        after: NetworkState,
        frame_type: FrameType,
        payload: Seq<u8>,
        action: InboundAction,
    ) -> bool {
        match frame_type {
            FrameType::ServerKey => {
                &&& action is Ignore
                &&& after.stats() == before.stats()
                &&& after.protocol()@ == before.protocol()@
                &&& after.crypto().aead_key() == before.crypto().aead_key()
                &&& after.crypto().mac_key() == before.crypto().mac_key()
                &&& if before.protocol().state() is AwaitingServerKey && payload.len()
                    == SERVER_KEY_LEN {
                    after.protocol().state() is AwaitingServerInfo
                        && after.crypto().session_key() == match before.crypto().session_key() {
                        Some(k) => Some(k),
                        None => Some(session_key_for(before.crypto().aead_key(), payload)),
                    }
                } else {
                    after == before
                }
            },
            FrameType::ServerInfo => {
                &&& after.stats() == before.stats()
                &&& after.crypto() == before.crypto()
                &&& if before.protocol().state() is AwaitingServerInfo {
                    match server_info_of(payload) {
                        None => after == before && action is Ignore,
                        Some(info) => if compatible(info, before.protocol()@.supported_features) {
                            after.protocol().state() is Complete && (
                            action matches InboundAction::Reply(r) && r@.len() == 0)
                                && after.protocol()@ == (ProtocolView {
                                server_info: Some(info),
                                compression_enabled: both_compress(
                                    info,
                                    before.protocol()@.supported_features,
                                ),
                                ..before.protocol()@
                            })
                        } else {
                            after.protocol().state() is Failed && action is Ignore
                                && after.protocol()@ == before.protocol()@
                        },
                    }
                } else {
                    after == before && action is Ignore
                }
            },
            FrameType::Ping => if before.protocol().state() is Complete {
                &&& action matches InboundAction::Reply(r) && r@ == frame_bytes(
                    FrameType::Pong,
                    Seq::<u8>::empty(),
                )
                &&& after.stats() == before.stats()
                &&& after.crypto() == before.crypto()
                &&& after.protocol().state() == before.protocol().state()
                &&& after.protocol()@.last_ping_time is Some
                &&& after.protocol()@ == (ProtocolView {
                    last_ping_time: after.protocol()@.last_ping_time,
                    ..before.protocol()@
                })
            } else {
                action is Ignore && after == before
            },
            FrameType::RecvFromPeer => {
                &&& after.protocol() == before.protocol()
                &&& after.crypto() == before.crypto()
                &&& match before.crypto().plaintext_of(payload) {
                    Some(plain) => (action matches InboundAction::Deliver(p) && p@ == plain)
                        && after.stats() == before.stats().after_receive(plain.len()),
                    None => action is Ignore && after == before,
                }
            },
            _ => action is Ignore && after == before,
        }
    }

    /// Takes one message off the transport. A message that is not a frame is
    /// dropped. ServerKey and ServerInfo drive the handshake, Ping is
    /// answered with Pong once the handshake has completed, a peer's payload
    /// is decrypted, counted and handed on; every other frame is dropped.
    pub fn handle_frame(&mut self, data: &[u8]) -> (action: InboundAction)
        ensures
            final(self).url() == old(self).url(),
            match decoded(data@) {
                Err(_) => action is Ignore && *final(self) == *old(self),
                Ok((frame_type, payload)) => Self::dispatched(
                    *old(self),
                    *final(self),
                    frame_type,
                    payload,
                    action,
                ),
            },
    {
        let (frame_type, payload) = match ProtocolState::decode_frame(data) {
            Ok(pair) => pair,
            Err(_) => {
                return InboundAction::Ignore;
            },
        };
        match frame_type {
            FrameType::ServerKey => {
                self.on_server_key(payload);
                InboundAction::Ignore
            },
            FrameType::ServerInfo => {
                match self.protocol_state.handle_server_info(payload) {
                    Ok(response) => InboundAction::Reply(response),
                    Err(_) => InboundAction::Ignore,
                }
            },
            FrameType::Ping => {
                match self.protocol_state.handle_ping() {
                    Ok(pong) => InboundAction::Reply(pong),
                    Err(_) => InboundAction::Ignore,
                }
            },
            FrameType::RecvFromPeer => self.on_peer_payload(payload.as_slice()),
            _ => InboundAction::Ignore,
        }
    }
}

} // verus!
