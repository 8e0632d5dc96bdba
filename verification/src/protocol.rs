//! The handshake state machine and what it knows of the relay.

use vstd::prelude::*;
use vstd::string::StringExecFns;
use crate::crypto::random_bytes;
use crate::error::{labelled, DerpError, DerpResult};
use crate::peers::PeerTable;
use crate::frame::{
    decode, decoded, defect_text, encode, encoded, frame_bytes, round_trips, FrameDefect, FrameType,
};

verus! {

/// Largest packet that the client announces.
pub const MAX_PACKET_SIZE: u32 = 16384;

/// Length of a relay key and of a peer's public key.
pub const SERVER_KEY_LEN: usize = 32;

/// Length of a client identifier: a UUID in its hyphenated textual form.
pub const CLIENT_ID_LEN: usize = 36;

/// Number of random bytes that a client identifier is made from.
pub const CLIENT_ID_ENTROPY: usize = 16;

/// The protocol version that this client speaks.
pub open spec fn version_text() -> Seq<char> {
    "0.1.0"@
}

/// The feature tag that switches payload compression on.
pub open spec fn compression_tag() -> Seq<char> {
    "compression"@
}

/// The views of a list of strings.
pub open spec fn texts(list: Seq<String>) -> Seq<Seq<char>> {
    list.map_values(|s: String| s@)
}

/// Where the handshake stands.
#[derive(Debug, Clone, PartialEq)]
pub enum HandshakeState {
    Initial,
    AwaitingServerKey,
    AwaitingServerInfo,
    Complete,
    Failed(String),
}

/// What the client tells the relay about itself.
#[derive(Debug, Clone)]
pub struct ClientInfo {
    pub version: String,
    pub client_id: String,
    pub supported_features: Vec<String>,
    pub max_packet_size: u32,
}

/// What the relay tells the client about itself.
#[derive(Debug, Clone)]
pub struct ServerInfo {
    pub version: String,
    pub server_id: String,
    pub supported_versions: Vec<String>,
    pub supported_features: Vec<String>,
    pub max_packet_size: u32,
    pub keepalive_interval: u32,
}

/// A `ClientInfo` as plain values.
pub struct ClientInfoView {
    pub version: Seq<char>,
    pub client_id: Seq<char>,
    pub supported_features: Seq<Seq<char>>,
    pub max_packet_size: u32,
}

/// A `ServerInfo` as plain values.
pub struct ServerInfoView {
    pub version: Seq<char>,
    pub server_id: Seq<char>,
    pub supported_versions: Seq<Seq<char>>,
    pub supported_features: Seq<Seq<char>>,
    pub max_packet_size: u32,
    pub keepalive_interval: u32,
}

impl View for ClientInfo {
    type V = ClientInfoView;

    open spec fn view(&self) -> ClientInfoView {
        ClientInfoView {
            version: self.version@,
            client_id: self.client_id@,
            supported_features: texts(self.supported_features@),
            max_packet_size: self.max_packet_size,
        }
    }
}

impl View for ServerInfo {
    type V = ServerInfoView;

    open spec fn view(&self) -> ServerInfoView {
        ServerInfoView {
            version: self.version@,
            server_id: self.server_id@,
            supported_versions: texts(self.supported_versions@),
            supported_features: texts(self.supported_features@),
            max_packet_size: self.max_packet_size,
            keepalive_interval: self.keepalive_interval,
        }
    }
}

/// A point in time as the system's monotonic clock gives it.
#[verifier::external_type_specification]
#[verifier::external_body]
pub struct ExInstant(std::time::Instant);

/// The bytes that `bincode::serialize` gives for a client record: each
/// string and list with a 64-bit little-endian length before it, the packet
/// size as four little-endian bytes.
pub uninterp spec fn client_info_bytes(
    version: Seq<char>,
    client_id: Seq<char>,
    supported_features: Seq<Seq<char>>,
    max_packet_size: u32,
) -> Seq<u8>;

/// The server record that `bincode::deserialize` reads from a payload;
/// `None` where it rejects the payload.
pub uninterp spec fn server_info_of(payload: Seq<u8>) -> Option<ServerInfoView>;

/// Calls `bincode::serialize` on the record's fields in their order, which is
/// how bincode lays out a struct. The contract names the bytes and says that
/// the call succeeds: bincode serialises without a size limit, and strings, a
/// list of strings and a `u32` give it no error to report.
#[verifier::external_body]
fn serialize_client_info(info: &ClientInfo) -> (out: Result<Vec<u8>, String>)
    ensures
        out is Ok,
        out matches Ok(b) ==> b@ == client_info_bytes(
            info.version@,
            info.client_id@,
            texts(info.supported_features@),
            info.max_packet_size,
        ),
{
    bincode::serialize(
        &(&info.version, &info.client_id, &info.supported_features, info.max_packet_size),
    ).map_err(|e| e.to_string())
}

/// Calls `bincode::deserialize` for the fields of a server record in their
/// order. The contract names the outcome: the record, or nothing where
/// bincode rejects the payload, in which case the text of its error comes
/// back.
#[verifier::external_body]
fn deserialize_server_info(payload: &[u8]) -> (out: Result<ServerInfo, String>)
    ensures
        match out {
            Ok(info) => server_info_of(payload@) == Some(info@),
            Err(_) => server_info_of(payload@) is None,
        },
{
    let (version, server_id, supported_versions, supported_features, max_packet_size, keepalive_interval) =
        bincode::deserialize::<(String, String, Vec<String>, Vec<String>, u32, u32)>(payload)
            .map_err(|e| e.to_string())?;
    Ok(ServerInfo {
        version,
        server_id,
        supported_versions,
        supported_features,
        max_packet_size,
        keepalive_interval,
    })
}

/// The hyphenated text of the version-4 UUID that `uuid::Builder` makes from
/// 16 random bytes.
pub uninterp spec fn client_id_text(random: Seq<u8>) -> Seq<char>;

/// Calls `uuid::Builder::from_random_bytes` and renders the UUID. The
/// contract names the text and says that the hyphenated form has 36
/// characters.
#[verifier::external_body]
fn client_id_from(random: &[u8]) -> (out: String)
    requires
        random@.len() == CLIENT_ID_ENTROPY,
    ensures
        out@ == client_id_text(random@),
        out@.len() == CLIENT_ID_LEN,
{
    let mut bytes = [0u8; 16];
    bytes.copy_from_slice(random);
    uuid::Builder::from_random_bytes(bytes).into_uuid().to_string()
}

/// Calls `Instant::now`. Nothing is claimed of the reading.
#[verifier::external_body]
fn clock_now() -> (out: std::time::Instant) {
    std::time::Instant::now()
}

/// Calls `Instant::elapsed` and `Duration::as_secs`. Nothing is claimed of
/// the reading.
#[verifier::external_body]
fn seconds_since(earlier: &std::time::Instant) -> (out: u64) {
    earlier.elapsed().as_secs()
}

/// Whether some entry of `list` reads `wanted`.
pub fn contains_text(list: &Vec<String>, wanted: &String) -> (found: bool)
    ensures
        found == texts(list@).contains(wanted@),
{
    let mut i: usize = 0;
    while i < list.len()
        invariant
            i <= list@.len(),
            forall|j: int| 0 <= j < i ==> texts(list@)[j] != wanted@,
        decreases list@.len() - i,
    {
        if list[i] == *wanted {
            assert(texts(list@)[i as int] == wanted@);
            return true;
        }
        i += 1;
    }
    false
}

/// Whether the server offers a feature that the client supports too.
pub open spec fn shares_feature(server: Seq<Seq<char>>, client: Seq<Seq<char>>) -> bool {
    exists|i: int| 0 <= i < server.len() && client.contains(#[trigger] server[i])
}

/// Whether some feature of `server` is also one of `client`.
pub fn have_common_feature(server: &Vec<String>, client: &Vec<String>) -> (found: bool)
    ensures
        found == shares_feature(texts(server@), texts(client@)),
{
    let mut i: usize = 0;
    while i < server.len()
        invariant
            i <= server@.len(),
            forall|j: int| 0 <= j < i ==> !texts(client@).contains(#[trigger] texts(server@)[j]),
        decreases server@.len() - i,
    {
        if contains_text(client, &server[i]) {
            assert(texts(server@)[i as int] == server@[i as int]@);
            return true;
        }
        i += 1;
    }
    false
}

/// A copy of a list of strings.
pub fn copy_texts(list: &Vec<String>) -> (out: Vec<String>)
    ensures
        texts(out@) == texts(list@),
{
    let mut out: Vec<String> = Vec::new();
    let mut i: usize = 0;
    while i < list.len()
        invariant
            i <= list@.len(),
            out@.len() == i,
            forall|j: int| 0 <= j < i ==> out@[j]@ == list@[j]@,
        decreases list@.len() - i,
    {
        out.push(list[i].clone());
        i += 1;
    }
    assert(texts(out@) =~= texts(list@));
    out
}

/// Whether a ping is due once `elapsed_secs` have passed since the last one,
/// for a relay that asks for one every `interval` seconds.
pub fn keepalive_due(elapsed_secs: u64, interval: u32) -> (due: bool)
    ensures
        due == (elapsed_secs >= interval),
{
    elapsed_secs >= interval as u64
}

/// What the handshake state machine knows beside its state, as plain values.
pub struct ProtocolView {
    pub client_info: Option<ClientInfoView>,
    pub server_info: Option<ServerInfoView>,
    pub last_ping_time: Option<std::time::Instant>,
    pub supported_features: Seq<Seq<char>>,
    pub compression_enabled: bool,
    pub peers: Map<Seq<u8>, u64>,
}

/// The handshake state machine.
pub struct ProtocolState {
    pub handshake_state: HandshakeState,
    client_info: Option<ClientInfo>,
    server_info: Option<ServerInfo>,
    last_ping_time: Option<std::time::Instant>,
    supported_features: Vec<String>,
    pub compression_enabled: bool,
    peers: PeerTable,
}

impl View for ProtocolState {
    type V = ProtocolView;

    closed spec fn view(&self) -> ProtocolView {
        ProtocolView {
            client_info: match self.client_info {
                Some(info) => Some(info@),
                None => None,
            },
            server_info: match self.server_info {
                Some(info) => Some(info@),
                None => None,
            },
            last_ping_time: self.last_ping_time,
            supported_features: texts(self.supported_features@),
            compression_enabled: self.compression_enabled,
            peers: self.peers@,
        }
    }
}

/// The features that a fresh client supports.
pub open spec fn default_features() -> Seq<Seq<char>> {
    seq!["compression"@, "encryption"@, "ipv6"@]
}

/// The client record announced by a client with these features and this
/// identifier.
pub open spec fn announced(features: Seq<Seq<char>>, client_id: Seq<char>) -> ClientInfoView {
    ClientInfoView {
        version: version_text(),
        client_id,
        supported_features: features,
        max_packet_size: MAX_PACKET_SIZE,
    }
}

/// Whether a server record is one that a client with these features can
/// complete the handshake with.
pub open spec fn compatible(info: ServerInfoView, client_features: Seq<Seq<char>>) -> bool {
    info.supported_versions.contains(version_text()) && shares_feature(
        info.supported_features,
        client_features,
    )
}

/// Whether both sides support compression.
pub open spec fn both_compress(info: ServerInfoView, client_features: Seq<Seq<char>>) -> bool {
    info.supported_features.contains(compression_tag()) && client_features.contains(
        compression_tag(),
    )
}

impl ProtocolState {
    /// Where the handshake stands.
    pub closed spec fn state(self) -> HandshakeState {
        self.handshake_state
    }

    /// The client record announced, once the handshake has started.
    pub fn client_info(&self) -> (info: Option<&ClientInfo>)
        ensures
            match info {
                Some(i) => self@.client_info == Some(i@),
                None => self@.client_info is None,
            },
    {
        match &self.client_info {
            Some(i) => Some(i),
            None => None,
        }
    }

    /// The relay's record, once the handshake has completed.
    pub fn server_info(&self) -> (info: Option<&ServerInfo>)
        ensures
            match info {
                Some(i) => self@.server_info == Some(i@),
                None => self@.server_info is None,
            },
    {
        match &self.server_info {
            Some(i) => Some(i),
            None => None,
        }
    }

    /// When the last ping was answered, if one was.
    pub fn last_ping_time(&self) -> (at: Option<std::time::Instant>)
        ensures
            at == self@.last_ping_time,
    {
        self.last_ping_time
    }

    /// The features that this client supports.
    pub fn supported_features(&self) -> (features: &Vec<String>)
        ensures
            texts(features@) == self@.supported_features,
    {
        &self.supported_features
    }

    /// The peer table.
    pub fn peers(&self) -> (table: &PeerTable)
        ensures
            table@ == self@.peers,
    {
        &self.peers
    }

    /// A state machine at the start of the handshake, with the default
    /// features and compression off.
    pub fn new() -> (made: ProtocolState)
        ensures
            made.state() is Initial,
            made@ == (ProtocolView {
                client_info: None,
                server_info: None,
                last_ping_time: None,
                supported_features: default_features(),
                compression_enabled: false,
                peers: Map::empty(),
            }),
    {
        let mut features: Vec<String> = Vec::new();
        features.push(String::from_str("compression"));
        features.push(String::from_str("encryption"));
        features.push(String::from_str("ipv6"));
        assert(texts(features@) =~= default_features());
        ProtocolState {
            handshake_state: HandshakeState::Initial,
            client_info: None,
            server_info: None,
            last_ping_time: None,
            supported_features: features,
            compression_enabled: false,
            peers: PeerTable::new(),
        }
    }

    /// The protocol version that this client announces.
    pub fn protocol_version() -> (version: String)
        ensures
            version@ == version_text(),
    {
        String::from_str("0.1.0")
    }

    /// Whether the handshake has completed.
    pub fn is_connected(&self) -> (connected: bool)
        ensures
            connected == (self.state() is Complete),
    {
        match self.handshake_state {
            HandshakeState::Complete => true,
            _ => false,
        }
    }

    /// Wraps the serialised client record in a ClientInfo frame; a record that
    /// could not be serialised is a serialization error that carries the
    /// serialiser's own words.
    pub fn client_info_frame(&self, serialized: Result<Vec<u8>, String>) -> (out: DerpResult<
        Vec<u8>,
    >)
        ensures
            match out {
                Ok(frame) => serialized matches Ok(body) && frame@ == encoded(
                    FrameType::ClientInfo,
                    body@,
                    self@.compression_enabled,
                ),
                Err(e) => serialized matches Err(detail) && e == DerpError::SerializationError(
                    detail,
                ),
            },
    {
        match serialized {
            Ok(body) => Ok(self.encode_frame(FrameType::ClientInfo, body.as_slice())),
            Err(detail) => Err(DerpError::SerializationError(detail)),
        }
    }

    /// What a started handshake has done: the machine awaits the relay's key,
    /// remembers the client record it announced (own version, the given
    /// identifier, its features, the maximum packet size) and has made the
    /// ClientInfo frame that carries the record.
    pub open spec fn announces(
        before: ProtocolState,
        after: ProtocolState,
        client_id: Seq<char>,
        frame: Seq<u8>,
    ) -> bool {
        &&& after.state() is AwaitingServerKey
        &&& client_id.len() == CLIENT_ID_LEN
        &&& after@ == (ProtocolView {
            client_info: Some(announced(before@.supported_features, client_id)),
            ..before@
        })
        &&& frame == encoded(
            FrameType::ClientInfo,
            client_info_bytes(
                version_text(),
                client_id,
                before@.supported_features,
                MAX_PACKET_SIZE,
            ),
            before@.compression_enabled,
        )
    }

    /// Starts the handshake with an identifier made from the 16 random bytes
    /// given. From `Initial` this always succeeds: the machine moves to
    /// `AwaitingServerKey` and the ClientInfo frame comes back. In any other
    /// state the call is a state error; another number of bytes is a crypto
    /// error. Errors change nothing.
    pub fn start_handshake_with(&mut self, random: &[u8]) -> (out: DerpResult<Vec<u8>>)
        ensures
            match out {
                Ok(frame) => old(self).state() is Initial && random@.len()
                    == CLIENT_ID_ENTROPY && Self::announces(
                    *old(self),
                    *final(self),
                    client_id_text(random@),
                    frame@,
                ),
                Err(e) => *final(self) == *old(self) && if old(self).state() is Initial {
                    random@.len() != CLIENT_ID_ENTROPY && e is CryptoError
                } else {
                    e is InvalidState
                },
            },
    {
        match self.handshake_state {
            HandshakeState::Initial => {},
            _ => {
                return Err(DerpError::InvalidState(String::from_str("Handshake already started")));
            },
        }
        if random.len() != CLIENT_ID_ENTROPY {
            return Err(DerpError::CryptoError(String::from_str("Invalid client id entropy")));
        }
        let client_info = ClientInfo {
            version: ProtocolState::protocol_version(),
            client_id: client_id_from(random),
            supported_features: copy_texts(&self.supported_features),
            max_packet_size: MAX_PACKET_SIZE,
        };
        let serialized = serialize_client_info(&client_info);
        match self.client_info_frame(serialized) {
            Ok(frame) => {
                self.handshake_state = HandshakeState::AwaitingServerKey;
                self.client_info = Some(client_info);
                Ok(frame)
            },
            Err(e) => Err(e),
        }
    }

    /// Starts the handshake with a fresh identifier. In any state but
    /// `Initial` the call is a state error; where the system gives no
    /// entropy for the identifier it is a crypto error. Errors change
    /// nothing. Otherwise the handshake has started as `start_handshake_with`
    /// says, for the identifier found in the remembered client record.
    pub fn start_handshake(&mut self) -> (out: DerpResult<Vec<u8>>)
        ensures
            match out {
                Ok(frame) => old(self).state() is Initial && (final(self)@.client_info matches Some(info) && Self::announces(
                    *old(self),
                    *final(self),
                    info.client_id,
                    frame@,
                )),
                Err(e) => *final(self) == *old(self) && if old(self).state() is Initial {
                    e is CryptoError
                } else {
                    e is InvalidState
                },
            },
    {
        match self.handshake_state {
            HandshakeState::Initial => {},
            _ => {
                return Err(DerpError::InvalidState(String::from_str("Handshake already started")));
            },
        }
        match random_bytes(CLIENT_ID_ENTROPY) {
            Ok(random) => self.start_handshake_with(random.as_slice()),
            Err(detail) => Err(
                DerpError::CryptoError(labelled("Failed to generate client id: ", &detail)),
            ),
        }
    }

    /// Takes the relay's key. In `AwaitingServerKey` a 32-byte key moves the
    /// machine to `AwaitingServerInfo`; a key of another length is a protocol
    /// error. In any other state the call is a state error. Errors change
    /// nothing.
    pub fn handle_server_key(&mut self, payload: Vec<u8>) -> (out: DerpResult<Vec<u8>>)
        ensures
            final(self)@ == old(self)@,
            match out {
                Ok(reply) => old(self).state() is AwaitingServerKey && payload@.len()
                    == SERVER_KEY_LEN && reply@.len() == 0
                    && final(self).state() is AwaitingServerInfo,
                Err(e) => *final(self) == *old(self) && if old(self).state() is AwaitingServerKey {
                    payload@.len() != SERVER_KEY_LEN && e is InvalidProtocol
                } else {
                    e is InvalidState
                },
            },
    {
        match self.handshake_state {
            HandshakeState::AwaitingServerKey => {},
            _ => {
                return Err(DerpError::InvalidState(String::from_str("Unexpected server key")));
            },
        }
        if payload.len() != SERVER_KEY_LEN {
            return Err(DerpError::InvalidProtocol(String::from_str("Invalid server key length")));
        }
        self.handshake_state = HandshakeState::AwaitingServerInfo;
        Ok(Vec::new())
    }

    /// Judges a server record. In `AwaitingServerInfo`, a record that lists
    /// this client's version and shares a feature with it completes the
    /// handshake: the record is kept and compression is on exactly where both
    /// sides support it. A record that fails either test is a protocol error
    /// and the handshake has failed. In any other state the call is a state
    /// error and nothing changes.
    pub fn accept_server_info(&mut self, info: ServerInfo) -> (out: DerpResult<Vec<u8>>)
        ensures
            !(old(self).state() is AwaitingServerInfo) ==> *final(self) == *old(self) && (
            out matches Err(e) && e is InvalidState),
            old(self).state() is AwaitingServerInfo && !compatible(
                info@,
                old(self)@.supported_features,
            ) ==> final(self)@ == old(self)@ && final(self).state() is Failed && (
            out matches Err(e) && e is InvalidProtocol),
            old(self).state() is AwaitingServerInfo && compatible(
                info@,
                old(self)@.supported_features,
            ) ==> final(self).state() is Complete && (out matches Ok(reply) && reply@.len()
                == 0) && final(self)@ == (ProtocolView {
                server_info: Some(info@),
                compression_enabled: both_compress(info@, old(self)@.supported_features),
                ..old(self)@
            }),
    {
        match self.handshake_state {
            HandshakeState::AwaitingServerInfo => {},
            _ => {
                return Err(DerpError::InvalidState(String::from_str("Unexpected server info")));
            },
        }
        let own_version = ProtocolState::protocol_version();
        if !contains_text(&info.supported_versions, &own_version) {
            self.handshake_state = HandshakeState::Failed(
                String::from_str("Incompatible server version"),
            );
            return Err(DerpError::InvalidProtocol(String::from_str("Incompatible server version")));
        }
        if !have_common_feature(&info.supported_features, &self.supported_features) {
            self.handshake_state = HandshakeState::Failed(
                String::from_str("No compatible features between client and server"),
            );
            return Err(
                DerpError::InvalidProtocol(
                    String::from_str("No compatible features between client and server"),
                ),
            );
        }
        let tag = String::from_str("compression");
        self.compression_enabled = contains_text(&info.supported_features, &tag) && contains_text(
            &self.supported_features,
            &tag,
        );
        self.server_info = Some(info);
        self.handshake_state = HandshakeState::Complete;
        Ok(Vec::new())
    }

    /// Takes the relay's record as it came off the wire. A payload that does
    /// not deserialise is a protocol error and changes nothing; one that does
    /// is judged as `accept_server_info` says.
    pub fn handle_server_info(&mut self, payload: Vec<u8>) -> (out: DerpResult<Vec<u8>>)
        ensures
            !(old(self).state() is AwaitingServerInfo) ==> *final(self) == *old(self) && (
            out matches Err(e) && e is InvalidState),
            old(self).state() is AwaitingServerInfo ==> match server_info_of(payload@) {
                None => *final(self) == *old(self) && (out matches Err(e) && e is InvalidProtocol),
                Some(info) => if compatible(info, old(self)@.supported_features) {
                    final(self).state() is Complete && (out matches Ok(reply)
                        && reply@.len() == 0) && final(self)@ == (ProtocolView {
                        server_info: Some(info),
                        compression_enabled: both_compress(info, old(self)@.supported_features),
                        ..old(self)@
                    })
                } else {
                    final(self)@ == old(self)@ && final(self).state() is Failed && (
                    out matches Err(e) && e is InvalidProtocol)
                },
            },
    {
        match self.handshake_state {
            HandshakeState::AwaitingServerInfo => {},
            _ => {
                return Err(DerpError::InvalidState(String::from_str("Unexpected server info")));
            },
        }
        match deserialize_server_info(payload.as_slice()) {
            Err(detail) => Err(DerpError::InvalidProtocol(labelled("Invalid server info: ", &detail))),
            Ok(info) => self.accept_server_info(info),
        }
    }

    /// Takes the announcement that a peer is present, seen at `now_ms`: the
    /// peer enters the table, or its time is brought up to date. A payload
    /// that is not a 32-byte public key is a protocol error and changes
    /// nothing.
    pub fn handle_peer_present(&mut self, payload: Vec<u8>, now_ms: u64) -> (out: DerpResult<
        Vec<u8>,
    >)
        ensures
            final(self).state() == old(self).state(),
            match out {
                Ok(reply) => payload@.len() == SERVER_KEY_LEN && reply@.len() == 0 && final(self)@
                    == (ProtocolView { peers: old(self)@.peers.insert(payload@, now_ms), ..old(self)@ }),
                Err(e) => payload@.len() != SERVER_KEY_LEN && final(self)@ == old(self)@
                    && e is InvalidProtocol,
            },
    {
        match self.peers.mark_present(payload.as_slice(), now_ms) {
            Ok(_) => Ok(Vec::new()),
            Err(e) => Err(e),
        }
    }

    /// Takes the announcement that a peer is gone: the peer leaves the table.
    /// A payload that is not a 32-byte public key is a protocol error and
    /// changes nothing.
    pub fn handle_peer_gone(&mut self, payload: Vec<u8>) -> (out: DerpResult<Vec<u8>>)
        ensures
            final(self).state() == old(self).state(),
            match out {
                Ok(reply) => payload@.len() == SERVER_KEY_LEN && reply@.len() == 0 && final(self)@
                    == (ProtocolView { peers: old(self)@.peers.remove(payload@), ..old(self)@ }),
                Err(e) => payload@.len() != SERVER_KEY_LEN && final(self)@ == old(self)@
                    && e is InvalidProtocol,
            },
    {
        match self.peers.mark_gone(payload.as_slice()) {
            Ok(_) => Ok(Vec::new()),
            Err(e) => Err(e),
        }
    }

    /// Answers a ping. Once the handshake has completed, the time is noted
    /// and an empty Pong frame comes back. In any other state the call is a
    /// state error and nothing changes.
    pub fn handle_ping(&mut self) -> (out: DerpResult<Vec<u8>>)
        ensures
            final(self).state() == old(self).state(),
            match out {
                Ok(frame) => old(self).state() is Complete && frame@ == frame_bytes(
                    FrameType::Pong,
                    Seq::<u8>::empty(),
                ) && final(self)@.last_ping_time is Some && final(self)@ == (ProtocolView {
                    last_ping_time: final(self)@.last_ping_time,
                    ..old(self)@
                }),
                Err(e) => !(old(self).state() is Complete) && e is InvalidState && *final(self) == *old(self),
            },
    {
        match self.handshake_state {
            HandshakeState::Complete => {},
            _ => {
                return Err(DerpError::InvalidState(String::from_str("Unexpected ping")));
            },
        }
        self.last_ping_time = Some(clock_now());
        let body: Vec<u8> = Vec::new();
        Ok(self.encode_frame(FrameType::Pong, body.as_slice()))
    }

    /// Encodes a frame with this machine's compression setting. Decoding the
    /// frame gives type and payload back on every input that round-trips.
    pub fn encode_frame(&self, frame_type: FrameType, payload: &[u8]) -> (frame: Vec<u8>)
        ensures
            frame@ == encoded(frame_type, payload@, self@.compression_enabled),
            !self@.compression_enabled || payload@.len() <= 64 ==> frame@ == frame_bytes(
                frame_type,
                payload@,
            ),
            round_trips(frame_type, payload@, self@.compression_enabled) ==> decoded(frame@)
                == Ok::<(FrameType, Seq<u8>), FrameDefect>((frame_type, payload@)),
    {
        encode(frame_type, payload, self.compression_enabled)
    }

    /// Decodes a frame.
    pub fn decode_frame(data: &[u8]) -> (parsed: DerpResult<(FrameType, Vec<u8>)>)
        ensures
            match parsed {
                Ok(pair) => decoded(data@) == Ok::<(FrameType, Seq<u8>), FrameDefect>(
                    (pair.0, pair.1@),
                ),
                Err(e) => decoded(data@) is Err && e is InvalidProtocol && e.detail()
                    == defect_text(decoded(data@)->Err_0),
            },
    {
        decode(data)
    }

    /// The keepalive interval that the relay asked for, once it is known.
    pub fn get_keepalive_interval(&self) -> (interval: Option<u32>)
        ensures
            interval == match self@.server_info {
                Some(info) => Some(info.keepalive_interval),
                None => None,
            },
    {
        match &self.server_info {
            Some(info) => Some(info.keepalive_interval),
            None => None,
        }
    }

    /// Whether a keepalive ping is due: the relay's record is known, a ping
    /// has been seen, and at least the keepalive interval has passed since.
    pub fn should_send_ping(&self) -> (due: bool)
        ensures
            due ==> self@.server_info is Some && self@.last_ping_time is Some,
            self@.last_ping_time is Some && (self@.server_info matches Some(info)
                && info.keepalive_interval == 0) ==> due,
    {
        match (&self.server_info, &self.last_ping_time) {
            (Some(info), Some(last_ping)) => keepalive_due(
                seconds_since(last_ping),
                info.keepalive_interval,
            ),
            _ => false,
        }
    }

    /// Whether payloads of more than 64 bytes are compressed.
    pub fn is_compression_enabled(&self) -> (enabled: bool)
        ensures
            enabled == self@.compression_enabled,
    {
        self.compression_enabled
    }
}

} // verus!
