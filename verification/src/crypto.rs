//! Payload cryptography: AES-256-GCM sealing with a fresh nonce per message,
//! HMAC-SHA256 signatures in base64, and the session key derived from the
//! value that the relay supplies.

use vstd::prelude::*;
use vstd::string::StringExecFns;
use aes_gcm::aead::{Aead, KeyInit};
use aes_gcm::{Aes256Gcm, Nonce};
use base64::Engine;
use hmac::{Hmac, Mac};
use sha2::Sha256;
use crate::bytes::{append_bytes, copy_range};
use crate::error::{labelled, DerpError, DerpResult};

verus! {

/// Length of an AEAD key, a MAC key, a MAC tag and a session key.
pub const KEY_LEN: usize = 32;

/// Length of the nonce that precedes every sealed message.
pub const NONCE_LEN: usize = 12;

/// Length of the authentication tag that AES-GCM appends.
pub const TAG_LEN: usize = 16;

/// Length of a signature text: 32 bytes in padded base64.
pub const SIGNATURE_LEN: usize = 44;

/// The longest plaintext that AES-GCM seals: 2^36 bytes.
pub open spec fn max_plaintext_len() -> int {
    0x10_0000_0000
}

/// The length of the padded base64 text of `n` bytes.
pub open spec fn base64_len(n: int) -> int {
    4 * ((n + 2) / 3)
}

/// What AES-256-GCM under `key` and `nonce` makes of `plaintext`: ciphertext
/// followed by the tag.
pub uninterp spec fn sealed(key: Seq<u8>, nonce: Seq<u8>, plaintext: Seq<u8>) -> Seq<u8>;

/// What AES-256-GCM under `key` and `nonce` recovers from `ciphertext`; `None`
/// where authentication fails.
pub uninterp spec fn opened(key: Seq<u8>, nonce: Seq<u8>, ciphertext: Seq<u8>) -> Option<Seq<u8>>;

/// The HMAC-SHA256 tag of `data` under `key`.
pub uninterp spec fn mac_tag(key: Seq<u8>, data: Seq<u8>) -> Seq<u8>;

/// The padded base64 text of `data` in the standard alphabet.
pub uninterp spec fn base64_text(data: Seq<u8>) -> Seq<char>;

/// The bytes that a base64 text stands for; `None` where it is malformed.
pub uninterp spec fn base64_bytes(text: Seq<char>) -> Option<Seq<u8>>;

/// Calls `getrandom::getrandom` on a zeroed buffer of `n` bytes. Nothing is
/// claimed of the bytes; only that a buffer that comes back has the length
/// asked for. A failure comes back as the text of getrandom's error.
#[verifier::external_body]
pub(crate) fn random_bytes(n: usize) -> (out: Result<Vec<u8>, String>)
    ensures
        out matches Ok(v) ==> v@.len() == n,
{
    let mut buf = vec![0u8; n];
    getrandom::getrandom(&mut buf).map_err(|e| e.to_string())?;
    Ok(buf)
}

/// Calls `Aes256Gcm::encrypt` with no associated data. The contract names the
/// output, says that it is the plaintext's length plus the 16-byte tag, and
/// claims that opening it under the same key and nonce recovers the plaintext.
/// The call succeeds for every plaintext of at most 2^36 bytes, the limit
/// that the crate tests for; a failure comes back as the text of its error.
#[verifier::external_body]
fn aes_gcm_seal(key: &[u8], nonce: &[u8], plaintext: &[u8]) -> (out: Result<Vec<u8>, String>)
    requires
        key@.len() == KEY_LEN,
        nonce@.len() == NONCE_LEN,
    ensures
        plaintext@.len() <= max_plaintext_len() ==> out is Ok,
        out matches Ok(c) ==> c@ == sealed(key@, nonce@, plaintext@) && c@.len()
            == plaintext@.len() + TAG_LEN && opened(key@, nonce@, c@) == Some(plaintext@),
{
    let cipher = Aes256Gcm::new_from_slice(key).map_err(|e| e.to_string())?;
    cipher.encrypt(Nonce::from_slice(nonce), plaintext).map_err(|e| e.to_string())
}

/// Calls `Aes256Gcm::decrypt` with no associated data. The contract names the
/// outcome: the plaintext, or nothing where the tag does not authenticate the
/// ciphertext, in which case the text of the crate's error comes back. A
/// plaintext is as long as the ciphertext without its 16-byte tag, so a
/// ciphertext shorter than a tag never opens.
#[verifier::external_body]
fn aes_gcm_open(key: &[u8], nonce: &[u8], ciphertext: &[u8]) -> (out: Result<Vec<u8>, String>)
    requires
        key@.len() == KEY_LEN,
        nonce@.len() == NONCE_LEN,
    ensures
        match out {
            Ok(p) => opened(key@, nonce@, ciphertext@) == Some(p@) && p@.len() + TAG_LEN
                == ciphertext@.len(),
            Err(_) => opened(key@, nonce@, ciphertext@) is None,
        },
{
    let cipher = Aes256Gcm::new_from_slice(key).map_err(|e| e.to_string())?;
    cipher.decrypt(Nonce::from_slice(nonce), ciphertext).map_err(|e| e.to_string())
}

/// Computes HMAC-SHA256 with `Mac::new_from_slice`, `update` and `finalize`.
/// The contract names the tag and says that it is 32 bytes long. For HMAC the
/// key setup accepts a key of any length, so a tag always comes back.
#[verifier::external_body]
fn hmac_sha256(key: &[u8], data: &[u8]) -> (out: Option<Vec<u8>>)
    ensures
        out is Some,
        out matches Some(t) ==> t@ == mac_tag(key@, data@) && t@.len() == KEY_LEN,
{
    let mut mac = <Hmac<Sha256> as Mac>::new_from_slice(key).ok()?;
    mac.update(data);
    Some(mac.finalize().into_bytes().to_vec())
}

/// Checks a tag with `Mac::verify_slice`, which compares in constant time.
/// The contract says that the answer is yes exactly where `tag` is the
/// HMAC-SHA256 tag of `data` under `key`; a tag of another length is refused.
#[verifier::external_body]
fn hmac_sha256_matches(key: &[u8], data: &[u8], tag: &[u8]) -> (out: Option<bool>)
    ensures
        out is Some,
        out matches Some(same) ==> same == (tag@ == mac_tag(key@, data@)),
{
    let mut mac = <Hmac<Sha256> as Mac>::new_from_slice(key).ok()?;
    mac.update(data);
    Some(mac.verify_slice(tag).is_ok())
}

/// Calls `encode` of base64's `STANDARD` engine. The contract names the text,
/// gives its length (four characters for every three bytes begun) and claims
/// that decoding it gives the bytes back. The engine panics where that length
/// does not fit a `usize`; the bound on the input leaves that out.
#[verifier::external_body]
fn base64_encode(data: &[u8]) -> (out: String)
    requires
        data@.len() <= 0x3000_0000,
    ensures
        out@ == base64_text(data@),
        out@.len() == base64_len(data@.len() as int),
        base64_bytes(out@) == Some(data@),
{
    base64::engine::general_purpose::STANDARD.encode(data)
}

/// Calls `decode` of base64's `STANDARD` engine. The contract names the
/// outcome: the bytes, or nothing where the text is not padded standard
/// base64, in which case the text of the crate's error comes back.
#[verifier::external_body]
fn base64_decode(text: &str) -> (out: Result<Vec<u8>, String>)
    ensures
        match out {
            Ok(v) => base64_bytes(text@) == Some(v@),
            Err(_) => base64_bytes(text@) is None,
        },
{
    base64::engine::general_purpose::STANDARD.decode(text).map_err(|e| e.to_string())
}

/// The label mixed into every derived session key.
pub open spec fn session_label() -> Seq<u8> {
    seq![0x64u8, 0x65u8, 0x72u8, 0x70u8, 0x01u8]
}

/// HKDF-SHA256 with one output block: the relay's value is the salt, the AEAD
/// key the input keying material.
pub open spec fn session_key_for(aead_key: Seq<u8>, server_pub: Seq<u8>) -> Seq<u8> {
    mac_tag(mac_tag(server_pub, aead_key), session_label())
}

/// The keys of one engine. They are fixed at construction; the session key is
/// written at most once.
pub struct CryptoState {
    aead_key: Vec<u8>,
    mac_key: Vec<u8>,
    session_key: Option<Vec<u8>>,
}

impl CryptoState {
    #[verifier::type_invariant]
    spec fn well_formed(self) -> bool {
        &&& self.aead_key@.len() == KEY_LEN
        &&& self.mac_key@.len() == KEY_LEN
        &&& self.session_key matches Some(k) ==> k@.len() == KEY_LEN
    }

    /// The 256-bit AEAD key.
    pub closed spec fn aead_key(self) -> Seq<u8> {
        self.aead_key@
    }

    /// The 256-bit MAC key.
    pub closed spec fn mac_key(self) -> Seq<u8> {
        self.mac_key@
    }

    /// The session key, once derived.
    pub closed spec fn session_key(self) -> Option<Seq<u8>> {
        match self.session_key {
            Some(k) => Some(k@),
            None => None,
        }
    }

    /// What `decrypt` recovers from a buffer: the first 12 bytes are the
    /// nonce, the rest is ciphertext and tag.
    pub open spec fn plaintext_of(self, buf: Seq<u8>) -> Option<Seq<u8>> {
        if buf.len() < NONCE_LEN {
            None
        } else {
            opened(
                self.aead_key(),
                buf.subrange(0, NONCE_LEN as int),
                buf.subrange(NONCE_LEN as int, buf.len() as int),
            )
        }
    }

    /// The signature text of `data`.
    pub open spec fn signature_of(self, data: Seq<u8>) -> Seq<char> {
        base64_text(mac_tag(self.mac_key(), data))
    }

    /// Whether `signature` is accepted for `data`; `None` where it is not
    /// base64.
    pub open spec fn accepts(self, data: Seq<u8>, signature: Seq<char>) -> Option<bool> {
        match base64_bytes(signature) {
            Some(tag) => Some(tag == mac_tag(self.mac_key(), data)),
            None => None,
        }
    }

    /// Builds the state from two given keys, each of which must be 32 bytes
    /// long.
    pub fn from_keys(aead_key: Vec<u8>, mac_key: Vec<u8>) -> (made: DerpResult<CryptoState>)
        ensures
            match made {
                Ok(state) => aead_key@.len() == KEY_LEN && mac_key@.len() == KEY_LEN
                    && state.aead_key() == aead_key@ && state.mac_key() == mac_key@
                    && state.session_key() is None,
                Err(e) => (aead_key@.len() != KEY_LEN || mac_key@.len() != KEY_LEN)
                    && e is CryptoError,
            },
    {
        if aead_key.len() != KEY_LEN || mac_key.len() != KEY_LEN {
            return Err(DerpError::CryptoError(String::from_str("Invalid key length")));
        }
        Ok(CryptoState { aead_key, mac_key, session_key: None })
    }

    /// Draws a fresh AEAD key and a fresh MAC key from the system's entropy
    /// source. Failure to obtain entropy is reported, never hidden.
    pub fn new() -> (made: DerpResult<CryptoState>)
        ensures
            match made {
                Ok(state) => state.session_key() is None,
                Err(e) => e is CryptoError,
            },
    {
        let aead_key = match random_bytes(KEY_LEN) {
            Ok(k) => k,
            Err(detail) => {
                return Err(
                    DerpError::CryptoError(labelled("Failed to generate AEAD key: ", &detail)),
                );
            },
        };
        let mac_key = match random_bytes(KEY_LEN) {
            Ok(k) => k,
            Err(detail) => {
                return Err(
                    DerpError::CryptoError(labelled("Failed to generate HMAC key: ", &detail)),
                );
            },
        };
        CryptoState::from_keys(aead_key, mac_key)
    }

    /// Seals `data` under a nonce that the caller supplies. With a 12-byte
    /// nonce and at most 2^36 bytes of data this always succeeds; a nonce of
    /// another length is an error. The output is the nonce followed by
    /// ciphertext and tag, and `decrypt` recovers `data` from it.
    pub fn encrypt_with_nonce(&self, nonce: &[u8], data: &[u8]) -> (out: DerpResult<Vec<u8>>)
        ensures
            match out {
                Ok(buf) => nonce@.len() == NONCE_LEN && buf@ == nonce@ + sealed(
                    self.aead_key(),
                    nonce@,
                    data@,
                ) && buf@.len() == data@.len() + NONCE_LEN + TAG_LEN && self.plaintext_of(buf@)
                    == Some(data@),
                Err(e) => e is CryptoError,
            },
            nonce@.len() != NONCE_LEN ==> out is Err,
            nonce@.len() == NONCE_LEN && data@.len() <= max_plaintext_len() ==> out is Ok,
    {
        proof {
            use_type_invariant(self);
        }
        if nonce.len() != NONCE_LEN {
            return Err(DerpError::CryptoError(String::from_str("Invalid nonce length")));
        }
        match aes_gcm_seal(self.aead_key.as_slice(), nonce, data) {
            Err(detail) => Err(DerpError::CryptoError(labelled("Encryption failed: ", &detail))),
            Ok(ciphertext) => {
                let mut buf = copy_range(nonce, 0, NONCE_LEN);
                assert(buf@ =~= nonce@);
                append_bytes(&mut buf, ciphertext.as_slice());
                assert(buf@.subrange(0, NONCE_LEN as int) =~= nonce@);
                assert(buf@.subrange(NONCE_LEN as int, buf@.len() as int) =~= ciphertext@);
                Ok(buf)
            },
        }
    }

    /// Seals `data` under a fresh random nonce, as `encrypt_with_nonce` does
    /// under a given one. Whatever nonce was drawn, `decrypt` recovers `data`
    /// from the output; where the system gives no entropy for the nonce, the
    /// call is a crypto error.
    pub fn encrypt(&self, data: &[u8]) -> (out: DerpResult<Vec<u8>>)
        ensures
            match out {
                Ok(buf) => buf@.len() == data@.len() + NONCE_LEN + TAG_LEN && buf@.subrange(
                    NONCE_LEN as int,
                    buf@.len() as int,
                ) == sealed(self.aead_key(), buf@.subrange(0, NONCE_LEN as int), data@)
                    && self.plaintext_of(buf@) == Some(data@),
                Err(e) => e is CryptoError,
            },
    {
        match random_bytes(NONCE_LEN) {
            Err(detail) => Err(
                DerpError::CryptoError(labelled("Failed to generate nonce: ", &detail)),
            ),
            Ok(nonce) => {
                let out = self.encrypt_with_nonce(nonce.as_slice(), data);
                proof {
                    if let Ok(buf) = &out {
                        assert(buf@.subrange(0, NONCE_LEN as int) =~= nonce@);
                        assert(buf@.subrange(NONCE_LEN as int, buf@.len() as int) =~= sealed(
                            self.aead_key(),
                            nonce@,
                            data@,
                        ));
                    }
                }
                out
            },
        }
    }

    /// Opens a sealed buffer. A buffer shorter than nonce and tag together,
    /// and one whose tag does not authenticate it, are errors.
    pub fn decrypt(&self, data: &[u8]) -> (out: DerpResult<Vec<u8>>)
        ensures
            match out {
                Ok(plain) => self.plaintext_of(data@) == Some(plain@) && plain@.len() + NONCE_LEN
                    + TAG_LEN == data@.len(),
                Err(e) => self.plaintext_of(data@) is None && e is CryptoError,
            },
            data@.len() < NONCE_LEN + TAG_LEN ==> out is Err,
    {
        proof {
            use_type_invariant(self);
        }
        if data.len() < NONCE_LEN {
            return Err(DerpError::CryptoError(String::from_str("Data too short")));
        }
        let nonce = copy_range(data, 0, NONCE_LEN);
        let ciphertext = copy_range(data, NONCE_LEN, data.len());
        match aes_gcm_open(self.aead_key.as_slice(), nonce.as_slice(), ciphertext.as_slice()) {
            Ok(plain) => Ok(plain),
            Err(detail) => Err(DerpError::CryptoError(labelled("Decryption failed: ", &detail))),
        }
    }

    /// Signs `data`: the HMAC-SHA256 tag under the MAC key, in base64, which
    /// makes 44 characters.
    pub fn sign(&self, data: &[u8]) -> (out: DerpResult<String>)
        ensures
            out matches Ok(text) && text@ == self.signature_of(data@) && text@.len()
                == SIGNATURE_LEN && self.accepts(data@, text@) == Some(true),
    {
        match hmac_sha256(self.mac_key.as_slice(), data) {
            Some(tag) => Ok(base64_encode(tag.as_slice())),
            None => Err(DerpError::CryptoError(String::from_str("Failed to create HMAC"))),
        }
    }

    /// Checks a signature text against `data`. Text that is not base64 is an
    /// error; any other text is accepted exactly where it decodes to the tag
    /// of `data`.
    pub fn verify(&self, data: &[u8], signature: &str) -> (out: DerpResult<bool>)
        ensures
            match out {
                Ok(valid) => self.accepts(data@, signature@) == Some(valid),
                Err(e) => self.accepts(data@, signature@) is None && e is CryptoError,
            },
    {
        let tag = match base64_decode(signature) {
            Ok(t) => t,
            Err(detail) => {
                return Err(
                    DerpError::CryptoError(labelled("Invalid signature encoding: ", &detail)),
                );
            },
        };
        match hmac_sha256_matches(self.mac_key.as_slice(), data, tag.as_slice()) {
            Some(valid) => Ok(valid),
            None => Err(DerpError::CryptoError(String::from_str("Failed to create HMAC"))),
        }
    }

    /// A copy of the session key, once derived.
    pub fn get_session_key(&self) -> (key: Option<Vec<u8>>)
        ensures
            match key {
                Some(k) => self.session_key() == Some(k@) && k@.len() == KEY_LEN,
                None => self.session_key() is None,
            },
    {
        proof {
            use_type_invariant(self);
        }
        match &self.session_key {
            Some(k) => {
                let copy = copy_range(k.as_slice(), 0, k.len());
                assert(copy@ =~= k@);
                Some(copy)
            },
            None => None,
        }
    }

    /// Derives the session key from the relay's 32-byte value and stores it.
    /// A value of another length is a protocol error; deriving a second time
    /// is a state error. Either way the state is left as it was.
    pub fn derive_session_key(&mut self, server_pub: &[u8]) -> (out: DerpResult<Vec<u8>>)
        ensures
            final(self).aead_key() == old(self).aead_key(),
            final(self).mac_key() == old(self).mac_key(),
            match out {
                Ok(key) => server_pub@.len() == KEY_LEN && old(self).session_key() is None
                    && key@ == session_key_for(old(self).aead_key(), server_pub@) && key@.len()
                    == KEY_LEN && final(self).session_key() == Some(key@),
                Err(e) => final(self).session_key() == old(self).session_key() && if server_pub@.len()
                    != KEY_LEN {
                    e is InvalidProtocol
                } else {
                    old(self).session_key() is Some && e is InvalidState
                },
            },
    {
        proof {
            use_type_invariant(&*self);
        }
        if server_pub.len() != KEY_LEN {
            return Err(DerpError::InvalidProtocol(String::from_str("Invalid server key length")));
        }
        if self.session_key.is_some() {
            return Err(DerpError::InvalidState(String::from_str("Session key already derived")));
        }
        let mut label: Vec<u8> = Vec::new();
        label.push(0x64u8);
        label.push(0x65u8);
        label.push(0x72u8);
        label.push(0x70u8);
        label.push(0x01u8);
        assert(label@ =~= session_label());
        let prk = match hmac_sha256(server_pub, self.aead_key.as_slice()) {
            Some(t) => t,
            None => {
                return Err(DerpError::CryptoError(String::from_str("Failed to create HMAC")));
            },
        };
        let key = match hmac_sha256(prk.as_slice(), label.as_slice()) {
            Some(t) => t,
            None => {
                return Err(DerpError::CryptoError(String::from_str("Failed to create HMAC")));
            },
        };
        let copy = copy_range(key.as_slice(), 0, key.len());
        assert(copy@ =~= key@);
        self.session_key = Some(copy);
        Ok(key)
    }
}

} // verus!
