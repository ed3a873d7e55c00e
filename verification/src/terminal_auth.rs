//! Terminal authentication: the records of a registered terminal and the
//! rules by which stored credentials become a status, a registration and a
//! signature. Keys are Ed25519 secrets of 32 bytes; reading and writing the
//! credential stores is left to the caller.

use vstd::prelude::*;
use vstd::utf8::encode_utf8;
use crate::platform::{get_os_type, os_type_name, Platform};
use crate::text::{decimal_digits, optional_view, push_decimal_u64, str_eq};

verus! {

/// Lifecycle of a terminal.
#[derive(Debug, Clone)]
pub enum TerminalStatus {
    /// No key pair yet.
    Uninitialized,
    /// Key pair made, registration with the server pending.
    PendingRegistration,
    Registered,
    Revoked,
}

/// What a terminal shows as a QR symbol to be registered.
#[derive(Debug, Clone)]
pub struct RegistrationQrPayload {
    /// Version of the payload.
    pub v: u8,
    pub terminal_id: String,
    /// Public key in base64.
    pub public_key: String,
    pub device_name: String,
    pub os: String,
    pub created_at: String,
}

/// The status of a terminal as reported to the caller.
#[derive(Debug, Clone)]
pub struct TerminalAuthResult {
    pub status: String,
    pub terminal_id: Option<String>,
    pub public_key: Option<String>,
    pub error: Option<String>,
}

/// A signed authentication request.
#[derive(Debug, Clone)]
pub struct SignatureData {
    pub terminal_id: String,
    /// Seconds since the Unix epoch.
    pub timestamp: u64,
    /// Signature in base64.
    pub signature: String,
}

/// What can go wrong in terminal authentication.
#[derive(Debug)]
pub enum TerminalAuthError {
    KeychainError(String),
    CryptoError(String),
    NotInitialized,
    InvalidKey,
}

/// Credentials as the fallback file holds them.
#[derive(Debug, Clone)]
pub struct FallbackCredentials {
    pub terminal_id: String,
    /// Secret key in base64.
    pub private_key: String,
}

/// What there is to store after a terminal was initialised.
#[derive(Debug, Clone)]
pub struct Registration {
    pub payload: RegistrationQrPayload,
    pub credentials: FallbackCredentials,
}

/// A status and whether the credential stores are to be cleared.
#[derive(Debug, Clone)]
pub struct StatusReport {
    pub result: TerminalAuthResult,
    pub clear: bool,
}

/// Length of an Ed25519 secret key in bytes.
pub const SECRET_KEY_LENGTH: usize = 32;

/// Longest input, in bytes, that is handed to the base64 encoder.
pub const MAX_ENCODE_BYTES: usize = 0x1000_0000;

/// The standard base64 text of a byte sequence, with padding.
pub uninterp spec fn base64_text(bytes: Seq<u8>) -> Seq<char>;

/// The bytes that a standard base64 text stands for, if it is one.
pub uninterp spec fn base64_bytes(text: Seq<char>) -> Option<Seq<u8>>;

/// The Ed25519 public key of a secret key.
pub uninterp spec fn ed25519_public_key(secret: Seq<u8>) -> Seq<u8>;

/// The Ed25519 signature of a message under a secret key.
pub uninterp spec fn ed25519_signature(secret: Seq<u8>, message: Seq<u8>) -> Seq<u8>;

/// `base64::DecodeError`, the error of a failed decoding.
#[verifier::external_type_specification]
#[verifier::external_body]
pub struct ExDecodeError(base64::DecodeError);

/// Calls `Engine::encode` on `base64::engine::general_purpose::STANDARD`.
/// The text depends on the bytes alone and is named `base64_text`; the call
/// panics only where the encoded length overflows `usize`, which the bound
/// on the input excludes.
#[verifier::external_body]
fn base64_encode(bytes: &[u8]) -> (text: String)
    requires
        bytes@.len() <= MAX_ENCODE_BYTES,
    ensures
        text@ == base64_text(bytes@),
{
    base64::Engine::encode(&base64::engine::general_purpose::STANDARD, bytes)
}

/// Calls `Engine::decode` on `base64::engine::general_purpose::STANDARD`.
/// Whether the text decodes, and to which bytes, depends on the text alone
/// and is named `base64_bytes`.
#[verifier::external_body]
fn base64_decode(text: &str) -> (r: Result<Vec<u8>, base64::DecodeError>)
    ensures
        match r {
            Ok(bytes) => base64_bytes(text@) == Some(bytes@),
            Err(_) => base64_bytes(text@) is None,
        },
{
    base64::Engine::decode(&base64::engine::general_purpose::STANDARD, text)
}

/// The message of a `base64::DecodeError`, by its `Display`.
#[verifier::external_body]
fn decode_error_message(error: &base64::DecodeError) -> (message: String) {
    error.to_string()
}

/// Calls `SigningKey::from_bytes`, `verifying_key` and `to_bytes` of
/// `ed25519_dalek`: the public key of a secret key, which depends on the
/// secret alone and is named `ed25519_public_key`. It has 32 bytes.
#[verifier::external_body]
fn public_key_bytes(secret: &[u8]) -> (public: Vec<u8>)
    requires
        secret@.len() == SECRET_KEY_LENGTH,
    ensures
        public@ == ed25519_public_key(secret@),
        public@.len() == 32,
{
    let mut key = [0u8; 32];
    key.copy_from_slice(secret);
    ed25519_dalek::SigningKey::from_bytes(&key).verifying_key().to_bytes().to_vec()
}

/// Calls `Signer::sign` on an `ed25519_dalek::SigningKey`: the signature of
/// a message, which depends on secret and message alone and is named
/// `ed25519_signature`. It has 64 bytes.
#[verifier::external_body]
fn sign_bytes(secret: &[u8], message: &[u8]) -> (signature: Vec<u8>)
    requires
        secret@.len() == SECRET_KEY_LENGTH,
    ensures
        signature@ == ed25519_signature(secret@, message@),
        signature@.len() == 64,
{
    let mut key = [0u8; 32];
    key.copy_from_slice(secret);
    let signing_key = ed25519_dalek::SigningKey::from_bytes(&key);
    ed25519_dalek::Signer::sign(&signing_key, message).to_bytes().to_vec()
}

impl TerminalAuthError {
    /// The text of the error.
    pub open spec fn message_text(self) -> Seq<char> {
        match self {
            TerminalAuthError::KeychainError(msg) => "Keychain error: "@ + msg@,
            TerminalAuthError::CryptoError(msg) => "Crypto error: "@ + msg@,
            TerminalAuthError::NotInitialized => "Terminal not initialized"@,
            TerminalAuthError::InvalidKey => "Invalid key"@,
        }
    }

    /// The text of the error.
    pub fn message(&self) -> (s: String)
        ensures
            s@ == self.message_text(),
    {
        match self {
            TerminalAuthError::KeychainError(msg) => {
                let mut s = "Keychain error: ".to_owned();
                s.append(msg.as_str());
                s
            },
            TerminalAuthError::CryptoError(msg) => {
                let mut s = "Crypto error: ".to_owned();
                s.append(msg.as_str());
                s
            },
            TerminalAuthError::NotInitialized => "Terminal not initialized".to_owned(),
            TerminalAuthError::InvalidKey => "Invalid key".to_owned(),
        }
    }
}

/// What a stored key text turns out to be.
pub enum KeyOutcome {
    /// A secret key of 32 bytes.
    Key(Seq<u8>),
    /// Base64 of some other length.
    WrongLength,
    /// No base64.
    Malformed,
}

/// What a stored key text turns out to be.
pub open spec fn key_outcome(text: Seq<char>) -> KeyOutcome {
    match base64_bytes(text) {
        Some(bytes) => if bytes.len() == SECRET_KEY_LENGTH {
            KeyOutcome::Key(bytes)
        } else {
            KeyOutcome::WrongLength
        },
        None => KeyOutcome::Malformed,
    }
}

/// True when a result reports an outcome: the key itself, `InvalidKey` for
/// a wrong length, `CryptoError` for what is no base64.
pub open spec fn reports(r: Result<Vec<u8>, TerminalAuthError>, outcome: KeyOutcome) -> bool {
    match outcome {
        KeyOutcome::Key(bytes) => r matches Ok(key) && key@ == bytes,
        KeyOutcome::WrongLength => r matches Err(TerminalAuthError::InvalidKey),
        KeyOutcome::Malformed => r matches Err(TerminalAuthError::CryptoError(_)),
    }
}

/// Takes decoded bytes for a secret key if they have the length of one.
pub fn secret_key_from(bytes: Vec<u8>) -> (r: Result<Vec<u8>, TerminalAuthError>)
    ensures
        bytes@.len() == SECRET_KEY_LENGTH ==> (r matches Ok(key) && key@ == bytes@),
        bytes@.len() != SECRET_KEY_LENGTH ==> (r matches Err(TerminalAuthError::InvalidKey)),
{
    if bytes.len() != SECRET_KEY_LENGTH {
        Err(TerminalAuthError::InvalidKey)
    } else {
        Ok(bytes)
    }
}

/// Restores a secret key from its base64 text.
pub fn decode_private_key(base64_key: &str) -> (r: Result<Vec<u8>, TerminalAuthError>)
    ensures
        reports(r, key_outcome(base64_key@)),
        r matches Ok(key) ==> key@.len() == SECRET_KEY_LENGTH,
{
    match base64_decode(base64_key) {
        Ok(key_bytes) => secret_key_from(key_bytes),
        Err(e) => Err(TerminalAuthError::CryptoError(decode_error_message(&e))),
    }
}

/// The key text that the stores hold: that of the keychain, else that of
/// the fallback file.
pub open spec fn stored_key_text(
    keychain: Option<String>,
    fallback: Option<FallbackCredentials>,
) -> Option<Seq<char>> {
    match keychain {
        Some(key) => Some(key@),
        None => match fallback {
            Some(credentials) => Some(credentials.private_key@),
            None => None,
        },
    }
}

/// The terminal's identifier that the stores hold: that of the keychain,
/// else that of the fallback file.
pub open spec fn stored_terminal_id(
    keychain: Option<String>,
    fallback: Option<FallbackCredentials>,
) -> Option<Seq<char>> {
    match keychain {
        Some(id) => Some(id@),
        None => match fallback {
            Some(credentials) => Some(credentials.terminal_id@),
            None => None,
        },
    }
}

/// The secret key of the terminal, from what the keychain and the fallback
/// file gave: none where neither holds one, an error where the one that
/// counts is no key.
pub fn load_private_key_from_keychain(
    keychain: &Option<String>,
    fallback: &Option<FallbackCredentials>,
) -> (r: Result<Option<Vec<u8>>, TerminalAuthError>)
    ensures
        match stored_key_text(*keychain, *fallback) {
            None => r matches Ok(None),
            Some(text) => match key_outcome(text) {
                KeyOutcome::Key(bytes) => r matches Ok(Some(key)) && key@ == bytes,
                KeyOutcome::WrongLength => r matches Err(TerminalAuthError::InvalidKey),
                KeyOutcome::Malformed => r matches Err(TerminalAuthError::CryptoError(_)),
            },
        },
        r matches Ok(Some(key)) ==> key@.len() == SECRET_KEY_LENGTH,
{
    let text: &str = match keychain {
        Some(key) => key.as_str(),
        None => match fallback {
            Some(credentials) => credentials.private_key.as_str(),
            None => {
                return Ok(None);
            },
        },
    };
    match decode_private_key(text) {
        Ok(key) => Ok(Some(key)),
        Err(e) => Err(e),
    }
}

/// The identifier of the terminal, from what the keychain and the fallback
/// file gave.
pub fn load_terminal_id_from_keychain(
    keychain: &Option<String>,
    fallback: &Option<FallbackCredentials>,
) -> (r: Option<String>)
    ensures
        optional_view(r) == stored_terminal_id(*keychain, *fallback),
{
    match keychain {
        Some(id) => Some(id.clone()),
        None => match fallback {
            Some(credentials) => Some(credentials.terminal_id.clone()),
            None => None,
        },
    }
}

/// The public key of a secret key, in base64.
pub open spec fn public_key_text(secret: Seq<u8>) -> Seq<char> {
    base64_text(ed25519_public_key(secret))
}

/// The message that a terminal signs: its identifier, a colon and the
/// timestamp in decimal.
pub open spec fn signed_message_text(terminal_id: Seq<char>, timestamp: nat) -> Seq<char> {
    terminal_id + ":"@ + decimal_digits(timestamp)
}

/// The signature of a terminal for a timestamp, in base64.
pub open spec fn signature_text(secret: Seq<u8>, terminal_id: Seq<char>, timestamp: nat) -> Seq<
    char,
> {
    base64_text(
        ed25519_signature(secret, encode_utf8(signed_message_text(terminal_id, timestamp))),
    )
}

/// The time of creation of a registration: the seconds in decimal and a `Z`.
pub open spec fn created_at_text(now_secs: nat) -> Seq<char> {
    decimal_digits(now_secs) + "Z"@
}

/// The public key of a secret key, in base64.
pub fn public_key_base64(secret: &[u8]) -> (text: String)
    requires
        secret@.len() == SECRET_KEY_LENGTH,
    ensures
        text@ == public_key_text(secret@),
{
    let public = public_key_bytes(secret);
    base64_encode(public.as_slice())
}

/// The time of creation of a registration.
pub fn chrono_now_iso8601(now_secs: u64) -> (s: String)
    ensures
        s@ == created_at_text(now_secs as nat),
{
    let mut s = String::new();
    push_decimal_u64(&mut s, now_secs);
    s.append("Z");
    assert(s@ =~= created_at_text(now_secs as nat));
    s
}

/// True when a report is the one for what the stores hold: initialised
/// with identifier and public key where both identifier and key are there,
/// uninitialised where neither is, and uninitialised with an error and the
/// order to clear the stores where only one is.
pub open spec fn status_matches(
    report: StatusReport,
    terminal_id: Option<Seq<char>>,
    public_key: Option<Seq<char>>,
) -> bool {
    match (terminal_id, public_key) {
        (Some(id), Some(key)) => {
            &&& report.result.status@ == "initialized"@
            &&& optional_view(report.result.terminal_id) == Some(id)
            &&& optional_view(report.result.public_key) == Some(key)
            &&& report.result.error is None
            &&& !report.clear
        },
        (None, None) => {
            &&& report.result.status@ == "uninitialized"@
            &&& report.result.terminal_id is None
            &&& report.result.public_key is None
            &&& report.result.error is None
            &&& !report.clear
        },
        _ => {
            &&& report.result.status@ == "uninitialized"@
            &&& report.result.terminal_id is None
            &&& report.result.public_key is None
            &&& optional_view(report.result.error) == Some("Inconsistent state, cleared"@)
            &&& report.clear
        },
    }
}

/// The public key text of the key that the stores hold, if they hold one.
pub open spec fn optional_public_key_text(private_key: Option<Vec<u8>>) -> Option<Seq<char>> {
    match private_key {
        Some(key) => Some(public_key_text(key@)),
        None => None,
    }
}

/// The status of a terminal from the identifier that the stores hold and
/// the public key of the key that they hold.
pub fn status_report(terminal_id: Option<String>, public_key: Option<String>) -> (report:
    StatusReport)
    ensures
        status_matches(report, optional_view(terminal_id), optional_view(public_key)),
{
    match (terminal_id, public_key) {
        (Some(id), Some(key)) => StatusReport {
            result: TerminalAuthResult {
                status: "initialized".to_owned(),
                terminal_id: Some(id),
                public_key: Some(key),
                error: None,
            },
            clear: false,
        },
        (None, None) => StatusReport {
            result: TerminalAuthResult {
                status: "uninitialized".to_owned(),
                terminal_id: None,
                public_key: None,
                error: None,
            },
            clear: false,
        },
        _ => StatusReport {
            result: TerminalAuthResult {
                status: "uninitialized".to_owned(),
                terminal_id: None,
                public_key: None,
                error: Some("Inconsistent state, cleared".to_owned()),
            },
            clear: true,
        },
    }
}

/// The status of a terminal from the identifier and the key that the
/// stores hold.
pub fn get_terminal_status(terminal_id: Option<String>, private_key: Option<Vec<u8>>) -> (report:
    StatusReport)
    requires
        private_key matches Some(key) ==> key@.len() == SECRET_KEY_LENGTH,
    ensures
        status_matches(
            report,
            optional_view(terminal_id),
            optional_public_key_text(private_key),
        ),
{
    let public_key = match &private_key {
        Some(key) => Some(public_key_base64(key.as_slice())),
        None => None,
    };
    status_report(terminal_id, public_key)
}

/// True when a registration is the one of a new terminal: version 1, the
/// identifier, the public key, the device's name, the system's name and
/// the time of creation in the payload; identifier and secret key in the
/// credentials.
pub open spec fn registration_matches(
    registration: Registration,
    secret: Seq<u8>,
    terminal_id: Seq<char>,
    device_name: Seq<char>,
    platform: Platform,
    now_secs: nat,
) -> bool {
    &&& registration.payload.v == 1
    &&& registration.payload.terminal_id@ == terminal_id
    &&& registration.payload.public_key@ == public_key_text(secret)
    &&& registration.payload.device_name@ == device_name
    &&& registration.payload.os@ == os_type_name(platform)
    &&& registration.payload.created_at@ == created_at_text(now_secs)
    &&& registration.credentials.terminal_id@ == terminal_id
    &&& registration.credentials.private_key@ == base64_text(secret)
}

/// Registers a new key pair and identifier for a terminal that has no key
/// yet. A terminal that has one is refused.
pub fn initialize_terminal(
    existing_key: &Option<Vec<u8>>,
    secret: &[u8],
    terminal_id: &str,
    device_name: &str,
    platform: Platform,
    now_secs: u64,
) -> (r: Result<Registration, TerminalAuthError>)
    requires
        secret@.len() == SECRET_KEY_LENGTH,
    ensures
        match *existing_key {
            Some(_) => r matches Err(TerminalAuthError::KeychainError(msg)) && msg@
                == "Terminal already initialized"@,
            None => r matches Ok(registration) && registration_matches(
                registration,
                secret@,
                terminal_id@,
                device_name@,
                platform,
                now_secs as nat,
            ),
        },
{
    if existing_key.is_some() {
        return Err(TerminalAuthError::KeychainError("Terminal already initialized".to_owned()));
    }
    let payload = RegistrationQrPayload {
        v: 1,
        terminal_id: terminal_id.to_owned(),
        public_key: public_key_base64(secret),
        device_name: device_name.to_owned(),
        os: get_os_type(platform),
        created_at: chrono_now_iso8601(now_secs),
    };
    let credentials = FallbackCredentials {
        terminal_id: terminal_id.to_owned(),
        private_key: base64_encode(secret),
    };
    Ok(Registration { payload, credentials })
}

/// The payload of a terminal that is initialised already, from its status:
/// version 1, identifier and public key of the status (empty where
/// missing), the device's name, the system's name, and no time of creation.
/// There is none for a status other than `initialized`.
pub open spec fn existing_registration_matches(
    r: Option<RegistrationQrPayload>,
    status: TerminalAuthResult,
    device_name: Seq<char>,
    platform: Platform,
) -> bool {
    if status.status@ == "initialized"@ {
        r matches Some(payload) && {
            &&& payload.v == 1
            &&& payload.terminal_id@ == (match status.terminal_id {
                Some(id) => id@,
                None => Seq::<char>::empty(),
            })
            &&& payload.public_key@ == (match status.public_key {
                Some(key) => key@,
                None => Seq::<char>::empty(),
            })
            &&& payload.device_name@ == device_name
            &&& payload.os@ == os_type_name(platform)
            &&& payload.created_at@ == Seq::<char>::empty()
        }
    } else {
        r is None
    }
}

/// The registration payload of a terminal that is initialised already.
pub fn existing_registration(status: &TerminalAuthResult, device_name: &str, platform: Platform) -> (r:
    Option<RegistrationQrPayload>)
    ensures
        existing_registration_matches(r, *status, device_name@, platform),
{
    if str_eq(status.status.as_str(), "initialized") {
        let terminal_id = match &status.terminal_id {
            Some(id) => id.clone(),
            None => String::new(),
        };
        let public_key = match &status.public_key {
            Some(key) => key.clone(),
            None => String::new(),
        };
        Some(
            RegistrationQrPayload {
                v: 1,
                terminal_id,
                public_key,
                device_name: device_name.to_owned(),
                os: get_os_type(platform),
                created_at: String::new(),
            },
        )
    } else {
        None
    }
}

/// The message that a terminal signs.
pub fn signed_message(terminal_id: &str, timestamp: u64) -> (s: String)
    ensures
        s@ == signed_message_text(terminal_id@, timestamp as nat),
{
    let mut s = String::new();
    s.append(terminal_id);
    s.append(":");
    push_decimal_u64(&mut s, timestamp);
    assert(s@ =~= signed_message_text(terminal_id@, timestamp as nat));
    s
}

/// Signs the terminal's identifier and a timestamp. The message handed in
/// is not part of what is signed. Without key or identifier the terminal
/// is not initialised.
pub fn sign_message(
    _message: &str,
    private_key: &Option<Vec<u8>>,
    terminal_id: &Option<String>,
    timestamp: u64,
) -> (r: Result<SignatureData, TerminalAuthError>)
    requires
        *private_key matches Some(key) ==> key@.len() == SECRET_KEY_LENGTH,
    ensures
        match (*private_key, *terminal_id) {
            (Some(key), Some(id)) => r matches Ok(data) && {
                &&& data.terminal_id@ == id@
                &&& data.timestamp == timestamp
                &&& data.signature@ == signature_text(key@, id@, timestamp as nat)
            },
            _ => r matches Err(TerminalAuthError::NotInitialized),
        },
{
    let signing_key = match private_key {
        Some(key) => key,
        None => {
            return Err(TerminalAuthError::NotInitialized);
        },
    };
    let id = match terminal_id {
        Some(id) => id,
        None => {
            return Err(TerminalAuthError::NotInitialized);
        },
    };
    let sign_message = signed_message(id.as_str(), timestamp);
    let signature = sign_bytes(signing_key.as_slice(), sign_message.as_str().as_bytes());
    Ok(
        SignatureData {
            terminal_id: id.clone(),
            timestamp,
            signature: base64_encode(signature.as_slice()),
        },
    )
}

/// Signs an authentication request of the terminal.
pub fn create_auth_signature(
    private_key: &Option<Vec<u8>>,
    terminal_id: &Option<String>,
    timestamp: u64,
) -> (r: Result<SignatureData, TerminalAuthError>)
    requires
        *private_key matches Some(key) ==> key@.len() == SECRET_KEY_LENGTH,
    ensures
        match (*private_key, *terminal_id) {
            (Some(key), Some(id)) => r matches Ok(data) && {
                &&& data.terminal_id@ == id@
                &&& data.timestamp == timestamp
                &&& data.signature@ == signature_text(key@, id@, timestamp as nat)
            },
            _ => r matches Err(TerminalAuthError::NotInitialized),
        },
{
    sign_message("", private_key, terminal_id, timestamp)
}

} // verus!
