//! Key derivation and authenticated encryption of secrets.
//!
//! A project's master key is derived with PBKDF2-HMAC-SHA256 from the project
//! name, the agent id and an optional passphrase; the salt is the first 16
//! bytes of the SHA-256 digest of `shipwright:<project>:<agent>`.  Secrets are
//! sealed with AES-256-GCM under a fresh random 12-byte nonce.
use vstd::prelude::*;
use vstd::string::*;
use vstd::utf8::*;
use crate::text::push_decimal;

use aes_gcm::aead::{Aead, KeyInit, OsRng};
use rand::RngCore;
use sha2::Digest;

verus! {

/// Number of PBKDF2 iterations.
pub const PBKDF2_ITERATIONS: u32 = 100000;

/// Salt size for key derivation.
pub const SALT_SIZE: usize = 16;

/// Nonce size for AES-GCM.
pub const NONCE_SIZE: usize = 12;

/// Derived key size for AES-256.
pub const KEY_SIZE: usize = 32;

/// Largest plaintext AES-GCM accepts (2^36 bytes).
pub const AES_GCM_P_MAX: u64 = 68719476736;

/// Encrypted value with its nonce.
#[derive(Debug, Clone)]
pub struct EncryptedValue {
    pub ciphertext: Vec<u8>,
    pub nonce: Vec<u8>,
}

/// Why an encryption operation was refused.
#[derive(Debug, Clone, PartialEq, Eq, Structural)]
pub enum CryptoError {
    /// The key is not `KEY_SIZE` bytes long.
    InvalidKeySize { expected: usize, got: usize },
    /// The nonce is not `NONCE_SIZE` bytes long.
    InvalidNonceSize { expected: usize, got: usize },
    /// The cipher refused to encrypt (plaintext too long).
    EncryptionFailed,
    /// Authentication failed: wrong key or corrupted data.
    DecryptionFailed,
    /// The decrypted bytes are not valid UTF-8.
    InvalidUtf8,
}

/// SHA-256 digest (`sha2::Sha256`).
pub uninterp spec fn sha256(data: Seq<u8>) -> Seq<u8>;

/// PBKDF2-HMAC-SHA256 output of `len` bytes (`pbkdf2::pbkdf2_hmac::<Sha256>`).
pub uninterp spec fn pbkdf2_hmac_sha256(password: Seq<u8>, salt: Seq<u8>, rounds: u32, len: nat) -> Seq<u8>;

/// AES-256-GCM ciphertext with its 16-byte tag appended (`Aes256Gcm::encrypt`
/// without associated data).
pub uninterp spec fn aes256_gcm_seal(key: Seq<u8>, nonce: Seq<u8>, plaintext: Seq<u8>) -> Seq<u8>;

/// AES-256-GCM decryption (`Aes256Gcm::decrypt`): the plaintext, or `None` when
/// the tag does not authenticate.
pub uninterp spec fn aes256_gcm_open(key: Seq<u8>, nonce: Seq<u8>, ciphertext: Seq<u8>) -> Option<Seq<u8>>;

/// SHA-256 digest of `data` (`sha2::Sha256` via `Digest::update`/`finalize`);
/// the result is named, and is 32 bytes long.
#[verifier::external_body]
fn sha256_digest(data: &[u8]) -> (r: Vec<u8>)
    ensures
        r@ == sha256(data@),
        r@.len() == 32,
{
    let mut hasher = sha2::Sha256::new();
    hasher.update(data);
    hasher.finalize().to_vec()
}

/// `pbkdf2::pbkdf2_hmac::<Sha256>` into a 32-byte buffer; the result is named.
#[verifier::external_body]
fn pbkdf2_sha256_32(password: &[u8], salt: &[u8], rounds: u32) -> (r: Vec<u8>)
    ensures
        r@ == pbkdf2_hmac_sha256(password@, salt@, rounds, 32),
        r@.len() == 32,
{
    let mut key = [0u8; 32];
    pbkdf2::pbkdf2_hmac::<sha2::Sha256>(password, salt, rounds, &mut key);
    key.to_vec()
}

/// 12 bytes from the operating system's random source (`OsRng::fill_bytes`).
/// Nothing is stated of the bytes but their number.
#[verifier::external_body]
fn random_nonce() -> (r: Vec<u8>)
    ensures
        r@.len() == NONCE_SIZE,
{
    let mut nonce = [0u8; 12];
    OsRng.fill_bytes(&mut nonce);
    nonce.to_vec()
}

/// `Aes256Gcm::encrypt` with the given key and nonce.  As in the aes-gcm
/// source, encryption succeeds exactly when the plaintext is at most 2^36
/// bytes long, and then gives the named ciphertext, 16 bytes longer than the
/// plaintext.
#[verifier::external_body]
fn aes256_gcm_encrypt(key: &[u8], nonce: &[u8], plaintext: &[u8]) -> (r: Option<Vec<u8>>)
    requires
        key@.len() == KEY_SIZE,
        nonce@.len() == NONCE_SIZE,
    ensures
        r is Some <==> plaintext@.len() <= AES_GCM_P_MAX,
        r matches Some(c) ==> c@ == aes256_gcm_seal(key@, nonce@, plaintext@),
{
    let cipher = aes_gcm::Aes256Gcm::new(aes_gcm::Key::<aes_gcm::Aes256Gcm>::from_slice(key));
    cipher.encrypt(aes_gcm::Nonce::from_slice(nonce), plaintext).ok()
}

/// `Aes256Gcm::decrypt` with the given key and nonce; the result is named.
/// As the aead documentation states, decrypting what `encrypt` produced under
/// the same key and nonce gives back the plaintext.
#[verifier::external_body]
fn aes256_gcm_decrypt(key: &[u8], nonce: &[u8], ciphertext: &[u8]) -> (r: Option<Vec<u8>>)
    requires
        key@.len() == KEY_SIZE,
        nonce@.len() == NONCE_SIZE,
    ensures
        (match aes256_gcm_open(key@, nonce@, ciphertext@) {
            Some(p) => r matches Some(q) && q@ == p,
            None => r is None,
        }),
        r is None ==> forall|p: Seq<u8>|
            p.len() <= AES_GCM_P_MAX ==> ciphertext@ != #[trigger] aes256_gcm_seal(key@, nonce@, p),
        r matches Some(q) ==> forall|p: Seq<u8>|
            p.len() <= AES_GCM_P_MAX && ciphertext@ == #[trigger] aes256_gcm_seal(key@, nonce@, p) ==> q@ == p,
{
    let cipher = aes_gcm::Aes256Gcm::new(aes_gcm::Key::<aes_gcm::Aes256Gcm>::from_slice(key));
    cipher.decrypt(aes_gcm::Nonce::from_slice(nonce), ciphertext).ok()
}

/// `String::from_utf8`: succeeds exactly on valid UTF-8, with the decoded text.
#[verifier::external_body]
fn string_from_utf8(bytes: Vec<u8>) -> (r: Option<String>)
    ensures
        r is Some <==> valid_utf8(bytes@),
        r matches Some(s) ==> s@ == decode_utf8(bytes@),
{
    String::from_utf8(bytes).ok()
}

/// A fresh random agent installation id (`uuid::Uuid::new_v4().to_string()`):
/// the hyphenated form, 36 characters long.
#[verifier::external_body]
pub fn generate_agent_id() -> (r: String)
    ensures
        r@.len() == 36,
{
    uuid::Uuid::new_v4().to_string()
}

/// The password text: `<project>:<agent>` or `<project>:<agent>:<passphrase>`.
pub open spec fn password_text(project_name: Seq<char>, agent_id: Seq<char>, passphrase: Option<Seq<char>>) -> Seq<char> {
    match passphrase {
        Some(p) => project_name + ":"@ + agent_id + ":"@ + p,
        None => project_name + ":"@ + agent_id,
    }
}

/// The salt material: `shipwright:<project>:<agent>`.
pub open spec fn salt_text(project_name: Seq<char>, agent_id: Seq<char>) -> Seq<char> {
    "shipwright:"@ + project_name + ":"@ + agent_id
}

/// The master key of a project on an agent.
pub open spec fn master_key(project_name: Seq<char>, agent_id: Seq<char>, passphrase: Option<Seq<char>>) -> Seq<u8> {
    pbkdf2_hmac_sha256(
        encode_utf8(password_text(project_name, agent_id, passphrase)),
        sha256(encode_utf8(salt_text(project_name, agent_id))).subrange(0, SALT_SIZE as int),
        PBKDF2_ITERATIONS,
        KEY_SIZE as nat,
    )
}

/// Derives the master key of a project; always succeeds.
pub fn derive_master_key(project_name: &str, agent_id: &str, passphrase: Option<&str>) -> (r: Result<Vec<u8>, CryptoError>)
    ensures
        r matches Ok(k) && k@ == master_key(project_name@, agent_id@, match passphrase {
            Some(p) => Some(p@),
            None => None,
        }),
        r matches Ok(k) && k@.len() == KEY_SIZE,
{
    let mut password = String::from_str(project_name);
    password.append(":");
    password.append(agent_id);
    match passphrase {
        Some(p) => {
            password.append(":");
            password.append(p);
        },
        None => {},
    }
    let mut salt_material = String::from_str("shipwright:");
    salt_material.append(project_name);
    salt_material.append(":");
    salt_material.append(agent_id);

    let hash = sha256_digest(salt_material.as_str().as_bytes());
    let mut salt: Vec<u8> = Vec::new();
    let mut i: usize = 0;
    while i < SALT_SIZE
        invariant
            i <= SALT_SIZE,
            hash@.len() == 32,
            salt@ == hash@.subrange(0, i as int),
        decreases SALT_SIZE - i,
    {
        salt.push(hash[i]);
        i = i + 1;
        assert(salt@ =~= hash@.subrange(0, i as int));
    }
    let key = pbkdf2_sha256_32(password.as_str().as_bytes(), salt.as_slice(), PBKDF2_ITERATIONS);
    Ok(key)
}

/// Encrypts a secret under a master key with a fresh random nonce.
pub fn encrypt_secret(value: &str, master_key: &[u8]) -> (r: Result<EncryptedValue, CryptoError>)
    ensures
        master_key@.len() != KEY_SIZE ==> r == Err::<EncryptedValue, CryptoError>(
            CryptoError::InvalidKeySize { expected: KEY_SIZE, got: master_key@.len() as usize },
        ),
        master_key@.len() == KEY_SIZE && encode_utf8(value@).len() > AES_GCM_P_MAX ==> r
            == Err::<EncryptedValue, CryptoError>(CryptoError::EncryptionFailed),
        master_key@.len() == KEY_SIZE && encode_utf8(value@).len() <= AES_GCM_P_MAX ==> (r matches Ok(e)
            && e.nonce@.len() == NONCE_SIZE && e.ciphertext@ == aes256_gcm_seal(master_key@, e.nonce@, encode_utf8(value@))),
{
    if master_key.len() != KEY_SIZE {
        return Err(CryptoError::InvalidKeySize { expected: KEY_SIZE, got: master_key.len() });
    }
    let nonce = random_nonce();
    match aes256_gcm_encrypt(master_key, nonce.as_slice(), value.as_bytes()) {
        Some(ciphertext) => Ok(EncryptedValue { ciphertext, nonce }),
        None => Err(CryptoError::EncryptionFailed),
    }
}

/// Decrypts a secret; a ciphertext that `encrypt_secret` produced for `v`
/// under the same key decrypts to `v`.
pub fn decrypt_secret(encrypted: &EncryptedValue, master_key: &[u8]) -> (r: Result<String, CryptoError>)
    ensures
        master_key@.len() != KEY_SIZE ==> r == Err::<String, CryptoError>(
            CryptoError::InvalidKeySize { expected: KEY_SIZE, got: master_key@.len() as usize },
        ),
        master_key@.len() == KEY_SIZE && encrypted.nonce@.len() != NONCE_SIZE ==> r == Err::<String, CryptoError>(
            CryptoError::InvalidNonceSize { expected: NONCE_SIZE, got: encrypted.nonce@.len() as usize },
        ),
        master_key@.len() == KEY_SIZE && encrypted.nonce@.len() == NONCE_SIZE ==> match aes256_gcm_open(
            master_key@,
            encrypted.nonce@,
            encrypted.ciphertext@,
        ) {
            None => r == Err::<String, CryptoError>(CryptoError::DecryptionFailed),
            Some(p) => if valid_utf8(p) {
                r matches Ok(s) && s@ == decode_utf8(p)
            } else {
                r == Err::<String, CryptoError>(CryptoError::InvalidUtf8)
            },
        },
        // what was sealed is what is opened
        forall|v: Seq<char>|
            master_key@.len() == KEY_SIZE && encrypted.nonce@.len() == NONCE_SIZE && encode_utf8(v).len()
                <= AES_GCM_P_MAX && encrypted.ciphertext@ == #[trigger] aes256_gcm_seal(
                master_key@,
                encrypted.nonce@,
                encode_utf8(v),
            ) ==> (r matches Ok(s) && s@ == v),
{
    if master_key.len() != KEY_SIZE {
        return Err(CryptoError::InvalidKeySize { expected: KEY_SIZE, got: master_key.len() });
    }
    if encrypted.nonce.len() != NONCE_SIZE {
        return Err(CryptoError::InvalidNonceSize { expected: NONCE_SIZE, got: encrypted.nonce.len() });
    }
    let opened = aes256_gcm_decrypt(master_key, encrypted.nonce.as_slice(), encrypted.ciphertext.as_slice());
    proof {
        broadcast use encode_utf8_valid_utf8, encode_utf8_decode_utf8;
    }
    match opened {
        None => Err(CryptoError::DecryptionFailed),
        Some(plain) => match string_from_utf8(plain) {
            Some(s) => Ok(s),
            None => Err(CryptoError::InvalidUtf8),
        },
    }
}

/// The message of a crypto error (as the errors of the aead crate print,
/// `Error`).
pub open spec fn error_text(e: CryptoError) -> Seq<char> {
    match e {
        CryptoError::InvalidKeySize { expected, got } => "Invalid key size: expected "@ + crate::text::decimal(
            expected as nat,
        ) + ", got "@ + crate::text::decimal(got as nat),
        CryptoError::InvalidNonceSize { expected, got } => "Invalid nonce size: expected "@ + crate::text::decimal(
            expected as nat,
        ) + ", got "@ + crate::text::decimal(got as nat),
        CryptoError::EncryptionFailed => "Failed to encrypt secret: Error"@,
        CryptoError::DecryptionFailed => "Failed to decrypt secret (wrong key or corrupted data): Error"@,
        CryptoError::InvalidUtf8 => "Decrypted data is not valid UTF-8"@,
    }
}

impl CryptoError {
    /// A human-readable description of the error.
    pub fn message(&self) -> (r: String)
        ensures
            r@ == error_text(*self),
    {
        match self {
            CryptoError::InvalidKeySize { expected, got } => {
                let mut m = String::from_str("Invalid key size: expected ");
                push_decimal(&mut m, *expected as u64);
                m.append(", got ");
                push_decimal(&mut m, *got as u64);
                m
            },
            CryptoError::InvalidNonceSize { expected, got } => {
                let mut m = String::from_str("Invalid nonce size: expected ");
                push_decimal(&mut m, *expected as u64);
                m.append(", got ");
                push_decimal(&mut m, *got as u64);
                m
            },
            CryptoError::EncryptionFailed => String::from_str("Failed to encrypt secret: Error"),
            CryptoError::DecryptionFailed => String::from_str(
                "Failed to decrypt secret (wrong key or corrupted data): Error",
            ),
            CryptoError::InvalidUtf8 => String::from_str("Decrypted data is not valid UTF-8"),
        }
    }
}

} // verus!
