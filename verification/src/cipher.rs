use vstd::prelude::*;

use crate::envelope::{ascii_seq, str_to_ascii_bytes};
use vstd::string::StringSliceAdditionalSpecFns;

verus! {

// The cipher service: one-way hashing for password verification,
// key-stretching for the session key, symmetric encryption of message
// bodies, and the certificate-signature check.  The cryptographic
// primitives come from the openssl crate; each stands behind one trusted
// function whose result is named, so everything around the calls is
// verified against those names.

/// A key-derivation or cipher-initialization failure.  Treated as
/// unrecoverable: callers never retry it.
#[derive(Clone, Copy, Debug, PartialEq, Eq, Structural)]
pub enum CipherError {
    Failure,
}

/// The SHA-256 digest of a byte string: 32 bytes, a function of the input
/// alone.
pub uninterp spec fn sha256_of(data: Seq<u8>) -> Seq<u8>;

/// The PBKDF2-HMAC-SHA256 key of `key_len` bytes stretched from a password
/// and salt over `iterations` rounds: a function of the arguments alone, so
/// two peers that share a secret derive identical keys independently.
pub uninterp spec fn pbkdf2_key(
    password: Seq<u8>,
    salt: Seq<u8>,
    iterations: int,
    key_len: int,
) -> Seq<u8>;

/// The AES-256-CBC encryption of a message, PKCS#7-padded, under a 32-byte
/// key and 16-byte initialization vector.
pub uninterp spec fn aes256_enc(key: Seq<u8>, iv: Seq<u8>, message: Seq<u8>) -> Seq<u8>;

/// The AES-256-CBC decryption of a byte string under a 32-byte key and
/// 16-byte initialization vector: the unpadded plaintext, or nothing when
/// the bytes do not decrypt to validly padded data.
pub uninterp spec fn aes256_dec(key: Seq<u8>, iv: Seq<u8>, data: Seq<u8>) -> Option<Seq<u8>>;

/// Whether a byte string is a PEM-encoded X.509 certificate.
pub uninterp spec fn x509_pem_ok(pem: Seq<u8>) -> bool;

/// Whether the certificate in `candidate` carries a signature made by the
/// key of the certificate in `issuer`.  Both are PEM bytes.
pub uninterp spec fn signed_by(candidate: Seq<u8>, issuer: Seq<u8>) -> bool;

/// Relies on openssl::hash::hash with SHA-256: the digest is 32 bytes and a
/// function of the input bytes alone.
#[verifier::external_body]
fn sha256_digest(data: &[u8]) -> (r: Result<Vec<u8>, CipherError>)
    ensures
        r matches Ok(v) ==> v@ == sha256_of(data@) && v@.len() == 32,
{
    match openssl::hash::hash(openssl::hash::MessageDigest::sha256(), data) {
        Ok(digest) => Ok(digest.to_vec()),
        Err(_) => Err(CipherError::Failure),
    }
}

/// Relies on openssl::pkcs5::pbkdf2_hmac with HMAC-SHA256: the stretched key
/// fills the output buffer and is a function of password, salt, iteration
/// count and output length alone.  The length bounds keep the lengths and
/// count inside the C interface's integer range, beyond which the call
/// panics.
#[verifier::external_body]
fn pbkdf2_hmac_sha256(password: &[u8], salt: &[u8], iterations: usize, key_len: usize) -> (r:
    Result<Vec<u8>, CipherError>)
    requires
        password@.len() <= i32::MAX,
        salt@.len() <= i32::MAX,
        iterations <= i32::MAX,
        key_len <= i32::MAX,
    ensures
        r matches Ok(v) ==> v@ == pbkdf2_key(password@, salt@, iterations as int, key_len as int)
            && v@.len() == key_len,
{
    let mut key = vec![0u8; key_len];
    let digest = openssl::hash::MessageDigest::sha256();
    match openssl::pkcs5::pbkdf2_hmac(password, salt, iterations, digest, &mut key) {
        Ok(()) => Ok(key),
        Err(_) => Err(CipherError::Failure),
    }
}

/// Relies on openssl::symm::encrypt with AES-256-CBC: the ciphertext is a
/// function of key, initialization vector and message alone; PKCS#7 padding
/// rounds its length up to the next whole block; and decrypting it under the
/// same key and vector gives the message back.  The length bound keeps the
/// message inside the C interface's integer range, beyond which the call
/// panics.
#[verifier::external_body]
fn aes_256_cbc_encrypt(key: &[u8], iv: &[u8], message: &[u8]) -> (r: Result<Vec<u8>, CipherError>)
    requires
        key@.len() == 32,
        iv@.len() == 16,
        message@.len() + 16 <= i32::MAX,
    ensures
        r matches Ok(v) ==> v@ == aes256_enc(key@, iv@, message@) && v@.len() == (message@.len()
            / 16 + 1) * 16 && aes256_dec(key@, iv@, v@) == Some(message@),
{
    match openssl::symm::encrypt(openssl::symm::Cipher::aes_256_cbc(), key, Some(iv), message) {
        Ok(v) => Ok(v),
        Err(_) => Err(CipherError::Failure),
    }
}

/// Relies on openssl::symm::decrypt with AES-256-CBC: decryption is a
/// function of key, initialization vector and input bytes alone, and fails
/// exactly when the bytes do not decrypt to validly padded data.  The length
/// bound keeps the work buffer inside the C interface's integer range,
/// beyond which the call panics.
#[verifier::external_body]
fn aes_256_cbc_decrypt(key: &[u8], iv: &[u8], data: &[u8]) -> (r: Result<Vec<u8>, CipherError>)
    requires
        key@.len() == 32,
        iv@.len() == 16,
        data@.len() + 16 <= i32::MAX,
    ensures
        r matches Ok(v) ==> aes256_dec(key@, iv@, data@) == Some(v@),
        r is Err ==> aes256_dec(key@, iv@, data@) is None,
{
    match openssl::symm::decrypt(openssl::symm::Cipher::aes_256_cbc(), key, Some(iv), data) {
        Ok(v) => Ok(v),
        Err(_) => Err(CipherError::Failure),
    }
}

/// Relies on openssl::x509::X509::from_pem: whether the bytes parse as a
/// PEM-encoded certificate is a function of the bytes alone.
#[verifier::external_body]
fn x509_pem_parses(pem: &[u8]) -> (r: bool)
    ensures
        r == x509_pem_ok(pem@),
{
    openssl::x509::X509::from_pem(pem).is_ok()
}

/// The salt every key derivation uses, fixed application-wide so that both
/// peers stretch the same password to the same key.
pub open spec fn salt_chars() -> Seq<char> {
    "this_is_the_salt"@
}

/// The iteration count used for session-key stretching.
pub const KEY_ITERATIONS: usize = 10000;

/// The initialization vector of the message cipher: a fixed all-zero block,
/// shared by both peers.
pub open spec fn zero_iv() -> Seq<u8> {
    Seq::new(16, |i: int| 0u8)
}

fn make_zero_iv() -> (r: Vec<u8>)
    ensures
        r@ == zero_iv(),
{
    let mut v: Vec<u8> = Vec::new();
    let mut i: usize = 0;
    while i < 16
        invariant
            i <= 16,
            v@ =~= zero_iv().take(i as int),
        decreases 16 - i,
    {
        v.push(0u8);
        i = i + 1;
    }
    proof {
        assert(v@ =~= zero_iv());
    }
    v
}

pub struct Encrypt;

impl Encrypt {
    /// One-way digest of a word, used only for challenge comparison, never
    /// for key derivation.
    pub fn hash(word: &str) -> (r: Result<Vec<u8>, CipherError>)
        ensures
            r matches Ok(v) ==> v@ == sha256_of(word.spec_bytes()) && v@.len() == 32,
    {
        sha256_digest(word.as_bytes())
    }

    /// Stretches a password into the 32-byte session key, with the fixed
    /// application-wide salt.  Deterministic: the same password and
    /// iteration count always yield the same key.
    pub fn derive_key_from_password(password: &str, iterations: usize) -> (r: Result<
        Vec<u8>,
        CipherError,
    >)
        requires
            password.spec_bytes().len() <= i32::MAX,
            iterations <= i32::MAX,
        ensures
            r matches Ok(v) ==> v@ == pbkdf2_key(
                password.spec_bytes(),
                ascii_seq(salt_chars()),
                iterations as int,
                32,
            ) && v@.len() == 32,
    {
        proof {
            reveal_strlit("this_is_the_salt");
        }
        let salt = str_to_ascii_bytes("this_is_the_salt");
        pbkdf2_hmac_sha256(password.as_bytes(), salt.as_slice(), iterations, 32)
    }

    /// Encrypts a message body under the session key.  The ciphertext's
    /// length is the message length rounded up to the cipher's block size,
    /// and decrypting it under the same key gives the message back.
    pub fn encrypt_message(message: &[u8], key: &[u8]) -> (r: Result<Vec<u8>, CipherError>)
        requires
            key@.len() == 32,
            message@.len() + 16 <= i32::MAX,
        ensures
            r matches Ok(v) ==> v@ == aes256_enc(key@, zero_iv(), message@) && v@.len() == (
            message@.len() / 16 + 1) * 16 && aes256_dec(key@, zero_iv(), v@) == Some(message@),
    {
        let iv = make_zero_iv();
        aes_256_cbc_encrypt(key, iv.as_slice(), message)
    }

    /// Decrypts a message body under the session key.  Succeeds exactly on
    /// bytes that decrypt to validly padded data; in particular, for every
    /// message, decrypting its encryption under the same key returns the
    /// message.
    pub fn decrypt_message(ciphertext: &[u8], key: &[u8]) -> (r: Result<Vec<u8>, CipherError>)
        requires
            key@.len() == 32,
            ciphertext@.len() + 16 <= i32::MAX,
        ensures
            r matches Ok(v) ==> aes256_dec(key@, zero_iv(), ciphertext@) == Some(v@),
            r is Err ==> aes256_dec(key@, zero_iv(), ciphertext@) is None,
            forall|m: Seq<u8>|
                ciphertext@ == aes256_enc(key@, zero_iv(), m) && aes256_dec(
                    key@,
                    zero_iv(),
                    ciphertext@,
                ) == Some(m) ==> (r matches Ok(v) && v@ == m),
    {
        let iv = make_zero_iv();
        aes_256_cbc_decrypt(key, iv.as_slice(), ciphertext)
    }

    /// Whether the bytes are a PEM-encoded certificate.
    pub fn certificate_parses(pem: &[u8]) -> (r: bool)
        ensures
            r == x509_pem_ok(pem@),
    {
        x509_pem_parses(pem)
    }

    /// Relies on openssl's X509::from_pem, X509::public_key and X509::verify:
    /// whether the candidate certificate was signed by the issuer
    /// certificate's key is a function of the two PEM inputs alone, and the
    /// check fails when either input is not a PEM-encoded certificate.
    #[verifier::external_body]
    pub fn certificate_check_signature(issuer_cert_pem: &[u8], candidate_cert_pem: &[u8]) -> (r:
        Result<bool, CipherError>)
        ensures
            r matches Ok(b) ==> x509_pem_ok(issuer_cert_pem@) && x509_pem_ok(candidate_cert_pem@)
                && b == signed_by(candidate_cert_pem@, issuer_cert_pem@),
            !x509_pem_ok(issuer_cert_pem@) || !x509_pem_ok(candidate_cert_pem@) ==> r is Err,
    {
        let issuer = openssl::x509::X509::from_pem(issuer_cert_pem);
        let candidate = openssl::x509::X509::from_pem(candidate_cert_pem);
        match (issuer, candidate) {
            (Ok(i), Ok(c)) => match i.public_key() {
                Ok(key) => c.verify(&key).map_err(|_| CipherError::Failure),
                Err(_) => Err(CipherError::Failure),
            },
            _ => Err(CipherError::Failure),
        }
    }
}

/// Key stretching is deterministic: any two successful results of
/// `derive_key_from_password`, for one password and iteration count, are the
/// same 32-byte key.  This is what lets both peers derive identical session
/// keys from a shared secret they never transmit.  The hypotheses are what
/// that function's contract gives its caller; success itself is not owed,
/// since the cipher library may fail.
pub proof fn lemma_derive_key_deterministic(
    r1: Result<Vec<u8>, CipherError>,
    r2: Result<Vec<u8>, CipherError>,
    password: Seq<u8>,
    iterations: int,
)
    requires
        match r1 {
            Ok(v) => v@ == pbkdf2_key(password, ascii_seq(salt_chars()), iterations, 32)
                && v@.len() == 32,
            Err(_) => true,
        },
        match r2 {
            Ok(v) => v@ == pbkdf2_key(password, ascii_seq(salt_chars()), iterations, 32)
                && v@.len() == 32,
            Err(_) => true,
        },
    ensures
        match (r1, r2) {
            (Ok(v1), Ok(v2)) => v1@ == v2@ && v1@.len() == 32,
            _ => true,
        },
{
}

/// Decryption inverts encryption: whenever `encrypt_message` produced a
/// ciphertext for a message under a key, `decrypt_message` on that
/// ciphertext under the same key succeeds and returns the message exactly,
/// the cipher's own padding removed.  The hypotheses are what the two
/// functions' contracts give their caller.
pub proof fn lemma_decrypt_inverts_encrypt(
    enc: Result<Vec<u8>, CipherError>,
    dec: Result<Vec<u8>, CipherError>,
    key: Seq<u8>,
    message: Seq<u8>,
)
    requires
        match enc {
            Ok(c) => c@ == aes256_enc(key, zero_iv(), message) && aes256_dec(key, zero_iv(), c@)
                == Some(message),
            Err(_) => true,
        },
        match (enc, dec) {
            (Ok(c), Ok(v)) => aes256_dec(key, zero_iv(), c@) == Some(v@),
            (Ok(c), Err(_)) => aes256_dec(key, zero_iv(), c@) is None,
            _ => true,
        },
    ensures
        match (enc, dec) {
            (Ok(_), Ok(v)) => v@ == message,
            (Ok(_), Err(_)) => false,
            _ => true,
        },
{
}

} // verus!
