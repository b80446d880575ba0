use hermod::cipher::{CipherError, Encrypt, KEY_ITERATIONS};

use openssl::asn1::Asn1Time;
use openssl::hash::MessageDigest;
use openssl::pkey::{PKey, Private};
use openssl::rsa::Rsa;
use openssl::x509::{X509, X509NameBuilder};

#[test]
fn hash_matches_the_published_sha256_vector() {
    let digest = Encrypt::hash("abc").unwrap();
    let expected: [u8; 32] = [
        0xba, 0x78, 0x16, 0xbf, 0x8f, 0x01, 0xcf, 0xea, 0x41, 0x41, 0x40, 0xde, 0x5d, 0xae, 0x22,
        0x23, 0xb0, 0x03, 0x61, 0xa3, 0x96, 0x17, 0x7a, 0x9c, 0xb4, 0x10, 0xff, 0x61, 0xf2, 0x00,
        0x15, 0xad,
    ];
    assert_eq!(digest, expected.to_vec());
}

#[test]
fn hash_differs_between_words() {
    let a = Encrypt::hash("hunter22").unwrap();
    let b = Encrypt::hash("hunter23").unwrap();
    assert_eq!(a.len(), 32);
    assert_ne!(a, b);
}

#[test]
fn derive_key_is_deterministic() {
    let k1 = Encrypt::derive_key_from_password("hunter22", KEY_ITERATIONS).unwrap();
    let k2 = Encrypt::derive_key_from_password("hunter22", KEY_ITERATIONS).unwrap();
    assert_eq!(k1, k2);
    assert_eq!(k1.len(), 32);
    assert_ne!(k1, b"hunter22".to_vec());
}

#[test]
fn derive_key_differs_between_passwords() {
    let k1 = Encrypt::derive_key_from_password("hunter22", 1000).unwrap();
    let k2 = Encrypt::derive_key_from_password("hunter23", 1000).unwrap();
    assert_ne!(k1, k2);
}

#[test]
fn derive_key_differs_between_iteration_counts() {
    let k1 = Encrypt::derive_key_from_password("hunter22", 1000).unwrap();
    let k2 = Encrypt::derive_key_from_password("hunter22", 1001).unwrap();
    assert_ne!(k1, k2);
}

#[test]
fn decrypt_inverts_encrypt() {
    let key = Encrypt::derive_key_from_password("hunter22", 1000).unwrap();
    let message = b"attack at dawn".to_vec();
    let ciphertext = Encrypt::encrypt_message(&message, &key).unwrap();
    assert_ne!(ciphertext, message);
    let plaintext = Encrypt::decrypt_message(&ciphertext, &key).unwrap();
    assert_eq!(plaintext, message);
}

#[test]
fn ciphertext_length_is_rounded_up_to_whole_blocks() {
    let key = Encrypt::derive_key_from_password("k", 1000).unwrap();
    for len in [0usize, 1, 15, 16, 17, 31, 32, 100] {
        let message = vec![0x42u8; len];
        let ciphertext = Encrypt::encrypt_message(&message, &key).unwrap();
        assert_eq!(ciphertext.len(), (len / 16 + 1) * 16);
    }
}

#[test]
fn decrypt_with_the_wrong_key_does_not_give_the_message() {
    let k1 = Encrypt::derive_key_from_password("hunter22", 1000).unwrap();
    let k2 = Encrypt::derive_key_from_password("hunter23", 1000).unwrap();
    let message = b"attack at dawn".to_vec();
    let ciphertext = Encrypt::encrypt_message(&message, &k1).unwrap();
    match Encrypt::decrypt_message(&ciphertext, &k2) {
        Ok(other) => assert_ne!(other, message),
        Err(e) => assert_eq!(e, CipherError::Failure),
    }
}

/// Builds a self-signed certificate, optionally signed by another pair's key
/// in which case that pair's certificate names the issuer.
fn make_cert(name: &str, signer: Option<(&X509, &PKey<Private>)>) -> (X509, PKey<Private>) {
    let rsa = Rsa::generate(2048).unwrap();
    let key_pair = PKey::from_rsa(rsa).unwrap();

    let mut x509_name = X509NameBuilder::new().unwrap();
    x509_name.append_entry_by_text("CN", name).unwrap();
    let x509_name = x509_name.build();

    let mut builder = X509::builder().unwrap();
    builder.set_version(2).unwrap();
    builder.set_subject_name(&x509_name).unwrap();
    builder.set_pubkey(&key_pair).unwrap();
    let not_before = Asn1Time::days_from_now(0).unwrap();
    builder.set_not_before(&not_before).unwrap();
    let not_after = Asn1Time::days_from_now(365).unwrap();
    builder.set_not_after(&not_after).unwrap();
    match signer {
        Some((issuer_cert, issuer_key)) => {
            builder
                .set_issuer_name(issuer_cert.subject_name())
                .unwrap();
            builder.sign(issuer_key, MessageDigest::sha256()).unwrap();
        }
        None => {
            builder.set_issuer_name(&x509_name).unwrap();
            builder.sign(&key_pair, MessageDigest::sha256()).unwrap();
        }
    }
    (builder.build(), key_pair)
}

#[test]
fn signature_check_accepts_a_certificate_signed_by_the_issuer() {
    let (ca, ca_key) = make_cert("issuer", None);
    let (peer, _peer_key) = make_cert("peer", Some((&ca, &ca_key)));
    let ca_pem = ca.to_pem().unwrap();
    let peer_pem = peer.to_pem().unwrap();
    assert_eq!(
        Encrypt::certificate_check_signature(&ca_pem, &peer_pem),
        Ok(true)
    );
}

#[test]
fn signature_check_rejects_a_certificate_from_another_issuer() {
    let (ca, _ca_key) = make_cert("issuer", None);
    let (stranger, _stranger_key) = make_cert("stranger", None);
    let ca_pem = ca.to_pem().unwrap();
    let stranger_pem = stranger.to_pem().unwrap();
    assert_eq!(
        Encrypt::certificate_check_signature(&ca_pem, &stranger_pem),
        Ok(false)
    );
}

#[test]
fn signature_check_fails_on_bytes_that_are_no_certificate() {
    let (ca, _) = make_cert("issuer", None);
    let ca_pem = ca.to_pem().unwrap();
    assert!(Encrypt::certificate_check_signature(&ca_pem, &b"junk".to_vec()).is_err());
    assert!(Encrypt::certificate_check_signature(&b"junk".to_vec(), &ca_pem).is_err());
}

#[test]
fn certificate_parses_tells_pem_from_junk() {
    let (ca, _) = make_cert("issuer", None);
    let ca_pem = ca.to_pem().unwrap();
    assert!(Encrypt::certificate_parses(&ca_pem));
    assert!(!Encrypt::certificate_parses(b"junk"));
}
