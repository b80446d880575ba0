use vstd::prelude::*;

verus! {

// The control envelope carried in every frame.  The envelope's tag and
// sub-state tell the receiver how the frame's payload bytes are to be read.
//
// On the wire an envelope is a fixed, self-describing text: an outer key
// names the variant and, for the certificate and password variants, an inner
// field names the sub-state.  The sub-state label "Submition" is a fixed
// protocol token and must be matched literally by a peer.

#[derive(Clone, Copy, Debug, PartialEq, Eq, Structural)]
pub enum PasswordState {
    Submition,
    Correct,
    Incorrect,
    Failed,
}

#[derive(Clone, Copy, Debug, PartialEq, Eq, Structural)]
pub enum CertificateState {
    Submition,
    Correct,
    Incorrect,
}

#[derive(Clone, Copy, Debug, PartialEq, Eq, Structural)]
pub struct CommunicationText {}

#[derive(Clone, Copy, Debug, PartialEq, Eq, Structural)]
pub struct CommunicationFile {}

#[derive(Clone, Copy, Debug, PartialEq, Eq, Structural)]
pub struct CommunicationCertificate {
    pub certificate_state: CertificateState,
}

#[derive(Clone, Copy, Debug, PartialEq, Eq, Structural)]
pub struct CommunicationPassword {
    pub password_state: PasswordState,
}

#[derive(Clone, Copy, Debug, PartialEq, Eq, Structural)]
pub enum Communication {
    CommunicationText(CommunicationText),
    CommunicationCertificate(CommunicationCertificate),
    CommunicationFile(CommunicationFile),
    CommunicationPassword(CommunicationPassword),
}

/// An envelope whose bytes are not one of the recognized encodings.
#[derive(Clone, Copy, Debug, PartialEq, Eq, Structural)]
pub enum DecodeError {
    UnknownEnvelope,
}

/// The bytes of an ASCII text: one byte for each character.
pub open spec fn ascii_seq(s: Seq<char>) -> Seq<u8> {
    Seq::new(s.len(), |i: int| s[i] as u8)
}

pub open spec fn text_chars() -> Seq<char> {
    "{\"CommunicationText\":{}}"@
}

pub open spec fn file_chars() -> Seq<char> {
    "{\"CommunicationFile\":{}}"@
}

pub open spec fn certificate_chars(s: CertificateState) -> Seq<char> {
    match s {
        CertificateState::Submition => "{\"CommunicationCertificate\":{\"certificate_state\":\"Submition\"}}"@,
        CertificateState::Correct => "{\"CommunicationCertificate\":{\"certificate_state\":\"Correct\"}}"@,
        CertificateState::Incorrect => "{\"CommunicationCertificate\":{\"certificate_state\":\"Incorrect\"}}"@,
    }
}

pub open spec fn password_chars(s: PasswordState) -> Seq<char> {
    match s {
        PasswordState::Submition => "{\"CommunicationPassword\":{\"password_state\":\"Submition\"}}"@,
        PasswordState::Correct => "{\"CommunicationPassword\":{\"password_state\":\"Correct\"}}"@,
        PasswordState::Incorrect => "{\"CommunicationPassword\":{\"password_state\":\"Incorrect\"}}"@,
        PasswordState::Failed => "{\"CommunicationPassword\":{\"password_state\":\"Failed\"}}"@,
    }
}

/// What `encode` returns: the canonical textual form of an envelope, as bytes.
pub open spec fn encode_spec(c: Communication) -> Seq<u8> {
    match c {
        Communication::CommunicationText(_) => ascii_seq(text_chars()),
        Communication::CommunicationFile(_) => ascii_seq(file_chars()),
        Communication::CommunicationCertificate(cc) => ascii_seq(
            certificate_chars(cc.certificate_state),
        ),
        Communication::CommunicationPassword(cp) => ascii_seq(password_chars(cp.password_state)),
    }
}

/// What `decode` returns: the envelope whose canonical encoding the bytes
/// are, or an error when they are no such encoding.
pub open spec fn decode_spec(b: Seq<u8>) -> Result<Communication, DecodeError> {
    if b == ascii_seq(text_chars()) {
        Ok(
            Communication::CommunicationText(CommunicationText {  }),
        )
    } else if b == ascii_seq(file_chars()) {
        Ok(
            Communication::CommunicationFile(CommunicationFile {  }),
        )
    } else if b == ascii_seq(certificate_chars(CertificateState::Submition)) {
        Ok(
            Communication::CommunicationCertificate(
                CommunicationCertificate { certificate_state: CertificateState::Submition },
            ),
        )
    } else if b == ascii_seq(certificate_chars(CertificateState::Correct)) {
        Ok(
            Communication::CommunicationCertificate(
                CommunicationCertificate { certificate_state: CertificateState::Correct },
            ),
        )
    } else if b == ascii_seq(certificate_chars(CertificateState::Incorrect)) {
        Ok(
            Communication::CommunicationCertificate(
                CommunicationCertificate { certificate_state: CertificateState::Incorrect },
            ),
        )
    } else if b == ascii_seq(password_chars(PasswordState::Submition)) {
        Ok(
            Communication::CommunicationPassword(
                CommunicationPassword { password_state: PasswordState::Submition },
            ),
        )
    } else if b == ascii_seq(password_chars(PasswordState::Correct)) {
        Ok(
            Communication::CommunicationPassword(
                CommunicationPassword { password_state: PasswordState::Correct },
            ),
        )
    } else if b == ascii_seq(password_chars(PasswordState::Incorrect)) {
        Ok(
            Communication::CommunicationPassword(
                CommunicationPassword { password_state: PasswordState::Incorrect },
            ),
        )
    } else if b == ascii_seq(password_chars(PasswordState::Failed)) {
        Ok(
            Communication::CommunicationPassword(
                CommunicationPassword { password_state: PasswordState::Failed },
            ),
        )
    } else {
        Err(DecodeError::UnknownEnvelope)
    }
}

/// The bytes of an ASCII string slice.
pub fn str_to_ascii_bytes(s: &str) -> (r: Vec<u8>)
    requires
        vstd::string::is_ascii(s),
    ensures
        r@ == ascii_seq(s@),
{
    proof {
        broadcast use vstd::string::is_ascii_spec_bytes;

    }
    let r = s.as_bytes_vec();
    proof {
        assert(r@ =~= ascii_seq(s@));
    }
    r
}

/// Whether two byte vectors hold the same bytes.
pub fn bytes_eq(a: &Vec<u8>, b: &Vec<u8>) -> (r: bool)
    ensures
        r == (a@ == b@),
{
    if a.len() != b.len() {
        return false;
    }
    let n = a.len();
    let mut i: usize = 0;
    while i < n
        invariant
            n == a@.len() == b@.len(),
            i <= n,
            forall|j: int| 0 <= j < i ==> a@[j] == b@[j],
        decreases n - i,
    {
        if a[i] != b[i] {
            return false;
        }
        i = i + 1;
    }
    proof {
        assert(a@ =~= b@);
    }
    true
}

/// Serializes an envelope to its canonical textual form.  The encoding is
/// deterministic and self-describing, so a peer can reconstruct the exact
/// variant and sub-state.
pub fn encode(c: &Communication) -> (r: Vec<u8>)
    ensures
        r@ == encode_spec(*c),
{
    proof {
        reveal_strlit("{\"CommunicationText\":{}}");
        reveal_strlit("{\"CommunicationFile\":{}}");
        reveal_strlit("{\"CommunicationCertificate\":{\"certificate_state\":\"Submition\"}}");
        reveal_strlit("{\"CommunicationCertificate\":{\"certificate_state\":\"Correct\"}}");
        reveal_strlit("{\"CommunicationCertificate\":{\"certificate_state\":\"Incorrect\"}}");
        reveal_strlit("{\"CommunicationPassword\":{\"password_state\":\"Submition\"}}");
        reveal_strlit("{\"CommunicationPassword\":{\"password_state\":\"Correct\"}}");
        reveal_strlit("{\"CommunicationPassword\":{\"password_state\":\"Incorrect\"}}");
        reveal_strlit("{\"CommunicationPassword\":{\"password_state\":\"Failed\"}}");
    }
    match c {
        Communication::CommunicationText(_) => str_to_ascii_bytes("{\"CommunicationText\":{}}"),
        Communication::CommunicationFile(_) => str_to_ascii_bytes("{\"CommunicationFile\":{}}"),
        Communication::CommunicationCertificate(cc) => match cc.certificate_state {
            CertificateState::Submition => str_to_ascii_bytes(
                "{\"CommunicationCertificate\":{\"certificate_state\":\"Submition\"}}",
            ),
            CertificateState::Correct => str_to_ascii_bytes(
                "{\"CommunicationCertificate\":{\"certificate_state\":\"Correct\"}}",
            ),
            CertificateState::Incorrect => str_to_ascii_bytes(
                "{\"CommunicationCertificate\":{\"certificate_state\":\"Incorrect\"}}",
            ),
        },
        Communication::CommunicationPassword(cp) => match cp.password_state {
            PasswordState::Submition => str_to_ascii_bytes(
                "{\"CommunicationPassword\":{\"password_state\":\"Submition\"}}",
            ),
            PasswordState::Correct => str_to_ascii_bytes(
                "{\"CommunicationPassword\":{\"password_state\":\"Correct\"}}",
            ),
            PasswordState::Incorrect => str_to_ascii_bytes(
                "{\"CommunicationPassword\":{\"password_state\":\"Incorrect\"}}",
            ),
            PasswordState::Failed => str_to_ascii_bytes(
                "{\"CommunicationPassword\":{\"password_state\":\"Failed\"}}",
            ),
        },
    }
}

/// Deserializes an envelope from its canonical textual form.  Bytes that are
/// not a recognized encoding fail with a `DecodeError` and never panic.
pub fn decode(bytes: &Vec<u8>) -> (r: Result<Communication, DecodeError>)
    ensures
        r == decode_spec(bytes@),
{
    proof {
        reveal_strlit("{\"CommunicationText\":{}}");
        reveal_strlit("{\"CommunicationFile\":{}}");
        reveal_strlit("{\"CommunicationCertificate\":{\"certificate_state\":\"Submition\"}}");
        reveal_strlit("{\"CommunicationCertificate\":{\"certificate_state\":\"Correct\"}}");
        reveal_strlit("{\"CommunicationCertificate\":{\"certificate_state\":\"Incorrect\"}}");
        reveal_strlit("{\"CommunicationPassword\":{\"password_state\":\"Submition\"}}");
        reveal_strlit("{\"CommunicationPassword\":{\"password_state\":\"Correct\"}}");
        reveal_strlit("{\"CommunicationPassword\":{\"password_state\":\"Incorrect\"}}");
        reveal_strlit("{\"CommunicationPassword\":{\"password_state\":\"Failed\"}}");
    }
    if bytes_eq(bytes, &str_to_ascii_bytes("{\"CommunicationText\":{}}")) {
        Ok(Communication::CommunicationText(CommunicationText {  }))
    } else if bytes_eq(bytes, &str_to_ascii_bytes("{\"CommunicationFile\":{}}")) {
        Ok(Communication::CommunicationFile(CommunicationFile {  }))
    } else if bytes_eq(
        bytes,
        &str_to_ascii_bytes("{\"CommunicationCertificate\":{\"certificate_state\":\"Submition\"}}"),
    ) {
        Ok(
            Communication::CommunicationCertificate(
                CommunicationCertificate { certificate_state: CertificateState::Submition },
            ),
        )
    } else if bytes_eq(
        bytes,
        &str_to_ascii_bytes("{\"CommunicationCertificate\":{\"certificate_state\":\"Correct\"}}"),
    ) {
        Ok(
            Communication::CommunicationCertificate(
                CommunicationCertificate { certificate_state: CertificateState::Correct },
            ),
        )
    } else if bytes_eq(
        bytes,
        &str_to_ascii_bytes("{\"CommunicationCertificate\":{\"certificate_state\":\"Incorrect\"}}"),
    ) {
        Ok(
            Communication::CommunicationCertificate(
                CommunicationCertificate { certificate_state: CertificateState::Incorrect },
            ),
        )
    } else if bytes_eq(
        bytes,
        &str_to_ascii_bytes("{\"CommunicationPassword\":{\"password_state\":\"Submition\"}}"),
    ) {
        Ok(
            Communication::CommunicationPassword(
                CommunicationPassword { password_state: PasswordState::Submition },
            ),
        )
    } else if bytes_eq(
        bytes,
        &str_to_ascii_bytes("{\"CommunicationPassword\":{\"password_state\":\"Correct\"}}"),
    ) {
        Ok(
            Communication::CommunicationPassword(
                CommunicationPassword { password_state: PasswordState::Correct },
            ),
        )
    } else if bytes_eq(
        bytes,
        &str_to_ascii_bytes("{\"CommunicationPassword\":{\"password_state\":\"Incorrect\"}}"),
    ) {
        Ok(
            Communication::CommunicationPassword(
                CommunicationPassword { password_state: PasswordState::Incorrect },
            ),
        )
    } else if bytes_eq(
        bytes,
        &str_to_ascii_bytes("{\"CommunicationPassword\":{\"password_state\":\"Failed\"}}"),
    ) {
        Ok(
            Communication::CommunicationPassword(
                CommunicationPassword { password_state: PasswordState::Failed },
            ),
        )
    } else {
        Err(DecodeError::UnknownEnvelope)
    }
}

/// No two envelopes share an encoding: every pair of distinct canonical
/// texts differs at a known position.
pub proof fn lemma_encodings_distinct(a: Communication, b: Communication)
    ensures
        a != b ==> encode_spec(a) != encode_spec(b),
{
    reveal_strlit("{\"CommunicationText\":{}}");
    reveal_strlit("{\"CommunicationFile\":{}}");
    reveal_strlit("{\"CommunicationCertificate\":{\"certificate_state\":\"Submition\"}}");
    reveal_strlit("{\"CommunicationCertificate\":{\"certificate_state\":\"Correct\"}}");
    reveal_strlit("{\"CommunicationCertificate\":{\"certificate_state\":\"Incorrect\"}}");
    reveal_strlit("{\"CommunicationPassword\":{\"password_state\":\"Submition\"}}");
    reveal_strlit("{\"CommunicationPassword\":{\"password_state\":\"Correct\"}}");
    reveal_strlit("{\"CommunicationPassword\":{\"password_state\":\"Incorrect\"}}");
    reveal_strlit("{\"CommunicationPassword\":{\"password_state\":\"Failed\"}}");
    if a != b && encode_spec(a) == encode_spec(b) {
        // The variant tag is decided by the character after `{"Communication`,
        // the sub-state by its first character.
        assert(encode_spec(a)[15] == encode_spec(b)[15]);
        assert(encode_spec(a).len() == encode_spec(b).len());
        if encode_spec(a).len() > 44 {
            assert(encode_spec(a)[44] == encode_spec(b)[44]);
        }
        if encode_spec(a).len() > 50 {
            assert(encode_spec(a)[50] == encode_spec(b)[50]);
        }
    }
}

/// Decoding inverts encoding: every envelope round-trips through its
/// canonical textual form.
pub proof fn lemma_decode_encode(c: Communication)
    ensures
        decode_spec(encode_spec(c)) == Ok::<Communication, DecodeError>(c),
{
    reveal_strlit("{\"CommunicationText\":{}}");
    reveal_strlit("{\"CommunicationFile\":{}}");
    reveal_strlit("{\"CommunicationCertificate\":{\"certificate_state\":\"Submition\"}}");
    reveal_strlit("{\"CommunicationCertificate\":{\"certificate_state\":\"Correct\"}}");
    reveal_strlit("{\"CommunicationCertificate\":{\"certificate_state\":\"Incorrect\"}}");
    reveal_strlit("{\"CommunicationPassword\":{\"password_state\":\"Submition\"}}");
    reveal_strlit("{\"CommunicationPassword\":{\"password_state\":\"Correct\"}}");
    reveal_strlit("{\"CommunicationPassword\":{\"password_state\":\"Incorrect\"}}");
    reveal_strlit("{\"CommunicationPassword\":{\"password_state\":\"Failed\"}}");
    let candidates: Seq<Communication> = all_envelopes();
    assert forall|i: int| 0 <= i < candidates.len() && candidates[i] != c implies encode_spec(
        candidates[i],
    ) != encode_spec(c) by {
        lemma_encodings_distinct(candidates[i], c);
    }
    assert(encode_spec(candidates[0]) == ascii_seq(text_chars()));
    assert(decode_spec(encode_spec(c)) == Ok::<Communication, DecodeError>(c));
}

/// Every envelope value, in the order the decoder tries them.
pub open spec fn all_envelopes() -> Seq<Communication> {
    seq![
        Communication::CommunicationText(CommunicationText {  }),
        Communication::CommunicationFile(CommunicationFile {  }),
        Communication::CommunicationCertificate(
            CommunicationCertificate { certificate_state: CertificateState::Submition },
        ),
        Communication::CommunicationCertificate(
            CommunicationCertificate { certificate_state: CertificateState::Correct },
        ),
        Communication::CommunicationCertificate(
            CommunicationCertificate { certificate_state: CertificateState::Incorrect },
        ),
        Communication::CommunicationPassword(
            CommunicationPassword { password_state: PasswordState::Submition },
        ),
        Communication::CommunicationPassword(
            CommunicationPassword { password_state: PasswordState::Correct },
        ),
        Communication::CommunicationPassword(
            CommunicationPassword { password_state: PasswordState::Incorrect },
        ),
        Communication::CommunicationPassword(
            CommunicationPassword { password_state: PasswordState::Failed },
        ),
    ]
}

} // verus!
