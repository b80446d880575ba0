use hermod::envelope::{
    decode, encode, CertificateState, Communication, CommunicationCertificate, CommunicationFile,
    CommunicationPassword, CommunicationText, DecodeError, PasswordState,
};
use hermod::frame::{frame_bytes, read_frame, u32_to_be, FrameError};

fn all_envelopes() -> Vec<Communication> {
    vec![
        Communication::CommunicationText(CommunicationText {}),
        Communication::CommunicationFile(CommunicationFile {}),
        Communication::CommunicationCertificate(CommunicationCertificate {
            certificate_state: CertificateState::Submition,
        }),
        Communication::CommunicationCertificate(CommunicationCertificate {
            certificate_state: CertificateState::Correct,
        }),
        Communication::CommunicationCertificate(CommunicationCertificate {
            certificate_state: CertificateState::Incorrect,
        }),
        Communication::CommunicationPassword(CommunicationPassword {
            password_state: PasswordState::Submition,
        }),
        Communication::CommunicationPassword(CommunicationPassword {
            password_state: PasswordState::Correct,
        }),
        Communication::CommunicationPassword(CommunicationPassword {
            password_state: PasswordState::Incorrect,
        }),
        Communication::CommunicationPassword(CommunicationPassword {
            password_state: PasswordState::Failed,
        }),
    ]
}

#[test]
fn encode_decode_round_trips_every_envelope() {
    for env in all_envelopes() {
        let bytes = encode(&env);
        assert_eq!(decode(&bytes), Ok(env));
    }
}

#[test]
fn encode_is_the_self_describing_text() {
    let text = Communication::CommunicationText(CommunicationText {});
    assert_eq!(encode(&text), b"{\"CommunicationText\":{}}".to_vec());
    let pw = Communication::CommunicationPassword(CommunicationPassword {
        password_state: PasswordState::Submition,
    });
    assert_eq!(
        encode(&pw),
        b"{\"CommunicationPassword\":{\"password_state\":\"Submition\"}}".to_vec()
    );
    let cert = Communication::CommunicationCertificate(CommunicationCertificate {
        certificate_state: CertificateState::Correct,
    });
    assert_eq!(
        encode(&cert),
        b"{\"CommunicationCertificate\":{\"certificate_state\":\"Correct\"}}".to_vec()
    );
}

#[test]
fn decode_rejects_unrecognized_bytes() {
    assert_eq!(
        decode(&b"{\"CommunicationVideo\":{}}".to_vec()),
        Err(DecodeError::UnknownEnvelope)
    );
    assert_eq!(decode(&Vec::new()), Err(DecodeError::UnknownEnvelope));
    assert_eq!(
        decode(&b"{\"CommunicationPassword\":{\"password_state\":\"submition\"}}".to_vec()),
        Err(DecodeError::UnknownEnvelope)
    );
}

#[test]
fn u32_big_endian_layout() {
    assert_eq!(u32_to_be(0x01020304), vec![1, 2, 3, 4]);
    assert_eq!(u32_to_be(0), vec![0, 0, 0, 0]);
    assert_eq!(u32_to_be(u32::MAX), vec![255, 255, 255, 255]);
}

#[test]
fn frame_round_trips_envelope_and_payload() {
    let env = Communication::CommunicationText(CommunicationText {});
    let payload = vec![1u8, 2, 3, 4, 5];
    let bytes = frame_bytes(&env, &payload).unwrap();
    let mut pos = 0usize;
    let (env_read, payload_read) = read_frame(&bytes, &mut pos).unwrap();
    assert_eq!(env_read, env);
    assert_eq!(payload_read, payload);
    assert_eq!(pos, bytes.len());
}

#[test]
fn frame_layout_is_length_prefixed() {
    let env = Communication::CommunicationText(CommunicationText {});
    let payload = vec![9u8, 8, 7];
    let bytes = frame_bytes(&env, &payload).unwrap();
    let env_text = b"{\"CommunicationText\":{}}";
    let total = (env_text.len() + payload.len()) as u32;
    assert_eq!(&bytes[0..4], &total.to_be_bytes());
    assert_eq!(&bytes[4..8], &(env_text.len() as u32).to_be_bytes());
    assert_eq!(&bytes[8..8 + env_text.len()], &env_text[..]);
    assert_eq!(&bytes[8 + env_text.len()..], &payload[..]);
}

#[test]
fn invalid_framing_consumes_only_the_headers() {
    // total_length 1 below envelope_length 2.
    let mut bytes = u32_to_be(1);
    bytes.extend_from_slice(&u32_to_be(2));
    bytes.extend_from_slice(&[0xAA; 16]);
    let mut pos = 0usize;
    let r = read_frame(&bytes, &mut pos);
    assert_eq!(r.unwrap_err(), FrameError::InvalidFraming);
    assert_eq!(pos, 8);
}

#[test]
fn closed_stream_reports_connection_closed() {
    let bytes: Vec<u8> = Vec::new();
    let mut pos = 0usize;
    assert_eq!(
        read_frame(&bytes, &mut pos).unwrap_err(),
        FrameError::ConnectionClosed
    );
    assert_eq!(pos, 0);

    let three = vec![0u8, 0, 0];
    let mut pos3 = 0usize;
    assert_eq!(
        read_frame(&three, &mut pos3).unwrap_err(),
        FrameError::ConnectionClosed
    );
    assert_eq!(pos3, 0);
}

#[test]
fn truncated_frame_is_not_connection_closed() {
    // A full pair of headers announcing more bytes than the stream holds.
    let mut bytes = u32_to_be(100);
    bytes.extend_from_slice(&u32_to_be(50));
    let mut pos = 0usize;
    assert_eq!(
        read_frame(&bytes, &mut pos).unwrap_err(),
        FrameError::Truncated
    );
}

#[test]
fn unreadable_envelope_fails_the_frame() {
    let garbage = b"not an envelope".to_vec();
    let payload = vec![1u8, 2];
    let mut bytes = u32_to_be((garbage.len() + payload.len()) as u32);
    bytes.extend_from_slice(&u32_to_be(garbage.len() as u32));
    bytes.extend_from_slice(&garbage);
    bytes.extend_from_slice(&payload);
    let mut pos = 0usize;
    assert_eq!(
        read_frame(&bytes, &mut pos).unwrap_err(),
        FrameError::UnknownEnvelope
    );
}
