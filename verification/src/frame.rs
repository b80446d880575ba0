use vstd::prelude::*;

use crate::envelope::{
    encode,
    encode_spec,
    decode,
    decode_spec,
    CertificateState,
    Communication,
    CommunicationCertificate,
    CommunicationPassword,
    PasswordState,
};

verus! {

// The unit sent on the wire is a frame:
//
//   [0:4)                    total_length    (u32, big-endian)
//   [4:8)                    envelope_length (u32, big-endian)
//   [8:8+envelope_length)    envelope bytes
//   [8+envelope_length:...)  payload bytes
//
// with total_length == envelope_length + payload length.  A frame whose
// header breaks that invariant is a protocol error, never silently mended.

/// How reading or building a frame can fail.
#[derive(Clone, Copy, Debug, PartialEq, Eq, Structural)]
pub enum FrameError {
    /// The stream ended before a new frame began: the peer closed the
    /// connection, which callers treat as normal termination.
    ConnectionClosed,
    /// The stream ended in the middle of a frame that had begun.
    Truncated,
    /// The envelope length exceeds the total length.
    InvalidFraming,
    /// The envelope bytes are not a recognized envelope encoding.
    UnknownEnvelope,
    /// The envelope and payload together do not fit a 32-bit length field.
    Oversize,
}

/// The four big-endian bytes of a 32-bit length field.
pub open spec fn u32_be_bytes(x: u32) -> Seq<u8> {
    seq![(x >> 24) as u8, (x >> 16) as u8, (x >> 8) as u8, x as u8]
}

/// The 32-bit value read from four big-endian bytes.
pub open spec fn u32_from_be(b: Seq<u8>) -> u32 {
    (((b[0] as u32) << 24) | ((b[1] as u32) << 16) | ((b[2] as u32) << 8) | (b[3] as u32)) as u32
}

pub proof fn lemma_u32_be_round_trip(x: u32)
    ensures
        u32_from_be(u32_be_bytes(x)) == x,
{
    assert(((((x >> 24) as u8) as u32) << 24 | (((x >> 16) as u8) as u32) << 16 | (((x >> 8) as u8)
        as u32) << 8 | ((x as u8) as u32)) == x) by (bit_vector);
}

/// Writes a 32-bit value as four big-endian bytes.
pub fn u32_to_be(x: u32) -> (r: Vec<u8>)
    ensures
        r@ == u32_be_bytes(x),
{
    let mut v: Vec<u8> = Vec::new();
    v.push((x >> 24) as u8);
    v.push((x >> 16) as u8);
    v.push((x >> 8) as u8);
    v.push(x as u8);
    proof {
        assert(v@ =~= u32_be_bytes(x));
    }
    v
}

/// Reads a 32-bit value from the four bytes at `pos`.
pub fn u32_at(input: &Vec<u8>, pos: usize) -> (r: u32)
    requires
        pos + 4 <= input.len(),
    ensures
        r == u32_from_be(input@.subrange(pos as int, pos as int + 4)),
{
    let b0 = input[pos];
    let b1 = input[pos + 1];
    let b2 = input[pos + 2];
    let b3 = input[pos + 3];
    let r = ((b0 as u32) << 24) | ((b1 as u32) << 16) | ((b2 as u32) << 8) | (b3 as u32);
    proof {
        let s = input@.subrange(pos as int, pos as int + 4);
        assert(s[0] == b0 && s[1] == b1 && s[2] == b2 && s[3] == b3);
    }
    r
}

/// Copies the bytes of `input` from `from` (inclusive) to `to` (exclusive).
pub fn copy_range(input: &Vec<u8>, from: usize, to: usize) -> (r: Vec<u8>)
    requires
        from <= to <= input.len(),
    ensures
        r@ == input@.subrange(from as int, to as int),
{
    let mut r: Vec<u8> = Vec::new();
    let mut i: usize = from;
    while i < to
        invariant
            from <= i <= to <= input@.len(),
            r@ == input@.subrange(from as int, i as int),
        decreases to - i,
    {
        r.push(input[i]);
        proof {
            assert(r@ =~= input@.subrange(from as int, i as int + 1));
        }
        i = i + 1;
    }
    r
}

/// The bytes a frame carrying envelope `c` and payload `payload` has on the
/// wire, when the lengths fit their 32-bit fields.
pub open spec fn frame_spec(c: Communication, payload: Seq<u8>) -> Seq<u8> {
    let env = encode_spec(c);
    let total = (env.len() + payload.len()) as u32;
    let env_len = env.len() as u32;
    u32_be_bytes(total) + u32_be_bytes(env_len) + env + payload
}

/// Builds the frame for one envelope and payload.  Fails with `Oversize`
/// exactly when the envelope and payload together exceed a 32-bit length.
pub fn frame_bytes(c: &Communication, payload: &Vec<u8>) -> (r: Result<Vec<u8>, FrameError>)
    ensures
        encode_spec(*c).len() + payload@.len() <= u32::MAX ==> (r matches Ok(v) && v@
            == frame_spec(*c, payload@)),
        encode_spec(*c).len() + payload@.len() > u32::MAX ==> (r matches Err(e) && e
            == FrameError::Oversize),
{
    let env = encode(c);
    if payload.len() as u128 + env.len() as u128 > u32::MAX as u128 {
        return Err(FrameError::Oversize);
    }
    let env_len: u32 = env.len() as u32;
    let total: u32 = env_len + payload.len() as u32;
    let mut out = u32_to_be(total);
    let mut env_len_bytes = u32_to_be(env_len);
    out.append(&mut env_len_bytes);
    let mut env_mut = env;
    out.append(&mut env_mut);
    out.extend_from_slice(payload.as_slice());
    proof {
        assert(out@ =~= frame_spec(*c, payload@));
    }
    Ok(out)
}

/// The envelope of a password frame in the given sub-state.
pub open spec fn password_envelope(state: PasswordState) -> Communication {
    Communication::CommunicationPassword(CommunicationPassword { password_state: state })
}

/// The envelope of a certificate frame in the given sub-state.
pub open spec fn certificate_envelope(state: CertificateState) -> Communication {
    Communication::CommunicationCertificate(
        CommunicationCertificate { certificate_state: state },
    )
}

/// Every password envelope fits its length field with room for a hash
/// payload of any length a digest has.
proof fn lemma_password_envelope_small(state: PasswordState)
    ensures
        encode_spec(password_envelope(state)).len() <= 64,
{
    reveal_strlit("{\"CommunicationPassword\":{\"password_state\":\"Submition\"}}");
    reveal_strlit("{\"CommunicationPassword\":{\"password_state\":\"Correct\"}}");
    reveal_strlit("{\"CommunicationPassword\":{\"password_state\":\"Incorrect\"}}");
    reveal_strlit("{\"CommunicationPassword\":{\"password_state\":\"Failed\"}}");
}

/// The frame a client submits its hashed password in: a password envelope in
/// the submission state whose payload is the 32-byte hash.
pub fn password_submission_frame(hash: &Vec<u8>) -> (r: Vec<u8>)
    requires
        hash@.len() == 32,
    ensures
        r@ == frame_spec(password_envelope(PasswordState::Submition), hash@),
{
    let env = Communication::CommunicationPassword(
        CommunicationPassword { password_state: PasswordState::Submition },
    );
    proof {
        lemma_password_envelope_small(PasswordState::Submition);
    }
    match frame_bytes(&env, hash) {
        Ok(v) => v,
        Err(_) => {
            proof {
                assert(false);
            }
            Vec::new()
        },
    }
}

/// The frame a server answers a password submission with: a password
/// envelope in the given state and an empty payload.
pub fn password_response_frame(validity: PasswordState) -> (r: Vec<u8>)
    ensures
        r@ == frame_spec(password_envelope(validity), Seq::<u8>::empty()),
{
    let env = Communication::CommunicationPassword(
        CommunicationPassword { password_state: validity },
    );
    proof {
        lemma_password_envelope_small(validity);
    }
    let payload: Vec<u8> = Vec::new();
    match frame_bytes(&env, &payload) {
        Ok(v) => v,
        Err(_) => {
            proof {
                assert(false);
            }
            Vec::new()
        },
    }
}

/// The frame a side answers a certificate submission with: a certificate
/// envelope in the given state, carrying the answering side's own
/// certificate on acceptance and nothing on rejection.
pub fn certificate_response_frame(validity: CertificateState, user_certificate: Option<&Vec<u8>>) -> (r:
    Result<Vec<u8>, FrameError>)
    ensures
        ({
            let payload: Seq<u8> = match user_certificate {
                Some(c) => c@,
                None => Seq::empty(),
            };
            &&& (r matches Ok(v) ==> v@ == frame_spec(certificate_envelope(validity), payload))
            &&& (encode_spec(certificate_envelope(validity)).len() + payload.len() <= u32::MAX
                ==> r is Ok)
            &&& (r matches Err(e) ==> e == FrameError::Oversize)
        }),
{
    let env = Communication::CommunicationCertificate(
        CommunicationCertificate { certificate_state: validity },
    );
    match user_certificate {
        Some(c) => frame_bytes(&env, c),
        None => {
            let payload: Vec<u8> = Vec::new();
            frame_bytes(&env, &payload)
        },
    }
}

/// What one attempt to read a frame from `input` at position `p` yields, and
/// where the attempt leaves the read position.
pub struct FrameParse {
    pub result: Result<(Communication, Seq<u8>), FrameError>,
    pub end: int,
}

/// One frame read, as a function of the byte stream.  The headers are read
/// first; a framing violation is found after the two headers and consumes
/// nothing further; the envelope is decoded before the payload is read.
pub open spec fn parse_frame(input: Seq<u8>, p: int) -> FrameParse {
    let n = input.len() as int;
    if p + 4 > n {
        FrameParse { result: Err(FrameError::ConnectionClosed), end: p }
    } else if p + 8 > n {
        FrameParse { result: Err(FrameError::Truncated), end: p + 4 }
    } else {
        let total = u32_from_be(input.subrange(p, p + 4)) as int;
        let env_len = u32_from_be(input.subrange(p + 4, p + 8)) as int;
        if total < env_len {
            FrameParse { result: Err(FrameError::InvalidFraming), end: p + 8 }
        } else if p + 8 + env_len > n {
            FrameParse { result: Err(FrameError::Truncated), end: p + 8 }
        } else {
            let env = input.subrange(p + 8, p + 8 + env_len);
            match decode_spec(env) {
                Err(_) => FrameParse { result: Err(FrameError::UnknownEnvelope), end: p + 8 + env_len },
                Ok(c) => if p + 8 + total > n {
                    FrameParse { result: Err(FrameError::Truncated), end: p + 8 + env_len }
                } else {
                    FrameParse {
                        result: Ok((c, input.subrange(p + 8 + env_len, p + 8 + total))),
                        end: p + 8 + total,
                    }
                },
            }
        }
    }
}

/// The view of one frame-read outcome.
pub open spec fn read_view(r: Result<(Communication, Vec<u8>), FrameError>) -> Result<
    (Communication, Seq<u8>),
    FrameError,
> {
    match r {
        Ok((c, payload)) => Ok((c, payload@)),
        Err(e) => Err(e),
    }
}

/// Reads one frame from `input` at `*pos`, leaving `*pos` on the first byte
/// not consumed.  A stream that ends before the first header byte is a
/// closed connection; an envelope length above the total length fails with
/// `InvalidFraming` and consumes nothing beyond the two headers.
pub fn read_frame(input: &Vec<u8>, pos: &mut usize) -> (r: Result<
    (Communication, Vec<u8>),
    FrameError,
>)
    requires
        *old(pos) <= input.len(),
    ensures
        *final(pos) == parse_frame(input@, *old(pos) as int).end,
        *final(pos) <= input@.len(),
        match (r, parse_frame(input@, *old(pos) as int).result) {
            (Ok((c, payload)), Ok((sc, sp))) => c == sc && payload@ == sp,
            (Err(e), Err(se)) => e == se,
            _ => false,
        },
{
    let n = input.len();
    let p = *pos;
    if n - p < 4 {
        return Err(FrameError::ConnectionClosed);
    }
    if n - p < 8 {
        *pos = p + 4;
        return Err(FrameError::Truncated);
    }
    let total = u32_at(input, p);
    let env_len = u32_at(input, p + 4);
    if total < env_len {
        *pos = p + 8;
        return Err(FrameError::InvalidFraming);
    }
    if env_len as u64 > (n - (p + 8)) as u64 {
        *pos = p + 8;
        return Err(FrameError::Truncated);
    }
    let env_end = p + 8 + env_len as usize;
    let env = copy_range(input, p + 8, env_end);
    let c = match decode(&env) {
        Ok(c) => c,
        Err(_) => {
            *pos = env_end;
            return Err(FrameError::UnknownEnvelope);
        },
    };
    if (total - env_len) as u64 > (n - env_end) as u64 {
        *pos = env_end;
        return Err(FrameError::Truncated);
    }
    let data_end = env_end + (total - env_len) as usize;
    let payload = copy_range(input, env_end, data_end);
    *pos = data_end;
    Ok((c, payload))
}

/// A frame whose total length is below its envelope length fails with
/// `InvalidFraming`, and the read consumes exactly the two headers it has
/// already taken: the envelope and payload bytes stay where they are.
pub proof fn lemma_invalid_framing_consumes_headers_only(input: Seq<u8>, p: int)
    requires
        0 <= p,
        p + 8 <= input.len(),
        u32_from_be(input.subrange(p, p + 4)) < u32_from_be(input.subrange(p + 4, p + 8)),
    ensures
        parse_frame(input, p).result == Err::<(Communication, Seq<u8>), FrameError>(
            FrameError::InvalidFraming,
        ),
        parse_frame(input, p).end == p + 8,
{
}

/// A full frame round-trips: reading the bytes that `frame_bytes` wrote
/// yields the same envelope and payload and consumes the whole frame.
pub proof fn lemma_frame_round_trip(c: Communication, payload: Seq<u8>)
    requires
        encode_spec(c).len() + payload.len() <= u32::MAX,
    ensures
        parse_frame(frame_spec(c, payload), 0).result == Ok::<
            (Communication, Seq<u8>),
            FrameError,
        >((c, payload)),
        parse_frame(frame_spec(c, payload), 0).end == frame_spec(c, payload).len(),
{
    let env = encode_spec(c);
    let total = (env.len() + payload.len()) as u32;
    let env_len = env.len() as u32;
    let bytes = frame_spec(c, payload);
    lemma_u32_be_round_trip(total);
    lemma_u32_be_round_trip(env_len);
    assert(bytes.subrange(0, 4) =~= u32_be_bytes(total));
    assert(bytes.subrange(4, 8) =~= u32_be_bytes(env_len));
    assert(bytes.subrange(8, 8 + env_len as int) =~= env);
    crate::envelope::lemma_decode_encode(c);
    assert(bytes.subrange(8 + env_len as int, 8 + total as int) =~= payload);
}

} // verus!
