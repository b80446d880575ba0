use vstd::prelude::*;

use crate::envelope::{encode_spec, Communication, CommunicationText};
use crate::cipher::{aes256_dec, aes256_enc, zero_iv, Encrypt};
use crate::frame::{frame_bytes, frame_spec, parse_frame, read_frame, read_view, FrameError};
use vstd::string::StringSliceAdditionalSpecFns;

verus! {

// The duplex communication loop's decision logic.  After a handshake
// succeeds, one activity reads frames and surfaces decrypted text while
// another encrypts typed lines and writes frames; the two share one
// connection.  The reading, writing and threading live with the caller; what
// each received frame means and what bytes each outbound line becomes are
// decided here.

/// How the inbound activity ends.
#[derive(Clone, Copy, Debug, PartialEq, Eq, Structural)]
pub enum SessionEnd {
    /// The peer closed the connection: the expected end of a conversation.
    Closed,
    /// A fatal framing failure.
    Frame(FrameError),
    /// A text payload that would not decrypt, or one too large for the
    /// cipher.
    Cipher,
}

/// What the inbound activity does with one attempted frame read.
#[derive(Debug)]
pub enum InboundAction {
    /// A text frame: surface the decrypted message.
    Show(String),
    /// A file, certificate or password frame out of phase: ignore it.
    Ignore,
    /// A recoverable malformed frame: skip it and keep reading.
    Skip,
    /// The activity is over, normally or not.
    End(SessionEnd),
}

/// The spec-level value of an inbound action.
pub enum InboundActionSpec {
    Show(Seq<char>),
    Ignore,
    Skip,
    End(SessionEnd),
}

pub open spec fn action_view(a: InboundAction) -> InboundActionSpec {
    match a {
        InboundAction::Show(s) => InboundActionSpec::Show(s@),
        InboundAction::Ignore => InboundActionSpec::Ignore,
        InboundAction::Skip => InboundActionSpec::Skip,
        InboundAction::End(e) => InboundActionSpec::End(e),
    }
}

/// The text a byte string is displayed as: UTF-8, with invalid sequences
/// replaced.  A function of the bytes alone.
pub uninterp spec fn utf8_lossy_of(bytes: Seq<u8>) -> Seq<char>;

/// Relies on String::from_utf8_lossy: the text is a function of the bytes
/// alone, with invalid UTF-8 sequences replaced by the replacement
/// character.
#[verifier::external_body]
fn utf8_lossy(bytes: &Vec<u8>) -> (r: String)
    ensures
        r@ == utf8_lossy_of(bytes@),
{
    String::from_utf8_lossy(bytes).to_string()
}

/// What the inbound activity does with one frame-read outcome: show the
/// decrypted text of a text frame, ignore other envelopes received out of
/// phase, skip a frame whose lengths were malformed, end normally on a
/// closed connection, and end with the error on anything else.
pub open spec fn inbound_action_spec(key: Seq<u8>, r: Result<
    (Communication, Seq<u8>),
    FrameError,
>) -> InboundActionSpec {
    match r {
        Ok((c, payload)) => match c {
            Communication::CommunicationText(_) => {
                if payload.len() + 16 > i32::MAX {
                    InboundActionSpec::End(SessionEnd::Cipher)
                } else {
                    match aes256_dec(key, zero_iv(), payload) {
                        Some(m) => InboundActionSpec::Show(utf8_lossy_of(m)),
                        None => InboundActionSpec::End(SessionEnd::Cipher),
                    }
                }
            },
            _ => InboundActionSpec::Ignore,
        },
        Err(FrameError::ConnectionClosed) => InboundActionSpec::End(SessionEnd::Closed),
        Err(FrameError::InvalidFraming) => InboundActionSpec::Skip,
        Err(e) => InboundActionSpec::End(SessionEnd::Frame(e)),
    }
}

/// Decides what one frame-read outcome means for the inbound activity.
pub fn inbound_step(key: &[u8], r: Result<(Communication, Vec<u8>), FrameError>) -> (a:
    InboundAction)
    requires
        key@.len() == 32,
    ensures
        action_view(a) == inbound_action_spec(key@, read_view(r)),
{
    match r {
        Ok((c, payload)) => match c {
            Communication::CommunicationText(_) => {
                if payload.len() as u64 > i32::MAX as u64 - 16 {
                    InboundAction::End(SessionEnd::Cipher)
                } else {
                    match Encrypt::decrypt_message(payload.as_slice(), key) {
                        Ok(m) => InboundAction::Show(utf8_lossy(&m)),
                        Err(_) => InboundAction::End(SessionEnd::Cipher),
                    }
                }
            },
            _ => InboundAction::Ignore,
        },
        Err(FrameError::ConnectionClosed) => InboundAction::End(SessionEnd::Closed),
        Err(FrameError::InvalidFraming) => InboundAction::Skip,
        Err(e) => InboundAction::End(SessionEnd::Frame(e)),
    }
}

/// The whole inbound activity over a byte stream: every message it displays,
/// in order, and how it ends.
pub open spec fn drain_spec(key: Seq<u8>, input: Seq<u8>, p: int) -> (Seq<Seq<char>>, SessionEnd)
    decreases input.len() - p,
{
    let parse = parse_frame(input, p);
    match inbound_action_spec(key, parse.result) {
        InboundActionSpec::Show(m) => if p < parse.end <= input.len() {
            let rest = drain_spec(key, input, parse.end);
            (seq![m] + rest.0, rest.1)
        } else {
            (seq![m], SessionEnd::Closed)
        },
        InboundActionSpec::Ignore => if p < parse.end <= input.len() {
            drain_spec(key, input, parse.end)
        } else {
            (Seq::empty(), SessionEnd::Closed)
        },
        InboundActionSpec::Skip => if p < parse.end <= input.len() {
            drain_spec(key, input, parse.end)
        } else {
            (Seq::empty(), SessionEnd::Closed)
        },
        InboundActionSpec::End(e) => (Seq::empty(), e),
    }
}

/// Runs the inbound activity over a byte stream held in memory: reads frames
/// until the stream ends or a fatal error, returning the displayed messages
/// in order and how the activity ended.
pub fn inbound_drain(key: &[u8], input: &Vec<u8>) -> (r: (Vec<String>, SessionEnd))
    requires
        key@.len() == 32,
    ensures
        r.0.deep_view() == drain_spec(key@, input@, 0).0,
        r.1 == drain_spec(key@, input@, 0).1,
{
    let mut pos: usize = 0;
    let mut shown: Vec<String> = Vec::new();
    let mut end = SessionEnd::Closed;
    proof {
        assert(shown.deep_view() =~= Seq::<Seq<char>>::empty());
        assert(drain_spec(key@, input@, 0).0 =~= shown.deep_view() + drain_spec(
            key@,
            input@,
            0,
        ).0);
    }
    loop
        invariant_except_break
            key@.len() == 32,
            pos <= input.len(),
            drain_spec(key@, input@, 0).0 == shown.deep_view() + drain_spec(
                key@,
                input@,
                pos as int,
            ).0,
            drain_spec(key@, input@, 0).1 == drain_spec(key@, input@, pos as int).1,
        ensures
            shown.deep_view() == drain_spec(key@, input@, 0).0,
            end == drain_spec(key@, input@, 0).1,
        decreases input@.len() - pos,
    {
        let ghost old_pos = pos as int;
        let ghost prev_shown = shown.deep_view();
        let r = read_frame(input, &mut pos);
        proof {
            assert(read_view(r) == parse_frame(input@, old_pos).result);
        }
        let a = inbound_step(key, r);
        match a {
            InboundAction::Show(s) => {
                shown.push(s);
                proof {
                    assert(shown.deep_view() =~~= prev_shown + seq![s@]);
                    assert(drain_spec(key@, input@, old_pos).0 =~~= seq![s@] + drain_spec(
                        key@,
                        input@,
                        pos as int,
                    ).0);
                    assert(drain_spec(key@, input@, 0).0 =~~= shown.deep_view() + drain_spec(
                        key@,
                        input@,
                        pos as int,
                    ).0);
                }
            },
            InboundAction::Ignore => {},
            InboundAction::Skip => {},
            InboundAction::End(e) => {
                end = e;
                proof {
                    assert(drain_spec(key@, input@, 0).0 =~~= shown.deep_view());
                }
                break;
            },
        }
    }
    (shown, end)
}

/// The label an inbound message is displayed under.
pub open spec fn peer_label() -> Seq<char> {
    "other: "@
}

/// The line the collaborator display shows for one inbound message.
pub fn display_line(message: &str) -> (r: String)
    ensures
        r@ == peer_label() + message@,
{
    String::from_str("other: ").concat(message)
}

/// Why one locally typed line could not become a frame.
#[derive(Clone, Copy, Debug, PartialEq, Eq, Structural)]
pub enum OutboundError {
    /// The line is too large for the cipher.
    MessageTooLong,
    /// The cipher failed to initialize or encrypt.
    Cipher,
}

/// The envelope every outbound message travels under.
pub open spec fn text_envelope() -> Communication {
    Communication::CommunicationText(CommunicationText {  })
}

/// Builds the frame for one locally typed line: the line's bytes encrypted
/// under the session key, wrapped in a text envelope.
pub fn outbound_frame(line: &str, key: &[u8]) -> (r: Result<Vec<u8>, OutboundError>)
    requires
        key@.len() == 32,
    ensures
        r matches Ok(v) ==> v@ == frame_spec(
            text_envelope(),
            aes256_enc(key@, zero_iv(), line.spec_bytes()),
        ),
        r == Err::<Vec<u8>, OutboundError>(OutboundError::MessageTooLong) <==> line.spec_bytes().len()
            + 16 > i32::MAX,
{
    let bytes = line.as_bytes();
    if bytes.len() as u64 > i32::MAX as u64 - 16 {
        return Err(OutboundError::MessageTooLong);
    }
    let ciphertext = match Encrypt::encrypt_message(bytes, key) {
        Ok(c) => c,
        Err(_) => {
            return Err(OutboundError::Cipher);
        },
    };
    let env = Communication::CommunicationText(CommunicationText {  });
    match frame_bytes(&env, &ciphertext) {
        Ok(v) => Ok(v),
        Err(_) => {
            proof {
                reveal_strlit("{\"CommunicationText\":{}}");
                assert((bytes@.len() / 16) * 16 <= bytes@.len());
                assert(encode_spec(env).len() + ciphertext@.len() <= u32::MAX);
                assert(false);
            }
            Err(OutboundError::Cipher)
        },
    }
}

} // verus!
