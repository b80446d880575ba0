use vstd::prelude::*;

use crate::envelope::{bytes_eq, Communication, PasswordState};
use crate::cipher::{signed_by, x509_pem_ok, CipherError, Encrypt};
use crate::frame::{read_view, FrameError};
use vstd::string::StrSliceExecFns;

verus! {

// The authentication handshakes: two mutually exclusive state machines run
// once per connection before any application data flows.  The decisions are
// pure functions of the received envelope and payload; the caller performs
// the socket reads and writes around them.

/// How many password submissions a client is allowed before the server
/// terminates the connection.
pub const MAX_PASSWORD_ERRORS: u8 = 3;

/// What the password server does with one received frame.
#[derive(Clone, Copy, Debug, PartialEq, Eq, Structural)]
pub enum PasswordStepResult {
    /// The submitted hash matched: respond `Correct` and proceed.
    Accept,
    /// The hash was wrong but attempts remain: respond `Incorrect` and wait
    /// for another submission.
    Retry,
    /// The hash was wrong for the last allowed time: respond `Failed` and
    /// terminate with a permission error.
    Exhausted,
    /// The envelope was not a password envelope: respond `Failed` and
    /// terminate at once.
    Protocol,
}

/// The password response sent for each step result.
pub open spec fn password_response_spec(r: PasswordStepResult) -> PasswordState {
    match r {
        PasswordStepResult::Accept => PasswordState::Correct,
        PasswordStepResult::Retry => PasswordState::Incorrect,
        PasswordStepResult::Exhausted => PasswordState::Failed,
        PasswordStepResult::Protocol => PasswordState::Failed,
    }
}

/// The password response sent for each step result.
pub fn password_response_for(r: &PasswordStepResult) -> (s: PasswordState)
    ensures
        s == password_response_spec(*r),
{
    match r {
        PasswordStepResult::Accept => PasswordState::Correct,
        PasswordStepResult::Retry => PasswordState::Incorrect,
        PasswordStepResult::Exhausted => PasswordState::Failed,
        PasswordStepResult::Protocol => PasswordState::Failed,
    }
}

/// One step of the server's password state machine: the attempt count after
/// the step and what the server does.  A submission is any password
/// envelope; its payload is compared against the expected hash.
pub open spec fn password_step_spec(
    errors: u8,
    expected: Seq<u8>,
    envelope: Communication,
    payload: Seq<u8>,
) -> (u8, PasswordStepResult) {
    match envelope {
        Communication::CommunicationPassword(_) => {
            if payload == expected {
                (errors, PasswordStepResult::Accept)
            } else if errors + 1 < MAX_PASSWORD_ERRORS {
                ((errors + 1) as u8, PasswordStepResult::Retry)
            } else {
                ((errors + 1) as u8, PasswordStepResult::Exhausted)
            }
        },
        _ => (errors, PasswordStepResult::Protocol),
    }
}

/// The server side of the password handshake: the expected hash of the
/// chosen password and how many wrong submissions have been seen.  Destroyed
/// the moment the handshake terminates.
pub struct PasswordAuth {
    pub expected_hash: Vec<u8>,
    pub errors: u8,
}

impl PasswordAuth {
    pub open spec fn wf(&self) -> bool {
        &&& self.expected_hash@.len() == 32
        &&& self.errors <= MAX_PASSWORD_ERRORS
    }

    pub fn new(expected_hash: Vec<u8>) -> (r: PasswordAuth)
        requires
            expected_hash@.len() == 32,
        ensures
            r.wf(),
            r.expected_hash@ == expected_hash@,
            r.errors == 0,
    {
        PasswordAuth { expected_hash, errors: 0 }
    }

    /// Feeds one received frame to the state machine and says what to do:
    /// accept, ask again, give up, or fail the protocol.  The caller sends
    /// the matching password response and acts on the result.
    pub fn step(&mut self, envelope: &Communication, payload: &Vec<u8>) -> (r: PasswordStepResult)
        requires
            old(self).wf(),
            old(self).errors < MAX_PASSWORD_ERRORS,
        ensures
            final(self).wf(),
            final(self).expected_hash@ == old(self).expected_hash@,
            (final(self).errors, r) == password_step_spec(
                old(self).errors,
                old(self).expected_hash@,
                *envelope,
                payload@,
            ),
    {
        match envelope {
            Communication::CommunicationPassword(_) => {
                if bytes_eq(payload, &self.expected_hash) {
                    PasswordStepResult::Accept
                } else {
                    self.errors = self.errors + 1;
                    if self.errors < MAX_PASSWORD_ERRORS {
                        PasswordStepResult::Retry
                    } else {
                        PasswordStepResult::Exhausted
                    }
                }
            },
            _ => PasswordStepResult::Protocol,
        }
    }

    /// Feeds one attempted frame read to the state machine: a received frame
    /// goes through `step`, a read failure terminates the handshake.  The
    /// caller sends the matching password response and acts on the result.
    pub fn step_read(&mut self, r: Result<(Communication, Vec<u8>), FrameError>) -> (out:
        PasswordReadResult)
        requires
            old(self).wf(),
            old(self).errors < MAX_PASSWORD_ERRORS,
        ensures
            final(self).wf(),
            final(self).expected_hash@ == old(self).expected_hash@,
            (final(self).errors, out) == password_read_spec(
                old(self).errors,
                old(self).expected_hash@,
                read_view(r),
            ),
    {
        match r {
            Ok((envelope, payload)) => PasswordReadResult::Step(self.step(&envelope, &payload)),
            Err(e) => PasswordReadResult::ReadFailed(e),
        }
    }
}

/// What the password server does with one attempted frame read: a received
/// frame is fed to the state machine, a read failure terminates the
/// handshake with that failure.
#[derive(Clone, Copy, Debug, PartialEq, Eq, Structural)]
pub enum PasswordReadResult {
    /// A frame arrived and the state machine decided on it.
    Step(PasswordStepResult),
    /// The frame could not be read: respond `Failed` and terminate with the
    /// read failure.
    ReadFailed(FrameError),
}

/// One read-and-step of the server's password handshake: the attempt count
/// after it and what the server does.
pub open spec fn password_read_spec(
    errors: u8,
    expected: Seq<u8>,
    r: Result<(Communication, Seq<u8>), FrameError>,
) -> (u8, PasswordReadResult) {
    match r {
        Ok((envelope, payload)) => {
            let (n, s) = password_step_spec(errors, expected, envelope, payload);
            (n, PasswordReadResult::Step(s))
        },
        Err(e) => (errors, PasswordReadResult::ReadFailed(e)),
    }
}

/// The password response sent for each read outcome: the step's response for
/// a received frame, `Failed` for a read failure.
pub open spec fn password_read_response_spec(r: PasswordReadResult) -> PasswordState {
    match r {
        PasswordReadResult::Step(s) => password_response_spec(s),
        PasswordReadResult::ReadFailed(_) => PasswordState::Failed,
    }
}

/// The password response sent for each read outcome.
pub fn password_read_response_for(r: &PasswordReadResult) -> (s: PasswordState)
    ensures
        s == password_read_response_spec(*r),
{
    match r {
        PasswordReadResult::Step(step) => password_response_for(step),
        PasswordReadResult::ReadFailed(_) => PasswordState::Failed,
    }
}

/// After exactly three incorrect submissions the server's answer is
/// `Failed`: the first two wrong hashes are answered `Incorrect`, the third
/// exhausts the attempts and terminates the handshake with a permission
/// error.
pub proof fn lemma_three_incorrect_submissions(
    expected: Seq<u8>,
    e1: Communication,
    p1: Seq<u8>,
    e2: Communication,
    p2: Seq<u8>,
    e3: Communication,
    p3: Seq<u8>,
)
    requires
        e1 is CommunicationPassword,
        e2 is CommunicationPassword,
        e3 is CommunicationPassword,
        p1 != expected,
        p2 != expected,
        p3 != expected,
    ensures
        ({
            let (n1, r1) = password_step_spec(0, expected, e1, p1);
            let (n2, r2) = password_step_spec(n1, expected, e2, p2);
            let (n3, r3) = password_step_spec(n2, expected, e3, p3);
            &&& r1 == PasswordStepResult::Retry && password_response_spec(r1)
                == PasswordState::Incorrect
            &&& r2 == PasswordStepResult::Retry && password_response_spec(r2)
                == PasswordState::Incorrect
            &&& r3 == PasswordStepResult::Exhausted && password_response_spec(r3)
                == PasswordState::Failed
            &&& n3 == MAX_PASSWORD_ERRORS
        }),
{
}

/// A correct submission is accepted whenever attempts remain: the server
/// answers `Correct` and the handshake succeeds, whatever the count of
/// earlier wrong submissions.
pub proof fn lemma_correct_submission_accepted(
    errors: u8,
    expected: Seq<u8>,
    envelope: Communication,
    payload: Seq<u8>,
)
    requires
        errors < MAX_PASSWORD_ERRORS,
        envelope is CommunicationPassword,
        payload == expected,
    ensures
        ({
            let (n, r) = password_step_spec(errors, expected, envelope, payload);
            r == PasswordStepResult::Accept && password_response_spec(r) == PasswordState::Correct
                && n == errors
        }),
{
}

/// What the client does with the server's answer to a password submission.
#[derive(Clone, Copy, Debug, PartialEq, Eq, Structural)]
pub enum ClientPasswordAction {
    /// The server accepted: derive the session key and proceed.
    Proceed,
    /// The server rejected this attempt: ask the operator again.
    Reprompt,
    /// The server gave up on this connection: abort with a refused error.
    Refused,
    /// The answer was not a password response: abort as a protocol error.
    Protocol,
}

/// The client's reading of one server response during the password
/// handshake.
pub open spec fn client_password_action_spec(envelope: Communication) -> ClientPasswordAction {
    match envelope {
        Communication::CommunicationPassword(cp) => match cp.password_state {
            PasswordState::Correct => ClientPasswordAction::Proceed,
            PasswordState::Incorrect => ClientPasswordAction::Reprompt,
            PasswordState::Failed => ClientPasswordAction::Refused,
            PasswordState::Submition => ClientPasswordAction::Protocol,
        },
        _ => ClientPasswordAction::Protocol,
    }
}

/// Reads the server's answer to a password submission.
pub fn client_password_decision(envelope: &Communication) -> (r: ClientPasswordAction)
    ensures
        r == client_password_action_spec(*envelope),
{
    match envelope {
        Communication::CommunicationPassword(cp) => match cp.password_state {
            PasswordState::Correct => ClientPasswordAction::Proceed,
            PasswordState::Incorrect => ClientPasswordAction::Reprompt,
            PasswordState::Failed => ClientPasswordAction::Refused,
            PasswordState::Submition => ClientPasswordAction::Protocol,
        },
        _ => ClientPasswordAction::Protocol,
    }
}

/// What the certificate server does with the one frame it awaits.
#[derive(Clone, Copy, Debug, PartialEq, Eq, Structural)]
pub enum CertificateCheck {
    /// The submitted certificate is signed by the trusted issuer: respond
    /// `Correct` carrying the server's own certificate, and proceed holding
    /// the verified peer certificate.
    Accepted,
    /// The certificate's signature does not verify against the trusted
    /// issuer: respond `Incorrect` and terminate with a permission error.
    BadSignature,
    /// The payload is not a readable certificate: terminate at once.
    Unparsable,
    /// The envelope was not a certificate envelope: respond `Incorrect` and
    /// terminate at once.
    NotACertificate,
}

/// What one outcome of the signature check means for the handshake:
/// acceptance exactly on a verified signature, rejection on a signature that
/// did not verify, and a terminal failure where the check could not run.
pub fn classify_signature_check(outcome: Result<bool, CipherError>) -> (r: CertificateCheck)
    ensures
        outcome == Ok::<bool, CipherError>(true) ==> r == CertificateCheck::Accepted,
        outcome == Ok::<bool, CipherError>(false) ==> r == CertificateCheck::BadSignature,
        outcome is Err ==> r == CertificateCheck::Unparsable,
{
    match outcome {
        Ok(true) => CertificateCheck::Accepted,
        Ok(false) => CertificateCheck::BadSignature,
        Err(_) => CertificateCheck::Unparsable,
    }
}

/// Checks the one certificate submission the server awaits.  The payload is
/// the peer certificate in PEM form; `trusted_cert_pem` is the issuing
/// certificate whose key must have signed it.
pub fn certificate_server_check(
    envelope: &Communication,
    payload: &Vec<u8>,
    trusted_cert_pem: &Vec<u8>,
) -> (r: CertificateCheck)
    ensures
        (r == CertificateCheck::NotACertificate) == !(envelope is CommunicationCertificate),
        envelope is CommunicationCertificate && (!x509_pem_ok(payload@) || !x509_pem_ok(
            trusted_cert_pem@,
        )) ==> r == CertificateCheck::Unparsable,
        r == CertificateCheck::Accepted ==> x509_pem_ok(payload@) && x509_pem_ok(
            trusted_cert_pem@,
        ) && signed_by(payload@, trusted_cert_pem@),
        r == CertificateCheck::BadSignature ==> x509_pem_ok(payload@) && x509_pem_ok(
            trusted_cert_pem@,
        ) && !signed_by(payload@, trusted_cert_pem@),
{
    match envelope {
        Communication::CommunicationCertificate(_) => {
            if !Encrypt::certificate_parses(payload.as_slice()) {
                return CertificateCheck::Unparsable;
            }
            let outcome = Encrypt::certificate_check_signature(
                trusted_cert_pem.as_slice(),
                payload.as_slice(),
            );
            classify_signature_check(outcome)
        },
        _ => CertificateCheck::NotACertificate,
    }
}

/// Whether the operator's answer accepts the peer: it starts with a `Y` of
/// either case.
pub open spec fn answer_accepts(s: Seq<char>) -> bool {
    s.len() > 0 && (s[0] == 'Y' || s[0] == 'y')
}

/// Reads the operator's answer to the certificate-acceptance confirmation.
pub fn confirmation_accepted(answer: &str) -> (r: bool)
    ensures
        r == answer_accepts(answer@),
{
    if answer.unicode_len() == 0 {
        return false;
    }
    let c = answer.get_char(0);
    c == 'Y' || c == 'y'
}

/// Why the client's certificate handshake failed.
#[derive(Clone, Copy, Debug, PartialEq, Eq, Structural)]
pub enum ClientCertError {
    /// The server rejected the submitted certificate.
    Refused,
    /// The server's answer carried an unreadable certificate.
    Unreadable,
    /// The answer was not a certificate response.
    Protocol,
}

/// Reads the server's answer to a certificate submission.  On acceptance the
/// payload is the server's own certificate, handed back to the caller for
/// the operator's confirmation.
pub fn client_certificate_decision(envelope: &Communication, payload: Vec<u8>) -> (r: Result<
    Vec<u8>,
    ClientCertError,
>)
    ensures
        match r {
            Ok(pem) => envelope matches Communication::CommunicationCertificate(cc)
                && cc.certificate_state is Correct && x509_pem_ok(pem@) && pem@ == payload@,
            Err(ClientCertError::Refused) => envelope matches Communication::CommunicationCertificate(cc)
                && cc.certificate_state is Incorrect,
            Err(ClientCertError::Unreadable) => envelope matches Communication::CommunicationCertificate(cc)
                && cc.certificate_state is Correct && !x509_pem_ok(payload@),
            Err(ClientCertError::Protocol) => !(envelope matches Communication::CommunicationCertificate(cc)
                && (cc.certificate_state is Correct || cc.certificate_state is Incorrect)),
        },
{
    match envelope {
        Communication::CommunicationCertificate(cc) => match cc.certificate_state {
            crate::envelope::CertificateState::Incorrect => Err(ClientCertError::Refused),
            crate::envelope::CertificateState::Correct => {
                if Encrypt::certificate_parses(payload.as_slice()) {
                    Ok(payload)
                } else {
                    Err(ClientCertError::Unreadable)
                }
            },
            crate::envelope::CertificateState::Submition => Err(ClientCertError::Protocol),
        },
        _ => Err(ClientCertError::Protocol),
    }
}

} // verus!
