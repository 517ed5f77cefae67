use vstd::prelude::*;

verus! {

/// Bytes of the authentication line of the control protocol:
/// `authenticate "tor"` followed by a newline.
pub open spec fn spec_auth_line() -> Seq<u8> {
    seq![97u8, 117u8, 116u8, 104u8, 101u8, 110u8, 116u8, 105u8, 99u8, 97u8, 116u8, 101u8, 32u8, 34u8, 116u8, 111u8, 114u8, 34u8, 10u8]
}

/// Bytes of the signal line of the control protocol: `SIGNAL NEWNYM`
/// followed by a newline, the request for a fresh identity circuit.
pub open spec fn spec_signal_line() -> Seq<u8> {
    seq![83u8, 73u8, 71u8, 78u8, 65u8, 76u8, 32u8, 78u8, 69u8, 87u8, 78u8, 89u8, 77u8, 10u8]
}

/// True of a line that is plain ASCII and terminated by exactly one
/// newline, at its end.
pub open spec fn is_ascii_line(line: Seq<u8>) -> bool {
    &&& line.len() > 0
    &&& line[line.len() - 1] == 10
    &&& forall|i: int| 0 <= i < line.len() ==> #[trigger] line[i] < 128
    &&& forall|i: int| 0 <= i < line.len() - 1 ==> #[trigger] line[i] != 10
}

/// The authentication line of the control protocol, as sent on the
/// wire.
pub fn auth_line() -> (line: Vec<u8>)
    ensures
        line@ == spec_auth_line(),
        is_ascii_line(line@),
{
    let line: Vec<u8> = vec![97u8, 117u8, 116u8, 104u8, 101u8, 110u8, 116u8, 105u8, 99u8, 97u8, 116u8, 101u8, 32u8, 34u8, 116u8, 111u8, 114u8, 34u8, 10u8];
    proof {
        assert(line@ =~= spec_auth_line());
    }
    line
}

/// The signal line of the control protocol, as sent on the wire.
pub fn signal_line() -> (line: Vec<u8>)
    ensures
        line@ == spec_signal_line(),
        is_ascii_line(line@),
{
    let line: Vec<u8> = vec![83u8, 73u8, 71u8, 78u8, 65u8, 76u8, 32u8, 78u8, 69u8, 87u8, 78u8, 89u8, 77u8, 10u8];
    proof {
        assert(line@ =~= spec_signal_line());
    }
    line
}

/// Where one identity-rotation attempt stands. The attempt opens a
/// short-lived connection to a backend's control port, authenticates,
/// then asks for a new circuit; every failure ends the attempt.
#[derive(Clone, Copy, Debug, PartialEq, Eq, Structural)]
pub enum RotationState {
    /// The control connection is being opened.
    Connecting,
    /// The authentication line was handed to the connection; its
    /// write result is awaited.
    Authenticating,
    /// The signal line was handed to the connection; its write result
    /// is awaited.
    Signaling,
    /// The attempt is over, successfully or not; nothing further
    /// happens.
    Done,
}

/// What the connection reported back for the last thing asked of it.
#[derive(Clone, Copy, Debug, PartialEq, Eq, Structural)]
pub enum RotationEvent {
    /// The control connection opened.
    Connected,
    /// The control connection could not be opened.
    ConnectFailed,
    /// The last line was written in full.
    WriteOk,
    /// The last line could not be written.
    WriteFailed,
}

/// What the caller must do next for an identity-rotation attempt.
/// Failures are only ever logged: rotation is fire-and-forget, and no
/// action here aborts, delays or retries anything.
#[derive(Debug, PartialEq, Eq)]
pub enum RotationAction {
    /// Write this line to the control connection.
    SendLine(Vec<u8>),
    /// Log that the control connection could not be opened.
    LogConnectError,
    /// Log that authentication could not be written.
    LogAuthError,
    /// Log that the circuit signal could not be written.
    LogSignalError,
    /// Nothing; the attempt needs no further work.
    Idle,
}

/// Advances one identity-rotation attempt by one observed event and
/// says what to do next. The protocol: once connected, send the
/// authentication line; once that is written, send the signal line;
/// once that is written, the attempt succeeded. Any failure ends the
/// attempt with nothing but a log entry — an ended attempt absorbs
/// every further event silently, so no failure can propagate to the
/// relay that triggered the rotation.
pub fn rotation_step(state: RotationState, event: RotationEvent) -> (r: (
    RotationState,
    RotationAction,
))
    ensures
        state == RotationState::Connecting && event == RotationEvent::Connected ==> r.0
            == RotationState::Authenticating && (r.1 matches RotationAction::SendLine(line)
            && line@ == spec_auth_line()),
        state == RotationState::Connecting && event == RotationEvent::ConnectFailed ==> r
            == (RotationState::Done, RotationAction::LogConnectError),
        state == RotationState::Authenticating && event == RotationEvent::WriteOk ==> r.0
            == RotationState::Signaling && (r.1 matches RotationAction::SendLine(line) && line@
            == spec_signal_line()),
        state == RotationState::Authenticating && event == RotationEvent::WriteFailed ==> r
            == (RotationState::Done, RotationAction::LogAuthError),
        state == RotationState::Signaling && event == RotationEvent::WriteOk ==> r
            == (RotationState::Done, RotationAction::Idle),
        state == RotationState::Signaling && event == RotationEvent::WriteFailed ==> r
            == (RotationState::Done, RotationAction::LogSignalError),
        state == RotationState::Done ==> r == (RotationState::Done, RotationAction::Idle),
        state == RotationState::Connecting && (event == RotationEvent::WriteOk || event
            == RotationEvent::WriteFailed) ==> r == (RotationState::Done, RotationAction::Idle),
        (state == RotationState::Authenticating || state == RotationState::Signaling) && (event
            == RotationEvent::Connected || event == RotationEvent::ConnectFailed) ==> r
            == (RotationState::Done, RotationAction::Idle),
{
    match (state, event) {
        (RotationState::Connecting, RotationEvent::Connected) => (
            RotationState::Authenticating,
            RotationAction::SendLine(auth_line()),
        ),
        (RotationState::Connecting, RotationEvent::ConnectFailed) => (
            RotationState::Done,
            RotationAction::LogConnectError,
        ),
        (RotationState::Authenticating, RotationEvent::WriteOk) => (
            RotationState::Signaling,
            RotationAction::SendLine(signal_line()),
        ),
        (RotationState::Authenticating, RotationEvent::WriteFailed) => (
            RotationState::Done,
            RotationAction::LogAuthError,
        ),
        (RotationState::Signaling, RotationEvent::WriteOk) => (
            RotationState::Done,
            RotationAction::Idle,
        ),
        (RotationState::Signaling, RotationEvent::WriteFailed) => (
            RotationState::Done,
            RotationAction::LogSignalError,
        ),
        _ => (RotationState::Done, RotationAction::Idle),
    }
}

} // verus!
