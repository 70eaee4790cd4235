use crate::framer::UtilReadError;
use vstd::prelude::*;

verus! {

/// Out-of-band control of one connection's actor.
#[derive(Clone, Copy, Debug, PartialEq, Eq, Structural)]
pub enum SmtpStreamControl {
    /// The actor runs.
    Initialize,
    /// A shutdown is being prepared; the actor keeps running.
    ShutdownReady,
    /// The actor sends what is queued, closes the connection and exits.
    Shutdown,
}

/// What woke a connection's actor: exactly one source per turn of its loop.
pub enum StreamEvent {
    /// The control signal changed.
    Control(SmtpStreamControl),
    /// The outbound queue gave a line, or `None` once every sender is gone.
    Outbound(Option<String>),
    /// The framer completed a line or reported an error.
    Inbound(Result<Vec<u8>, UtilReadError>),
    /// The peer closed the connection at a line boundary.
    EndOfStream,
}

/// What a connection's actor does next.
pub enum StreamAction {
    /// Nothing: wait for the next event.
    Continue,
    /// Write these bytes to the peer, then go on.
    Write(String),
    /// Hand this line to the session, then go on.
    Deliver(Vec<u8>),
    /// Write what is still queued outbound, close the connection and exit.
    Drain,
    /// Close the connection and exit.
    Close,
    /// Exit on a transport failure.
    Fail,
}

/// The reply written straight to the peer for a line that grew too long.
pub open spec fn too_long_reply() -> Seq<char> {
    "501 5.5.2 The line is too long\r\n"@
}

/// The reply written straight to the peer for a line that is not ASCII.
pub open spec fn not_ascii_reply() -> Seq<char> {
    "501 5.5.2 Not ASCII\r\n"@
}

/// Whether `a` is what the actor does on event `e`. Framing errors are
/// answered on the spot and the connection stays open; a read failure ends it.
pub open spec fn action_for(e: StreamEvent, a: StreamAction) -> bool {
    match e {
        StreamEvent::Control(SmtpStreamControl::Shutdown) => a is Drain,
        StreamEvent::Control(_) => a is Continue,
        StreamEvent::Outbound(Some(line)) => a is Write && a->Write_0@ == line@,
        StreamEvent::Outbound(None) => a is Close,
        StreamEvent::Inbound(Ok(line)) => a is Deliver && a->Deliver_0@ == line@,
        StreamEvent::Inbound(Err(UtilReadError::TooLong)) => a is Write && a->Write_0@
            == too_long_reply(),
        StreamEvent::Inbound(Err(UtilReadError::NotAscii)) => a is Write && a->Write_0@
            == not_ascii_reply(),
        StreamEvent::Inbound(Err(UtilReadError::NetError)) => a is Fail,
        StreamEvent::EndOfStream => a is Close,
    }
}

/// Decides what a connection's actor does on one event.
pub fn next_action(event: StreamEvent) -> (r: StreamAction)
    ensures
        action_for(event, r),
{
    match event {
        StreamEvent::Control(SmtpStreamControl::Shutdown) => StreamAction::Drain,
        StreamEvent::Control(_) => StreamAction::Continue,
        StreamEvent::Outbound(Some(line)) => StreamAction::Write(line),
        StreamEvent::Outbound(None) => StreamAction::Close,
        StreamEvent::Inbound(Ok(line)) => StreamAction::Deliver(line),
        StreamEvent::Inbound(Err(UtilReadError::TooLong)) => StreamAction::Write(
            String::from_str("501 5.5.2 The line is too long\r\n"),
        ),
        StreamEvent::Inbound(Err(UtilReadError::NotAscii)) => StreamAction::Write(
            String::from_str("501 5.5.2 Not ASCII\r\n"),
        ),
        StreamEvent::Inbound(Err(UtilReadError::NetError)) => StreamAction::Fail,
        StreamEvent::EndOfStream => StreamAction::Close,
    }
}

/// Control of a listener group, shared by all of its accept loops.
#[derive(Clone, Copy, Debug, PartialEq, Eq, Structural)]
pub enum SmtpServerControl {
    /// The listeners accept connections.
    Initialize,
    /// The listeners stop accepting.
    Shutdown,
}

} // verus!
