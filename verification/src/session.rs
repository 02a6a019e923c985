use vstd::prelude::*;
use crate::buffer::DeltaBuffer;
use crate::file::PersistedFile;

verus! {

/// One inbound event on an open connection, as the transport hands it up.
pub enum Frame {
    /// A well-formed text frame carrying one delta.
    Text(Vec<u8>),
    /// Any non-text frame: ignored, never fatal.
    NonText,
    /// A transport-level failure: the session ends, without retry.
    TransportError,
}

/// What handling one frame did.
#[derive(PartialEq, Eq, Structural, Debug, Clone, Copy)]
pub enum FrameOutcome {
    Appended,
    Ignored,
    SessionClosed,
}

/// Where a session stands in its protocol.
#[derive(PartialEq, Eq, Structural, Debug, Clone, Copy)]
pub enum Phase {
    SendingInitial,
    Streaming,
    Closed,
}

/// The per-connection protocol driver: created on admission, it sends the
/// whole persisted document once, then streams inbound deltas into the
/// pending buffer until the transport fails or closes.
pub struct SessionHandler {
    pub phase: Phase,
}

impl SessionHandler {
    /// A handler for a connection that just won admission: nothing has been
    /// sent yet.
    pub fn admitted() -> (r: SessionHandler)
        ensures
            r.phase is SendingInitial,
    {
        SessionHandler { phase: Phase::SendingInitial }
    }

    /// The one initial message: the entire current persisted document,
    /// byte for byte — pending, undrained deltas are not part of it.
    pub fn send_initial(&mut self, file: &PersistedFile) -> (msg: Vec<u8>)
        requires
            old(self).phase is SendingInitial,
        ensures
            msg@ == file@,
            final(self).phase is Streaming,
    {
        self.phase = Phase::Streaming;
        file.read_all()
    }

    /// Handle one inbound frame while streaming: a text frame is appended
    /// verbatim, in arrival order; a non-text frame changes nothing; a
    /// transport error closes the session and changes nothing else.
    pub fn on_frame(&mut self, buffer: &mut DeltaBuffer, frame: &Frame) -> (out: FrameOutcome)
        requires
            old(self).phase is Streaming,
        ensures
            frame matches Frame::Text(delta) ==> out == FrameOutcome::Appended
                && final(self).phase is Streaming && final(buffer)@ == old(buffer)@ + delta@,
            frame is NonText ==> out == FrameOutcome::Ignored && final(self).phase is Streaming
                && final(buffer)@ == old(buffer)@,
            frame is TransportError ==> out == FrameOutcome::SessionClosed
                && final(self).phase is Closed && final(buffer)@ == old(buffer)@,
    {
        match frame {
            Frame::Text(delta) => {
                buffer.append(delta);
                FrameOutcome::Appended
            },
            Frame::NonText => FrameOutcome::Ignored,
            Frame::TransportError => {
                self.phase = Phase::Closed;
                FrameOutcome::SessionClosed
            },
        }
    }
}

} // verus!
