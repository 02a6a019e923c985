use vstd::prelude::*;
use crate::buffer::DeltaBuffer;
use crate::buffer::buffer_after_drain;
use crate::deltas::flushed_file;
use crate::file::PersistedFile;
use crate::gate::ConnectionGate;
use crate::gate::acquire_wins;
use crate::gate::gate_after_acquire;
use crate::session::SessionHandler;

verus! {

/// What an admission attempt came to: a handler ready to send the initial
/// document, or a rejection answered with a "too many requests" status.
pub enum AdmitDecision {
    Admitted(SessionHandler),
    TooManyRequests,
}

/// The whole buffering/persistence/session-gating core: the exclusivity
/// gate, the pending delta buffer, and the image of the durable file.
pub struct Server {
    pub gate: ConnectionGate,
    pub buffer: DeltaBuffer,
    pub file: PersistedFile,
}

impl Server {
    pub open spec fn wf(&self) -> bool {
        self.file.wf()
    }

    /// A fresh core: no session, nothing pending, an empty file.
    pub fn new() -> (r: Server)
        ensures
            !r.gate.spec_active(),
            r.buffer@ == Seq::<u8>::empty(),
            r.file@ == Seq::<u8>::empty(),
            r.wf(),
    {
        Server { gate: ConnectionGate::new(), buffer: DeltaBuffer::new(), file: PersistedFile::new() }
    }

    /// A core over a document already on disk.
    pub fn with_file(file: PersistedFile) -> (r: Server)
        ensures
            !r.gate.spec_active(),
            r.buffer@ == Seq::<u8>::empty(),
            r.file == file,
    {
        Server { gate: ConnectionGate::new(), buffer: DeltaBuffer::new(), file }
    }

    /// One admission attempt. It wins exactly when no session is active; a
    /// loser is told "too many requests" and leaves the pending buffer and
    /// the persisted file untouched — as the winner does too, until it
    /// sends or streams.
    pub fn try_admit(&mut self) -> (r: AdmitDecision)
        ensures
            (r is Admitted) == acquire_wins(old(self).gate.spec_active()),
            r matches AdmitDecision::Admitted(session) ==> session.phase is SendingInitial,
            final(self).gate.spec_active() == gate_after_acquire(old(self).gate.spec_active()),
            final(self).buffer@ == old(self).buffer@,
            final(self).file == old(self).file,
    {
        if self.gate.try_acquire() {
            AdmitDecision::Admitted(SessionHandler::admitted())
        } else {
            AdmitDecision::TooManyRequests
        }
    }

    /// A session ended: give the exclusivity slot back.
    pub fn end_session(&mut self)
        ensures
            !final(self).gate.spec_active(),
            final(self).buffer@ == old(self).buffer@,
            final(self).file == old(self).file,
    {
        self.gate.release();
    }

    /// One persistence tick: drain the pending buffer whole; append the
    /// drained bytes to the file only when there are any, and return them so
    /// the caller can write the same bytes durably. An empty drain is a
    /// no-op tick: no file operation, nothing returned.
    pub fn flush_tick(&mut self) -> (w: Option<Vec<u8>>)
        ensures
            final(self).buffer@ == buffer_after_drain(old(self).buffer@),
            final(self).file@ == flushed_file(old(self).file@, old(self).buffer@),
            old(self).wf() ==> final(self).wf(),
            final(self).gate.spec_active() == old(self).gate.spec_active(),
            final(self).file.base() == old(self).file.base(),
            old(self).buffer@.len() == 0 ==> w is None && final(self).file == old(self).file,
            old(self).buffer@.len() > 0 ==> (w matches Some(b) && b@ == old(self).buffer@)
                && final(self).file.drains() == old(self).file.drains().push(old(self).buffer@),
    {
        let drained = self.buffer.drain_and_clear();
        if drained.len() == 0 {
            proof {
                assert(flushed_file(old(self).file@, old(self).buffer@) =~= old(self).file@);
            }
            None
        } else {
            self.file.append_drain(&drained);
            Some(drained)
        }
    }

    /// One backup tick: the snapshot bytes are exactly the file's bytes at
    /// this instant — pending, undrained deltas are not part of it.
    pub fn backup_tick(&self) -> (snapshot: Vec<u8>)
        ensures
            snapshot@ == self.file@,
    {
        self.file.read_all()
    }
}

/// The decimal digit characters of n, most significant first: snapshot
/// names embed a millisecond epoch timestamp written this way.
pub open spec fn decimal_digits(n: nat) -> Seq<u8>
    decreases n,
{
    if n < 10 {
        seq![(48 + n) as u8]
    } else {
        decimal_digits(n / 10).push((48 + n % 10) as u8)
    }
}

/// Render a timestamp as its decimal digit characters.
pub fn u64_decimal(n: u64) -> (r: Vec<u8>)
    ensures
        r@ == decimal_digits(n as nat),
    decreases n,
{
    if n < 10 {
        let mut r: Vec<u8> = Vec::new();
        r.push(48 + n as u8);
        proof {
            assert(r@ =~= decimal_digits(n as nat));
        }
        r
    } else {
        let mut r = u64_decimal(n / 10);
        r.push(48 + (n % 10) as u8);
        r
    }
}

} // verus!
