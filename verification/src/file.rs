use vstd::prelude::*;
use crate::deltas::concat_all;
use crate::deltas::lemma_concat_all_push;

verus! {

/// In-memory image of the append-only durable file: the exact bytes on disk,
/// together with the ghost history of how they got there.
pub struct PersistedFile {
    data: Vec<u8>,
    base: Ghost<Seq<u8>>,
    drains: Ghost<Seq<Seq<u8>>>,
}

impl View for PersistedFile {
    type V = Seq<u8>;

    closed spec fn view(&self) -> Seq<u8> {
        self.data@
    }
}

impl PersistedFile {
    /// The bytes the file held before any flush appended to it.
    pub closed spec fn base(&self) -> Seq<u8> {
        self.base@
    }

    /// Every drained batch appended so far, in drain order.
    pub closed spec fn drains(&self) -> Seq<Seq<u8>> {
        self.drains@
    }

    /// File invariant: the content is the original bytes followed by all
    /// drained batches concatenated in drain order.
    pub open spec fn wf(&self) -> bool {
        self@ == self.base() + concat_all(self.drains())
    }

    pub fn new() -> (r: PersistedFile)
        ensures
            r@ == Seq::<u8>::empty(),
            r.base() == Seq::<u8>::empty(),
            r.drains() == Seq::<Seq<u8>>::empty(),
            r.wf(),
    {
        let r = PersistedFile {
            data: Vec::new(),
            base: Ghost(Seq::empty()),
            drains: Ghost(Seq::empty()),
        };
        proof {
            assert(r@ =~= r.base() + concat_all(r.drains()));
        }
        r
    }

    /// Adopt bytes already on disk as the starting content.
    pub fn from_bytes(bytes: Vec<u8>) -> (r: PersistedFile)
        ensures
            r@ == bytes@,
            r.base() == bytes@,
            r.drains() == Seq::<Seq<u8>>::empty(),
            r.wf(),
    {
        let r = PersistedFile {
            base: Ghost(bytes@),
            drains: Ghost(Seq::empty()),
            data: bytes,
        };
        proof {
            assert(r@ =~= r.base() + concat_all(r.drains()));
        }
        r
    }

    pub fn len(&self) -> (n: usize)
        ensures
            n == self@.len(),
    {
        self.data.len()
    }

    /// Append one drained batch at the end, as a flush tick does.
    pub fn append_drain(&mut self, drained: &Vec<u8>)
        ensures
            final(self)@ == old(self)@ + drained@,
            final(self).base() == old(self).base(),
            final(self).drains() == old(self).drains().push(drained@),
            old(self).wf() ==> final(self).wf(),
    {
        let mut i: usize = 0;
        while i < drained.len()
            invariant
                i <= drained.len(),
                self@ == old(self)@ + drained@.subrange(0, i as int),
                self.base() == old(self).base(),
                self.drains() == old(self).drains(),
            decreases drained.len() - i,
        {
            self.data.push(drained[i]);
            proof {
                assert(old(self)@ + drained@.subrange(0, i as int + 1) =~= (old(self)@
                    + drained@.subrange(0, i as int)).push(drained@[i as int]));
            }
            i = i + 1;
        }
        self.drains = Ghost(self.drains@.push(drained@));
        proof {
            assert(drained@.subrange(0, drained@.len() as int) =~= drained@);
            lemma_concat_all_push(old(self).drains(), drained@);
            if old(self).wf() {
                assert(self@ =~= self.base() + concat_all(self.drains()));
            }
        }
    }

    /// The exact current bytes, copied out whole: what a new session is sent
    /// first, and what a backup snapshots.
    pub fn read_all(&self) -> (r: Vec<u8>)
        ensures
            r@ == self@,
    {
        let mut r: Vec<u8> = Vec::new();
        let mut i: usize = 0;
        while i < self.data.len()
            invariant
                i <= self.data.len(),
                r@ == self@.subrange(0, i as int),
            decreases self.data.len() - i,
        {
            r.push(self.data[i]);
            proof {
                assert(self@.subrange(0, i as int + 1) =~= self@.subrange(0, i as int).push(
                    self@[i as int]));
            }
            i = i + 1;
        }
        proof {
            assert(self@.subrange(0, self@.len() as int) =~= self@);
        }
        r
    }
}

} // verus!
