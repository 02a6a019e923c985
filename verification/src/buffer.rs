use vstd::prelude::*;

verus! {

/// What a drain hands back: the entire pending content, verbatim.
pub open spec fn drain_output(pending: Seq<u8>) -> Seq<u8> {
    pending
}

/// What a drain leaves behind: nothing.
pub open spec fn buffer_after_drain(pending: Seq<u8>) -> Seq<u8> {
    Seq::empty()
}

/// The shared accumulator of pending text: deltas land here verbatim, in
/// arrival order, and a flush takes everything out at once.
pub struct DeltaBuffer {
    data: Vec<u8>,
}

impl View for DeltaBuffer {
    type V = Seq<u8>;

    closed spec fn view(&self) -> Seq<u8> {
        self.data@
    }
}

impl DeltaBuffer {
    pub fn new() -> (r: DeltaBuffer)
        ensures
            r@ == Seq::<u8>::empty(),
    {
        DeltaBuffer { data: Vec::new() }
    }

    pub fn len(&self) -> (n: usize)
        ensures
            n == self@.len(),
    {
        self.data.len()
    }

    pub fn is_empty(&self) -> (r: bool)
        ensures
            r == (self@.len() == 0),
    {
        self.data.len() == 0
    }

    /// Append one delta verbatim at the end of the pending content.
    pub fn append(&mut self, delta: &Vec<u8>)
        ensures
            final(self)@ == old(self)@ + delta@,
    {
        let mut i: usize = 0;
        while i < delta.len()
            invariant
                i <= delta.len(),
                self@ == old(self)@ + delta@.subrange(0, i as int),
            decreases delta.len() - i,
        {
            self.data.push(delta[i]);
            proof {
                assert(old(self)@ + delta@.subrange(0, i as int + 1) =~= (old(self)@
                    + delta@.subrange(0, i as int)).push(delta@[i as int]));
            }
            i = i + 1;
        }
        proof {
            assert(delta@.subrange(0, delta@.len() as int) =~= delta@);
        }
    }

    /// Capture the whole pending content and reset it to empty, as one step;
    /// the capture is returned.
    pub fn drain_and_clear(&mut self) -> (r: Vec<u8>)
        ensures
            r@ == drain_output(old(self)@),
            final(self)@ == buffer_after_drain(old(self)@),
    {
        let mut captured: Vec<u8> = Vec::new();
        core::mem::swap(&mut self.data, &mut captured);
        captured
    }
}

/// Two drains in a row with no intervening append return content on at most
/// the first: whatever was pending, the second drain hands back nothing.
pub proof fn lemma_second_drain_empty(pending: Seq<u8>)
    ensures
        drain_output(buffer_after_drain(pending)) == Seq::<u8>::empty(),
        pending.len() > 0 ==> drain_output(pending).len() > 0,
{
}

} // verus!
