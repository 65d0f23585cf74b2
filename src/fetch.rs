//! Collecting a response body under an optional size limit.

use vstd::prelude::*;
use crate::error::Error;

verus! {

/// The largest transparency proof accepted, in bytes.
pub const PROOF_SIZE_LIMIT: usize = 1024;

/// A response body gathered chunk by chunk. It never holds more bytes than
/// its limit: a chunk that would cross the limit is refused before any of it
/// is kept.
pub struct BoundedBody {
    data: Vec<u8>,
    limit: Option<usize>,
}

impl BoundedBody {
    pub closed spec fn wf(&self) -> bool {
        match self.limit {
            Some(l) => self.data@.len() <= l,
            None => true,
        }
    }

    pub closed spec fn bytes(&self) -> Seq<u8> {
        self.data@
    }

    pub closed spec fn max(&self) -> Option<usize> {
        self.limit
    }

    /// An empty body that will accept at most `limit` bytes, or any number.
    pub fn new(limit: Option<usize>) -> (r: BoundedBody)
        ensures
            r.bytes() == Seq::<u8>::empty(),
            r.max() == limit,
            r.wf(),
    {
        BoundedBody { data: Vec::new(), limit }
    }

    /// Appends `chunk`, or refuses it with `SizeLimitExceeded` when the body
    /// would then exceed its limit; a refused chunk leaves the body as it was.
    pub fn push_chunk(&mut self, chunk: &[u8]) -> (r: Result<(), Error>)
        requires
            old(self).wf(),
        ensures
            final(self).wf(),
            final(self).max() == old(self).max(),
            match old(self).max() {
                Some(l) => old(self).bytes().len() + chunk@.len() > l,
                None => false,
            } ==> r == Err::<(), Error>(Error::SizeLimitExceeded) && final(self).bytes() == old(self).bytes(),
            r is Ok ==> final(self).bytes() == old(self).bytes() + chunk@,
            match old(self).max() {
                Some(l) => old(self).bytes().len() + chunk@.len() <= l,
                None => old(self).bytes().len() + chunk@.len() <= usize::MAX,
            } ==> r is Ok,
            r is Err ==> r == Err::<(), Error>(Error::SizeLimitExceeded),
    {
        let have = self.data.len();
        let fits = match self.limit {
            Some(l) => chunk.len() <= l - have,
            None => chunk.len() <= usize::MAX - have,
        };
        if !fits {
            return Err(Error::SizeLimitExceeded);
        }
        let ghost before = self.data@;
        let mut i: usize = 0;
        while i < chunk.len()
            invariant
                0 <= i <= chunk@.len(),
                self.data@ == before + chunk@.subrange(0, i as int),
                self.limit == old(self).limit,
                before == old(self).data@,
            decreases chunk.len() - i,
        {
            self.data.push(chunk[i]);
            i += 1;
            assert(self.data@ =~= before + chunk@.subrange(0, i as int));
        }
        assert(chunk@.subrange(0, chunk@.len() as int) =~= chunk@);
        Ok(())
    }

    /// The number of bytes gathered so far.
    pub fn len(&self) -> (r: usize)
        ensures
            r == self.bytes().len(),
    {
        self.data.len()
    }

    /// The gathered bytes.
    pub fn into_bytes(self) -> (r: Vec<u8>)
        ensures
            r@ == self.bytes(),
    {
        self.data
    }
}

} // verus!
