//! Byte accounting for the bridge between the engine's writer callbacks and
//! a destination that cannot report its own position.

use vstd::prelude::*;

verus! {

/// The running count of bytes a destination has accepted.
///
/// A destination that cannot be repositioned also cannot report a position;
/// because every write the engine issues is a sequential append, this count
/// is an exact substitute for the destination's offset.
pub struct WriteCounter {
    bytes_written: u64,
}

impl View for WriteCounter {
    type V = u64;

    closed spec fn view(&self) -> u64 {
        self.bytes_written
    }
}

impl WriteCounter {
    /// A fresh counter: nothing has been written yet.
    pub fn new() -> (r: WriteCounter)
        ensures
            r@ == 0,
    {
        WriteCounter { bytes_written: 0 }
    }

    /// What a position query reports on a non-seekable destination: the
    /// running byte count.
    pub fn position(&self) -> (r: u64)
        ensures
            r == self@,
    {
        self.bytes_written
    }

    /// The decision after one write call on the destination, where
    /// `accepted` is how many bytes the destination took, or `None` on a
    /// write error. Whatever was accepted is counted, but only a complete
    /// write is success: a short write is failure, matching the engine's
    /// all-or-nothing write contract.
    pub fn record_write(&mut self, requested: usize, accepted: Option<usize>) -> (ok: bool)
        requires
            accepted matches Some(n) ==> old(self)@ + n <= u64::MAX,
        ensures
            accepted matches Some(n) ==> final(self)@ == old(self)@ + n && (ok <==> n
                == requested),
            accepted is None ==> final(self)@ == old(self)@ && !ok,
    {
        match accepted {
            Some(n) => {
                self.bytes_written = self.bytes_written + (n as u64);
                n == requested
            },
            None => false,
        }
    }
}

} // verus!
