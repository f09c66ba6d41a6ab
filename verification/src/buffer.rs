//! The sample buffer: blocks of the incoming stream are appended as they
//! arrive, and once more than a window's worth has gathered, the newest
//! window is handed out for analysis and all but an overlap is dropped.
//!
//! The buffer never looks at a sample, so it is generic in the sample type.

use vstd::prelude::*;
use vstd::slice::{slice_subrange, slice_to_vec};

verus! {

/// Samples in one analysis window. A window is due once the buffer holds
/// more than this.
pub const WINDOW_LEN: usize = 4096;

/// Samples that stay in the buffer after a window was taken, so that
/// successive windows overlap.
pub const OVERLAP_LEN: usize = 2048;

/// The newest `n` items of `s`, or all of `s` where it holds no more than `n`.
pub open spec fn newest<T>(s: Seq<T>, n: nat) -> Seq<T> {
    if s.len() <= n {
        s
    } else {
        s.subrange(s.len() - n, s.len() as int)
    }
}

/// Whether a buffer with these contents owes a window.
pub open spec fn window_due<T>(s: Seq<T>) -> bool {
    s.len() > WINDOW_LEN
}

/// The samples gathered so far, oldest first.
pub struct SampleBuffer<T> {
    samples: Vec<T>,
}

impl<T> View for SampleBuffer<T> {
    type V = Seq<T>;

    closed spec fn view(&self) -> Seq<T> {
        self.samples@
    }
}

impl<T> SampleBuffer<T> {
    /// An empty buffer.
    pub fn new() -> (buffer: Self)
        ensures
            buffer@ == Seq::<T>::empty(),
    {
        SampleBuffer { samples: Vec::new() }
    }

    /// The number of samples held.
    pub fn len(&self) -> (n: usize)
        ensures
            n == self@.len(),
    {
        self.samples.len()
    }

    /// Adds a block at the newest end. A short block, or an empty one, is
    /// added like any other.
    pub fn append(&mut self, block: Vec<T>)
        ensures
            final(self)@ == old(self)@ + block@,
    {
        let mut block = block;
        self.samples.append(&mut block);
    }

    /// Whether a window is due: the buffer holds more than a window's worth.
    pub fn is_ready(&self) -> (ready: bool)
        ensures
            ready == window_due(self@),
    {
        self.samples.len() > WINDOW_LEN
    }

    /// The newest window, where one is due. The buffer stays as it is, so
    /// asking again gives the same window.
    pub fn window(&self) -> (window: Option<&[T]>)
        ensures
            window is Some <==> window_due(self@),
            window matches Some(w) ==> w@ == newest(self@, WINDOW_LEN as nat),
    {
        let len: usize = self.samples.len();
        if len > WINDOW_LEN {
            Some(slice_subrange(self.samples.as_slice(), len - WINDOW_LEN, len))
        } else {
            None
        }
    }

    /// Drops all but the newest overlap. A buffer that holds no more than the
    /// overlap stays as it is.
    pub fn trim(&mut self)
        ensures
            final(self)@ == newest(old(self)@, OVERLAP_LEN as nat),
    {
        let len: usize = self.samples.len();
        if len > OVERLAP_LEN {
            let kept = self.samples.split_off(len - OVERLAP_LEN);
            self.samples = kept;
        }
    }
}

impl<T: Copy> SampleBuffer<T> {
    /// Where a window is due, hands out a copy of the newest window and
    /// trims the buffer to the overlap; otherwise leaves the buffer alone.
    pub fn take_window(&mut self) -> (window: Option<Vec<T>>)
        ensures
            window is Some <==> window_due(old(self)@),
            window matches Some(w) ==> w@ == newest(old(self)@, WINDOW_LEN as nat),
            window matches Some(w) ==> final(self)@ == newest(w@, OVERLAP_LEN as nat),
            final(self)@ == if window_due(old(self)@) {
                newest(old(self)@, OVERLAP_LEN as nat)
            } else {
                old(self)@
            },
    {
        let len: usize = self.samples.len();
        if len > WINDOW_LEN {
            let copy = slice_to_vec(
                slice_subrange(self.samples.as_slice(), len - WINDOW_LEN, len),
            );
            self.trim();
            Some(copy)
        } else {
            None
        }
    }
}

} // verus!
