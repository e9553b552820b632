use vstd::prelude::*;
use crate::text::{decimal, push_decimal};

verus! {

/// Progress of a summing run, as the polling side reports it: how many readers
/// have not yet reached their end, how many summing iterations are complete,
/// and whether the run as a whole is finished.
pub struct PollInfo {
    readers_left: usize,
    iterations_done: usize,
    is_done: bool,
}

/// What `count - 1` is for a counter that wraps around below zero.
pub open spec fn wrapping_dec(count: usize) -> usize {
    if count == 0 {
        usize::MAX
    } else {
        (count - 1) as usize
    }
}

/// What `count + 1` is for a counter that wraps around above `usize::MAX`.
pub open spec fn wrapping_inc(count: usize) -> usize {
    if count == usize::MAX {
        0
    } else {
        (count + 1) as usize
    }
}

/// The line that reports a progress state.
pub open spec fn status_text(readers_left: nat, iterations_done: nat) -> Seq<char> {
    decimal(readers_left) + " readers left\t\t"@ + decimal(iterations_done) + " iterations done"@
}

impl PollInfo {
    /// Readers that have not yet reached their end.
    pub closed spec fn left(&self) -> usize {
        self.readers_left
    }

    /// Summing iterations completed.
    pub closed spec fn iterations(&self) -> usize {
        self.iterations_done
    }

    /// Whether the run is finished.
    pub closed spec fn finished(&self) -> bool {
        self.is_done
    }

    /// The state at the start of a run over `num_readers` readers.
    pub fn new(num_readers: usize) -> (info: Self)
        ensures
            info.left() == num_readers,
            info.iterations() == 0,
            !info.finished(),
    {
        PollInfo { readers_left: num_readers, iterations_done: 0, is_done: false }
    }

    /// One reader reached its end. The count wraps around below zero.
    pub fn reader_done(&mut self)
        ensures
            final(self).left() == wrapping_dec(old(self).left()),
            final(self).iterations() == old(self).iterations(),
            final(self).finished() == old(self).finished(),
    {
        self.readers_left = self.readers_left.wrapping_sub(1);
    }

    /// One summing iteration is complete. The count wraps around above
    /// `usize::MAX`.
    pub fn iteration_done(&mut self)
        ensures
            final(self).iterations() == wrapping_inc(old(self).iterations()),
            final(self).left() == old(self).left(),
            final(self).finished() == old(self).finished(),
    {
        self.iterations_done = self.iterations_done.wrapping_add(1);
    }

    /// The run is finished.
    pub fn done(&mut self)
        ensures
            final(self).finished(),
            final(self).left() == old(self).left(),
            final(self).iterations() == old(self).iterations(),
    {
        self.is_done = true;
    }

    /// Readers that have not yet reached their end.
    pub fn readers_left(&self) -> (n: usize)
        ensures
            n == self.left(),
    {
        self.readers_left
    }

    /// Summing iterations completed.
    pub fn iterations_done(&self) -> (n: usize)
        ensures
            n == self.iterations(),
    {
        self.iterations_done
    }

    /// Whether the run is finished; the polling side keeps reporting until it is.
    pub fn is_done(&self) -> (b: bool)
        ensures
            b == self.finished(),
    {
        self.is_done
    }

    /// The progress line, `"<left> readers left\t\t<done> iterations done"`.
    pub fn status_line(&self) -> (line: String)
        ensures
            line@ == status_text(self.left() as nat, self.iterations() as nat),
    {
        let mut line = String::new();
        push_decimal(&mut line, self.readers_left as u64);
        line.append(" readers left\t\t");
        push_decimal(&mut line, self.iterations_done as u64);
        line.append(" iterations done");
        line
    }
}

} // verus!
