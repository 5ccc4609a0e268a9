//! The circular buffer behind the delay, chorus and reverb effects.
//!
//! A delay line of length `n` remembers the last `n` values written to it.
//! Its model is that history, oldest first: writing shifts the oldest value
//! out and the new one in, and a read `d` values back gives the value that was
//! written `d` writes ago.

use vstd::prelude::*;

verus! {

/// The history after writing `x`: the oldest value drops out, `x` comes in
/// as the newest.
pub open spec fn shifted_in<T>(history: Seq<T>, x: T) -> Seq<T> {
    history.drop_first().push(x)
}

/// The history after writing each of `xs` in turn.
pub open spec fn shifted_in_all<T>(history: Seq<T>, xs: Seq<T>) -> Seq<T>
    decreases xs.len(),
{
    if xs.len() == 0 {
        history
    } else {
        shifted_in(shifted_in_all(history, xs.drop_last()), xs.last())
    }
}

/// The value a read `delay` places back returns: the value written `delay`
/// writes ago, where a delay of 0 (like a delay of the full length) gives the
/// oldest value.
pub open spec fn echo_of<T>(history: Seq<T>, delay: int) -> T {
    if delay == 0 {
        history[0]
    } else {
        history[history.len() - delay]
    }
}

/// Position in a circular buffer of length `n` that lies `offset` places
/// after `start` (both below `n`).
pub open spec fn wrapped(start: int, offset: int, n: int) -> int {
    if start + offset < n {
        start + offset
    } else {
        start + offset - n
    }
}

/// Fixed-length delay buffer, written one value at a time.
pub struct DelayLine<T> {
    buffer: Vec<T>,
    write_pos: usize,
}

impl<T: Copy> DelayLine<T> {
    /// The buffer is not empty and the write position lies inside it.
    pub closed spec fn wf(&self) -> bool {
        &&& self.buffer@.len() > 0
        &&& self.write_pos < self.buffer@.len()
    }

    /// The values the line remembers, oldest first.
    pub closed spec fn history(&self) -> Seq<T> {
        Seq::new(
            self.buffer@.len(),
            |i: int| self.buffer@[wrapped(self.write_pos as int, i, self.buffer@.len() as int)],
        )
    }

    /// A delay line of `size` values, all `fill`.
    pub fn new(size: usize, fill: T) -> (r: Self)
        requires
            size > 0,
        ensures
            r.wf(),
            r.history() == Seq::new(size as nat, |i: int| fill),
    {
        let mut buffer: Vec<T> = Vec::new();
        let mut i: usize = 0;
        while i < size
            invariant
                i <= size,
                buffer@ == Seq::new(i as nat, |j: int| fill),
            decreases size - i,
        {
            buffer.push(fill);
            i = i + 1;
        }
        let r = DelayLine { buffer, write_pos: 0 };
        assert(r.history() =~= Seq::new(size as nat, |i: int| fill));
        r
    }

    /// Number of values the line remembers.
    pub fn len(&self) -> (r: usize)
        requires
            self.wf(),
        ensures
            r == self.history().len(),
            r > 0,
    {
        self.buffer.len()
    }

    /// Write the newest value; the oldest one drops out.
    pub fn write(&mut self, sample: T)
        requires
            old(self).wf(),
        ensures
            final(self).wf(),
            final(self).history() == shifted_in(old(self).history(), sample),
    {
        let ghost h = self.history();
        let n = self.buffer.len();
        let p = self.write_pos;
        self.buffer.set(p, sample);
        self.write_pos = if p + 1 < n { p + 1 } else { 0 };
        assert(self.history() =~= shifted_in(h, sample)) by {
            assert forall|i: int| 0 <= i < n implies #[trigger] self.history()[i] == shifted_in(h, sample)[i] by {
                if i < n - 1 {
                    assert(shifted_in(h, sample)[i] == h[i + 1]);
                } else {
                    assert(shifted_in(h, sample)[i] == sample);
                }
            }
        }
    }

    /// The value written `delay` writes ago (the oldest one for a delay of 0
    /// or of the full length); longer delays wrap around the line.
    pub fn read(&self, delay: usize) -> (r: T)
        requires
            self.wf(),
        ensures
            r == echo_of(self.history(), (delay as int) % (self.history().len() as int)),
    {
        let n = self.buffer.len();
        let p = self.write_pos;
        let d = delay % n;
        let idx = if d <= p { p - d } else { n - (d - p) };
        proof {
            let k: int = if d == 0 { 0 } else { n - d };
            assert(wrapped(p as int, k, n as int) == idx);
            assert(self.history()[k] == self.buffer@[idx as int]);
        }
        self.buffer[idx]
    }

    /// Forget everything: every remembered value becomes `fill`.
    pub fn clear(&mut self, fill: T)
        requires
            old(self).wf(),
        ensures
            final(self).wf(),
            final(self).history() == Seq::new(old(self).history().len(), |i: int| fill),
    {
        let n = self.buffer.len();
        let mut i: usize = 0;
        while i < n
            invariant
                n == self.buffer@.len(),
                n > 0,
                i <= n,
                forall|j: int| 0 <= j < i ==> self.buffer@[j] == fill,
            decreases n - i,
        {
            self.buffer.set(i, fill);
            i = i + 1;
        }
        self.write_pos = 0;
        assert(self.history() =~= Seq::new(n as nat, |i: int| fill));
    }
}

/// A delay line echoes: a value written into a line of length `n` comes back
/// from a read `k + 1` places back after `k` more writes, for every `k < n`.
pub proof fn lemma_echo<T>(history: Seq<T>, x: T, more: Seq<T>)
    requires
        more.len() < history.len(),
    ensures
        shifted_in_all(shifted_in(history, x), more).len() == history.len(),
        echo_of(shifted_in_all(shifted_in(history, x), more), more.len() + 1int) == x,
    decreases more.len(),
{
    let n = history.len();
    if more.len() == 0 {
        assert(shifted_in(history, x)[n - 1] == x);
    } else {
        let prev = more.drop_last();
        lemma_echo(history, x, prev);
        let h = shifted_in_all(shifted_in(history, x), prev);
        assert(h[n - 1 - prev.len()] == x);
        assert(shifted_in(h, more.last())[n - 1 - more.len()] == h[n - 1 - prev.len()]);
    }
}

} // verus!
