//! A fixed-length sliding window over the most recent samples.
//!
//! The window is stored as a ring: `buf` holds the samples and `head` is the
//! slot of the oldest one, which is also where the next sample is written.
//! Abstractly the window is the sequence of samples from oldest to newest.

use vstd::prelude::*;

verus! {

/// Sliding window of fixed, non-zero length.
pub struct SampleRing<T> {
    buf: Vec<T>,
    head: usize,
}

impl<T> SampleRing<T> {
    #[verifier::type_invariant]
    closed spec fn well_formed(self) -> bool {
        &&& self.buf@.len() > 0
        &&& self.head < self.buf@.len()
    }
}

impl<T> View for SampleRing<T> {
    type V = Seq<T>;

    /// The samples from oldest to newest.
    closed spec fn view(&self) -> Seq<T> {
        self.buf@.subrange(self.head as int, self.buf@.len() as int) + self.buf@.subrange(
            0,
            self.head as int,
        )
    }
}

/// A sequence of `len` copies of `v`.
pub open spec fn repeated<T>(v: T, len: nat) -> Seq<T> {
    Seq::new(len, |_k: int| v)
}

/// The window that results from starting at `w` and pushing `xs` one after
/// the other: each push drops the oldest sample and appends the new one.
pub open spec fn pushed_all<T>(w: Seq<T>, xs: Seq<T>) -> Seq<T>
    decreases xs.len(),
{
    if xs.len() == 0 {
        w
    } else {
        pushed_all(w.drop_first().push(xs[0]), xs.drop_first())
    }
}

impl<T: Copy> SampleRing<T> {
    /// A window of `len` samples, all equal to `fill`.
    pub fn new(len: usize, fill: T) -> (r: Self)
        requires
            len > 0,
        ensures
            r@ == repeated(fill, len as nat),
    {
        let mut buf: Vec<T> = Vec::new();
        while buf.len() < len
            invariant
                buf.len() <= len,
                buf@ == repeated(fill, buf.len() as nat),
            decreases len - buf.len(),
        {
            buf.push(fill);
        }
        let r = SampleRing { buf, head: 0 };
        assert(r@ =~= repeated(fill, len as nat));
        r
    }

    /// Number of samples in the window; it never changes.
    pub fn len(&self) -> (n: usize)
        ensures
            n == self@.len(),
            n > 0,
    {
        proof {
            use_type_invariant(self);
        }
        self.buf.len()
    }

    /// The `k`-th sample, counting from the oldest.
    pub fn get(&self, k: usize) -> (x: T)
        requires
            k < self@.len(),
        ensures
            x == self@[k as int],
    {
        proof {
            use_type_invariant(self);
        }
        let n = self.buf.len();
        let tail = n - self.head;
        if k < tail {
            self.buf[self.head + k]
        } else {
            self.buf[k - tail]
        }
    }

    /// Push a new sample; the oldest one leaves the window and is returned.
    pub fn push(&mut self, x: T) -> (evicted: T)
        ensures
            evicted == old(self)@[0],
            final(self)@ == old(self)@.drop_first().push(x),
        no_unwind
    {
        proof {
            use_type_invariant(&*self);
        }
        let ghost before = self@;
        let h = self.head;
        let n = self.buf.len();
        let evicted = self.buf[h];
        self.buf[h] = x;
        if h + 1 == n {
            self.head = 0;
        } else {
            self.head = h + 1;
        }
        assert(self@ =~= before.drop_first().push(x));
        evicted
    }

    /// Overwrite every sample with `v`.
    pub fn fill(&mut self, v: T)
        ensures
            final(self)@ == repeated(v, old(self)@.len()),
        no_unwind
    {
        proof {
            use_type_invariant(&*self);
        }
        let n = self.buf.len();
        let mut i: usize = 0;
        while i < n
            invariant
                n == self.buf@.len(),
                n > 0,
                i <= n,
                self.head < n,
                forall|j: int| 0 <= j < i ==> self.buf@[j] == v,
            decreases n - i,
        {
            self.buf[i] = v;
            i = i + 1;
        }
        self.head = 0;
        assert(self@ =~= repeated(v, n as nat));
    }

    /// Copy the window, oldest first, into `out`. When `out` is shorter than
    /// the window only its length is filled; when it is longer the rest of it
    /// is left as it was.
    pub fn copy_to(&self, out: &mut [T])
        ensures
            final(out)@.len() == old(out)@.len(),
            forall|k: int|
                0 <= k < final(out)@.len() ==> #[trigger] final(out)@[k] == if k < self@.len() {
                    self@[k]
                } else {
                    old(out)@[k]
                },
    {
        proof {
            use_type_invariant(self);
        }
        let len = out.len();
        let n = self.buf.len();
        let count = if len < n {
            len
        } else {
            n
        };
        let mut k: usize = 0;
        while k < count
            invariant
                count <= len,
                count <= n,
                len == out@.len(),
                len == old(out)@.len(),
                count == (if len < n { len } else { n }),
                n == self@.len(),
                k <= count,
                forall|j: int| 0 <= j < k ==> #[trigger] out@[j] == self@[j],
                forall|j: int| k <= j < len ==> #[trigger] out@[j] == old(out)@[j],
            decreases count - k,
        {
            let x = self.get(k);
            out[k] = x;
            k = k + 1;
        }
    }
}

/// Pushing samples one at a time keeps the most recent ones: after pushing
/// `xs` into the window `w`, the window is the last `w.len()` samples of
/// `w` followed by `xs`.
pub proof fn lemma_window_keeps_latest<T>(w: Seq<T>, xs: Seq<T>)
    requires
        w.len() > 0,
    ensures
        pushed_all(w, xs) == (w + xs).subrange(xs.len() as int, (w + xs).len() as int),
    decreases xs.len(),
{
    if xs.len() == 0 {
        assert((w + xs).subrange(0, (w + xs).len() as int) =~= w);
    } else {
        let w2 = w.drop_first().push(xs[0]);
        lemma_window_keeps_latest(w2, xs.drop_first());
        assert(w2 + xs.drop_first() =~= (w + xs).subrange(1, (w + xs).len() as int));
        assert((w2 + xs.drop_first()).subrange(
            xs.drop_first().len() as int,
            (w2 + xs.drop_first()).len() as int,
        ) =~= (w + xs).subrange(xs.len() as int, (w + xs).len() as int));
    }
}

} // verus!
