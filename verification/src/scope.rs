//! The goniometer (vectorscope) trace: one output frame in every
//! `GONIO_DECIMATE` is kept, and the last `GONIO_POINTS` kept frames are
//! shown. The frame type is left open; the plug-in keeps `(left, right)`
//! sample pairs.

use vstd::prelude::*;
use crate::decimator::{Decimator, fires_from, next_phase, phase_after, lemma_one_firing_per_factor};
use crate::ring::{SampleRing, repeated};

verus! {

/// Number of points held for the goniometer.
pub const GONIO_POINTS: usize = 256;

/// One goniometer point is taken every this many output frames.
pub const GONIO_DECIMATE: usize = 32;

/// The decimated goniometer trace.
pub struct Goniometer<T> {
    points: SampleRing<T>,
    every: Decimator,
}

impl<T> Goniometer<T> {
    #[verifier::type_invariant]
    closed spec fn well_formed(self) -> bool {
        &&& self.points@.len() == GONIO_POINTS
        &&& self.every.spec_factor() == GONIO_DECIMATE
    }

    /// The kept points, oldest first.
    pub closed spec fn trace(&self) -> Seq<T> {
        self.points@
    }

    /// Frames seen since the last kept one.
    pub closed spec fn phase(&self) -> nat {
        self.every.spec_phase()
    }
}

impl<T: Copy> Goniometer<T> {
    /// A trace of `GONIO_POINTS` copies of `origin`, counting from the start.
    pub fn new(origin: T) -> (r: Self)
        ensures
            r.trace() == repeated(origin, GONIO_POINTS as nat),
            r.phase() == 0,
    {
        Goniometer { points: SampleRing::new(GONIO_POINTS, origin), every: Decimator::new(GONIO_DECIMATE) }
    }

    /// See one output frame; every `GONIO_DECIMATE`-th frame is kept as the
    /// newest point and the oldest point leaves. Returns whether it was kept.
    pub fn record(&mut self, frame: T) -> (kept: bool)
        ensures
            kept == fires_from(old(self).phase(), GONIO_DECIMATE as nat),
            final(self).phase() == next_phase(old(self).phase(), GONIO_DECIMATE as nat),
            final(self).trace() == if kept {
                old(self).trace().drop_first().push(frame)
            } else {
                old(self).trace()
            },
        no_unwind
    {
        proof {
            use_type_invariant(&*self);
        }
        let kept = self.every.tick();
        if kept {
            self.points.push(frame);
        }
        kept
    }

    /// Clear the trace to `origin` and start counting afresh.
    pub fn reset(&mut self, origin: T)
        ensures
            final(self).trace() == repeated(origin, GONIO_POINTS as nat),
            final(self).phase() == 0,
        no_unwind
    {
        proof {
            use_type_invariant(&*self);
        }
        self.points.fill(origin);
        self.every.reset();
    }

    /// Copy the trace, oldest first, into `out`; see `SampleRing::copy_to`.
    pub fn copy_to(&self, out: &mut [T])
        ensures
            final(out)@.len() == old(out)@.len(),
            forall|k: int|
                0 <= k < final(out)@.len() ==> #[trigger] final(out)@[k] == if k < GONIO_POINTS {
                    self.trace()[k]
                } else {
                    old(out)@[k]
                },
    {
        proof {
            use_type_invariant(self);
        }
        self.points.copy_to(out);
    }
}

/// Flatten `(left, right)` pairs into `[l0, r0, l1, r1, ...]`.
pub fn interleave_pairs<T: Copy>(pairs: &[(T, T)]) -> (flat: Vec<T>)
    requires
        pairs@.len() * 2 <= usize::MAX,
    ensures
        flat@.len() == 2 * pairs@.len(),
        forall|i: int|
            0 <= i < pairs@.len() ==> #[trigger] flat@[2 * i] == pairs@[i].0 && flat@[2 * i + 1]
                == pairs@[i].1,
{
    let n = pairs.len();
    let mut flat: Vec<T> = Vec::new();
    let mut i: usize = 0;
    while i < n
        invariant
            n == pairs@.len(),
            n * 2 <= usize::MAX,
            i <= n,
            flat@.len() == 2 * i,
            forall|j: int|
                0 <= j < i ==> #[trigger] flat@[2 * j] == pairs@[j].0 && flat@[2 * j + 1]
                    == pairs@[j].1,
        decreases n - i,
    {
        let (l, r) = pairs[i];
        let ghost before = flat@;
        flat.push(l);
        flat.push(r);
        assert(flat@ =~= before.push(l).push(r));
        assert(flat@[2 * i as int] == pairs@[i as int].0);
        assert(flat@[2 * i as int + 1] == pairs@[i as int].1);
        assert forall|j: int| 0 <= j < i + 1 implies #[trigger] flat@[2 * j] == pairs@[j].0
            && flat@[2 * j + 1] == pairs@[j].1 by {
            if j < i {
                assert(flat@[2 * j] == before[2 * j]);
                assert(flat@[2 * j + 1] == before[2 * j + 1]);
            }
        }
        i = i + 1;
    }
    flat
}

/// The trace after recording `frames`, one `record` call per frame, into a
/// goniometer whose trace is `start` and whose count starts at zero (as
/// `new` leaves it): each call keeps its frame exactly when the counter fires.
pub open spec fn run_trace<T>(start: Seq<T>, frames: Seq<T>) -> Seq<T>
    decreases frames.len(),
{
    if frames.len() == 0 {
        start
    } else {
        let before = run_trace(start, frames.drop_last());
        let phase = phase_after(0, GONIO_DECIMATE as nat, (frames.len() - 1) as nat);
        if fires_from(phase, GONIO_DECIMATE as nat) {
            before.drop_first().push(frames.last())
        } else {
            before
        }
    }
}

/// The frames a run keeps: those at positions `GONIO_DECIMATE * k - 1`.
pub open spec fn kept_frames<T>(frames: Seq<T>) -> Seq<T> {
    Seq::new(
        frames.len() / (GONIO_DECIMATE as nat),
        |k: int| frames[GONIO_DECIMATE * k + GONIO_DECIMATE - 1],
    )
}

/// The last `len` items of `s`.
pub open spec fn last_items<T>(s: Seq<T>, len: nat) -> Seq<T> {
    s.subrange(s.len() - len, s.len() as int)
}

/// A goniometer fresh from `new(origin)`, after `frames` are recorded one by
/// one, shows the last `GONIO_POINTS` of: `GONIO_POINTS` copies of `origin`
/// followed by the frames at positions 31, 63, 95, ... (every
/// `GONIO_DECIMATE`-th frame); no other frame is ever shown.
pub proof fn lemma_goniometer_run<T>(origin: T, frames: Seq<T>)
    ensures
        run_trace(repeated(origin, GONIO_POINTS as nat), frames) == last_items(
            repeated(origin, GONIO_POINTS as nat) + kept_frames(frames),
            GONIO_POINTS as nat,
        ),
{
    lemma_run_trace(repeated(origin, GONIO_POINTS as nat), frames);
}

/// The run law for any starting trace that is not empty.
proof fn lemma_run_trace<T>(start: Seq<T>, frames: Seq<T>)
    requires
        start.len() > 0,
    ensures
        run_trace(start, frames) == last_items(start + kept_frames(frames), start.len()),
    decreases frames.len(),
{
    let f = GONIO_DECIMATE as nat;
    let len = start.len();
    if frames.len() == 0 {
        assert(kept_frames(frames) =~= Seq::<T>::empty());
        assert(last_items(start + kept_frames(frames), len) =~= start);
    } else {
        let m = (frames.len() - 1) as nat;
        let prefix = frames.drop_last();
        lemma_run_trace(start, prefix);
        lemma_one_firing_per_factor(0, f, m);
        let before_all = start + kept_frames(prefix);
        let phase = phase_after(0, f, m);
        assert(phase == m % f);
        if fires_from(phase, f) {
            assert(m % f == f - 1);
            assert(frames.len() / f == m / f + 1);
            assert(kept_frames(frames) =~= kept_frames(prefix).push(frames.last()));
            assert(start + kept_frames(frames) =~= before_all.push(frames.last()));
            assert(last_items(before_all, len).drop_first().push(frames.last()) =~= last_items(
                before_all.push(frames.last()),
                len,
            ));
        } else {
            assert(m % f < f - 1);
            assert(frames.len() / f == m / f);
            assert(kept_frames(frames) =~= kept_frames(prefix));
        }
    }
}

} // verus!
