//! A counter that lets one event through in every `factor` ticks.
//!
//! The goniometer keeps one output frame in every 32, and the plug-in ships a
//! packet to the editor on every second audio block; both are this counter.

use vstd::prelude::*;
use vstd::arithmetic::div_mod::{lemma_fundamental_div_mod, lemma_fundamental_div_mod_converse};

verus! {

/// Counts ticks modulo `factor`; a tick fires when the count wraps to zero.
pub struct Decimator {
    factor: usize,
    phase: usize,
}

/// Phase after one tick from phase `p`.
pub open spec fn next_phase(p: nat, factor: nat) -> nat {
    if p + 1 >= factor {
        0
    } else {
        (p + 1) as nat
    }
}

/// Whether a tick from phase `p` fires.
pub open spec fn fires_from(p: nat, factor: nat) -> bool {
    p + 1 >= factor
}

/// Phase after `n` ticks from phase `p`, one tick at a time.
pub open spec fn phase_after(p: nat, factor: nat, n: nat) -> nat
    decreases n,
{
    if n == 0 {
        p
    } else {
        next_phase(phase_after(p, factor, (n - 1) as nat), factor)
    }
}

/// How many of `n` ticks from phase `p` fire, one tick at a time.
pub open spec fn fires_after(p: nat, factor: nat, n: nat) -> nat
    decreases n,
{
    if n == 0 {
        0
    } else {
        let prev = phase_after(p, factor, (n - 1) as nat);
        fires_after(p, factor, (n - 1) as nat) + if fires_from(prev, factor) {
            1nat
        } else {
            0nat
        }
    }
}

impl Decimator {
    #[verifier::type_invariant]
    closed spec fn well_formed(self) -> bool {
        &&& self.factor > 0
        &&& self.phase < self.factor
    }

    /// How many ticks make one firing.
    pub closed spec fn spec_factor(&self) -> nat {
        self.factor as nat
    }

    /// Ticks since the last firing (or since the start).
    pub closed spec fn spec_phase(&self) -> nat {
        self.phase as nat
    }

    /// A counter that fires on every `factor`-th tick, starting now.
    pub fn new(factor: usize) -> (r: Self)
        requires
            factor > 0,
        ensures
            r.spec_factor() == factor,
            r.spec_phase() == 0,
    {
        Decimator { factor, phase: 0 }
    }

    /// Ticks since the last firing.
    pub fn phase(&self) -> (p: usize)
        ensures
            p == self.spec_phase(),
            p < self.spec_factor(),
    {
        proof {
            use_type_invariant(self);
        }
        self.phase
    }

    /// How many ticks make one firing.
    pub fn factor(&self) -> (f: usize)
        ensures
            f == self.spec_factor(),
            f > 0,
    {
        proof {
            use_type_invariant(self);
        }
        self.factor
    }

    /// Count one tick; returns whether this tick fires.
    pub fn tick(&mut self) -> (fire: bool)
        ensures
            final(self).spec_factor() == old(self).spec_factor(),
            fire == fires_from(old(self).spec_phase(), old(self).spec_factor()),
            final(self).spec_phase() == next_phase(old(self).spec_phase(), old(self).spec_factor()),
        no_unwind
    {
        proof {
            use_type_invariant(&*self);
        }
        let p = self.phase + 1;
        if p >= self.factor {
            self.phase = 0;
            true
        } else {
            self.phase = p;
            false
        }
    }

    /// Start counting afresh.
    pub fn reset(&mut self)
        ensures
            final(self).spec_factor() == old(self).spec_factor(),
            final(self).spec_phase() == 0,
        no_unwind
    {
        proof {
            use_type_invariant(&*self);
        }
        self.phase = 0;
    }
}

/// From any phase below `factor`, after `n` ticks the phase is
/// `(p + n) % factor` and `(p + n) / factor` of the ticks have fired: one
/// firing in every `factor` ticks, on the ticks that complete a multiple of
/// `factor`.
pub proof fn lemma_one_firing_per_factor(p: nat, factor: nat, n: nat)
    requires
        factor > 0,
        p < factor,
    ensures
        phase_after(p, factor, n) == (p + n) % factor,
        fires_after(p, factor, n) == (p + n) / factor,
    decreases n,
{
    let f = factor as int;
    if n == 0 {
        lemma_fundamental_div_mod_converse(p as int, f, 0, p as int);
    } else {
        let m = (n - 1) as nat;
        lemma_one_firing_per_factor(p, factor, m);
        let x: int = (p + m) as int;
        lemma_fundamental_div_mod(x, f);
        let q: int = x / f;
        let r: int = x % f;
        assert(0 <= r < f) by {
            vstd::arithmetic::div_mod::lemma_mod_bound(x, f);
        }
        assert(q * f == f * q) by (nonlinear_arith);
        if r + 1 < f {
            lemma_fundamental_div_mod_converse(x + 1, f, q, r + 1);
        } else {
            assert(x + 1 == (q + 1) * f + 0) by (nonlinear_arith)
                requires
                    x == f * q + r,
                    r + 1 == f,
            ;
            lemma_fundamental_div_mod_converse(x + 1, f, q + 1, 0);
        }
    }
}

} // verus!
