//! The world: the objects in it and the time that has passed in it.

use vstd::prelude::*;

use crate::object::Object;

verus! {

/// The elapsed time after `n` updates of `dt` each, starting from `start`.
pub open spec fn time_after_updates(start: nat, dt: nat, n: nat) -> nat
    decreases n,
{
    if n == 0 {
        start
    } else {
        time_after_updates(start, dt, (n - 1) as nat) + dt
    }
}

/// The world. Its objects are fixed when it is created; its clock counts
/// microseconds and advances by each frame's delta.
pub struct World<V> {
    objects: Vec<Object<V>>,
    time_elapsed: u64,
}

impl<V> World<V> {
    /// The objects in the world, in the order they were added.
    pub closed spec fn objects(&self) -> Seq<Object<V>> {
        self.objects@
    }

    /// Microseconds elapsed in the world.
    pub closed spec fn elapsed(&self) -> nat {
        self.time_elapsed as nat
    }

    /// A world that holds `objects`, with its clock at zero.
    pub fn init(objects: Vec<Object<V>>) -> (r: Self)
        ensures
            r.objects() == objects@,
            r.elapsed() == 0,
    {
        World { objects, time_elapsed: 0 }
    }

    /// The objects in the world, in the order they were added.
    pub fn get_objects(&self) -> (r: &Vec<Object<V>>)
        ensures
            r@ == self.objects(),
    {
        &self.objects
    }

    /// Microseconds elapsed in the world.
    pub fn get_time_elapsed(&self) -> (r: u64)
        ensures
            r == self.elapsed(),
    {
        self.time_elapsed
    }

    /// Advances the clock by `dt` microseconds.
    pub fn update(&mut self, dt: u64)
        requires
            old(self).elapsed() + dt <= u64::MAX,
        ensures
            final(self).elapsed() == time_after_updates(old(self).elapsed(), dt as nat, 1),
            final(self).objects() == old(self).objects(),
    {
        self.time_elapsed = self.time_elapsed + dt;
        assert(time_after_updates(old(self).elapsed(), dt as nat, 0) == old(self).elapsed());
    }
}

/// After `n` updates of `dt` each, a clock that started at zero reads `n * dt`.
pub proof fn lemma_elapsed_after_updates(dt: nat, n: nat)
    ensures
        time_after_updates(0, dt, n) == n * dt,
    decreases n,
{
    if n == 0 {
        assert(n * dt == 0) by (nonlinear_arith)
            requires
                n == 0,
        ;
    } else {
        lemma_elapsed_after_updates(dt, (n - 1) as nat);
        assert(time_after_updates(0, dt, n) == (n - 1) * dt + dt);
        assert((n - 1) * dt + dt == n * dt) by (nonlinear_arith)
            requires
                n > 0,
        ;
    }
}

/// One more update after `n` updates is `n + 1` updates.
pub proof fn lemma_update_extends(start: nat, dt: nat, n: nat)
    ensures
        time_after_updates(time_after_updates(start, dt, n), dt, 1) == time_after_updates(
            start,
            dt,
            n + 1,
        ),
{
    assert(time_after_updates(time_after_updates(start, dt, n), dt, 0) == time_after_updates(start, dt, n));
}

} // verus!
