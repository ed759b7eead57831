use vstd::prelude::*;

verus! {

/// Something that advances by one tick of the simulation.
pub trait Updatable: Sized {
    type Args;

    /// What the state must satisfy between ticks.
    spec fn valid(&self) -> bool;

    /// When a tick with `args` may run.
    spec fn update_ready(&self, args: &Self::Args) -> bool;

    /// Whether `next` is the state after one tick with `args`.
    spec fn update_post(&self, args: &Self::Args, next: &Self) -> bool;

    fn update(&mut self, args: Self::Args)
        requires
            old(self).update_ready(&args),
        ensures
            old(self).update_post(&args, final(self)),
            final(self).valid(),
    ;
}

} // verus!
