//! Abstractions shared by the parts of a worker.

use tokio::sync::Semaphore;
use vstd::prelude::*;

verus! {

/// `tokio::sync::Semaphore`, a counting semaphore. Nothing is known of a
/// semaphore but what the functions below say.
#[verifier::external_type_specification]
#[verifier::external_body]
pub struct ExSemaphore(Semaphore);

/// The number of permits that a semaphore has to give.
pub uninterp spec fn permits_of(sem: Semaphore) -> usize;

/// Whether a semaphore has been closed, so that it gives no permits.
pub uninterp spec fn is_closed(sem: Semaphore) -> bool;

/// The most permits that a semaphore can have.
pub open spec fn spec_max_permits_limit() -> usize {
    (usize::MAX / 8) as usize
}

/// `Semaphore::new`: a new semaphore is open and has the permits it was
/// made with, of which there can be no more than `Semaphore::MAX_PERMITS`.
#[verifier::external_body]
pub(crate) fn new_semaphore(permits: usize) -> (sem: Semaphore)
    requires
        permits <= spec_max_permits_limit(),
    ensures
        permits_of(sem) == permits,
        !is_closed(sem),
{
    Semaphore::new(permits)
}

/// `Semaphore::available_permits`: the number of permits the semaphore has
/// to give.
#[verifier::external_body]
pub(crate) fn semaphore_available_permits(sem: &Semaphore) -> (permits: usize)
    ensures
        permits == permits_of(*sem),
{
    sem.available_permits()
}

/// `Semaphore::add_permits`, for one permit: the semaphore has one permit
/// more, which must not take it beyond `Semaphore::MAX_PERMITS`.
#[verifier::external_body]
pub(crate) fn semaphore_add_permit(sem: &mut Semaphore)
    requires
        permits_of(*old(sem)) < spec_max_permits_limit(),
    ensures
        permits_of(*final(sem)) == permits_of(*old(sem)) + 1,
        is_closed(*final(sem)) == is_closed(*old(sem)),
{
    sem.add_permits(1)
}

/// `Semaphore::try_acquire`, and `SemaphorePermit::forget` on the permit it
/// gives: an open semaphore that has a permit gives one, which does not
/// come back to it; otherwise the semaphore stays as it is.
#[verifier::external_body]
pub(crate) fn semaphore_acquire_forget(sem: &mut Semaphore) -> (acquired: bool)
    ensures
        acquired == (permits_of(*old(sem)) > 0 && !is_closed(*old(sem))),
        permits_of(*final(sem)) == (if acquired {
            permits_of(*old(sem)) - 1
        } else {
            permits_of(*old(sem)) as int
        }),
        is_closed(*final(sem)) == is_closed(*old(sem)),
{
    match sem.try_acquire() {
        Ok(permit) => {
            permit.forget();
            true
        },
        Err(_) => false,
    }
}

/// The slot semaphore: a semaphore, and the count of the permits that have
/// been acquired from it and neither released nor forgotten.
///
/// A permit that is acquired is held until it is released, which returns it
/// to the semaphore, or forgotten, which keeps it out of circulation until a
/// permit is added again. Waiting for a permit is the caller's business:
/// `try_acquire` says whether one was to be had.
#[derive(Debug)]
pub struct MeteredSemaphore {
    sem: Semaphore,
    max_permits: usize,
    held: usize,
}

impl MeteredSemaphore {
    /// The number of permits the semaphore was made with.
    pub closed spec fn spec_max_permits(&self) -> usize {
        self.max_permits
    }

    /// The number of permits that can be acquired.
    pub closed spec fn spec_available_permits(&self) -> usize {
        permits_of(self.sem)
    }

    /// The number of permits acquired and neither released nor forgotten.
    pub closed spec fn spec_held_permits(&self) -> usize {
        self.held
    }

    /// The semaphore is open.
    pub closed spec fn is_open(&self) -> bool {
        !is_closed(self.sem)
    }

    /// The semaphore is open, and the permits in circulation are no more
    /// than a semaphore can have.
    pub open spec fn wf(&self) -> bool {
        &&& self.is_open()
        &&& self.spec_available_permits() + self.spec_held_permits() <= spec_max_permits_limit()
    }

    /// A semaphore with `max_permits` permits, of which there can be no more
    /// than a semaphore can have.
    pub fn new(max_permits: usize) -> (r: Self)
        requires
            max_permits <= spec_max_permits_limit(),
        ensures
            r.wf(),
            r.spec_max_permits() == max_permits,
            r.spec_available_permits() == max_permits,
            r.spec_held_permits() == 0,
    {
        MeteredSemaphore { sem: new_semaphore(max_permits), max_permits, held: 0 }
    }

    #[verifier::when_used_as_spec(spec_max_permits)]
    pub fn max_permits(&self) -> (r: usize)
        ensures
            r == self.spec_max_permits(),
    {
        self.max_permits
    }

    #[verifier::when_used_as_spec(spec_available_permits)]
    pub fn available_permits(&self) -> (r: usize)
        ensures
            r == self.spec_available_permits(),
    {
        semaphore_available_permits(&self.sem)
    }

    #[verifier::when_used_as_spec(spec_held_permits)]
    pub fn held_permits(&self) -> (r: usize)
        ensures
            r == self.spec_held_permits(),
    {
        self.held
    }

    /// Acquires a permit if one is available, and says whether it did.
    pub fn try_acquire(&mut self) -> (acquired: bool)
        requires
            old(self).wf(),
        ensures
            final(self).wf(),
            final(self).spec_max_permits() == old(self).spec_max_permits(),
            acquired == (old(self).spec_available_permits() > 0),
            final(self).spec_available_permits() == (if acquired {
                old(self).spec_available_permits() - 1
            } else {
                old(self).spec_available_permits() as int
            }),
            final(self).spec_held_permits() == (if acquired {
                old(self).spec_held_permits() + 1
            } else {
                old(self).spec_held_permits() as int
            }),
    {
        // The permit is held by count: the semaphore gets it back when it
        // is released, and does not when it is forgotten.
        if semaphore_acquire_forget(&mut self.sem) {
            self.held = self.held + 1;
            true
        } else {
            false
        }
    }

    /// Returns a held permit.
    pub fn release(&mut self)
        requires
            old(self).wf(),
            old(self).spec_held_permits() > 0,
        ensures
            final(self).wf(),
            final(self).spec_max_permits() == old(self).spec_max_permits(),
            final(self).spec_available_permits() == old(self).spec_available_permits() + 1,
            final(self).spec_held_permits() == old(self).spec_held_permits() - 1,
    {
        self.held = self.held - 1;
        semaphore_add_permit(&mut self.sem);
    }

    /// Takes a held permit out of circulation. `add_permit` restores it.
    pub fn forget(&mut self)
        requires
            old(self).wf(),
            old(self).spec_held_permits() > 0,
        ensures
            final(self).wf(),
            final(self).spec_max_permits() == old(self).spec_max_permits(),
            final(self).spec_available_permits() == old(self).spec_available_permits(),
            final(self).spec_held_permits() == old(self).spec_held_permits() - 1,
    {
        self.held = self.held - 1;
    }

    /// Puts one more permit into circulation, which must not take the
    /// permits beyond what a semaphore can have.
    pub fn add_permit(&mut self)
        requires
            old(self).wf(),
            old(self).spec_available_permits() + old(self).spec_held_permits()
                < spec_max_permits_limit(),
        ensures
            final(self).wf(),
            final(self).spec_max_permits() == old(self).spec_max_permits(),
            final(self).spec_available_permits() == old(self).spec_available_permits() + 1,
            final(self).spec_held_permits() == old(self).spec_held_permits(),
    {
        semaphore_add_permit(&mut self.sem);
    }
}

} // verus!
