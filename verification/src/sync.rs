//! Bookkeeping of the use of a resource by the GPU.
//!
//! A resource that command buffers refer to carries a counter of the
//! accesses that use it and have not been released yet. The counter is no
//! mutex: it only tells whether some command buffer still needs the
//! resource. Each access remembers two things beside it: whether it has tried
//! to lock the resource, which makes every later attempt of the same access
//! fail, and whether it is counted in the counter, which decides what its
//! release takes off.
//!
//! The functions here are the single steps of that protocol. Each of them
//! reads and writes the counter once, so a caller that shares the counter
//! between threads performs each step as one atomic operation.
use vstd::prelude::*;

verus! {

/// Number of accesses that use a resource on the GPU side and have not been
/// released yet.
#[derive(Debug, PartialEq, Eq)]
pub struct GpuLock {
    count: usize,
}

/// What an access remembers of its dealings with the counter of its
/// resource.
pub struct AccessState {
    /// True if the access has tried to lock the resource.
    pub already_locked: bool,
    /// True if the access is counted in the counter of the resource.
    pub counted: bool,
}

/// Whether an attempt to lock is granted: the access has not tried before,
/// and nothing holds the resource.
pub open spec fn lock_granted(already_locked: bool, count: nat) -> bool {
    !already_locked && count == 0
}

/// The counter after an attempt to lock: one if the attempt is granted,
/// unchanged if it is not.
pub open spec fn count_after_attempt(already_locked: bool, count: nat) -> nat {
    if lock_granted(already_locked, count) {
        1
    } else {
        count
    }
}

/// The access after an attempt to lock that finds the counter at `count`:
/// it has tried, and it is counted if it was before or if the attempt is
/// granted.
pub open spec fn state_after_attempt(state: AccessState, count: nat) -> AccessState {
    AccessState {
        already_locked: true,
        counted: state.counted || lock_granted(state.already_locked, count),
    }
}

/// The counter after an access joins the users of the resource: one more,
/// unless the access is counted already.
pub open spec fn count_after_increase(counted: bool, count: nat) -> nat {
    if counted {
        count
    } else {
        count + 1
    }
}

/// The counter after the release of an access: one less if the access is
/// counted, unchanged if it is not.
pub open spec fn count_after_release(counted: bool, count: nat) -> int {
    if counted {
        count - 1
    } else {
        count as int
    }
}

/// The access that a clone of an access is: it has tried if the access
/// has, and it is not counted.
pub open spec fn state_of_clone(state: AccessState) -> AccessState {
    AccessState { already_locked: state.already_locked, counted: false }
}

/// Number of attempts that are granted when one access tries to lock once
/// for each element of `counts`, and its attempt number `i` finds the counter
/// at `counts[i]`.
///
/// The counter may be changed between the attempts by other accesses to the
/// same resource, in whatever way: only the value that each attempt finds
/// matters.
pub open spec fn grants(already_locked: bool, counts: Seq<nat>) -> nat
    decreases counts.len(),
{
    if counts.len() == 0 {
        0
    } else {
        let granted: nat = if lock_granted(already_locked, counts[0]) {
            1
        } else {
            0
        };
        granted + grants(true, counts.drop_first())
    }
}

/// The counter after `times` accesses that were not counted have acquired
/// the resource, one after the other.
pub open spec fn count_after_acquisitions(count: nat, times: nat) -> nat
    decreases times,
{
    if times == 0 {
        count
    } else {
        count_after_acquisitions(count_after_increase(false, count), (times - 1) as nat)
    }
}

/// The counter after the release of `times` accesses that are counted.
pub open spec fn count_after_releases(count: int, times: nat) -> int
    decreases times,
{
    if times == 0 {
        count
    } else {
        count_after_releases(count_after_release(true, count as nat), (times - 1) as nat)
    }
}

/// Number of the accesses that are counted.
pub open spec fn counted_total(accesses: Seq<AccessState>) -> nat
    decreases accesses.len(),
{
    if accesses.len() == 0 {
        0
    } else {
        let last: nat = if accesses.last().counted {
            1
        } else {
            0
        };
        counted_total(accesses.drop_last()) + last
    }
}

/// The counter of a resource agrees with the accesses to the resource: it
/// holds the number of those that are counted.
pub open spec fn consistent(accesses: Seq<AccessState>, count: nat) -> bool {
    count == counted_total(accesses)
}

impl GpuLock {
    pub closed spec fn count_spec(&self) -> usize {
        self.count
    }

    /// Builds the counter of a resource that nothing uses.
    pub fn new() -> (lock: GpuLock)
        ensures
            lock.count() == 0,
    {
        GpuLock { count: 0 }
    }

    /// Builds a counter that stands at `count`.
    pub fn with_count(count: usize) -> (lock: GpuLock)
        ensures
            lock.count() == count,
    {
        GpuLock { count }
    }

    /// Returns the number of accesses that use the resource.
    #[verifier::when_used_as_spec(count_spec)]
    pub fn count(&self) -> (count: usize)
        ensures
            count == self.count_spec(),
    {
        self.count
    }

    /// Takes the resource if nothing uses it: sets the counter to one if it
    /// is zero, and leaves it unchanged otherwise. Returns true if the
    /// resource was taken.
    pub fn try_lock(&mut self) -> (locked: bool)
        ensures
            locked == lock_granted(false, old(self).count() as nat),
            final(self).count() == count_after_attempt(false, old(self).count() as nat),
    {
        if self.count == 0 {
            self.count = 1;
            true
        } else {
            false
        }
    }

    /// Counts one more access.
    pub fn increase(&mut self)
        requires
            old(self).count() < usize::MAX,
        ensures
            final(self).count() == count_after_increase(false, old(self).count() as nat),
    {
        self.count = self.count + 1;
    }

    /// Takes one access off the counter.
    pub fn release(&mut self)
        requires
            old(self).count() >= 1,
        ensures
            final(self).count() == count_after_release(true, old(self).count() as nat),
    {
        self.count = self.count - 1;
    }
}

/// However often one access tries to lock, and whatever happens to the
/// counter between its attempts, it is granted the lock at most once:
/// exactly once if it had not tried before and its first attempt finds the
/// resource unused, and never otherwise.
pub proof fn lemma_one_grant_per_access(already_locked: bool, counts: Seq<nat>)
    ensures
        grants(already_locked, counts) <= 1,
        grants(already_locked, counts) == 1 <==> counts.len() >= 1 && lock_granted(
            already_locked,
            counts[0],
        ),
    decreases counts.len(),
{
    if counts.len() > 0 {
        lemma_latched_access_is_refused(counts.drop_first());
    }
}

/// An access that has tried to lock before is never granted the lock again,
/// whatever the counter holds.
pub proof fn lemma_latched_access_is_refused(counts: Seq<nat>)
    ensures
        grants(true, counts) == 0,
    decreases counts.len(),
{
    if counts.len() > 0 {
        lemma_latched_access_is_refused(counts.drop_first());
    }
}

/// An access whose attempt is refused is not counted by it, and its release
/// leaves the counter where the holders of the resource put it.
pub proof fn lemma_refused_access_takes_nothing(state: AccessState, count: nat)
    requires
        !state.counted,
        !lock_granted(state.already_locked, count),
    ensures
        !state_after_attempt(state, count).counted,
        count_after_attempt(state.already_locked, count) == count,
        count_after_release(state_after_attempt(state, count).counted, count) == count,
{
}

/// The clone of an access is not counted, whether the access is or not, and
/// its release leaves the counter as it is.
pub proof fn lemma_clone_takes_nothing(state: AccessState, count: nat)
    ensures
        !state_of_clone(state).counted,
        count_after_release(state_of_clone(state).counted, count) == count,
{
}

/// Releasing as many accesses as have acquired the resource brings the
/// counter back to where it stood before the acquisitions.
pub proof fn lemma_releases_undo_acquisitions(count: nat, times: nat)
    ensures
        count_after_acquisitions(count, times) == count + times,
        count_after_releases(count_after_acquisitions(count, times) as int, times) == count,
{
    lemma_acquisitions_add(count, times);
    lemma_releases_subtract((count + times) as int, times);
}

proof fn lemma_acquisitions_add(count: nat, times: nat)
    ensures
        count_after_acquisitions(count, times) == count + times,
    decreases times,
{
    if times > 0 {
        lemma_acquisitions_add(count + 1, (times - 1) as nat);
    }
}

proof fn lemma_releases_subtract(count: int, times: nat)
    requires
        count >= times,
    ensures
        count_after_releases(count, times) == count - times,
    decreases times,
{
    if times > 0 {
        lemma_releases_subtract(count - 1, (times - 1) as nat);
    }
}

/// A granted lock followed by the release of the access leaves the counter
/// at zero, where it stood before.
pub proof fn lemma_release_undoes_grant(state: AccessState, count: nat)
    requires
        !state.counted,
        lock_granted(state.already_locked, count),
    ensures
        state_after_attempt(state, count).counted,
        count_after_release(
            state_after_attempt(state, count).counted,
            count_after_attempt(state.already_locked, count),
        ) == count,
{
}

/// An attempt to lock by one of the accesses keeps the counter in agreement
/// with the accesses.
pub proof fn lemma_attempt_keeps_consistent(accesses: Seq<AccessState>, count: nat, at: int)
    requires
        consistent(accesses, count),
        0 <= at < accesses.len(),
    ensures
        consistent(
            accesses.update(at, state_after_attempt(accesses[at], count)),
            count_after_attempt(accesses[at].already_locked, count),
        ),
{
    lemma_counted_total_update(accesses, at, state_after_attempt(accesses[at], count));
    lemma_counted_total_remove(accesses, at);
}

/// Counting one of the accesses keeps the counter in agreement with the
/// accesses: an access is counted once, however often it joins.
pub proof fn lemma_increase_keeps_consistent(accesses: Seq<AccessState>, count: nat, at: int)
    requires
        consistent(accesses, count),
        0 <= at < accesses.len(),
    ensures
        consistent(
            accesses.update(
                at,
                (AccessState { already_locked: accesses[at].already_locked, counted: true }),
            ),
            count_after_increase(accesses[at].counted, count),
        ),
{
    lemma_counted_total_update(
        accesses,
        at,
        AccessState { already_locked: accesses[at].already_locked, counted: true },
    );
}

/// A clone of one of the accesses keeps the counter in agreement with the
/// accesses.
pub proof fn lemma_clone_keeps_consistent(accesses: Seq<AccessState>, count: nat, of: int)
    requires
        consistent(accesses, count),
        0 <= of < accesses.len(),
    ensures
        consistent(accesses.push(state_of_clone(accesses[of])), count),
{
    let longer = accesses.push(state_of_clone(accesses[of]));
    assert(longer.drop_last() =~= accesses);
}

/// The release of one of the accesses can always be made and keeps the
/// counter in agreement with the accesses that are left: the counter holds
/// at least one for a counted access, it never goes below zero, and once
/// every access is released it is back at zero.
pub proof fn lemma_release_keeps_consistent(accesses: Seq<AccessState>, count: nat, at: int)
    requires
        consistent(accesses, count),
        0 <= at < accesses.len(),
    ensures
        accesses[at].counted ==> count >= 1,
        count_after_release(accesses[at].counted, count) >= 0,
        consistent(accesses.remove(at), count_after_release(accesses[at].counted, count) as nat),
        accesses.len() == 1 ==> count_after_release(accesses[at].counted, count) == 0,
{
    lemma_counted_total_remove(accesses, at);
    if accesses.len() == 1 {
        assert(accesses.remove(at) =~= Seq::<AccessState>::empty());
    }
}

/// Putting another state in the place of one access changes the number of
/// counted accesses by what that access changes.
proof fn lemma_counted_total_update(accesses: Seq<AccessState>, at: int, state: AccessState)
    requires
        0 <= at < accesses.len(),
    ensures
        counted_total(accesses.update(at, state)) + (if accesses[at].counted {
            1nat
        } else {
            0nat
        }) == counted_total(accesses) + (if state.counted {
            1nat
        } else {
            0nat
        }),
    decreases accesses.len(),
{
    let updated = accesses.update(at, state);
    if at == accesses.len() - 1 {
        assert(updated.drop_last() =~= accesses.drop_last());
    } else {
        lemma_counted_total_update(accesses.drop_last(), at, state);
        assert(updated.drop_last() =~= accesses.drop_last().update(at, state));
    }
}

/// Taking one access away lowers the number of counted accesses by one if
/// that access is counted, and leaves it otherwise.
proof fn lemma_counted_total_remove(accesses: Seq<AccessState>, at: int)
    requires
        0 <= at < accesses.len(),
    ensures
        counted_total(accesses.remove(at)) + (if accesses[at].counted {
            1nat
        } else {
            0nat
        }) == counted_total(accesses),
    decreases accesses.len(),
{
    let shorter = accesses.remove(at);
    if at == accesses.len() - 1 {
        assert(shorter =~= accesses.drop_last());
    } else {
        lemma_counted_total_remove(accesses.drop_last(), at);
        assert(shorter.drop_last() =~= accesses.drop_last().remove(at));
        assert(shorter.last() == accesses.last());
    }
}

} // verus!
