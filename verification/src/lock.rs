//! The timed lock on a section: one editor at a time, and a lock that nobody renewed
//! for `LOCK_DURATION_SECONDS` can be taken over by anyone who may edit the thread.
//! Whether the user may edit the thread at all is for the caller to check.
use crate::controller::section::{LockSection, Section, SectionView};
use vstd::prelude::*;

verus! {

/// How long are section locks able to be held for, guaranteed?
/// Currently 10 minutes,
/// although this is an implementation detail and should not be relied upon.
pub const LOCK_DURATION_SECONDS: i64 = 10 * 60;

/// The state of a section's lock.
#[derive(Debug, PartialEq, Eq, Structural, Clone, Copy)]
pub enum LockState {
    /// Nobody holds the lock.
    Unlocked,
    /// `user` holds the lock since `acquired_at`, in seconds since the epoch.
    LockedBy { user: i32, acquired_at: i64 },
}

/// A section's lock as it is stored. Without a holder, `acquired_at` means nothing.
#[derive(Debug, PartialEq, Eq, Structural, Clone, Copy)]
pub struct SectionLock {
    pub section_id: i32,
    pub holder: Option<i32>,
    pub acquired_at: i64,
}

/// The answer to a request that the lock's rules do not allow.
#[derive(Debug, PartialEq, Eq, Structural, Clone, Copy)]
pub struct Forbidden;

/// Whether a lock acquired at `acquired_at` can be taken over at `now`.
pub open spec fn is_stale(acquired_at: int, now: int) -> bool {
    now - acquired_at >= LOCK_DURATION_SECONDS as int
}

/// The state of a lock with the given holder.
pub open spec fn state_of(holder: Option<i32>, acquired_at: i64) -> LockState {
    match holder {
        Some(user) => LockState::LockedBy { user, acquired_at },
        None => LockState::Unlocked,
    }
}

/// The state after `user` asked at `now` for the lock to be held by `target`, or `None`
/// where the request is refused. There are four requests that are granted:
/// - to acquire a lock that nobody holds,
/// - to release a lock that the user holds,
/// - to renew a lock that the user holds,
/// - to take over a lock that is stale.
pub open spec fn next_state(state: LockState, user: i32, target: Option<i32>, now: i64) -> Option<
    LockState,
> {
    match state {
        LockState::Unlocked => if target == Some(user) {
            Some(LockState::LockedBy { user, acquired_at: now })
        } else {
            None
        },
        LockState::LockedBy { user: holder, acquired_at } => if target.is_none() {
            if holder == user {
                Some(LockState::Unlocked)
            } else {
                None
            }
        } else if target == Some(user) && (holder == user || is_stale(
            acquired_at as int,
            now as int,
        )) {
            Some(LockState::LockedBy { user, acquired_at: now })
        } else {
            None
        },
    }
}

/// Whether a lock acquired at `acquired_at` can be taken over at `now`.
pub fn stale(acquired_at: i64, now: i64) -> (takeable: bool)
    ensures
        takeable == is_stale(acquired_at as int, now as int),
{
    now as i128 - acquired_at as i128 >= LOCK_DURATION_SECONDS as i128
}

/// Decides a request of `user`, made at `now`, that the lock be held by `target`.
pub fn transition(state: LockState, user: i32, target: Option<i32>, now: i64) -> (outcome: Result<
    LockState,
    Forbidden,
>)
    ensures
        outcome is Ok <==> next_state(state, user, target, now) is Some,
        outcome matches Ok(next) ==> next_state(state, user, target, now) == Some(next),
{
    match state {
        LockState::Unlocked => match target {
            Some(wanted) => if wanted == user {
                Ok(LockState::LockedBy { user, acquired_at: now })
            } else {
                Err(Forbidden)
            },
            None => Err(Forbidden),
        },
        LockState::LockedBy { user: holder, acquired_at } => match target {
            None => if holder == user {
                Ok(LockState::Unlocked)
            } else {
                Err(Forbidden)
            },
            Some(wanted) => if wanted == user && (holder == user || stale(acquired_at, now)) {
                Ok(LockState::LockedBy { user, acquired_at: now })
            } else {
                Err(Forbidden)
            },
        },
    }
}

/// The four requests that are granted, and two that are not.
pub proof fn lemma_transition_table(user: i32, other: i32, acquired_at: i64, now: i64)
    requires
        user != other,
    ensures
        next_state(LockState::Unlocked, user, Some(user), now) == Some(
            LockState::LockedBy { user, acquired_at: now },
        ),
        next_state(LockState::LockedBy { user, acquired_at }, user, None, now) == Some(
            LockState::Unlocked,
        ),
        next_state(LockState::LockedBy { user, acquired_at }, user, Some(user), now) == Some(
            LockState::LockedBy { user, acquired_at: now },
        ),
        is_stale(acquired_at as int, now as int) ==> next_state(
            LockState::LockedBy { user: other, acquired_at },
            user,
            Some(user),
            now,
        ) == Some(LockState::LockedBy { user, acquired_at: now }),
        !is_stale(acquired_at as int, now as int) ==> next_state(
            LockState::LockedBy { user: other, acquired_at },
            user,
            Some(user),
            now,
        ) is None,
        next_state(LockState::LockedBy { user: other, acquired_at }, user, None, now) is None,
        next_state(LockState::LockedBy { user: other, acquired_at }, user, Some(other), now) is None,
{
}

/// A lock becomes stale exactly `LOCK_DURATION_SECONDS` after it was acquired, not a
/// second earlier.
pub proof fn lemma_expiry_boundary(now: int)
    ensures
        is_stale(now - LOCK_DURATION_SECONDS as int, now),
        !is_stale(now - LOCK_DURATION_SECONDS as int + 1, now),
{
}

/// A granted request leaves the lock with the requester, acquired now, or with nobody.
pub proof fn lemma_granted(state: LockState, user: i32, target: Option<i32>, now: i64)
    requires
        next_state(state, user, target, now) is Some,
    ensures
        next_state(state, user, target, now) == Some(state_of(target, now)),
        target is Some ==> target == Some(user),
{
}

impl SectionLock {
    /// The lock of a section.
    pub fn of(section: &Section) -> (lock: SectionLock)
        ensures
            lock.section_id == section.id,
            lock.holder == section.lock_held_by_user_id,
            lock.acquired_at == section.lock_assigned_at_utc,
    {
        SectionLock {
            section_id: section.id,
            holder: section.lock_held_by_user_id,
            acquired_at: section.lock_assigned_at_utc,
        }
    }

    /// The state of the lock.
    pub fn state(&self) -> (state: LockState)
        ensures
            state == state_of(self.holder, self.acquired_at),
    {
        match self.holder {
            Some(user) => LockState::LockedBy { user, acquired_at: self.acquired_at },
            None => LockState::Unlocked,
        }
    }

    /// Decides a request of `user`, made at `now`, that the lock be held by `target`,
    /// and gives the fields to store where it is granted.
    pub fn request(&self, user: i32, target: Option<i32>, now: i64) -> (outcome: Result<
        LockSection,
        Forbidden,
    >)
        ensures
            outcome is Ok <==> next_state(
                state_of(self.holder, self.acquired_at),
                user,
                target,
                now,
            ) is Some,
            outcome matches Ok(fields) ==> fields.lock_held_by_user_id == target
                && fields.lock_assigned_at_utc == now,
    {
        match transition(self.state(), user, target, now) {
            Ok(_) => Ok(LockSection { lock_held_by_user_id: target, lock_assigned_at_utc: now }),
            Err(refused) => Err(refused),
        }
    }
}

impl LockSection {
    /// The section as it is once these fields are stored: the lock's holder and time
    /// are replaced, everything else stays.
    pub fn apply(&self, section: &Section) -> (locked: Section)
        ensures
            locked@ == (SectionView {
                lock_held_by_user_id: self.lock_held_by_user_id,
                lock_assigned_at_utc: self.lock_assigned_at_utc,
                ..section@
            }),
    {
        let mut locked = section.clone();
        locked.lock_held_by_user_id = self.lock_held_by_user_id;
        locked.lock_assigned_at_utc = self.lock_assigned_at_utc;
        locked
    }
}

} // verus!
