//! Requests on sections.
use crate::controller::section::{ExternalLockSection, LockSection, Section, UpdateSection};
use crate::controller::thread::Thread;
use crate::controller::user::{may_modify, viewed_thread, User};
use crate::controller::StoreError;
use crate::endpoint::helpers::{json_result, mapped, RocketResult, Status};
use crate::lock::{next_state, state_of, SectionLock};
use vstd::prelude::*;

verus! {

/// Every section, as the store lists them.
pub fn all(rows: Result<Vec<Section>, StoreError>) -> (response: RocketResult<Vec<Section>>)
    ensures
        rows matches Ok(list) ==> response matches Ok(body) && body == list,
        rows matches Err(err) ==> response matches Err(status) && status == mapped(err),
{
    json_result(rows)
}

/// One section, as the cache or the store gave it.
pub fn get(row: Result<Section, StoreError>) -> (response: RocketResult<Section>)
    ensures
        row matches Ok(section) ==> response matches Ok(body) && body == section,
        row matches Err(err) ==> response matches Err(status) && status == mapped(err),
{
    json_result(row)
}

/// Whether `user` may add a section to `thread`, the thread that the new section names.
pub fn post(user: &User, thread: Option<&Thread>) -> (response: RocketResult<()>)
    ensures
        response is Ok <==> may_modify(user@, viewed_thread(thread)),
        response matches Err(status) ==> status == Status::Unauthorized,
{
    if user.can_modify_thread(thread) {
        Ok(())
    } else {
        Err(Status::Unauthorized)
    }
}

/// An update of a section is one of two: an update of the lock, or an update of
/// everything else.
#[derive(Debug, PartialEq, Eq)]
pub enum UpdateSectionDiscriminant {
    LockSection(ExternalLockSection),
    UpdateSection(UpdateSection),
}

/// What an update of a section stores, once it is allowed.
#[derive(Debug, PartialEq, Eq)]
pub enum SectionChange {
    Lock(LockSection),
    Fields(UpdateSection),
}

/// What a request on the lock of a section is answered with, in this order:
/// not found where there is no such section; unauthorized where the user may not modify
/// the section's thread; forbidden where the rules of the lock refuse the request; else
/// the fields to store, which are the holder that was asked for and the time now.
pub open spec fn set_lock_spec(
    user: User,
    section: Option<&Section>,
    thread: Option<&Thread>,
    data: ExternalLockSection,
    now: i64,
) -> RocketResult<LockSection> {
    match section {
        None => Err(Status::NotFound),
        Some(section) => if !may_modify(user@, viewed_thread(thread)) {
            Err(Status::Unauthorized)
        } else if next_state(
            state_of(section.lock_held_by_user_id, section.lock_assigned_at_utc),
            user.id,
            data.lock_held_by_user_id,
            now,
        ) is Some {
            Ok(
                LockSection {
                    lock_held_by_user_id: data.lock_held_by_user_id,
                    lock_assigned_at_utc: now,
                },
            )
        } else {
            Err(Status::Forbidden)
        },
    }
}

/// Decides a request of `user`, made at `now`, on the lock of a section. `section` is
/// the section, or `None` where there is none with the id of the request; `thread` is
/// the section's thread, or `None` where it is not there.
pub fn set_lock(
    user: &User,
    section: Option<&Section>,
    thread: Option<&Thread>,
    data: ExternalLockSection,
    now: i64,
) -> (response: RocketResult<LockSection>)
    ensures
        response == set_lock_spec(*user, section, thread, data, now),
{
    // The section we're trying to find wasn't found.
    let section = match section {
        Some(section) => section,
        None => {
            return Err(Status::NotFound);
        },
    };
    // Ensure the user possesses the authority to modify the lock if able to.
    if !user.can_modify_thread(thread) {
        return Err(Status::Unauthorized);
    }
    match SectionLock::of(section).request(user.id, data.lock_held_by_user_id, now) {
        Ok(fields) => Ok(fields),
        // The user isn't setting the lock to themselves, or someone else holds a lock
        // that has not expired.
        Err(_) => Err(Status::Forbidden),
    }
}

/// Whether `user` may update the fields of a section. `section` is the section, or
/// `None` where there is none with the id of the request; `thread` is its thread.
pub fn update_fields(user: &User, section: Option<&Section>, thread: Option<&Thread>) -> (response:
    RocketResult<()>)
    ensures
        response is Ok <==> section is Some && may_modify(user@, viewed_thread(thread)),
        response matches Err(status) ==> status == Status::Unauthorized,
{
    if section.is_some() && user.can_modify_thread(thread) {
        Ok(())
    } else {
        Err(Status::Unauthorized)
    }
}

/// Decides an update of a section: a request on the lock by the rules of the lock, any
/// other by whether the user may update the section.
pub fn patch(
    user: &User,
    section: Option<&Section>,
    thread: Option<&Thread>,
    data: UpdateSectionDiscriminant,
    now: i64,
) -> (response: RocketResult<SectionChange>)
    ensures
        data matches UpdateSectionDiscriminant::LockSection(lock) ==> (match set_lock_spec(
            *user,
            section,
            thread,
            lock,
            now,
        ) {
            Ok(fields) => response matches Ok(SectionChange::Lock(stored)) && stored == fields,
            Err(status) => response matches Err(refused) && refused == status,
        }),
        data matches UpdateSectionDiscriminant::UpdateSection(fields) ==> (if section is Some
            && may_modify(user@, viewed_thread(thread)) {
            response matches Ok(SectionChange::Fields(stored)) && stored == fields
        } else {
            response matches Err(refused) && refused == Status::Unauthorized
        }),
{
    match data {
        UpdateSectionDiscriminant::LockSection(lock) => match set_lock(
            user,
            section,
            thread,
            lock,
            now,
        ) {
            Ok(fields) => Ok(SectionChange::Lock(fields)),
            Err(status) => Err(status),
        },
        UpdateSectionDiscriminant::UpdateSection(fields) => match update_fields(
            user,
            section,
            thread,
        ) {
            Ok(_) => Ok(SectionChange::Fields(fields)),
            Err(status) => Err(status),
        },
    }
}

/// Whether `user` may delete a section. `section` is the section, or `None` where there
/// is none with the id of the request; `thread` is its thread.
pub fn delete(user: &User, section: Option<&Section>, thread: Option<&Thread>) -> (response:
    RocketResult<()>)
    ensures
        response is Ok <==> section is Some && may_modify(user@, viewed_thread(thread)),
        response matches Err(status) ==> status == Status::Unauthorized,
{
    if section.is_some() && user.can_modify_thread(thread) {
        Ok(())
    } else {
        Err(Status::Unauthorized)
    }
}

} // verus!
