//! Requests on threads.
use crate::controller::thread::{Thread, UpdateThread};
use crate::controller::user::{may_modify, viewed_thread, User};
use crate::controller::StoreError;
use crate::endpoint::helpers::{json_result, mapped, RocketResult, Status};
use vstd::prelude::*;
use vstd::string::*;

verus! {

/// Every thread, as the store lists them.
pub fn all(rows: Result<Vec<Thread>, StoreError>) -> (response: RocketResult<Vec<Thread>>)
    ensures
        rows matches Ok(list) ==> response matches Ok(body) && body == list,
        rows matches Err(err) ==> response matches Err(status) && status == mapped(err),
{
    json_result(rows)
}

/// One thread, as the cache or the store gave it.
pub fn get(row: Result<Thread, StoreError>) -> (response: RocketResult<Thread>)
    ensures
        row matches Ok(found) ==> response matches Ok(body) && body == found,
        row matches Err(err) ==> response matches Err(status) && status == mapped(err),
{
    json_result(row)
}

/// Whether `id` is one of `ids`.
pub fn contains_id(ids: &Vec<i32>, id: i32) -> (found: bool)
    ensures
        found == ids@.contains(id),
{
    let mut i: usize = 0;
    while i < ids.len()
        invariant
            i <= ids.len(),
            forall|k: int| 0 <= k < i ==> ids@[k] != id,
        decreases ids.len() - i,
    {
        if ids[i] == id {
            return true;
        }
        i += 1;
    }
    false
}

/// Whether each of `ids` is one of `others`.
pub fn all_contained(ids: &Vec<i32>, others: &Vec<i32>) -> (contained: bool)
    ensures
        contained == ids@.to_set().subset_of(others@.to_set()),
{
    let mut i: usize = 0;
    while i < ids.len()
        invariant
            i <= ids.len(),
            forall|k: int| 0 <= k < i ==> others@.contains(#[trigger] ids@[k]),
        decreases ids.len() - i,
    {
        if !contains_id(others, ids[i]) {
            proof {
                assert(ids@.to_set().contains(ids@[i as int]));
            }
            return false;
        }
        i += 1;
    }
    proof {
        assert forall|id: i32| ids@.to_set().contains(id) implies others@.to_set().contains(id) by {
            let k = choose|k: int| 0 <= k < ids@.len() && ids@[k] == id;
            assert(others@.contains(ids@[k]));
        }
    }
    true
}

/// Whether two lists hold the same ids, in whatever order and however often.
pub fn same_ids(ids: &Vec<i32>, others: &Vec<i32>) -> (same: bool)
    ensures
        same == (ids@.to_set() == others@.to_set()),
{
    let same = all_contained(ids, others) && all_contained(others, ids);
    proof {
        if same {
            assert(ids@.to_set() =~= others@.to_set());
        }
    }
    same
}

/// Whether an update leaves a list of ids with the ids it has: it does where it does
/// not change the list, and where it only puts the ids in another order.
pub open spec fn keeps_ids(current: Seq<i32>, proposed: Option<Vec<i32>>) -> bool {
    match proposed {
        Some(list) => list@.to_set() == current.to_set(),
        None => true,
    }
}

/// What an update of a thread is answered with, in this order: unauthorized where the
/// user may not modify the thread; not found where the thread is not there; precondition
/// failed where the update adds or removes sections or events, which only a change of
/// their order is allowed to do.
pub open spec fn patch_spec(user: User, thread: Option<&Thread>, data: UpdateThread) -> RocketResult<
    (),
> {
    if !may_modify(user@, viewed_thread(thread)) {
        Err(Status::Unauthorized)
    } else {
        match thread {
            None => Err(Status::NotFound),
            Some(current) => if keeps_ids(current.sections_id@, data.sections_id) && keeps_ids(
                current.events_id@,
                data.events_id,
            ) {
                Ok(())
            } else {
                Err(Status::PreconditionFailed)
            },
        }
    }
}

/// Whether `user` may update `thread` with `data`.
pub fn patch(user: &User, thread: Option<&Thread>, data: &UpdateThread) -> (response: RocketResult<
    (),
>)
    ensures
        response == patch_spec(*user, thread, *data),
{
    if !user.can_modify_thread(thread) {
        return Err(Status::Unauthorized);
    }
    let current = match thread {
        Some(current) => current,
        None => {
            return Err(Status::NotFound);
        },
    };
    // Restrict changing `.sections_id` to reordering, not adding or removing.
    if let Some(proposed) = &data.sections_id {
        if !same_ids(&current.sections_id, proposed) {
            return Err(Status::PreconditionFailed);
        }
    }
    // Restrict changing `.events_id` to reordering, not adding or removing.
    if let Some(proposed) = &data.events_id {
        if !same_ids(&current.events_id, proposed) {
            return Err(Status::PreconditionFailed);
        }
    }
    Ok(())
}

/// Whether `user` may delete `thread`.
pub fn delete(user: &User, thread: Option<&Thread>) -> (response: RocketResult<()>)
    ensures
        response is Ok <==> may_modify(user@, viewed_thread(thread)),
        response matches Err(status) ==> status == Status::Unauthorized,
{
    if user.can_modify_thread(thread) {
        Ok(())
    } else {
        Err(Status::Unauthorized)
    }
}

/// Whether a user is a moderator of the subreddit of a thread.
pub open spec fn moderates(user: User, thread: Thread) -> bool {
    thread.subreddit matches Some(name) && name@ == "spacex"@ && user.spacex__is_mod
}

/// What a request to approve, to sticky or to unsticky the post of a thread is answered
/// with, in this order: not found where the thread is not there; precondition failed
/// where the thread has no post on Reddit; unauthorized where the user is no moderator of
/// the thread's subreddit; else the full name of the post.
pub open spec fn moderation_spec(user: User, thread: Option<&Thread>) -> RocketResult<Seq<char>> {
    match thread {
        None => Err(Status::NotFound),
        Some(thread) => match thread.post_id {
            None => Err(Status::PreconditionFailed),
            Some(post_id) => if moderates(user, *thread) {
                Ok("t3_"@ + post_id@)
            } else {
                Err(Status::Unauthorized)
            },
        },
    }
}

/// Decides a request to act as a moderator on the post of a thread, and gives the full
/// name of the post to act on.
fn moderation(user: &User, thread: Option<&Thread>) -> (response: RocketResult<String>)
    ensures
        response matches Ok(name) ==> moderation_spec(*user, thread) matches Ok(expected)
            && expected == name@,
        response matches Err(status) ==> moderation_spec(*user, thread) matches Err(expected)
            && expected == status,
{
    // The thread doesn't exist.
    let thread = match thread {
        Some(thread) => thread,
        None => {
            return Err(Status::NotFound);
        },
    };
    // The thread doesn't exist on Reddit, so we're unable to do anything here.
    let post_id = match &thread.post_id {
        Some(post_id) => post_id,
        None => {
            return Err(Status::PreconditionFailed);
        },
    };
    let subreddit: Option<&str> = match &thread.subreddit {
        Some(name) => Some(name.as_str()),
        None => None,
    };
    if !user.is_moderator_of(subreddit) {
        return Err(Status::Unauthorized);
    }
    let mut name = "t3_".to_owned();
    name.append(post_id.as_str());
    Ok(name)
}

/// Decides a request to approve the post of a thread on Reddit.
pub fn approve(user: &User, thread: Option<&Thread>) -> (response: RocketResult<String>)
    ensures
        response matches Ok(name) ==> moderation_spec(*user, thread) matches Ok(expected)
            && expected == name@,
        response matches Err(status) ==> moderation_spec(*user, thread) matches Err(expected)
            && expected == status,
{
    moderation(user, thread)
}

/// Decides a request to sticky the post of a thread on Reddit.
pub fn sticky(user: &User, thread: Option<&Thread>) -> (response: RocketResult<(String, bool)>)
    ensures
        response matches Ok(target) ==> moderation_spec(*user, thread) matches Ok(expected)
            && expected == target.0@ && target.1,
        response matches Err(status) ==> moderation_spec(*user, thread) matches Err(expected)
            && expected == status,
{
    set_sticky(user, thread, true)
}

/// Decides a request to unsticky the post of a thread on Reddit.
pub fn unsticky(user: &User, thread: Option<&Thread>) -> (response: RocketResult<(String, bool)>)
    ensures
        response matches Ok(target) ==> moderation_spec(*user, thread) matches Ok(expected)
            && expected == target.0@ && !target.1,
        response matches Err(status) ==> moderation_spec(*user, thread) matches Err(expected)
            && expected == status,
{
    set_sticky(user, thread, false)
}

/// Decides whether the post of a thread should be stickied or unstickied on Reddit, and
/// gives the full name of the post with the state to set.
fn set_sticky(user: &User, thread: Option<&Thread>, state: bool) -> (response: RocketResult<
    (String, bool),
>)
    ensures
        response matches Ok(target) ==> moderation_spec(*user, thread) matches Ok(expected)
            && expected == target.0@ && target.1 == state,
        response matches Err(status) ==> moderation_spec(*user, thread) matches Err(expected)
            && expected == status,
{
    match moderation(user, thread) {
        Ok(name) => Ok((name, state)),
        Err(status) => Err(status),
    }
}

} // verus!
