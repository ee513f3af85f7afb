//! Users and what they may do.
use crate::cache::{inserted, lookup, touched, without, Cache};
use crate::controller::thread::{Thread, ThreadView};
use crate::controller::{viewed, Entity, EntityView, StoreError};
use crate::pipeline;
use crate::websocket::structs::{id_json, is_delivery, update_json, Action, DataType, Delivery, Room};
use crate::websocket::Rooms;
use vstd::prelude::*;

verus! {

/// A user, as stored. The two tokens are kept encrypted.
#[derive(Debug, PartialEq, Eq)]
pub struct User {
    pub id: i32,
    pub reddit_username: String,
    pub lang: String,
    pub refresh_token: Vec<u8>,
    pub is_global_admin: bool,
    pub spacex__is_admin: bool,
    pub spacex__is_mod: bool,
    pub spacex__is_slack_member: bool,
    pub access_token: Vec<u8>,
    pub access_token_expires_at_utc: i64,
}

/// What a `User` holds, as plain values.
pub struct UserView {
    pub id: i32,
    pub reddit_username: Seq<char>,
    pub lang: Seq<char>,
    pub refresh_token: Seq<u8>,
    pub is_global_admin: bool,
    pub spacex__is_admin: bool,
    pub spacex__is_mod: bool,
    pub spacex__is_slack_member: bool,
    pub access_token: Seq<u8>,
    pub access_token_expires_at_utc: i64,
}

impl View for User {
    type V = UserView;

    open spec fn view(&self) -> UserView {
        UserView {
            id: self.id,
            reddit_username: self.reddit_username@,
            lang: self.lang@,
            refresh_token: self.refresh_token@,
            is_global_admin: self.is_global_admin,
            spacex__is_admin: self.spacex__is_admin,
            spacex__is_mod: self.spacex__is_mod,
            spacex__is_slack_member: self.spacex__is_slack_member,
            access_token: self.access_token@,
            access_token_expires_at_utc: self.access_token_expires_at_utc,
        }
    }
}

/// A copy of a string of bytes.
pub fn clone_bytes(bytes: &Vec<u8>) -> (copy: Vec<u8>)
    ensures
        copy@ == bytes@,
{
    let mut copy: Vec<u8> = Vec::new();
    let mut i: usize = 0;
    while i < bytes.len()
        invariant
            i <= bytes.len(),
            copy@ == bytes@.subrange(0, i as int),
        decreases bytes.len() - i,
    {
        copy.push(bytes[i]);
        assert(copy@ =~= bytes@.subrange(0, i + 1));
        i += 1;
    }
    assert(bytes@.subrange(0, i as int) =~= bytes@);
    copy
}

impl Clone for User {
    fn clone(&self) -> (copy: Self)
        ensures
            copy@ == self@,
    {
        User {
            id: self.id,
            reddit_username: self.reddit_username.clone(),
            lang: self.lang.clone(),
            refresh_token: clone_bytes(&self.refresh_token),
            is_global_admin: self.is_global_admin,
            spacex__is_admin: self.spacex__is_admin,
            spacex__is_mod: self.spacex__is_mod,
            spacex__is_slack_member: self.spacex__is_slack_member,
            access_token: clone_bytes(&self.access_token),
            access_token_expires_at_utc: self.access_token_expires_at_utc,
        }
    }
}

/// The fields a new user is stored with.
#[derive(Debug, PartialEq, Eq)]
pub struct InsertUser {
    pub reddit_username: String,
    pub lang: String,
    pub refresh_token: Vec<u8>,
    pub is_global_admin: bool,
    pub spacex__is_admin: bool,
    pub spacex__is_mod: bool,
    pub spacex__is_slack_member: bool,
    pub access_token: Vec<u8>,
    pub access_token_expires_at_utc: i64,
}

/// The fields of a user that an update may change; `None` leaves a field as it is.
#[derive(Debug, PartialEq, Eq)]
pub struct UpdateUser {
    pub lang: Option<String>,
    pub refresh_token: Option<Vec<u8>>,
    pub is_global_admin: Option<bool>,
    pub spacex__is_admin: Option<bool>,
    pub spacex__is_mod: Option<bool>,
    pub spacex__is_slack_member: Option<bool>,
    pub access_token: Option<Vec<u8>>,
    pub access_token_expires_at_utc: Option<i64>,
}

impl UpdateUser {
    /// Whether the update changes nothing.
    pub open spec fn is_empty(&self) -> bool {
        &&& self.lang is None
        &&& self.refresh_token is None
        &&& self.is_global_admin is None
        &&& self.spacex__is_admin is None
        &&& self.spacex__is_mod is None
        &&& self.spacex__is_slack_member is None
        &&& self.access_token is None
        &&& self.access_token_expires_at_utc is None
    }
}

impl Default for UpdateUser {
    fn default() -> (update: Self)
        ensures
            update.is_empty(),
    {
        UpdateUser {
            lang: None,
            refresh_token: None,
            is_global_admin: None,
            spacex__is_admin: None,
            spacex__is_mod: None,
            spacex__is_slack_member: None,
            access_token: None,
            access_token_expires_at_utc: None,
        }
    }
}

/// An update of a user as a client writes it: the two tokens are still in the clear.
#[derive(Debug, PartialEq, Eq)]
pub struct ExternalUpdateUser {
    pub lang: Option<String>,
    pub refresh_token: Option<String>,
    pub is_global_admin: Option<bool>,
    pub spacex__is_admin: Option<bool>,
    pub spacex__is_mod: Option<bool>,
    pub spacex__is_slack_member: Option<bool>,
    pub access_token: Option<String>,
    pub access_token_expires_at_utc: Option<i64>,
}

/// A new user as a client writes it: the two tokens are still in the clear.
#[derive(Debug, PartialEq, Eq)]
pub struct ExternalInsertUser {
    pub reddit_username: String,
    pub lang: String,
    pub refresh_token: String,
    pub is_global_admin: bool,
    pub spacex__is_admin: bool,
    pub spacex__is_mod: bool,
    pub spacex__is_slack_member: bool,
    pub access_token: String,
    pub access_token_expires_at_utc: i64,
}

/// The language a new user gets where none is given.
pub fn en() -> (lang: String)
    ensures
        lang@ == "en"@,
{
    "en".to_owned()
}

/// The value a new user's flags get where none is given.
pub fn falsey() -> (flag: bool)
    ensures
        !flag,
{
    false
}

impl User {
    /// Check if the user is a moderator of a given subreddit.
    ///
    /// If the subreddit is not known, returns `false`.
    pub fn is_moderator_of(&self, subreddit: Option<&str>) -> (allowed: bool)
        ensures
            allowed == (subreddit matches Some(name) && name@ == "spacex"@ && self.spacex__is_mod),
    {
        match subreddit {
            Some(name) => crate::text::str_eq(name, "spacex") && self.spacex__is_mod,
            None => false,
        }
    }

    /// Check if the user is an admin of a given subreddit.
    ///
    /// If the subreddit is not known, returns `false`.
    pub fn is_admin_of(&self, subreddit: Option<&str>) -> (allowed: bool)
        ensures
            allowed == (subreddit matches Some(name) && name@ == "spacex"@
                && self.spacex__is_admin),
    {
        match subreddit {
            Some(name) => crate::text::str_eq(name, "spacex") && self.spacex__is_admin,
            None => false,
        }
    }
}


/// The user that a snapshot is, if it is one.
pub open spec fn user_of(found: Option<EntityView>) -> Option<UserView> {
    match found {
        Some(EntityView::User(user)) => Some(user),
        _ => None,
    }
}

/// The plain values of an optional reference to a thread.
pub open spec fn viewed_thread(thread: Option<&Thread>) -> Option<ThreadView> {
    match thread {
        Some(thread) => Some(thread@),
        None => None,
    }
}

/// Whether a user may modify a thread, its sections and its events: a global admin may
/// modify anything, even what is not there; anyone else must be an admin of the thread's
/// subreddit, which only `spacex` has, or have created the thread.
pub open spec fn may_modify(user: UserView, thread: Option<ThreadView>) -> bool {
    user.is_global_admin || (thread matches Some(thread) && ((thread.subreddit == Some("spacex"@)
        && user.spacex__is_admin) || thread.created_by_user_id == user.id))
}

impl User {
    /// Looks the user up in the cache. A hit makes its entry the most recently used. On a
    /// miss the caller reads the entity store and hands its answer to `load`.
    pub fn find_id(cache: &mut Cache, user_id: i32) -> (found: Option<User>)
        ensures
            viewed(found) == user_of(lookup(old(cache)@, user_id)),
            final(cache)@ == touched(old(cache)@, user_id),
            final(cache).capacity() == old(cache).capacity(),
    {
        match cache.get(user_id) {
            Some(Entity::User(user)) => Some(user),
            _ => None,
        }
    }

    /// Completes a miss with the answer of the entity store: a row is filed in the cache
    /// and handed on, an error is handed on unchanged and leaves the cache as it is.
    pub fn load(cache: &mut Cache, user_id: i32, stored: Result<User, StoreError>) -> (answer:
        Result<User, StoreError>)
        ensures
            stored matches Ok(row) ==> answer matches Ok(user) && user@ == row@ && final(cache)@
                == inserted(
                old(cache)@,
                user_id,
                EntityView::User(row@),
                old(cache).capacity() as int,
            ),
            stored matches Err(error) ==> answer matches Err(same) && same == error && final(cache)@
                == old(cache)@,
            final(cache).capacity() == old(cache).capacity(),
    {
        match stored {
            Ok(row) => {
                cache.put(user_id, Entity::User(row.clone()));
                Ok(row)
            },
            Err(error) => Err(error),
        }
    }

    /// The user was created in the store: it is filed in the cache, and `data`, the text
    /// of the new user, is published.
    pub fn create(cache: &mut Cache, rooms: &Rooms, inserted_row: User, data: String) -> (sent:
        Option<Delivery>)
        ensures
            final(cache)@ == inserted(
                old(cache)@,
                inserted_row.id,
                EntityView::User(inserted_row@),
                old(cache).capacity() as int,
            ),
            final(cache).capacity() == old(cache).capacity(),
            is_delivery(sent, rooms@, Room::User, Action::Create, DataType::User, data@),
    {
        pipeline::create(cache, rooms, Entity::User(inserted_row), data)
    }

    /// The user was updated in the store: the row as it is now is filed in the cache,
    /// and `changes`, the text of the fields that changed, is published behind the id.
    /// Nothing is published where `changes` is not given as a JSON object.
    pub fn update(cache: &mut Cache, rooms: &Rooms, updated_row: User, changes: String) -> (sent:
        Option<Delivery>)
        ensures
            final(cache)@ == inserted(
                old(cache)@,
                updated_row.id,
                EntityView::User(updated_row@),
                old(cache).capacity() as int,
            ),
            final(cache).capacity() == old(cache).capacity(),
            update_json(updated_row.id, changes@) matches Some(json) ==> is_delivery(
                sent,
                rooms@,
                Room::User,
                Action::Update,
                DataType::User,
                json,
            ),
            update_json(updated_row.id, changes@) is None ==> sent is None,
    {
        pipeline::update(cache, rooms, Entity::User(updated_row), changes)
    }

    /// The user is deleted from the store: it leaves the cache, and its id is published
    /// to the room of users.
    pub fn delete(cache: &mut Cache, rooms: &Rooms, user_id: i32) -> (sent: Option<Delivery>)
        ensures
            final(cache)@ == without(old(cache)@, user_id),
            final(cache).capacity() == old(cache).capacity(),
            is_delivery(sent, rooms@, Room::User, Action::Delete, DataType::User, id_json(user_id)),
    {
        pipeline::delete(cache, rooms, user_id, Some((Room::User, DataType::User)))
    }

    /// Is the provided user able to modify data (including sections and events)
    /// on the indicated thread?
    ///
    /// Authentication levels (from low to high):
    ///
    /// - None
    /// - Logged in (everyday user)
    /// - Thread author
    /// - Subreddit admin
    /// - Global admin
    ///
    /// This function verifies that a user is, at a minimum, the thread author. `thread`
    /// is the indicated thread, or `None` where there is no such thread.
    pub fn can_modify_thread(&self, thread: Option<&Thread>) -> (allowed: bool)
        ensures
            allowed == may_modify(self@, viewed_thread(thread)),
    {
        // Global admins can change anything.
        if self.is_global_admin {
            return true;
        }
        match thread {
            // The thread we want to change doesn't exist.
            None => false,
            Some(thread) => {
                let subreddit: Option<&str> = match &thread.subreddit {
                    Some(name) => Some(name.as_str()),
                    None => None,
                };
                // The user is a local admin, or the thread creator.
                self.is_admin_of(subreddit) || thread.created_by_user_id == self.id
            },
        }
    }

    /// When the access token of a user was refreshed, its new value and the time at which
    /// it expires have to be stored. This gives the update to store, or `None` where the
    /// time of expiry is the one that is stored already.
    pub fn access_token_update(&self, access_token: Vec<u8>, expires_at_utc: i64) -> (update: Option<
        UpdateUser,
    >)
        ensures
            update is Some <==> self.access_token_expires_at_utc != expires_at_utc,
            update matches Some(fields) ==> {
                &&& fields.access_token matches Some(token)
                &&& token@ == access_token@
                &&& fields.access_token_expires_at_utc == Some(expires_at_utc)
                &&& fields.lang is None
                &&& fields.refresh_token is None
                &&& fields.is_global_admin is None
                &&& fields.spacex__is_admin is None
                &&& fields.spacex__is_mod is None
                &&& fields.spacex__is_slack_member is None
            },
    {
        if self.access_token_expires_at_utc != expires_at_utc {
            let mut fields = UpdateUser::default();
            fields.access_token = Some(access_token);
            fields.access_token_expires_at_utc = Some(expires_at_utc);
            Some(fields)
        } else {
            None
        }
    }
}

} // verus!
