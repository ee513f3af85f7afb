//! Sections of a thread.
use crate::cache::{inserted, lookup, touched, without, Cache};
use crate::controller::{viewed, Entity, EntityView, StoreError};
use crate::pipeline;
use crate::websocket::structs::{
    id_json, is_delivery, lock_json, locked_json, update_json, Action, DataType, Delivery, Message,
    Room,
};
use crate::websocket::Rooms;
use vstd::prelude::*;

verus! {

/// One section of a thread.
#[derive(Debug, PartialEq, Eq)]
pub struct Section {
    pub id: i32,
    pub is_events_section: bool,
    pub name: String,
    pub content: String,
    pub lock_held_by_user_id: Option<i32>,
    pub in_thread_id: i32,
    pub lock_assigned_at_utc: i64,
}

/// What a `Section` holds, as plain values.
pub struct SectionView {
    pub id: i32,
    pub is_events_section: bool,
    pub name: Seq<char>,
    pub content: Seq<char>,
    pub lock_held_by_user_id: Option<i32>,
    pub in_thread_id: i32,
    pub lock_assigned_at_utc: i64,
}

impl View for Section {
    type V = SectionView;

    open spec fn view(&self) -> SectionView {
        SectionView {
            id: self.id,
            is_events_section: self.is_events_section,
            name: self.name@,
            content: self.content@,
            lock_held_by_user_id: self.lock_held_by_user_id,
            in_thread_id: self.in_thread_id,
            lock_assigned_at_utc: self.lock_assigned_at_utc,
        }
    }
}

impl Clone for Section {
    fn clone(&self) -> (copy: Self)
        ensures
            copy@ == self@,
    {
        Section {
            id: self.id,
            is_events_section: self.is_events_section,
            name: self.name.clone(),
            content: self.content.clone(),
            lock_held_by_user_id: self.lock_held_by_user_id,
            in_thread_id: self.in_thread_id,
            lock_assigned_at_utc: self.lock_assigned_at_utc,
        }
    }
}

/// The fields a new section is made from.
#[derive(Debug, PartialEq, Eq)]
pub struct InsertSection {
    pub is_events_section: bool,
    pub name: String,
    pub content: String,
    pub in_thread_id: i32,
}

/// The fields of a section that an update may change; `None` leaves a field as it is.
#[derive(Debug, PartialEq, Eq)]
pub struct UpdateSection {
    pub name: Option<String>,
    pub content: Option<String>,
}

impl Default for UpdateSection {
    fn default() -> (update: Self)
        ensures
            update.name is None,
            update.content is None,
    {
        UpdateSection { name: None, content: None }
    }
}

/// Only these fields may be externally present when setting a section's lock.
#[derive(Debug, PartialEq, Eq, Structural, Clone, Copy)]
pub struct ExternalLockSection {
    pub lock_held_by_user_id: Option<i32>,
}

/// Only these fields may be internally present when setting a section's lock.
#[derive(Debug, PartialEq, Eq, Structural, Clone, Copy)]
pub struct LockSection {
    pub lock_held_by_user_id: Option<i32>,
    pub lock_assigned_at_utc: i64,
}


/// The section that a snapshot is, if it is one.
pub open spec fn section_of(found: Option<EntityView>) -> Option<SectionView> {
    match found {
        Some(EntityView::Section(section)) => Some(section),
        _ => None,
    }
}

impl Section {
    /// Looks the section up in the cache. A hit makes its entry the most recently used. On a
    /// miss the caller reads the entity store and hands its answer to `load`.
    pub fn find_id(cache: &mut Cache, section_id: i32) -> (found: Option<Section>)
        ensures
            viewed(found) == section_of(lookup(old(cache)@, section_id)),
            final(cache)@ == touched(old(cache)@, section_id),
            final(cache).capacity() == old(cache).capacity(),
    {
        match cache.get(section_id) {
            Some(Entity::Section(section)) => Some(section),
            _ => None,
        }
    }

    /// Completes a miss with the answer of the entity store: a row is filed in the cache
    /// and handed on, an error is handed on unchanged and leaves the cache as it is.
    pub fn load(cache: &mut Cache, section_id: i32, stored: Result<Section, StoreError>) -> (answer:
        Result<Section, StoreError>)
        ensures
            stored matches Ok(row) ==> answer matches Ok(section) && section@ == row@ && final(cache)@
                == inserted(
                old(cache)@,
                section_id,
                EntityView::Section(row@),
                old(cache).capacity() as int,
            ),
            stored matches Err(error) ==> answer matches Err(same) && same == error && final(cache)@
                == old(cache)@,
            final(cache).capacity() == old(cache).capacity(),
    {
        match stored {
            Ok(row) => {
                cache.put(section_id, Entity::Section(row.clone()));
                Ok(row)
            },
            Err(error) => Err(error),
        }
    }

    /// The section was created in the store: it is filed in the cache, and `data`, the text
    /// of the new section, is published.
    pub fn create(cache: &mut Cache, rooms: &Rooms, inserted_row: Section, data: String) -> (sent:
        Option<Delivery>)
        ensures
            final(cache)@ == inserted(
                old(cache)@,
                inserted_row.id,
                EntityView::Section(inserted_row@),
                old(cache).capacity() as int,
            ),
            final(cache).capacity() == old(cache).capacity(),
            is_delivery(sent, rooms@, Room::Thread(inserted_row.in_thread_id), Action::Create, DataType::Section, data@),
    {
        pipeline::create(cache, rooms, Entity::Section(inserted_row), data)
    }

    /// The section was updated in the store: the row as it is now is filed in the cache,
    /// and `changes`, the text of the fields that changed, is published behind the id.
    /// Nothing is published where `changes` is not given as a JSON object.
    pub fn update(cache: &mut Cache, rooms: &Rooms, updated_row: Section, changes: String) -> (sent:
        Option<Delivery>)
        ensures
            final(cache)@ == inserted(
                old(cache)@,
                updated_row.id,
                EntityView::Section(updated_row@),
                old(cache).capacity() as int,
            ),
            final(cache).capacity() == old(cache).capacity(),
            update_json(updated_row.id, changes@) matches Some(json) ==> is_delivery(
                sent,
                rooms@,
                Room::Thread(updated_row.in_thread_id),
                Action::Update,
                DataType::Section,
                json,
            ),
            update_json(updated_row.id, changes@) is None ==> sent is None,
    {
        pipeline::update(cache, rooms, Entity::Section(updated_row), changes)
    }

    /// The lock of the section was changed in the store: the row as it is now is filed in
    /// the cache, and the change is published to the room of the section's thread.
    pub fn set_lock(cache: &mut Cache, rooms: &Rooms, updated_row: Section, data: &LockSection) -> (sent:
        Option<Delivery>)
        ensures
            final(cache)@ == inserted(
                old(cache)@,
                updated_row.id,
                EntityView::Section(updated_row@),
                old(cache).capacity() as int,
            ),
            final(cache).capacity() == old(cache).capacity(),
            is_delivery(
                sent,
                rooms@,
                Room::Thread(updated_row.in_thread_id),
                Action::Update,
                DataType::Section,
                lock_json(updated_row.id, *data),
            ),
    {
        let room = Room::Thread(updated_row.in_thread_id);
        let text = locked_json(updated_row.id, data);
        cache.put(updated_row.id, Entity::Section(updated_row));
        Message { room, action: Action::Update, data_type: DataType::Section, data: text }.send(rooms)
    }

    /// The section is deleted from the store: it leaves the cache, and its id is published
    /// to the room of the thread it was in.
    pub fn delete(cache: &mut Cache, rooms: &Rooms, section_id: i32, thread_id: i32) -> (sent: Option<
        Delivery,
    >)
        ensures
            final(cache)@ == without(old(cache)@, section_id),
            final(cache).capacity() == old(cache).capacity(),
            is_delivery(
                sent,
                rooms@,
                Room::Thread(thread_id),
                Action::Delete,
                DataType::Section,
                id_json(section_id),
            ),
    {
        pipeline::delete(cache, rooms, section_id, Some((Room::Thread(thread_id), DataType::Section)))
    }
}

} // verus!
