//! Events kept ready to be posted.
use crate::cache::{inserted, lookup, touched, without, Cache};
use crate::controller::{viewed, Entity, EntityView, StoreError};
use vstd::prelude::*;

verus! {

/// An event kept ready to be posted.
#[derive(Debug, PartialEq, Eq)]
pub struct PresetEvent {
    pub id: i32,
    pub holds_clock: bool,
    pub message: String,
    pub name: String,
}

/// What a `PresetEvent` holds, as plain values.
pub struct PresetEventView {
    pub id: i32,
    pub holds_clock: bool,
    pub message: Seq<char>,
    pub name: Seq<char>,
}

impl View for PresetEvent {
    type V = PresetEventView;

    open spec fn view(&self) -> PresetEventView {
        PresetEventView {
            id: self.id,
            holds_clock: self.holds_clock,
            message: self.message@,
            name: self.name@,
        }
    }
}

impl Clone for PresetEvent {
    fn clone(&self) -> (copy: Self)
        ensures
            copy@ == self@,
    {
        PresetEvent {
            id: self.id,
            holds_clock: self.holds_clock,
            message: self.message.clone(),
            name: self.name.clone(),
        }
    }
}

/// The fields a new preset event is made from.
#[derive(Debug, PartialEq, Eq)]
pub struct InsertPresetEvent {
    pub holds_clock: bool,
    pub message: String,
    pub name: String,
}

/// The fields of a preset event that an update may change; `None` leaves a field as it is.
#[derive(Debug, PartialEq, Eq)]
pub struct UpdatePresetEvent {
    pub holds_clock: Option<bool>,
    pub message: Option<String>,
    pub name: Option<String>,
}

impl Default for UpdatePresetEvent {
    fn default() -> (update: Self)
        ensures
            update.holds_clock is None,
            update.message is None,
            update.name is None,
    {
        UpdatePresetEvent { holds_clock: None, message: None, name: None }
    }
}


/// The preset_event that a snapshot is, if it is one.
pub open spec fn preset_event_of(found: Option<EntityView>) -> Option<PresetEventView> {
    match found {
        Some(EntityView::PresetEvent(preset_event)) => Some(preset_event),
        _ => None,
    }
}

impl PresetEvent {
    /// Looks the preset event up in the cache. A hit makes its entry the most recently used. On a
    /// miss the caller reads the entity store and hands its answer to `load`.
    pub fn find_id(cache: &mut Cache, preset_event_id: i32) -> (found: Option<PresetEvent>)
        ensures
            viewed(found) == preset_event_of(lookup(old(cache)@, preset_event_id)),
            final(cache)@ == touched(old(cache)@, preset_event_id),
            final(cache).capacity() == old(cache).capacity(),
    {
        match cache.get(preset_event_id) {
            Some(Entity::PresetEvent(preset_event)) => Some(preset_event),
            _ => None,
        }
    }

    /// Completes a miss with the answer of the entity store: a row is filed in the cache
    /// and handed on, an error is handed on unchanged and leaves the cache as it is.
    pub fn load(cache: &mut Cache, preset_event_id: i32, stored: Result<PresetEvent, StoreError>) -> (answer:
        Result<PresetEvent, StoreError>)
        ensures
            stored matches Ok(row) ==> answer matches Ok(preset_event) && preset_event@ == row@ && final(cache)@
                == inserted(
                old(cache)@,
                preset_event_id,
                EntityView::PresetEvent(row@),
                old(cache).capacity() as int,
            ),
            stored matches Err(error) ==> answer matches Err(same) && same == error && final(cache)@
                == old(cache)@,
            final(cache).capacity() == old(cache).capacity(),
    {
        match stored {
            Ok(row) => {
                cache.put(preset_event_id, Entity::PresetEvent(row.clone()));
                Ok(row)
            },
            Err(error) => Err(error),
        }
    }

    /// The preset event was created in the store: it is filed in the cache.
    pub fn create(cache: &mut Cache, inserted_row: PresetEvent)
        ensures
            final(cache)@ == inserted(
                old(cache)@,
                inserted_row.id,
                EntityView::PresetEvent(inserted_row@),
                old(cache).capacity() as int,
            ),
            final(cache).capacity() == old(cache).capacity(),
    {
        cache.put(inserted_row.id, Entity::PresetEvent(inserted_row));
    }

    /// The preset event was updated in the store: the row as it is now is filed in the cache.
    pub fn update(cache: &mut Cache, updated_row: PresetEvent)
        ensures
            final(cache)@ == inserted(
                old(cache)@,
                updated_row.id,
                EntityView::PresetEvent(updated_row@),
                old(cache).capacity() as int,
            ),
            final(cache).capacity() == old(cache).capacity(),
    {
        cache.put(updated_row.id, Entity::PresetEvent(updated_row));
    }

    /// The preset event is deleted from the store: it leaves the cache. Where it was not
    /// cached, nothing changes.
    pub fn delete(cache: &mut Cache, preset_event_id: i32)
        ensures
            final(cache)@ == without(old(cache)@, preset_event_id),
            final(cache).capacity() == old(cache).capacity(),
    {
        cache.invalidate(preset_event_id);
    }
}

} // verus!
