//! The entities of a live thread and what is kept of them in memory.
pub mod claim;
pub mod event;
pub mod global_admin;
pub mod markdown;
pub mod preset_event;
pub mod section;
pub mod thread;
pub mod user;

use crate::controller::event::{Event, EventView};
use crate::controller::preset_event::{PresetEvent, PresetEventView};
use crate::controller::section::{Section, SectionView};
use crate::controller::thread::{Thread, ThreadView};
use crate::controller::user::{User, UserView};
pub use crate::text::texts;
use vstd::prelude::*;

verus! {

/// How many events the cache holds at most.
pub const EVENT_CACHE_SIZE: usize = 100;

/// How many preset events the cache holds at most.
pub const PRESET_EVENT_CACHE_SIZE: usize = 100;

/// How many sections the cache holds at most.
pub const SECTION_CACHE_SIZE: usize = 50;

/// How many threads the cache holds at most.
pub const THREAD_CACHE_SIZE: usize = 5;

/// How many users the cache holds at most.
pub const USER_CACHE_SIZE: usize = 100;

/// The characters of an optional string.
pub open spec fn option_text(value: Option<String>) -> Option<Seq<char>> {
    match value {
        Some(text) => Some(text@),
        None => None,
    }
}

/// A copy of an optional string.
pub fn clone_option_text(value: &Option<String>) -> (copy: Option<String>)
    ensures
        option_text(copy) == option_text(*value),
{
    match value {
        Some(text) => Some(text.clone()),
        None => None,
    }
}

/// A copy of a list of ids.
pub fn clone_ids(ids: &Vec<i32>) -> (copy: Vec<i32>)
    ensures
        copy@ == ids@,
{
    let mut copy: Vec<i32> = Vec::new();
    let mut i: usize = 0;
    while i < ids.len()
        invariant
            i <= ids.len(),
            copy@ == ids@.subrange(0, i as int),
        decreases ids.len() - i,
    {
        copy.push(ids[i]);
        assert(copy@ =~= ids@.subrange(0, i + 1));
        i += 1;
    }
    assert(ids@.subrange(0, i as int) =~= ids@);
    copy
}

/// A copy of a list of strings.
pub fn clone_texts(values: &Vec<String>) -> (copy: Vec<String>)
    ensures
        texts(copy@) == texts(values@),
{
    let mut copy: Vec<String> = Vec::new();
    let mut i: usize = 0;
    while i < values.len()
        invariant
            i <= values.len(),
            copy@.len() == i,
            forall|k: int| 0 <= k < i ==> (#[trigger] copy@[k])@ == values@[k]@,
        decreases values.len() - i,
    {
        copy.push(values[i].clone());
        i += 1;
    }
    assert(texts(copy@) =~= texts(values@));
    copy
}

/// What an optional value holds.
pub open spec fn viewed<T: View>(value: Option<T>) -> Option<T::V> {
    match value {
        Some(inner) => Some(inner@),
        None => None,
    }
}

/// A snapshot of one stored entity, of whichever type.
#[derive(Debug, PartialEq, Eq)]
pub enum Entity {
    Event(Event),
    PresetEvent(PresetEvent),
    Section(Section),
    Thread(Thread),
    User(User),
}

/// What an `Entity` holds, as plain values.
pub enum EntityView {
    Event(EventView),
    PresetEvent(PresetEventView),
    Section(SectionView),
    Thread(ThreadView),
    User(UserView),
}

impl EntityView {
    /// The id of the entity.
    pub open spec fn id(self) -> i32 {
        match self {
            EntityView::Event(event) => event.id,
            EntityView::PresetEvent(preset) => preset.id,
            EntityView::Section(section) => section.id,
            EntityView::Thread(thread) => thread.id,
            EntityView::User(user) => user.id,
        }
    }
}

impl View for Entity {
    type V = EntityView;

    open spec fn view(&self) -> EntityView {
        match self {
            Entity::Event(event) => EntityView::Event(event@),
            Entity::PresetEvent(preset) => EntityView::PresetEvent(preset@),
            Entity::Section(section) => EntityView::Section(section@),
            Entity::Thread(thread) => EntityView::Thread(thread@),
            Entity::User(user) => EntityView::User(user@),
        }
    }
}

impl Clone for Entity {
    fn clone(&self) -> (copy: Self)
        ensures
            copy@ == self@,
    {
        match self {
            Entity::Event(event) => Entity::Event(event.clone()),
            Entity::PresetEvent(preset) => Entity::PresetEvent(preset.clone()),
            Entity::Section(section) => Entity::Section(section.clone()),
            Entity::Thread(thread) => Entity::Thread(thread.clone()),
            Entity::User(user) => Entity::User(user.clone()),
        }
    }
}

impl Entity {
    /// The id of the entity.
    pub fn id(&self) -> (id: i32)
        ensures
            id == self@.id(),
    {
        match self {
            Entity::Event(event) => event.id,
            Entity::PresetEvent(preset) => preset.id,
            Entity::Section(section) => section.id,
            Entity::Thread(thread) => thread.id,
            Entity::User(user) => user.id,
        }
    }
}

/// What the entity store answers when it cannot give a row.
#[derive(Debug, PartialEq, Eq, Structural, Clone, Copy)]
pub enum StoreError {
    /// No row has the id that was asked for.
    NotFound,
    /// The store failed.
    Internal,
}

} // verus!
