//! Timestamped events of a thread.
use crate::cache::{inserted, lookup, touched, without, Cache};
use crate::controller::{viewed, Entity, EntityView, StoreError};
use vstd::prelude::*;

verus! {

/// One cell of an event's row.
#[derive(Debug, PartialEq, Eq)]
pub enum Column {
    /// A whole number, such as a UTC timestamp in seconds.
    Number(i64),
    /// A piece of text.
    Text(String),
    /// Any other value: it is carried along and refused where a cell is checked.
    Other,
}

/// What a `Column` holds, as plain values.
pub enum ColumnView {
    Number(i64),
    Text(Seq<char>),
    Other,
}

impl View for Column {
    type V = ColumnView;

    open spec fn view(&self) -> ColumnView {
        match self {
            Column::Number(n) => ColumnView::Number(*n),
            Column::Text(text) => ColumnView::Text(text@),
            Column::Other => ColumnView::Other,
        }
    }
}

impl Clone for Column {
    fn clone(&self) -> (copy: Self)
        ensures
            copy@ == self@,
    {
        match self {
            Column::Number(n) => Column::Number(*n),
            Column::Text(text) => Column::Text(text.clone()),
            Column::Other => Column::Other,
        }
    }
}

/// The plain values of a row of cells.
pub open spec fn columns_view(cols: Seq<Column>) -> Seq<ColumnView> {
    Seq::new(cols.len(), |i: int| cols[i]@)
}

/// A copy of a row of cells.
pub fn clone_columns(cols: &Vec<Column>) -> (copy: Vec<Column>)
    ensures
        columns_view(copy@) == columns_view(cols@),
{
    let mut copy: Vec<Column> = Vec::new();
    let mut i: usize = 0;
    while i < cols.len()
        invariant
            i <= cols.len(),
            copy@.len() == i,
            forall|k: int| 0 <= k < i ==> (#[trigger] copy@[k])@ == cols@[k]@,
        decreases cols.len() - i,
    {
        copy.push(cols[i].clone());
        i += 1;
    }
    assert(columns_view(copy@) =~= columns_view(cols@));
    copy
}

/// One event of a thread: a row with one cell for each of the thread's column headers.
#[derive(Debug, PartialEq, Eq)]
pub struct Event {
    pub id: i32,
    pub posted: bool,
    pub in_thread_id: i32,
    pub cols: Vec<Column>,
}

/// What an `Event` holds, as plain values.
pub struct EventView {
    pub id: i32,
    pub posted: bool,
    pub in_thread_id: i32,
    pub cols: Seq<ColumnView>,
}

impl View for Event {
    type V = EventView;

    open spec fn view(&self) -> EventView {
        EventView {
            id: self.id,
            posted: self.posted,
            in_thread_id: self.in_thread_id,
            cols: columns_view(self.cols@),
        }
    }
}

impl Clone for Event {
    fn clone(&self) -> (copy: Self)
        ensures
            copy@ == self@,
    {
        Event {
            id: self.id,
            posted: self.posted,
            in_thread_id: self.in_thread_id,
            cols: clone_columns(&self.cols),
        }
    }
}

/// The fields a new event is made from.
#[derive(Debug, PartialEq, Eq)]
pub struct InsertEvent {
    pub posted: bool,
    pub in_thread_id: i32,
    pub cols: Vec<Column>,
}

/// The fields of an event that an update may change; `None` leaves a field as it is.
#[derive(Debug, PartialEq, Eq)]
pub struct UpdateEvent {
    pub posted: Option<bool>,
    pub cols: Option<Vec<Column>>,
}

impl Default for UpdateEvent {
    fn default() -> (update: Self)
        ensures
            update.posted is None,
            update.cols is None,
    {
        UpdateEvent { posted: None, cols: None }
    }
}


/// The event that a snapshot is, if it is one.
pub open spec fn event_of(found: Option<EntityView>) -> Option<EventView> {
    match found {
        Some(EntityView::Event(event)) => Some(event),
        _ => None,
    }
}

impl Event {
    /// Looks the event up in the cache. A hit makes its entry the most recently used. On a
    /// miss the caller reads the entity store and hands its answer to `load`.
    pub fn find_id(cache: &mut Cache, event_id: i32) -> (found: Option<Event>)
        ensures
            viewed(found) == event_of(lookup(old(cache)@, event_id)),
            final(cache)@ == touched(old(cache)@, event_id),
            final(cache).capacity() == old(cache).capacity(),
    {
        match cache.get(event_id) {
            Some(Entity::Event(event)) => Some(event),
            _ => None,
        }
    }

    /// Completes a miss with the answer of the entity store: a row is filed in the cache
    /// and handed on, an error is handed on unchanged and leaves the cache as it is.
    pub fn load(cache: &mut Cache, event_id: i32, stored: Result<Event, StoreError>) -> (answer:
        Result<Event, StoreError>)
        ensures
            stored matches Ok(row) ==> answer matches Ok(event) && event@ == row@ && final(cache)@
                == inserted(
                old(cache)@,
                event_id,
                EntityView::Event(row@),
                old(cache).capacity() as int,
            ),
            stored matches Err(error) ==> answer matches Err(same) && same == error && final(cache)@
                == old(cache)@,
            final(cache).capacity() == old(cache).capacity(),
    {
        match stored {
            Ok(row) => {
                cache.put(event_id, Entity::Event(row.clone()));
                Ok(row)
            },
            Err(error) => Err(error),
        }
    }

    /// The event was created in the store: it is filed in the cache.
    pub fn create(cache: &mut Cache, inserted_row: Event)
        ensures
            final(cache)@ == inserted(
                old(cache)@,
                inserted_row.id,
                EntityView::Event(inserted_row@),
                old(cache).capacity() as int,
            ),
            final(cache).capacity() == old(cache).capacity(),
    {
        cache.put(inserted_row.id, Entity::Event(inserted_row));
    }

    /// The event was updated in the store: the row as it is now is filed in the cache.
    pub fn update(cache: &mut Cache, updated_row: Event)
        ensures
            final(cache)@ == inserted(
                old(cache)@,
                updated_row.id,
                EntityView::Event(updated_row@),
                old(cache).capacity() as int,
            ),
            final(cache).capacity() == old(cache).capacity(),
    {
        cache.put(updated_row.id, Entity::Event(updated_row));
    }

    /// The event is deleted from the store: it leaves the cache. Where it was not
    /// cached, nothing changes.
    pub fn delete(cache: &mut Cache, event_id: i32)
        ensures
            final(cache)@ == without(old(cache)@, event_id),
            final(cache).capacity() == old(cache).capacity(),
    {
        cache.invalidate(event_id);
    }
}

} // verus!
