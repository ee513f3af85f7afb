//! Threads: the ordered sections and events of one live document.
use crate::controller::{clone_ids, clone_option_text, clone_texts, option_text, texts};
use crate::cache::{inserted, lookup, touched, without, Cache};
use crate::controller::{viewed, Entity, EntityView, StoreError};
use vstd::prelude::*;

verus! {

/// A live thread.
#[derive(Debug, PartialEq, Eq)]
pub struct Thread {
    pub id: i32,
    pub thread_name: String,
    pub display_name: String,
    pub post_id: Option<String>,
    pub subreddit: Option<String>,
    pub space__t0: Option<i64>,
    pub youtube_id: Option<String>,
    pub spacex__api_id: Option<String>,
    pub created_by_user_id: i32,
    pub sections_id: Vec<i32>,
    pub events_id: Vec<i32>,
    pub event_column_headers: Vec<String>,
    pub space__utc_col_index: Option<i16>,
}

/// What a `Thread` holds, as plain values.
pub struct ThreadView {
    pub id: i32,
    pub thread_name: Seq<char>,
    pub display_name: Seq<char>,
    pub post_id: Option<Seq<char>>,
    pub subreddit: Option<Seq<char>>,
    pub space__t0: Option<i64>,
    pub youtube_id: Option<Seq<char>>,
    pub spacex__api_id: Option<Seq<char>>,
    pub created_by_user_id: i32,
    pub sections_id: Seq<i32>,
    pub events_id: Seq<i32>,
    pub event_column_headers: Seq<Seq<char>>,
    pub space__utc_col_index: Option<i16>,
}

impl View for Thread {
    type V = ThreadView;

    open spec fn view(&self) -> ThreadView {
        ThreadView {
            id: self.id,
            thread_name: self.thread_name@,
            display_name: self.display_name@,
            post_id: option_text(self.post_id),
            subreddit: option_text(self.subreddit),
            space__t0: self.space__t0,
            youtube_id: option_text(self.youtube_id),
            spacex__api_id: option_text(self.spacex__api_id),
            created_by_user_id: self.created_by_user_id,
            sections_id: self.sections_id@,
            events_id: self.events_id@,
            event_column_headers: texts(self.event_column_headers@),
            space__utc_col_index: self.space__utc_col_index,
        }
    }
}

impl Clone for Thread {
    fn clone(&self) -> (copy: Self)
        ensures
            copy@ == self@,
    {
        Thread {
            id: self.id,
            thread_name: self.thread_name.clone(),
            display_name: self.display_name.clone(),
            post_id: clone_option_text(&self.post_id),
            subreddit: clone_option_text(&self.subreddit),
            space__t0: self.space__t0,
            youtube_id: clone_option_text(&self.youtube_id),
            spacex__api_id: clone_option_text(&self.spacex__api_id),
            created_by_user_id: self.created_by_user_id,
            sections_id: clone_ids(&self.sections_id),
            events_id: clone_ids(&self.events_id),
            event_column_headers: clone_texts(&self.event_column_headers),
            space__utc_col_index: self.space__utc_col_index,
        }
    }
}

/// The fields a new thread is stored with.
#[derive(Debug, PartialEq, Eq)]
pub struct InsertThread {
    pub thread_name: String,
    pub display_name: String,
    pub post_id: Option<String>,
    pub subreddit: Option<String>,
    pub space__t0: Option<i64>,
    pub youtube_id: Option<String>,
    pub spacex__api_id: Option<String>,
    pub created_by_user_id: i32,
    pub sections_id: Vec<i32>,
    pub events_id: Vec<i32>,
    pub event_column_headers: Vec<String>,
    pub space__utc_col_index: Option<i16>,
}

/// The fields of a thread that an update may change; `None` leaves a field as it is.
#[derive(Debug, PartialEq, Eq)]
pub struct UpdateThread {
    pub display_name: Option<String>,
    pub space__t0: Option<Option<i64>>,
    pub youtube_id: Option<Option<String>>,
    pub spacex__api_id: Option<Option<String>>,
    pub sections_id: Option<Vec<i32>>,
    pub events_id: Option<Vec<i32>>,
    pub event_column_headers: Option<Vec<String>>,
}

impl UpdateThread {
    /// Whether the update changes nothing.
    pub open spec fn is_empty(&self) -> bool {
        &&& self.display_name is None
        &&& self.space__t0 is None
        &&& self.youtube_id is None
        &&& self.spacex__api_id is None
        &&& self.sections_id is None
        &&& self.events_id is None
        &&& self.event_column_headers is None
    }
}

impl Default for UpdateThread {
    fn default() -> (update: Self)
        ensures
            update.is_empty(),
    {
        UpdateThread {
            display_name: None,
            space__t0: None,
            youtube_id: None,
            spacex__api_id: None,
            sections_id: None,
            events_id: None,
            event_column_headers: None,
        }
    }
}

/// Not all fields that are insertable should be provided by the user.
/// An `ExternalInsertThread` stands wherever user input is expected.
#[derive(Debug, PartialEq, Eq)]
pub struct ExternalInsertThread {
    pub thread_name: String,
    pub display_name: String,
    pub subreddit: Option<String>,
    pub space__t0: Option<i64>,
    pub youtube_id: Option<String>,
    pub spacex__api_id: Option<String>,
    pub event_column_headers: Vec<String>,
    pub space__utc_col_index: Option<i16>,
}


/// The thread that a snapshot is, if it is one.
pub open spec fn thread_of(found: Option<EntityView>) -> Option<ThreadView> {
    match found {
        Some(EntityView::Thread(thread)) => Some(thread),
        _ => None,
    }
}

/// The ids but for `id`, in the same order.
pub open spec fn ids_without(ids: Seq<i32>, id: i32) -> Seq<i32> {
    ids.filter(|other: i32| other != id)
}

/// The ids but for `id`, in the same order.
pub fn retain_other(ids: &Vec<i32>, id: i32) -> (kept: Vec<i32>)
    ensures
        kept@ == ids_without(ids@, id),
{
    let mut kept: Vec<i32> = Vec::new();
    let mut i: usize = 0;
    proof {
        reveal(Seq::filter);
        assert(ids@.subrange(0, 0) =~= Seq::<i32>::empty());
    }
    while i < ids.len()
        invariant
            i <= ids.len(),
            kept@ == ids_without(ids@.subrange(0, i as int), id),
        decreases ids.len() - i,
    {
        proof {
            reveal(Seq::filter);
            let more = ids@.subrange(0, i + 1);
            assert(more.drop_last() =~= ids@.subrange(0, i as int));
            assert(more.last() == ids@[i as int]);
        }
        if ids[i] != id {
            kept.push(ids[i]);
        }
        i += 1;
    }
    proof {
        assert(ids@.subrange(0, i as int) =~= ids@);
    }
    kept
}

/// Whether the update changes the list of sections to `ids` and nothing else.
pub open spec fn changes_sections_only(update: UpdateThread, ids: Seq<i32>) -> bool {
    &&& update.sections_id matches Some(list)
    &&& list@ == ids
    &&& update.display_name is None
    &&& update.space__t0 is None
    &&& update.youtube_id is None
    &&& update.spacex__api_id is None
    &&& update.events_id is None
    &&& update.event_column_headers is None
}

/// Whether the update changes the list of events to `ids` and nothing else.
pub open spec fn changes_events_only(update: UpdateThread, ids: Seq<i32>) -> bool {
    &&& update.events_id matches Some(list)
    &&& list@ == ids
    &&& update.display_name is None
    &&& update.space__t0 is None
    &&& update.youtube_id is None
    &&& update.spacex__api_id is None
    &&& update.sections_id is None
    &&& update.event_column_headers is None
}

impl Thread {
    /// Looks the thread up in the cache. A hit makes its entry the most recently used. On a
    /// miss the caller reads the entity store and hands its answer to `load`.
    pub fn find_id(cache: &mut Cache, thread_id: i32) -> (found: Option<Thread>)
        ensures
            viewed(found) == thread_of(lookup(old(cache)@, thread_id)),
            final(cache)@ == touched(old(cache)@, thread_id),
            final(cache).capacity() == old(cache).capacity(),
    {
        match cache.get(thread_id) {
            Some(Entity::Thread(thread)) => Some(thread),
            _ => None,
        }
    }

    /// Completes a miss with the answer of the entity store: a row is filed in the cache
    /// and handed on, an error is handed on unchanged and leaves the cache as it is.
    pub fn load(cache: &mut Cache, thread_id: i32, stored: Result<Thread, StoreError>) -> (answer:
        Result<Thread, StoreError>)
        ensures
            stored matches Ok(row) ==> answer matches Ok(thread) && thread@ == row@ && final(cache)@
                == inserted(
                old(cache)@,
                thread_id,
                EntityView::Thread(row@),
                old(cache).capacity() as int,
            ),
            stored matches Err(error) ==> answer matches Err(same) && same == error && final(cache)@
                == old(cache)@,
            final(cache).capacity() == old(cache).capacity(),
    {
        match stored {
            Ok(row) => {
                cache.put(thread_id, Entity::Thread(row.clone()));
                Ok(row)
            },
            Err(error) => Err(error),
        }
    }

    /// The thread was created in the store: it is filed in the cache.
    pub fn create(cache: &mut Cache, inserted_row: Thread)
        ensures
            final(cache)@ == inserted(
                old(cache)@,
                inserted_row.id,
                EntityView::Thread(inserted_row@),
                old(cache).capacity() as int,
            ),
            final(cache).capacity() == old(cache).capacity(),
    {
        cache.put(inserted_row.id, Entity::Thread(inserted_row));
    }

    /// The thread was updated in the store: the row as it is now is filed in the cache.
    pub fn update(cache: &mut Cache, updated_row: Thread)
        ensures
            final(cache)@ == inserted(
                old(cache)@,
                updated_row.id,
                EntityView::Thread(updated_row@),
                old(cache).capacity() as int,
            ),
            final(cache).capacity() == old(cache).capacity(),
    {
        cache.put(updated_row.id, Entity::Thread(updated_row));
    }

    /// The thread is deleted from the store: it leaves the cache. Where it was not
    /// cached, nothing changes.
    pub fn delete(cache: &mut Cache, thread_id: i32)
        ensures
            final(cache)@ == without(old(cache)@, thread_id),
            final(cache).capacity() == old(cache).capacity(),
    {
        cache.invalidate(thread_id);
    }

    /// The update that puts a new section last in the thread's list of sections.
    pub fn with_section(&self, section_id: i32) -> (update: UpdateThread)
        ensures
            changes_sections_only(update, self.sections_id@.push(section_id)),
    {
        let mut list = clone_ids(&self.sections_id);
        list.push(section_id);
        let mut update = UpdateThread::default();
        update.sections_id = Some(list);
        update
    }

    /// The update that takes a section out of the thread's list of sections. The other
    /// sections keep their order.
    pub fn without_section(&self, section_id: i32) -> (update: UpdateThread)
        ensures
            changes_sections_only(update, ids_without(self.sections_id@, section_id)),
    {
        let mut update = UpdateThread::default();
        update.sections_id = Some(retain_other(&self.sections_id, section_id));
        update
    }

    /// The update that puts a new event last in the thread's list of events.
    pub fn with_event(&self, event_id: i32) -> (update: UpdateThread)
        ensures
            changes_events_only(update, self.events_id@.push(event_id)),
    {
        let mut list = clone_ids(&self.events_id);
        list.push(event_id);
        let mut update = UpdateThread::default();
        update.events_id = Some(list);
        update
    }

    /// The update that takes an event out of the thread's list of events. The other
    /// events keep their order.
    pub fn without_event(&self, event_id: i32) -> (update: UpdateThread)
        ensures
            changes_events_only(update, ids_without(self.events_id@, event_id)),
    {
        let mut update = UpdateThread::default();
        update.events_id = Some(retain_other(&self.events_id, event_id));
        update
    }

    /// The fields that a new thread is stored with: what the user gave, the user's id and
    /// the id of the post that was made for the thread, and no sections or events yet.
    pub fn insertable(data: &ExternalInsertThread, user_id: i32, post_id: Option<String>) -> (row:
        InsertThread)
        ensures
            row.thread_name@ == data.thread_name@,
            row.display_name@ == data.display_name@,
            option_text(row.post_id) == option_text(post_id),
            option_text(row.subreddit) == option_text(data.subreddit),
            row.space__t0 == data.space__t0,
            option_text(row.youtube_id) == option_text(data.youtube_id),
            option_text(row.spacex__api_id) == option_text(data.spacex__api_id),
            row.created_by_user_id == user_id,
            row.sections_id@.len() == 0,
            row.events_id@.len() == 0,
            texts(row.event_column_headers@) == texts(data.event_column_headers@),
            row.space__utc_col_index == data.space__utc_col_index,
    {
        InsertThread {
            thread_name: data.thread_name.clone(),
            display_name: data.display_name.clone(),
            post_id,
            subreddit: clone_option_text(&data.subreddit),
            space__t0: data.space__t0,
            youtube_id: clone_option_text(&data.youtube_id),
            spacex__api_id: clone_option_text(&data.spacex__api_id),
            created_by_user_id: user_id,
            events_id: Vec::new(),
            sections_id: Vec::new(),
            event_column_headers: clone_texts(&data.event_column_headers),
            space__utc_col_index: data.space__utc_col_index,
        }
    }
}

} // verus!
