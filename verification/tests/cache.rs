use enceladus::cache::Cache;
use enceladus::controller::section::Section;
use enceladus::controller::thread::Thread;
use enceladus::controller::{Entity, StoreError};

fn section(id: i32, name: &str) -> Entity {
    Entity::Section(Section {
        id,
        is_events_section: false,
        name: name.to_owned(),
        content: String::new(),
        lock_held_by_user_id: None,
        in_thread_id: 1,
        lock_assigned_at_utc: 0,
    })
}

#[test]
fn get_returns_the_most_recent_put() {
    let mut cache = Cache::new(3);
    cache.put(1, section(1, "first"));
    assert_eq!(cache.get(1), Some(section(1, "first")));
    cache.put(1, section(1, "second"));
    cache.put(1, section(1, "third"));
    assert_eq!(cache.get(1), Some(section(1, "third")));
    assert_eq!(cache.get(1), Some(section(1, "third")));
    cache.put(1, section(1, "fourth"));
    assert_eq!(cache.get(1), Some(section(1, "fourth")));
}

#[test]
fn miss_on_an_empty_cache() {
    let mut cache = Cache::new(3);
    assert_eq!(cache.get(1), None);
}

#[test]
fn invalidate_twice_is_a_no_op_the_second_time() {
    let mut cache = Cache::new(3);
    cache.put(1, section(1, "one"));
    cache.put(2, section(2, "two"));
    cache.invalidate(1);
    assert_eq!(cache.get(1), None);
    cache.invalidate(1);
    assert_eq!(cache.get(1), None);
    assert_eq!(cache.get(2), Some(section(2, "two")));
}

#[test]
fn invalidate_of_an_absent_id_changes_nothing() {
    let mut cache = Cache::new(2);
    cache.invalidate(7);
    cache.put(1, section(1, "one"));
    cache.invalidate(7);
    assert_eq!(cache.get(1), Some(section(1, "one")));
}

#[test]
fn the_least_recently_used_entry_leaves_a_full_cache() {
    let mut cache = Cache::new(2);
    cache.put(1, section(1, "one"));
    cache.put(2, section(2, "two"));
    cache.put(3, section(3, "three"));
    assert_eq!(cache.get(1), None);
    assert_eq!(cache.get(2), Some(section(2, "two")));
    assert_eq!(cache.get(3), Some(section(3, "three")));
}

#[test]
fn a_hit_makes_an_entry_the_most_recently_used() {
    let mut cache = Cache::new(2);
    cache.put(1, section(1, "one"));
    cache.put(2, section(2, "two"));
    assert_eq!(cache.get(1), Some(section(1, "one")));
    cache.put(3, section(3, "three"));
    assert_eq!(cache.get(2), None);
    assert_eq!(cache.get(1), Some(section(1, "one")));
    assert_eq!(cache.get(3), Some(section(3, "three")));
}

#[test]
fn an_overwrite_does_not_evict() {
    let mut cache = Cache::new(2);
    cache.put(1, section(1, "one"));
    cache.put(2, section(2, "two"));
    cache.put(1, section(1, "uno"));
    assert_eq!(cache.get(2), Some(section(2, "two")));
    assert_eq!(cache.get(1), Some(section(1, "uno")));
}

#[test]
fn a_cache_without_capacity_holds_nothing() {
    let mut cache = Cache::new(0);
    cache.put(1, section(1, "one"));
    assert_eq!(cache.get(1), None);
}

#[test]
fn read_through_files_a_row() {
    let mut cache = Cache::new(2);
    assert_eq!(cache.get(5), None);
    assert_eq!(cache.read_through(5, Ok(section(5, "five"))), Ok(section(5, "five")));
    assert_eq!(cache.get(5), Some(section(5, "five")));
}

#[test]
fn read_through_hands_an_error_on_unchanged() {
    let mut cache = Cache::new(2);
    cache.put(1, section(1, "one"));
    assert_eq!(cache.read_through(5, Err(StoreError::NotFound)), Err(StoreError::NotFound));
    assert_eq!(cache.read_through(5, Err(StoreError::Internal)), Err(StoreError::Internal));
    assert_eq!(cache.get(5), None);
    assert_eq!(cache.get(1), Some(section(1, "one")));
}

#[test]
fn typed_lookups() {
    let mut cache = Cache::new(5);
    let row = match section(4, "four") {
        Entity::Section(row) => row,
        _ => unreachable!(),
    };
    assert_eq!(Section::find_id(&mut cache, 4), None);
    assert_eq!(Section::load(&mut cache, 4, Err(StoreError::NotFound)), Err(StoreError::NotFound));
    assert_eq!(Section::find_id(&mut cache, 4), None);
    assert_eq!(Section::load(&mut cache, 4, Ok(row.clone())), Ok(row.clone()));
    assert_eq!(Section::find_id(&mut cache, 4), Some(row));
    // What is filed under the id is no thread.
    assert_eq!(Thread::find_id(&mut cache, 4), None);
}
