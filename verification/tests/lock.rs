use enceladus::controller::section::{ExternalLockSection, LockSection, Section};
use enceladus::controller::thread::Thread;
use enceladus::controller::user::User;
use enceladus::endpoint::helpers::Status;
use enceladus::endpoint::section::{patch, set_lock, SectionChange, UpdateSectionDiscriminant};
use enceladus::lock::{stale, transition, Forbidden, LockState, SectionLock, LOCK_DURATION_SECONDS};
use enceladus::controller::section::UpdateSection;

const NOW: i64 = 1_600_000_000;

fn locked_by(user: i32, acquired_at: i64) -> LockState {
    LockState::LockedBy { user, acquired_at }
}

#[test]
fn the_lock_lasts_ten_minutes() {
    assert_eq!(LOCK_DURATION_SECONDS, 600);
}

#[test]
fn acquire_from_unlocked() {
    assert_eq!(transition(LockState::Unlocked, 1, Some(1), NOW), Ok(locked_by(1, NOW)));
}

#[test]
fn release_by_holder() {
    assert_eq!(transition(locked_by(1, NOW - 5), 1, None, NOW), Ok(LockState::Unlocked));
}

#[test]
fn renew_by_holder() {
    assert_eq!(transition(locked_by(1, NOW - 5), 1, Some(1), NOW), Ok(locked_by(1, NOW)));
    // Also once the lock is stale.
    assert_eq!(transition(locked_by(1, NOW - 5000), 1, Some(1), NOW), Ok(locked_by(1, NOW)));
}

#[test]
fn takeover_after_expiry() {
    assert_eq!(transition(locked_by(2, NOW - 600), 1, Some(1), NOW), Ok(locked_by(1, NOW)));
    assert_eq!(transition(locked_by(2, NOW - 6000), 1, Some(1), NOW), Ok(locked_by(1, NOW)));
}

#[test]
fn a_stranger_cannot_acquire_a_fresh_lock() {
    assert_eq!(transition(locked_by(2, NOW - 10), 1, Some(1), NOW), Err(Forbidden));
    assert_eq!(transition(locked_by(2, NOW), 1, Some(1), NOW), Err(Forbidden));
}

#[test]
fn a_non_holder_cannot_renew_or_release() {
    assert_eq!(transition(locked_by(2, NOW - 10), 1, Some(2), NOW), Err(Forbidden));
    assert_eq!(transition(locked_by(2, NOW - 10), 1, None, NOW), Err(Forbidden));
    assert_eq!(transition(locked_by(2, NOW - 6000), 1, None, NOW), Err(Forbidden));
}

#[test]
fn nobody_can_lock_for_somebody_else() {
    assert_eq!(transition(LockState::Unlocked, 1, Some(2), NOW), Err(Forbidden));
    assert_eq!(transition(locked_by(1, NOW - 10), 1, Some(2), NOW), Err(Forbidden));
    assert_eq!(transition(locked_by(3, NOW - 6000), 1, Some(2), NOW), Err(Forbidden));
}

#[test]
fn an_unlocked_lock_cannot_be_released() {
    assert_eq!(transition(LockState::Unlocked, 1, None, NOW), Err(Forbidden));
}

#[test]
fn expiry_boundary() {
    assert!(stale(NOW - LOCK_DURATION_SECONDS, NOW));
    assert!(!stale(NOW - LOCK_DURATION_SECONDS + 1, NOW));
    assert_eq!(
        transition(locked_by(2, NOW - LOCK_DURATION_SECONDS), 1, Some(1), NOW),
        Ok(locked_by(1, NOW))
    );
    assert_eq!(
        transition(locked_by(2, NOW - LOCK_DURATION_SECONDS + 1), 1, Some(1), NOW),
        Err(Forbidden)
    );
}

#[test]
fn staleness_at_the_ends_of_the_range() {
    assert!(stale(i64::MIN, i64::MAX));
    assert!(!stale(i64::MAX, i64::MIN));
    assert!(stale(i64::MIN, i64::MIN + 600));
    assert!(!stale(i64::MIN, i64::MIN + 599));
}

fn section(holder: Option<i32>, at: i64) -> Section {
    Section {
        id: 9,
        is_events_section: false,
        name: "Introduction".to_owned(),
        content: "foo".to_owned(),
        lock_held_by_user_id: holder,
        in_thread_id: 4,
        lock_assigned_at_utc: at,
    }
}

fn thread(created_by: i32) -> Thread {
    Thread {
        id: 4,
        thread_name: "name".to_owned(),
        display_name: "display".to_owned(),
        post_id: None,
        subreddit: Some("spacex".to_owned()),
        space__t0: None,
        youtube_id: None,
        spacex__api_id: None,
        created_by_user_id: created_by,
        sections_id: vec![9],
        events_id: vec![],
        event_column_headers: vec![],
        space__utc_col_index: None,
    }
}

fn user(id: i32) -> User {
    User {
        id,
        reddit_username: "someone".to_owned(),
        lang: "en".to_owned(),
        refresh_token: vec![],
        is_global_admin: false,
        spacex__is_admin: false,
        spacex__is_mod: false,
        spacex__is_slack_member: false,
        access_token: vec![],
        access_token_expires_at_utc: 0,
    }
}

#[test]
fn section_lock_reads_the_section() {
    let lock = SectionLock::of(&section(Some(3), 77));
    assert_eq!(lock, SectionLock { section_id: 9, holder: Some(3), acquired_at: 77 });
    assert_eq!(lock.state(), locked_by(3, 77));
    assert_eq!(SectionLock::of(&section(None, 77)).state(), LockState::Unlocked);
    assert_eq!(
        lock.request(3, None, NOW),
        Ok(LockSection { lock_held_by_user_id: None, lock_assigned_at_utc: NOW })
    );
    assert_eq!(lock.request(4, None, NOW), Err(Forbidden));
}

#[test]
fn set_lock_answers() {
    let me = user(1);
    let thread = thread(1);
    let ask = ExternalLockSection { lock_held_by_user_id: Some(1) };
    // unknown section id
    assert_eq!(set_lock(&me, None, Some(&thread), ask, NOW), Err(Status::NotFound));
    // not allowed to modify the thread
    assert_eq!(
        set_lock(&user(2), Some(&section(None, 0)), Some(&thread), ask, NOW),
        Err(Status::Unauthorized)
    );
    assert_eq!(set_lock(&me, Some(&section(None, 0)), None, ask, NOW), Err(Status::Unauthorized));
    // granted
    assert_eq!(
        set_lock(&me, Some(&section(None, 0)), Some(&thread), ask, NOW),
        Ok(LockSection { lock_held_by_user_id: Some(1), lock_assigned_at_utc: NOW })
    );
    // refused by the rules of the lock
    assert_eq!(
        set_lock(&me, Some(&section(Some(5), NOW - 1)), Some(&thread), ask, NOW),
        Err(Status::Forbidden)
    );
    // a global admin may modify any thread, but is bound by the rules of the lock
    let mut admin = user(8);
    admin.is_global_admin = true;
    let ask = ExternalLockSection { lock_held_by_user_id: Some(8) };
    assert_eq!(
        set_lock(&admin, Some(&section(Some(5), NOW - 1)), None, ask, NOW),
        Err(Status::Forbidden)
    );
    assert_eq!(
        set_lock(&admin, Some(&section(Some(5), NOW - 600)), None, ask, NOW),
        Ok(LockSection { lock_held_by_user_id: Some(8), lock_assigned_at_utc: NOW })
    );
}

#[test]
fn patch_tells_the_two_updates_apart() {
    let me = user(1);
    let thread = thread(1);
    let held = section(Some(1), NOW - 3);
    let release = UpdateSectionDiscriminant::LockSection(ExternalLockSection {
        lock_held_by_user_id: None,
    });
    assert_eq!(
        patch(&me, Some(&held), Some(&thread), release, NOW),
        Ok(SectionChange::Lock(LockSection { lock_held_by_user_id: None, lock_assigned_at_utc: NOW }))
    );
    let rename = || {
        UpdateSectionDiscriminant::UpdateSection(UpdateSection {
            name: Some("New".to_owned()),
            content: None,
        })
    };
    assert_eq!(
        patch(&me, Some(&held), Some(&thread), rename(), NOW),
        Ok(SectionChange::Fields(UpdateSection { name: Some("New".to_owned()), content: None }))
    );
    assert_eq!(patch(&me, None, Some(&thread), rename(), NOW), Err(Status::Unauthorized));
    assert_eq!(patch(&user(2), Some(&held), Some(&thread), rename(), NOW), Err(Status::Unauthorized));
}

#[test]
fn applying_a_lock_changes_the_lock_only() {
    let before = section(Some(1), 5);
    let after = LockSection { lock_held_by_user_id: None, lock_assigned_at_utc: NOW }.apply(&before);
    assert_eq!(after, section(None, NOW));
}
