use enceladus::cache::Cache;
use enceladus::controller::claim::Claim;
use enceladus::controller::event::{Column, Event, UpdateEvent};
use enceladus::controller::global_admin::GlobalAdmin;
use enceladus::controller::preset_event::PresetEvent;
use enceladus::controller::section::Section;
use enceladus::controller::thread::{ExternalInsertThread, Thread, UpdateThread};
use enceladus::controller::user::{en, falsey, UpdateUser, User};
use enceladus::controller::{
    Entity, StoreError, EVENT_CACHE_SIZE, PRESET_EVENT_CACHE_SIZE, SECTION_CACHE_SIZE,
    THREAD_CACHE_SIZE, USER_CACHE_SIZE,
};
use enceladus::endpoint;
use enceladus::endpoint::event::UpdateEventDiscriminant;
use enceladus::endpoint::helpers::{created, json_result, no_content, Status};
use enceladus::endpoint::user::{bearer_token, from_request, TokenUser};
use enceladus::websocket::Rooms;

fn user(id: i32) -> User {
    User {
        id,
        reddit_username: format!("user{}", id),
        lang: en(),
        refresh_token: vec![1],
        is_global_admin: falsey(),
        spacex__is_admin: falsey(),
        spacex__is_mod: falsey(),
        spacex__is_slack_member: falsey(),
        access_token: vec![2],
        access_token_expires_at_utc: 0,
    }
}

fn thread(id: i32, created_by: i32) -> Thread {
    Thread {
        id,
        thread_name: "name".to_owned(),
        display_name: "display".to_owned(),
        post_id: None,
        subreddit: None,
        space__t0: None,
        youtube_id: None,
        spacex__api_id: None,
        created_by_user_id: created_by,
        sections_id: vec![],
        events_id: vec![],
        event_column_headers: vec!["UTC".to_owned(), "Countdown".to_owned(), "Message".to_owned()],
        space__utc_col_index: Some(0),
    }
}

fn cols(utc: i64, countdown: &str, message: &str) -> Vec<Column> {
    vec![Column::Number(utc), Column::Text(countdown.to_owned()), Column::Text(message.to_owned())]
}

fn event(id: i32, thread: i32) -> Event {
    Event { id, posted: false, in_thread_id: thread, cols: cols(1_500_000_000, "a", "b") }
}

fn section(id: i32, thread: i32) -> Section {
    Section {
        id,
        is_events_section: false,
        name: "".to_owned(),
        content: "".to_owned(),
        lock_held_by_user_id: None,
        in_thread_id: thread,
        lock_assigned_at_utc: 0,
    }
}

#[test]
fn cache_sizes() {
    assert_eq!(EVENT_CACHE_SIZE, 100);
    assert_eq!(PRESET_EVENT_CACHE_SIZE, 100);
    assert_eq!(SECTION_CACHE_SIZE, 50);
    assert_eq!(THREAD_CACHE_SIZE, 5);
    assert_eq!(USER_CACHE_SIZE, 100);
}

#[test]
fn event_get_one() {
    let mut cache = Cache::new(EVENT_CACHE_SIZE);
    let created_value = event(1, 7);
    Event::create(&mut cache, created_value.clone());
    let body = endpoint::event::get(Event::find_id(&mut cache, 1).ok_or(StoreError::NotFound));
    assert_eq!(body, Ok(created_value));
}

#[test]
fn event_create() {
    let me = user(1);
    let mut threads = Cache::new(THREAD_CACHE_SIZE);
    let mut events = Cache::new(EVENT_CACHE_SIZE);
    let parent = thread(7, 1);
    Thread::create(&mut threads, parent.clone());

    let row = cols(1_234_567, "T-10", "Hello");
    assert_eq!(endpoint::event::post(&me, Some(&parent), &row), Ok(()));
    // What the store makes of it.
    let inserted = Event { id: 3, posted: false, in_thread_id: 7, cols: row.clone() };
    Event::create(&mut events, inserted.clone());
    let made = created(Ok(inserted.clone()), inserted.id).expect("created");
    assert_eq!(made.location, "/3");
    assert_eq!(made.body.posted, false);
    assert_eq!(made.body.cols, row);
    assert_eq!(made.body.in_thread_id, 7);

    // The event is put last in its thread.
    let update = parent.with_event(3);
    assert_eq!(update, UpdateThread { events_id: Some(vec![3]), ..UpdateThread::default() });
    assert_eq!(Event::find_id(&mut events, 3), Some(inserted));
}

#[test]
fn event_create_checks_the_row() {
    let me = user(1);
    let parent = thread(7, 1);
    let unprocessable = Err(Status::UnprocessableEntity);
    assert_eq!(endpoint::event::post(&me, Some(&parent), &vec![]), unprocessable);
    assert_eq!(
        endpoint::event::post(&me, Some(&parent), &vec![Column::Number(1), Column::Number(2), Column::Text("x".to_owned())]),
        unprocessable
    );
    assert_eq!(
        endpoint::event::post(
            &me,
            Some(&parent),
            &vec![Column::Text("1".to_owned()), Column::Text("2".to_owned()), Column::Text("x".to_owned())]
        ),
        unprocessable
    );
    assert_eq!(
        endpoint::event::post(&me, Some(&parent), &vec![Column::Number(1), Column::Other, Column::Text("x".to_owned())]),
        unprocessable
    );
    let mut no_utc = thread(7, 1);
    no_utc.space__utc_col_index = None;
    assert_eq!(endpoint::event::post(&me, Some(&no_utc), &cols(1, "a", "b")), unprocessable);
    let all_text = vec![Column::Text("1".to_owned()), Column::Text("2".to_owned()), Column::Text("x".to_owned())];
    assert_eq!(endpoint::event::post(&me, Some(&no_utc), &all_text), Ok(()));
    assert!(endpoint::event::columns_valid(&cols(1, "a", "b"), &parent));
    assert!(!endpoint::event::columns_valid(&all_text, &parent));
    // Someone else's thread, and a thread that is not there.
    assert_eq!(endpoint::event::post(&user(2), Some(&parent), &cols(1, "a", "b")), Err(Status::Unauthorized));
    assert_eq!(endpoint::event::post(&me, None, &cols(1, "a", "b")), Err(Status::Unauthorized));
    let mut admin = user(9);
    admin.is_global_admin = true;
    assert_eq!(endpoint::event::post(&admin, None, &cols(1, "a", "b")), Err(Status::NotFound));
    assert_eq!(endpoint::event::post(&admin, Some(&parent), &cols(1, "a", "b")), Ok(()));
}

#[test]
fn event_update() {
    let me = user(1);
    let parent = thread(7, 1);
    let created_value = event(3, 7);
    assert_eq!(created_value.posted, false);

    // update a regular field
    let data = UpdateEventDiscriminant::FullEvent(UpdateEvent { posted: Some(true), cols: None });
    let fields = endpoint::event::patch(&me, Some(&created_value), Some(&parent), data);
    assert_eq!(fields, Ok(UpdateEvent { posted: Some(true), cols: None }));

    // update a specific column
    let data = UpdateEventDiscriminant::PartialEvent(vec![(2, Column::Text("new".to_owned()))]);
    let fields = endpoint::event::patch(&me, Some(&created_value), Some(&parent), data).expect("ok");
    assert_eq!(fields.posted, None);
    assert_eq!(fields.cols.expect("the row changes")[2], Column::Text("new".to_owned()));

    // later values for a cell win over earlier ones
    let cells = vec![
        (0, Column::Number(5)),
        (2, Column::Text("first".to_owned())),
        (2, Column::Text("second".to_owned())),
    ];
    assert_eq!(
        endpoint::event::merge_cells(&created_value, &cells),
        Some(vec![Column::Number(5), Column::Text("a".to_owned()), Column::Text("second".to_owned())])
    );
    assert_eq!(endpoint::event::merge_cells(&created_value, &vec![]), Some(created_value.cols.clone()));
    assert_eq!(endpoint::event::merge_cells(&created_value, &vec![(3, Column::Number(5))]), None);
}

#[test]
fn event_update_refusals() {
    let me = user(1);
    let parent = thread(7, 1);
    let found = event(3, 7);
    let full = || UpdateEventDiscriminant::FullEvent(UpdateEvent::default());
    let partial = |key| UpdateEventDiscriminant::PartialEvent(vec![(key, Column::Other)]);
    assert_eq!(endpoint::event::patch(&me, None, Some(&parent), full()), Err(Status::NotFound));
    assert_eq!(endpoint::event::patch(&me, None, Some(&parent), partial(0)), Err(Status::NotFound));
    assert_eq!(
        endpoint::event::patch(&me, Some(&found), Some(&parent), partial(3)),
        Err(Status::UnprocessableEntity)
    );
    assert_eq!(
        endpoint::event::patch(&user(2), Some(&found), Some(&parent), full()),
        Err(Status::Unauthorized)
    );
    assert_eq!(
        endpoint::event::patch(&user(2), Some(&found), Some(&parent), partial(0)),
        Err(Status::Unauthorized)
    );
    assert_eq!(endpoint::event::patch_full_event(&me, None, Some(&parent)), Err(Status::NotFound));
    assert_eq!(endpoint::event::patch_full_event(&me, Some(&found), Some(&parent)), Ok(()));
}

#[test]
fn event_delete() {
    let me = user(1);
    let mut parent = thread(7, 1);
    parent.events_id = vec![2, 3, 4, 3];
    let mut events = Cache::new(EVENT_CACHE_SIZE);
    let created_value = event(3, 7);
    Event::create(&mut events, created_value.clone());

    assert_eq!(endpoint::event::delete(&me, Some(&created_value), Some(&parent)), Ok(()));
    assert_eq!(
        parent.without_event(3),
        UpdateThread { events_id: Some(vec![2, 4]), ..UpdateThread::default() }
    );
    Event::delete(&mut events, 3);
    assert_eq!(Event::find_id(&mut events, 3), None);
    assert_eq!(no_content(Ok::<usize, StoreError>(1)), Ok(Status::NoContent));

    assert_eq!(endpoint::event::delete(&me, None, Some(&parent)), Err(Status::Unauthorized));
    assert_eq!(endpoint::event::delete(&user(2), Some(&created_value), Some(&parent)), Err(Status::Unauthorized));
}

#[test]
fn thread_get_one() {
    let mut cache = Cache::new(THREAD_CACHE_SIZE);
    assert_eq!(Thread::find_id(&mut cache, 7), None);
    let created_value = thread(7, 1);
    assert_eq!(Thread::load(&mut cache, 7, Ok(created_value.clone())), Ok(created_value.clone()));
    let body = endpoint::thread::get(Thread::find_id(&mut cache, 7).ok_or(StoreError::NotFound));
    assert_eq!(body, Ok(created_value));
    assert_eq!(endpoint::thread::get(Thread::load(&mut cache, 8, Err(StoreError::NotFound))), Err(Status::NotFound));
}

#[test]
fn thread_create() {
    let data = ExternalInsertThread {
        thread_name: "thread name".to_owned(),
        display_name: "display name".to_owned(),
        subreddit: None,
        space__t0: Some(11),
        youtube_id: Some("abcdefghijk".to_owned()),
        spacex__api_id: None,
        event_column_headers: vec![],
        space__utc_col_index: None,
    };
    let row = Thread::insertable(&data, 5, None);
    // auto-generated
    assert_eq!(row.created_by_user_id, 5);
    assert_eq!(row.post_id, None);
    assert_eq!(row.subreddit, None);
    assert_eq!(row.sections_id, Vec::<i32>::new());
    assert_eq!(row.events_id, Vec::<i32>::new());
    // user-provided
    assert_eq!(row.thread_name, data.thread_name);
    assert_eq!(row.display_name, data.display_name);
    assert_eq!(row.space__t0, Some(11));
    assert_eq!(row.youtube_id, data.youtube_id);
    assert_eq!(row.event_column_headers, data.event_column_headers);
    assert_eq!(row.space__utc_col_index, None);

    let with_post = Thread::insertable(&data, 5, Some("abc123".to_owned()));
    assert_eq!(with_post.post_id, Some("abc123".to_owned()));

    let mut cache = Cache::new(THREAD_CACHE_SIZE);
    Thread::create(&mut cache, thread(7, 5));
    assert_eq!(Thread::find_id(&mut cache, 7), Some(thread(7, 5)));
}

#[test]
fn thread_update() {
    let me = user(1);
    let mut created_value = thread(7, 1);
    assert_eq!(created_value.youtube_id, None);
    created_value.sections_id = vec![1, 2, 3];
    created_value.events_id = vec![4, 5];

    let data = UpdateThread { youtube_id: Some(Some("abcdefghijk".to_owned())), ..UpdateThread::default() };
    assert_eq!(endpoint::thread::patch(&me, Some(&created_value), &data), Ok(()));
    let mut cache = Cache::new(THREAD_CACHE_SIZE);
    let mut updated = created_value.clone();
    updated.youtube_id = Some("abcdefghijk".to_owned());
    Thread::update(&mut cache, updated.clone());
    assert_eq!(json_result(Thread::find_id(&mut cache, 7).ok_or(StoreError::NotFound)), Ok(updated));

    // Sections and events can be put in another order, not added or removed.
    let reorder = |sections: Option<Vec<i32>>, events: Option<Vec<i32>>| UpdateThread {
        sections_id: sections,
        events_id: events,
        ..UpdateThread::default()
    };
    let refused = Err(Status::PreconditionFailed);
    assert_eq!(endpoint::thread::patch(&me, Some(&created_value), &reorder(Some(vec![3, 1, 2]), None)), Ok(()));
    assert_eq!(endpoint::thread::patch(&me, Some(&created_value), &reorder(Some(vec![3, 1, 2]), Some(vec![5, 4]))), Ok(()));
    assert_eq!(endpoint::thread::patch(&me, Some(&created_value), &reorder(Some(vec![3, 1]), None)), refused);
    assert_eq!(endpoint::thread::patch(&me, Some(&created_value), &reorder(Some(vec![3, 1, 2, 4]), None)), refused);
    assert_eq!(endpoint::thread::patch(&me, Some(&created_value), &reorder(None, Some(vec![]))), refused);
    assert_eq!(endpoint::thread::patch(&me, Some(&created_value), &reorder(Some(vec![1, 2, 3]), Some(vec![4, 6]))), refused);
    // Ids are compared as sets.
    assert_eq!(endpoint::thread::patch(&me, Some(&created_value), &reorder(Some(vec![3, 3, 1, 2]), None)), Ok(()));
    assert!(endpoint::thread::same_ids(&vec![], &vec![]));
    assert!(endpoint::thread::same_ids(&vec![1, 2], &vec![2, 1, 1]));
    assert!(!endpoint::thread::same_ids(&vec![1, 2], &vec![1]));
    assert!(!endpoint::thread::same_ids(&vec![1], &vec![1, 2]));
    assert!(endpoint::thread::contains_id(&vec![1, 2], 2));
    assert!(!endpoint::thread::contains_id(&vec![1, 2], 3));
    assert!(endpoint::thread::all_contained(&vec![1, 1], &vec![1, 2]));

    assert_eq!(endpoint::thread::patch(&user(2), Some(&created_value), &data), Err(Status::Unauthorized));
    assert_eq!(endpoint::thread::patch(&me, None, &data), Err(Status::Unauthorized));
    let mut admin = user(9);
    admin.is_global_admin = true;
    assert_eq!(endpoint::thread::patch(&admin, None, &data), Err(Status::NotFound));
}

#[test]
fn thread_delete() {
    let me = user(1);
    let created_value = thread(7, 1);
    let mut cache = Cache::new(THREAD_CACHE_SIZE);
    Thread::create(&mut cache, created_value.clone());
    assert_eq!(endpoint::thread::delete(&me, Some(&created_value)), Ok(()));
    Thread::delete(&mut cache, 7);
    assert_eq!(Thread::find_id(&mut cache, 7), None);
    assert_eq!(no_content(Ok::<usize, StoreError>(1)), Ok(Status::NoContent));
    assert_eq!(endpoint::thread::delete(&user(2), Some(&created_value)), Err(Status::Unauthorized));
    assert_eq!(endpoint::thread::delete(&me, None), Err(Status::Unauthorized));
}

#[test]
fn thread_moderation() {
    let mut moderator = user(1);
    moderator.spacex__is_mod = true;
    let mut posted = thread(7, 2);
    posted.subreddit = Some("spacex".to_owned());
    posted.post_id = Some("abc123".to_owned());

    assert_eq!(endpoint::thread::approve(&moderator, Some(&posted)), Ok("t3_abc123".to_owned()));
    assert_eq!(endpoint::thread::sticky(&moderator, Some(&posted)), Ok(("t3_abc123".to_owned(), true)));
    assert_eq!(endpoint::thread::unsticky(&moderator, Some(&posted)), Ok(("t3_abc123".to_owned(), false)));

    assert_eq!(endpoint::thread::approve(&moderator, None), Err(Status::NotFound));
    assert_eq!(endpoint::thread::approve(&moderator, Some(&thread(7, 2))), Err(Status::PreconditionFailed));
    assert_eq!(endpoint::thread::approve(&user(2), Some(&posted)), Err(Status::Unauthorized));
    let mut elsewhere = posted.clone();
    elsewhere.subreddit = Some("nasa".to_owned());
    assert_eq!(endpoint::thread::sticky(&moderator, Some(&elsewhere)), Err(Status::Unauthorized));
    elsewhere.subreddit = None;
    assert_eq!(endpoint::thread::unsticky(&moderator, Some(&elsewhere)), Err(Status::Unauthorized));
}

#[test]
fn user_get_one() {
    let mut cache = Cache::new(USER_CACHE_SIZE);
    let rooms = Rooms::new();
    let created_value = user(4);
    assert_eq!(User::create(&mut cache, &rooms, created_value.clone(), "{}".to_owned()), None);
    let body = endpoint::user::get(User::find_id(&mut cache, 4).ok_or(StoreError::NotFound)).expect("ok");
    assert_eq!(body.id, created_value.id);
    assert_eq!(body.reddit_username, created_value.reddit_username);
    assert_eq!(body.lang, created_value.lang);
    assert_eq!(body.is_global_admin, created_value.is_global_admin);
}

#[test]
fn user_create() {
    let inserted = user(4);
    let body = created(Ok(TokenUser::from(inserted.clone(), "token".to_owned())), inserted.id).expect("created");
    assert_eq!(body.location, "/4");
    assert_eq!(
        body.body,
        TokenUser {
            token: "token".to_owned(),
            id: 4,
            reddit_username: "user4".to_owned(),
            lang: "en".to_owned(),
            is_global_admin: false,
            spacex__is_admin: false,
            spacex__is_mod: false,
            spacex__is_slack_member: false,
        }
    );
}

#[test]
fn user_update() {
    let mut cache = Cache::new(USER_CACHE_SIZE);
    let rooms = Rooms::new();
    let created_value = user(4);
    assert_eq!(created_value.is_global_admin, false);
    User::create(&mut cache, &rooms, created_value.clone(), "{}".to_owned());
    let mut updated = created_value;
    updated.is_global_admin = true;
    User::update(&mut cache, &rooms, updated.clone(), "{\"is_global_admin\":true}".to_owned());
    let body = json_result(User::find_id(&mut cache, 4).ok_or(StoreError::NotFound)).expect("ok");
    assert_eq!(body.is_global_admin, true);
    assert_eq!(UpdateUser::default().is_global_admin, None);
}

#[test]
fn user_delete() {
    let mut cache = Cache::new(USER_CACHE_SIZE);
    let rooms = Rooms::new();
    User::create(&mut cache, &rooms, user(4), "{}".to_owned());
    User::delete(&mut cache, &rooms, 4);
    assert_eq!(User::find_id(&mut cache, 4), None);
    assert_eq!(no_content(Ok::<usize, StoreError>(1)), Ok(Status::NoContent));
}

#[test]
fn section_get_one() {
    let mut cache = Cache::new(SECTION_CACHE_SIZE);
    let rooms = Rooms::new();
    let created_value = section(2, 7);
    Section::create(&mut cache, &rooms, created_value.clone(), "{}".to_owned());
    let body = endpoint::section::get(Section::find_id(&mut cache, 2).ok_or(StoreError::NotFound));
    assert_eq!(body, Ok(created_value));
}

#[test]
fn section_create() {
    let me = user(1);
    let parent = thread(7, 1);
    assert_eq!(endpoint::section::post(&me, Some(&parent)), Ok(()));
    assert_eq!(endpoint::section::post(&user(2), Some(&parent)), Err(Status::Unauthorized));
    assert_eq!(endpoint::section::post(&me, None), Err(Status::Unauthorized));

    let inserted = section(2, 7);
    let made = created(Ok(inserted.clone()), inserted.id).expect("created");
    assert_eq!(made.location, "/2");
    assert_eq!(made.body.is_events_section, false);
    assert_eq!(made.body.lock_held_by_user_id, None);
    assert_eq!(made.body.in_thread_id, 7);
    // The section is put last in its thread.
    let mut with_sections = parent.clone();
    with_sections.sections_id = vec![9];
    assert_eq!(
        with_sections.with_section(2),
        UpdateThread { sections_id: Some(vec![9, 2]), ..UpdateThread::default() }
    );
}

#[test]
fn section_update() {
    let me = user(1);
    let parent = thread(7, 1);
    let created_value = section(2, 7);
    assert_eq!(endpoint::section::update_fields(&me, Some(&created_value), Some(&parent)), Ok(()));
    assert_eq!(endpoint::section::update_fields(&me, None, Some(&parent)), Err(Status::Unauthorized));
    assert_eq!(
        endpoint::section::update_fields(&user(2), Some(&created_value), Some(&parent)),
        Err(Status::Unauthorized)
    );
    let mut cache = Cache::new(SECTION_CACHE_SIZE);
    let rooms = Rooms::new();
    let mut updated = created_value;
    updated.name = "New".to_owned();
    Section::update(&mut cache, &rooms, updated.clone(), "{\"name\":\"New\"}".to_owned());
    let body = json_result(Section::find_id(&mut cache, 2).ok_or(StoreError::NotFound)).expect("ok");
    assert_eq!(body.name, "New");
}

#[test]
fn section_delete() {
    let me = user(1);
    let mut parent = thread(7, 1);
    parent.sections_id = vec![1, 2, 3];
    let created_value = section(2, 7);
    assert_eq!(endpoint::section::delete(&me, Some(&created_value), Some(&parent)), Ok(()));
    assert_eq!(endpoint::section::delete(&me, None, Some(&parent)), Err(Status::Unauthorized));
    assert_eq!(
        parent.without_section(2),
        UpdateThread { sections_id: Some(vec![1, 3]), ..UpdateThread::default() }
    );
    assert_eq!(
        parent.without_section(9),
        UpdateThread { sections_id: Some(vec![1, 2, 3]), ..UpdateThread::default() }
    );
    let mut cache = Cache::new(SECTION_CACHE_SIZE);
    let rooms = Rooms::new();
    Section::create(&mut cache, &rooms, created_value, "{}".to_owned());
    Section::delete(&mut cache, &rooms, 2, 7);
    assert_eq!(Section::find_id(&mut cache, 2), None);
    assert_eq!(no_content(Ok::<usize, StoreError>(1)), Ok(Status::NoContent));
}

fn preset(id: i32) -> PresetEvent {
    PresetEvent { id, holds_clock: false, message: "message".to_owned(), name: "name".to_owned() }
}

#[test]
fn preset_event_get_one() {
    let mut cache = Cache::new(PRESET_EVENT_CACHE_SIZE);
    PresetEvent::create(&mut cache, preset(1));
    let body = endpoint::preset_event::get(PresetEvent::find_id(&mut cache, 1).ok_or(StoreError::NotFound));
    assert_eq!(body, Ok(preset(1)));
}

#[test]
fn preset_event_create() {
    let made = created(Ok(preset(6)), 6).expect("created");
    assert_eq!(made.location, "/6");
    assert_eq!(made.body.holds_clock, false);
    assert_eq!(made.body.message, "message");
    assert_eq!(made.body.name, "name");
}

#[test]
fn preset_event_update() {
    let mut cache = Cache::new(PRESET_EVENT_CACHE_SIZE);
    let created_value = preset(1);
    assert_eq!(created_value.holds_clock, false);
    PresetEvent::create(&mut cache, created_value.clone());
    let mut updated = created_value;
    updated.holds_clock = true;
    PresetEvent::update(&mut cache, updated);
    let body = json_result(PresetEvent::find_id(&mut cache, 1).ok_or(StoreError::NotFound)).expect("ok");
    assert_eq!(body.holds_clock, true);
    assert_eq!(PresetEvent::load(&mut cache, 2, Err(StoreError::Internal)), Err(StoreError::Internal));
}

#[test]
fn preset_event_delete() {
    let mut cache = Cache::new(PRESET_EVENT_CACHE_SIZE);
    PresetEvent::create(&mut cache, preset(1));
    PresetEvent::delete(&mut cache, 1);
    assert_eq!(PresetEvent::find_id(&mut cache, 1), None);
    assert_eq!(no_content(Ok::<usize, StoreError>(1)), Ok(Status::NoContent));
}

#[test]
fn preset_events_are_for_global_admins() {
    let refused = GlobalAdmin::from_user(user(1));
    assert_eq!(
        refused.err(),
        Some((Status::Unauthorized, "Must be authenticated as a global admin to access this endpoint."))
    );
    let mut admin = user(2);
    admin.is_global_admin = true;
    let passed = GlobalAdmin::from_user(admin.clone()).ok().expect("a global admin passes");
    assert_eq!(passed.into(), admin);
}

#[test]
fn who_may_modify_a_thread() {
    let mine = thread(7, 1);
    assert!(user(1).can_modify_thread(Some(&mine)));
    assert!(!user(2).can_modify_thread(Some(&mine)));
    assert!(!user(1).can_modify_thread(None));
    let mut admin = user(2);
    admin.is_global_admin = true;
    assert!(admin.can_modify_thread(Some(&mine)));
    assert!(admin.can_modify_thread(None));
    let mut local = user(3);
    local.spacex__is_admin = true;
    assert!(!local.can_modify_thread(Some(&mine)));
    let mut spacex = thread(8, 1);
    spacex.subreddit = Some("spacex".to_owned());
    assert!(local.can_modify_thread(Some(&spacex)));
    spacex.subreddit = Some("SpaceX".to_owned());
    assert!(!local.can_modify_thread(Some(&spacex)));
    let mut moderator = user(4);
    moderator.spacex__is_mod = true;
    spacex.subreddit = Some("spacex".to_owned());
    assert!(!moderator.can_modify_thread(Some(&spacex)));
}

#[test]
fn admins_and_moderators_of_a_subreddit() {
    let mut someone = user(1);
    assert!(!someone.is_admin_of(Some("spacex")));
    assert!(!someone.is_moderator_of(Some("spacex")));
    someone.spacex__is_admin = true;
    assert!(someone.is_admin_of(Some("spacex")));
    assert!(!someone.is_admin_of(Some("nasa")));
    assert!(!someone.is_admin_of(None));
    assert!(!someone.is_moderator_of(Some("spacex")));
    someone.spacex__is_mod = true;
    assert!(someone.is_moderator_of(Some("spacex")));
    assert!(!someone.is_moderator_of(Some("")));
    assert!(!someone.is_moderator_of(None));
}

#[test]
fn access_token_updates() {
    let stored = user(1);
    assert_eq!(stored.access_token_update(vec![9], 0), None);
    assert_eq!(
        stored.access_token_update(vec![9], 3600),
        Some(UpdateUser {
            access_token: Some(vec![9]),
            access_token_expires_at_utc: Some(3600),
            ..UpdateUser::default()
        })
    );
}

#[test]
fn defaults_of_a_user() {
    assert_eq!(en(), "en");
    assert!(!falsey());
}

#[test]
fn bearer_tokens() {
    assert_eq!(bearer_token(Some("bearer abc")), Ok("abc"));
    assert_eq!(bearer_token(Some("Bearer abc.def")), Ok("abc.def"));
    assert_eq!(bearer_token(Some("Bearer ")), Ok(""));
    assert_eq!(bearer_token(Some("Bearer \u{e9}t\u{e9}")), Ok("\u{e9}t\u{e9}"));
    assert_eq!(
        bearer_token(None),
        Err((Status::Unauthorized, "Expected \"Authorization\" header to be present"))
    );
    let malformed = Err((
        Status::BadRequest,
        "Expected \"Authorization\" header to begin with \"bearer \" or \"Bearer \"",
    ));
    assert_eq!(bearer_token(Some("")), malformed);
    assert_eq!(bearer_token(Some("Bearer")), malformed);
    assert_eq!(bearer_token(Some("BEARER abc")), malformed);
    assert_eq!(bearer_token(Some("basic abcdef")), malformed);
    assert_eq!(bearer_token(Some("bearerabc")), malformed);
}

#[test]
fn users_of_a_request() {
    assert_eq!(from_request(Some(1), Some(user(1))), Ok(user(1)));
    assert_eq!(
        from_request(None, Some(user(1))),
        Err((Status::BadRequest, "\"Authorization\" header cannot be decoded"))
    );
    assert_eq!(from_request(None, None), Err((Status::BadRequest, "\"Authorization\" header cannot be decoded")));
    assert_eq!(from_request(Some(1), None), Err((Status::BadRequest, "Unable to find user")));
}

#[test]
fn claims() {
    let claim = Claim::issued(5, 1_600_000_000);
    assert_eq!(claim.user_id(), 5);
    assert_eq!(claim.iat(), 1_600_000_000);
    let now = Claim::new(7);
    assert_eq!(now.user_id(), 7);
    // The claim is issued now, which is later than when this was written.
    assert!(now.iat() > 1_700_000_000);
}

#[test]
fn entity_ids() {
    assert_eq!(Entity::Event(event(1, 0)).id(), 1);
    assert_eq!(Entity::PresetEvent(preset(2)).id(), 2);
    assert_eq!(Entity::Section(section(3, 0)).id(), 3);
    assert_eq!(Entity::Thread(thread(4, 0)).id(), 4);
    assert_eq!(Entity::User(user(5)).id(), 5);
    let copy = Entity::Thread(thread(4, 0)).clone();
    assert_eq!(copy, Entity::Thread(thread(4, 0)));
}
