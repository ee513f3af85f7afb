//! What each request is answered with: who may do what, and which status tells of which
//! failure.
pub mod event;
pub mod helpers;
pub mod meta;
pub mod oauth;
pub mod preset_event;
pub mod section;
pub mod thread;
pub mod user;
