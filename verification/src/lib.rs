//! Real-time synchronisation fabric of a collaborative live-thread backend:
//! an entity cache, a timed section lock, and a room-based broadcaster,
//! together with the rules of the mutation pipeline that ties them together.
#![allow(non_snake_case)]

pub mod cache;
pub mod controller;
pub mod endpoint;
pub mod fairing;
pub mod lock;
pub mod pipeline;
pub mod reddit;
pub mod telemetry;
pub mod text;
pub mod websocket;
