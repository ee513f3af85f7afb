//! What is written to the log.
pub mod request_log;
pub mod request_timer;
pub mod ws_message;

pub use crate::telemetry::request_log::{RequestLog, RequestLogEntry, Telemetry};
pub use crate::telemetry::request_timer::RequestTimer;
pub use crate::telemetry::ws_message::log_sent_message;
