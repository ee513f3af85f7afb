//! The log of the requests that were answered.
use crate::endpoint::helpers::Status;
use vstd::prelude::*;

verus! {

/// The method of a request.
#[derive(Debug, PartialEq, Eq, Structural, Clone, Copy)]
pub enum Method {
    Get,
    Put,
    Post,
    Delete,
    Options,
    Head,
    Trace,
    Connect,
    Patch,
}

/// One request that was answered.
#[derive(Debug, PartialEq, Eq)]
pub struct RequestLogEntry {
    pub method: Method,
    pub uri: String,
    pub status: Status,
    pub body_size: usize,
    /// How long the answer took, in microseconds.
    pub duration: u64,
    /// When the request began, in microseconds since the epoch.
    pub start_time: i64,
}

/// The requests that were answered, oldest first.
pub type RequestLog = Vec<RequestLogEntry>;

/// Keeps the log of the requests that were answered since it was last taken.
#[derive(Debug, PartialEq, Eq)]
pub struct Telemetry {
    requests: Vec<RequestLogEntry>,
}

/// Whether an answer is logged: all are, but those that found nothing and those to a
/// request for options.
pub open spec fn is_logged(method: Method, status: Status) -> bool {
    status != Status::NotFound && method != Method::Options
}

impl View for Telemetry {
    type V = Seq<RequestLogEntry>;

    /// The requests that were answered since the log was last taken, oldest first.
    closed spec fn view(&self) -> Seq<RequestLogEntry> {
        self.requests@
    }
}

impl Default for Telemetry {
    fn default() -> (telemetry: Self)
        ensures
            telemetry@.len() == 0,
    {
        Telemetry { requests: Vec::new() }
    }
}

impl Telemetry {
    /// Reset the telemetry to a fresh state,
    /// returning the existing logs.
    pub fn reset(&mut self) -> (log: RequestLog)
        ensures
            log@ == old(self)@,
            final(self)@.len() == 0,
    {
        let mut log: Vec<RequestLogEntry> = Vec::new();
        std::mem::swap(&mut self.requests, &mut log);
        log
    }

    /// A request was answered: it is logged, unless its answer is one of those that are
    /// not.
    pub fn on_response(&mut self, entry: RequestLogEntry)
        ensures
            final(self)@ == (if is_logged(entry.method, entry.status) {
                old(self)@.push(entry)
            } else {
                old(self)@
            }),
    {
        if entry.status == Status::NotFound || entry.method == Method::Options {
            return ;
        }
        self.requests.push(entry);
    }
}

} // verus!
