//! The log line for a message that was sent to a room.
use crate::text::{digits, format_u128};
use vstd::prelude::*;
use vstd::string::*;

verus! {

/// The log line for a message of `message_length` bytes that was sent to `clients`
/// connections in `microseconds`.
pub open spec fn sent_message_line(message_length: nat, clients: nat, microseconds: nat) -> Seq<char> {
    "Sent WebSocket message ("@ + digits(message_length) + " bytes) to "@ + digits(clients)
        + " clients in "@ + digits(microseconds) + "\u{b5}s"@
}

/// The line that tells the log of a message that was sent.
pub fn log_sent_message(message_length: usize, clients: usize, microseconds: u128) -> (line: String)
    ensures
        line@ == sent_message_line(message_length as nat, clients as nat, microseconds as nat),
{
    let mut line = "Sent WebSocket message (".to_owned();
    line.append(format_u128(message_length as u128).as_str());
    line.append(" bytes) to ");
    line.append(format_u128(clients as u128).as_str());
    line.append(" clients in ");
    line.append(format_u128(microseconds).as_str());
    line.append("\u{b5}s");
    line
}

} // verus!
