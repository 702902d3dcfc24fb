//! The log tailer: what to do with each event of a server-sent log stream.

use vstd::prelude::*;
use crate::text::{chars_of, text_from};

verus! {

/// What the log stream of an actor yields.
#[derive(Clone, Debug, PartialEq, Eq)]
pub enum LogEvent {
    /// The connection is open.
    Open,
    /// A message of the server.
    Message(String),
    /// The stream failed.
    Failed(String),
}

/// The name of the field that carries a message, with its colon.
pub open spec fn data_field() -> Seq<char> {
    seq!['d', 'a', 't', 'a', ':']
}

/// The message that a line of the stream carries, if it carries one: what
/// follows `data:`, without the one space that may come first.
pub open spec fn data_of(line: Seq<char>) -> Option<Seq<char>> {
    if line.len() >= 5 && line.take(5) == data_field() {
        if line.len() > 5 && line[5] == ' ' {
            Some(line.skip(6))
        } else {
            Some(line.skip(5))
        }
    } else {
        None
    }
}

/// Reads one line of the stream. A line of the field `data` is a message;
/// any other line (a comment, another field, the blank line between events)
/// is none.
pub fn event_of(line: &str) -> (event: Option<LogEvent>)
    ensures
        match data_of(line@) {
            Some(data) => event matches Some(LogEvent::Message(text)) && text@ == data,
            None => event is None,
        },
{
    let chars = chars_of(line);
    if chars.len() < 5 {
        return None;
    }
    if chars[0] != 'd' || chars[1] != 'a' || chars[2] != 't' || chars[3] != 'a' || chars[4] != ':' {
        assert(chars@.take(5)[0] == chars@[0]);
        assert(chars@.take(5)[1] == chars@[1]);
        assert(chars@.take(5)[2] == chars@[2]);
        assert(chars@.take(5)[3] == chars@[3]);
        assert(chars@.take(5)[4] == chars@[4]);
        return None;
    }
    assert(chars@.take(5) =~= data_field());
    if chars.len() > 5 && chars[5] == ' ' {
        Some(LogEvent::Message(text_from(&chars, 6)))
    } else {
        Some(LogEvent::Message(text_from(&chars, 5)))
    }
}

/// What the loop around the tailer does next.
#[derive(Clone, Debug, PartialEq, Eq)]
pub enum TailAction {
    /// Say that the connection is open and go on.
    Announce,
    /// Print the line to standard output as it is and go on.
    Print(String),
    /// Log the failure and close the stream: the tailer ends, and is not
    /// reconnected.
    Close(String),
}

/// Takes one event of the log stream. A message is printed verbatim; a
/// failure ends the tailer.
pub fn tail(event: LogEvent) -> (action: TailAction)
    ensures
        match event {
            LogEvent::Open => action is Announce,
            LogEvent::Message(data) => action == TailAction::Print(data),
            LogEvent::Failed(reason) => action == TailAction::Close(reason),
        },
{
    match event {
        LogEvent::Open => TailAction::Announce,
        LogEvent::Message(data) => TailAction::Print(data),
        LogEvent::Failed(reason) => TailAction::Close(reason),
    }
}

} // verus!
