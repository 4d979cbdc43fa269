use vstd::prelude::*;
use crate::event::{Event, EventView, RunTag};

verus! {

/// What a background listener does after one look at its stream or process.
#[derive(Debug)]
pub enum ListenerStep {
    /// Hand this event to the shared channel.
    Forward(Event),
    /// Nothing to report yet: look again after the poll interval.
    Wait,
    /// The listener's work is over.
    Finish,
}

/// The line that the standard-output listener reports before any output.
pub open spec fn starting_line() -> Seq<char> {
    "process starting..."@
}

/// What a stream listener forwards for one read, if anything: the line
/// read, or the text of the read error, tagged with the launch it comes from.
pub open spec fn stream_event(
    tag: RunTag,
    read: Option<Result<Seq<char>, Seq<char>>>,
) -> Option<EventView> {
    match read {
        Some(Ok(line)) => Some(EventView::Output(tag, line)),
        Some(Err(text)) => Some(EventView::Output(tag, text)),
        None => None,
    }
}

/// A read result as mathematical values.
pub open spec fn read_view(read: Option<Result<String, String>>) -> Option<Result<Seq<char>, Seq<char>>> {
    match read {
        Some(Ok(line)) => Some(Ok(line@)),
        Some(Err(text)) => Some(Err(text@)),
        None => None,
    }
}

/// The event that the standard-output listener of a launch sends first.
pub fn starting_event(tag: RunTag) -> (e: Event)
    ensures
        e@ == EventView::Output(tag, starting_line()),
{
    Event::Output(tag, String::from_str("process starting..."))
}

/// Decides what a listener that drains an output stream of a launch does
/// with the result of reading one line: a line, or the text of a read
/// error, is forwarded tagged with the launch it comes from; the end of the stream
/// finishes the listener.
pub fn stream_step(tag: RunTag, read: Option<Result<String, String>>) -> (r: ListenerStep)
    ensures
        match stream_event(tag, read_view(read)) {
            Some(e) => r is Forward && r->Forward_0@ == e,
            None => r is Finish,
        },
{
    match read {
        Some(Ok(line)) => ListenerStep::Forward(Event::Output(tag, line)),
        Some(Err(text)) => ListenerStep::Forward(Event::Output(tag, text)),
        None => ListenerStep::Finish,
    }
}

/// Decides what the exit watcher of a launch does with the result of
/// asking whether it has terminated: a termination is forwarded with the
/// text of its exit status; a process still running is asked again later;
/// a failure to ask finishes the watcher.
pub fn exit_step(tag: RunTag, polled: Result<Option<String>, String>) -> (r: ListenerStep)
    ensures
        match polled {
            Ok(Some(text)) => r is Forward && r->Forward_0@ == EventView::Exited(
                tag,
                text@,
            ),
            Ok(None) => r is Wait,
            Err(_) => r is Finish,
        },
{
    match polled {
        Ok(Some(text)) => ListenerStep::Forward(Event::Exited(tag, text)),
        Ok(None) => ListenerStep::Wait,
        Err(_) => ListenerStep::Finish,
    }
}

/// Whether a listener goes on after handing an event to the channel: only
/// after an output line that the channel took. A closed channel ends every
/// listener, and the exit watcher ends once it has reported the exit.
pub fn keeps_listening(forwarded: &Event, sent: bool) -> (r: bool)
    ensures
        r == (sent && forwarded@ is Output),
{
    match forwarded {
        Event::Output(_, _) => sent,
        Event::Exited(_, _) => false,
    }
}

} // verus!
