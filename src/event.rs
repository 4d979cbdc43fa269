use vstd::prelude::*;

verus! {

/// Which launch of which process an event comes from: the process's
/// position and the number of its launch.
#[derive(Clone, Copy, Debug, PartialEq, Eq, Structural)]
pub struct RunTag {
    pub process_id: usize,
    pub run: u64,
}

/// The number of the launch after launch `run`.
pub open spec fn next_run(run: u64) -> u64 {
    if run == u64::MAX {
        0
    } else {
        (run + 1) as u64
    }
}

/// A message from a background listener, tagged with the launch it
/// concerns, so that one shared channel can carry every process's events.
#[derive(Clone, Debug)]
pub enum Event {
    /// One line read from the process's standard output or standard error.
    Output(RunTag, String),
    /// The process has terminated; the text describes its exit code or signal.
    Exited(RunTag, String),
}

/// What an [`Event`] carries, as mathematical values.
pub enum EventView {
    Output(RunTag, Seq<char>),
    Exited(RunTag, Seq<char>),
}

impl EventView {
    /// The launch the event comes from.
    pub open spec fn tag(self) -> RunTag {
        match self {
            EventView::Output(tag, _) => tag,
            EventView::Exited(tag, _) => tag,
        }
    }

    /// The id of the process the event concerns.
    pub open spec fn target(self) -> usize {
        self.tag().process_id
    }
}

impl View for Event {
    type V = EventView;

    open spec fn view(&self) -> EventView {
        match self {
            Event::Output(tag, line) => EventView::Output(*tag, line@),
            Event::Exited(tag, text) => EventView::Exited(*tag, text@),
        }
    }
}

/// A line of text as it is stored in an output buffer: the text and a newline.
pub open spec fn line_text(line: Seq<char>) -> Seq<char> {
    line + seq!['\n']
}

/// The line recorded when a process is seen to have terminated.
pub open spec fn exit_line(status_text: Seq<char>) -> Seq<char> {
    line_text("process exited with code "@ + status_text)
}

/// Whether a character ends a line.
pub open spec fn is_line_break(c: char) -> bool {
    c == '\n' || c == '\r'
}

/// The text with every line break replaced by a space.
pub open spec fn single_line(s: Seq<char>) -> Seq<char> {
    s.map_values(|c: char| if is_line_break(c) { ' ' } else { c })
}

/// Replaces every line break in the text by a space, so that it fits on
/// one line.
pub fn flatten_line(s: &str) -> (r: String)
    ensures
        r@ == single_line(s@),
{
    let n = s.unicode_len();
    let mut r = String::new();
    let mut start: usize = 0;
    let mut i: usize = 0;
    while i < n
        invariant
            n == s@.len(),
            start <= i <= n,
            r@ == single_line(s@.subrange(0, start as int)),
            forall|k: int| start <= k < i ==> !is_line_break(#[trigger] s@[k]),
        decreases n - i,
    {
        let c = s.get_char(i);
        if c == '\n' || c == '\r' {
            let piece = s.substring_char(start, i);
            proof {
                assert(piece@ =~= single_line(piece@));
                assert(single_line(s@.subrange(0, i as int + 1)) =~= single_line(
                    s@.subrange(0, start as int),
                ) + piece@ + " "@) by {
                    reveal_strlit(" ");
                }
            }
            r.append(piece);
            r.append(" ");
            start = i + 1;
        }
        i = i + 1;
    }
    let piece = s.substring_char(start, n);
    proof {
        assert(piece@ =~= single_line(piece@));
        assert(s@.subrange(0, n as int) =~= s@);
        assert(single_line(s@) =~= single_line(s@.subrange(0, start as int)) + piece@);
    }
    r.append(piece);
    r
}

impl Event {
    /// The launch the event comes from.
    pub fn tag(&self) -> (r: RunTag)
        ensures
            r == self@.tag(),
    {
        match self {
            Event::Output(tag, _) => *tag,
            Event::Exited(tag, _) => *tag,
        }
    }

    /// The id of the process the event concerns.
    pub fn process_id(&self) -> (r: usize)
        ensures
            r == self@.target(),
    {
        self.tag().process_id
    }
}

} // verus!
