use vstd::prelude::*;

verus! {

/// Lifecycle state of one supervised process.
#[derive(Clone, Copy, Debug, PartialEq, Eq, Structural)]
pub enum ProcessStatus {
    NotRun,
    Running,
    Stopped,
}

/// The human-readable word for a status.
pub open spec fn status_text(s: ProcessStatus) -> Seq<char> {
    match s {
        ProcessStatus::NotRun => "not run"@,
        ProcessStatus::Running => "running"@,
        ProcessStatus::Stopped => "stopped"@,
    }
}

impl ProcessStatus {
    /// The status as text: "not run", "running" or "stopped".
    pub fn text(&self) -> (r: String)
        ensures
            r@ == status_text(*self),
    {
        match self {
            ProcessStatus::NotRun => String::from_str("not run"),
            ProcessStatus::Running => String::from_str("running"),
            ProcessStatus::Stopped => String::from_str("stopped"),
        }
    }
}

} // verus!
