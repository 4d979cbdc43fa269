use vstd::prelude::*;
use crate::definition::ProcessDefinition;
use crate::error::{error_text, MultiHostError};
use crate::event::{exit_line, flatten_line, is_line_break, line_text, next_run, single_line};
use crate::status::{status_text, ProcessStatus};

verus! {

/// The supervising object for one external process.
///
/// `C` is the handle of the live operating-system process; the supervisor
/// keeps it while a launch has succeeded and no termination has been seen,
/// and hands it back when the process is to be killed.
#[derive(Debug)]
pub struct HostedProcess<C> {
    name: String,
    status: ProcessStatus,
    auto_start_enabled: bool,
    output: String,
    display_name: String,
    child: Option<C>,
    run: u64,
    stopped_by_request: bool,
    app: String,
    args: Vec<String>,
    working_directory: String,
}

/// What a [`HostedProcess`] holds, as mathematical values.
pub struct ProcessView<C> {
    pub name: Seq<char>,
    pub status: ProcessStatus,
    pub output: Seq<char>,
    pub child: Option<C>,
    pub run: u64,
    pub stopped_by_request: bool,
    pub auto_start: bool,
    pub app: Seq<char>,
    pub args: Seq<String>,
    pub cwd: Seq<char>,
}

/// The label shown for a process: its name and its status in parentheses.
pub open spec fn display_text(name: Seq<char>, status: ProcessStatus) -> Seq<char> {
    name + " ("@ + status_text(status) + ")"@
}

/// The line recorded when a launch asked for by a start/stop request fails.
pub open spec fn failure_line() -> Seq<char> {
    line_text("error starting process"@)
}

/// The line recorded when a launch at auto-start fails: it describes the
/// error, with any line break in the description replaced by a space.
pub open spec fn auto_failure_line(e: MultiHostError) -> Seq<char> {
    line_text("error starting process: "@ + single_line(error_text(e)))
}

/// The text is exactly one line: it ends with a newline and holds no other
/// line break.
pub open spec fn is_one_line(l: Seq<char>) -> bool {
    &&& l.len() > 0
    &&& l.last() == '\n'
    &&& forall|k: int| 0 <= k < l.len() - 1 ==> !is_line_break(#[trigger] l[k])
}

/// A process as it stands right after its definition was read.
pub open spec fn fresh_view<C>(d: ProcessDefinition) -> ProcessView<C> {
    ProcessView {
        name: d.name@,
        status: ProcessStatus::NotRun,
        output: Seq::empty(),
        child: None,
        run: 0,
        stopped_by_request: false,
        auto_start: d.auto_start,
        app: d.command@,
        args: d.args@,
        cwd: d.cwd@,
    }
}

/// The process with its status replaced.
pub open spec fn with_status<C>(v: ProcessView<C>, s: ProcessStatus) -> ProcessView<C> {
    ProcessView { status: s, ..v }
}

/// The process with text appended to its output buffer.
pub open spec fn appended<C>(v: ProcessView<C>, text: Seq<char>) -> ProcessView<C> {
    ProcessView { output: v.output + text, ..v }
}

/// The process after a stop request: stopped, without a live process
/// handle, and taking no more output from the launch that was stopped.
pub open spec fn stopped<C>(v: ProcessView<C>) -> ProcessView<C> {
    ProcessView {
        status: ProcessStatus::Stopped,
        child: None,
        stopped_by_request: true,
        ..v
    }
}

/// The process after a successful launch has been recorded: it holds the
/// live process handle under the next launch number.
pub open spec fn started<C>(v: ProcessView<C>, child: C) -> ProcessView<C> {
    ProcessView { child: Some(child), run: next_run(v.run), stopped_by_request: false, ..v }
}

/// The process after a successful launch has been recorded and run.
pub open spec fn launched<C>(v: ProcessView<C>, child: C) -> ProcessView<C> {
    with_status(started(v, child), ProcessStatus::Running)
}

/// The process after the termination of its current launch was observed.
pub open spec fn exited<C>(v: ProcessView<C>, status_text: Seq<char>) -> ProcessView<C> {
    ProcessView {
        status: ProcessStatus::Stopped,
        child: None,
        ..appended(v, exit_line(status_text))
    }
}

/// The line recorded for a failed launch at auto-start is exactly one line.
pub proof fn lemma_auto_failure_one_line(e: MultiHostError)
    ensures
        is_one_line(auto_failure_line(e)),
{
    let l = auto_failure_line(e);
    let head = "error starting process: "@;
    reveal_strlit("error starting process: ");
    assert forall|k: int| 0 <= k < l.len() - 1 implies !is_line_break(#[trigger] l[k]) by {
        if k >= head.len() {
            assert(l[k] == single_line(error_text(e))[k - head.len()]);
        }
    }
}

/// The line recorded for a failed launch on a start/stop request is
/// exactly one line.
pub proof fn lemma_failure_one_line()
    ensures
        is_one_line(failure_line()),
{
    reveal_strlit("error starting process");
    let l = failure_line();
    assert forall|k: int| 0 <= k < l.len() - 1 implies !is_line_break(#[trigger] l[k]) by {
        assert(l[k] == "error starting process"@[k]);
    }
}

impl<C> View for HostedProcess<C> {
    type V = ProcessView<C>;

    closed spec fn view(&self) -> ProcessView<C> {
        ProcessView {
            name: self.name@,
            status: self.status,
            output: self.output@,
            child: self.child,
            run: self.run,
            stopped_by_request: self.stopped_by_request,
            auto_start: self.auto_start_enabled,
            app: self.app@,
            args: self.args@,
            cwd: self.working_directory@,
        }
    }
}

impl<C> HostedProcess<C> {
    /// The cached label agrees with the name and the current status.
    pub closed spec fn wf(&self) -> bool {
        self.display_name@ == display_text(self.name@, self.status)
    }

    /// A process that has not been run, with an empty output buffer.
    pub fn new(config: ProcessDefinition) -> (r: Self)
        ensures
            r.wf(),
            r@ == fresh_view::<C>(config),
    {
        let status = ProcessStatus::NotRun;
        let display_name = Self::format_display_name(config.name.as_str(), &status);
        HostedProcess {
            name: config.name,
            status,
            auto_start_enabled: config.auto_start,
            output: String::new(),
            display_name,
            child: None,
            run: 0,
            stopped_by_request: false,
            app: config.command,
            args: config.args,
            working_directory: config.cwd,
        }
    }

    fn format_display_name(name: &str, status: &ProcessStatus) -> (r: String)
        ensures
            r@ == display_text(name@, *status),
    {
        let r = String::from_str(name);
        let r = r.concat(" (");
        let s = status.text();
        let r = r.concat(s.as_str());
        r.concat(")")
    }

    fn update_display_name(&mut self)
        ensures
            final(self).wf(),
            final(self)@ == old(self)@,
    {
        self.display_name = Self::format_display_name(self.name.as_str(), &self.status);
    }

    /// Marks the process as running; called once a launch has succeeded.
    pub fn run(&mut self)
        ensures
            final(self).wf(),
            final(self)@ == with_status(old(self)@, ProcessStatus::Running),
    {
        self.status = ProcessStatus::Running;
        self.update_display_name();
    }

    /// Marks the process as stopped and gives up its live process handle,
    /// which the caller is to kill. A second stop finds no handle, so a
    /// process is signalled at most once. Output that the stopped launch
    /// still sends is not recorded.
    pub fn stop(&mut self) -> (killed: Option<C>)
        ensures
            final(self).wf(),
            final(self)@ == stopped(old(self)@),
            killed == old(self)@.child,
    {
        self.status = ProcessStatus::Stopped;
        self.stopped_by_request = true;
        self.update_display_name();
        self.child.take()
    }

    /// Records the outcome of a launch: on success the live process handle
    /// is kept under the next launch number; on failure nothing changes and
    /// the error is handed back.
    pub fn start(&mut self, spawned: Result<C, MultiHostError>) -> (r: Result<(), MultiHostError>)
        requires
            old(self).wf(),
        ensures
            final(self).wf(),
            match spawned {
                Ok(c) => r is Ok && final(self)@ == started(old(self)@, c),
                Err(e) => r == Err::<(), MultiHostError>(e) && final(self)@ == old(self)@,
            },
    {
        match spawned {
            Ok(c) => {
                self.child = Some(c);
                self.run = self.run.wrapping_add(1);
                self.stopped_by_request = false;
                Ok(())
            },
            Err(e) => Err(e),
        }
    }

    /// Applies the outcome of a launch asked for by a start/stop request: a
    /// success is recorded and the process runs; a failure leaves the status
    /// as it was and adds the line "error starting process" to the output.
    pub fn launch(&mut self, spawned: Result<C, MultiHostError>)
        requires
            old(self).wf(),
        ensures
            final(self).wf(),
            final(self)@ == match spawned {
                Ok(c) => launched(old(self)@, c),
                Err(_) => appended(old(self)@, failure_line()),
            },
    {
        match self.start(spawned) {
            Ok(()) => self.run(),
            Err(_) => self.append_line("error starting process"),
        }
    }

    /// Applies the outcome of a launch made at auto-start: a success is
    /// recorded and the process runs; a failure leaves the status as it was
    /// and adds exactly one line, which describes the error, to the output.
    pub fn try_auto_start(&mut self, spawned: Result<C, MultiHostError>)
        requires
            old(self).wf(),
        ensures
            final(self).wf(),
            final(self)@ == match spawned {
                Ok(c) => launched(old(self)@, c),
                Err(e) => appended(old(self)@, auto_failure_line(e)),
            },
            spawned is Err ==> is_one_line(auto_failure_line(spawned->Err_0)),
    {
        match self.start(spawned) {
            Ok(()) => self.run(),
            Err(e) => {
                let d = e.describe();
                let d = flatten_line(d.as_str());
                let line = String::from_str("error starting process: ");
                let line = line.concat(d.as_str());
                self.append_line(line.as_str());
                proof {
                    lemma_auto_failure_one_line(e);
                }
            },
        }
    }

    /// Whether the process is to be launched when processes are auto-started.
    pub fn auto_start_enabled(&self) -> (r: bool)
        ensures
            r == self@.auto_start,
    {
        self.auto_start_enabled
    }

    /// The number of the process's latest successful launch; 0 before the
    /// first.
    pub fn run_number(&self) -> (r: u64)
        ensures
            r == self@.run,
    {
        self.run
    }

    /// Appends one line, followed by a newline, to the output buffer.
    pub fn append_line(&mut self, line: &str)
        requires
            old(self).wf(),
        ensures
            final(self).wf(),
            final(self)@ == appended(old(self)@, line_text(line@)),
    {
        self.output.append(line);
        self.output.append("\n");
        proof {
            reveal_strlit("\n");
            assert(final(self)@.output =~= old(self)@.output + line_text(line@));
        }
    }

    /// Records that the process has terminated: an exit line is appended,
    /// the status becomes stopped and the live process handle is released.
    pub fn observe_exit(&mut self, status_text: &str)
        requires
            old(self).wf(),
        ensures
            final(self).wf(),
            final(self)@ == exited(old(self)@, status_text@),
    {
        let line = String::from_str("process exited with code ");
        let line = line.concat(status_text);
        self.append_line(line.as_str());
        self.status = ProcessStatus::Stopped;
        self.update_display_name();
        self.child = None;
    }

    /// Whether the current launch was stopped by request, so that output it
    /// still sends is not recorded.
    pub fn is_stopped_by_request(&self) -> (r: bool)
        ensures
            r == self@.stopped_by_request,
    {
        self.stopped_by_request
    }

    /// The process's name.
    pub fn name(&self) -> (r: &String)
        ensures
            r@ == self@.name,
    {
        &self.name
    }

    /// The current lifecycle state.
    pub fn status(&self) -> (r: ProcessStatus)
        ensures
            r == self@.status,
    {
        self.status
    }

    /// Everything the process has written so far, with the supervisor's own
    /// lines about launches and exits.
    pub fn output(&self) -> (r: &String)
        ensures
            r@ == self@.output,
    {
        &self.output
    }

    /// The label "name (status)", kept up to date on every status change.
    pub fn display_name(&self) -> (r: &String)
        requires
            self.wf(),
        ensures
            r@ == display_text(self@.name, self@.status),
    {
        &self.display_name
    }

    /// The live process handle, if a launch succeeded and no termination or
    /// stop has been recorded since.
    pub fn child(&self) -> (r: &Option<C>)
        ensures
            *r == self@.child,
    {
        &self.child
    }

    /// The executable to launch.
    pub fn app(&self) -> (r: &String)
        ensures
            r@ == self@.app,
    {
        &self.app
    }

    /// The arguments to launch the executable with, in order.
    pub fn args(&self) -> (r: &Vec<String>)
        ensures
            r@ == self@.args,
    {
        &self.args
    }

    /// The directory to launch the executable in.
    pub fn working_directory(&self) -> (r: &String)
        ensures
            r@ == self@.cwd,
    {
        &self.working_directory
    }
}

} // verus!
