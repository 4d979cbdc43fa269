use vstd::prelude::*;
use crate::definition::ProcessDefinition;
use crate::error::MultiHostError;
use crate::event::{line_text, next_run, Event, EventView, RunTag};
use crate::hosted_process::{
    appended, auto_failure_line, exited, failure_line, fresh_view, launched, stopped,
    HostedProcess, ProcessView,
};
use crate::status::ProcessStatus;

verus! {

/// The supervisor: every hosted process, addressed by its position, and the
/// position of the process whose output is on display.
#[derive(Debug)]
pub struct HomeScreen<C> {
    hosted_processes: Vec<HostedProcess<C>>,
    focused_process: usize,
    show_side_bar: bool,
}

/// What a [`HomeScreen`] holds, as mathematical values.
pub struct ScreenView<C> {
    pub processes: Seq<ProcessView<C>>,
    pub focused: usize,
    pub show_side_bar: bool,
}

/// What the caller is to do after a start/stop request.
#[derive(Debug)]
pub enum StartStop<C> {
    /// Launch the process, tagging its listeners' events with this tag, and
    /// report the outcome with `record_launch`.
    Launch(RunTag),
    /// The process was stopped: kill this live process.
    Kill(C),
}

/// One operation on the supervisor, as the model of its behaviour sees it.
pub enum Op<C> {
    /// A start/stop request for a process.
    StartStop(usize),
    /// The outcome of launching a process on a start/stop request.
    Launched(usize, Result<C, MultiHostError>),
    /// The outcome of launching a process at auto-start.
    AutoLaunched(usize, Result<C, MultiHostError>),
    /// An event from a listener.
    Deliver(EventView),
    /// The output of another process is put on display.
    Focus(usize),
    /// The list of processes is shown or hidden.
    ToggleSideBar,
}

/// What an event does to the process it is tagged with. An event from an
/// earlier launch changes nothing, nor does output from a launch that was
/// stopped by request.
pub open spec fn deliver<C>(p: ProcessView<C>, e: EventView) -> ProcessView<C> {
    match e {
        EventView::Output(tag, line) => if tag.run == p.run && !p.stopped_by_request {
            appended(p, line_text(line))
        } else {
            p
        },
        EventView::Exited(tag, text) => if tag.run == p.run {
            exited(p, text)
        } else {
            p
        },
    }
}

/// What the outcome of a launch on a start/stop request does to the process.
pub open spec fn launch_outcome<C>(p: ProcessView<C>, r: Result<C, MultiHostError>) -> ProcessView<C> {
    match r {
        Ok(c) => launched(p, c),
        Err(_) => appended(p, failure_line()),
    }
}

/// What the outcome of a launch at auto-start does to the process.
pub open spec fn auto_launch_outcome<C>(
    p: ProcessView<C>,
    r: Result<C, MultiHostError>,
) -> ProcessView<C> {
    match r {
        Ok(c) => launched(p, c),
        Err(e) => appended(p, auto_failure_line(e)),
    }
}

/// The tag that the listeners of the next launch of a process carry.
pub open spec fn next_tag<C>(process_id: usize, p: ProcessView<C>) -> RunTag {
    RunTag { process_id, run: next_run(p.run) }
}

/// The supervisor after one operation. An operation on a position that
/// holds no process changes nothing.
pub open spec fn apply_op<C>(s: ScreenView<C>, op: Op<C>) -> ScreenView<C> {
    match op {
        Op::StartStop(i) => if i < s.processes.len() && s.processes[i as int].status
            == ProcessStatus::Running {
            ScreenView {
                processes: s.processes.update(i as int, stopped(s.processes[i as int])),
                ..s
            }
        } else {
            s
        },
        Op::Launched(i, r) => if i < s.processes.len() {
            ScreenView {
                processes: s.processes.update(i as int, launch_outcome(s.processes[i as int], r)),
                ..s
            }
        } else {
            s
        },
        Op::AutoLaunched(i, r) => if i < s.processes.len() {
            ScreenView {
                processes: s.processes.update(
                    i as int,
                    auto_launch_outcome(s.processes[i as int], r),
                ),
                ..s
            }
        } else {
            s
        },
        Op::Deliver(e) => if e.target() < s.processes.len() {
            ScreenView {
                processes: s.processes.update(
                    e.target() as int,
                    deliver(s.processes[e.target() as int], e),
                ),
                ..s
            }
        } else {
            s
        },
        Op::Focus(i) => ScreenView { focused: i, ..s },
        Op::ToggleSideBar => ScreenView { show_side_bar: !s.show_side_bar, ..s },
    }
}

/// The supervisor after a sequence of operations, applied in order.
pub open spec fn apply_ops<C>(s: ScreenView<C>, ops: Seq<Op<C>>) -> ScreenView<C>
    decreases ops.len(),
{
    if ops.len() == 0 {
        s
    } else {
        apply_op(apply_ops(s, ops.drop_last()), ops.last())
    }
}

/// Whether auto-start launches this process: its flag is set and it is not
/// already running.
pub open spec fn wants_auto_start<C>(p: ProcessView<C>) -> bool {
    p.auto_start && p.status != ProcessStatus::Running
}

/// The positions below `n` of the processes that auto-start launches, in order.
pub open spec fn auto_start_ids<C>(ps: Seq<ProcessView<C>>, n: int) -> Seq<usize>
    decreases n,
{
    if n <= 0 {
        Seq::empty()
    } else if wants_auto_start(ps[n - 1]) {
        auto_start_ids(ps, n - 1).push((n - 1) as usize)
    } else {
        auto_start_ids(ps, n - 1)
    }
}

impl<C> View for HomeScreen<C> {
    type V = ScreenView<C>;

    closed spec fn view(&self) -> ScreenView<C> {
        ScreenView {
            processes: self.hosted_processes@.map_values(|p: HostedProcess<C>| p@),
            focused: self.focused_process,
            show_side_bar: self.show_side_bar,
        }
    }
}

/// A process holds a live process handle exactly while it is running.
pub open spec fn handle_agrees<C>(p: ProcessView<C>) -> bool {
    (p.status == ProcessStatus::Running) == (p.child is Some)
}

impl<C> HomeScreen<C> {
    /// Every process is well formed and holds a live process handle exactly
    /// while it is running.
    pub closed spec fn wf(&self) -> bool {
        forall|i: int|
            0 <= i < self.hosted_processes@.len() ==> {
                &&& (#[trigger] self.hosted_processes@[i]).wf()
                &&& handle_agrees(self.hosted_processes@[i]@)
            }
    }

    /// A supervisor for the given definitions, in order; none has run, the
    /// first is on display and the list of processes is shown.
    pub fn new(processes: &Vec<ProcessDefinition>) -> (r: Self)
        ensures
            r.wf(),
            r@.processes.len() == processes@.len(),
            forall|i: int|
                0 <= i < processes@.len() ==> #[trigger] r@.processes[i] == fresh_view::<C>(
                    processes@[i],
                ),
            r@.focused == 0,
            r@.show_side_bar,
    {
        let mut hosted: Vec<HostedProcess<C>> = Vec::new();
        let mut i: usize = 0;
        while i < processes.len()
            invariant
                i <= processes@.len(),
                hosted@.len() == i,
                forall|k: int|
                    0 <= k < i ==> {
                        &&& (#[trigger] hosted@[k]).wf()
                        &&& hosted@[k]@ == fresh_view::<C>(processes@[k])
                    },
            decreases processes@.len() - i,
        {
            let d = processes[i].duplicate();
            let p = HostedProcess::new(d);
            proof {
                assert(fresh_view::<C>(d) == fresh_view::<C>(processes@[i as int]));
            }
            hosted.push(p);
            i = i + 1;
        }
        let r = HomeScreen { hosted_processes: hosted, focused_process: 0, show_side_bar: true };
        proof {
            assert forall|i: int| 0 <= i < processes@.len() implies #[trigger] r@.processes[i]
                == fresh_view::<C>(processes@[i]) by {
                assert(r@.processes[i] == hosted@[i]@);
            }
        }
        r
    }

    /// The positions of the processes to launch when processes are
    /// auto-started, in collection order: those whose auto-start flag is set
    /// and that are not already running. Each launch carries the tag from
    /// `launch_tag`, and its outcome is reported with `record_auto_launch`.
    pub fn auto_start(&self) -> (ids: Vec<usize>)
        ensures
            ids@ == auto_start_ids(self@.processes, self@.processes.len() as int),
    {
        let mut ids: Vec<usize> = Vec::new();
        let mut i: usize = 0;
        while i < self.hosted_processes.len()
            invariant
                i <= self@.processes.len(),
                self@.processes.len() == self.hosted_processes@.len(),
                ids@ == auto_start_ids(self@.processes, i as int),
            decreases self.hosted_processes@.len() - i,
        {
            let p = &self.hosted_processes[i];
            proof {
                assert(self@.processes[i as int] == p@);
            }
            let wanted = match p.status() {
                ProcessStatus::Running => false,
                _ => p.auto_start_enabled(),
            };
            if wanted {
                ids.push(i);
            }
            i = i + 1;
        }
        ids
    }

    /// Handles a start/stop request: a running process is stopped and its
    /// live process handle handed back to be killed; any other is to be
    /// launched under the tag of its next launch, which changes nothing
    /// until the outcome is recorded.
    pub fn start_stop(&mut self, process_id: usize) -> (r: StartStop<C>)
        requires
            old(self).wf(),
            process_id < old(self)@.processes.len(),
        ensures
            final(self).wf(),
            final(self)@ == apply_op(old(self)@, Op::StartStop(process_id)),
            old(self)@.processes[process_id as int].status == ProcessStatus::Running ==> r
                == StartStop::Kill(old(self)@.processes[process_id as int].child->Some_0),
            old(self)@.processes[process_id as int].status != ProcessStatus::Running ==> r
                == StartStop::<C>::Launch(next_tag(process_id, old(self)@.processes[process_id as int])),
    {
        proof {
            assert(self.hosted_processes@[process_id as int]@ == self@.processes[process_id as int]);
        }
        match self.hosted_processes[process_id].status() {
            ProcessStatus::Running => {
                let killed = self.hosted_processes[process_id].stop();
                proof {
                    assert(self@.processes =~= old(self)@.processes.update(
                        process_id as int,
                        stopped(old(self)@.processes[process_id as int]),
                    ));
                    assert forall|i: int| 0 <= i < self.hosted_processes@.len() implies {
                        &&& (#[trigger] self.hosted_processes@[i]).wf()
                        &&& handle_agrees(self.hosted_processes@[i]@)
                    } by {
                        if i != process_id {
                            assert(self.hosted_processes@[i] == old(self).hosted_processes@[i]);
                        }
                    }
                }
                StartStop::Kill(killed.unwrap())
            },
            _ => StartStop::Launch(self.launch_tag(process_id)),
        }
    }

    /// The tag that the listeners of the next launch of a process carry: its
    /// position and the number that the launch will have.
    pub fn launch_tag(&self, process_id: usize) -> (r: RunTag)
        requires
            process_id < self@.processes.len(),
        ensures
            r == next_tag(process_id, self@.processes[process_id as int]),
    {
        let p = &self.hosted_processes[process_id];
        proof {
            assert(self@.processes[process_id as int] == p@);
        }
        RunTag { process_id, run: p.run_number().wrapping_add(1) }
    }

    /// Records the outcome of launching, on a start/stop request, a process
    /// that is not running: on success it runs with the new live process
    /// handle; on failure its status stays as it was and the line
    /// "error starting process" is added to its output.
    pub fn record_launch(&mut self, process_id: usize, spawned: Result<C, MultiHostError>)
        requires
            old(self).wf(),
            process_id < old(self)@.processes.len(),
            old(self)@.processes[process_id as int].status != ProcessStatus::Running,
        ensures
            final(self).wf(),
            final(self)@ == apply_op(old(self)@, Op::Launched(process_id, spawned)),
    {
        proof {
            assert(self.hosted_processes@[process_id as int]@ == self@.processes[process_id as int]);
        }
        self.hosted_processes[process_id].launch(spawned);
        proof {
            assert(self@.processes =~= old(self)@.processes.update(
                process_id as int,
                launch_outcome(old(self)@.processes[process_id as int], spawned),
            ));
            assert forall|i: int| 0 <= i < self.hosted_processes@.len() implies {
                &&& (#[trigger] self.hosted_processes@[i]).wf()
                &&& handle_agrees(self.hosted_processes@[i]@)
            } by {
                if i != process_id {
                    assert(self.hosted_processes@[i] == old(self).hosted_processes@[i]);
                }
            }
        }
    }

    /// Records the outcome of launching, at auto-start, a process that is
    /// not running: on success it runs with the new live process handle; on
    /// failure its status stays as it was and one line describing the error
    /// is added to its output.
    pub fn record_auto_launch(&mut self, process_id: usize, spawned: Result<C, MultiHostError>)
        requires
            old(self).wf(),
            process_id < old(self)@.processes.len(),
            old(self)@.processes[process_id as int].status != ProcessStatus::Running,
        ensures
            final(self).wf(),
            final(self)@ == apply_op(old(self)@, Op::AutoLaunched(process_id, spawned)),
    {
        proof {
            assert(self.hosted_processes@[process_id as int]@ == self@.processes[process_id as int]);
        }
        self.hosted_processes[process_id].try_auto_start(spawned);
        proof {
            assert(self@.processes =~= old(self)@.processes.update(
                process_id as int,
                auto_launch_outcome(old(self)@.processes[process_id as int], spawned),
            ));
            assert forall|i: int| 0 <= i < self.hosted_processes@.len() implies {
                &&& (#[trigger] self.hosted_processes@[i]).wf()
                &&& handle_agrees(self.hosted_processes@[i]@)
            } by {
                if i != process_id {
                    assert(self.hosted_processes@[i] == old(self).hosted_processes@[i]);
                }
            }
        }
    }

    /// Applies an event from a listener to the process it is tagged with:
    /// an output line is appended to its buffer with a newline; an exit is
    /// recorded as a line, and the process becomes stopped. Events from an
    /// earlier launch are ignored, and so is output from a launch that was
    /// stopped by request. No other process changes.
    pub fn update(&mut self, event: Event)
        requires
            old(self).wf(),
            event@.target() < old(self)@.processes.len(),
        ensures
            final(self).wf(),
            final(self)@ == apply_op(old(self)@, Op::Deliver(event@)),
    {
        let process_id = event.process_id();
        proof {
            assert(self.hosted_processes@[process_id as int]@ == self@.processes[process_id as int]);
        }
        let current = self.hosted_processes[process_id].run_number();
        let taking_output = !self.hosted_processes[process_id].is_stopped_by_request();
        match &event {
            Event::Output(tag, line) => {
                if tag.run == current && taking_output {
                    self.hosted_processes[process_id].append_line(line.as_str());
                }
            },
            Event::Exited(tag, text) => {
                if tag.run == current {
                    self.hosted_processes[process_id].observe_exit(text.as_str());
                }
            },
        }
        proof {
            assert(self@.processes =~= old(self)@.processes.update(
                process_id as int,
                deliver(old(self)@.processes[process_id as int], event@),
            ));
            assert forall|i: int| 0 <= i < self.hosted_processes@.len() implies {
                &&& (#[trigger] self.hosted_processes@[i]).wf()
                &&& handle_agrees(self.hosted_processes@[i]@)
            } by {
                if i != process_id {
                    assert(self.hosted_processes@[i] == old(self).hosted_processes@[i]);
                }
            }
        }
    }

    /// Puts the output of the process at this position on display.
    pub fn focus(&mut self, process_id: usize)
        requires
            old(self).wf(),
        ensures
            final(self).wf(),
            final(self)@ == apply_op(old(self)@, Op::Focus(process_id)),
    {
        self.focused_process = process_id;
    }

    /// Shows the list of processes if it is hidden, and hides it otherwise.
    pub fn toggle_side_bar(&mut self)
        requires
            old(self).wf(),
        ensures
            final(self).wf(),
            final(self)@ == apply_op(old(self)@, Op::<C>::ToggleSideBar),
    {
        self.show_side_bar = !self.show_side_bar;
    }

    /// The number of supervised processes.
    pub fn len(&self) -> (r: usize)
        ensures
            r == self@.processes.len(),
    {
        self.hosted_processes.len()
    }

    /// The process at a position.
    pub fn process(&self, process_id: usize) -> (r: &HostedProcess<C>)
        requires
            self.wf(),
            process_id < self@.processes.len(),
        ensures
            r@ == self@.processes[process_id as int],
            r.wf(),
    {
        &self.hosted_processes[process_id]
    }

    /// The position of the process whose output is on display.
    pub fn focused_process(&self) -> (r: usize)
        ensures
            r == self@.focused,
    {
        self.focused_process
    }

    /// Whether the list of processes is shown.
    pub fn show_side_bar(&self) -> (r: bool)
        ensures
            r == self@.show_side_bar,
    {
        self.show_side_bar
    }
}

} // verus!
