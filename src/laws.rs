use vstd::prelude::*;
use crate::error::MultiHostError;
use crate::event::{line_text, EventView, RunTag};
use crate::home::{apply_op, apply_ops, Op, ScreenView};
use crate::hosted_process::{
    appended, auto_failure_line, failure_line, is_one_line, lemma_auto_failure_one_line,
    lemma_failure_one_line, launched, stopped, ProcessView,
};
use crate::listener::stream_event;
use crate::status::ProcessStatus;

verus! {

/// The position of the process an operation acts on, if it acts on one.
pub open spec fn op_target<C>(op: Op<C>) -> Option<usize> {
    match op {
        Op::StartStop(i) => Some(i),
        Op::Launched(i, _) => Some(i),
        Op::AutoLaunched(i, _) => Some(i),
        Op::Deliver(e) => Some(e.target()),
        Op::Focus(_) => None,
        Op::ToggleSideBar => None,
    }
}

/// Whether an operation is a successful launch of the process at `i`.
pub open spec fn launches<C>(op: Op<C>, i: usize) -> bool {
    (op matches Op::Launched(j, Ok(_)) && j == i) || (op matches Op::AutoLaunched(j, Ok(_)) && j
        == i)
}

/// Whether an operation is a stop request for, or an exit of, the process at `i`.
pub open spec fn stops_or_exits<C>(op: Op<C>, i: usize) -> bool {
    op == Op::<C>::StartStop(i) || (op matches Op::Deliver(EventView::Exited(t, _))
        && t.process_id == i)
}

/// The text that a sequence of lines leaves in an output buffer: each line
/// once, in order, each followed by a newline.
pub open spec fn joined(lines: Seq<Seq<char>>) -> Seq<char>
    decreases lines.len(),
{
    if lines.len() == 0 {
        Seq::empty()
    } else {
        joined(lines.drop_last()) + line_text(lines.last())
    }
}

/// The deliveries of what a stream listener with this tag forwards for
/// each of these lines, in the order they were read.
pub open spec fn forwarded_lines<C>(tag: RunTag, lines: Seq<Seq<char>>) -> Seq<Op<C>> {
    lines.map(|k: int, l: Seq<char>| Op::<C>::Deliver(stream_event(tag, Some(Ok(l)))->Some_0))
}

/// No operation adds or removes processes.
pub proof fn lemma_count_kept<C>(s: ScreenView<C>, ops: Seq<Op<C>>)
    ensures
        apply_ops(s, ops).processes.len() == s.processes.len(),
    decreases ops.len(),
{
    if ops.len() > 0 {
        lemma_count_kept(s, ops.drop_last());
    }
}

/// A process that has not been started successfully, and so has had no
/// event from a listener, has not run: whatever else happens, a process
/// that has not run stays so until a launch of it succeeds.
pub proof fn lemma_unstarted_not_run<C>(s: ScreenView<C>, ops: Seq<Op<C>>, i: usize)
    requires
        i < s.processes.len(),
        s.processes[i as int].status == ProcessStatus::NotRun,
        forall|k: int| 0 <= k < ops.len() ==> !launches(#[trigger] ops[k], i),
        forall|k: int|
            0 <= k < ops.len() ==> !(#[trigger] ops[k] matches Op::Deliver(e) && e.target() == i),
    ensures
        apply_ops(s, ops).processes[i as int].status == ProcessStatus::NotRun,
    decreases ops.len(),
{
    if ops.len() > 0 {
        let rest = ops.drop_last();
        assert forall|k: int| 0 <= k < rest.len() implies !launches(#[trigger] rest[k], i) by {
            assert(rest[k] == ops[k]);
        }
        assert forall|k: int| 0 <= k < rest.len() implies !(#[trigger] rest[k] matches Op::Deliver(
            e,
        ) && e.target() == i) by {
            assert(rest[k] == ops[k]);
        }
        lemma_unstarted_not_run(s, rest, i);
        lemma_count_kept(s, rest);
        assert(!launches(ops[ops.len() - 1], i));
        assert(!(ops[ops.len() - 1] matches Op::Deliver(e) && e.target() == i));
    }
}

/// A successful launch, on a start/stop request or at auto-start, leaves
/// the process running.
pub proof fn lemma_launch_runs<C>(s: ScreenView<C>, i: usize, child: C)
    requires
        i < s.processes.len(),
    ensures
        apply_op(s, Op::Launched(i, Ok(child))).processes[i as int] == launched(
            s.processes[i as int],
            child,
        ),
        apply_op(s, Op::AutoLaunched(i, Ok(child))).processes[i as int] == launched(
            s.processes[i as int],
            child,
        ),
        launched(s.processes[i as int], child).status == ProcessStatus::Running,
{
}

/// A failed launch leaves the status and the live process handle as they
/// were and adds exactly one line to the output: "error starting process"
/// on a start/stop request, a description of the error at auto-start.
pub proof fn lemma_failed_launch_adds_one_line<C>(
    s: ScreenView<C>,
    i: usize,
    e: MultiHostError,
)
    requires
        i < s.processes.len(),
    ensures
        apply_op(s, Op::Launched(i, Err(e))).processes[i as int] == appended(
            s.processes[i as int],
            failure_line(),
        ),
        apply_op(s, Op::AutoLaunched(i, Err(e))).processes[i as int] == appended(
            s.processes[i as int],
            auto_failure_line(e),
        ),
        is_one_line(failure_line()),
        is_one_line(auto_failure_line(e)),
{
    lemma_failure_one_line();
    lemma_auto_failure_one_line(e);
}

/// A running process leaves that state only through a stop request or an
/// observed exit, and then it is stopped.
pub proof fn lemma_leaves_running_only_by_stop_or_exit<C>(s: ScreenView<C>, op: Op<C>, i: usize)
    requires
        i < s.processes.len(),
        s.processes[i as int].status == ProcessStatus::Running,
        apply_op(s, op).processes[i as int].status != ProcessStatus::Running,
    ensures
        stops_or_exits(op, i),
        apply_op(s, op).processes[i as int].status == ProcessStatus::Stopped,
{
}

/// Once running, a process stays running through any operations among
/// which there is no stop request for it and no exit of it.
pub proof fn lemma_running_until_stop_or_exit<C>(s: ScreenView<C>, ops: Seq<Op<C>>, i: usize)
    requires
        i < s.processes.len(),
        s.processes[i as int].status == ProcessStatus::Running,
        forall|k: int| 0 <= k < ops.len() ==> !stops_or_exits(#[trigger] ops[k], i),
    ensures
        apply_ops(s, ops).processes[i as int].status == ProcessStatus::Running,
    decreases ops.len(),
{
    if ops.len() > 0 {
        let rest = ops.drop_last();
        assert forall|k: int| 0 <= k < rest.len() implies !stops_or_exits(#[trigger] rest[k], i) by {
            assert(rest[k] == ops[k]);
        }
        lemma_running_until_stop_or_exit(s, rest, i);
        lemma_count_kept(s, rest);
        let last = ops[ops.len() - 1];
        assert(!stops_or_exits(last, i));
        if apply_ops(s, ops).processes[i as int].status != ProcessStatus::Running {
            lemma_leaves_running_only_by_stop_or_exit(apply_ops(s, rest), last, i);
        }
    }
}

/// Stopping twice leaves the process stopped both times, and the second
/// stop changes nothing and finds no live process to signal, so at most
/// one termination signal is sent.
pub proof fn lemma_stop_twice<C>(p: ProcessView<C>)
    ensures
        stopped(p).status == ProcessStatus::Stopped,
        stopped(stopped(p)).status == ProcessStatus::Stopped,
        stopped(stopped(p)) == stopped(p),
        stopped(p).child is None,
{
}

/// Every line that the stream listener of the current launch of a process
/// reads lands in that process's output buffer exactly once, in the order
/// it was read, unless the launch was stopped by request.
pub proof fn lemma_lines_in_order<C>(s: ScreenView<C>, tag: RunTag, lines: Seq<Seq<char>>)
    requires
        tag.process_id < s.processes.len(),
        tag.run == s.processes[tag.process_id as int].run,
        !s.processes[tag.process_id as int].stopped_by_request,
    ensures
        apply_ops(s, forwarded_lines::<C>(tag, lines)).processes[tag.process_id as int]
            == appended(s.processes[tag.process_id as int], joined(lines)),
    decreases lines.len(),
{
    let i = tag.process_id;
    let ops = forwarded_lines::<C>(tag, lines);
    if lines.len() > 0 {
        let rest = lines.drop_last();
        assert(ops.drop_last() =~= forwarded_lines::<C>(tag, rest));
        lemma_lines_in_order(s, tag, rest);
        lemma_count_kept(s, ops.drop_last());
        assert(s.processes[i as int].output + joined(rest) + line_text(lines.last())
            =~= s.processes[i as int].output + joined(lines));
    } else {
        assert(s.processes[i as int].output + joined(lines) =~= s.processes[i as int].output);
    }
}

/// After a stop request for a running process, it is stopped, and no
/// output event, whichever launch it comes from, changes it.
pub proof fn lemma_no_output_after_stop<C>(s: ScreenView<C>, i: usize, ops: Seq<Op<C>>)
    requires
        i < s.processes.len(),
        s.processes[i as int].status == ProcessStatus::Running,
        forall|k: int| 0 <= k < ops.len() ==> #[trigger] ops[k] matches Op::Deliver(
            EventView::Output(_, _),
        ),
    ensures
        apply_op(s, Op::StartStop(i)).processes[i as int].status == ProcessStatus::Stopped,
        apply_ops(apply_op(s, Op::StartStop(i)), ops).processes[i as int] == apply_op(
            s,
            Op::StartStop(i),
        ).processes[i as int],
    decreases ops.len(),
{
    if ops.len() > 0 {
        let rest = ops.drop_last();
        assert forall|k: int| 0 <= k < rest.len() implies #[trigger] rest[k] matches Op::Deliver(
            EventView::Output(_, _),
        ) by {
            assert(rest[k] == ops[k]);
        }
        lemma_no_output_after_stop(s, i, rest);
        lemma_count_kept(apply_op(s, Op::StartStop(i)), rest);
        assert(ops[ops.len() - 1] matches Op::Deliver(EventView::Output(_, _)));
    }
}

/// An event from an earlier launch of a process changes nothing, so the
/// exit of a stopped launch cannot stop a later one.
pub proof fn lemma_stale_events_ignored<C>(s: ScreenView<C>, e: EventView)
    requires
        e.target() < s.processes.len(),
        e.tag().run != s.processes[e.target() as int].run,
    ensures
        apply_op(s, Op::Deliver(e)) == s,
{
    assert(apply_op(s, Op::Deliver(e)).processes =~= s.processes);
}

/// Operations on other processes, events tagged with their ids among
/// them, never change a process.
pub proof fn lemma_isolation<C>(s: ScreenView<C>, ops: Seq<Op<C>>, a: usize)
    requires
        a < s.processes.len(),
        forall|k: int| 0 <= k < ops.len() ==> op_target(#[trigger] ops[k]) != Some(a),
    ensures
        apply_ops(s, ops).processes[a as int] == s.processes[a as int],
    decreases ops.len(),
{
    if ops.len() > 0 {
        let rest = ops.drop_last();
        assert forall|k: int| 0 <= k < rest.len() implies op_target(#[trigger] rest[k]) != Some(
            a,
        ) by {
            assert(rest[k] == ops[k]);
        }
        lemma_isolation(s, rest, a);
        lemma_count_kept(s, rest);
        assert(op_target(ops[ops.len() - 1]) != Some(a));
    }
}

} // verus!
