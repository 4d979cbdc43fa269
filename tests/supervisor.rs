use multi_host::home::HomeScreen;
use multi_host::listener::{exit_step, keeps_listening, starting_event, stream_step};
use multi_host::{Event, ListenerStep, MultiHostError, ProcessDefinition, ProcessStatus, RunTag, StartStop};

fn definition(name: &str, command: &str, args: &[&str], auto_start: bool) -> ProcessDefinition {
    ProcessDefinition {
        name: name.to_string(),
        command: command.to_string(),
        cwd: ".".to_string(),
        args: args.iter().map(|a| a.to_string()).collect(),
        auto_start,
    }
}

fn tag(process_id: usize, run: u64) -> RunTag {
    RunTag { process_id, run }
}

fn forward(step: ListenerStep) -> Event {
    match step {
        ListenerStep::Forward(e) => e,
        other => panic!("expected an event, got {:?}", other),
    }
}

#[test]
fn new_screen_has_nothing_running() {
    let defs = vec![definition("a", "x", &[], false), definition("b", "y", &[], true)];
    let screen: HomeScreen<u32> = HomeScreen::new(&defs);
    assert_eq!(screen.len(), 2);
    for id in 0..2 {
        assert_eq!(screen.process(id).status(), ProcessStatus::NotRun);
        assert!(screen.process(id).child().is_none());
        assert_eq!(screen.process(id).output(), "");
    }
    assert_eq!(screen.focused_process(), 0);
    assert!(screen.show_side_bar());
}

#[test]
fn unstarted_process_stays_not_run() {
    let defs = vec![definition("a", "x", &[], false), definition("b", "y", &[], false)];
    let mut screen: HomeScreen<u32> = HomeScreen::new(&defs);
    screen.record_launch(1, Ok(5));
    screen.update(Event::Output(tag(1, 1), "line".to_string()));
    screen.focus(1);
    screen.toggle_side_bar();
    assert!(matches!(screen.start_stop(1), StartStop::Kill(5)));
    assert_eq!(screen.process(0).status(), ProcessStatus::NotRun);
    assert_eq!(screen.process(1).status(), ProcessStatus::Stopped);
}

#[test]
fn running_until_stop_or_exit() {
    let defs = vec![definition("a", "x", &[], false)];
    let mut screen: HomeScreen<u32> = HomeScreen::new(&defs);
    assert!(matches!(screen.start_stop(0), StartStop::Launch(t) if t == tag(0, 1)));
    assert_eq!(screen.process(0).status(), ProcessStatus::NotRun);
    screen.record_launch(0, Ok(9));
    assert_eq!(screen.process(0).status(), ProcessStatus::Running);
    assert_eq!(screen.process(0).child(), &Some(9));
    screen.update(Event::Output(tag(0, 1), "one".to_string()));
    screen.focus(0);
    screen.toggle_side_bar();
    assert_eq!(screen.process(0).status(), ProcessStatus::Running);
    screen.update(Event::Exited(tag(0, 1), "exit status: 3".to_string()));
    assert_eq!(screen.process(0).status(), ProcessStatus::Stopped);
    assert!(screen.process(0).child().is_none());
    assert_eq!(screen.process(0).output(), "one\nprocess exited with code exit status: 3\n");
}

#[test]
fn restart_after_stop() {
    let defs = vec![definition("a", "x", &[], false)];
    let mut screen: HomeScreen<u32> = HomeScreen::new(&defs);
    screen.record_launch(0, Ok(1));
    assert!(matches!(screen.start_stop(0), StartStop::Kill(1)));
    assert!(matches!(screen.start_stop(0), StartStop::Launch(t) if t == tag(0, 2)));
    screen.record_launch(0, Ok(2));
    assert_eq!(screen.process(0).run_number(), 2);
    assert_eq!(screen.process(0).status(), ProcessStatus::Running);
    assert_eq!(screen.process(0).display_name(), "a (running)");
}

#[test]
fn stop_twice_signals_once() {
    let mut p: multi_host::HostedProcess<u32> =
        multi_host::HostedProcess::new(definition("p", "x", &[], false));
    assert_eq!(p.start(Ok(4)).is_ok(), true);
    p.run();
    assert_eq!(p.stop(), Some(4));
    assert_eq!(p.status(), ProcessStatus::Stopped);
    assert_eq!(p.stop(), None);
    assert_eq!(p.status(), ProcessStatus::Stopped);
    assert_eq!(p.display_name(), "p (stopped)");
}

#[test]
fn stop_on_never_run_process_signals_nothing() {
    let mut p: multi_host::HostedProcess<u32> =
        multi_host::HostedProcess::new(definition("p", "x", &[], false));
    assert_eq!(p.stop(), None);
    assert_eq!(p.status(), ProcessStatus::Stopped);
}

#[test]
fn lines_arrive_in_order_once() {
    let defs = vec![definition("a", "x", &[], false)];
    let mut screen: HomeScreen<u32> = HomeScreen::new(&defs);
    screen.record_launch(0, Ok(1));
    for line in ["first", "second", "third"] {
        let event = forward(stream_step(tag(0, 1), Some(Ok(line.to_string()))));
        screen.update(event);
    }
    assert!(matches!(stream_step(tag(0, 1), None), ListenerStep::Finish));
    assert_eq!(screen.process(0).output(), "first\nsecond\nthird\n");
}

#[test]
fn events_stay_with_their_process() {
    let defs = vec![definition("a", "x", &[], false), definition("b", "y", &[], false)];
    let mut screen: HomeScreen<u32> = HomeScreen::new(&defs);
    screen.record_launch(0, Ok(10));
    screen.record_launch(1, Ok(11));
    screen.update(forward(stream_step(tag(1, 1), Some(Ok("from b".to_string())))));
    screen.update(forward(stream_step(tag(0, 1), Some(Ok("from a".to_string())))));
    screen.update(forward(exit_step(tag(1, 1), Ok(Some("exit status: 0".to_string())))));
    assert_eq!(screen.process(0).output(), "from a\n");
    assert_eq!(screen.process(0).status(), ProcessStatus::Running);
    assert_eq!(screen.process(1).output(), "from b\nprocess exited with code exit status: 0\n");
    assert_eq!(screen.process(1).status(), ProcessStatus::Stopped);
}

#[test]
fn auto_started_echo_finishes_with_its_output() {
    let defs = vec![definition("p1", "echo", &["hi"], true)];
    let mut screen: HomeScreen<u32> = HomeScreen::new(&defs);
    let ids = screen.auto_start();
    assert_eq!(ids, vec![0]);
    assert_eq!(screen.launch_tag(0), tag(0, 1));
    screen.record_auto_launch(0, Ok(1));
    assert_eq!(screen.process(0).status(), ProcessStatus::Running);
    screen.update(starting_event(tag(0, 1)));
    screen.update(forward(stream_step(tag(0, 1), Some(Ok("hi".to_string())))));
    assert!(matches!(exit_step(tag(0, 1), Ok(None)), ListenerStep::Wait));
    screen.update(forward(exit_step(tag(0, 1), Ok(Some("exit status: 0".to_string())))));
    assert_eq!(screen.process(0).status(), ProcessStatus::Stopped);
    let output = screen.process(0).output().clone();
    let hi = output.find("hi\n").expect("the echoed line is recorded");
    let exit = output.find("process exited with code").expect("the exit is recorded");
    assert!(hi < exit);
    let exit_line = output[exit..].lines().next().unwrap();
    assert!(exit_line.contains('0'));
    assert_eq!(output, "process starting...\nhi\nprocess exited with code exit status: 0\n");
}

#[test]
fn failed_launch_adds_one_line() {
    let defs = vec![definition("bad", "/nonexistent/prog", &[], false)];
    let mut screen: HomeScreen<u32> = HomeScreen::new(&defs);
    assert!(matches!(screen.start_stop(0), StartStop::Launch(_)));
    screen.record_launch(0, Err(MultiHostError::Io("No such file or directory (os error 2)".to_string())));
    assert_eq!(screen.process(0).status(), ProcessStatus::NotRun);
    assert!(screen.process(0).child().is_none());
    assert_eq!(screen.process(0).output(), "error starting process\n");
}

#[test]
fn failed_auto_start_describes_error_on_one_line() {
    let defs = vec![definition("bad", "/nonexistent/prog", &[], true)];
    let mut screen: HomeScreen<u32> = HomeScreen::new(&defs);
    assert_eq!(screen.auto_start(), vec![0]);
    screen.record_auto_launch(0, Err(MultiHostError::Simple("first\nsecond\r\nthird".to_string())));
    assert_eq!(screen.process(0).status(), ProcessStatus::NotRun);
    assert!(screen.process(0).child().is_none());
    assert_eq!(
        screen.process(0).output(),
        "error starting process: Simple error: `first second  third`\n"
    );
    assert_eq!(screen.process(0).output().lines().count(), 1);
}

#[test]
fn failed_auto_start_io_error() {
    let defs = vec![definition("bad", "/nonexistent/prog", &[], true)];
    let mut screen: HomeScreen<u32> = HomeScreen::new(&defs);
    screen.record_auto_launch(0, Err(MultiHostError::Io("No such file or directory (os error 2)".to_string())));
    assert_eq!(
        screen.process(0).output(),
        "error starting process: IO error: No such file or directory (os error 2)\n"
    );
}

#[test]
fn failed_restart_keeps_stopped_status() {
    let defs = vec![definition("p", "x", &[], false)];
    let mut screen: HomeScreen<u32> = HomeScreen::new(&defs);
    screen.record_launch(0, Ok(1));
    let _ = screen.start_stop(0);
    screen.record_launch(0, Err(MultiHostError::Simple("couldn't take stdout".to_string())));
    assert_eq!(screen.process(0).status(), ProcessStatus::Stopped);
    assert_eq!(screen.process(0).output(), "error starting process\n");
}

#[test]
fn stop_of_long_running_process() {
    let defs = vec![definition("long", "sleep", &["100"], false)];
    let mut screen: HomeScreen<u32> = HomeScreen::new(&defs);
    assert!(matches!(screen.start_stop(0), StartStop::Launch(t) if t == tag(0, 1)));
    screen.record_launch(0, Ok(77));
    match screen.start_stop(0) {
        StartStop::Kill(c) => assert_eq!(c, 77),
        StartStop::Launch(_) => panic!("a running process is stopped"),
    }
    assert_eq!(screen.process(0).status(), ProcessStatus::Stopped);
    assert!(screen.process(0).child().is_none());
    assert!(matches!(stream_step(tag(0, 1), None), ListenerStep::Finish));
}

#[test]
fn auto_start_lists_flagged_processes_not_running() {
    let defs = vec![
        definition("a", "x", &[], true),
        definition("b", "y", &[], false),
        definition("c", "z", &[], true),
        definition("d", "w", &[], true),
    ];
    let mut screen: HomeScreen<u32> = HomeScreen::new(&defs);
    assert_eq!(screen.auto_start(), vec![0, 2, 3]);
    screen.record_auto_launch(2, Ok(3));
    assert_eq!(screen.auto_start(), vec![0, 3]);
    let empty: HomeScreen<u32> = HomeScreen::new(&Vec::new());
    assert_eq!(empty.auto_start(), Vec::<usize>::new());
}

#[test]
fn focus_and_side_bar() {
    let defs = vec![definition("a", "x", &[], false), definition("b", "y", &[], false)];
    let mut screen: HomeScreen<u32> = HomeScreen::new(&defs);
    screen.focus(1);
    assert_eq!(screen.focused_process(), 1);
    screen.toggle_side_bar();
    assert!(!screen.show_side_bar());
    screen.toggle_side_bar();
    assert!(screen.show_side_bar());
}

#[test]
fn listener_steps() {
    match stream_step(tag(4, 2), Some(Err("stream did not contain valid UTF-8".to_string()))) {
        ListenerStep::Forward(Event::Output(t, text)) => {
            assert_eq!(t, tag(4, 2));
            assert_eq!(text, "stream did not contain valid UTF-8")
        }
        other => panic!("unexpected {:?}", other),
    }
    assert!(matches!(exit_step(tag(4, 2), Err("denied".to_string())), ListenerStep::Finish));
    match starting_event(tag(4, 2)) {
        Event::Output(t, text) => {
            assert_eq!(t, tag(4, 2));
            assert_eq!(text, "process starting...");
        }
        other => panic!("unexpected {:?}", other),
    }
    let line = Event::Output(tag(4, 1), "x".to_string());
    let exit = Event::Exited(tag(4, 1), "exit status: 0".to_string());
    assert!(keeps_listening(&line, true));
    assert!(!keeps_listening(&line, false));
    assert!(!keeps_listening(&exit, true));
    assert!(!keeps_listening(&exit, false));
    assert_eq!(exit.process_id(), 4);
    assert_eq!(exit.tag(), tag(4, 1));
}

#[test]
fn exit_of_earlier_launch_is_ignored() {
    let defs = vec![definition("a", "x", &[], false)];
    let mut screen: HomeScreen<u32> = HomeScreen::new(&defs);
    screen.record_launch(0, Ok(1));
    assert!(matches!(screen.start_stop(0), StartStop::Kill(1)));
    assert!(matches!(screen.start_stop(0), StartStop::Launch(t) if t == tag(0, 2)));
    screen.record_launch(0, Ok(2));
    screen.update(Event::Exited(tag(0, 1), "signal: 9 (SIGKILL)".to_string()));
    assert_eq!(screen.process(0).status(), ProcessStatus::Running);
    assert_eq!(screen.process(0).child(), &Some(2));
    assert_eq!(screen.process(0).output(), "");
    screen.update(Event::Output(tag(0, 2), "new run".to_string()));
    screen.update(Event::Exited(tag(0, 2), "exit status: 0".to_string()));
    assert_eq!(screen.process(0).status(), ProcessStatus::Stopped);
    assert_eq!(screen.process(0).output(), "new run\nprocess exited with code exit status: 0\n");
}

#[test]
fn output_after_stop_is_not_recorded() {
    let defs = vec![definition("long", "sleep", &["100"], false)];
    let mut screen: HomeScreen<u32> = HomeScreen::new(&defs);
    screen.record_launch(0, Ok(7));
    screen.update(Event::Output(tag(0, 1), "before".to_string()));
    assert!(matches!(screen.start_stop(0), StartStop::Kill(7)));
    screen.update(Event::Output(tag(0, 1), "after".to_string()));
    assert_eq!(screen.process(0).output(), "before\n");
    screen.update(Event::Exited(tag(0, 1), "signal: 9 (SIGKILL)".to_string()));
    assert_eq!(
        screen.process(0).output(),
        "before\nprocess exited with code signal: 9 (SIGKILL)\n"
    );
    assert_eq!(screen.process(0).status(), ProcessStatus::Stopped);
}
