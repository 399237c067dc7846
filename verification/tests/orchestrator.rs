use elm_watch::change::RawEvent;
use elm_watch::config::{Config, FatalError};
use elm_watch::frame::DisplayFrame;
use elm_watch::orchestrator::{Action, Event, Orchestrator, Phase};
use elm_watch::output::{build_command, BuildResult};

fn strings(items: &[&str]) -> Vec<String> {
    items.iter().map(|s| s.to_string()).collect()
}

fn config(single: bool) -> Config {
    Config::new("src/Main.elm".to_string(), strings(&["src", "tests"]), single, Some("/cwd".to_string()))
        .expect("a configuration")
}

fn event(paths: &[&str]) -> RawEvent {
    RawEvent::new(strings(paths)).expect("an event names a path")
}

fn finished(stdout: &str, stderr: &str) -> Event {
    Event::BuildFinished(BuildResult {
        stdout: stdout.as_bytes().to_vec(),
        stderr: stderr.as_bytes().to_vec(),
    })
}

fn step(orchestrator: &mut Orchestrator, event: Event) -> Action {
    orchestrator.step(event).expect("the event is an outcome of the last action")
}

fn frame_of(action: Action) -> DisplayFrame {
    match action {
        Action::Render(frame) => frame,
        other => panic!("expected a frame, got {:?}", other),
    }
}

fn awaiting(single: bool) -> Orchestrator {
    let (mut orchestrator, _) = Orchestrator::start(config(single));
    step(&mut orchestrator, Event::WatchesRegistered);
    step(&mut orchestrator, finished("Success!\n", ""));
    assert_eq!(orchestrator.phase(), Phase::AwaitingEvent);
    orchestrator
}

#[test]
fn a_run_begins_by_watching_the_configured_paths() {
    let (orchestrator, action) = Orchestrator::start(config(false));
    assert_eq!(orchestrator.phase(), Phase::Registering);
    assert_eq!(orchestrator.config().main(), "src/Main.elm");
    match action {
        Action::Watch { paths, recursive, window_ms } => {
            assert_eq!(paths, strings(&["src", "tests"]));
            assert!(recursive);
            assert_eq!(window_ms, 50);
        }
        other => panic!("expected the watches, got {:?}", other),
    }
}

#[test]
fn the_first_build_follows_the_registration() {
    let (mut orchestrator, _) = Orchestrator::start(config(false));
    match step(&mut orchestrator, Event::WatchesRegistered) {
        Action::Build(command) => assert_eq!(command, build_command("src/Main.elm")),
        other => panic!("expected a build, got {:?}", other),
    }
    assert_eq!(orchestrator.phase(), Phase::Building);
}

#[test]
fn the_first_frame_is_drawn_before_any_change_is_taken() {
    let (mut orchestrator, _) = Orchestrator::start(config(false));
    assert!(!orchestrator.accepts(&Event::Changes(vec![event(&["/cwd/src/a.elm"])])));
    step(&mut orchestrator, Event::WatchesRegistered);
    assert!(!orchestrator.accepts(&Event::Changes(vec![event(&["/cwd/src/a.elm"])])));
    let frame = frame_of(step(&mut orchestrator, finished("Success!\n", "")));
    assert_eq!(frame.header, "Main: src/Main.elm. Path(s): src, tests\n");
    assert_eq!(frame.changed, None);
    assert_eq!(frame.body, b"Success!\n".to_vec());
    assert_eq!(orchestrator.phase(), Phase::AwaitingEvent);
    assert!(orchestrator.accepts(&Event::Changes(vec![event(&["/cwd/src/a.elm"])])));
}

#[test]
fn a_failed_registration_ends_the_run_before_any_build() {
    let (mut orchestrator, _) = Orchestrator::start(config(false));
    match step(&mut orchestrator, Event::WatchFailed("No such file or directory".to_string())) {
        Action::Abort(error) => {
            assert_eq!(error, FatalError::WatchFailed("No such file or directory".to_string()))
        }
        other => panic!("expected the end of the run, got {:?}", other),
    }
    assert_eq!(orchestrator.phase(), Phase::Failed);
    assert!(!orchestrator.accepts(&Event::WatchesRegistered));
    assert!(!orchestrator.accepts(&finished("", "")));
}

#[test]
fn a_build_that_cannot_be_started_ends_the_run() {
    let (mut orchestrator, _) = Orchestrator::start(config(false));
    step(&mut orchestrator, Event::WatchesRegistered);
    match step(&mut orchestrator, Event::BuildNotStarted("program not found".to_string())) {
        Action::Abort(error) => {
            assert_eq!(error, FatalError::BuildNotStarted("program not found".to_string()))
        }
        other => panic!("expected the end of the run, got {:?}", other),
    }
    assert_eq!(orchestrator.phase(), Phase::Failed);
}

#[test]
fn a_batch_starts_one_build_and_its_frame_lists_the_changes() {
    let mut orchestrator = awaiting(false);
    let batch = vec![
        event(&["/cwd/src/a.txt"]),
        event(&["/cwd/src/a.txt"]),
        event(&["/cwd/src/b.txt"]),
    ];
    match step(&mut orchestrator, Event::Changes(batch)) {
        Action::Build(command) => assert_eq!(command, build_command("src/Main.elm")),
        other => panic!("expected a build, got {:?}", other),
    }
    assert_eq!(orchestrator.phase(), Phase::Building);
    let frame = frame_of(step(&mut orchestrator, finished("", "-- ERROR --")));
    assert_eq!(frame.changed, Some("Changed: src/a.txt, src/b.txt\n".to_string()));
    assert_eq!(frame.body, b"-- ERROR --".to_vec());
    assert_eq!(orchestrator.phase(), Phase::AwaitingEvent);
}

#[test]
fn the_changes_of_one_build_do_not_show_in_the_next() {
    let mut orchestrator = awaiting(false);
    step(&mut orchestrator, Event::Changes(vec![event(&["/cwd/src/a.txt"])]));
    step(&mut orchestrator, finished("ok", ""));
    step(&mut orchestrator, Event::Changes(vec![event(&["/cwd/src/b.txt"])]));
    let frame = frame_of(step(&mut orchestrator, finished("ok", "")));
    assert_eq!(frame.changed, Some("Changed: src/b.txt\n".to_string()));
}

#[test]
fn separate_batches_start_separate_builds() {
    let mut orchestrator = awaiting(false);
    let mut builds = 0;
    let mut frames = 0;
    for i in 0..5 {
        let path = format!("/cwd/src/File{}.elm", i);
        match step(&mut orchestrator, Event::Changes(vec![event(&[path.as_str()])])) {
            Action::Build(_) => builds += 1,
            other => panic!("expected a build, got {:?}", other),
        }
        match step(&mut orchestrator, finished("ok", "")) {
            Action::Render(_) => frames += 1,
            other => panic!("expected a frame, got {:?}", other),
        }
    }
    assert_eq!(builds, 5);
    assert_eq!(frames, 5);
}

#[test]
fn while_a_build_runs_only_its_end_is_taken() {
    let mut orchestrator = awaiting(false);
    step(&mut orchestrator, Event::Changes(vec![event(&["/cwd/src/a.txt"])]));
    assert!(!orchestrator.accepts(&Event::Changes(vec![event(&["/cwd/src/b.txt"])])));
    assert!(!orchestrator.accepts(&Event::SourceFailed(strings(&["lost"]))));
    assert!(!orchestrator.accepts(&Event::WatchesRegistered));
    assert!(orchestrator.accepts(&finished("", "")));
    assert!(orchestrator.accepts(&Event::BuildNotStarted("gone".to_string())));
}

#[test]
fn an_empty_batch_starts_no_build() {
    let mut orchestrator = awaiting(false);
    assert!(matches!(step(&mut orchestrator, Event::Changes(Vec::new())), Action::Wait));
    assert_eq!(orchestrator.phase(), Phase::AwaitingEvent);
}

#[test]
fn a_failure_of_the_source_is_logged_and_the_run_goes_on() {
    let mut orchestrator = awaiting(false);
    match step(&mut orchestrator, Event::SourceFailed(strings(&["watch limit hit", "path removed"]))) {
        Action::Log(lines) => assert_eq!(lines, strings(&["watch limit hit", "path removed"])),
        other => panic!("expected log lines, got {:?}", other),
    }
    assert_eq!(orchestrator.phase(), Phase::AwaitingEvent);
    assert!(matches!(
        step(&mut orchestrator, Event::Changes(vec![event(&["/cwd/src/a.txt"])])),
        Action::Build(_)
    ));
}

#[test]
fn single_mode_cuts_the_body_of_the_frame() {
    let mut orchestrator = awaiting(true);
    step(&mut orchestrator, Event::Changes(vec![event(&["/cwd/src/a.txt"])]));
    let frame = frame_of(step(&mut orchestrator, finished("", "line A\n\n\nline B")));
    assert_eq!(frame.body, b"line A".to_vec());
}

#[test]
fn the_awaiting_phase_takes_messages_of_the_source_only() {
    let orchestrator = awaiting(false);
    assert!(orchestrator.accepts(&Event::Changes(Vec::new())));
    assert!(orchestrator.accepts(&Event::SourceFailed(Vec::new())));
    assert!(!orchestrator.accepts(&Event::WatchesRegistered));
    assert!(!orchestrator.accepts(&Event::WatchFailed("late".to_string())));
    assert!(!orchestrator.accepts(&finished("", "")));
    assert!(!orchestrator.accepts(&Event::BuildNotStarted("late".to_string())));
}

#[test]
fn an_event_out_of_turn_is_handed_back() {
    let (mut orchestrator, _) = Orchestrator::start(config(false));
    step(&mut orchestrator, Event::WatchesRegistered);
    match orchestrator.step(Event::Changes(vec![event(&["/cwd/src/a.txt"])])) {
        Err(Event::Changes(batch)) => {
            assert_eq!(batch.len(), 1);
            assert_eq!(batch[0].paths(), &strings(&["/cwd/src/a.txt"]));
        }
        other => panic!("expected the batch back, got {:?}", other),
    }
    assert_eq!(orchestrator.phase(), Phase::Building);
    let frame = frame_of(step(&mut orchestrator, finished("ok", "")));
    assert_eq!(frame.changed, None);
}

#[test]
fn nothing_is_taken_after_a_fatal_error() {
    let (mut orchestrator, _) = Orchestrator::start(config(false));
    step(&mut orchestrator, Event::WatchFailed("denied".to_string()));
    assert!(orchestrator.step(Event::WatchesRegistered).is_err());
    assert!(orchestrator.step(Event::Changes(Vec::new())).is_err());
    assert!(orchestrator.step(finished("", "")).is_err());
    assert_eq!(orchestrator.phase(), Phase::Failed);
}
