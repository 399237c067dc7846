use elm_watch::change::{aggregate, ChangeSet, RawEvent};
use elm_watch::config::Config;
use elm_watch::frame::{render, DisplayFrame, TerminalCommand};
use elm_watch::output::BuildResult;

fn strings(items: &[&str]) -> Vec<String> {
    items.iter().map(|s| s.to_string()).collect()
}

fn config(paths: &[&str], single: bool) -> Config {
    Config::new("src/Main.elm".to_string(), strings(paths), single, Some("/cwd".to_string()))
        .expect("a configuration")
}

fn changes(paths: &[&str]) -> Option<ChangeSet> {
    let batch = vec![RawEvent::new(strings(paths)).expect("an event names a path")];
    aggregate("/cwd", &batch)
}

fn result(stdout: &str, stderr: &str) -> BuildResult {
    BuildResult { stdout: stdout.as_bytes().to_vec(), stderr: stderr.as_bytes().to_vec() }
}

fn written(commands: &[TerminalCommand]) -> Vec<u8> {
    let mut all = Vec::new();
    for command in commands {
        if let TerminalCommand::Write(bytes) = command {
            all.extend_from_slice(bytes);
        }
    }
    all
}

#[test]
fn the_first_frame_has_no_line_of_changes() {
    let frame = render(&config(&["src"], false), &None, &result("Success!\n", ""));
    let expected = DisplayFrame {
        header: "Main: src/Main.elm. Path(s): src\n".to_string(),
        changed: None,
        body: b"Success!\n".to_vec(),
    };
    assert_eq!(frame, expected);
}

#[test]
fn the_header_lists_every_watched_path() {
    let frame = render(&config(&["src", "tests", "vendor/lib"], false), &None, &result("", ""));
    assert_eq!(frame.header, "Main: src/Main.elm. Path(s): src, tests, vendor/lib\n");
}

#[test]
fn a_change_set_is_listed_in_its_own_line() {
    let frame = render(
        &config(&["src"], false),
        &changes(&["/cwd/src/b.txt", "/cwd/src/a.txt", "/cwd/src/b.txt"]),
        &result("ok", ""),
    );
    assert_eq!(frame.changed, Some("Changed: src/a.txt, src/b.txt\n".to_string()));
    assert_eq!(frame.body, b"ok".to_vec());
}

#[test]
fn the_body_is_the_error_stream_when_both_streams_hold_text() {
    let frame = render(&config(&["src"], false), &None, &result("Compiling...", "-- ERROR --"));
    assert_eq!(frame.body, b"-- ERROR --".to_vec());
}

#[test]
fn single_mode_shows_the_first_block_only() {
    let built = result("", "line A\n\n\nline B");
    assert_eq!(render(&config(&["src"], true), &None, &built).body, b"line A".to_vec());
    assert_eq!(
        render(&config(&["src"], false), &None, &built).body,
        b"line A\n\n\nline B".to_vec()
    );
}

#[test]
fn a_frame_is_drawn_by_clearing_then_writing_then_flushing() {
    let frame = DisplayFrame {
        header: "Main: m. Path(s): p\n".to_string(),
        changed: None,
        body: b"body".to_vec(),
    };
    assert_eq!(
        frame.commands(),
        vec![
            TerminalCommand::ClearAll,
            TerminalCommand::MoveTo { column: 0, row: 0 },
            TerminalCommand::Write(b"Main: m. Path(s): p\n".to_vec()),
            TerminalCommand::Write(b"body".to_vec()),
            TerminalCommand::Flush,
        ]
    );
}

#[test]
fn the_line_of_changes_is_written_between_header_and_body() {
    let frame = DisplayFrame {
        header: "Main: m. Path(s): p\n".to_string(),
        changed: Some("Changed: a\n".to_string()),
        body: Vec::new(),
    };
    assert_eq!(
        frame.commands(),
        vec![
            TerminalCommand::ClearAll,
            TerminalCommand::MoveTo { column: 0, row: 0 },
            TerminalCommand::Write(b"Main: m. Path(s): p\n".to_vec()),
            TerminalCommand::Write(b"Changed: a\n".to_vec()),
            TerminalCommand::Write(Vec::new()),
            TerminalCommand::Flush,
        ]
    );
}

#[test]
fn text_is_the_body_byte_for_byte() {
    let text = "-- NAMING ERROR -- src/Main.elm\n\n    λ → «x»\n";
    let frame = render(&config(&["src"], false), &None, &result("", text));
    assert_eq!(frame.body, text.as_bytes().to_vec());
}

#[test]
fn bytes_that_are_no_text_are_written_as_they_are() {
    let config = Config::new("M.elm".to_string(), strings(&["src"]), false, Some("/cwd".to_string()))
        .expect("a configuration");
    let built = BuildResult { stdout: vec![0x66, 0x6f, 0xff, 0x6f], stderr: Vec::new() };
    let frame = render(&config, &None, &built);
    assert_eq!(frame.body, vec![0x66, 0x6f, 0xff, 0x6f]);
    let mut expected = b"Main: M.elm. Path(s): src\n".to_vec();
    expected.extend_from_slice(&[0x66, 0x6f, 0xff, 0x6f]);
    assert_eq!(written(&frame.commands()), expected);
}

#[test]
fn the_lines_of_a_frame_are_written_in_utf8() {
    let frame = DisplayFrame {
        header: "Main: é. Path(s): 日\n".to_string(),
        changed: Some("Changed: →\n".to_string()),
        body: vec![0xff],
    };
    let mut expected = "Main: é. Path(s): 日\nChanged: →\n".as_bytes().to_vec();
    expected.push(0xff);
    assert_eq!(written(&frame.commands()), expected);
}
