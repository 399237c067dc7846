use elm_watch::change::{aggregate, RawEvent, DEBOUNCE_WINDOW_MS, LIST_SEPARATOR};

fn strings(items: &[&str]) -> Vec<String> {
    items.iter().map(|s| s.to_string()).collect()
}

fn event(paths: &[&str]) -> RawEvent {
    RawEvent::new(strings(paths)).expect("an event names a path")
}

#[test]
fn an_event_without_a_path_cannot_be_made() {
    assert!(RawEvent::new(Vec::new()).is_none());
}

#[test]
fn an_event_keeps_its_paths() {
    let made = event(&["/cwd/b", "/cwd/a"]);
    assert_eq!(made.paths(), &strings(&["/cwd/b", "/cwd/a"]));
}

#[test]
fn an_empty_batch_has_no_change_set() {
    assert!(aggregate("/cwd", &Vec::new()).is_none());
}

#[test]
fn duplicate_paths_are_listed_once() {
    let batch = vec![
        event(&["/cwd/src/a.txt"]),
        event(&["/cwd/src/a.txt"]),
        event(&["/cwd/src/b.txt"]),
    ];
    let set = aggregate("/cwd", &batch).expect("a batch with events has a change set");
    assert_eq!(set.paths(), &strings(&["src/a.txt", "src/b.txt"]));
}

#[test]
fn a_single_change_yields_one_set_with_one_path() {
    let batch = vec![event(&["/cwd/src/Main.elm"])];
    let set = aggregate("/cwd", &batch).expect("one change yields a change set");
    assert_eq!(set.paths(), &strings(&["src/Main.elm"]));
}

#[test]
fn many_events_of_one_batch_yield_one_set() {
    let batch: Vec<RawEvent> = (0..40)
        .map(|i| event(&[format!("/cwd/src/File{}.elm", i % 4).as_str()]))
        .collect();
    let set = aggregate("/cwd", &batch).expect("a batch with events has a change set");
    assert_eq!(
        set.paths(),
        &strings(&["src/File0.elm", "src/File1.elm", "src/File2.elm", "src/File3.elm"])
    );
}

#[test]
fn the_paths_of_a_set_are_ascending() {
    let batch = vec![
        event(&["/cwd/z.elm", "/cwd/m.elm"]),
        event(&["/cwd/a.elm"]),
        event(&["/cwd/src/b.elm", "/cwd/B.elm"]),
    ];
    let set = aggregate("/cwd", &batch).expect("a batch with events has a change set");
    assert_eq!(set.paths(), &strings(&["B.elm", "a.elm", "m.elm", "src/b.elm", "z.elm"]));
}

#[test]
fn the_order_of_events_does_not_matter() {
    let forward = vec![event(&["/cwd/a"]), event(&["/cwd/b"]), event(&["/cwd/c"])];
    let backward = vec![event(&["/cwd/c", "/cwd/b"]), event(&["/cwd/a", "/cwd/c"])];
    let first = aggregate("/cwd", &forward).expect("a change set");
    let second = aggregate("/cwd", &backward).expect("a change set");
    assert_eq!(first.paths(), second.paths());
}

#[test]
fn paths_outside_the_working_directory_are_kept_whole() {
    let batch = vec![event(&["/elsewhere/lib.elm", "/cwd/src/a.elm"])];
    let set = aggregate("/cwd", &batch).expect("a change set");
    assert_eq!(set.paths(), &strings(&["/elsewhere/lib.elm", "src/a.elm"]));
}

#[test]
fn paths_that_are_displayed_alike_are_listed_once() {
    let batch = vec![event(&["/cwd/src/a.elm", "src/a.elm"])];
    let set = aggregate("/cwd", &batch).expect("a change set");
    assert_eq!(set.paths(), &strings(&["src/a.elm"]));
}

#[test]
fn the_summary_joins_the_paths() {
    let batch = vec![event(&["/cwd/src/b.txt"]), event(&["/cwd/src/a.txt"])];
    let set = aggregate("/cwd", &batch).expect("a change set");
    assert_eq!(set.summary(), "src/a.txt, src/b.txt");
}

#[test]
fn the_constants_are_as_documented() {
    assert_eq!(LIST_SEPARATOR, ", ");
    assert_eq!(DEBOUNCE_WINDOW_MS, 50);
}
