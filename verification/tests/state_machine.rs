use nav_tree::entry::Entry;
use nav_tree::lister::{read_directory, read_file, Child, PathKind};
use nav_tree::state::{Event, Message, State, Task, WidgetSlot};

fn file(path: &str, name: &str) -> Entry {
    Entry::File { path: path.to_string(), name: name.to_string() }
}

fn dir(path: &str, name: &str) -> Entry {
    Entry::Directory { path: path.to_string(), name: name.to_string() }
}

fn loaded(directory: &str, entries: Vec<Entry>) -> State {
    let selection_widgets = vec![WidgetSlot {}; entries.len()];
    State::Loaded { directory: directory.to_string(), entries, selection_widgets }
}

/// The parent of a path, as the presentation layer would compute it.
fn parent(path: &str) -> &str {
    &path[..path.rfind('/').unwrap()]
}

#[test]
fn failed_directory_read_is_a_no_op() {
    let mut s = State::Loading("/tmp/proj".to_string());
    let before = s.clone();
    let (task, event) = s.update(Message::DirectoryRead(None), PathKind::Other);
    assert_eq!(s, before);
    assert_eq!(task, None);
    assert_eq!(event, None);

    let mut s = loaded("/tmp/proj", vec![dir("/tmp/proj/src", "src")]);
    let before = s.clone();
    let (task, event) = s.update(Message::DirectoryRead(None), PathKind::Other);
    assert_eq!(s, before);
    assert_eq!(task, None);
    assert_eq!(event, None);
}

#[test]
fn successful_directory_read_overwrites_any_state() {
    let entries = vec![dir("/d/a", "a"), file("/d/b", "b")];
    let mut s = loaded("/elsewhere", vec![file("/elsewhere/x", "x")]);
    let (task, event) = s.update(
        Message::DirectoryRead(Some(("/d".to_string(), entries.clone()))),
        PathKind::Other,
    );
    assert_eq!(task, None);
    assert_eq!(event, None);
    match s {
        State::Loaded { directory, entries: got, selection_widgets } => {
            assert_eq!(directory, "/d");
            assert_eq!(got, entries);
            assert_eq!(selection_widgets.len(), got.len());
        }
        State::Loading(_) => panic!("state should be loaded"),
    }
}

#[test]
fn change_directory_to_non_directory_is_a_no_op() {
    let mut s = loaded("/tmp/proj", vec![file("/tmp/proj/a", "a")]);
    let before = s.clone();
    let (task, event) = s.update(
        Message::ChangeDirectory("/tmp/proj/a".to_string()),
        PathKind::File,
    );
    assert_eq!(s, before);
    assert_eq!(task, None);
    assert_eq!(event, None);

    let (task, event) = s.update(
        Message::ChangeDirectory("/vanished".to_string()),
        PathKind::Other,
    );
    assert_eq!(s, before);
    assert_eq!(task, None);
    assert_eq!(event, None);
}

#[test]
fn change_directory_schedules_a_read_and_keeps_state() {
    let mut s = loaded("/tmp/proj", vec![dir("/tmp/proj/src", "src")]);
    let before = s.clone();
    let (task, event) = s.update(
        Message::ChangeDirectory("/tmp/proj/src".to_string()),
        PathKind::Directory,
    );
    assert_eq!(s, before);
    assert_eq!(task, Some(Task::ReadDirectory("/tmp/proj/src".to_string())));
    assert_eq!(event, None);
}

#[test]
fn read_file_on_non_file_is_a_no_op() {
    let mut s = State::Loading("/tmp/proj".to_string());
    let before = s.clone();
    let (task, event) = s.update(
        Message::ReadFile("/tmp/proj".to_string()),
        PathKind::Directory,
    );
    assert_eq!(s, before);
    assert_eq!(task, None);
    assert_eq!(event, None);
}

#[test]
fn read_file_schedules_a_load() {
    let mut s = State::Loading("/tmp/proj".to_string());
    let before = s.clone();
    let (task, event) = s.update(
        Message::ReadFile("/tmp/proj/readme.txt".to_string()),
        PathKind::File,
    );
    assert_eq!(s, before);
    assert_eq!(task, Some(Task::ReadFile("/tmp/proj/readme.txt".to_string())));
    assert_eq!(event, None);
}

#[test]
fn file_read_emits_one_event_and_no_transition() {
    let mut s = loaded("/tmp/proj", vec![file("/tmp/proj/hello.txt", "hello.txt")]);
    let before = s.clone();
    let (task, event) = s.update(
        Message::FileRead(Some(("/tmp/proj/hello.txt".to_string(), "hello".to_string()))),
        PathKind::Other,
    );
    assert_eq!(s, before);
    assert_eq!(task, None);
    assert_eq!(
        event,
        Some(Event::FileRead("/tmp/proj/hello.txt".to_string(), "hello".to_string()))
    );
}

#[test]
fn failed_file_read_is_silent() {
    let mut s = State::Loading("/tmp/proj".to_string());
    let before = s.clone();
    let (task, event) = s.update(Message::FileRead(None), PathKind::Other);
    assert_eq!(s, before);
    assert_eq!(task, None);
    assert_eq!(event, None);
}

#[test]
fn refresh_re_reads_the_loaded_directory() {
    let mut s = loaded("/tmp/proj", vec![dir("/tmp/proj/src", "src")]);
    let before = s.clone();
    let (task, event) = s.update(Message::RefreshDirectory, PathKind::Other);
    assert_eq!(s, before);
    assert_eq!(task, Some(Task::ReadDirectory("/tmp/proj".to_string())));
    assert_eq!(event, None);

    let mut s = State::Loading("/tmp/proj".to_string());
    let before = s.clone();
    let (task, event) = s.update(Message::RefreshDirectory, PathKind::Other);
    assert_eq!(s, before);
    assert_eq!(task, None);
    assert_eq!(event, None);
}

#[test]
fn startup_listing_becomes_loaded_in_order() {
    let mut s = State::Loading("/tmp/proj".to_string());
    let listed = read_directory(
        "/tmp/proj".to_string(),
        Some(vec![
            Child {
                path: "/tmp/proj/src".to_string(),
                name: "src".to_string(),
                kind: PathKind::Directory,
            },
            Child {
                path: "/tmp/proj/readme.txt".to_string(),
                name: "readme.txt".to_string(),
                kind: PathKind::File,
            },
        ]),
    );
    assert_eq!(
        listed,
        Some((
            "/tmp/proj".to_string(),
            vec![dir("/tmp/proj/src", "src"), file("/tmp/proj/readme.txt", "readme.txt")],
        ))
    );
    let (task, event) = s.update(Message::DirectoryRead(listed), PathKind::Other);
    assert_eq!(task, None);
    assert_eq!(event, None);
    match s {
        State::Loaded { directory, entries, .. } => {
            assert_eq!(directory, "/tmp/proj");
            assert_eq!(
                entries,
                vec![dir("/tmp/proj/src", "src"), file("/tmp/proj/readme.txt", "readme.txt")]
            );
        }
        State::Loading(_) => panic!("state should be loaded"),
    }
}

#[test]
fn selected_file_is_eventually_emitted() {
    let mut s = loaded(
        "/tmp/proj",
        vec![dir("/tmp/proj/src", "src"), file("/tmp/proj/readme.txt", "readme.txt")],
    );
    let (task, event) = s.update(
        Message::ReadFile("/tmp/proj/readme.txt".to_string()),
        PathKind::File,
    );
    assert_eq!(event, None);
    let path = match task {
        Some(Task::ReadFile(path)) => path,
        other => panic!("expected a file read task, got {:?}", other),
    };
    let result = read_file(path, Some("hi".to_string()));
    let (task, event) = s.update(Message::FileRead(result), PathKind::Other);
    assert_eq!(task, None);
    assert_eq!(
        event,
        Some(Event::FileRead("/tmp/proj/readme.txt".to_string(), "hi".to_string()))
    );
}

#[test]
fn descending_then_ascending_returns_to_the_parent_listing() {
    let proj_children = vec![
        Child {
            path: "/tmp/proj/src".to_string(),
            name: "src".to_string(),
            kind: PathKind::Directory,
        },
        Child {
            path: "/tmp/proj/readme.txt".to_string(),
            name: "readme.txt".to_string(),
            kind: PathKind::File,
        },
    ];
    let mut s = loaded(
        "/tmp/proj",
        vec![dir("/tmp/proj/src", "src"), file("/tmp/proj/readme.txt", "readme.txt")],
    );

    // Descend.
    let (task, _) = s.update(
        Message::ChangeDirectory("/tmp/proj/src".to_string()),
        PathKind::Directory,
    );
    let target = match task {
        Some(Task::ReadDirectory(target)) => target,
        other => panic!("expected a directory read task, got {:?}", other),
    };
    let listed = read_directory(
        target,
        Some(vec![Child {
            path: "/tmp/proj/src/lib.rs".to_string(),
            name: "lib.rs".to_string(),
            kind: PathKind::File,
        }]),
    );
    s.update(Message::DirectoryRead(listed), PathKind::Other);
    let current = match &s {
        State::Loaded { directory, .. } => directory.clone(),
        State::Loading(_) => panic!("state should be loaded"),
    };
    assert_eq!(current, "/tmp/proj/src");

    // Ascend to the parent, as the up affordance would.
    let (task, _) = s.update(
        Message::ChangeDirectory(parent(&current).to_string()),
        PathKind::Directory,
    );
    let target = match task {
        Some(Task::ReadDirectory(target)) => target,
        other => panic!("expected a directory read task, got {:?}", other),
    };
    assert_eq!(target, "/tmp/proj");
    let listed = read_directory(target, Some(proj_children));
    s.update(Message::DirectoryRead(listed), PathKind::Other);
    match s {
        State::Loaded { directory, entries, .. } => {
            assert_eq!(directory, "/tmp/proj");
            assert_eq!(
                entries,
                vec![dir("/tmp/proj/src", "src"), file("/tmp/proj/readme.txt", "readme.txt")]
            );
        }
        State::Loading(_) => panic!("state should be loaded"),
    }
}
