//! The navigation state machine: messages drive it, it schedules directory
//! and file reads, applies their results, and emits an event when a file
//! finishes loading. Every failed read degrades to a no-op that keeps the
//! previous good state.

use vstd::prelude::*;
use crate::entry::Entry;
use crate::lister::PathKind;

verus! {

/// An input to the state machine: a user request, a timer tick, or the
/// completion of an asynchronous read. An absent completion payload means
/// the read failed and is to be ignored.
#[derive(Debug, Clone, PartialEq, Eq)]
pub enum Message {
    ChangeDirectory(String),
    DirectoryRead(Option<(String, Vec<Entry>)>),
    ReadFile(String),
    FileRead(Option<(String, String)>),
    RefreshDirectory,
}

/// An output signal to the owning application, distinct from an input
/// message: a file finished loading and its text is ready to display.
#[derive(Debug, Clone, PartialEq, Eq)]
pub enum Event {
    FileRead(String, String),
}

/// An asynchronous read for the surrounding application to run off the
/// interaction thread; its result comes back as a `DirectoryRead` or
/// `FileRead` message.
#[derive(Debug, Clone, PartialEq, Eq)]
pub enum Task {
    ReadDirectory(String),
    ReadFile(String),
}

/// A per-entry interactive handle: UI-only bookkeeping kept parallel to the
/// entries of a loaded listing, one slot per entry.
#[derive(Debug, Clone, PartialEq, Eq)]
pub struct WidgetSlot {}

/// The browsing state: either the initial directory read is in flight, or
/// the last successful read of `directory` is on display.
#[derive(Debug, Clone, PartialEq, Eq)]
pub enum State {
    Loading(String),
    Loaded { directory: String, entries: Vec<Entry>, selection_widgets: Vec<WidgetSlot> },
}

impl State {
    /// Well-formedness: a loaded listing keeps one widget slot per entry.
    pub open spec fn wf(self) -> bool {
        match self {
            State::Loading(_) => true,
            State::Loaded { entries, selection_widgets, .. } => selection_widgets@.len()
                == entries@.len(),
        }
    }

    /// Applies one message. Returns the read to schedule, if any, and the
    /// event to hand to the owning application, if any.
    ///
    /// `path_kind` is what the filesystem says, at delivery time, about the
    /// path the message carries; it only matters for `ChangeDirectory` and
    /// `ReadFile`, whose guards it decides.
    pub fn update(&mut self, message: Message, path_kind: PathKind) -> (r: (
        Option<Task>,
        Option<Event>,
    ))
        ensures
            old(self).wf() ==> final(self).wf(),
            message matches Message::ChangeDirectory(p) ==> {
                &&& *final(self) == *old(self)
                &&& r.1 is None
                &&& (path_kind is Directory ==> r.0 == Some(Task::ReadDirectory(p)))
                &&& (!(path_kind is Directory) ==> r.0 is None)
            },
            message matches Message::DirectoryRead(result) ==> {
                &&& r.0 is None
                &&& r.1 is None
                &&& (match result {
                    Some((d, e)) => {
                        &&& *final(self) matches State::Loaded {
                            directory,
                            entries,
                            selection_widgets,
                        }
                        &&& directory == d
                        &&& entries == e
                        &&& selection_widgets@.len() == e@.len()
                    },
                    None => *final(self) == *old(self),
                })
            },
            message matches Message::ReadFile(p) ==> {
                &&& *final(self) == *old(self)
                &&& r.1 is None
                &&& (path_kind is File ==> r.0 == Some(Task::ReadFile(p)))
                &&& (!(path_kind is File) ==> r.0 is None)
            },
            message matches Message::FileRead(result) ==> {
                &&& *final(self) == *old(self)
                &&& r.0 is None
                &&& (match result {
                    Some((p, c)) => r.1 == Some(Event::FileRead(p, c)),
                    None => r.1 is None,
                })
            },
            message is RefreshDirectory ==> {
                &&& *final(self) == *old(self)
                &&& r.1 is None
                &&& (match *old(self) {
                    State::Loaded { .. } => r.0 matches Some(t) && t matches Task::ReadDirectory(q)
                        && q@ == old(self)->Loaded_directory@,
                    State::Loading(_) => r.0 is None,
                })
            },
    {
        match message {
            Message::ChangeDirectory(path) => {
                match path_kind {
                    PathKind::Directory => (Some(Task::ReadDirectory(path)), None),
                    _ => (None, None),
                }
            },
            Message::DirectoryRead(result) => {
                match result {
                    Some((directory, entries)) => {
                        let n = entries.len();
                        let mut selection_widgets: Vec<WidgetSlot> = Vec::new();
                        while selection_widgets.len() < n
                            invariant
                                selection_widgets@.len() <= n,
                            decreases n - selection_widgets@.len(),
                        {
                            selection_widgets.push(WidgetSlot {});
                        }
                        *self = State::Loaded { directory, entries, selection_widgets };
                        (None, None)
                    },
                    None => (None, None),
                }
            },
            Message::ReadFile(path) => {
                match path_kind {
                    PathKind::File => (Some(Task::ReadFile(path)), None),
                    _ => (None, None),
                }
            },
            Message::FileRead(result) => {
                match result {
                    Some((path, content)) => (None, Some(Event::FileRead(path, content))),
                    None => (None, None),
                }
            },
            Message::RefreshDirectory => {
                match &*self {
                    State::Loaded { directory, .. } => {
                        let target = directory.clone();
                        (Some(Task::ReadDirectory(target)), None)
                    },
                    State::Loading(_) => (None, None),
                }
            },
        }
    }
}

} // verus!
