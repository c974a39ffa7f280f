//! Watch targets and the events that the watch engine reports.

use vstd::prelude::*;
use vstd::std_specs::cmp::PartialEqSpecImpl;

verus! {

/// The identity of a watch target: its kind and its absolute path.
pub enum Target {
    File(Seq<char>),
    Directory(Seq<char>),
}

/// A file or a directory that may be watched, named by its absolute path.
#[derive(Debug, Hash)]
pub enum Watch {
    File(String),
    Directory(String),
}

impl View for Watch {
    type V = Target;

    open spec fn view(&self) -> Target {
        match self {
            Watch::File(path) => Target::File(path@),
            Watch::Directory(path) => Target::Directory(path@),
        }
    }
}

impl Clone for Watch {
    fn clone(&self) -> (copy: Self)
        ensures
            copy@ == self@,
    {
        match self {
            Watch::File(path) => Watch::File(path.clone()),
            Watch::Directory(path) => Watch::Directory(path.clone()),
        }
    }
}

impl PartialEq for Watch {
    /// Two targets are equal when they have the same kind and the same path.
    fn eq(&self, other: &Self) -> (same: bool) {
        match (self, other) {
            (Watch::File(a), Watch::File(b)) => *a == *b,
            (Watch::Directory(a), Watch::Directory(b)) => *a == *b,
            _ => false,
        }
    }
}

impl Eq for Watch {}

impl PartialEqSpecImpl for Watch {
    open spec fn obeys_eq_spec() -> bool {
        true
    }

    open spec fn eq_spec(&self, other: &Self) -> bool {
        self@ == other@
    }
}

impl Watch {
    /// The path of the target, whatever its kind.
    pub open spec fn spec_path(&self) -> Seq<char> {
        match self {
            Watch::File(path) => path@,
            Watch::Directory(path) => path@,
        }
    }

    /// The path of the target, whatever its kind.
    pub fn path(&self) -> (path: &String)
        ensures
            path@ == self.spec_path(),
    {
        match self {
            Watch::File(path) => path,
            Watch::Directory(path) => path,
        }
    }

    /// Whether the target is a directory.
    pub fn is_directory(&self) -> (yes: bool)
        ensures
            yes == (self@ is Directory),
    {
        match self {
            Watch::File(_) => false,
            Watch::Directory(_) => true,
        }
    }
}

/// What the watch engine tells the supervisor.
#[derive(Debug)]
pub enum WatcherEvent {
    /// The initial subscriptions are in place.
    Ready,
    /// At least one relevant change was seen since the last message.
    ChangeDetected,
    /// The engine failed and has stopped; the text is the cause.
    Error(String),
}

/// What an event is, with its cause as a sequence of characters.
pub enum EventKind {
    Ready,
    ChangeDetected,
    Error(Seq<char>),
}

impl View for WatcherEvent {
    type V = EventKind;

    open spec fn view(&self) -> EventKind {
        match self {
            WatcherEvent::Ready => EventKind::Ready,
            WatcherEvent::ChangeDetected => EventKind::ChangeDetected,
            WatcherEvent::Error(cause) => EventKind::Error(cause@),
        }
    }
}

} // verus!
