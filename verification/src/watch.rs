//! The watch engine: which raw notifications become change events, and which
//! directories get a subscription.
//!
//! The engine is a transition system. The caller owns the notification
//! subsystem, the allowed-set provider and the channel; it reports what they
//! did as an [`EngineEvent`] and performs the [`EngineAction`] it gets back.

use std::collections::HashMap;
use vstd::prelude::*;

use crate::set::WatchSet;
use crate::target::{EventKind, Target, Watch, WatcherEvent};

verus! {

broadcast use vstd::std_specs::hash::group_hash_axioms;

/// Where the engine stands in its protocol.
#[derive(Clone, Copy, Debug, PartialEq, Eq, Structural)]
pub enum EnginePhase {
    /// Waiting for the notification subsystem to come up.
    Initializing,
    /// Waiting for the first allowed set.
    Loading,
    /// Walking the root directory tree.
    Scanning,
    /// `Ready` is on its way to the receiver.
    Announcing,
    /// Waiting for a batch of raw notifications.
    Listening,
    /// A batch has arrived; waiting for the allowed set that goes with it.
    Refreshing,
    /// Going through the notifications of the batch.
    Sorting,
    /// `ChangeDetected` is on its way to the receiver.
    Reporting,
    /// The engine has ended; nothing more is sent.
    Stopped,
}

/// What the caller reports to the engine.
#[derive(Debug)]
pub enum EngineEvent {
    /// The notification subsystem is up.
    Initialized,
    /// The provider's answer.
    Allowed(WatchSet),
    /// The walk found a directory: its path as walked, and canonicalized.
    Directory { path: String, canonical: String },
    /// The walk is over.
    WalkFinished,
    /// A subscription was registered under `handle` for the directory `path`.
    Subscribed { handle: u64, path: String },
    /// The receiver took the message.
    Delivered,
    /// The receiver has disconnected.
    ReceiverGone,
    /// A batch of raw notifications is available.
    BatchRead,
    /// One raw notification of the batch: the subscription it came from, the
    /// entry's name if it has one, and the notification's mask bits.
    Notification { handle: u64, name: Option<String>, mask: u32 },
    /// The batch holds no more notifications.
    BatchFinished,
    /// Something outside failed; the text is the cause.
    Failed(String),
}

/// What the engine asks the caller to do next.
#[derive(Debug)]
pub enum EngineAction {
    /// Ask the provider for the allowed set and report `Allowed`.
    QueryAllowed,
    /// Walk the root directory tree; report each `Directory`, then `WalkFinished`.
    Walk,
    /// Register a subscription for the directory `path` and report `Subscribed`.
    /// A directory that was just `created` is canonicalized first and is not
    /// watched for moves.
    Subscribe { path: String, created: bool },
    /// Report the next `Directory` of the walk, or `WalkFinished`.
    NextDirectory,
    /// Report the next `Notification` of the batch, or `BatchFinished`.
    NextNotification,
    /// Send the message and report `Delivered` or `ReceiverGone`.
    Send(WatcherEvent),
    /// Block until a batch of raw notifications arrives and report `BatchRead`.
    ReadBatch,
    /// End quietly.
    Stop,
}

/// An [`EngineEvent`] as a mathematical value.
pub enum EventModel {
    Initialized,
    Allowed(Set<Target>),
    Directory { path: Seq<char>, canonical: Seq<char> },
    WalkFinished,
    Subscribed { handle: u64, path: Seq<char> },
    Delivered,
    ReceiverGone,
    BatchRead,
    Notification { handle: u64, name: Option<Seq<char>>, mask: u32 },
    BatchFinished,
    Failed(Seq<char>),
}

/// An [`EngineAction`] as a mathematical value.
pub enum ActionModel {
    QueryAllowed,
    Walk,
    Subscribe { path: Seq<char>, created: bool },
    NextDirectory,
    NextNotification,
    Send(EventKind),
    ReadBatch,
    Stop,
}

/// The engine's state as a mathematical value.
pub struct EngineModel {
    pub phase: EnginePhase,
    /// The allowed set before the most recent one.
    pub previous: Set<Target>,
    /// The most recent allowed set.
    pub current: Set<Target>,
    /// The directory that each subscription handle was registered for.
    pub subscriptions: Map<u64, Seq<char>>,
    /// Whether the batch at hand has shown a relevant change.
    pub changed: bool,
}

impl View for EngineEvent {
    type V = EventModel;

    open spec fn view(&self) -> EventModel {
        match self {
            EngineEvent::Initialized => EventModel::Initialized,
            EngineEvent::Allowed(set) => EventModel::Allowed(set@),
            EngineEvent::Directory { path, canonical } => EventModel::Directory {
                path: path@,
                canonical: canonical@,
            },
            EngineEvent::WalkFinished => EventModel::WalkFinished,
            EngineEvent::Subscribed { handle, path } => EventModel::Subscribed {
                handle: *handle,
                path: path@,
            },
            EngineEvent::Delivered => EventModel::Delivered,
            EngineEvent::ReceiverGone => EventModel::ReceiverGone,
            EngineEvent::BatchRead => EventModel::BatchRead,
            EngineEvent::Notification { handle, name, mask } => EventModel::Notification {
                handle: *handle,
                name: match name {
                    Some(n) => Some(n@),
                    None => None,
                },
                mask: *mask,
            },
            EngineEvent::BatchFinished => EventModel::BatchFinished,
            EngineEvent::Failed(cause) => EventModel::Failed(cause@),
        }
    }
}

impl View for EngineAction {
    type V = ActionModel;

    open spec fn view(&self) -> ActionModel {
        match self {
            EngineAction::QueryAllowed => ActionModel::QueryAllowed,
            EngineAction::Walk => ActionModel::Walk,
            EngineAction::Subscribe { path, created } => ActionModel::Subscribe {
                path: path@,
                created: *created,
            },
            EngineAction::NextDirectory => ActionModel::NextDirectory,
            EngineAction::NextNotification => ActionModel::NextNotification,
            EngineAction::Send(message) => ActionModel::Send(message@),
            EngineAction::ReadBatch => ActionModel::ReadBatch,
            EngineAction::Stop => ActionModel::Stop,
        }
    }
}

/// The path that `std::path::Path::join` gives for a directory and an entry's
/// name, both as text.
pub uninterp spec fn joined_path(directory: Seq<char>, name: Seq<char>) -> Seq<char>;

/// Whether a notification's mask says that a directory was created: both the
/// directory bit and the creation bit are set.
pub open spec fn is_directory_creation(mask: u32) -> bool {
    mask & 0x4000_0100u32 == 0x4000_0100u32
}

/// A change to the file at `path` counts if the file is in either of the two
/// most recent allowed sets.
pub open spec fn relevant(previous: Set<Target>, current: Set<Target>, path: Seq<char>) -> bool {
    previous.union(current).contains(Target::File(path))
}

/// The state once the engine has ended.
pub open spec fn halted(s: EngineModel) -> EngineModel {
    EngineModel { phase: EnginePhase::Stopped, ..s }
}

/// The state in another phase.
pub open spec fn moved(s: EngineModel, phase: EnginePhase) -> EngineModel {
    EngineModel { phase, ..s }
}

/// What one notification of a batch leads to.
pub open spec fn sorted(s: EngineModel, handle: u64, name: Option<Seq<char>>, mask: u32) -> (
    EngineModel,
    ActionModel,
) {
    if is_directory_creation(mask) {
        if s.subscriptions.contains_key(handle) && name is Some {
            (
                s,
                ActionModel::Subscribe {
                    path: joined_path(s.subscriptions[handle], name.unwrap()),
                    created: true,
                },
            )
        } else {
            (halted(s), ActionModel::Stop)
        }
    } else if name is None {
        (s, ActionModel::NextNotification)
    } else if s.subscriptions.contains_key(handle) {
        (
            EngineModel {
                changed: s.changed || relevant(
                    s.previous,
                    s.current,
                    joined_path(s.subscriptions[handle], name.unwrap()),
                ),
                ..s
            },
            ActionModel::NextNotification,
        )
    } else {
        (halted(s), ActionModel::Stop)
    }
}

/// One step of the engine, where an outside failure is an error: the next
/// state and the action, or the cause of the failure. An ended engine stays
/// ended. An event that the phase does not expect ends the engine quietly.
pub open spec fn advance(s: EngineModel, e: EventModel) -> Result<
    (EngineModel, ActionModel),
    Seq<char>,
> {
    if s.phase == EnginePhase::Stopped {
        Ok((s, ActionModel::Stop))
    } else {
        match e {
            EventModel::Failed(cause) => Err(cause),
            EventModel::Initialized => if s.phase == EnginePhase::Initializing {
                Ok((moved(s, EnginePhase::Loading), ActionModel::QueryAllowed))
            } else {
                Ok((halted(s), ActionModel::Stop))
            },
            EventModel::Allowed(set) => if s.phase == EnginePhase::Loading {
                Ok(
                    (
                        EngineModel {
                            phase: EnginePhase::Scanning,
                            previous: s.current,
                            current: set,
                            ..s
                        },
                        ActionModel::Walk,
                    ),
                )
            } else if s.phase == EnginePhase::Refreshing {
                Ok(
                    (
                        EngineModel {
                            phase: EnginePhase::Sorting,
                            previous: s.current,
                            current: set,
                            changed: false,
                            ..s
                        },
                        ActionModel::NextNotification,
                    ),
                )
            } else {
                Ok((halted(s), ActionModel::Stop))
            },
            EventModel::Directory { path, canonical } => if s.phase == EnginePhase::Scanning {
                if s.current.contains(Target::Directory(canonical)) {
                    Ok((s, ActionModel::Subscribe { path, created: false }))
                } else {
                    Ok((s, ActionModel::NextDirectory))
                }
            } else {
                Ok((halted(s), ActionModel::Stop))
            },
            EventModel::WalkFinished => if s.phase == EnginePhase::Scanning {
                Ok((moved(s, EnginePhase::Announcing), ActionModel::Send(EventKind::Ready)))
            } else {
                Ok((halted(s), ActionModel::Stop))
            },
            EventModel::Subscribed { handle, path } => if s.phase == EnginePhase::Scanning
                || s.phase == EnginePhase::Sorting {
                Ok(
                    (
                        EngineModel { subscriptions: s.subscriptions.insert(handle, path), ..s },
                        if s.phase == EnginePhase::Scanning {
                            ActionModel::NextDirectory
                        } else {
                            ActionModel::NextNotification
                        },
                    ),
                )
            } else {
                Ok((halted(s), ActionModel::Stop))
            },
            EventModel::Delivered => if s.phase == EnginePhase::Announcing || s.phase
                == EnginePhase::Reporting {
                Ok((moved(s, EnginePhase::Listening), ActionModel::ReadBatch))
            } else {
                Ok((halted(s), ActionModel::Stop))
            },
            EventModel::ReceiverGone => Ok((halted(s), ActionModel::Stop)),
            EventModel::BatchRead => if s.phase == EnginePhase::Listening {
                Ok((moved(s, EnginePhase::Refreshing), ActionModel::QueryAllowed))
            } else {
                Ok((halted(s), ActionModel::Stop))
            },
            EventModel::Notification { handle, name, mask } => if s.phase == EnginePhase::Sorting {
                Ok(sorted(s, handle, name, mask))
            } else {
                Ok((halted(s), ActionModel::Stop))
            },
            EventModel::BatchFinished => if s.phase == EnginePhase::Sorting {
                if s.changed {
                    Ok(
                        (
                            moved(s, EnginePhase::Reporting),
                            ActionModel::Send(EventKind::ChangeDetected),
                        ),
                    )
                } else {
                    Ok((moved(s, EnginePhase::Listening), ActionModel::ReadBatch))
                }
            } else {
                Ok((halted(s), ActionModel::Stop))
            },
        }
    }
}

/// One step of the engine: as [`advance`], but a failure ends the engine with
/// a single `Error` message that carries the cause.
pub open spec fn transition(s: EngineModel, e: EventModel) -> (EngineModel, ActionModel) {
    match advance(s, e) {
        Ok(next) => next,
        Err(cause) => (halted(s), ActionModel::Send(EventKind::Error(cause))),
    }
}

/// The state of a watch engine: its phase, the two most recent allowed sets,
/// and the directory behind each subscription handle.
pub struct WatchEngine {
    phase: EnginePhase,
    previous_allowed: WatchSet,
    current_allowed: WatchSet,
    subscriptions: HashMap<u64, String>,
    change_detected: bool,
}

impl View for WatchEngine {
    type V = EngineModel;

    closed spec fn view(&self) -> EngineModel {
        EngineModel {
            phase: self.phase,
            previous: self.previous_allowed@,
            current: self.current_allowed@,
            subscriptions: self.subscriptions@.map_values(|path: String| path@),
            changed: self.change_detected,
        }
    }
}

/// The engine's state before anything has happened.
pub open spec fn initial() -> EngineModel {
    EngineModel {
        phase: EnginePhase::Initializing,
        previous: Set::empty(),
        current: Set::empty(),
        subscriptions: Map::empty(),
        changed: false,
    }
}

/// Asks `std::path::Path::join` for the path of the entry `name` in
/// `directory`. The contract only gives the result its name: the same
/// directory and name give the same path.
#[verifier::external_body]
fn join_path(directory: &String, name: &String) -> (path: String)
    ensures
        path@ == joined_path(directory@, name@),
{
    std::path::Path::new(directory).join(name).to_string_lossy().into_owned()
}

/// Makes inotify's `EventMask` of the bits with `from_bits_truncate` and asks
/// its `contains` whether the mask holds both `ISDIR` and `CREATE`. The
/// contract states that test on the bits, with the two flags' values
/// (0x4000_0000 and 0x100); both are flags that the truncation keeps.
#[verifier::external_body]
fn announces_new_directory(mask: u32) -> (yes: bool)
    ensures
        yes == is_directory_creation(mask),
{
    inotify::EventMask::from_bits_truncate(mask).contains(
        inotify::EventMask::ISDIR | inotify::EventMask::CREATE,
    )
}

impl WatchEngine {
    /// An engine that waits for the notification subsystem to come up.
    pub fn new() -> (engine: Self)
        ensures
            engine@ == initial(),
    {
        let engine = WatchEngine {
            phase: EnginePhase::Initializing,
            previous_allowed: WatchSet::new(),
            current_allowed: WatchSet::new(),
            subscriptions: HashMap::new(),
            change_detected: false,
        };
        assert(engine@.subscriptions =~= Map::empty());
        engine
    }

    /// The phase the engine is in.
    pub fn phase(&self) -> (phase: EnginePhase)
        ensures
            phase == self@.phase,
    {
        self.phase
    }

    /// Whether a subscription is recorded under `handle`.
    pub fn knows(&self, handle: u64) -> (known: bool)
        ensures
            known == self@.subscriptions.contains_key(handle),
    {
        self.subscriptions.contains_key(&handle)
    }

    /// Whether a change to the file at `path` counts: the file is in the most
    /// recent allowed set or in the one before it.
    pub fn is_relevant(&self, path: String) -> (yes: bool)
        ensures
            yes == relevant(self@.previous, self@.current, path@),
    {
        let candidate = Watch::File(path);
        self.current_allowed.contains(&candidate) || self.previous_allowed.contains(&candidate)
    }

    /// Takes `set` as the most recent allowed set; the one it replaces becomes
    /// the previous one.
    fn refresh(&mut self, set: WatchSet)
        ensures
            final(self)@ == (EngineModel {
                previous: old(self)@.current,
                current: set@,
                ..old(self)@
            }),
    {
        let mut older = set;
        core::mem::swap(&mut self.current_allowed, &mut older);
        self.previous_allowed = older;
    }

    /// Records that `handle` stands for the directory `path`.
    fn record(&mut self, handle: u64, path: String)
        ensures
            final(self)@ == (EngineModel {
                subscriptions: old(self)@.subscriptions.insert(handle, path@),
                ..old(self)@
            }),
    {
        self.subscriptions.insert(handle, path);
        assert(self@.subscriptions =~= old(self)@.subscriptions.insert(handle, path@));
    }

    /// Ends the engine quietly.
    fn halt(&mut self) -> (action: EngineAction)
        ensures
            final(self)@ == halted(old(self)@),
            action@ == ActionModel::Stop,
    {
        self.phase = EnginePhase::Stopped;
        EngineAction::Stop
    }

    /// Handles one raw notification of a batch.
    fn sort(&mut self, handle: u64, name: Option<String>, mask: u32) -> (action: EngineAction)
        ensures
            (final(self)@, action@) == sorted(
                old(self)@,
                handle,
                match name {
                    Some(n) => Some(n@),
                    None => None,
                },
                mask,
            ),
    {
        if announces_new_directory(mask) {
            match (self.subscriptions.get(&handle), name) {
                (Some(directory), Some(entry)) => {
                    let path = join_path(directory, &entry);
                    EngineAction::Subscribe { path, created: true }
                },
                _ => self.halt(),
            }
        } else {
            match name {
                None => EngineAction::NextNotification,
                Some(entry) => {
                    match self.subscriptions.get(&handle) {
                        Some(directory) => {
                            let path = join_path(directory, &entry);
                            if self.is_relevant(path) {
                                self.change_detected = true;
                            }
                            EngineAction::NextNotification
                        },
                        None => self.halt(),
                    }
                },
            }
        }
    }
}

/// Advances the engine by one event. An outside failure comes back as the
/// error, with the engine ended; everything else gives the action to perform.
pub fn wrapped_watch(engine: &mut WatchEngine, event: EngineEvent) -> (result: Result<
    EngineAction,
    String,
>)
    ensures
        match result {
            Ok(action) => advance(old(engine)@, event@) == Ok::<
                (EngineModel, ActionModel),
                Seq<char>,
            >((final(engine)@, action@)),
            Err(cause) => advance(old(engine)@, event@) == Err::<
                (EngineModel, ActionModel),
                Seq<char>,
            >(cause@) && final(engine)@ == halted(old(engine)@),
        },
{
    let phase = engine.phase;
    if phase == EnginePhase::Stopped {
        return Ok(EngineAction::Stop);
    }
    match event {
        EngineEvent::Failed(cause) => {
            engine.phase = EnginePhase::Stopped;
            Err(cause)
        },
        EngineEvent::Initialized => {
            if phase == EnginePhase::Initializing {
                engine.phase = EnginePhase::Loading;
                Ok(EngineAction::QueryAllowed)
            } else {
                Ok(engine.halt())
            }
        },
        EngineEvent::Allowed(set) => {
            if phase == EnginePhase::Loading {
                engine.refresh(set);
                engine.phase = EnginePhase::Scanning;
                Ok(EngineAction::Walk)
            } else if phase == EnginePhase::Refreshing {
                engine.refresh(set);
                engine.phase = EnginePhase::Sorting;
                engine.change_detected = false;
                Ok(EngineAction::NextNotification)
            } else {
                Ok(engine.halt())
            }
        },
        EngineEvent::Directory { path, canonical } => {
            if phase == EnginePhase::Scanning {
                let candidate = Watch::Directory(canonical);
                if engine.current_allowed.contains(&candidate) {
                    Ok(EngineAction::Subscribe { path, created: false })
                } else {
                    Ok(EngineAction::NextDirectory)
                }
            } else {
                Ok(engine.halt())
            }
        },
        EngineEvent::WalkFinished => {
            if phase == EnginePhase::Scanning {
                engine.phase = EnginePhase::Announcing;
                Ok(EngineAction::Send(WatcherEvent::Ready))
            } else {
                Ok(engine.halt())
            }
        },
        EngineEvent::Subscribed { handle, path } => {
            if phase == EnginePhase::Scanning || phase == EnginePhase::Sorting {
                engine.record(handle, path);
                if phase == EnginePhase::Scanning {
                    Ok(EngineAction::NextDirectory)
                } else {
                    Ok(EngineAction::NextNotification)
                }
            } else {
                Ok(engine.halt())
            }
        },
        EngineEvent::Delivered => {
            if phase == EnginePhase::Announcing || phase == EnginePhase::Reporting {
                engine.phase = EnginePhase::Listening;
                Ok(EngineAction::ReadBatch)
            } else {
                Ok(engine.halt())
            }
        },
        EngineEvent::ReceiverGone => Ok(engine.halt()),
        EngineEvent::BatchRead => {
            if phase == EnginePhase::Listening {
                engine.phase = EnginePhase::Refreshing;
                Ok(EngineAction::QueryAllowed)
            } else {
                Ok(engine.halt())
            }
        },
        EngineEvent::Notification { handle, name, mask } => {
            if phase == EnginePhase::Sorting {
                Ok(engine.sort(handle, name, mask))
            } else {
                Ok(engine.halt())
            }
        },
        EngineEvent::BatchFinished => {
            if phase == EnginePhase::Sorting {
                if engine.change_detected {
                    engine.phase = EnginePhase::Reporting;
                    Ok(EngineAction::Send(WatcherEvent::ChangeDetected))
                } else {
                    engine.phase = EnginePhase::Listening;
                    Ok(EngineAction::ReadBatch)
                }
            } else {
                Ok(engine.halt())
            }
        },
    }
}

/// Advances the engine by one event. An outside failure ends the engine and
/// asks for a single `Error` message with the cause to be sent.
pub fn watch(engine: &mut WatchEngine, event: EngineEvent) -> (action: EngineAction)
    ensures
        (final(engine)@, action@) == transition(old(engine)@, event@),
{
    match wrapped_watch(engine, event) {
        Ok(action) => action,
        Err(cause) => EngineAction::Send(WatcherEvent::Error(cause)),
    }
}

} // verus!
