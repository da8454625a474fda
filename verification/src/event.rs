//! The event watcher's share of the work: raw notifications become events of
//! a small vocabulary.

use vstd::prelude::*;
use crate::tracker::Intent;

verus! {

/// What happened to a file.
#[derive(Clone, Copy, Debug, PartialEq, Eq, Structural)]
pub enum EventKind {
    Opened,
    Modified,
    Created,
    Closed,
}

/// One event on one path. Events on one path are handled in the order in
/// which they arrive.
#[derive(Debug, PartialEq, Eq)]
pub struct Event {
    pub kind: EventKind,
    pub path: String,
    pub timestamp: u64,
}

/// An `Event` as plain values.
pub struct EventView {
    pub kind: EventKind,
    pub path: Seq<char>,
    pub timestamp: u64,
}

impl View for Event {
    type V = EventView;

    open spec fn view(&self) -> EventView {
        EventView { kind: self.kind, path: self.path@, timestamp: self.timestamp }
    }
}

/// The kinds of raw notification that a file system watch delivers.
#[derive(Clone, Copy, Debug, PartialEq, Eq, Structural)]
pub enum RawKind {
    /// Something happened, the watch cannot say what.
    Any,
    /// The file was accessed, the watch cannot say how.
    AccessAny,
    /// The file was read.
    AccessRead,
    /// The file was opened.
    AccessOpen,
    /// The file was closed.
    AccessClose,
    /// The file was accessed in another way.
    AccessOther,
    /// The file was created.
    Create,
    /// The file changed, the watch cannot say how.
    ModifyAny,
    /// The file's content changed.
    ModifyData,
    /// Permissions, ownership or times changed.
    ModifyMetadata,
    /// The file was renamed.
    ModifyName,
    /// The file changed in another way.
    ModifyOther,
    /// The file was removed.
    Remove,
    /// A notification about the watch itself.
    Other,
}

/// One raw notification: a kind, and every path it concerns.
#[derive(Debug, PartialEq, Eq)]
pub struct RawNotification {
    pub kind: RawKind,
    pub paths: Vec<String>,
    pub timestamp: u64,
}

/// The event kind that a raw kind stands for. Opening, closing, creating and
/// changing are events; a change counts unless it is known to be a rename
/// or a change of metadata. Everything else is ignored: renames, removals,
/// changes of metadata, reads.
pub open spec fn normal_kind(raw: RawKind) -> Option<EventKind> {
    match raw {
        RawKind::AccessOpen => Some(EventKind::Opened),
        RawKind::AccessClose => Some(EventKind::Closed),
        RawKind::Create => Some(EventKind::Created),
        RawKind::ModifyAny => Some(EventKind::Modified),
        RawKind::ModifyData => Some(EventKind::Modified),
        RawKind::ModifyOther => Some(EventKind::Modified),
        _ => None,
    }
}

/// The events of a notification: one per path, in the order of the paths,
/// all of the notification's kind and time; none if the kind is ignored.
/// Paths that occur twice give two events.
pub open spec fn normal_events(raw: RawKind, paths: Seq<Seq<char>>, timestamp: u64) -> Seq<EventView> {
    match normal_kind(raw) {
        Some(kind) => Seq::new(paths.len(), |i: int| EventView { kind, path: paths[i], timestamp }),
        None => Seq::empty(),
    }
}

/// The views of a list of events.
pub open spec fn event_views(events: Seq<Event>) -> Seq<EventView> {
    Seq::new(events.len(), |i: int| events[i]@)
}

/// What each kind of event asks of a file: opening and creating ask for
/// plaintext, closing asks for encryption, a change only for a new look.
pub open spec fn intent_of(kind: EventKind) -> Intent {
    match kind {
        EventKind::Opened => Intent::Expose,
        EventKind::Created => Intent::Expose,
        EventKind::Modified => Intent::Recheck,
        EventKind::Closed => Intent::Seal,
    }
}

/// The event kind of a raw kind, if it has one.
pub fn normalize_kind(raw: RawKind) -> (kind: Option<EventKind>)
    ensures
        kind == normal_kind(raw),
{
    match raw {
        RawKind::AccessOpen => Some(EventKind::Opened),
        RawKind::AccessClose => Some(EventKind::Closed),
        RawKind::Create => Some(EventKind::Created),
        RawKind::ModifyAny => Some(EventKind::Modified),
        RawKind::ModifyData => Some(EventKind::Modified),
        RawKind::ModifyOther => Some(EventKind::Modified),
        _ => None,
    }
}

/// Turns a raw notification into events.
pub fn normalize(raw: &RawNotification) -> (events: Vec<Event>)
    ensures
        event_views(events@) == normal_events(raw.kind, crate::codec::texts(raw.paths@), raw.timestamp),
{
    let mut events: Vec<Event> = Vec::new();
    let kind = match normalize_kind(raw.kind) {
        Some(kind) => kind,
        None => {
            assert(event_views(events@) =~= Seq::empty());
            return events;
        },
    };
    let mut i: usize = 0;
    while i < raw.paths.len()
        invariant
            i <= raw.paths.len(),
            events.len() == i,
            forall|j: int| 0 <= j < i ==> (#[trigger] events[j])@ == (EventView {
                kind,
                path: raw.paths[j]@,
                timestamp: raw.timestamp,
            }),
        decreases raw.paths.len() - i,
    {
        events.push(Event { kind, path: raw.paths[i].clone(), timestamp: raw.timestamp });
        i += 1;
    }
    assert(event_views(events@) =~= normal_events(raw.kind, crate::codec::texts(raw.paths@), raw.timestamp));
    events
}

/// What an event of this kind asks of a file.
pub fn intent(kind: EventKind) -> (intent: Intent)
    ensures
        intent == intent_of(kind),
{
    match kind {
        EventKind::Opened => Intent::Expose,
        EventKind::Created => Intent::Expose,
        EventKind::Modified => Intent::Recheck,
        EventKind::Closed => Intent::Seal,
    }
}

} // verus!
