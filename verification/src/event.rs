use vstd::prelude::*;

verus! {

/// Which kind of domain action an event reports.
#[derive(Debug, PartialEq, Eq, Clone, Copy, Structural)]
pub enum EventKind {
    Spawn,
    Input,
}

/// A domain event derived from one confirmed or locally predicted
/// transaction, handed to the rendering layer and consumed once. Fields
/// that are not valid for the event's kind read as typed absence through
/// the kind-checked accessors, never as a sentinel value.
#[derive(Debug, PartialEq)]
pub struct Event {
    pub id: String,
    pub x: i32,
    pub y: i32,
    pub heading: u32,
    pub kind: EventKind,
    pub timestamp: u64,
}

impl Event {
    /// An event reporting that `id` spawned at domain position `(x, y)`.
    pub fn spawn(id: String, x: i32, y: i32, timestamp: u64) -> (e: Event)
        ensures
            e == (Event { id, x, y, heading: 0, kind: EventKind::Spawn, timestamp }),
    {
        Event { id, x, y, heading: 0, kind: EventKind::Spawn, timestamp }
    }

    /// An event reporting that `id` switched to the raw heading code
    /// `heading`.
    pub fn input(id: String, heading: u32, timestamp: u64) -> (e: Event)
        ensures
            e == (Event { id, x: 0, y: 0, heading, kind: EventKind::Input, timestamp }),
    {
        Event { id, x: 0, y: 0, heading, kind: EventKind::Input, timestamp }
    }

    pub fn is_spawn(&self) -> (b: bool)
        ensures
            b == (self.kind == EventKind::Spawn),
    {
        self.kind == EventKind::Spawn
    }

    pub fn is_input(&self) -> (b: bool)
        ensures
            b == (self.kind == EventKind::Input),
    {
        self.kind == EventKind::Input
    }

    /// The heading code an input event reports; absent for other kinds.
    pub fn get_input_heading(&self) -> (r: Option<u32>)
        ensures
            r == if self.kind == EventKind::Input {
                Some(self.heading)
            } else {
                None::<u32>
            },
    {
        if self.is_input() {
            Some(self.heading)
        } else {
            None
        }
    }

    /// The identity that issued the underlying transaction.
    pub fn get_id(&self) -> (r: String)
        ensures
            r == self.id,
    {
        self.id.clone()
    }

    /// The x coordinate a spawn event reports; absent for other kinds.
    pub fn get_spawn_x(&self) -> (r: Option<i32>)
        ensures
            r == if self.kind == EventKind::Spawn {
                Some(self.x)
            } else {
                None::<i32>
            },
    {
        if self.is_spawn() {
            Some(self.x)
        } else {
            None
        }
    }

    /// The y coordinate a spawn event reports; absent for other kinds.
    pub fn get_spawn_y(&self) -> (r: Option<i32>)
        ensures
            r == if self.kind == EventKind::Spawn {
                Some(self.y)
            } else {
                None::<i32>
            },
    {
        if self.is_spawn() {
            Some(self.y)
        } else {
            None
        }
    }

    /// When the underlying transaction was timestamped.
    pub fn get_timestamp(&self) -> (t: u64)
        ensures
            t == self.timestamp,
    {
        self.timestamp
    }
}

} // verus!
