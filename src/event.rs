use vstd::prelude::*;

verus! {

/// What an [`Event`] reports. The numbering given by [`EventKind::code`] is
/// part of the shared memory contract and never changes; new kinds are
/// appended with new numbers.
#[derive(Debug, Clone, Copy, PartialEq, Eq, Structural)]
pub enum EventKind {
    /// No event.
    Empty,
    /// A key press.
    Key,
    /// A mouse action.
    Mouse,
    /// A change of terminal size.
    Resize,
    /// A request to quit.
    Quit,
}

impl EventKind {
    /// The stable number of each kind.
    pub open spec fn spec_code(self) -> u32 {
        match self {
            EventKind::Empty => 0,
            EventKind::Key => 1,
            EventKind::Mouse => 2,
            EventKind::Resize => 3,
            EventKind::Quit => 4,
        }
    }

    /// Returns the stable number of this kind: `Empty` 0, `Key` 1, `Mouse` 2,
    /// `Resize` 3, `Quit` 4.
    pub fn code(&self) -> (r: u32)
        ensures
            r == self.spec_code(),
    {
        match self {
            EventKind::Empty => 0,
            EventKind::Key => 1,
            EventKind::Mouse => 2,
            EventKind::Resize => 3,
            EventKind::Quit => 4,
        }
    }
}

/// An input event as a flat record: every payload field is always present
/// and is read according to `kind`.
#[derive(Debug, Clone, Copy, PartialEq, Eq, Structural)]
pub struct Event {
    /// What happened.
    pub kind: EventKind,
    /// Key identity; meaningful for `Key` events only.
    pub key_code: u32,
    /// Modifier bit flags; meaningful for `Key` and `Mouse` events.
    pub modifiers: u8,
    /// Mouse column in cells; meaningful for `Mouse` events only.
    pub mouse_x: u16,
    /// Mouse row in cells; meaningful for `Mouse` events only.
    pub mouse_y: u16,
}

impl Event {
    /// Every payload field that `kind` does not give a meaning to is zero.
    pub open spec fn wf(self) -> bool {
        &&& (self.kind != EventKind::Key ==> self.key_code == 0)
        &&& (self.kind != EventKind::Key && self.kind != EventKind::Mouse ==> self.modifiers == 0)
        &&& (self.kind != EventKind::Mouse ==> self.mouse_x == 0 && self.mouse_y == 0)
    }

    /// An event of the given kind whose payload fields are all zero.
    pub open spec fn bare(kind: EventKind) -> Event {
        Event { kind, key_code: 0, modifiers: 0, mouse_x: 0, mouse_y: 0 }
    }

    /// Creates the empty event: kind `Empty`, all payload fields zero.
    pub fn none() -> (r: Event)
        ensures
            r == Event::bare(EventKind::Empty),
            r.kind == EventKind::Empty,
            r.key_code == 0,
            r.modifiers == 0,
            r.mouse_x == 0,
            r.mouse_y == 0,
            r.wf(),
    {
        Event { kind: EventKind::Empty, key_code: 0, modifiers: 0, mouse_x: 0, mouse_y: 0 }
    }

    /// Creates the quit event: kind `Quit`, all payload fields zero.
    pub fn quit() -> (r: Event)
        ensures
            r == Event::bare(EventKind::Quit),
            r.kind == EventKind::Quit,
            r.key_code == 0,
            r.modifiers == 0,
            r.mouse_x == 0,
            r.mouse_y == 0,
            r.wf(),
    {
        Event { kind: EventKind::Quit, key_code: 0, modifiers: 0, mouse_x: 0, mouse_y: 0 }
    }
}

} // verus!
