//! Where the keyboard focus is: on the file list, on the text view, or
//! set aside while the filename prompt is open.

use vstd::prelude::*;

verus! {

/// The panes that can hold the keyboard focus.
#[derive(Clone, Copy, Debug, PartialEq, Eq, Structural)]
pub enum Focus {
    /// The list of open files.
    Files,
    /// The text of the selected file.
    View,
}

/// The state of the keyboard cursor.
#[derive(Clone, Copy, Debug, PartialEq, Eq, Structural)]
pub enum CursorState {
    /// The focus is on this pane.
    Active(Focus),
    /// No pane has the focus; it returns to this one.
    Suspended(Focus),
}

/// The state after the cursor was toggled: an active cursor is suspended
/// and remembers its pane, a suspended one gets its pane back.
pub open spec fn toggled(state: CursorState) -> CursorState {
    match state {
        CursorState::Active(pane) => CursorState::Suspended(pane),
        CursorState::Suspended(pane) => CursorState::Active(pane),
    }
}

/// A type that stands for one pane.
pub trait Pane {
    /// The pane that the type stands for.
    spec fn focus() -> Focus;

    fn target() -> (focus: Focus)
        ensures
            focus == Self::focus(),
    ;
}

/// The cursor is on file list.
pub struct Files;

/// the cursor is on text view.
pub struct View;

impl Pane for Files {
    open spec fn focus() -> Focus {
        Focus::Files
    }

    fn target() -> (focus: Focus) {
        Focus::Files
    }
}

impl Pane for View {
    open spec fn focus() -> Focus {
        Focus::View
    }

    fn target() -> (focus: Focus) {
        Focus::View
    }
}

/// To denote where the current cursor is located.
pub struct KeyboardCursor {
    state: CursorState,
}

impl KeyboardCursor {
    /// The state of the cursor.
    pub closed spec fn state(&self) -> CursorState {
        self.state
    }

    /// A cursor on the text view.
    #[inline]
    pub fn new() -> (cursor: Self)
        ensures
            cursor.state() == CursorState::Active(Focus::View),
    {
        KeyboardCursor { state: CursorState::Active(Focus::View) }
    }

    /// Moves the focus to the pane `W`, unless the cursor is suspended.
    pub fn set_cursor<W: Pane>(&mut self)
        ensures
            final(self).state() == match old(self).state() {
                CursorState::Active(_) => CursorState::Active(W::focus()),
                CursorState::Suspended(pane) => CursorState::Suspended(pane),
            },
    {
        if let CursorState::Active(_) = self.state {
            self.state = CursorState::Active(W::target());
        }
    }

    /// Suspends an active cursor, remembering its pane, and gives a
    /// suspended one its pane back.
    pub fn toggle(&mut self)
        ensures
            final(self).state() == toggled(old(self).state()),
    {
        self.state = match self.state {
            CursorState::Active(pane) => CursorState::Suspended(pane),
            CursorState::Suspended(pane) => CursorState::Active(pane),
        };
    }

    /// Whether the focus is on the pane `W`. A suspended cursor is on none.
    pub fn cursor_at<W: Pane>(&self) -> (at: bool)
        ensures
            at == (self.state() == CursorState::Active(W::focus())),
    {
        match self.state {
            CursorState::Active(pane) => pane == W::target(),
            CursorState::Suspended(_) => false,
        }
    }
}

impl Default for KeyboardCursor {
    fn default() -> (cursor: Self)
        ensures
            cursor.state() == CursorState::Active(Focus::View),
    {
        KeyboardCursor::new()
    }
}

/// Suspending a cursor and resuming it leaves it where it was, and a
/// suspended cursor is on no pane.
pub proof fn lemma_toggle_twice(state: CursorState)
    ensures
        toggled(toggled(state)) == state,
        state is Active ==> toggled(state) is Suspended,
        state is Suspended ==> toggled(state) is Active,
{
}

} // verus!
