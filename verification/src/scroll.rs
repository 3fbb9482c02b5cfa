//! Scroll-position state for the log view: a cursor into a list of lines.
//!
//! The cursor stays inside `[0, list_len - 1]` (or at `0` when the list is
//! empty); every navigation command clamps at the bounds instead of
//! failing, and reports whether the selection actually moved.

use vstd::prelude::*;

use crate::keys::Key;

verus! {

/// Number of single-line steps taken by one page-scroll command.
pub const SCROLL_STEP: usize = 8;

/// A navigation command for the scroll cursor.
#[derive(Clone, Copy, Debug, PartialEq, Eq, Structural)]
pub enum NavCmd {
    MoveDown,
    MoveUp,
    ScrollDown,
    ScrollUp,
    GoToBegin,
    GoToEnd,
}

/// What a navigation command did to the visible selection.
#[derive(Clone, Copy, Debug, PartialEq, Eq, Structural)]
pub enum CmdOutcome {
    /// The selection moved; carries the new index.
    Changed(usize),
    /// The command was a no-op at a boundary.
    Unchanged,
}

/// Answer of the key handler to one input event.
#[derive(Clone, Copy, Debug, PartialEq, Eq, Structural)]
pub enum KeyResult {
    /// The key mapped to a navigation command, which was applied.
    Consumed,
    /// The key asks the enclosing application to move focus away.
    FocusAway,
    /// The key means nothing to this widget.
    Ignored,
}

/// The index `steps` bounded down-moves reach from `index` in a list of
/// `len` lines: each single step advances only while `index + 1 < len`,
/// so the net effect is clamped at `len - 1`.
pub open spec fn down_index(index: int, len: int, steps: int) -> int {
    if index + steps < len {
        index + steps
    } else if index + 1 < len {
        len - 1
    } else {
        index
    }
}

/// The index `steps` bounded up-moves reach from `index`: clamped at `0`.
pub open spec fn up_index(index: int, steps: int) -> int {
    if index - steps >= 0 {
        index - steps
    } else {
        0
    }
}

/// Internal state of the log widget: the scroll cursor and its bound.
#[derive(Clone, Copy)]
pub struct OwnStates {
    /// Index of the selected line in the list.
    pub list_index: usize,
    /// Number of lines currently in the list.
    pub list_len: usize,
    /// Whether the widget has input focus (kept for rendering only).
    pub focus: bool,
}

impl OwnStates {
    /// A valid cursor: inside the list, or `0` when the list is empty.
    pub open spec fn wf(self) -> bool {
        if self.list_len == 0 {
            self.list_index == 0
        } else {
            self.list_index < self.list_len
        }
    }

    /// The same state with the cursor at `index`.
    pub open spec fn with_index(self, index: int) -> OwnStates {
        OwnStates { list_index: index as usize, list_len: self.list_len, focus: self.focus }
    }

    /// The state one navigation command leads to.
    pub open spec fn spec_step(self, cmd: NavCmd) -> OwnStates {
        match cmd {
            NavCmd::MoveDown => self.with_index(
                down_index(self.list_index as int, self.list_len as int, 1),
            ),
            NavCmd::MoveUp => self.with_index(up_index(self.list_index as int, 1)),
            NavCmd::ScrollDown => self.with_index(
                down_index(self.list_index as int, self.list_len as int, SCROLL_STEP as int),
            ),
            NavCmd::ScrollUp => self.with_index(
                up_index(self.list_index as int, SCROLL_STEP as int),
            ),
            NavCmd::GoToBegin => self.with_index(0),
            NavCmd::GoToEnd => self.with_index(
                if self.list_len == 0 {
                    0
                } else {
                    self.list_len - 1
                },
            ),
        }
    }

    /// Whether one navigation command moves the visible selection.
    pub open spec fn spec_changed(self, cmd: NavCmd) -> bool {
        self.spec_step(cmd).list_index != self.list_index
    }

    /// Set list length.
    pub fn set_list_len(&mut self, len: usize)
        ensures
            final(self).list_len == len,
            final(self).list_index == old(self).list_index,
            final(self).focus == old(self).focus,
    {
        self.list_len = len;
    }

    /// Return current value for list index.
    pub fn get_list_index(&self) -> (index: usize)
        ensures
            index == self.list_index,
    {
        self.list_index
    }

    /// Increment list index, saturating just below the list length.
    pub fn incr_list_index(&mut self)
        ensures
            *final(self) == old(self).spec_step(NavCmd::MoveDown),
    {
        // Check if index is at last element
        if self.list_len > 0 && self.list_index < self.list_len - 1 {
            self.list_index = self.list_index + 1;
        }
    }

    /// Decrement list index, saturating at zero.
    pub fn decr_list_index(&mut self)
        ensures
            *final(self) == old(self).spec_step(NavCmd::MoveUp),
    {
        // Check if index is bigger than 0
        if self.list_index > 0 {
            self.list_index = self.list_index - 1;
        }
    }

    /// Set list index at last item.
    pub fn list_index_at_last(&mut self)
        ensures
            *final(self) == old(self).spec_step(NavCmd::GoToEnd),
    {
        self.list_index = match self.list_len {
            0 => 0,
            len => len - 1,
        };
    }

    /// Reset list index to the top of the list.
    pub fn reset_list_index(&mut self)
        ensures
            *final(self) == old(self).spec_step(NavCmd::GoToBegin),
    {
        self.list_index = 0;
    }

    /// The content was replaced with `len` lines: update the bound and put
    /// the cursor back at the top of the list.
    pub fn replace_content(&mut self, len: usize)
        ensures
            final(self).list_len == len,
            final(self).list_index == 0,
            final(self).focus == old(self).focus,
            final(self).wf(),
    {
        self.set_list_len(len);
        self.reset_list_index();
    }

    /// Apply one navigation command, clamped at the bounds, and report
    /// whether (and where to) the visible selection moved.
    pub fn perform(&mut self, cmd: NavCmd) -> (result: CmdOutcome)
        ensures
            *final(self) == old(self).spec_step(cmd),
            result == (if old(self).spec_changed(cmd) {
                CmdOutcome::Changed(old(self).spec_step(cmd).list_index)
            } else {
                CmdOutcome::Unchanged
            }),
    {
        let ghost entry = *self;
        let prev = self.get_list_index();
        match cmd {
            NavCmd::MoveDown => {
                self.incr_list_index();
            }
            NavCmd::MoveUp => {
                self.decr_list_index();
            }
            NavCmd::ScrollDown => {
                let mut step: usize = 0;
                while step < SCROLL_STEP
                    invariant
                        step <= SCROLL_STEP,
                        self.list_len == entry.list_len,
                        self.focus == entry.focus,
                        self.list_index as int == down_index(
                            entry.list_index as int,
                            entry.list_len as int,
                            step as int,
                        ),
                    decreases SCROLL_STEP - step,
                {
                    self.incr_list_index();
                    step = step + 1;
                }
            }
            NavCmd::ScrollUp => {
                let mut step: usize = 0;
                while step < SCROLL_STEP
                    invariant
                        step <= SCROLL_STEP,
                        self.list_len == entry.list_len,
                        self.focus == entry.focus,
                        self.list_index as int == up_index(entry.list_index as int, step as int),
                    decreases SCROLL_STEP - step,
                {
                    self.decr_list_index();
                    step = step + 1;
                }
            }
            NavCmd::GoToBegin => {
                self.reset_list_index();
            }
            NavCmd::GoToEnd => {
                self.list_index_at_last();
            }
        }
        if prev != self.get_list_index() {
            CmdOutcome::Changed(self.get_list_index())
        } else {
            CmdOutcome::Unchanged
        }
    }

    /// Handle one key press: apply the navigation command it maps to, or
    /// report that it asks for a focus change or means nothing here.
    pub fn on_key(&mut self, key: Key) -> (result: KeyResult)
        ensures
            (match nav_cmd_of(key) {
                Some(cmd) => *final(self) == old(self).spec_step(cmd) && result
                    == KeyResult::Consumed,
                None => *final(self) == *old(self) && result == (if key == Key::Tab {
                    KeyResult::FocusAway
                } else {
                    KeyResult::Ignored
                }),
            }),
    {
        match key {
            Key::Up => {
                self.perform(NavCmd::MoveDown);
                KeyResult::Consumed
            }
            Key::Down => {
                self.perform(NavCmd::MoveUp);
                KeyResult::Consumed
            }
            Key::PageUp => {
                self.perform(NavCmd::ScrollDown);
                KeyResult::Consumed
            }
            Key::PageDown => {
                self.perform(NavCmd::ScrollUp);
                KeyResult::Consumed
            }
            Key::End => {
                self.perform(NavCmd::GoToBegin);
                KeyResult::Consumed
            }
            Key::Home => {
                self.perform(NavCmd::GoToEnd);
                KeyResult::Consumed
            }
            Key::Tab => KeyResult::FocusAway,
            _ => KeyResult::Ignored,
        }
    }
}

impl Default for OwnStates {
    /// A fresh widget: empty list, cursor at the top, no focus.
    fn default() -> (result: OwnStates)
        ensures
            result == (OwnStates { list_index: 0, list_len: 0, focus: false }),
    {
        OwnStates { list_index: 0, list_len: 0, focus: false }
    }
}

/// The navigation command a key maps to, if any.
///
/// The list is drawn bottom-anchored (the newest line sits at the bottom
/// growth corner), so the on-screen directions are inverted: the up key
/// walks toward higher indices and the end key lands on index `0`.
pub open spec fn nav_cmd_of(key: Key) -> Option<NavCmd> {
    match key {
        Key::Up => Some(NavCmd::MoveDown),
        Key::Down => Some(NavCmd::MoveUp),
        Key::PageUp => Some(NavCmd::ScrollDown),
        Key::PageDown => Some(NavCmd::ScrollUp),
        Key::End => Some(NavCmd::GoToBegin),
        Key::Home => Some(NavCmd::GoToEnd),
        _ => None,
    }
}

/// The state a whole sequence of navigation commands leads to.
pub open spec fn spec_run(s: OwnStates, cmds: Seq<NavCmd>) -> OwnStates
    decreases cmds.len(),
{
    if cmds.len() == 0 {
        s
    } else {
        spec_run(s.spec_step(cmds[0]), cmds.subrange(1, cmds.len() as int))
    }
}

/// One navigation command keeps the cursor valid.
pub proof fn lemma_step_preserves_wf(s: OwnStates, cmd: NavCmd)
    requires
        s.wf(),
    ensures
        s.spec_step(cmd).wf(),
{
}

/// Any sequence of navigation commands keeps the cursor inside
/// `[0, list_len - 1]`, or at `0` when the list is empty.
pub proof fn lemma_nav_preserves_wf(s: OwnStates, cmds: Seq<NavCmd>)
    requires
        s.wf(),
    ensures
        spec_run(s, cmds).wf(),
    decreases cmds.len(),
{
    if cmds.len() > 0 {
        lemma_step_preserves_wf(s, cmds[0]);
        lemma_nav_preserves_wf(s.spec_step(cmds[0]), cmds.subrange(1, cmds.len() as int));
    }
}

/// Moving down at the last line leaves the cursor where it is and reports
/// no change.
pub proof fn lemma_move_down_at_last(s: OwnStates)
    requires
        s.list_len > 0,
        s.list_index == s.list_len - 1,
    ensures
        !s.spec_changed(NavCmd::MoveDown),
        s.spec_step(NavCmd::MoveDown) == s,
{
}

/// Moving up at the top of the list leaves the cursor where it is and
/// reports no change.
pub proof fn lemma_move_up_at_top(s: OwnStates)
    requires
        s.list_index == 0,
    ensures
        !s.spec_changed(NavCmd::MoveUp),
        s.spec_step(NavCmd::MoveUp) == s,
{
}

/// Jumping to the end of an empty list leaves the cursor at `0` and
/// reports no change.
pub proof fn lemma_jump_to_end_empty(s: OwnStates)
    requires
        s.wf(),
        s.list_len == 0,
    ensures
        !s.spec_changed(NavCmd::GoToEnd),
        s.spec_step(NavCmd::GoToEnd) == s,
{
}

} // verus!
