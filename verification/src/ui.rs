//! Decision logic of the selection menus.
//!
//! The terminal front-end draws lists — image files, removable drives, the
//! yes/no confirmations — and feeds key presses here. This module holds the
//! part worth getting right: how a key moves the highlighted row, when a row
//! is chosen, and how a yes/no menu turns a choice into a confirmation
//! signal. Drawing and reading events stay outside.

use vstd::prelude::*;

verus! {

/// The key presses a menu reacts to; everything else is `Other`.
#[derive(PartialEq, Eq, Structural, Clone, Copy, Debug)]
pub enum Key {
    Up,
    Down,
    Enter,
    Esc,
    Other,
}

/// What one key press did to a menu.
#[derive(PartialEq, Eq, Structural, Clone, Copy, Debug)]
pub enum MenuAction {
    /// The highlight may have moved; keep showing the menu.
    Stay,
    /// The highlighted row was chosen.
    Chosen { index: usize },
    /// The menu was dismissed without a choice.
    Cancelled,
}

/// A menu over a fixed, non-empty list of rows with one highlighted.
#[derive(PartialEq, Eq, Structural, Clone, Copy, Debug)]
pub struct Menu {
    selected: usize,
    count: usize,
}

impl Menu {
    pub closed spec fn spec_selected(self) -> usize {
        self.selected
    }

    pub closed spec fn spec_count(self) -> usize {
        self.count
    }

    /// The highlight always sits on a row.
    pub open spec fn wf(self) -> bool {
        self.spec_selected() < self.spec_count()
    }

    /// A menu of `count` rows with the first one highlighted.
    pub fn new(count: usize) -> (r: Menu)
        requires
            count >= 1,
        ensures
            r.wf(),
            r.spec_count() == count,
            r.spec_selected() == 0,
    {
        Menu { selected: 0, count }
    }

    pub fn selected(&self) -> (r: usize)
        ensures
            r == self.spec_selected(),
    {
        self.selected
    }

    pub fn count(&self) -> (r: usize)
        ensures
            r == self.spec_count(),
    {
        self.count
    }

    /// React to one key press: arrows move the highlight and stop at the
    /// ends, enter chooses the highlighted row, escape cancels, anything
    /// else changes nothing.
    pub fn step(&mut self, key: Key) -> (r: MenuAction)
        requires
            old(self).wf(),
        ensures
            final(self).wf(),
            final(self).spec_count() == old(self).spec_count(),
            final(self).spec_selected() == (match key {
                Key::Up => if old(self).spec_selected() > 0 {
                    (old(self).spec_selected() - 1) as usize
                } else {
                    0
                },
                Key::Down => if old(self).spec_selected() + 1 < old(self).spec_count() {
                    (old(self).spec_selected() + 1) as usize
                } else {
                    old(self).spec_selected()
                },
                _ => old(self).spec_selected(),
            }),
            r == (match key {
                Key::Enter => MenuAction::Chosen { index: old(self).spec_selected() },
                Key::Esc => MenuAction::Cancelled,
                _ => MenuAction::Stay,
            }),
    {
        match key {
            Key::Up => {
                if self.selected > 0 {
                    self.selected = self.selected - 1;
                }
                MenuAction::Stay
            },
            Key::Down => {
                if self.selected + 1 < self.count {
                    self.selected = self.selected + 1;
                }
                MenuAction::Stay
            },
            Key::Enter => MenuAction::Chosen { index: self.selected },
            Key::Esc => MenuAction::Cancelled,
            Key::Other => MenuAction::Stay,
        }
    }
}

/// A yes/no menu confirms exactly when its first row ("yes") is chosen;
/// cancelling or choosing any other row declines.
pub fn confirmation_granted(action: MenuAction) -> (r: bool)
    ensures
        r == (action == MenuAction::Chosen { index: 0usize }),
{
    match action {
        MenuAction::Chosen { index } => index == 0,
        _ => false,
    }
}

} // verus!
