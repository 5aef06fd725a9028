use vstd::prelude::*;

use crate::score::Score;

verus! {

/// Transitions between the screens of the game.
#[derive(Clone, Copy, Debug, PartialEq, Eq, Structural)]
pub enum SceneEvent {
    Quit,
    GoToGame,
    PlayerHit { current_score: Score },
    GoToTitle,
}

/// Transitions between rooms, as chosen from a menu or reached in play.
#[derive(Clone, Copy, Debug, PartialEq, Eq, Structural)]
pub enum RoomTransition {
    Game,
    Quit,
    Title,
    Score { score: u16 },
}

/// The buttons that drive a menu.
#[derive(Clone, Copy, Debug, PartialEq, Eq, Structural)]
pub enum MenuButton {
    Up,
    Down,
    Select,
}

/// A list of choices with a cursor that wraps around at both ends.
#[derive(Clone, Debug)]
pub struct LogicalMenu<T> {
    pub choices: Vec<T>,
    pub cursor_index: usize,
}

impl<T: Copy> LogicalMenu<T> {
    /// The cursor points at a choice.
    pub open spec fn wf(&self) -> bool {
        self.cursor_index < self.choices@.len()
    }

    /// A menu over `choices`, with the cursor on the first one. At least one
    /// choice is required.
    pub fn new(choices: Vec<T>) -> (r: Self)
        requires
            choices@.len() >= 1,
        ensures
            r.wf(),
            r.choices@ == choices@,
            r.cursor_index == 0,
    {
        Self { choices, cursor_index: 0 }
    }

    pub fn move_cursor_down(&mut self)
        requires
            old(self).wf(),
        ensures
            final(self).wf(),
            final(self).choices@ == old(self).choices@,
            final(self).cursor_index == (old(self).cursor_index + 1) % (
            old(self).choices@.len() as int),
    {
        let n = self.choices.len();
        self.cursor_index = (self.cursor_index + 1) % n;
    }

    pub fn move_cursor_up(&mut self)
        requires
            old(self).wf(),
        ensures
            final(self).wf(),
            final(self).choices@ == old(self).choices@,
            final(self).cursor_index == (if old(self).cursor_index == 0 {
                old(self).choices@.len() - 1
            } else {
                old(self).cursor_index - 1
            }),
    {
        if self.cursor_index == 0 {
            self.cursor_index = self.choices.len() - 1;
        } else {
            self.cursor_index -= 1;
        }
    }

    /// The choice under the cursor.
    pub fn selected(&self) -> (r: T)
        requires
            self.wf(),
        ensures
            r == self.choices@[self.cursor_index as int],
    {
        self.choices[self.cursor_index]
    }

    /// Moves the cursor on `Up` and `Down`; returns the choice under the
    /// cursor on `Select`.
    pub fn consume_input(&mut self, button: MenuButton) -> (r: Option<T>)
        requires
            old(self).wf(),
        ensures
            final(self).wf(),
            final(self).choices@ == old(self).choices@,
            button is Select ==> r == Some(old(self).choices@[old(self).cursor_index as int])
                && final(self).cursor_index == old(self).cursor_index,
            button is Down ==> r is None && final(self).cursor_index == (old(self).cursor_index
                + 1) % (old(self).choices@.len() as int),
            button is Up ==> r is None && final(self).cursor_index == (if old(
                self,
            ).cursor_index == 0 {
                old(self).choices@.len() - 1
            } else {
                old(self).cursor_index - 1
            }),
    {
        match button {
            MenuButton::Down => {
                self.move_cursor_down();
                None
            },
            MenuButton::Up => {
                self.move_cursor_up();
                None
            },
            MenuButton::Select => Some(self.selected()),
        }
    }
}

} // verus!
