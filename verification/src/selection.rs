//! From what the user asked for to the command that is sent.
//!
//! The user picks one thing to do. The selectors exclude each other, and it
//! is the argument parser of the program that turns down a contradictory
//! command line. Should more than one selector arrive here all the same, the
//! first in this order counts: test, raw, next, swap, following, add.
//!
//! A color is required exactly where a task is scheduled, with following or
//! add: the user names one or asks for a random one, and a selection with
//! neither is turned down. Everywhere else the color counts for nothing.

use vstd::prelude::*;
use crate::command::{Color, ColorView, Command, CommandView};

verus! {

/// What the user asked for.
#[derive(Debug, PartialEq, Eq)]
pub struct Selection {
    /// Probe the line with a test.
    pub test: bool,
    /// Send the given payload as it is.
    pub raw: Option<Vec<u8>>,
    /// Mark the current task as done.
    pub next: bool,
    /// Swap the current task with the one after it.
    pub swap: bool,
    /// Schedule the task of that name right after the current one.
    pub following: Option<Vec<u8>>,
    /// Schedule the task of that name after all others.
    pub add: Option<Vec<u8>>,
    /// The color for a new task, in HTML notation.
    pub color: Option<Vec<u8>>,
    /// Leave the color of a new task to chance; `color` then counts for
    /// nothing.
    pub random: bool,
}

/// Why a selection is turned down.
#[derive(Clone, Copy, Debug, PartialEq, Eq)]
pub enum SelectionError {
    /// A task is to be scheduled and has no color: none was named and no
    /// random one asked for.
    MissingColor,
}

impl Selection {
    /// The color that a new task gets: a random one where that was asked
    /// for, else the one that was named, if one was.
    pub open spec fn chosen_color(&self) -> Option<ColorView> {
        if self.random {
            Some(ColorView::Random)
        } else if let Some(text) = self.color {
            Some(ColorView::Text(text@))
        } else {
            None
        }
    }

    /// Whether a task is to be scheduled: following or add is set, and no
    /// selector that comes before them.
    pub open spec fn scheduled(&self) -> bool {
        !self.test && self.raw is None && !self.next && !self.swap && (self.following is Some
            || self.add is Some)
    }

    /// The command that the selection stands for; nothing where the user
    /// selected nothing; an error where a task is to be scheduled without a
    /// color.
    pub open spec fn chosen(&self) -> Result<Option<CommandView>, SelectionError> {
        if self.test {
            Ok(Some(CommandView::Test))
        } else if let Some(payload) = self.raw {
            Ok(Some(CommandView::Raw { payload: payload@ }))
        } else if self.next {
            Ok(Some(CommandView::Next))
        } else if self.swap {
            Ok(Some(CommandView::Swap))
        } else if let Some(task) = self.following {
            match self.chosen_color() {
                Some(color) => Ok(Some(CommandView::Follow { task: task@, color })),
                None => Err(SelectionError::MissingColor),
            }
        } else if let Some(task) = self.add {
            match self.chosen_color() {
                Some(color) => Ok(Some(CommandView::Add { task: task@, color })),
                None => Err(SelectionError::MissingColor),
            }
        } else {
            Ok(None)
        }
    }

    /// Picks the command to send, as [`Selection::chosen`] defines it.
    pub fn select(self) -> (picked: Result<Option<Command>, SelectionError>)
        ensures
            self.chosen() == match picked {
                Ok(Some(command)) => Ok(Some(command@)),
                Ok(None) => Ok(None),
                Err(error) => Err(error),
            },
            picked is Err <==> self.scheduled() && !self.random && self.color is None,
    {
        let color: Option<Color> = if self.random {
            Some(Color::Random)
        } else {
            match self.color {
                Some(text) => Some(Color::Text(text)),
                None => None,
            }
        };
        if self.test {
            Ok(Some(Command::Test))
        } else if let Some(payload) = self.raw {
            Ok(Some(Command::Raw { payload }))
        } else if self.next {
            Ok(Some(Command::Next))
        } else if self.swap {
            Ok(Some(Command::Swap))
        } else if let Some(task) = self.following {
            match color {
                Some(color) => Ok(Some(Command::Follow { task, color })),
                None => Err(SelectionError::MissingColor),
            }
        } else if let Some(task) = self.add {
            match color {
                Some(color) => Ok(Some(Command::Add { task, color })),
                None => Err(SelectionError::MissingColor),
            }
        } else {
            Ok(None)
        }
    }
}

} // verus!
