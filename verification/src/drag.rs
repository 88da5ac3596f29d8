//! Moving a piece with the mouse: which piece follows the pointer while the
//! button is down, and which move it makes when the button is let go.
//!
//! While the button is down, the pieces are asked one after another. At
//! most one piece is being dragged at a time.

use vstd::prelude::*;
use vstd::string::*;
use crate::notation::{in_range, notation_of, position_to_notation};

verus! {

/// What is to be done with a piece while the button is down.
#[derive(Clone, Copy, Debug, PartialEq, Eq, Structural)]
pub struct Press {
    /// The piece is to follow the pointer.
    pub follow: bool,
    /// No further piece is to be asked.
    pub stop: bool,
    /// Whether a piece is being dragged from now on.
    pub dragging: bool,
}

/// What is to be done with a piece while the button is down, given whether
/// some piece is being dragged already, whether the pointer is over this
/// piece, and whether this piece is the one that is being dragged.
///
/// A piece under the pointer ends the asking: it is picked up where nothing
/// is dragged yet, and it follows where it is the dragged one. A dragged
/// piece that the pointer has run away from follows as well.
pub open spec fn pressed(dragging: bool, hovering: bool, held: bool) -> Press {
    if hovering {
        Press { follow: !dragging || held, stop: true, dragging: true }
    } else if held {
        Press { follow: true, stop: true, dragging }
    } else {
        Press { follow: false, stop: false, dragging }
    }
}

/// Decides what is to be done with a piece while the button is down.
pub fn on_press(dragging: bool, hovering: bool, held: bool) -> (press: Press)
    ensures
        press == pressed(dragging, hovering, held),
{
    if hovering {
        if !dragging {
            Press { follow: true, stop: true, dragging: true }
        } else {
            Press { follow: held, stop: true, dragging: true }
        }
    } else if held {
        Press { follow: true, stop: true, dragging }
    } else {
        Press { follow: false, stop: false, dragging }
    }
}

/// The move that dropping a piece asks for: the notation of the cell it
/// came from, then that of the cell it was dropped on. A piece that comes
/// from or lands beside the board asks for no move.
pub open spec fn dropped(from: (usize, usize), to: (usize, usize)) -> Option<Seq<char>> {
    if in_range(from) && in_range(to) {
        Some(notation_of(from) + notation_of(to))
    } else {
        None
    }
}

/// Writes the move that dropping a piece asks for, such as `E2E4`.
pub fn on_drop(from: (usize, usize), to: (usize, usize)) -> (notation: Option<String>)
    ensures
        match dropped(from, to) {
            Some(text) => notation is Some && notation->0@ == text,
            None => notation is None,
        },
{
    if from.0 < 8 && from.1 < 8 && to.0 < 8 && to.1 < 8 {
        let mut notation = position_to_notation(from);
        let target = position_to_notation(to);
        notation.append(target.as_str());
        Some(notation)
    } else {
        None
    }
}

} // verus!
