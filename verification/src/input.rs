//! From key events to what they mean for the geometry and the loop.

use vstd::prelude::*;
use crate::geometry::{is_translation_of, translation_fits, GeometryBuffer};

verus! {

/// The keys that matter, and one value for all the others.
#[derive(Clone, Copy, Debug, PartialEq, Eq, Structural)]
pub enum Key {
    Up,
    Down,
    Left,
    Right,
    Escape,
    Other,
}

/// What happened to a key.
#[derive(Clone, Copy, Debug, PartialEq, Eq, Structural)]
pub enum KeyAction {
    Press,
    Repeat,
    Release,
}

/// What a key event asks for.
#[derive(Clone, Copy, Debug, PartialEq, Eq, Structural)]
pub enum Intent {
    MoveUp,
    MoveDown,
    MoveLeft,
    MoveRight,
    Exit,
    Ignored,
}

/// Distance of one move, in fixed-point units.
pub const STEP: i32 = 5;

/// The intent behind a key event. A direction key moves while it is pressed
/// or held; the escape key asks to leave when it is pressed; everything else
/// is ignored.
pub open spec fn intent_of(key: Key, action: KeyAction) -> Intent {
    if action == KeyAction::Release {
        Intent::Ignored
    } else {
        match key {
            Key::Up => Intent::MoveUp,
            Key::Down => Intent::MoveDown,
            Key::Left => Intent::MoveLeft,
            Key::Right => Intent::MoveRight,
            Key::Escape => if action == KeyAction::Press {
                Intent::Exit
            } else {
                Intent::Ignored
            },
            Key::Other => Intent::Ignored,
        }
    }
}

/// Decodes a key event.
pub fn translate_key(key: Key, action: KeyAction) -> (intent: Intent)
    ensures
        intent == intent_of(key, action),
{
    match (key, action) {
        (Key::Escape, KeyAction::Press) => Intent::Exit,
        (Key::Up, KeyAction::Press) | (Key::Up, KeyAction::Repeat) => Intent::MoveUp,
        (Key::Down, KeyAction::Press) | (Key::Down, KeyAction::Repeat) => Intent::MoveDown,
        (Key::Left, KeyAction::Press) | (Key::Left, KeyAction::Repeat) => Intent::MoveLeft,
        (Key::Right, KeyAction::Press) | (Key::Right, KeyAction::Repeat) => Intent::MoveRight,
        _ => Intent::Ignored,
    }
}

impl Intent {
    /// The offset that this intent moves the geometry by, if it moves it.
    pub open spec fn spec_delta(self) -> Option<(i32, i32)> {
        match self {
            Intent::MoveUp => Some((0i32, STEP)),
            Intent::MoveDown => Some((0i32, (-STEP) as i32)),
            Intent::MoveLeft => Some(((-STEP) as i32, 0i32)),
            Intent::MoveRight => Some((STEP, 0i32)),
            _ => None,
        }
    }

    /// The offset that this intent moves the geometry by, if it moves it:
    /// one step along an axis, of the same length in all four directions.
    pub fn delta(&self) -> (d: Option<(i32, i32)>)
        ensures
            d == self.spec_delta(),
            d matches Some((dx, dy)) ==> (dx == 0 && (dy == STEP || dy == -STEP)) || (dy == 0 && (dx
                == STEP || dx == -STEP)),
    {
        match self {
            Intent::MoveUp => Some((0, STEP)),
            Intent::MoveDown => Some((0, -STEP)),
            Intent::MoveLeft => Some((-STEP, 0)),
            Intent::MoveRight => Some((STEP, 0)),
            _ => None,
        }
    }
}

/// What became of an intent.
#[derive(Clone, Copy, Debug, PartialEq, Eq, Structural)]
pub enum InputOutcome {
    /// The geometry was moved and has to be uploaded again.
    Moved,
    /// The move would have left the range of the coordinates; nothing changed.
    OutOfRange,
    /// The loop is asked to end.
    ExitRequested,
    /// Nothing to do.
    Nothing,
}

/// Carries out an intent on the geometry. A move translates every vertex by
/// the intent's offset and leaves the geometry stale; any other intent leaves
/// the geometry as it is.
pub fn apply_intent(geometry: &mut GeometryBuffer, intent: Intent) -> (outcome: InputOutcome)
    ensures
        final(geometry).wf(),
        final(geometry).index_seq() == old(geometry).index_seq(),
        match intent.spec_delta() {
            Some((dx, dy)) => if translation_fits(old(geometry).vertex_seq(), dx as int, dy as int) {
                &&& outcome == InputOutcome::Moved
                &&& is_translation_of(
                    final(geometry).vertex_seq(),
                    old(geometry).vertex_seq(),
                    dx as int,
                    dy as int,
                )
                &&& final(geometry).is_stale()
            } else {
                &&& outcome == InputOutcome::OutOfRange
                &&& final(geometry).vertex_seq() == old(geometry).vertex_seq()
                &&& final(geometry).is_stale() == old(geometry).is_stale()
            },
            None => {
                &&& outcome == (if intent == Intent::Exit {
                    InputOutcome::ExitRequested
                } else {
                    InputOutcome::Nothing
                })
                &&& final(geometry).vertex_seq() == old(geometry).vertex_seq()
                &&& final(geometry).is_stale() == old(geometry).is_stale()
            },
        },
{
    proof {
        use_type_invariant(&*geometry);
    }
    match intent.delta() {
        Some((dx, dy)) => {
            if geometry.can_translate(dx, dy) {
                geometry.translate(dx, dy);
                InputOutcome::Moved
            } else {
                InputOutcome::OutOfRange
            }
        },
        None => {
            match intent {
                Intent::Exit => InputOutcome::ExitRequested,
                _ => InputOutcome::Nothing,
            }
        },
    }
}

} // verus!
