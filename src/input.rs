//! Snapshot of the held movement keys, filled from key events and read
//! once per frame.
use vstd::prelude::*;
use crate::camera::Direction;

verus! {

/// Which movement commands are currently held.
#[derive(Clone, Copy, Debug, PartialEq, Eq, Structural)]
pub struct MoveKeys {
    pub forward: bool,
    pub backward: bool,
    pub left: bool,
    pub right: bool,
    pub up: bool,
    pub down: bool,
}

/// The held commands of `k`, in the fixed order forward, backward, left,
/// right, up, down.
pub open spec fn held_seq(k: MoveKeys) -> Seq<Direction> {
    (if k.forward { seq![Direction::Forward] } else { Seq::empty() })
        + (if k.backward { seq![Direction::Backward] } else { Seq::empty() })
        + (if k.left { seq![Direction::Left] } else { Seq::empty() })
        + (if k.right { seq![Direction::Right] } else { Seq::empty() })
        + (if k.up { seq![Direction::Up] } else { Seq::empty() })
        + (if k.down { seq![Direction::Down] } else { Seq::empty() })
}

impl MoveKeys {
    /// Whether command `d` is held.
    pub open spec fn holds(self, d: Direction) -> bool {
        match d {
            Direction::Forward => self.forward,
            Direction::Backward => self.backward,
            Direction::Left => self.left,
            Direction::Right => self.right,
            Direction::Up => self.up,
            Direction::Down => self.down,
        }
    }

    /// No key held.
    pub fn new() -> (r: MoveKeys)
        ensures
            forall|d: Direction| !r.holds(d),
    {
        MoveKeys { forward: false, backward: false, left: false, right: false, up: false, down: false }
    }

    /// Records a key-down (`pressed`) or key-up event for `direction`.
    pub fn set(&mut self, direction: Direction, pressed: bool)
        ensures
            forall|d: Direction|
                #[trigger] final(self).holds(d) == if d == direction {
                    pressed
                } else {
                    old(self).holds(d)
                },
    {
        match direction {
            Direction::Forward => self.forward = pressed,
            Direction::Backward => self.backward = pressed,
            Direction::Left => self.left = pressed,
            Direction::Right => self.right = pressed,
            Direction::Up => self.up = pressed,
            Direction::Down => self.down = pressed,
        }
    }

    pub fn is_held(&self, direction: Direction) -> (r: bool)
        ensures
            r == self.holds(direction),
    {
        match direction {
            Direction::Forward => self.forward,
            Direction::Backward => self.backward,
            Direction::Left => self.left,
            Direction::Right => self.right,
            Direction::Up => self.up,
            Direction::Down => self.down,
        }
    }

    /// The held commands, in the fixed order forward, backward, left,
    /// right, up, down.
    pub fn held(&self) -> (r: Vec<Direction>)
        ensures
            r@ == held_seq(*self),
    {
        let mut r: Vec<Direction> = Vec::new();
        if self.forward {
            r.push(Direction::Forward);
        }
        if self.backward {
            r.push(Direction::Backward);
        }
        if self.left {
            r.push(Direction::Left);
        }
        if self.right {
            r.push(Direction::Right);
        }
        if self.up {
            r.push(Direction::Up);
        }
        if self.down {
            r.push(Direction::Down);
        }
        assert(r@ =~= held_seq(*self));
        r
    }
}

} // verus!
