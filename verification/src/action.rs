use vstd::prelude::*;

verus! {

/// One of the four mutually exclusive decisions the agent can emit each turn.
///
/// The declaration order (`Left`, `Right`, `Down`, `Up`) is the fixed
/// enumeration order: every scan and every tie-break in the aggregator walks
/// the actions in this order, so the order is part of the documented
/// behaviour.
#[derive(Clone, Copy, Debug, PartialEq, Eq, Structural)]
pub enum Action {
    Left,
    Right,
    Down,
    Up,
}

impl Action {
    /// Position of the action in the fixed enumeration order.
    pub open spec fn ordinal(self) -> int {
        match self {
            Action::Left => 0,
            Action::Right => 1,
            Action::Down => 2,
            Action::Up => 3,
        }
    }

    /// The action standing at a given position of the fixed enumeration
    /// order; positions outside `0..4` are mapped to `Up`.
    pub open spec fn from_ordinal(i: int) -> Action {
        if i == 0 {
            Action::Left
        } else if i == 1 {
            Action::Right
        } else if i == 2 {
            Action::Down
        } else {
            Action::Up
        }
    }

    /// Position of the action in the fixed enumeration order.
    pub fn index(&self) -> (r: usize)
        ensures
            r == self.ordinal(),
    {
        match self {
            Action::Left => 0,
            Action::Right => 1,
            Action::Down => 2,
            Action::Up => 3,
        }
    }

    /// The textual token by which the action is sent to the game controller.
    pub fn label(&self) -> (r: &'static str)
        ensures
            r@ == self.label_spec(),
    {
        match self {
            Action::Left => "LEFT",
            Action::Right => "RIGHT",
            Action::Down => "DOWN",
            Action::Up => "UP",
        }
    }

    /// The view of the textual token of the action.
    pub open spec fn label_spec(self) -> Seq<char> {
        match self {
            Action::Left => "LEFT"@,
            Action::Right => "RIGHT"@,
            Action::Down => "DOWN"@,
            Action::Up => "UP"@,
        }
    }
}

} // verus!
