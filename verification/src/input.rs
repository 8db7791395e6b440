//! One frame of input, in absolute screen directions and relative to a facing.

use vstd::prelude::*;

verus! {

/// One frame of player input. Directions are absolute screen directions, not
/// towards or away from the opponent.
#[derive(Debug, Clone, Copy, PartialEq, Eq, Structural)]
pub struct MatchInput {
    /// Holding left.
    pub left: bool,
    /// Holding right.
    pub right: bool,
    /// Holding up.
    pub up: bool,
    /// Holding down.
    pub down: bool,
    /// Button `a` is pressed.
    pub a: bool,
    /// Button `b` is pressed.
    pub b: bool,
    /// Button `c` is pressed.
    pub c: bool,
    /// Button `x` is pressed.
    pub x: bool,
    /// Button `y` is pressed.
    pub y: bool,
    /// Button `z` is pressed.
    pub z: bool,
}

impl MatchInput {
    /// The input with nothing held or pressed.
    pub open spec fn neutral() -> MatchInput {
        MatchInput {
            left: false,
            right: false,
            up: false,
            down: false,
            a: false,
            b: false,
            c: false,
            x: false,
            y: false,
            z: false,
        }
    }

    /// An input with nothing held or pressed.
    pub fn none() -> (r: MatchInput)
        ensures
            r == MatchInput::neutral(),
    {
        MatchInput {
            left: false,
            right: false,
            up: false,
            down: false,
            a: false,
            b: false,
            c: false,
            x: false,
            y: false,
            z: false,
        }
    }
}

impl Default for MatchInput {
    fn default() -> (r: MatchInput)
        ensures
            r == MatchInput::neutral(),
    {
        MatchInput::none()
    }
}

/// The buttons of a controller.
#[derive(Debug, Clone, Copy, PartialEq, Eq, Structural)]
pub enum Button {
    /// Light kick.
    A,
    /// Medium kick.
    B,
    /// Strong kick.
    C,
    /// Light punch.
    X,
    /// Medium punch.
    Y,
    /// Strong punch.
    Z,
    /// Start.
    Start,
}

/// Absolute directions held on one frame.
#[derive(Debug, Clone, Copy, PartialEq, Eq, Structural)]
pub struct Direction {
    /// Holding up.
    pub up: bool,
    /// Holding down.
    pub down: bool,
    /// Holding left.
    pub left: bool,
    /// Holding right.
    pub right: bool,
}

/// One sample of a controller: absolute directions and all buttons.
#[derive(Debug, Clone, Copy, PartialEq, Eq, Structural)]
pub struct InputState {
    /// The directions held.
    pub direction: Direction,
    /// Button `a`.
    pub a: bool,
    /// Button `b`.
    pub b: bool,
    /// Button `c`.
    pub c: bool,
    /// Button `x`.
    pub x: bool,
    /// Button `y`.
    pub y: bool,
    /// Button `z`.
    pub z: bool,
    /// The start button.
    pub start: bool,
}

impl InputState {
    /// Whether a button is held.
    pub open spec fn holds(self, button: Button) -> bool {
        match button {
            Button::A => self.a,
            Button::B => self.b,
            Button::C => self.c,
            Button::X => self.x,
            Button::Y => self.y,
            Button::Z => self.z,
            Button::Start => self.start,
        }
    }

    /// Whether `button` is held.
    pub fn button(&self, button: Button) -> (r: bool)
        ensures
            r == self.holds(button),
    {
        match button {
            Button::A => self.a,
            Button::B => self.b,
            Button::C => self.c,
            Button::X => self.x,
            Button::Y => self.y,
            Button::Z => self.z,
            Button::Start => self.start,
        }
    }

    /// Holds or releases `button` and leaves everything else as it is.
    pub fn set_button(&mut self, button: Button, held: bool)
        ensures
            final(self).direction == old(self).direction,
            forall|other: Button| #[trigger]
                final(self).holds(other) == if other == button {
                    held
                } else {
                    old(self).holds(other)
                },
    {
        match button {
            Button::A => {
                self.a = held;
            },
            Button::B => {
                self.b = held;
            },
            Button::C => {
                self.c = held;
            },
            Button::X => {
                self.x = held;
            },
            Button::Y => {
                self.y = held;
            },
            Button::Z => {
                self.z = held;
            },
            Button::Start => {
                self.start = held;
            },
        }
    }
}

impl Default for InputState {
    fn default() -> (r: InputState)
        ensures
            r == raw_sample(MatchInput::neutral()),
    {
        InputState {
            direction: Direction { up: false, down: false, left: false, right: false },
            a: false,
            b: false,
            c: false,
            x: false,
            y: false,
            z: false,
            start: false,
        }
    }
}

/// The sample with the directions and buttons of `input`, and no start button.
pub open spec fn raw_sample(input: MatchInput) -> InputState {
    InputState {
        direction: Direction {
            up: input.up,
            down: input.down,
            left: input.left,
            right: input.right,
        },
        a: input.a,
        b: input.b,
        c: input.c,
        x: input.x,
        y: input.y,
        z: input.z,
        start: false,
    }
}

/// The input with the directions and attack buttons of a sample.
pub open spec fn folded(s: InputState) -> MatchInput {
    MatchInput {
        left: s.direction.left,
        right: s.direction.right,
        up: s.direction.up,
        down: s.direction.down,
        a: s.a,
        b: s.b,
        c: s.c,
        x: s.x,
        y: s.y,
        z: s.z,
    }
}

/// Builds the raw sample of an input. Directions stay absolute: facing is
/// resolved only where a command is recognised.
pub fn match_input_to_state(input: MatchInput) -> (r: InputState)
    ensures
        r == raw_sample(input),
{
    let mut state = InputState::default();
    state.direction = Direction {
        up: input.up,
        down: input.down,
        left: input.left,
        right: input.right,
    };
    state.a = input.a;
    state.b = input.b;
    state.c = input.c;
    state.x = input.x;
    state.y = input.y;
    state.z = input.z;
    state
}

impl From<InputState> for MatchInput {
    /// Folds a controller sample into an input. The start button is dropped.
    fn from(s: InputState) -> (r: MatchInput) {
        MatchInput {
            left: s.direction.left,
            right: s.direction.right,
            up: s.direction.up,
            down: s.direction.down,
            a: s.button(Button::A),
            b: s.button(Button::B),
            c: s.button(Button::C),
            x: s.button(Button::X),
            y: s.button(Button::Y),
            z: s.button(Button::Z),
        }
    }
}

impl vstd::std_specs::convert::FromSpecImpl<InputState> for MatchInput {
    open spec fn obeys_from_spec() -> bool {
        true
    }

    open spec fn from_spec(s: InputState) -> MatchInput {
        folded(s)
    }
}

/// Horizontal directions relative to a facing.
#[derive(Debug, Clone, Copy, PartialEq, Eq, Structural)]
pub struct LogicalDirection {
    /// Holding the way the fighter faces.
    pub forward: bool,
    /// Holding the other way.
    pub back: bool,
}

/// `direction` as a fighter reads it that faces right, or left.
pub open spec fn relative(direction: Direction, facing_right: bool) -> LogicalDirection {
    if facing_right {
        LogicalDirection { forward: direction.right, back: direction.left }
    } else {
        LogicalDirection { forward: direction.left, back: direction.right }
    }
}

/// Resolves absolute directions against a facing.
pub fn logical_direction(direction: &Direction, facing_right: bool) -> (r: LogicalDirection)
    ensures
        r == relative(*direction, facing_right),
{
    if facing_right {
        LogicalDirection { forward: direction.right, back: direction.left }
    } else {
        LogicalDirection { forward: direction.left, back: direction.right }
    }
}

/// Whether an input blocks for a fighter that faces right, or left: back is
/// held, and forward is not.
pub open spec fn guards(input: MatchInput, facing_right: bool) -> bool {
    let d = relative(raw_sample(input).direction, facing_right);
    d.back && !d.forward
}

/// An input survives the way through a raw sample and back.
pub proof fn sample_round_trip(input: MatchInput)
    ensures
        folded(raw_sample(input)) == input,
{
}

/// Folding a sample keeps every direction and every attack button, each in its own
/// place.
pub proof fn folding_keeps_everything(s: InputState)
    ensures
        folded(s).left == s.direction.left && folded(s).right == s.direction.right,
        folded(s).up == s.direction.up && folded(s).down == s.direction.down,
        folded(s).a == s.holds(Button::A) && folded(s).b == s.holds(Button::B),
        folded(s).c == s.holds(Button::C) && folded(s).x == s.holds(Button::X),
        folded(s).y == s.holds(Button::Y) && folded(s).z == s.holds(Button::Z),
        s.holds(Button::Start) == s.start,
{
}

/// Back is the other way than forward, and which is which depends on the facing.
pub proof fn directions_depend_on_the_facing(d: Direction)
    ensures
        relative(d, true).forward == d.right && relative(d, true).back == d.left,
        relative(d, false).forward == d.left && relative(d, false).back == d.right,
{
}

} // verus!
