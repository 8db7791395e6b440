//! The training-mode dummy: a stance, and the input it feeds on each frame.
//!
//! A guarding dummy holds the absolute direction away from its opponent. The
//! direction is worked out anew on every frame from where the opponent stands,
//! so the dummy still blocks after an attacker has jumped over it.

use vstd::prelude::*;

use crate::input::{guards, MatchInput};

verus! {

/// How a training-mode dummy behaves.
#[derive(Debug, Clone, Copy, PartialEq, Eq, Structural)]
pub enum DummyMode {
    /// Stand idle.
    Stand,
    /// Hold down.
    Crouch,
    /// Pulse up, so that the fighter jumps again and again.
    JumpLoop,
    /// Hold away from the opponent.
    BlockAll,
    /// Stand until hit, then hold away from the opponent.
    BlockAfterFirst,
    /// Leave the slot to the CPU.
    Cpu,
}

/// Frames of each jump cycle on which up is held.
pub const JUMP_HOLD_TICKS: u64 = 4;

/// Frames in a jump cycle.
pub const JUMP_PERIOD_TICKS: u64 = 30;

impl Default for DummyMode {
    fn default() -> (r: DummyMode)
        ensures
            r == DummyMode::Stand,
    {
        DummyMode::Stand
    }
}

impl DummyMode {
    /// The label of a mode.
    pub open spec fn label_spec(self) -> Seq<char> {
        match self {
            DummyMode::Stand => "STAND"@,
            DummyMode::Crouch => "CROUCH"@,
            DummyMode::JumpLoop => "JUMP"@,
            DummyMode::BlockAll => "BLOCK ALL"@,
            DummyMode::BlockAfterFirst => "BLOCK AFTER 1ST"@,
            DummyMode::Cpu => "CPU"@,
        }
    }

    /// The mode after this one in the cycle.
    pub open spec fn next(self) -> DummyMode {
        match self {
            DummyMode::Stand => DummyMode::Crouch,
            DummyMode::Crouch => DummyMode::JumpLoop,
            DummyMode::JumpLoop => DummyMode::BlockAll,
            DummyMode::BlockAll => DummyMode::BlockAfterFirst,
            DummyMode::BlockAfterFirst => DummyMode::Cpu,
            DummyMode::Cpu => DummyMode::Stand,
        }
    }

    /// The mode reached by `n` steps of the cycle.
    pub open spec fn after(self, n: nat) -> DummyMode
        decreases n,
    {
        if n == 0 {
            self
        } else {
            self.after((n - 1) as nat).next()
        }
    }

    /// Whether the slot is driven by the CPU rather than by [`dummy_input`].
    pub fn is_cpu(self) -> (r: bool)
        ensures
            r == (self == DummyMode::Cpu),
    {
        matches!(self, DummyMode::Cpu)
    }

    /// A short label for a menu.
    pub fn label(self) -> (r: &'static str)
        ensures
            r@ == self.label_spec(),
    {
        match self {
            DummyMode::Stand => "STAND",
            DummyMode::Crouch => "CROUCH",
            DummyMode::JumpLoop => "JUMP",
            DummyMode::BlockAll => "BLOCK ALL",
            DummyMode::BlockAfterFirst => "BLOCK AFTER 1ST",
            DummyMode::Cpu => "CPU",
        }
    }

    /// The next mode in a fixed cycle through all of them.
    pub fn cycle_next(self) -> (r: DummyMode)
        ensures
            r == self.next(),
    {
        match self {
            DummyMode::Stand => DummyMode::Crouch,
            DummyMode::Crouch => DummyMode::JumpLoop,
            DummyMode::JumpLoop => DummyMode::BlockAll,
            DummyMode::BlockAll => DummyMode::BlockAfterFirst,
            DummyMode::BlockAfterFirst => DummyMode::Cpu,
            DummyMode::Cpu => DummyMode::Stand,
        }
    }
}

/// `input` with the direction held that leads away from the opponent.
pub open spec fn blocking(input: MatchInput, opponent_on_right: bool) -> MatchInput {
    if opponent_on_right {
        MatchInput { left: true, ..input }
    } else {
        MatchInput { right: true, ..input }
    }
}

/// The input a dummy feeds.
pub open spec fn dummy_input_spec(
    mode: DummyMode,
    opponent_on_right: bool,
    was_hit: bool,
    tick: u64,
) -> MatchInput {
    let none = MatchInput::neutral();
    match mode {
        DummyMode::Stand | DummyMode::Cpu => none,
        DummyMode::Crouch => MatchInput { down: true, ..none },
        DummyMode::JumpLoop => MatchInput {
            up: (tick as int) % (JUMP_PERIOD_TICKS as int) < JUMP_HOLD_TICKS,
            ..none
        },
        DummyMode::BlockAll => blocking(none, opponent_on_right),
        DummyMode::BlockAfterFirst => if was_hit {
            blocking(none, opponent_on_right)
        } else {
            none
        },
    }
}

/// The input a dummy feeds this frame.
///
/// `opponent_on_right` says on which side the opponent stands, `was_hit` whether
/// the dummy has taken a hit in this combo, and `tick` counts frames. For
/// [`DummyMode::Cpu`] the result is neutral: the caller feeds the CPU's input.
pub fn dummy_input(
    mode: DummyMode,
    opponent_on_right: bool,
    was_hit: bool,
    tick: u64,
) -> (r: MatchInput)
    ensures
        r == dummy_input_spec(mode, opponent_on_right, was_hit, tick),
{
    let mut input = MatchInput::none();
    match mode {
        DummyMode::Stand | DummyMode::Cpu => {},
        DummyMode::Crouch => {
            input.down = true;
        },
        DummyMode::JumpLoop => {
            if tick % JUMP_PERIOD_TICKS < JUMP_HOLD_TICKS {
                input.up = true;
            }
        },
        DummyMode::BlockAll => {
            set_block(&mut input, opponent_on_right);
        },
        DummyMode::BlockAfterFirst => {
            if was_hit {
                set_block(&mut input, opponent_on_right);
            }
        },
    }
    input
}

/// Holds the direction away from the opponent.
pub fn set_block(input: &mut MatchInput, opponent_on_right: bool)
    ensures
        *final(input) == blocking(*old(input), opponent_on_right),
{
    if opponent_on_right {
        input.left = true;
    } else {
        input.right = true;
    }
}

/// The cycle comes back to every mode after six steps, and no earlier.
pub proof fn cycle_has_six_modes(mode: DummyMode, n: nat)
    requires
        0 < n <= 6,
    ensures
        mode.after(n) == mode <==> n == 6,
{
    reveal_with_fuel(DummyMode::after, 7);
}

/// The cycle visits every mode from every other.
pub proof fn cycle_visits_every_mode(from: DummyMode, to: DummyMode)
    ensures
        exists|n: nat| n < 6 && from.after(n) == to,
{
    reveal_with_fuel(DummyMode::after, 7);
    assert(from.after(0) == to || from.after(1) == to || from.after(2) == to || from.after(3) == to
        || from.after(4) == to || from.after(5) == to);
}

/// A dummy that stands, or leaves its slot to the CPU, feeds nothing.
pub proof fn idle_modes_feed_nothing(
    mode: DummyMode,
    opponent_on_right: bool,
    was_hit: bool,
    tick: u64,
)
    requires
        mode == DummyMode::Stand || mode == DummyMode::Cpu,
    ensures
        dummy_input_spec(mode, opponent_on_right, was_hit, tick) == MatchInput::neutral(),
{
}

/// A dummy that guards everything holds exactly the direction away from its
/// opponent, whatever else is the case. On the other side of it the direction
/// flips.
pub proof fn guard_leads_away(opponent_on_right: bool, was_hit: bool, tick: u64)
    ensures
        ({
            let input = dummy_input_spec(DummyMode::BlockAll, opponent_on_right, was_hit, tick);
            &&& input.left == opponent_on_right
            &&& input.right == !opponent_on_right
            &&& input == (MatchInput {
                left: input.left,
                right: input.right,
                ..MatchInput::neutral()
            })
        }),
{
}

/// A guarding dummy that faces its opponent blocks, on whichever side it stands.
pub proof fn guard_blocks(opponent_on_right: bool, was_hit: bool, tick: u64)
    ensures
        guards(
            dummy_input_spec(DummyMode::BlockAll, opponent_on_right, was_hit, tick),
            opponent_on_right,
        ),
{
}

/// A dummy that guards after the first hit stands until then, and guards
/// everything from then on.
pub proof fn guard_waits_for_the_first_hit(opponent_on_right: bool, tick: u64)
    ensures
        dummy_input_spec(DummyMode::BlockAfterFirst, opponent_on_right, false, tick)
            == MatchInput::neutral(),
        dummy_input_spec(DummyMode::BlockAfterFirst, opponent_on_right, true, tick)
            == dummy_input_spec(DummyMode::BlockAll, opponent_on_right, true, tick),
{
}

/// A jumping dummy repeats itself with every cycle, and within a cycle holds up on
/// its first frames and then releases it.
pub proof fn jump_repeats(opponent_on_right: bool, was_hit: bool, cycle: nat, tick: u64)
    requires
        tick < JUMP_PERIOD_TICKS,
        cycle * JUMP_PERIOD_TICKS + tick <= u64::MAX,
    ensures
        dummy_input_spec(
            DummyMode::JumpLoop,
            opponent_on_right,
            was_hit,
            (cycle * JUMP_PERIOD_TICKS + tick) as u64,
        ) == (MatchInput { up: tick < JUMP_HOLD_TICKS, ..MatchInput::neutral() }),
{
    vstd::arithmetic::div_mod::lemma_fundamental_div_mod_converse(
        cycle * JUMP_PERIOD_TICKS + tick,
        JUMP_PERIOD_TICKS as int,
        cycle as int,
        tick as int,
    );
}

/// A crouching dummy holds down and nothing else.
pub proof fn crouching_holds_down(opponent_on_right: bool, was_hit: bool, tick: u64)
    ensures
        dummy_input_spec(DummyMode::Crouch, opponent_on_right, was_hit, tick) == (MatchInput {
            down: true,
            ..MatchInput::neutral()
        }),
{
}

} // verus!
