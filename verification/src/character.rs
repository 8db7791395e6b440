//! A fighter as the coordinator sees it.
//!
//! The host owns the full entity: compiled states, variables, input history.
//! A [`Character`] mirrors the part of it that the coordinator reads or writes.

use vstd::prelude::*;

use crate::arith::{clamp, clamped, saturating_sum};
use crate::scalar::{Placement, Scalar, Vec2};

verus! {

/// Which way a fighter faces.
#[derive(Debug, Clone, Copy, PartialEq, Eq, Structural)]
pub enum Facing {
    /// Towards screen-right.
    Right,
    /// Towards screen-left.
    Left,
}

impl Facing {
    /// The other facing.
    pub open spec fn flipped(self) -> Facing {
        match self {
            Facing::Right => Facing::Left,
            Facing::Left => Facing::Right,
        }
    }

    /// `x` as an absolute displacement: unchanged facing right, mirrored facing left.
    pub open spec fn applied(self, x: Scalar) -> Scalar {
        match self {
            Facing::Right => x,
            Facing::Left => x.negated(),
        }
    }

    /// Turns a displacement along the facing into an absolute one.
    pub fn apply(self, x: Scalar) -> (r: Scalar)
        ensures
            r == self.applied(x),
    {
        match self {
            Facing::Right => x,
            Facing::Left => x.neg(),
        }
    }
}

/// The opposite facing.
pub fn facing_opposite(facing: Facing) -> (r: Facing)
    ensures
        r == facing.flipped(),
{
    match facing {
        Facing::Right => Facing::Left,
        Facing::Left => Facing::Right,
    }
}

/// The posture of a fighter.
#[derive(Debug, Clone, Copy, PartialEq, Eq, Structural)]
pub enum StateType {
    /// On its feet.
    Standing,
    /// Crouching.
    Crouching,
    /// Airborne.
    Air,
    /// Lying down.
    Lying,
    /// As in the state before.
    Unchanged,
}

/// What a fighter is doing.
#[derive(Debug, Clone, Copy, PartialEq, Eq, Structural)]
pub enum MoveType {
    /// Nothing.
    Idle,
    /// Attacking.
    Attack,
    /// Reacting to a hit.
    BeingHit,
}

/// How an attack fares against another of the same priority.
#[derive(Debug, Clone, Copy, PartialEq, Eq, Structural)]
pub enum PriorityType {
    /// It hits.
    Hit,
    /// It misses.
    Miss,
    /// It evades.
    Dodge,
}

/// The priority of an attack.
#[derive(Debug, Clone, Copy, PartialEq, Eq, Structural)]
pub struct Priority {
    /// The higher value wins.
    pub value: i32,
    /// What decides between equal values.
    pub kind: PriorityType,
}

/// Where the spark of an attack comes from.
#[derive(Debug, Clone, Copy, PartialEq, Eq, Structural)]
pub enum SparkSource {
    /// There is none.
    NoSpark,
    /// An action of the attacker.
    Own {
        /// The action's number.
        anim: i32,
    },
    /// An action of the common effects.
    Common {
        /// The action's number.
        anim: i32,
    },
}

/// An armed attack.
#[derive(Debug, Clone, Copy, PartialEq, Eq, Structural)]
pub struct HitDef {
    /// The host's handle of the full definition.
    pub attack: u64,
    /// Its priority in a clash.
    pub priority: Priority,
    /// The spark it makes.
    pub spark: SparkSource,
}

/// A per-frame override of the push half-widths.
#[derive(Debug, Clone, Copy, PartialEq)]
pub struct WidthOverride {
    /// Whether the override is in force.
    pub active: bool,
    /// Half-width in front.
    pub front: Scalar,
    /// Half-width behind.
    pub back: Scalar,
}

/// The static push half-widths.
#[derive(Debug, Clone, Copy, PartialEq)]
pub struct BodySize {
    /// Half-width in front.
    pub ground_front: Scalar,
    /// Half-width behind.
    pub ground_back: Scalar,
}

/// The round and match clock that triggers read.
#[derive(Debug, Clone, Copy, PartialEq, Eq, Structural)]
pub struct RoundView {
    /// The phase, as its trigger code.
    pub round_state: i32,
    /// Frames since the match began.
    pub game_time: i32,
    /// Whether the match is decided.
    pub match_over: bool,
    /// The number of the round, from 1.
    pub round_no: i32,
    /// Rounds completed before this one.
    pub rounds_existed: i32,
}

/// Where a fighter's commands come from on its next tick.
#[derive(Debug, Clone, Copy, PartialEq, Eq, Structural)]
pub enum CommandSource {
    /// Nowhere: no command is active.
    NoCommands,
    /// From what its recogniser matched.
    Recognised,
}

/// A fighter, a helper or a projectile, as the coordinator sees it.
#[derive(Debug, Clone, Copy, PartialEq)]
pub struct Character {
    /// The host's handle of the full entity.
    pub entity: u64,
    /// World position.
    pub pos: Vec2,
    /// Velocity.
    pub vel: Vec2,
    /// Facing.
    pub facing: Facing,
    /// Life.
    pub life: i32,
    /// Maximum life.
    pub life_max: i32,
    /// Power.
    pub power: i32,
    /// Maximum power.
    pub power_max: i32,
    /// Current state number.
    pub state_no: i32,
    /// Previous state number.
    pub prev_state_no: i32,
    /// Frames spent in the state.
    pub state_time: i32,
    /// Posture.
    pub state_type: StateType,
    /// Kind of move.
    pub move_type: MoveType,
    /// Whether the player has control.
    pub ctrl: bool,
    /// Whether the fighter holds away from its opponent.
    pub holding_back: bool,
    /// Whether the fighter has hit its opponent and holds it as a target.
    pub has_target: bool,
    /// Current action.
    pub anim: i32,
    /// Zero-based frame of the action.
    pub anim_elem: i32,
    /// Frames the current frame has been shown.
    pub anim_elem_time: i32,
    /// Frames the action has run.
    pub anim_time: i32,
    /// The armed attack, if any.
    pub active_hitdef: Option<HitDef>,
    /// Whether the current move has already made contact.
    pub move_contact: bool,
    /// Frames of hit pause left.
    pub hitpause: i32,
    /// Frames of hit shake left.
    pub shaketime: i32,
    /// Whether automatic turning is suppressed this frame.
    pub no_auto_turn: bool,
    /// The push-width override of this frame.
    pub cur_width: WidthOverride,
    /// The static push widths.
    pub size: BodySize,
    /// 0 for a human, 1 to 8 for the CPU.
    pub ai_level: u8,
    /// The seed last given to the fighter's random stream.
    pub rng_seed: i32,
    /// The clock its triggers read.
    pub round_view: RoundView,
    /// Where its commands come from.
    pub commands: CommandSource,
}

/// Whether a fighter is on its feet and idle, so that it may turn on its own.
pub open spec fn neutral(c: Character) -> bool {
    (c.state_type == StateType::Standing || c.state_type == StateType::Unchanged) && c.move_type
        == MoveType::Idle
}

/// Whether a fighter is neutral: standing, or with an unchanged posture, and idle.
/// One that attacks, is hit, crouches, lies or is airborne keeps its facing.
pub fn is_neutral_facing_state(c: &Character) -> (r: bool)
    ensures
        r == neutral(*c),
{
    matches!(c.state_type, StateType::Standing | StateType::Unchanged) && c.move_type
        == MoveType::Idle
}

/// The facings that make fighters at `ax` and `bx` look at each other. The one
/// further left faces right; at the same X the first faces right.
pub open spec fn facings(ax: Scalar, bx: Scalar) -> (Facing, Facing) {
    if ax.at_most(bx) {
        (Facing::Right, Facing::Left)
    } else {
        (Facing::Left, Facing::Right)
    }
}

/// The facings that make two fighters look at each other.
pub fn facings_toward(ax: Scalar, bx: Scalar) -> (r: (Facing, Facing))
    ensures
        r == facings(ax, bx),
{
    if ax.le(bx) {
        (Facing::Right, Facing::Left)
    } else {
        (Facing::Left, Facing::Right)
    }
}

/// `c` with another facing.
pub open spec fn turned(c: Character, facing: Facing) -> Character {
    Character { facing, ..c }
}

/// Turns two fighters to look at each other, whatever they are doing.
pub fn face_each_other(a: &mut Character, b: &mut Character)
    ensures
        *final(a) == turned(*old(a), facings(old(a).pos.x, old(b).pos.x).0),
        *final(b) == turned(*old(b), facings(old(a).pos.x, old(b).pos.x).1),
{
    let (fa, fb) = facings_toward(a.pos.x, b.pos.x);
    a.facing = fa;
    b.facing = fb;
}

/// `c` turned to `facing` if it is free to turn on its own, else as it is.
pub open spec fn auto_turned(c: Character, facing: Facing) -> Character {
    if neutral(c) && !c.no_auto_turn {
        turned(c, facing)
    } else {
        c
    }
}

/// Turns each of two fighters to look at the other if it is neutral and its
/// automatic turning is not suppressed.
pub fn face_each_other_when_neutral(a: &mut Character, b: &mut Character)
    ensures
        *final(a) == auto_turned(*old(a), facings(old(a).pos.x, old(b).pos.x).0),
        *final(b) == auto_turned(*old(b), facings(old(a).pos.x, old(b).pos.x).1),
{
    let (fa, fb) = facings_toward(a.pos.x, b.pos.x);
    if is_neutral_facing_state(a) && !a.no_auto_turn {
        a.facing = fa;
    }
    if is_neutral_facing_state(b) && !b.no_auto_turn {
        b.facing = fb;
    }
}

/// What a fighter is restored to at the top of every round.
#[derive(Debug, Clone, Copy, PartialEq)]
pub struct RoundResetState {
    /// Start position.
    pub pos: Vec2,
    /// Start facing.
    pub facing: Facing,
    /// Maximum life, to which life is restored.
    pub life_max: i32,
}

impl RoundResetState {
    /// The reset state of a fighter.
    pub open spec fn of(c: Character) -> RoundResetState {
        RoundResetState { pos: c.pos, facing: c.facing, life_max: c.life_max }
    }

    /// Captures the reset state of a fighter.
    pub fn capture(c: &Character) -> (r: RoundResetState)
        ensures
            r == RoundResetState::of(*c),
    {
        RoundResetState { pos: c.pos, facing: c.facing, life_max: c.life_max }
    }
}

/// A fighter at the top of a round: full life, at its start, at rest, standing
/// idle in state 0 on the first frame of action 0, without control, commands or
/// anything left of the combat before. Power, target and identity carry over.
pub open spec fn reset_for_round(c: Character, reset: RoundResetState) -> Character {
    Character {
        life_max: reset.life_max,
        life: reset.life_max,
        pos: reset.pos,
        vel: Vec2::zero_spec(),
        facing: reset.facing,
        state_type: StateType::Standing,
        move_type: MoveType::Idle,
        ctrl: false,
        holding_back: false,
        state_no: 0,
        prev_state_no: 0,
        state_time: 0,
        anim: 0,
        anim_elem: 0,
        anim_elem_time: 0,
        anim_time: 0,
        active_hitdef: None,
        hitpause: 0,
        shaketime: 0,
        move_contact: false,
        commands: CommandSource::NoCommands,
        ..c
    }
}

/// Restores a fighter to the top of a round.
pub fn reset_fighter_for_round(c: &mut Character, reset: RoundResetState)
    ensures
        *final(c) == reset_for_round(*old(c), reset),
{
    c.life_max = reset.life_max;
    c.life = reset.life_max;
    c.pos = reset.pos;
    c.vel = Vec2::zero();
    c.facing = reset.facing;
    c.state_type = StateType::Standing;
    c.move_type = MoveType::Idle;
    c.ctrl = false;
    c.holding_back = false;
    c.state_no = 0;
    c.prev_state_no = 0;
    c.state_time = 0;
    c.anim = 0;
    c.anim_elem = 0;
    c.anim_elem_time = 0;
    c.anim_time = 0;
    c.active_hitdef = None;
    c.hitpause = 0;
    c.shaketime = 0;
    c.move_contact = false;
    c.commands = CommandSource::NoCommands;
}

/// Something a fighter does to the opponent it holds as a target.
#[derive(Debug, Clone, Copy, PartialEq)]
pub enum TargetOp {
    /// Send the target into one of its own states.
    State(i32),
    /// Pin the target at an offset from the binder.
    Bind {
        /// Frames the bind was asked for; it is renewed on every frame.
        time: i32,
        /// The offset, along the binder's facing.
        pos: Vec2,
    },
    /// Add to the target's life.
    LifeAdd {
        /// What to add.
        value: i32,
        /// Whether it may kill.
        kill: bool,
    },
    /// Face the target as the binder faces, or the other way if negative.
    Facing(i32),
    /// Set the target's velocity.
    VelSet(Vec2),
    /// Add to the target's velocity.
    VelAdd(Vec2),
    /// Add to the target's power.
    PowerAdd(i32),
}

/// What a [`TargetOp`] needs of the host.
#[derive(Debug, Clone, Copy, PartialEq)]
pub enum TargetWork {
    /// Enter the state in the target's own state graph.
    EnterState(i32),
    /// Add up the position the target is pinned at.
    Pin(Placement),
    /// Add up the target's new velocity.
    Accelerate(Placement),
}

/// What an operation needs of the host; `None` where it needs nothing.
pub open spec fn work_of(binder: Character, target: Character, op: TargetOp) -> Option<TargetWork> {
    match op {
        TargetOp::State(value) => Some(TargetWork::EnterState(value)),
        TargetOp::Bind { time, pos } => Some(
            TargetWork::Pin(
                Placement {
                    anchor: binder.pos,
                    shift: Vec2 { x: binder.facing.applied(pos.x), y: pos.y },
                },
            ),
        ),
        TargetOp::VelAdd(v) => Some(
            TargetWork::Accelerate(Placement { anchor: target.vel, shift: v }),
        ),
        _ => None,
    }
}

/// Life after `value` is added to it: within `[floor, max(life_max, floor)]`,
/// where the floor is 0 if the change may kill and 1 if not.
pub open spec fn life_after(life: i32, life_max: i32, value: i32, kill: bool) -> i32 {
    let floor: int = if kill {
        0
    } else {
        1
    };
    let top = if life_max > floor {
        life_max as int
    } else {
        floor
    };
    clamped(life + value, floor, top) as i32
}

/// Power after `value` is added to it: within `[0, max(power_max, 0)]`.
pub open spec fn power_after(power: i32, power_max: i32, value: i32) -> i32 {
    let top = if power_max > 0 {
        power_max as int
    } else {
        0
    };
    clamped(power + value, 0, top) as i32
}

/// The target after an operation that needs nothing of the host.
pub open spec fn after_op(binder: Character, target: Character, op: TargetOp) -> Character {
    match op {
        TargetOp::LifeAdd { value, kill } => Character {
            life: life_after(target.life, target.life_max, value, kill),
            ..target
        },
        TargetOp::Facing(value) => turned(
            target,
            if value >= 0 {
                binder.facing
            } else {
                binder.facing.flipped()
            },
        ),
        TargetOp::VelSet(v) => Character { vel: v, ..target },
        TargetOp::PowerAdd(value) => Character {
            power: power_after(target.power, target.power_max, value),
            ..target
        },
        _ => target,
    }
}

/// Applies one operation, or says what it needs of the host. In that case the
/// target is left alone.
pub fn apply_target_op(binder: &Character, target: &mut Character, op: TargetOp) -> (r: Option<
    TargetWork,
>)
    ensures
        r == work_of(*binder, *old(target), op),
        *final(target) == after_op(*binder, *old(target), op),
{
    match op {
        TargetOp::State(value) => Some(TargetWork::EnterState(value)),
        TargetOp::Bind { time: _, pos } => Some(
            TargetWork::Pin(
                Placement {
                    anchor: binder.pos,
                    shift: Vec2 { x: binder.facing.apply(pos.x), y: pos.y },
                },
            ),
        ),
        TargetOp::LifeAdd { value, kill } => {
            let floor: i32 = if kill {
                0
            } else {
                1
            };
            let top: i32 = if target.life_max > floor {
                target.life_max
            } else {
                floor
            };
            target.life = clamp(saturating_sum(target.life, value), floor, top);
            None
        },
        TargetOp::Facing(value) => {
            target.facing = if value >= 0 {
                binder.facing
            } else {
                facing_opposite(binder.facing)
            };
            None
        },
        TargetOp::VelSet(v) => {
            target.vel = v;
            None
        },
        TargetOp::VelAdd(v) => Some(
            TargetWork::Accelerate(Placement { anchor: target.vel, shift: v }),
        ),
        TargetOp::PowerAdd(value) => {
            let top: i32 = if target.power_max > 0 {
                target.power_max
            } else {
                0
            };
            target.power = clamp(saturating_sum(target.power, value), 0, top);
            None
        },
    }
}

/// The index of the first operation from `from` on that needs the host; the
/// number of operations if none does.
pub open spec fn next_work(ops: Seq<TargetOp>, from: int) -> int
    decreases ops.len() - from,
{
    if from >= ops.len() {
        ops.len() as int
    } else if needs_host(ops[from]) {
        from
    } else {
        next_work(ops, from + 1)
    }
}

/// Whether an operation needs the host.
pub open spec fn needs_host(op: TargetOp) -> bool {
    op is State || op is Bind || op is VelAdd
}

/// The target after the operations from `from` up to the next that needs the host.
pub open spec fn after_ops(
    binder: Character,
    target: Character,
    ops: Seq<TargetOp>,
    from: int,
) -> Character
    decreases ops.len() - from,
{
    if from >= ops.len() || needs_host(ops[from]) {
        target
    } else {
        after_ops(binder, after_op(binder, target, ops[from]), ops, from + 1)
    }
}

/// Applies a binder's operations to its target, in order, from index `from` on,
/// and stops at the first that needs the host. Returns the index it stopped at,
/// with the work it needs, or the number of operations and no work if all are done.
pub fn apply_target_ops(
    binder: &Character,
    target: &mut Character,
    ops: &Vec<TargetOp>,
    from: usize,
) -> (r: (usize, Option<TargetWork>))
    requires
        from <= ops@.len(),
    ensures
        r.0 == next_work(ops@, from as int),
        r.0 <= ops@.len(),
        *final(target) == after_ops(*binder, *old(target), ops@, from as int),
        r.1 == if r.0 < ops@.len() {
            work_of(*binder, *final(target), ops@[r.0 as int])
        } else {
            None
        },
        r.1 is Some == (r.0 < ops@.len()),
{
    let mut i: usize = from;
    while i < ops.len()
        invariant
            from <= i <= ops@.len(),
            next_work(ops@, i as int) == next_work(ops@, from as int),
            after_ops(*binder, *target, ops@, i as int) == after_ops(
                *binder,
                *old(target),
                ops@,
                from as int,
            ),
        decreases ops.len() - i,
    {
        let work = apply_target_op(binder, target, ops[i]);
        if work.is_some() {
            return (i, work);
        }
        i = i + 1;
    }
    (i, None)
}

/// Two fighters that are turned to each other face opposite ways, and the one
/// further left faces right.
pub proof fn facings_meet(ax: Scalar, bx: Scalar)
    ensures
        facings(ax, bx).0 == facings(ax, bx).1.flipped(),
        ax.at_most(bx) ==> facings(ax, bx).0 == Facing::Right,
        !ax.at_most(bx) && !ax.nan() && !bx.nan() ==> facings(ax, bx).0 == Facing::Left,
{
}

/// Turning round twice is not turning at all.
pub proof fn flipped_twice(facing: Facing)
    ensures
        facing.flipped().flipped() == facing,
        facing.flipped() != facing,
{
}

/// Life stays between its floor and its maximum, and a change that may not kill
/// leaves some. In between it is the plain sum.
pub proof fn life_stays_in_range(life: i32, life_max: i32, value: i32, kill: bool)
    ensures
        ({
            let after = life_after(life, life_max, value, kill);
            &&& after >= 0
            &&& !kill ==> after >= 1
            &&& life_max >= 1 ==> after <= life_max
            &&& 1 <= life + value <= life_max ==> after == life + value
        }),
{
}

/// Power stays between zero and its maximum. In between it is the plain sum.
pub proof fn power_stays_in_range(power: i32, power_max: i32, value: i32)
    ensures
        ({
            let after = power_after(power, power_max, value);
            &&& after >= 0
            &&& power_max >= 0 ==> after <= power_max
            &&& 0 <= power + value <= power_max ==> after == power + value
        }),
{
}

/// Target operations that need nothing of the host touch only the target's life,
/// power, facing and velocity.
pub proof fn ops_touch_little(binder: Character, target: Character, ops: Seq<TargetOp>, from: int)
    ensures
        ({
            let after = after_ops(binder, target, ops, from);
            after == (Character {
                life: after.life,
                power: after.power,
                facing: after.facing,
                vel: after.vel,
                ..target
            })
        }),
    decreases ops.len() - from,
{
    if !(from >= ops.len() || needs_host(ops[from])) {
        ops_touch_little(binder, after_op(binder, target, ops[from]), ops, from + 1);
    }
}

/// Whether a target operation has been done: to nothing but what it is about, and
/// there in full. Life and power are the plain sum within their bounds and the bound
/// outside; life ends at 0, or at 1 where the change may not kill.
pub open spec fn op_done(
    binder: Character,
    target: Character,
    op: TargetOp,
    after: Character,
) -> bool {
    match op {
        TargetOp::LifeAdd { value, kill } => {
            let floor: int = if kill {
                0
            } else {
                1
            };
            let sum = target.life + value;
            &&& after == (Character { life: after.life, ..target })
            &&& sum <= floor ==> after.life == floor
            &&& floor < sum <= target.life_max ==> after.life == sum
            &&& sum > floor && sum > target.life_max && target.life_max >= floor ==> after.life
                == target.life_max
            &&& target.life_max < floor ==> after.life == floor
        },
        TargetOp::PowerAdd(value) => {
            let sum = target.power + value;
            &&& after == (Character { power: after.power, ..target })
            &&& sum <= 0 ==> after.power == 0
            &&& 0 < sum <= target.power_max ==> after.power == sum
            &&& sum > 0 && sum > target.power_max && target.power_max >= 0 ==> after.power
                == target.power_max
            &&& target.power_max < 0 ==> after.power == 0
        },
        TargetOp::Facing(value) => {
            &&& after == (Character { facing: after.facing, ..target })
            &&& after.facing == binder.facing <==> value >= 0
        },
        TargetOp::VelSet(v) => after == (Character { vel: v, ..target }),
        _ => false,
    }
}

/// Target operations are done in order, each to what the ones before have left, up to
/// the first that needs the host.
pub proof fn target_ops_go_in_order(
    binder: Character,
    target: Character,
    ops: Seq<TargetOp>,
    from: int,
)
    ensures
        from >= ops.len() ==> after_ops(binder, target, ops, from) == target,
        0 <= from < ops.len() && (ops[from] is State || ops[from] is Bind || ops[from] is VelAdd)
            ==> after_ops(binder, target, ops, from) == target,
        0 <= from < ops.len() && !(ops[from] is State || ops[from] is Bind || ops[from] is VelAdd)
            ==> exists|mid: Character|
            {
                &&& #[trigger] op_done(binder, target, ops[from], mid)
                &&& after_ops(binder, target, ops, from) == after_ops(binder, mid, ops, from + 1)
            },
{
    if 0 <= from < ops.len() {
        let mid = after_op(binder, target, ops[from]);
        if !needs_host(ops[from]) {
            assert(op_done(binder, target, ops[from], mid));
        }
    }
}

/// A fighter at the top of a round is as it should be in every respect: restored in
/// all that belongs to the round before, and the same in all that does not.
pub proof fn rounds_start_afresh(c: Character, reset: RoundResetState)
    ensures
        ({
            let after = reset_for_round(c, reset);
            &&& after.life == reset.life_max && after.life_max == reset.life_max
            &&& after.pos == reset.pos && after.facing == reset.facing
            &&& after.vel.x.bits == 0 && after.vel.y.bits == 0
            &&& after.state_type == StateType::Standing && after.move_type == MoveType::Idle
            &&& !after.ctrl && !after.holding_back && !after.move_contact
            &&& after.state_no == 0 && after.prev_state_no == 0 && after.state_time == 0
            &&& after.anim == 0 && after.anim_elem == 0 && after.anim_elem_time == 0
            &&& after.anim_time == 0 && after.hitpause == 0 && after.shaketime == 0
            &&& after.active_hitdef is None
            &&& after.commands == CommandSource::NoCommands
            &&& after.entity == c.entity && after.size == c.size
            &&& after.power == c.power && after.power_max == c.power_max
            &&& after.has_target == c.has_target
            &&& after.no_auto_turn == c.no_auto_turn && after.cur_width == c.cur_width
            &&& after.ai_level == c.ai_level && after.rng_seed == c.rng_seed
            &&& after.round_view == c.round_view
        }),
{
}

/// A round gives back what a fighter was when the match began.
pub proof fn resets_remember_the_start(c: Character)
    ensures
        RoundResetState::of(c).pos == c.pos,
        RoundResetState::of(c).facing == c.facing,
        RoundResetState::of(c).life_max == c.life_max,
{
}

} // verus!
