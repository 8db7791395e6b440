//! How snapshots are laid out for the codec.
//!
//! Every enumeration is laid out as the index of its variant, so reading may meet
//! an index that stands for nothing.

use vstd::prelude::*;

use crate::air::SpriteId;
use crate::character::{
    CommandSource, Facing, HitDef, MoveType, Priority, PriorityType, RoundResetState, RoundView,
    SparkSource, StateType, WidthOverride,
};
use crate::codec::{
    snapshot_parts, CharacterWire, EffectWire, FlowWire, HitDefWire, ResetWire, SnapshotParts,
    SnapshotWire,
};
use crate::effect::{Effect, EffectSide};
use crate::freeze::{Freeze, FreezeExempt};
use crate::player::CharacterFingerprint;
use crate::replay::{bounds_from_wire, bounds_to_wire, bounds_wire, wire_bounds};
use crate::round::{MatchState, RoundState, Side, Winner};
use crate::scalar::{Offset, Scalar, Vec2};
use crate::snapshot::{CharacterSnapshot, MatchSnapshot, PlayerSnapshot, SnapshotModel};

verus! {

/// The index of a facing.
pub open spec fn facing_tag(v: Facing) -> u32 {
    match v {
        Facing::Right => 0,
        Facing::Left => 1,
    }
}

/// What an index of a facing stands for.
pub open spec fn facing_of(tag: u32) -> Option<Facing> {
    if tag == 0 {
        Some(Facing::Right)
    } else if tag == 1 {
        Some(Facing::Left)
    } else {
        None
    }
}

/// The index of a facing.
pub fn facing_to_tag(v: Facing) -> (r: u32)
    ensures
        r == facing_tag(v),
{
    match v {
        Facing::Right => 0,
        Facing::Left => 1,
    }
}

/// Reads an index of a facing.
pub fn facing_from_tag(tag: u32) -> (r: Option<Facing>)
    ensures
        r == facing_of(tag),
{
    if tag == 0 {
        Some(Facing::Right)
    } else if tag == 1 {
        Some(Facing::Left)
    } else {
        None
    }
}

/// The index of a posture.
pub open spec fn posture_tag(v: StateType) -> u32 {
    match v {
        StateType::Standing => 0,
        StateType::Crouching => 1,
        StateType::Air => 2,
        StateType::Lying => 3,
        StateType::Unchanged => 4,
    }
}

/// What an index of a posture stands for.
pub open spec fn posture_of(tag: u32) -> Option<StateType> {
    if tag == 0 {
        Some(StateType::Standing)
    } else if tag == 1 {
        Some(StateType::Crouching)
    } else if tag == 2 {
        Some(StateType::Air)
    } else if tag == 3 {
        Some(StateType::Lying)
    } else if tag == 4 {
        Some(StateType::Unchanged)
    } else {
        None
    }
}

/// The index of a posture.
pub fn posture_to_tag(v: StateType) -> (r: u32)
    ensures
        r == posture_tag(v),
{
    match v {
        StateType::Standing => 0,
        StateType::Crouching => 1,
        StateType::Air => 2,
        StateType::Lying => 3,
        StateType::Unchanged => 4,
    }
}

/// Reads an index of a posture.
pub fn posture_from_tag(tag: u32) -> (r: Option<StateType>)
    ensures
        r == posture_of(tag),
{
    if tag == 0 {
        Some(StateType::Standing)
    } else if tag == 1 {
        Some(StateType::Crouching)
    } else if tag == 2 {
        Some(StateType::Air)
    } else if tag == 3 {
        Some(StateType::Lying)
    } else if tag == 4 {
        Some(StateType::Unchanged)
    } else {
        None
    }
}

/// The index of a kind of move.
pub open spec fn activity_tag(v: MoveType) -> u32 {
    match v {
        MoveType::Idle => 0,
        MoveType::Attack => 1,
        MoveType::BeingHit => 2,
    }
}

/// What an index of a kind of move stands for.
pub open spec fn activity_of(tag: u32) -> Option<MoveType> {
    if tag == 0 {
        Some(MoveType::Idle)
    } else if tag == 1 {
        Some(MoveType::Attack)
    } else if tag == 2 {
        Some(MoveType::BeingHit)
    } else {
        None
    }
}

/// The index of a kind of move.
pub fn activity_to_tag(v: MoveType) -> (r: u32)
    ensures
        r == activity_tag(v),
{
    match v {
        MoveType::Idle => 0,
        MoveType::Attack => 1,
        MoveType::BeingHit => 2,
    }
}

/// Reads an index of a kind of move.
pub fn activity_from_tag(tag: u32) -> (r: Option<MoveType>)
    ensures
        r == activity_of(tag),
{
    if tag == 0 {
        Some(MoveType::Idle)
    } else if tag == 1 {
        Some(MoveType::Attack)
    } else if tag == 2 {
        Some(MoveType::BeingHit)
    } else {
        None
    }
}

/// The index of a priority kind.
pub open spec fn priority_tag(v: PriorityType) -> u32 {
    match v {
        PriorityType::Hit => 0,
        PriorityType::Miss => 1,
        PriorityType::Dodge => 2,
    }
}

/// What an index of a priority kind stands for.
pub open spec fn priority_of(tag: u32) -> Option<PriorityType> {
    if tag == 0 {
        Some(PriorityType::Hit)
    } else if tag == 1 {
        Some(PriorityType::Miss)
    } else if tag == 2 {
        Some(PriorityType::Dodge)
    } else {
        None
    }
}

/// The index of a priority kind.
pub fn priority_to_tag(v: PriorityType) -> (r: u32)
    ensures
        r == priority_tag(v),
{
    match v {
        PriorityType::Hit => 0,
        PriorityType::Miss => 1,
        PriorityType::Dodge => 2,
    }
}

/// Reads an index of a priority kind.
pub fn priority_from_tag(tag: u32) -> (r: Option<PriorityType>)
    ensures
        r == priority_of(tag),
{
    if tag == 0 {
        Some(PriorityType::Hit)
    } else if tag == 1 {
        Some(PriorityType::Miss)
    } else if tag == 2 {
        Some(PriorityType::Dodge)
    } else {
        None
    }
}

/// The index of a command source.
pub open spec fn commands_tag(v: CommandSource) -> u32 {
    match v {
        CommandSource::NoCommands => 0,
        CommandSource::Recognised => 1,
    }
}

/// What an index of a command source stands for.
pub open spec fn commands_of(tag: u32) -> Option<CommandSource> {
    if tag == 0 {
        Some(CommandSource::NoCommands)
    } else if tag == 1 {
        Some(CommandSource::Recognised)
    } else {
        None
    }
}

/// The index of a command source.
pub fn commands_to_tag(v: CommandSource) -> (r: u32)
    ensures
        r == commands_tag(v),
{
    match v {
        CommandSource::NoCommands => 0,
        CommandSource::Recognised => 1,
    }
}

/// Reads an index of a command source.
pub fn commands_from_tag(tag: u32) -> (r: Option<CommandSource>)
    ensures
        r == commands_of(tag),
{
    if tag == 0 {
        Some(CommandSource::NoCommands)
    } else if tag == 1 {
        Some(CommandSource::Recognised)
    } else {
        None
    }
}

/// The index of a phase.
pub open spec fn phase_tag(v: RoundState) -> u32 {
    match v {
        RoundState::Intro => 0,
        RoundState::Fight => 1,
        RoundState::Ko => 2,
        RoundState::Win => 3,
    }
}

/// What an index of a phase stands for.
pub open spec fn phase_of(tag: u32) -> Option<RoundState> {
    if tag == 0 {
        Some(RoundState::Intro)
    } else if tag == 1 {
        Some(RoundState::Fight)
    } else if tag == 2 {
        Some(RoundState::Ko)
    } else if tag == 3 {
        Some(RoundState::Win)
    } else {
        None
    }
}

/// The index of a phase.
pub fn phase_to_tag(v: RoundState) -> (r: u32)
    ensures
        r == phase_tag(v),
{
    match v {
        RoundState::Intro => 0,
        RoundState::Fight => 1,
        RoundState::Ko => 2,
        RoundState::Win => 3,
    }
}

/// Reads an index of a phase.
pub fn phase_from_tag(tag: u32) -> (r: Option<RoundState>)
    ensures
        r == phase_of(tag),
{
    if tag == 0 {
        Some(RoundState::Intro)
    } else if tag == 1 {
        Some(RoundState::Fight)
    } else if tag == 2 {
        Some(RoundState::Ko)
    } else if tag == 3 {
        Some(RoundState::Win)
    } else {
        None
    }
}

/// The index of a verdict.
pub open spec fn verdict_tag(v: Winner) -> u32 {
    match v {
        Winner::P1 => 0,
        Winner::P2 => 1,
        Winner::Draw => 2,
    }
}

/// What an index of a verdict stands for.
pub open spec fn verdict_of(tag: u32) -> Option<Winner> {
    if tag == 0 {
        Some(Winner::P1)
    } else if tag == 1 {
        Some(Winner::P2)
    } else if tag == 2 {
        Some(Winner::Draw)
    } else {
        None
    }
}

/// The index of a verdict.
pub fn verdict_to_tag(v: Winner) -> (r: u32)
    ensures
        r == verdict_tag(v),
{
    match v {
        Winner::P1 => 0,
        Winner::P2 => 1,
        Winner::Draw => 2,
    }
}

/// Reads an index of a verdict.
pub fn verdict_from_tag(tag: u32) -> (r: Option<Winner>)
    ensures
        r == verdict_of(tag),
{
    if tag == 0 {
        Some(Winner::P1)
    } else if tag == 1 {
        Some(Winner::P2)
    } else if tag == 2 {
        Some(Winner::Draw)
    } else {
        None
    }
}

/// The index of a match state.
pub open spec fn match_state_tag(v: MatchState) -> u32 {
    match v {
        MatchState::InProgress => 0,
        MatchState::Over => 1,
    }
}

/// What an index of a match state stands for.
pub open spec fn match_state_of(tag: u32) -> Option<MatchState> {
    if tag == 0 {
        Some(MatchState::InProgress)
    } else if tag == 1 {
        Some(MatchState::Over)
    } else {
        None
    }
}

/// The index of a match state.
pub fn match_state_to_tag(v: MatchState) -> (r: u32)
    ensures
        r == match_state_tag(v),
{
    match v {
        MatchState::InProgress => 0,
        MatchState::Over => 1,
    }
}

/// Reads an index of a match state.
pub fn match_state_from_tag(tag: u32) -> (r: Option<MatchState>)
    ensures
        r == match_state_of(tag),
{
    if tag == 0 {
        Some(MatchState::InProgress)
    } else if tag == 1 {
        Some(MatchState::Over)
    } else {
        None
    }
}

/// The index of an exemption.
pub open spec fn exempt_tag(v: FreezeExempt) -> u32 {
    match v {
        FreezeExempt::Nobody => 0,
        FreezeExempt::P1 => 1,
        FreezeExempt::P2 => 2,
    }
}

/// What an index of an exemption stands for.
pub open spec fn exempt_of(tag: u32) -> Option<FreezeExempt> {
    if tag == 0 {
        Some(FreezeExempt::Nobody)
    } else if tag == 1 {
        Some(FreezeExempt::P1)
    } else if tag == 2 {
        Some(FreezeExempt::P2)
    } else {
        None
    }
}

/// The index of an exemption.
pub fn exempt_to_tag(v: FreezeExempt) -> (r: u32)
    ensures
        r == exempt_tag(v),
{
    match v {
        FreezeExempt::Nobody => 0,
        FreezeExempt::P1 => 1,
        FreezeExempt::P2 => 2,
    }
}

/// Reads an index of an exemption.
pub fn exempt_from_tag(tag: u32) -> (r: Option<FreezeExempt>)
    ensures
        r == exempt_of(tag),
{
    if tag == 0 {
        Some(FreezeExempt::Nobody)
    } else if tag == 1 {
        Some(FreezeExempt::P1)
    } else if tag == 2 {
        Some(FreezeExempt::P2)
    } else {
        None
    }
}

/// The index of a spark's side.
pub open spec fn origin_tag(v: EffectSide) -> u32 {
    match v {
        EffectSide::P1 => 0,
        EffectSide::P2 => 1,
        EffectSide::Common => 2,
    }
}

/// What an index of a spark's side stands for.
pub open spec fn origin_of(tag: u32) -> Option<EffectSide> {
    if tag == 0 {
        Some(EffectSide::P1)
    } else if tag == 1 {
        Some(EffectSide::P2)
    } else if tag == 2 {
        Some(EffectSide::Common)
    } else {
        None
    }
}

/// The index of a spark's side.
pub fn origin_to_tag(v: EffectSide) -> (r: u32)
    ensures
        r == origin_tag(v),
{
    match v {
        EffectSide::P1 => 0,
        EffectSide::P2 => 1,
        EffectSide::Common => 2,
    }
}

/// Reads an index of a spark's side.
pub fn origin_from_tag(tag: u32) -> (r: Option<EffectSide>)
    ensures
        r == origin_of(tag),
{
    if tag == 0 {
        Some(EffectSide::P1)
    } else if tag == 1 {
        Some(EffectSide::P2)
    } else if tag == 2 {
        Some(EffectSide::Common)
    } else {
        None
    }
}

/// The index of a side.
pub open spec fn side_tag(v: Side) -> u32 {
    match v {
        Side::P1 => 0,
        Side::P2 => 1,
    }
}

/// What an index of a side stands for.
pub open spec fn side_of(tag: u32) -> Option<Side> {
    if tag == 0 {
        Some(Side::P1)
    } else if tag == 1 {
        Some(Side::P2)
    } else {
        None
    }
}

/// The index of a side.
pub fn side_to_tag(v: Side) -> (r: u32)
    ensures
        r == side_tag(v),
{
    match v {
        Side::P1 => 0,
        Side::P2 => 1,
    }
}

/// Reads an index of a side.
pub fn side_from_tag(tag: u32) -> (r: Option<Side>)
    ensures
        r == side_of(tag),
{
    if tag == 0 {
        Some(Side::P1)
    } else if tag == 1 {
        Some(Side::P2)
    } else {
        None
    }
}


/// The index of a verdict, where there is one.
pub open spec fn some_verdict_tag(v: Option<Winner>) -> Option<u32> {
    match v {
        Some(w) => Some(verdict_tag(w)),
        None => None,
    }
}

/// A verdict that may be missing, from its index; `None` where the index stands
/// for nothing.
pub open spec fn some_verdict_of(tag: Option<u32>) -> Option<Option<Winner>> {
    match tag {
        None => Some(None),
        Some(t) => match verdict_of(t) {
            Some(w) => Some(Some(w)),
            None => None,
        },
    }
}

/// The index of a verdict, where there is one.
fn some_verdict_to_tag(v: Option<Winner>) -> (r: Option<u32>)
    ensures
        r == some_verdict_tag(v),
{
    match v {
        Some(w) => Some(verdict_to_tag(w)),
        None => None,
    }
}

/// Reads a verdict that may be missing.
fn some_verdict_from_tag(tag: Option<u32>) -> (r: Option<Option<Winner>>)
    ensures
        r == some_verdict_of(tag),
{
    match tag {
        None => Some(None),
        Some(t) => match verdict_from_tag(t) {
            Some(w) => Some(Some(w)),
            None => None,
        },
    }
}

/// A spark source, laid out as an index and an action.
pub open spec fn spark_wire(s: SparkSource) -> (u32, i32) {
    match s {
        SparkSource::NoSpark => (0, 0),
        SparkSource::Own { anim } => (1, anim),
        SparkSource::Common { anim } => (2, anim),
    }
}

/// A laid-out spark source.
pub open spec fn wire_spark(tag: u32, anim: i32) -> Option<SparkSource> {
    if tag == 0 {
        Some(SparkSource::NoSpark)
    } else if tag == 1 {
        Some(SparkSource::Own { anim })
    } else if tag == 2 {
        Some(SparkSource::Common { anim })
    } else {
        None
    }
}

/// An attack, laid out.
pub open spec fn hitdef_wire(h: HitDef) -> HitDefWire {
    (
        h.attack,
        h.priority.value,
        priority_tag(h.priority.kind),
        spark_wire(h.spark).0,
        spark_wire(h.spark).1,
    )
}

/// A laid-out attack.
pub open spec fn wire_hitdef(w: HitDefWire) -> Option<HitDef> {
    match (priority_of(w.2), wire_spark(w.3, w.4)) {
        (Some(kind), Some(spark)) => Some(
            HitDef { attack: w.0, priority: Priority { value: w.1, kind }, spark },
        ),
        _ => None,
    }
}

/// Lays an attack out.
fn hitdef_to_wire(h: &HitDef) -> (r: HitDefWire)
    ensures
        r == hitdef_wire(*h),
{
    let (tag, anim): (u32, i32) = match h.spark {
        SparkSource::NoSpark => (0, 0),
        SparkSource::Own { anim } => (1, anim),
        SparkSource::Common { anim } => (2, anim),
    };
    (h.attack, h.priority.value, priority_to_tag(h.priority.kind), tag, anim)
}

/// Reads a laid-out attack.
fn hitdef_from_wire(w: &HitDefWire) -> (r: Option<HitDef>)
    ensures
        r == wire_hitdef(*w),
{
    let spark = if w.3 == 0 {
        SparkSource::NoSpark
    } else if w.3 == 1 {
        SparkSource::Own { anim: w.4 }
    } else if w.3 == 2 {
        SparkSource::Common { anim: w.4 }
    } else {
        return None;
    };
    match priority_from_tag(w.2) {
        Some(kind) => Some(
            HitDef { attack: w.0, priority: Priority { value: w.1, kind }, spark },
        ),
        None => None,
    }
}

/// The armed attack of a fighter, laid out.
pub open spec fn armed_wire(h: Option<HitDef>) -> Option<HitDefWire> {
    match h {
        Some(h) => Some(hitdef_wire(h)),
        None => None,
    }
}

/// A laid-out armed attack; `None` where an index stands for nothing.
pub open spec fn wire_armed(w: Option<HitDefWire>) -> Option<Option<HitDef>> {
    match w {
        None => Some(None),
        Some(w) => match wire_hitdef(w) {
            Some(h) => Some(Some(h)),
            None => None,
        },
    }
}

/// A fighter, laid out.
#[verifier::opaque]
pub open spec fn character_wire(c: CharacterSnapshot) -> CharacterWire {
    (
        (c.pos.x.bits, c.pos.y.bits, c.vel.x.bits, c.vel.y.bits, facing_tag(c.facing)),
        (c.life, c.life_max, c.power, c.power_max),
        (
            c.state_no,
            c.prev_state_no,
            c.state_time,
            posture_tag(c.state_type),
            activity_tag(c.move_type),
            c.ctrl,
            c.holding_back,
            c.has_target,
        ),
        (c.anim, c.anim_elem, c.anim_elem_time, c.anim_time),
        (armed_wire(c.active_hitdef), c.move_contact, c.hitpause, c.shaketime),
        (
            c.no_auto_turn,
            c.cur_width.active,
            c.cur_width.front.bits,
            c.cur_width.back.bits,
            c.ai_level,
            c.rng_seed,
            commands_tag(c.commands),
        ),
        (
            c.round_view.round_state,
            c.round_view.game_time,
            c.round_view.match_over,
            c.round_view.round_no,
            c.round_view.rounds_existed,
        ),
    )
}

/// A laid-out fighter; `None` where an index stands for nothing.
#[verifier::opaque]
pub open spec fn wire_character(w: CharacterWire) -> Option<CharacterSnapshot> {
    match (
        facing_of(w.0.4),
        posture_of(w.2.3),
        activity_of(w.2.4),
        wire_armed(w.4.0),
        commands_of(w.5.6),
    ) {
        (
            Some(facing),
            Some(state_type),
            Some(move_type),
            Some(active_hitdef),
            Some(commands),
        ) => Some(
            CharacterSnapshot {
                pos: Vec2 { x: Scalar { bits: w.0.0 }, y: Scalar { bits: w.0.1 } },
                vel: Vec2 { x: Scalar { bits: w.0.2 }, y: Scalar { bits: w.0.3 } },
                facing,
                life: w.1.0,
                life_max: w.1.1,
                power: w.1.2,
                power_max: w.1.3,
                state_no: w.2.0,
                prev_state_no: w.2.1,
                state_time: w.2.2,
                state_type,
                move_type,
                ctrl: w.2.5,
                holding_back: w.2.6,
                has_target: w.2.7,
                anim: w.3.0,
                anim_elem: w.3.1,
                anim_elem_time: w.3.2,
                anim_time: w.3.3,
                active_hitdef,
                move_contact: w.4.1,
                hitpause: w.4.2,
                shaketime: w.4.3,
                no_auto_turn: w.5.0,
                cur_width: WidthOverride {
                    active: w.5.1,
                    front: Scalar { bits: w.5.2 },
                    back: Scalar { bits: w.5.3 },
                },
                ai_level: w.5.4,
                rng_seed: w.5.5,
                commands,
                round_view: RoundView {
                    round_state: w.6.0,
                    game_time: w.6.1,
                    match_over: w.6.2,
                    round_no: w.6.3,
                    rounds_existed: w.6.4,
                },
            },
        ),
        _ => None,
    }
}

/// Lays a fighter out.
fn character_to_wire(c: &CharacterSnapshot) -> (r: CharacterWire)
    ensures
        r == character_wire(*c),
{
    reveal(character_wire);
    let hitdef = match &c.active_hitdef {
        Some(h) => Some(hitdef_to_wire(h)),
        None => None,
    };
    (
        (c.pos.x.bits, c.pos.y.bits, c.vel.x.bits, c.vel.y.bits, facing_to_tag(c.facing)),
        (c.life, c.life_max, c.power, c.power_max),
        (
            c.state_no,
            c.prev_state_no,
            c.state_time,
            posture_to_tag(c.state_type),
            activity_to_tag(c.move_type),
            c.ctrl,
            c.holding_back,
            c.has_target,
        ),
        (c.anim, c.anim_elem, c.anim_elem_time, c.anim_time),
        (hitdef, c.move_contact, c.hitpause, c.shaketime),
        (
            c.no_auto_turn,
            c.cur_width.active,
            c.cur_width.front.bits,
            c.cur_width.back.bits,
            c.ai_level,
            c.rng_seed,
            commands_to_tag(c.commands),
        ),
        (
            c.round_view.round_state,
            c.round_view.game_time,
            c.round_view.match_over,
            c.round_view.round_no,
            c.round_view.rounds_existed,
        ),
    )
}

/// Reads a laid-out fighter.
fn character_from_wire(w: &CharacterWire) -> (r: Option<CharacterSnapshot>)
    ensures
        r == wire_character(*w),
{
    reveal(wire_character);
    let active_hitdef = match &w.4.0 {
        None => None,
        Some(h) => match hitdef_from_wire(h) {
            Some(h) => Some(h),
            None => {
                return None;
            },
        },
    };
    match (
        facing_from_tag(w.0.4),
        posture_from_tag(w.2.3),
        activity_from_tag(w.2.4),
        commands_from_tag(w.5.6),
    ) {
        (Some(facing), Some(state_type), Some(move_type), Some(commands)) => Some(
            CharacterSnapshot {
                pos: Vec2 { x: Scalar { bits: w.0.0 }, y: Scalar { bits: w.0.1 } },
                vel: Vec2 { x: Scalar { bits: w.0.2 }, y: Scalar { bits: w.0.3 } },
                facing,
                life: w.1.0,
                life_max: w.1.1,
                power: w.1.2,
                power_max: w.1.3,
                state_no: w.2.0,
                prev_state_no: w.2.1,
                state_time: w.2.2,
                state_type,
                move_type,
                ctrl: w.2.5,
                holding_back: w.2.6,
                has_target: w.2.7,
                anim: w.3.0,
                anim_elem: w.3.1,
                anim_elem_time: w.3.2,
                anim_time: w.3.3,
                active_hitdef,
                move_contact: w.4.1,
                hitpause: w.4.2,
                shaketime: w.4.3,
                no_auto_turn: w.5.0,
                cur_width: WidthOverride {
                    active: w.5.1,
                    front: Scalar { bits: w.5.2 },
                    back: Scalar { bits: w.5.3 },
                },
                ai_level: w.5.4,
                rng_seed: w.5.5,
                commands,
                round_view: RoundView {
                    round_state: w.6.0,
                    game_time: w.6.1,
                    match_over: w.6.2,
                    round_no: w.6.3,
                    rounds_existed: w.6.4,
                },
            },
        ),
        _ => None,
    }
}

/// What a fighter is restored to, laid out.
pub open spec fn reset_wire(s: RoundResetState) -> ResetWire {
    (s.pos.x.bits, s.pos.y.bits, facing_tag(s.facing), s.life_max)
}

/// A laid-out reset state.
pub open spec fn wire_reset(w: ResetWire) -> Option<RoundResetState> {
    match facing_of(w.2) {
        Some(facing) => Some(
            RoundResetState {
                pos: Vec2 { x: Scalar { bits: w.0 }, y: Scalar { bits: w.1 } },
                facing,
                life_max: w.3,
            },
        ),
        None => None,
    }
}

/// Lays a reset state out.
fn reset_to_wire(s: &RoundResetState) -> (r: ResetWire)
    ensures
        r == reset_wire(*s),
{
    (s.pos.x.bits, s.pos.y.bits, facing_to_tag(s.facing), s.life_max)
}

/// Reads a laid-out reset state.
fn reset_from_wire(w: &ResetWire) -> (r: Option<RoundResetState>)
    ensures
        r == wire_reset(*w),
{
    match facing_from_tag(w.2) {
        Some(facing) => Some(
            RoundResetState {
                pos: Vec2 { x: Scalar { bits: w.0 }, y: Scalar { bits: w.1 } },
                facing,
                life_max: w.3,
            },
        ),
        None => None,
    }
}

/// A spark, laid out.
pub open spec fn effect_wire(e: Effect) -> EffectWire {
    (
        origin_tag(e.side),
        e.anim,
        e.pos.x.bits,
        e.pos.y.bits,
        e.sprite.group,
        e.sprite.image,
        e.offset.x,
        e.offset.y,
        e.elem as u64,
        e.elem_time,
        e.remaining,
    )
}

/// A laid-out spark; `None` where its side stands for nothing or its cursor is not
/// a machine word.
pub open spec fn wire_effect(w: EffectWire) -> Option<Effect> {
    match origin_of(w.0) {
        Some(side) => if w.8 <= usize::MAX {
            Some(
                Effect {
                    side,
                    anim: w.1,
                    pos: Vec2 { x: Scalar { bits: w.2 }, y: Scalar { bits: w.3 } },
                    sprite: SpriteId { group: w.4, image: w.5 },
                    offset: Offset { x: w.6, y: w.7 },
                    elem: w.8 as usize,
                    elem_time: w.9,
                    remaining: w.10,
                },
            )
        } else {
            None
        },
        None => None,
    }
}

/// Lays a spark out.
fn effect_to_wire(e: &Effect) -> (r: EffectWire)
    ensures
        r == effect_wire(*e),
{
    (
        origin_to_tag(e.side),
        e.anim,
        e.pos.x.bits,
        e.pos.y.bits,
        e.sprite.group,
        e.sprite.image,
        e.offset.x,
        e.offset.y,
        e.elem as u64,
        e.elem_time,
        e.remaining,
    )
}

/// Reads a laid-out spark.
fn effect_from_wire(w: &EffectWire) -> (r: Option<Effect>)
    ensures
        r == wire_effect(*w),
{
    if w.8 > usize::MAX as u64 {
        return None;
    }
    match origin_from_tag(w.0) {
        Some(side) => Some(
            Effect {
                side,
                anim: w.1,
                pos: Vec2 { x: Scalar { bits: w.2 }, y: Scalar { bits: w.3 } },
                sprite: SpriteId { group: w.4, image: w.5 },
                offset: Offset { x: w.6, y: w.7 },
                elem: w.8 as usize,
                elem_time: w.9,
                remaining: w.10,
            },
        ),
        None => None,
    }
}

/// The sparks that laid-out ones stand for; `None` where an index stands for
/// nothing.
pub open spec fn wire_effects(w: Seq<EffectWire>) -> Option<Seq<Effect>> {
    if forall|i: int| 0 <= i < w.len() ==> wire_effect(#[trigger] w[i]) is Some {
        Some(Seq::new(w.len(), |i: int| wire_effect(w[i])->0))
    } else {
        None
    }
}

/// Lays sparks out.
fn effects_to_wire(effects: &Vec<Effect>) -> (r: Vec<EffectWire>)
    ensures
        r@ == Seq::new(effects@.len(), |i: int| effect_wire(effects@[i])),
{
    let mut out: Vec<EffectWire> = Vec::new();
    let mut i: usize = 0;
    while i < effects.len()
        invariant
            i <= effects@.len(),
            out@.len() == i,
            forall|k: int| 0 <= k < i ==> #[trigger] out@[k] == effect_wire(effects@[k]),
        decreases effects.len() - i,
    {
        out.push(effect_to_wire(&effects[i]));
        i = i + 1;
    }
    assert(out@ =~= Seq::new(effects@.len(), |i: int| effect_wire(effects@[i])));
    out
}

/// Reads laid-out sparks.
fn effects_from_wire(w: &Vec<EffectWire>) -> (r: Option<Vec<Effect>>)
    ensures
        r is Some == wire_effects(w@) is Some,
        r matches Some(effects) ==> Some(effects@) == wire_effects(w@),
{
    let mut out: Vec<Effect> = Vec::new();
    let mut i: usize = 0;
    while i < w.len()
        invariant
            i <= w@.len(),
            out@.len() == i,
            forall|k: int| 0 <= k < i ==> Some(#[trigger] out@[k]) == wire_effect(w@[k]),
        decreases w.len() - i,
    {
        match effect_from_wire(&w[i]) {
            Some(e) => {
                out.push(e);
            },
            None => {
                assert(wire_effect(w@[i as int]) is None);
                return None;
            },
        }
        i = i + 1;
    }
    proof {
        assert forall|k: int| 0 <= k < w@.len() implies wire_effect(#[trigger] w@[k]) is Some by {
            assert(Some(out@[k]) == wire_effect(w@[k]));
        }
        assert forall|k: int| 0 <= k < w@.len() implies #[trigger] out@[k] == wire_effect(
            w@[k],
        )->0 by {
            assert(Some(out@[k]) == wire_effect(w@[k]));
        }
        assert(out@ =~= Seq::new(w@.len(), |i: int| wire_effect(w@[i])->0));
    }
    Some(out)
}

/// The round flow of a snapshot, laid out.
pub open spec fn flow_wire(s: SnapshotModel) -> FlowWire {
    (
        phase_tag(s.round_state),
        s.timer,
        s.phase_timer,
        some_verdict_tag(s.winner),
        s.rounds_to_win,
        s.p1_round_wins,
        s.p2_round_wins,
        s.round_number,
        match_state_tag(s.match_state),
        some_verdict_tag(s.match_winner),
        s.round_frames,
        s.game_time,
    )
}

/// A snapshot, laid out.
pub open spec fn snapshot_wire(s: SnapshotModel) -> SnapshotParts {
    (
        (s.p1_fingerprint.0, s.p2_fingerprint.0),
        (character_wire(s.p1), s.p1_host),
        (character_wire(s.p2), s.p2_host),
        bounds_wire(s.bounds),
        flow_wire(s),
        (reset_wire(s.p1_reset), reset_wire(s.p2_reset)),
        (s.freeze.remaining, exempt_tag(s.freeze.exempt)),
        Seq::new(s.effects.len(), |i: int| effect_wire(s.effects[i])),
    )
}

/// A laid-out snapshot; `None` where an index stands for nothing.
pub open spec fn wire_snapshot(w: SnapshotParts) -> Option<SnapshotModel> {
    match (
        (wire_character(w.1.0), wire_character(w.2.0)),
        (phase_of(w.4.0), some_verdict_of(w.4.3), match_state_of(w.4.8), some_verdict_of(w.4.9)),
        (wire_reset(w.5.0), wire_reset(w.5.1), exempt_of(w.6.1), wire_effects(w.7)),
    ) {
        (
            (Some(p1), Some(p2)),
            (Some(round_state), Some(winner), Some(match_state), Some(match_winner)),
            (Some(p1_reset), Some(p2_reset), Some(exempt), Some(effects)),
        ) => Some(
            SnapshotModel {
                p1_fingerprint: CharacterFingerprint(w.0.0),
                p2_fingerprint: CharacterFingerprint(w.0.1),
                p1,
                p1_host: w.1.1,
                p2,
                p2_host: w.2.1,
                bounds: wire_bounds(w.3),
                round_state,
                timer: w.4.1,
                phase_timer: w.4.2,
                winner,
                rounds_to_win: w.4.4,
                p1_round_wins: w.4.5,
                p2_round_wins: w.4.6,
                round_number: w.4.7,
                match_state,
                match_winner,
                p1_reset,
                p2_reset,
                round_frames: w.4.10,
                game_time: w.4.11,
                freeze: Freeze { remaining: w.6.0, exempt },
                effects,
            },
        ),
        _ => None,
    }
}

/// Lays a snapshot out.
pub fn snapshot_to_wire(s: MatchSnapshot) -> (r: SnapshotWire)
    ensures
        snapshot_parts(r) == snapshot_wire(s@),
{
    let flow: FlowWire = (
        phase_to_tag(s.round_state),
        s.timer,
        s.phase_timer,
        some_verdict_to_tag(s.winner),
        s.rounds_to_win,
        s.p1_round_wins,
        s.p2_round_wins,
        s.round_number,
        match_state_to_tag(s.match_state),
        some_verdict_to_tag(s.match_winner),
        s.round_frames,
        s.game_time,
    );
    (
        (s.p1_fingerprint.0, s.p2_fingerprint.0),
        (character_to_wire(&s.p1.character), s.p1.host),
        (character_to_wire(&s.p2.character), s.p2.host),
        bounds_to_wire(&s.bounds),
        flow,
        (reset_to_wire(&s.p1_reset), reset_to_wire(&s.p2_reset)),
        (s.freeze.remaining, exempt_to_tag(s.freeze.exempt)),
        effects_to_wire(&s.effects),
    )
}

/// Reads a laid-out snapshot; `None` where an index stands for nothing.
pub fn snapshot_from_wire(w: SnapshotWire) -> (r: Option<MatchSnapshot>)
    ensures
        r is Some == wire_snapshot(snapshot_parts(w)) is Some,
        r matches Some(s) ==> Some(s@) == wire_snapshot(snapshot_parts(w)),
{
    let (stamps, p1_wire, p2_wire, bounds, flow, resets, freeze, effects_wire) = w;
    let p1 = match character_from_wire(&p1_wire.0) {
        Some(c) => c,
        None => {
            return None;
        },
    };
    let p2 = match character_from_wire(&p2_wire.0) {
        Some(c) => c,
        None => {
            return None;
        },
    };
    let effects = match effects_from_wire(&effects_wire) {
        Some(e) => e,
        None => {
            return None;
        },
    };
    match (
        phase_from_tag(flow.0),
        some_verdict_from_tag(flow.3),
        match_state_from_tag(flow.8),
        some_verdict_from_tag(flow.9),
    ) {
        (Some(round_state), Some(winner), Some(match_state), Some(match_winner)) => match (
            reset_from_wire(&resets.0),
            reset_from_wire(&resets.1),
            exempt_from_tag(freeze.1),
        ) {
            (Some(p1_reset), Some(p2_reset), Some(exempt)) => Some(
                MatchSnapshot {
                    p1_fingerprint: CharacterFingerprint(stamps.0),
                    p2_fingerprint: CharacterFingerprint(stamps.1),
                    p1: PlayerSnapshot { character: p1, host: p1_wire.1 },
                    p2: PlayerSnapshot { character: p2, host: p2_wire.1 },
                    bounds: bounds_from_wire(bounds),
                    round_state,
                    timer: flow.1,
                    phase_timer: flow.2,
                    winner,
                    rounds_to_win: flow.4,
                    p1_round_wins: flow.5,
                    p2_round_wins: flow.6,
                    round_number: flow.7,
                    match_state,
                    match_winner,
                    p1_reset,
                    p2_reset,
                    round_frames: flow.10,
                    game_time: flow.11,
                    freeze: Freeze { remaining: freeze.0, exempt },
                    effects,
                },
            ),
            _ => None,
        },
        _ => None,
    }
}

/// A fighter survives being laid out and read.
pub proof fn character_round_trip(c: CharacterSnapshot)
    ensures
        wire_character(character_wire(c)) == Some(c),
{
    reveal(character_wire);
    reveal(wire_character);
    if let Some(h) = c.active_hitdef {
        assert(wire_hitdef(hitdef_wire(h)) == Some(h));
    }
}

/// A snapshot survives being laid out and read.
pub proof fn snapshot_round_trip(s: SnapshotModel)
    ensures
        wire_snapshot(snapshot_wire(s)) == Some(s),
{
    character_round_trip(s.p1);
    character_round_trip(s.p2);
    let w = snapshot_wire(s);
    assert forall|i: int| 0 <= i < w.7.len() implies wire_effect(#[trigger] w.7[i]) == Some(
        s.effects[i],
    ) by {}
    assert(wire_effects(w.7)->0 =~= s.effects);
}

/// An index that reads as something is the index of that: what stands for nothing is
/// not read as anything.
pub proof fn tags_read_back(tag: u32)
    ensures
        facing_of(tag) matches Some(v) ==> facing_tag(v) == tag,
        posture_of(tag) matches Some(v) ==> posture_tag(v) == tag,
        activity_of(tag) matches Some(v) ==> activity_tag(v) == tag,
        priority_of(tag) matches Some(v) ==> priority_tag(v) == tag,
        commands_of(tag) matches Some(v) ==> commands_tag(v) == tag,
        phase_of(tag) matches Some(v) ==> phase_tag(v) == tag,
        verdict_of(tag) matches Some(v) ==> verdict_tag(v) == tag,
        match_state_of(tag) matches Some(v) ==> match_state_tag(v) == tag,
        exempt_of(tag) matches Some(v) ==> exempt_tag(v) == tag,
        origin_of(tag) matches Some(v) ==> origin_tag(v) == tag,
        side_of(tag) matches Some(v) ==> side_tag(v) == tag,
{
}

/// A fighter is read only where everything that it is laid out with stands for
/// something, and is then what that stands for.
pub proof fn fighters_read_back(w: CharacterWire, c: CharacterSnapshot)
    requires
        wire_character(w) == Some(c),
    ensures
        facing_of(w.0.4) == Some(c.facing),
        posture_of(w.2.3) == Some(c.state_type),
        activity_of(w.2.4) == Some(c.move_type),
        commands_of(w.5.6) == Some(c.commands),
        wire_armed(w.4.0) == Some(c.active_hitdef),
        w.4.0 is Some <==> c.active_hitdef is Some,
{
    reveal(wire_character);
}

/// A snapshot is read only where everything that it is laid out with stands for
/// something, and is then what that stands for.
pub proof fn snapshots_read_back(w: SnapshotParts, s: SnapshotModel)
    requires
        wire_snapshot(w) == Some(s),
    ensures
        wire_character(w.1.0) == Some(s.p1) && wire_character(w.2.0) == Some(s.p2),
        phase_of(w.4.0) == Some(s.round_state),
        match_state_of(w.4.8) == Some(s.match_state),
        some_verdict_of(w.4.3) == Some(s.winner),
        some_verdict_of(w.4.9) == Some(s.match_winner),
        wire_reset(w.5.0) == Some(s.p1_reset) && wire_reset(w.5.1) == Some(s.p2_reset),
        exempt_of(w.6.1) == Some(s.freeze.exempt),
        w.7.len() == s.effects.len(),
        forall|i: int| 0 <= i < w.7.len() ==> wire_effect(#[trigger] w.7[i]) == Some(s.effects[i]),
{
}

/// Attacks, reset states, verdicts and sparks are read only where what they are laid
/// out with stands for something.
pub proof fn parts_read_back(
    hitdef: HitDefWire,
    reset: ResetWire,
    verdict: Option<u32>,
    effect: EffectWire,
)
    ensures
        wire_hitdef(hitdef) matches Some(h) ==> {
            &&& priority_of(hitdef.2) == Some(h.priority.kind)
            &&& hitdef.3 <= 2
            &&& hitdef.3 == 0 <==> h.spark is NoSpark
            &&& hitdef.3 == 1 <==> h.spark is Own
        },
        wire_reset(reset) matches Some(s) ==> facing_of(reset.2) == Some(s.facing),
        some_verdict_of(verdict) matches Some(v) ==> {
            &&& v is Some <==> verdict is Some
            &&& verdict matches Some(tag) ==> verdict_of(tag) == v
        },
        wire_effect(effect) matches Some(e) ==> origin_of(effect.0) == Some(e.side) && e.elem
            == effect.8,
{
}

} // verus!
