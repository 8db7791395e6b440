//! One frame of a match, as a conversation with the host.
//!
//! [`Match::tick`] opens a frame. While [`Match::request`] asks for something the
//! host does it and hands the result to [`Match::step`]; when it answers
//! [`Request::Done`] the frame is over. What is asked, in which order, and what
//! becomes of the answers is decided here. A reply that does not fit the request
//! changes nothing, and the same thing is asked again.

use vstd::prelude::*;

use crate::arith::saturated;
use crate::character::{
    after_ops, next_work, Character, CommandSource, SparkSource, TargetOp, TargetWork,
};
use crate::effect::EffectSide;
use crate::explod::{after_explod_ops, explods_spawned, explods_ticked};
use crate::freeze::FreezeExempt;
use crate::game::{ClashOutcome, ClashProbe, Flow, MatchModel, RoundInit};
use crate::helper::{helpers_due, helpers_kept, helpers_spawned, HelperBirth, HelperTick};
use crate::input::{InputState, MatchInput};
use crate::player::{
    advantage, may_touch, ContactProbe, projectile_kept, projectile_spent, HelperRun, PlayerModel,
    PushBody, RedirectGraph,
};
use crate::projectile::{
    projectiles_due, projectiles_moved, projectiles_spawned, Projectile, ProjectileBirth,
};
use crate::report::{impact_sound, Orders, SoundId, TickReport};
use crate::round::{RoundState, Side};
use crate::scalar::{Placement, Scalar, Vec2};
use crate::stage::StageView;

verus! {

/// What a frame is waiting for.
#[derive(Debug, Clone, Copy, PartialEq, Eq, Structural)]
pub enum Stage {
    /// Nothing: the frame is over.
    Done,
    /// The tick of the fighter that is exempt from a freeze.
    Alone(Side),
    /// The counters and the command recognisers.
    Open,
    /// A fighter's tick.
    Root(Side),
    /// What a side's target operation with this index needs.
    Ops(Side, usize),
    /// The helpers that were asked for.
    SpawnHelpers,
    /// The ticks of the helpers.
    TickHelpers,
    /// The projectiles that were asked for.
    SpawnProjectiles,
    /// The steps of the projectiles.
    MoveProjectiles,
    /// Whether the two attacks clash.
    Clash,
    /// Whether a side's attack lands.
    Attack(Side),
    /// The state that a side's attack sends the attacker into.
    AttackerState(Side, i32),
    /// Whether a side's projectile with this index lands.
    Projectile(Side, usize),
    /// That the host has noted a landed projectile: whose, where its side's list
    /// goes on, its id, and whether it was blocked.
    RecordHit(Side, usize, i32, bool),
    /// Pushing and clamping.
    Push,
    /// The top of a new round.
    NewRound,
}

/// A frame in progress.
#[derive(Debug, Clone)]
pub struct Frame {
    /// What it is waiting for.
    pub stage: Stage,
    /// Player 1's input.
    pub p1_input: MatchInput,
    /// Player 2's input.
    pub p2_input: MatchInput,
    /// Player 1's teammate, if any.
    pub p1_partner: Option<u64>,
    /// Player 2's teammate, if any.
    pub p2_partner: Option<u64>,
    /// Whether the fight was live when the frame began.
    pub fighting: bool,
    /// Where player 1 stood when the frame began.
    pub p1_x: Scalar,
    /// Where player 2 stood when the frame began.
    pub p2_x: Scalar,
    /// What player 1's tick asked for.
    pub p1_orders: Orders,
    /// What player 2's tick asked for.
    pub p2_orders: Orders,
}

/// An input for a fighter's command recogniser.
#[derive(Debug, Clone, Copy, PartialEq, Eq, Structural)]
pub struct Feed {
    /// The raw sample to push into its history.
    pub raw: InputState,
    /// Whether the fighter faces right.
    pub facing_right: bool,
}

/// What the coordinator asks of its host. Wherever a request carries a
/// [`Character`], the host first writes it back to the full entity.
#[derive(Debug, Clone, PartialEq)]
pub enum Request {
    /// Nothing: the frame is over.
    Done,
    /// Tick a fighter that is exempt from a freeze, without any relations.
    /// Answered by [`Reply::Ticked`].
    TickAlone {
        /// Whose fighter.
        side: Side,
        /// The fighter.
        fighter: Character,
        /// Its opponent.
        opponent: Character,
        /// The stage.
        stage: StageView,
    },
    /// Age both fighters' projectile contact counters; then push the given
    /// inputs and recognise commands. Answered by [`Reply::Opened`].
    Open {
        /// Player 1's input, while the fight is live.
        p1: Option<Feed>,
        /// Player 2's input, while the fight is live.
        p2: Option<Feed>,
    },
    /// Tick a fighter. Answered by [`Reply::Ticked`].
    TickRoot {
        /// Whose fighter.
        side: Side,
        /// The fighter.
        fighter: Character,
        /// Its opponent.
        opponent: Character,
        /// The stage.
        stage: StageView,
        /// Whom its triggers can reach.
        graph: RedirectGraph,
    },
    /// Do what a target operation needs. Answered by [`Reply::Entered`] for a
    /// state and by [`Reply::Sum`] for a sum.
    Target {
        /// Whose fighter is the target.
        side: Side,
        /// The target.
        target: Character,
        /// What is needed.
        work: TargetWork,
    },
    /// Make helpers. Answered by [`Reply::Spawned`], one entity for each.
    SpawnHelpers {
        /// Player 1's.
        p1: Vec<HelperBirth>,
        /// Player 2's.
        p2: Vec<HelperBirth>,
    },
    /// Tick helpers. Answered by [`Reply::HelpersTicked`], one tick for each.
    TickHelpers {
        /// Player 1's.
        p1: HelperRun,
        /// Player 2's.
        p2: HelperRun,
        /// The stage.
        stage: StageView,
    },
    /// Make projectiles. Answered by [`Reply::Spawned`], one entity for each.
    SpawnProjectiles {
        /// Player 1's.
        p1: Vec<ProjectileBirth>,
        /// Player 2's.
        p2: Vec<ProjectileBirth>,
    },
    /// Add up the points. Answered by [`Reply::Moved`], one point for each.
    MoveProjectiles {
        /// Where player 1's projectiles go.
        p1: Vec<Placement>,
        /// Where player 2's projectiles go.
        p2: Vec<Placement>,
        /// The left (x) and right (y) edge that they must not pass.
        edges: Placement,
    },
    /// Test both attacks for contact and compare their priorities. Answered by
    /// [`Reply::Clash`].
    Clash(ClashProbe),
    /// Test an attack for its point of contact, where a probe is given, then
    /// resolve it. Answered by [`Reply::Attacked`].
    ResolveAttack {
        /// Whose attack.
        side: Side,
        /// The attacker.
        attacker: Character,
        /// The defender.
        defender: Character,
        /// The boxes to find the point of contact with.
        probe: Option<ContactProbe>,
    },
    /// Send a fighter into one of its own states. Answered by [`Reply::Entered`].
    EnterState {
        /// Whose fighter.
        side: Side,
        /// The fighter.
        fighter: Character,
        /// The state.
        state_no: i32,
    },
    /// Resolve a projectile's attack. Answered by [`Reply::ProjectileResolved`].
    ResolveProjectile {
        /// Whose projectile.
        side: Side,
        /// The projectile.
        projectile: Projectile,
        /// The defender.
        defender: Character,
    },
    /// Note a landed projectile in its owner's contact counters. Answered by
    /// [`Reply::Acknowledged`].
    RecordHit {
        /// Whose projectile.
        side: Side,
        /// Its id.
        proj_id: i32,
        /// Whether it was blocked.
        guarded: bool,
    },
    /// Push the bodies apart, then clamp each to the edges. Answered by
    /// [`Reply::Pushed`].
    PushAndClamp {
        /// Player 1's body.
        p1: PushBody,
        /// Player 2's body.
        p2: PushBody,
        /// The left edge.
        left: Scalar,
        /// The right edge.
        right: Scalar,
    },
    /// Clear what the entities keep of the combat before (get-hit variables,
    /// move and projectile contacts), then send those that are `entering` into the
    /// round-init state. Answered by [`Reply::RoundBegun`].
    NewRound {
        /// Player 1's fighter.
        p1: Character,
        /// Player 2's fighter.
        p2: Character,
        /// Which of them enter the state.
        entering: RoundInit,
    },
}

/// A landed attack.
#[derive(Debug, Clone, Copy, PartialEq)]
pub struct Landed {
    /// The stun it puts the defender in.
    pub stun: i32,
    /// The frame count of the attacker's action, where it can be counted.
    pub move_total: Option<i32>,
    /// The sound of the impact.
    pub hit_sound: Option<SoundId>,
    /// The state it sends the attacker into.
    pub attacker_state: Option<i32>,
    /// The point of contact, where there is one.
    pub contact: Option<Vec2>,
}

/// What the host answers.
#[derive(Debug, Clone, PartialEq)]
pub enum Reply {
    /// It is done.
    Acknowledged,
    /// A fighter has ticked.
    Ticked {
        /// The fighter.
        fighter: Character,
        /// What its tick hands back.
        report: TickReport,
    },
    /// Inputs have been read.
    Opened {
        /// Commands player 1's recogniser has just matched.
        p1_matched: Vec<String>,
        /// Commands player 2's recogniser has just matched.
        p2_matched: Vec<String>,
    },
    /// A fighter has entered a state.
    Entered(Character),
    /// A sum.
    Sum(Vec2),
    /// Entities have been made.
    Spawned {
        /// Player 1's.
        p1: Vec<Character>,
        /// Player 2's.
        p2: Vec<Character>,
    },
    /// Helpers have ticked.
    HelpersTicked {
        /// Player 1's.
        p1: Vec<HelperTick>,
        /// Player 2's.
        p2: Vec<HelperTick>,
    },
    /// Points have been added up.
    Moved {
        /// Player 1's.
        p1: Vec<Vec2>,
        /// Player 2's.
        p2: Vec<Vec2>,
        /// The left (x) and right (y) edge.
        edges: Vec2,
    },
    /// Two attacks have been tested.
    Clash {
        /// Whether player 1's connects.
        p1_hits: bool,
        /// Whether player 2's connects.
        p2_hits: bool,
        /// How their priorities compare.
        outcome: ClashOutcome,
    },
    /// An attack has been resolved.
    Attacked {
        /// The attacker.
        attacker: Character,
        /// The defender.
        defender: Character,
        /// How it landed, if it did.
        landed: Option<Landed>,
    },
    /// A projectile's attack has been resolved.
    ProjectileResolved {
        /// The projectile.
        projectile: Character,
        /// The defender.
        defender: Character,
        /// Whether it was blocked, if it landed.
        landed: Option<bool>,
    },
    /// The bodies have been pushed and clamped.
    Pushed {
        /// Player 1's X.
        p1_x: Scalar,
        /// Player 2's X.
        p2_x: Scalar,
    },
    /// A round has begun.
    RoundBegun {
        /// Player 1's fighter.
        p1: Character,
        /// Player 2's fighter.
        p2: Character,
    },
}

/// The effect side of an attacker.
pub open spec fn effect_side(side: Side) -> EffectSide {
    match side {
        Side::P1 => EffectSide::P1,
        Side::P2 => EffectSide::P2,
    }
}

impl Frame {
    /// What a side's tick asked for.
    pub open spec fn orders(self, side: Side) -> Orders {
        match side {
            Side::P1 => self.p1_orders,
            Side::P2 => self.p2_orders,
        }
    }

    /// The frame, waiting for something else.
    pub open spec fn at(self, stage: Stage) -> Frame {
        Frame { stage, ..self }
    }

    /// The frame with what a side's tick asked for.
    pub open spec fn with_orders(self, side: Side, orders: Orders) -> Frame {
        match side {
            Side::P1 => Frame { p1_orders: orders, ..self },
            Side::P2 => Frame { p2_orders: orders, ..self },
        }
    }
}

/// The two fighters with a clock to read and, while the fight is live, inputs.
#[verifier::opaque]
pub open spec fn fighters_opened(
    m: MatchModel,
    p1_input: MatchInput,
    p2_input: MatchInput,
) -> MatchModel {
    let view = m.clock();
    let p1 = m.p1.with_character(Character { round_view: view, ..m.p1.character });
    let p2 = m.p2.with_character(Character { round_view: view, ..m.p2.character });
    if m.flow.round_state == RoundState::Fight {
        MatchModel { p1: p1.fed(p1_input), p2: p2.fed(p2_input), ..m }
    } else {
        MatchModel {
            p1: p1.with_character(
                Character { commands: CommandSource::NoCommands, ..p1.character },
            ),
            p2: p2.with_character(
                Character { commands: CommandSource::NoCommands, ..p2.character },
            ),
            ..m
        }
    }
}

/// The match as a live frame opens: the game clock one frame on, and nothing to
/// show of the frame before.
#[verifier::opaque]
pub open spec fn live_opened(
    m: MatchModel,
    p1_input: MatchInput,
    p2_input: MatchInput,
) -> MatchModel {
    fighters_opened(
        m.unread().with_flow(Flow { game_time: saturated(m.flow.game_time + 1), ..m.flow }),
        p1_input,
        p2_input,
    )
}

/// The match as a frozen frame opens: no sounds, nothing to show of the frame
/// before, and the exempt fighter, if any, with a clock to read and no commands.
#[verifier::opaque]
pub open spec fn frozen_opened(m: MatchModel) -> MatchModel {
    let quiet = m.unread().with_sounds(Side::P1, Seq::empty()).with_sounds(
        Side::P2,
        Seq::empty(),
    );
    match m.freeze.exempt {
        FreezeExempt::Nobody => MatchModel { freeze: m.freeze.counted(), ..quiet },
        FreezeExempt::P1 => quiet.with_character(
            Side::P1,
            Character {
                round_view: m.clock(),
                commands: CommandSource::NoCommands,
                ..m.p1.character
            },
        ),
        FreezeExempt::P2 => quiet.with_character(
            Side::P2,
            Character {
                round_view: m.clock(),
                commands: CommandSource::NoCommands,
                ..m.p2.character
            },
        ),
    }
}

/// The match as a frame opens.
pub open spec fn opened(m: MatchModel, p1_input: MatchInput, p2_input: MatchInput) -> MatchModel {
    if m.freeze.holds() {
        frozen_opened(m)
    } else {
        live_opened(m, p1_input, p2_input)
    }
}

/// What a frame waits for first.
pub open spec fn first_stage(m: MatchModel) -> Stage {
    if m.freeze.holds() {
        match m.freeze.exempt {
            FreezeExempt::Nobody => Stage::Done,
            FreezeExempt::P1 => Stage::Alone(Side::P1),
            FreezeExempt::P2 => Stage::Alone(Side::P2),
        }
    } else {
        Stage::Open
    }
}

/// Whether `f` is a frame that has just opened on `m`.
pub open spec fn just_opened(
    f: Frame,
    m: MatchModel,
    p1_input: MatchInput,
    p2_input: MatchInput,
    p1_partner: Option<u64>,
    p2_partner: Option<u64>,
) -> bool {
    &&& f.stage == first_stage(m)
    &&& f.p1_input == p1_input
    &&& f.p2_input == p2_input
    &&& f.p1_partner == p1_partner
    &&& f.p2_partner == p2_partner
    &&& f.fighting == (m.flow.round_state == RoundState::Fight)
    &&& f.p1_x == m.p1.character.pos.x
    &&& f.p2_x == m.p2.character.pos.x
}

/// A frozen frame over: the exempt fighter has ticked, and its sounds are the
/// only ones. Nothing that it asked for is done.
#[verifier::opaque]
pub open spec fn ticked_alone(
    m: MatchModel,
    f: Frame,
    side: Side,
    fighter: Character,
    report: TickReport,
) -> (MatchModel, Frame) {
    (
        MatchModel {
            freeze: m.freeze.counted(),
            ..m.with_character(side, fighter).with_sounds(side, report.sound_requests@)
        },
        f.at(Stage::Done),
    )
}

/// Inputs read: what was matched is kept while the fight is live.
#[verifier::opaque]
pub open spec fn inputs_read(
    m: MatchModel,
    f: Frame,
    p1_matched: Seq<String>,
    p2_matched: Seq<String>,
) -> (MatchModel, Frame) {
    (
        if f.fighting {
            MatchModel {
                p1: PlayerModel { just_matched: p1_matched, ..m.p1 },
                p2: PlayerModel { just_matched: p2_matched, ..m.p2 },
                ..m
            }
        } else {
            m
        },
        f.at(Stage::Root(Side::P1)),
    )
}

/// Both fighters have ticked: freezes are armed, player 2's after player 1's, so
/// that the later request wins. Only a live fight can be frozen.
#[verifier::opaque]
pub open spec fn roots_done(m: MatchModel, f: Frame) -> (MatchModel, Frame) {
    (
        if f.fighting {
            MatchModel {
                freeze: m.freeze.armed(f.p1_orders.freeze_request, FreezeExempt::P1).armed(
                    f.p2_orders.freeze_request,
                    FreezeExempt::P2,
                ),
                ..m
            }
        } else {
            m
        },
        f.at(Stage::SpawnHelpers),
    )
}

/// A side's target operations from `from` on, up to the next that needs the host.
/// Once there is none left the other fighter ticks, or both have.
#[verifier::opaque]
pub open spec fn ops_run(m: MatchModel, f: Frame, side: Side, from: int) -> (MatchModel, Frame) {
    let ops = f.orders(side).target_ops@;
    let binder = m.player(side).character;
    let other = side.opponent_spec();
    let i = next_work(ops, from);
    let done = m.with_character(
        other,
        after_ops(binder, m.player(other).character, ops, from),
    );
    if i < ops.len() {
        (done, f.at(Stage::Ops(side, i as usize)))
    } else {
        ops_done(done, f, side)
    }
}

/// What follows a side's target operations.
#[verifier::opaque]
pub open spec fn ops_done(m: MatchModel, f: Frame, side: Side) -> (MatchModel, Frame) {
    match side {
        Side::P1 => (m, f.at(Stage::Root(Side::P2))),
        Side::P2 => roots_done(m, f),
    }
}

/// A fighter has ticked: its sounds replace those before, and while the fight is
/// live its target operations are applied to its opponent.
#[verifier::opaque]
pub open spec fn root_ticked(
    m: MatchModel,
    f: Frame,
    side: Side,
    fighter: Character,
    report: TickReport,
) -> (MatchModel, Frame) {
    let next = m.with_character(side, fighter).with_sounds(side, report.sound_requests@);
    let frame = f.with_orders(side, report.orders);
    if f.fighting {
        ops_run(next, frame, side, 0)
    } else {
        ops_done(next, frame, side)
    }
}

/// Whether a reply fits what a target operation needs.
pub open spec fn serves(op: TargetOp, reply: Reply) -> bool {
    match op {
        TargetOp::State(_) => reply is Entered,
        TargetOp::Bind { .. } => reply is Sum,
        TargetOp::VelAdd(_) => reply is Sum,
        _ => false,
    }
}

/// The target once the host has done what an operation needs.
pub open spec fn served(target: Character, op: TargetOp, reply: Reply) -> Character {
    match (op, reply) {
        (TargetOp::State(_), Reply::Entered(c)) => c,
        (TargetOp::Bind { .. }, Reply::Sum(v)) => Character { pos: v, ..target },
        (TargetOp::VelAdd(_), Reply::Sum(v)) => Character { vel: v, ..target },
        _ => target,
    }
}

/// The host has done what a side's operation `i` needs.
#[verifier::opaque]
pub open spec fn op_served(
    m: MatchModel,
    f: Frame,
    side: Side,
    i: int,
    reply: Reply,
) -> (MatchModel, Frame) {
    let ops = f.orders(side).target_ops@;
    let other = side.opponent_spec();
    if 0 <= i < ops.len() && serves(ops[i], reply) {
        ops_run(
            m.with_character(other, served(m.player(other).character, ops[i], reply)),
            f,
            side,
            i + 1,
        )
    } else {
        (m, f)
    }
}

/// The helpers to make for a side.
pub open spec fn births(m: MatchModel, f: Frame, side: Side) -> Seq<HelperBirth> {
    match side {
        Side::P1 => m.p1.helper_births(f.p1_orders.helper_spawns@, f.p2_x, m.flow.bounds.seen()),
        Side::P2 => m.p2.helper_births(f.p2_orders.helper_spawns@, f.p1_x, m.flow.bounds.seen()),
    }
}

/// Helpers have been made.
#[verifier::opaque]
pub open spec fn helpers_made(
    m: MatchModel,
    f: Frame,
    p1: Seq<Character>,
    p2: Seq<Character>,
) -> (MatchModel, Frame) {
    if p1.len() == births(m, f, Side::P1).len() && p2.len() == births(m, f, Side::P2).len() {
        (
            MatchModel {
                p1: m.p1.with_helpers(
                    helpers_spawned(m.p1.helpers, f.p1_orders.helper_spawns@, p1),
                ),
                p2: m.p2.with_helpers(
                    helpers_spawned(m.p2.helpers, f.p2_orders.helper_spawns@, p2),
                ),
                ..m
            },
            f.at(Stage::TickHelpers),
        )
    } else {
        (m, f)
    }
}

/// Helpers have ticked.
#[verifier::opaque]
pub open spec fn helpers_ran(
    m: MatchModel,
    f: Frame,
    p1: Seq<HelperTick>,
    p2: Seq<HelperTick>,
) -> (MatchModel, Frame) {
    let due1 = helpers_due(m.p1.helpers);
    let due2 = helpers_due(m.p2.helpers);
    if p1.len() == due1.len() && p2.len() == due2.len() {
        (
            MatchModel {
                p1: m.p1.with_helpers(helpers_kept(due1, p1)),
                p2: m.p2.with_helpers(helpers_kept(due2, p2)),
                ..m
            },
            f.at(Stage::SpawnProjectiles),
        )
    } else {
        (m, f)
    }
}

/// Projectiles have been made.
#[verifier::opaque]
pub open spec fn projectiles_made(
    m: MatchModel,
    f: Frame,
    p1: Seq<Character>,
    p2: Seq<Character>,
) -> (MatchModel, Frame) {
    let spawns1 = f.p1_orders.projectile_spawns@;
    let spawns2 = f.p2_orders.projectile_spawns@;
    if p1.len() == m.p1.projectile_births(spawns1).len() && p2.len()
        == m.p2.projectile_births(spawns2).len() {
        (
            MatchModel {
                p1: m.p1.with_projectiles(
                    projectiles_spawned(m.p1.projectiles, m.p1.character, spawns1, p1),
                ),
                p2: m.p2.with_projectiles(
                    projectiles_spawned(m.p2.projectiles, m.p2.character, spawns2, p2),
                ),
                ..m
            },
            f.at(Stage::MoveProjectiles),
        )
    } else {
        (m, f)
    }
}

/// A player with its explods one frame on: new ones spawned, changes applied,
/// then all of them ticked. `seen_x` is where the opponent stood when the frame
/// began, `opponent_x` where it stands now.
#[verifier::opaque]
pub open spec fn explods_run(
    p: PlayerModel,
    orders: Orders,
    owner_id: i32,
    seen_x: Scalar,
    opponent_x: Scalar,
    stage: StageView,
) -> PlayerModel {
    let spawned = explods_spawned(
        p.explods,
        p.character,
        p.loaded.air,
        orders.explod_spawns@,
        owner_id,
        seen_x,
        stage,
    );
    let changed = after_explod_ops(spawned, orders.explod_ops@);
    p.with_explods(
        explods_ticked(
            changed,
            p.loaded.air,
            p.character.pos,
            p.character.facing,
            opponent_x,
            stage,
        ),
    )
}

/// The match with its explods one frame on and no frame advantage to show.
#[verifier::opaque]
pub open spec fn displays_run(m: MatchModel, f: Frame) -> MatchModel {
    let stage = m.flow.bounds.seen();
    MatchModel {
        p1: PlayerModel {
            frame_advantage: None,
            ..explods_run(
                m.p1,
                f.p1_orders,
                Side::P1.player_id_spec(),
                f.p2_x,
                m.p2.character.pos.x,
                stage,
            )
        },
        p2: PlayerModel {
            frame_advantage: None,
            ..explods_run(
                m.p2,
                f.p2_orders,
                Side::P2.player_id_spec(),
                f.p1_x,
                m.p1.character.pos.x,
                stage,
            )
        },
        ..m
    }
}

/// What comes after combat: sparks one tick on, then pushing.
#[verifier::opaque]
pub open spec fn combat_done(m: MatchModel, f: Frame) -> (MatchModel, Frame) {
    (m.effects_advanced(), f.at(Stage::Push))
}

/// What comes after the projectiles have moved: the explods, then combat while
/// the fight is live, and first of all a clash where there may be one.
#[verifier::opaque]
pub open spec fn combat_begun(m: MatchModel, f: Frame) -> (MatchModel, Frame) {
    let next = displays_run(m, f);
    if !f.fighting {
        combat_done(next, f)
    } else if next.may_clash() {
        (next, f.at(Stage::Clash))
    } else {
        (next, f.at(Stage::Attack(Side::P1)))
    }
}

/// Projectiles have moved: those that are past an edge are gone.
#[verifier::opaque]
pub open spec fn projectiles_flew(
    m: MatchModel,
    f: Frame,
    p1: Seq<Vec2>,
    p2: Seq<Vec2>,
    edges: Vec2,
) -> (MatchModel, Frame) {
    let due1 = projectiles_due(m.p1.projectiles);
    let due2 = projectiles_due(m.p2.projectiles);
    if p1.len() == due1.len() && p2.len() == due2.len() {
        combat_begun(
            MatchModel {
                p1: m.p1.with_projectiles(
                    projectiles_moved(due1, p1, m.p1.loaded.air, edges.x, edges.y),
                ),
                p2: m.p2.with_projectiles(
                    projectiles_moved(due2, p2, m.p2.loaded.air, edges.x, edges.y),
                ),
                ..m
            },
            f,
        )
    } else {
        (m, f)
    }
}

/// Two attacks have been tested: where both connect the losing ones are cancelled.
#[verifier::opaque]
pub open spec fn clash_settled(
    m: MatchModel,
    f: Frame,
    p1_hits: bool,
    p2_hits: bool,
    outcome: ClashOutcome,
) -> (MatchModel, Frame) {
    (
        if m.may_clash() && p1_hits && p2_hits {
            m.clashed(outcome)
        } else {
            m
        },
        f.at(Stage::Attack(Side::P1)),
    )
}

/// The next projectile to resolve, from a side's index `i` on; once there is none
/// combat is over.
#[verifier::opaque]
pub open spec fn projectiles_next(m: MatchModel, f: Frame, side: Side, i: int) -> (
    MatchModel,
    Frame,
) {
    if i < m.player(side).projectiles.len() {
        (m, f.at(Stage::Projectile(side, i as usize)))
    } else if side == Side::P1 && m.p2.projectiles.len() > 0 {
        (m, f.at(Stage::Projectile(Side::P2, 0)))
    } else {
        combat_done(m, f)
    }
}

/// What follows a side's attack.
#[verifier::opaque]
pub open spec fn attack_done(m: MatchModel, f: Frame, side: Side) -> (MatchModel, Frame) {
    match side {
        Side::P1 => (m, f.at(Stage::Attack(Side::P2))),
        Side::P2 => projectiles_next(m, f, Side::P1, 0),
    }
}

/// The match with everything that comes of a landed attack but the attacker's
/// own state: the frame advantage, the sound of the impact, and the spark at the
/// point of contact.
#[verifier::opaque]
pub open spec fn impact(
    m: MatchModel,
    side: Side,
    landed: Landed,
    spark: Option<SparkSource>,
    contact: Option<Vec2>,
) -> MatchModel {
    let attacker = m.player(side);
    let noted = m.with_player(
        side,
        PlayerModel {
            frame_advantage: advantage(attacker, landed.move_total, landed.stun),
            ..attacker
        },
    );
    let heard = match landed.hit_sound {
        Some(s) => noted.with_sounds(side, noted.sounds(side).push(impact_sound(s))),
        None => noted,
    };
    match (spark, contact) {
        (Some(source), Some(point)) => heard.sparked(effect_side(side), source, point),
        _ => heard,
    }
}

/// The spark of a fighter's armed attack.
pub open spec fn spark_of(c: Character) -> Option<SparkSource> {
    match c.active_hitdef {
        Some(hd) => Some(hd.spark),
        None => None,
    }
}

/// An attack has been resolved. Its spark and whether it could touch at all are
/// those of before.
#[verifier::opaque]
pub open spec fn attack_resolved(
    m: MatchModel,
    f: Frame,
    side: Side,
    attacker: Character,
    defender: Character,
    landed: Option<Landed>,
) -> (MatchModel, Frame) {
    let other = side.opponent_spec();
    let next = m.with_character(side, attacker).with_character(other, defender);
    match landed {
        None => attack_done(next, f, side),
        Some(l) => {
            let contact = if may_touch(m.player(side), m.player(other)) {
                l.contact
            } else {
                None
            };
            let hit = impact(next, side, l, spark_of(m.player(side).character), contact);
            match l.attacker_state {
                Some(state_no) => (hit, f.at(Stage::AttackerState(side, state_no))),
                None => attack_done(hit, f, side),
            }
        },
    }
}

/// A projectile's attack has been resolved. One that lands is gone, and makes the
/// defender its owner's target.
#[verifier::opaque]
pub open spec fn projectile_resolved(
    m: MatchModel,
    f: Frame,
    side: Side,
    i: int,
    projectile: Character,
    defender: Character,
    landed: Option<bool>,
) -> (MatchModel, Frame) {
    let owner = m.player(side);
    if i < 0 || i >= owner.projectiles.len() {
        (m, f)
    } else {
        let next = m.with_character(side.opponent_spec(), defender);
        match landed {
            None => projectiles_next(
                next.with_player(side, projectile_kept(owner, i, projectile)),
                f,
                side,
                i + 1,
            ),
            Some(guarded) => (
                next.with_player(side, projectile_spent(owner, i)),
                f.at(Stage::RecordHit(side, i as usize, owner.projectiles[i].proj_id, guarded)),
            ),
        }
    }
}

/// The bodies have been pushed and clamped: fighters turn, and the round moves on.
#[verifier::opaque]
pub open spec fn pushed_and_advanced(m: MatchModel, f: Frame, x1: Scalar, x2: Scalar) -> (
    MatchModel,
    Frame,
) {
    let (next, new_round) = m.pushed(x1, x2).faced().round_advanced();
    (
        next,
        f.at(
            if new_round {
                Stage::NewRound
            } else {
                Stage::Done
            },
        ),
    )
}

/// The match and the frame after a reply. One that does not fit changes nothing.
pub open spec fn stepped(m: MatchModel, f: Frame, reply: Reply) -> (MatchModel, Frame) {
    match (f.stage, reply) {
        (Stage::Alone(side), Reply::Ticked { fighter, report }) => ticked_alone(
            m,
            f,
            side,
            fighter,
            report,
        ),
        (Stage::Open, Reply::Opened { p1_matched, p2_matched }) => inputs_read(
            m,
            f,
            p1_matched@,
            p2_matched@,
        ),
        (Stage::Root(side), Reply::Ticked { fighter, report }) => root_ticked(
            m,
            f,
            side,
            fighter,
            report,
        ),
        (Stage::Ops(side, i), _) => op_served(m, f, side, i as int, reply),
        (Stage::SpawnHelpers, Reply::Spawned { p1, p2 }) => helpers_made(m, f, p1@, p2@),
        (Stage::TickHelpers, Reply::HelpersTicked { p1, p2 }) => helpers_ran(m, f, p1@, p2@),
        (Stage::SpawnProjectiles, Reply::Spawned { p1, p2 }) => projectiles_made(
            m,
            f,
            p1@,
            p2@,
        ),
        (Stage::MoveProjectiles, Reply::Moved { p1, p2, edges }) => projectiles_flew(
            m,
            f,
            p1@,
            p2@,
            edges,
        ),
        (Stage::Clash, Reply::Clash { p1_hits, p2_hits, outcome }) => clash_settled(
            m,
            f,
            p1_hits,
            p2_hits,
            outcome,
        ),
        (Stage::Attack(side), Reply::Attacked { attacker, defender, landed }) => attack_resolved(
            m,
            f,
            side,
            attacker,
            defender,
            landed,
        ),
        (Stage::AttackerState(side, _), Reply::Entered(c)) => attack_done(
            m.with_character(side, c),
            f,
            side,
        ),
        (
            Stage::Projectile(side, i),
            Reply::ProjectileResolved { projectile, defender, landed },
        ) => projectile_resolved(m, f, side, i as int, projectile, defender, landed),
        (Stage::RecordHit(side, i, _, _), Reply::Acknowledged) => projectiles_next(
            m,
            f,
            side,
            i as int,
        ),
        (Stage::Push, Reply::Pushed { p1_x, p2_x }) => pushed_and_advanced(m, f, p1_x, p2_x),
        (Stage::NewRound, Reply::RoundBegun { p1, p2 }) => (
            m.round_initialised(p1, p2),
            f.at(Stage::Done),
        ),
        _ => (m, f),
    }
}

} // verus!
