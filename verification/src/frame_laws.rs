//! What holds of a frame, whatever the host answers.

use vstd::prelude::*;

use crate::air::EFFECT_MAX_LIFETIME;
use crate::arith::saturated;
use crate::character::{
    after_ops, needs_host, next_work, Character, SparkSource, TargetOp,
};
use crate::effect;
use crate::explod;
use crate::frame::{
    attack_done, attack_resolved, births, clash_settled, combat_begun, combat_done, displays_run,
    explods_run, fighters_opened, first_stage, frozen_opened, helpers_made, helpers_ran, impact,
    inputs_read, just_opened, live_opened, op_served, opened, ops_done, ops_run,
    projectile_resolved, projectiles_flew, projectiles_made, projectiles_next,
    pushed_and_advanced, root_ticked, roots_done, serves, stepped, ticked_alone, Frame, Landed,
    Reply, Request, Stage,
};
use crate::freeze::FreezeExempt;
use crate::game::{ClashOutcome, Flow, MatchModel};
use crate::helper::{self, HelperTick};
use crate::input::MatchInput;
use crate::player::PlayerModel;
use crate::projectile;
use crate::report::{Orders, TickReport};
use crate::round::{RoundState, Side};
use crate::scalar::{Scalar, Vec2};
use crate::tick::{asks, fits};

verus! {

/// The match and the frame after a number of replies.
pub open spec fn conversed(m: MatchModel, f: Frame, replies: Seq<Reply>) -> (MatchModel, Frame)
    decreases replies.len(),
{
    if replies.len() == 0 {
        (m, f)
    } else {
        let (before, frame) = conversed(m, f, replies.drop_last());
        stepped(before, frame, replies.last())
    }
}

impl MatchModel {
    /// Whether two matches agree on the round flow and on what is loaded.
    pub open spec fn same_flow(self, other: MatchModel) -> bool {
        &&& self.flow == other.flow
        &&& self.p1.loaded == other.p1.loaded
        &&& self.p2.loaded == other.p2.loaded
        &&& self.common_fx == other.common_fx
    }

    /// Whether everything on stage is within its bounds: the players own no more
    /// than they may, and no explod or spark lives longer than it may.
    pub open spec fn stage_sound(self) -> bool {
        &&& self.p1.within_caps()
        &&& self.p2.within_caps()
        &&& explod::all_bounded(self.p1.explods)
        &&& explod::all_bounded(self.p2.explods)
        &&& effect::live_at_most(self.effects, EFFECT_MAX_LIFETIME as int)
    }
}

/// Whether a live frame has not come past pushing yet.
pub open spec fn before_push(stage: Stage) -> bool {
    stage != Stage::Done && stage != Stage::NewRound && !(stage is Alone)
}

/// Whether a stage is one of combat.
pub open spec fn of_combat(stage: Stage) -> bool {
    stage is Ops || stage is Clash || stage is Attack || stage is AttackerState
        || stage is Projectile || stage is RecordHit
}

/// What every transition of a live frame keeps: the round flow, the bounds of what
/// is on stage, that outside the fight there is no combat and no freeze, and that
/// the frame waits for something that is there.
pub open spec fn kept(m: MatchModel, f: Frame, next: (MatchModel, Frame)) -> bool {
    &&& m.same_flow(next.0)
    &&& before_push(next.1.stage)
    &&& next.1.fighting == f.fighting
    &&& !f.fighting ==> !of_combat(next.1.stage) && next.0.freeze == m.freeze
    &&& fits(next.0, next.1)
    &&& next.0.stage_sound()
}

/// The operation that is stopped at needs the host.
proof fn stops_at_work(ops: Seq<TargetOp>, from: int)
    requires
        0 <= from <= ops.len(),
    ensures
        from <= next_work(ops, from) <= ops.len(),
        next_work(ops, from) < ops.len() ==> needs_host(ops[next_work(ops, from)]),
    decreases ops.len() - from,
{
    if from < ops.len() && !needs_host(ops[from]) {
        stops_at_work(ops, from + 1);
    }
}

/// The end of a side's target operations keeps what has to be kept.
proof fn ops_done_keeps(m: MatchModel, f: Frame, side: Side)
    requires
        m.stage_sound(),
    ensures
        kept(m, f, ops_done(m, f, side)),
{
    reveal(ops_done);
    reveal(roots_done);
}

/// Running target operations keeps what has to be kept.
proof fn ops_run_keeps(m: MatchModel, f: Frame, side: Side, from: int)
    requires
        m.stage_sound(),
        f.fighting,
        0 <= from <= f.orders(side).target_ops@.len(),
    ensures
        kept(m, f, ops_run(m, f, side, from)),
{
    reveal(ops_run);
    let ops = f.orders(side).target_ops@;
    let other = side.opponent_spec();
    stops_at_work(ops, from);
    assert(f.orders(side).target_ops.len() == ops.len());
    let done = m.with_character(
        other,
        after_ops(
            m.player(side).character,
            m.player(other).character,
            ops,
            from,
        ),
    );
    ops_done_keeps(done, f, side);
}

/// A fighter's tick keeps what has to be kept.
proof fn root_ticked_keeps(
    m: MatchModel,
    f: Frame,
    side: Side,
    fighter: Character,
    report: TickReport,
)
    requires
        m.stage_sound(),
    ensures
        kept(m, f, root_ticked(m, f, side, fighter, report)),
{
    reveal(root_ticked);
    let next = m.with_character(side, fighter).with_sounds(side, report.sound_requests@);
    let frame = f.with_orders(side, report.orders);
    if f.fighting {
        ops_run_keeps(next, frame, side, 0);
    } else {
        ops_done_keeps(next, frame, side);
    }
}

/// Serving a target operation keeps what has to be kept.
proof fn op_served_keeps(m: MatchModel, f: Frame, side: Side, i: int, reply: Reply)
    requires
        m.stage_sound(),
        f.fighting,
        fits(m, f),
        before_push(f.stage),
    ensures
        kept(m, f, op_served(m, f, side, i, reply)),
{
    reveal(op_served);
    let ops = f.orders(side).target_ops@;
    let other = side.opponent_spec();
    if 0 <= i < ops.len() && serves(ops[i], reply) {
        ops_run_keeps(
            m.with_character(
                other,
                crate::frame::served(m.player(other).character, ops[i], reply),
            ),
            f,
            side,
            i + 1,
        );
    }
}

/// Reading inputs keeps what has to be kept.
proof fn inputs_read_keeps(m: MatchModel, f: Frame, p1: Seq<String>, p2: Seq<String>)
    requires
        m.stage_sound(),
    ensures
        kept(m, f, inputs_read(m, f, p1, p2)),
{
    reveal(inputs_read);
}

/// Making helpers keeps what has to be kept.
proof fn helpers_made_keeps(m: MatchModel, f: Frame, p1: Seq<Character>, p2: Seq<Character>)
    requires
        m.stage_sound(),
        f.stage == Stage::SpawnHelpers,
    ensures
        kept(m, f, helpers_made(m, f, p1, p2)),
{
    reveal(helpers_made);
}

/// Ticking helpers keeps what has to be kept.
proof fn helpers_ran_keeps(m: MatchModel, f: Frame, p1: Seq<HelperTick>, p2: Seq<HelperTick>)
    requires
        m.stage_sound(),
        f.stage == Stage::TickHelpers,
    ensures
        kept(m, f, helpers_ran(m, f, p1, p2)),
{
    reveal(helpers_ran);
    helper::ticking_is_bounded(m.p1.helpers, p1);
    helper::ticking_is_bounded(m.p2.helpers, p2);
}

/// Making projectiles keeps what has to be kept.
proof fn projectiles_made_keeps(m: MatchModel, f: Frame, p1: Seq<Character>, p2: Seq<Character>)
    requires
        m.stage_sound(),
        f.stage == Stage::SpawnProjectiles,
    ensures
        kept(m, f, projectiles_made(m, f, p1, p2)),
{
    reveal(projectiles_made);
}

/// Running explods keeps a player's bounds.
proof fn explods_run_keeps(
    p: PlayerModel,
    orders: Orders,
    owner_id: i32,
    seen_x: Scalar,
    opponent_x: Scalar,
    stage: crate::stage::StageView,
)
    ensures
        ({
            let next = explods_run(p, orders, owner_id, seen_x, opponent_x, stage);
            &&& next == p.with_explods(next.explods)
            &&& p.within_caps() && explod::all_bounded(p.explods) ==> next.within_caps()
                && explod::all_bounded(next.explods)
        }),
{
    reveal(explods_run);
    if p.within_caps() && explod::all_bounded(p.explods) {
        explod::spawning_is_bounded(
            p.explods,
            p.character,
            p.loaded.air,
            orders.explod_spawns@,
            owner_id,
            seen_x,
            stage,
        );
        let spawned = explod::explods_spawned(
            p.explods,
            p.character,
            p.loaded.air,
            orders.explod_spawns@,
            owner_id,
            seen_x,
            stage,
        );
        explod::changing_is_bounded(spawned, orders.explod_ops@);
        explod::ticking_is_bounded(
            explod::after_explod_ops(spawned, orders.explod_ops@),
            p.loaded.air,
            p.character.pos,
            p.character.facing,
            opponent_x,
            stage,
        );
    }
}

/// Running the explods of both players keeps the flow and the bounds.
proof fn displays_run_keeps(m: MatchModel, f: Frame)
    ensures
        m.same_flow(displays_run(m, f)),
        displays_run(m, f).freeze == m.freeze,
        m.stage_sound() ==> displays_run(m, f).stage_sound(),
{
    reveal(displays_run);
    let stage = m.flow.bounds.seen();
    explods_run_keeps(
        m.p1,
        f.p1_orders,
        Side::P1.player_id_spec(),
        f.p2_x,
        m.p2.character.pos.x,
        stage,
    );
    explods_run_keeps(
        m.p2,
        f.p2_orders,
        Side::P2.player_id_spec(),
        f.p1_x,
        m.p1.character.pos.x,
        stage,
    );
}

/// The end of combat keeps what has to be kept.
proof fn combat_done_keeps(m: MatchModel, f: Frame)
    requires
        m.stage_sound(),
    ensures
        kept(m, f, combat_done(m, f)),
{
    reveal(effect::live_at_most);
    reveal(combat_done);
    if effect::live_at_most(m.effects, EFFECT_MAX_LIFETIME as int) {
        effect::tick_shortens(
            m.effects,
            m.p1.loaded.air,
            m.p2.loaded.air,
            m.common_fx,
            EFFECT_MAX_LIFETIME as int,
        );
    }
}

/// The beginning of combat keeps what has to be kept.
proof fn combat_begun_keeps(m: MatchModel, f: Frame)
    requires
        m.stage_sound(),
    ensures
        kept(m, f, combat_begun(m, f)),
{
    reveal(combat_begun);
    displays_run_keeps(m, f);
    combat_done_keeps(displays_run(m, f), f);
}

/// Moving projectiles keeps what has to be kept.
proof fn projectiles_flew_keeps(
    m: MatchModel,
    f: Frame,
    p1: Seq<Vec2>,
    p2: Seq<Vec2>,
    edges: Vec2,
)
    requires
        m.stage_sound(),
        f.stage == Stage::MoveProjectiles,
    ensures
        kept(m, f, projectiles_flew(m, f, p1, p2, edges)),
{
    reveal(projectiles_flew);
    let due1 = projectile::projectiles_due(m.p1.projectiles);
    let due2 = projectile::projectiles_due(m.p2.projectiles);
    projectile::moving_is_bounded(m.p1.projectiles, p1, m.p1.loaded.air, edges.x, edges.y);
    projectile::moving_is_bounded(m.p2.projectiles, p2, m.p2.loaded.air, edges.x, edges.y);
    let next = MatchModel {
        p1: m.p1.with_projectiles(
            projectile::projectiles_moved(due1, p1, m.p1.loaded.air, edges.x, edges.y),
        ),
        p2: m.p2.with_projectiles(
            projectile::projectiles_moved(due2, p2, m.p2.loaded.air, edges.x, edges.y),
        ),
        ..m
    };
    assert(m.stage_sound() ==> next.stage_sound());
    combat_begun_keeps(next, f);
}

/// Settling a clash keeps what has to be kept.
proof fn clash_settled_keeps(
    m: MatchModel,
    f: Frame,
    p1_hits: bool,
    p2_hits: bool,
    outcome: ClashOutcome,
)
    requires
        m.stage_sound(),
        f.fighting,
    ensures
        kept(m, f, clash_settled(m, f, p1_hits, p2_hits, outcome)),
{
    reveal(clash_settled);
}

/// Going on to the next projectile keeps what has to be kept.
proof fn projectiles_next_keeps(m: MatchModel, f: Frame, side: Side, i: int)
    requires
        m.stage_sound(),
        f.fighting,
        0 <= i,
    ensures
        kept(m, f, projectiles_next(m, f, side, i)),
{
    reveal(projectiles_next);
    combat_done_keeps(m, f);
}

/// What follows an attack keeps what has to be kept.
proof fn attack_done_keeps(m: MatchModel, f: Frame, side: Side)
    requires
        m.stage_sound(),
        f.fighting,
    ensures
        kept(m, f, attack_done(m, f, side)),
{
    reveal(attack_done);
    if side == Side::P2 {
        projectiles_next_keeps(m, f, Side::P1, 0);
    }
}

/// An impact keeps the flow and the bounds.
proof fn impact_keeps(
    m: MatchModel,
    side: Side,
    landed: Landed,
    spark: Option<SparkSource>,
    contact: Option<Vec2>,
)
    ensures
        ({
            let next = impact(m, side, landed, spark, contact);
            &&& m.same_flow(next)
            &&& m.stage_sound() ==> next.stage_sound()
            &&& next.p1.projectiles == m.p1.projectiles
            &&& next.p2.projectiles == m.p2.projectiles
            &&& next.freeze == m.freeze
        }),
{
    reveal(effect::live_at_most);
    reveal(impact);
    let next = impact(m, side, landed, spark, contact);
    if m.stage_sound() {
        assert forall|i: int| 0 <= i < next.effects.len() implies (
        #[trigger] next.effects[i]).remaining <= EFFECT_MAX_LIFETIME by {
            if i < m.effects.len() {
                assert(next.effects[i] == m.effects[i]);
            }
        }
    }
}

/// Resolving an attack keeps what has to be kept.
proof fn attack_resolved_keeps(
    m: MatchModel,
    f: Frame,
    side: Side,
    attacker: Character,
    defender: Character,
    landed: Option<Landed>,
)
    requires
        m.stage_sound(),
        f.fighting,
    ensures
        kept(m, f, attack_resolved(m, f, side, attacker, defender, landed)),
{
    reveal(attack_resolved);
    let other = side.opponent_spec();
    let next = m.with_character(side, attacker).with_character(other, defender);
    match landed {
        None => {
            attack_done_keeps(next, f, side);
        },
        Some(l) => {
            let contact = if crate::player::may_touch(m.player(side), m.player(other)) {
                l.contact
            } else {
                None
            };
            let spark = crate::frame::spark_of(m.player(side).character);
            impact_keeps(next, side, l, spark, contact);
            attack_done_keeps(impact(next, side, l, spark, contact), f, side);
        },
    }
}

/// Resolving a projectile keeps what has to be kept.
proof fn projectile_resolved_keeps(
    m: MatchModel,
    f: Frame,
    side: Side,
    i: int,
    projectile: Character,
    defender: Character,
    landed: Option<bool>,
)
    requires
        m.stage_sound(),
        f.fighting,
        fits(m, f),
        before_push(f.stage),
    ensures
        kept(m, f, projectile_resolved(m, f, side, i, projectile, defender, landed)),
{
    reveal(projectile_resolved);
    let owner = m.player(side);
    if 0 <= i < owner.projectiles.len() && landed is None {
        let next = m.with_character(side.opponent_spec(), defender).with_player(
            side,
            crate::player::projectile_kept(owner, i, projectile),
        );
        projectiles_next_keeps(next, f, side, i + 1);
    }
}

/// Whatever the host answers, a live frame that has not come past pushing keeps
/// what has to be kept.
pub proof fn step_keeps(m: MatchModel, f: Frame, reply: Reply)
    requires
        before_push(f.stage),
        f.stage != Stage::Push,
        fits(m, f),
        m.stage_sound(),
        f.fighting || !of_combat(f.stage),
    ensures
        kept(m, f, stepped(m, f, reply)),
{
    match (f.stage, reply) {
        (Stage::Open, Reply::Opened { p1_matched, p2_matched }) => {
            inputs_read_keeps(m, f, p1_matched@, p2_matched@);
        },
        (Stage::Root(side), Reply::Ticked { fighter, report }) => {
            root_ticked_keeps(m, f, side, fighter, report);
        },
        (Stage::Ops(side, i), _) => {
            op_served_keeps(m, f, side, i as int, reply);
        },
        (Stage::SpawnHelpers, Reply::Spawned { p1, p2 }) => {
            helpers_made_keeps(m, f, p1@, p2@);
        },
        (Stage::TickHelpers, Reply::HelpersTicked { p1, p2 }) => {
            helpers_ran_keeps(m, f, p1@, p2@);
        },
        (Stage::SpawnProjectiles, Reply::Spawned { p1, p2 }) => {
            projectiles_made_keeps(m, f, p1@, p2@);
        },
        (Stage::MoveProjectiles, Reply::Moved { p1, p2, edges }) => {
            projectiles_flew_keeps(m, f, p1@, p2@, edges);
        },
        (Stage::Clash, Reply::Clash { p1_hits, p2_hits, outcome }) => {
            clash_settled_keeps(m, f, p1_hits, p2_hits, outcome);
        },
        (Stage::Attack(side), Reply::Attacked { attacker, defender, landed }) => {
            attack_resolved_keeps(m, f, side, attacker, defender, landed);
        },
        (Stage::AttackerState(side, _), Reply::Entered(c)) => {
            attack_done_keeps(m.with_character(side, c), f, side);
        },
        (
            Stage::Projectile(side, i),
            Reply::ProjectileResolved { projectile, defender, landed },
        ) => {
            projectile_resolved_keeps(m, f, side, i as int, projectile, defender, landed);
        },
        (Stage::RecordHit(side, i, _, _), Reply::Acknowledged) => {
            projectiles_next_keeps(m, f, side, i as int);
        },
        _ => {},
    }
}

/// Giving the fighters a clock to read and inputs touches nothing but them.
proof fn fighters_opened_keeps(m: MatchModel, p1_input: MatchInput, p2_input: MatchInput)
    ensures
        ({
            let next = fighters_opened(m, p1_input, p2_input);
            &&& next.p1 == m.p1.with_character(next.p1.character)
            &&& next.p2 == m.p2.with_character(next.p2.character)
            &&& next == (MatchModel { p1: next.p1, p2: next.p2, ..m })
        }),
{
    reveal(fighters_opened);
}

/// Opening a frame touches nothing of the round flow but the game clock, which
/// moves on unless a freeze holds. What is on stage stays within its bounds.
pub proof fn opening_moves_the_game_clock(
    m: MatchModel,
    p1_input: MatchInput,
    p2_input: MatchInput,
)
    ensures
        ({
            let next = opened(m, p1_input, p2_input);
            &&& next.flow.game_time == if m.freeze.holds() {
                m.flow.game_time
            } else {
                saturated(m.flow.game_time + 1)
            }
            &&& next.same_flow(m.with_flow(Flow { game_time: next.flow.game_time, ..m.flow }))
            &&& m.stage_sound() ==> next.stage_sound()
        }),
{
    if m.freeze.holds() {
        reveal(frozen_opened);
    } else {
        reveal(live_opened);
        fighters_opened_keeps(
            m.unread().with_flow(Flow { game_time: saturated(m.flow.game_time + 1), ..m.flow }),
            p1_input,
            p2_input,
        );
    }
}

/// Pushing and turning touch the fighters alone.
proof fn pushing_touches_fighters(m: MatchModel, x1: Scalar, x2: Scalar)
    ensures
        ({
            let next = m.pushed(x1, x2).faced();
            &&& next.p1 == m.p1.with_character(next.p1.character)
            &&& next.p2 == m.p2.with_character(next.p2.character)
            &&& next == (MatchModel { p1: next.p1, p2: next.p2, ..m })
        }),
{
}

/// The round flow keeps what is on stage within its bounds.
proof fn flow_keeps_the_stage_sound(m: MatchModel)
    requires
        m.stage_sound(),
    ensures
        m.round_advanced().0.stage_sound(),
{
    reveal(MatchModel::round_advanced);
    match m.flow.round_state {
        RoundState::Win => {
            reveal(effect::live_at_most);
            reveal(explod::all_bounded);
        },
        _ => {},
    }
}

/// Pushing keeps what is on stage within its bounds, and moves the round flow on
/// once.
proof fn push_moves_the_flow(m: MatchModel, f: Frame, x1: Scalar, x2: Scalar)
    requires
        m.stage_sound(),
    ensures
        ({
            let (next, frame) = pushed_and_advanced(m, f, x1, x2);
            &&& m.same_flow(m.pushed(x1, x2).faced())
            &&& next == m.pushed(x1, x2).faced().round_advanced().0
            &&& next.stage_sound()
            &&& frame.stage == Stage::Done || frame.stage == Stage::NewRound
            &&& frame.fighting == f.fighting
        }),
{
    reveal(pushed_and_advanced);
    pushing_touches_fighters(m, x1, x2);
    flow_keeps_the_stage_sound(m.pushed(x1, x2).faced());
}

/// Whether the round flow of `b` is that of `a` moved on once.
pub open spec fn moved_on_once(a: MatchModel, b: MatchModel) -> bool {
    exists|mid: MatchModel| #[trigger]
        a.same_flow(mid) && b.same_flow(mid.round_advanced().0)
}

/// What holds throughout a live frame that began as `f` on `m`: the round flow
/// stands still until the bodies have been pushed, and then moves on exactly once;
/// what is on stage stays within its bounds; outside the fight there is no combat,
/// and no freeze is armed; and the frame waits for something that is there.
pub open spec fn live_sound(m: MatchModel, f: Frame, after: MatchModel, frame: Frame) -> bool {
    &&& after.stage_sound()
    &&& fits(after, frame)
    &&& frame.fighting == f.fighting
    &&& !f.fighting ==> !of_combat(frame.stage)
    &&& if before_push(frame.stage) {
        m.same_flow(after) && (!f.fighting ==> after.freeze == m.freeze)
    } else {
        !(frame.stage is Alone) && moved_on_once(m, after)
    }
}

/// An answer to pushing keeps a live frame sound.
proof fn push_stays_sound(m: MatchModel, f: Frame, before: MatchModel, frame: Frame, reply: Reply)
    requires
        live_sound(m, f, before, frame),
        frame.stage == Stage::Push,
    ensures
        live_sound(m, f, stepped(before, frame, reply).0, stepped(before, frame, reply).1),
{
    if let Reply::Pushed { p1_x, p2_x } = reply {
        push_moves_the_flow(before, frame, p1_x, p2_x);
        let mid = before.pushed(p1_x, p2_x).faced();
        let (after, next) = pushed_and_advanced(before, frame, p1_x, p2_x);
        assert(stepped(before, frame, reply) == (after, next));
        assert(m.same_flow(mid) && after.same_flow(mid.round_advanced().0));
    }
}

/// An answer after pushing keeps a live frame sound.
proof fn end_stays_sound(m: MatchModel, f: Frame, before: MatchModel, frame: Frame, reply: Reply)
    requires
        live_sound(m, f, before, frame),
        !before_push(frame.stage),
    ensures
        live_sound(m, f, stepped(before, frame, reply).0, stepped(before, frame, reply).1),
{
    let (after, next) = stepped(before, frame, reply);
    match (frame.stage, reply) {
        (Stage::NewRound, Reply::RoundBegun { p1, p2 }) => {
            round_init_touches_fighters(before, p1, p2);
        },
        _ => {
            assert(after == before && next == frame);
        },
    }
    let mid = choose|mid: MatchModel| #[trigger]
        m.same_flow(mid) && before.same_flow(mid.round_advanced().0);
    assert(m.same_flow(mid) && after.same_flow(mid.round_advanced().0));
}

/// Entering the round-init state touches the fighters alone.
proof fn round_init_touches_fighters(m: MatchModel, c1: Character, c2: Character)
    ensures
        ({
            let next = m.round_initialised(c1, c2);
            &&& next.p1 == m.p1.with_character(next.p1.character)
            &&& next.p2 == m.p2.with_character(next.p2.character)
            &&& next == (MatchModel { p1: next.p1, p2: next.p2, ..m })
        }),
{
}

/// A live frame is sound from its opening to its end, whatever the host answers.
pub proof fn live_conversation(m: MatchModel, f: Frame, replies: Seq<Reply>)
    requires
        before_push(f.stage),
        fits(m, f),
        m.stage_sound(),
        f.fighting || !of_combat(f.stage),
    ensures
        live_sound(m, f, conversed(m, f, replies).0, conversed(m, f, replies).1),
    decreases replies.len(),
{
    if replies.len() > 0 {
        let rest = replies.drop_last();
        let reply = replies.last();
        live_conversation(m, f, rest);
        let (before, frame) = conversed(m, f, rest);
        if frame.stage == Stage::Push {
            push_stays_sound(m, f, before, frame, reply);
        } else if before_push(frame.stage) {
            step_keeps(before, frame, reply);
        } else {
            end_stays_sound(m, f, before, frame, reply);
        }
    }
}

/// A frame that has just opened waits for something that is there, and while the
/// fight is not live it is not in combat.
pub proof fn opened_frame_is_sound(
    m: MatchModel,
    f: Frame,
    p1_input: MatchInput,
    p2_input: MatchInput,
)
    requires
        just_opened(f, m, p1_input, p2_input, f.p1_partner, f.p2_partner),
    ensures
        fits(opened(m, p1_input, p2_input), f),
        !of_combat(f.stage),
        !m.freeze.holds() ==> before_push(f.stage),
{
}

/// A frame asks for nothing exactly when it is over.
pub proof fn done_means_over(m: MatchModel, f: Frame, req: Request)
    requires
        fits(m, f),
        asks(m, f, req),
    ensures
        req == Request::Done <==> f.stage == Stage::Done,
{
}

/// A whole live frame, once it is over: the game clock is one frame on; and either
/// the round goes on, the phase having moved by at most one and the round clock
/// having lost one frame in the fight and none elsewhere, or a new round has begun
/// with a full clock.
pub proof fn live_frame_law(
    m: MatchModel,
    f: Frame,
    p1_input: MatchInput,
    p2_input: MatchInput,
    replies: Seq<Reply>,
)
    requires
        !m.freeze.holds(),
        m.stage_sound(),
        0 <= m.flow.timer,
        just_opened(f, m, p1_input, p2_input, f.p1_partner, f.p2_partner),
        conversed(opened(m, p1_input, p2_input), f, replies).1.stage == Stage::Done,
    ensures
        ({
            let after = conversed(opened(m, p1_input, p2_input), f, replies).0;
            &&& after.stage_sound()
            &&& after.flow.game_time == saturated(m.flow.game_time + 1)
            &&& {
                ||| {
                    &&& after.flow.round_number == m.flow.round_number
                    &&& m.flow.round_state.code() <= after.flow.round_state.code()
                    &&& after.flow.round_state.code() <= m.flow.round_state.code() + 1
                    &&& after.flow.timer == if m.flow.round_state == RoundState::Fight
                        && m.flow.timer > 0 {
                        m.flow.timer - 1
                    } else {
                        m.flow.timer as int
                    }
                }
                ||| {
                    &&& m.flow.round_state == RoundState::Win
                    &&& after.flow.round_state == RoundState::Intro
                    &&& after.flow.round_number == saturated(m.flow.round_number + 1)
                    &&& after.flow.timer == m.flow.round_frames
                }
            }
        }),
{
    let start = opened(m, p1_input, p2_input);
    opened_frame_is_sound(m, f, p1_input, p2_input);
    opening_moves_the_game_clock(m, p1_input, p2_input);
    live_conversation(start, f, replies);
    let after = conversed(start, f, replies).0;
    let mid = choose|mid: MatchModel| #[trigger]
        start.same_flow(mid) && after.same_flow(mid.round_advanced().0);
    assert(start.same_flow(mid) && after.same_flow(mid.round_advanced().0));
    reveal(MatchModel::round_advanced);
}

/// What a frozen frame leaves alone: the round flow, the sparks, everything that
/// the players own, and the fighter that is not exempt. Nothing connects and no
/// input is read on it, so it leaves no frame advantage and no commands to show.
pub open spec fn held(m: MatchModel, after: MatchModel) -> bool {
    &&& m.same_flow(after)
    &&& after.effects == m.effects
    &&& after.p1.helpers == m.p1.helpers && after.p2.helpers == m.p2.helpers
    &&& after.p1.projectiles == m.p1.projectiles && after.p2.projectiles == m.p2.projectiles
    &&& after.p1.explods == m.p1.explods && after.p2.explods == m.p2.explods
    &&& after.p1.frame_advantage is None && after.p2.frame_advantage is None
    &&& after.p1.just_matched.len() == 0 && after.p2.just_matched.len() == 0
    &&& m.freeze.exempt != FreezeExempt::P1 ==> after.p1.character == m.p1.character
        && after.p1_sound_requests.len() == 0
    &&& m.freeze.exempt != FreezeExempt::P2 ==> after.p2.character == m.p2.character
        && after.p2_sound_requests.len() == 0
}

/// A frozen frame holds the match still: whatever the host answers, only the
/// exempt fighter changes and is heard, and once the frame is over the freeze has
/// one frame less to go.
pub proof fn frozen_frame_law(
    m: MatchModel,
    f: Frame,
    p1_input: MatchInput,
    p2_input: MatchInput,
    replies: Seq<Reply>,
)
    requires
        m.freeze.holds(),
        just_opened(f, m, p1_input, p2_input, f.p1_partner, f.p2_partner),
    ensures
        ({
            let (after, frame) = conversed(opened(m, p1_input, p2_input), f, replies);
            &&& held(m, after)
            &&& if frame.stage == Stage::Done {
                after.freeze == m.freeze.counted()
            } else {
                frame.stage == first_stage(m) && after.freeze == m.freeze
            }
        }),
    decreases replies.len(),
{
    reveal(frozen_opened);
    if replies.len() > 0 {
        frozen_frame_law(m, f, p1_input, p2_input, replies.drop_last());
        reveal(ticked_alone);
    }
}

/// Whether a reply is an answer to what a frame asks for.
pub open spec fn answers(m: MatchModel, f: Frame, reply: Reply) -> bool {
    match (f.stage, reply) {
        (Stage::Alone(_), Reply::Ticked { .. }) => true,
        (Stage::Open, Reply::Opened { .. }) => true,
        (Stage::Root(_), Reply::Ticked { .. }) => true,
        (Stage::Ops(side, i), _) => i < f.orders(side).target_ops@.len() && serves(
            f.orders(side).target_ops@[i as int],
            reply,
        ),
        (Stage::SpawnHelpers, Reply::Spawned { p1, p2 }) => p1@.len() == births(
            m,
            f,
            Side::P1,
        ).len() && p2@.len() == births(m, f, Side::P2).len(),
        (Stage::TickHelpers, Reply::HelpersTicked { p1, p2 }) => p1@.len() == helper::helpers_due(
            m.p1.helpers,
        ).len() && p2@.len() == helper::helpers_due(m.p2.helpers).len(),
        (Stage::SpawnProjectiles, Reply::Spawned { p1, p2 }) => p1@.len()
            == m.p1.projectile_births(f.p1_orders.projectile_spawns@).len() && p2@.len()
            == m.p2.projectile_births(f.p2_orders.projectile_spawns@).len(),
        (Stage::MoveProjectiles, Reply::Moved { p1, p2, .. }) => p1@.len()
            == projectile::projectiles_due(m.p1.projectiles).len() && p2@.len()
            == projectile::projectiles_due(m.p2.projectiles).len(),
        (Stage::Clash, Reply::Clash { .. }) => true,
        (Stage::Attack(_), Reply::Attacked { .. }) => true,
        (Stage::AttackerState(_, _), Reply::Entered(_)) => true,
        (Stage::Projectile(side, i), Reply::ProjectileResolved { .. }) => i < m.player(
            side,
        ).projectiles.len(),
        (Stage::RecordHit(_, _, _, _), Reply::Acknowledged) => true,
        (Stage::Push, Reply::Pushed { .. }) => true,
        (Stage::NewRound, Reply::RoundBegun { .. }) => true,
        _ => false,
    }
}

/// How far a stage is from the end of its frame.
pub open spec fn stages_left(stage: Stage) -> nat {
    match stage {
        Stage::Done => 0,
        Stage::Alone(_) => 1,
        Stage::NewRound => 1,
        Stage::Push => 2,
        Stage::Projectile(Side::P2, _) => 3,
        Stage::RecordHit(Side::P2, _, _, _) => 3,
        Stage::Projectile(Side::P1, _) => 4,
        Stage::RecordHit(Side::P1, _, _, _) => 4,
        Stage::AttackerState(Side::P2, _) => 5,
        Stage::Attack(Side::P2) => 6,
        Stage::AttackerState(Side::P1, _) => 7,
        Stage::Attack(Side::P1) => 8,
        Stage::Clash => 9,
        Stage::MoveProjectiles => 10,
        Stage::SpawnProjectiles => 11,
        Stage::TickHelpers => 12,
        Stage::SpawnHelpers => 13,
        Stage::Ops(Side::P2, _) => 14,
        Stage::Root(Side::P2) => 15,
        Stage::Ops(Side::P1, _) => 16,
        Stage::Root(Side::P1) => 17,
        Stage::Open => 18,
    }
}

/// How much work is left within a stage.
pub open spec fn work_left(m: MatchModel, f: Frame) -> int {
    match f.stage {
        Stage::Ops(side, i) => f.orders(side).target_ops@.len() - i,
        Stage::Projectile(side, i) => 2 * (m.player(side).projectiles.len() - i),
        Stage::RecordHit(side, i, _, _) => 2 * (m.player(side).projectiles.len() - i) + 1,
        _ => 0,
    }
}

/// Whether a frame is nearer to its end.
pub open spec fn nearer(m: MatchModel, f: Frame, next: (MatchModel, Frame)) -> bool {
    ||| stages_left(next.1.stage) < stages_left(f.stage)
    ||| {
        &&& stages_left(next.1.stage) == stages_left(f.stage)
        &&& 0 <= work_left(next.0, next.1) < work_left(m, f)
    }
}

/// The end of combat is near.
proof fn projectiles_next_is_near(m: MatchModel, f: Frame, side: Side, i: int)
    requires
        0 <= i,
        m.stage_sound(),
    ensures
        ({
            let next = projectiles_next(m, f, side, i);
            ||| stages_left(next.1.stage) < if side == Side::P1 {
                4
            } else {
                3int
            }
            ||| next.0 == m && next.1.stage == Stage::Projectile(side, i as usize) && i < m.player(
                side,
            ).projectiles.len() && i as usize == i
        }),
        stages_left(projectiles_next(m, f, side, i).1.stage) <= 4,
{
    reveal(projectiles_next);
    reveal(combat_done);
}

/// What follows a side's target operations is nearer to the end.
proof fn ops_run_is_near(m: MatchModel, f: Frame, side: Side, from: int)
    requires
        0 <= from <= f.orders(side).target_ops@.len(),
    ensures
        ({
            let next = ops_run(m, f, side, from);
            ||| stages_left(next.1.stage) < if side == Side::P1 {
                16
            } else {
                14int
            }
            ||| {
                &&& next.1.stage matches Stage::Ops(who, i) && who == side && from <= i
                    < f.orders(side).target_ops@.len()
                &&& next.1.orders(side) == f.orders(side)
            }
        }),
{
    reveal(ops_run);
    reveal(ops_done);
    reveal(roots_done);
    stops_at_work(f.orders(side).target_ops@, from);
    assert(f.orders(side).target_ops.len() == f.orders(side).target_ops@.len());
}

/// Reading inputs, making and ticking helpers and making projectiles come nearer
/// to the end.
proof fn preparing_is_near(m: MatchModel, f: Frame, reply: Reply)
    requires
        answers(m, f, reply),
        f.stage == Stage::Open || f.stage == Stage::SpawnHelpers || f.stage == Stage::TickHelpers
            || f.stage == Stage::SpawnProjectiles,
    ensures
        nearer(m, f, stepped(m, f, reply)),
{
    reveal(inputs_read);
    reveal(helpers_made);
    reveal(helpers_ran);
    reveal(projectiles_made);
}

/// A fighter's tick comes nearer to the end.
proof fn root_ticked_is_near(
    m: MatchModel,
    f: Frame,
    side: Side,
    fighter: Character,
    report: TickReport,
)
    ensures
        stages_left(root_ticked(m, f, side, fighter, report).1.stage) < stages_left(
            Stage::Root(side),
        ),
{
    reveal(root_ticked);
    reveal(ops_done);
    reveal(roots_done);
    ops_run_is_near(
        m.with_character(side, fighter).with_sounds(side, report.sound_requests@),
        f.with_orders(side, report.orders),
        side,
        0,
    );
}

/// Serving a target operation comes nearer to the end.
proof fn op_served_is_near(m: MatchModel, f: Frame, side: Side, i: usize, reply: Reply)
    requires
        f.stage == Stage::Ops(side, i),
        answers(m, f, reply),
    ensures
        nearer(m, f, op_served(m, f, side, i as int, reply)),
{
    reveal(op_served);
    let ops = f.orders(side).target_ops@;
    let other = side.opponent_spec();
    ops_run_is_near(
        m.with_character(
            other,
            crate::frame::served(m.player(other).character, ops[i as int], reply),
        ),
        f,
        side,
        i + 1,
    );
}

/// Moving projectiles comes nearer to the end.
proof fn projectiles_flew_is_near(m: MatchModel, f: Frame, reply: Reply)
    requires
        f.stage == Stage::MoveProjectiles,
        answers(m, f, reply),
    ensures
        nearer(m, f, stepped(m, f, reply)),
{
    reveal(projectiles_flew);
    reveal(combat_begun);
    reveal(combat_done);
}

/// Resolving a projectile comes nearer to the end.
proof fn projectile_resolved_is_near(
    m: MatchModel,
    f: Frame,
    side: Side,
    i: usize,
    projectile: Character,
    defender: Character,
    landed: Option<bool>,
)
    requires
        m.stage_sound(),
        f.stage == Stage::Projectile(side, i),
        i < m.player(side).projectiles.len(),
    ensures
        nearer(m, f, projectile_resolved(m, f, side, i as int, projectile, defender, landed)),
{
    reveal(projectile_resolved);
    if landed is None {
        let next = m.with_character(side.opponent_spec(), defender).with_player(
            side,
            crate::player::projectile_kept(m.player(side), i as int, projectile),
        );
        projectiles_next_is_near(next, f, side, i + 1);
    }
}

/// The end of a frame is near.
proof fn ending_is_near(m: MatchModel, f: Frame, reply: Reply)
    requires
        answers(m, f, reply),
        f.stage is Alone || f.stage == Stage::Push || f.stage == Stage::NewRound || f.stage
            == Stage::Clash,
    ensures
        nearer(m, f, stepped(m, f, reply)),
{
    reveal(ticked_alone);
    reveal(pushed_and_advanced);
    reveal(clash_settled);
}

/// Every answer brings a frame nearer to its end, so that no frame goes on for
/// ever.
pub proof fn answers_bring_the_end_nearer(m: MatchModel, f: Frame, reply: Reply)
    requires
        m.stage_sound(),
        answers(m, f, reply),
    ensures
        nearer(m, f, stepped(m, f, reply)),
{
    match (f.stage, reply) {
        (Stage::Root(side), Reply::Ticked { fighter, report }) => {
            root_ticked_is_near(m, f, side, fighter, report);
        },
        (Stage::Ops(side, i), _) => {
            op_served_is_near(m, f, side, i, reply);
        },
        (Stage::MoveProjectiles, _) => {
            projectiles_flew_is_near(m, f, reply);
        },
        (Stage::Attack(side), Reply::Attacked { attacker, defender, landed }) => {
            attack_resolved_is_near(m, f, side, attacker, defender, landed);
        },
        (Stage::AttackerState(side, _), Reply::Entered(c)) => {
            attack_done_is_near(m.with_character(side, c), f, side);
        },
        (
            Stage::Projectile(side, i),
            Reply::ProjectileResolved { projectile, defender, landed },
        ) => {
            projectile_resolved_is_near(m, f, side, i, projectile, defender, landed);
        },
        (Stage::RecordHit(side, i, _, _), _) => {
            projectiles_next_is_near(m, f, side, i as int);
        },
        (Stage::Alone(_), _) | (Stage::Push, _) | (Stage::NewRound, _) | (Stage::Clash, _) => {
            ending_is_near(m, f, reply);
        },
        _ => {
            preparing_is_near(m, f, reply);
        },
    }
}

/// What follows an attack is nearer to the end.
proof fn attack_done_is_near(m: MatchModel, f: Frame, side: Side)
    requires
        m.stage_sound(),
    ensures
        stages_left(attack_done(m, f, side).1.stage) <= if side == Side::P1 {
            6
        } else {
            4int
        },
{
    reveal(attack_done);
    projectiles_next_is_near(m, f, Side::P1, 0);
}

/// What follows a resolved attack is nearer to the end.
proof fn attack_resolved_is_near(
    m: MatchModel,
    f: Frame,
    side: Side,
    attacker: Character,
    defender: Character,
    landed: Option<Landed>,
)
    requires
        m.stage_sound(),
    ensures
        stages_left(attack_resolved(m, f, side, attacker, defender, landed).1.stage)
            < stages_left(Stage::Attack(side)),
{
    reveal(attack_resolved);
    let other = side.opponent_spec();
    let next = m.with_character(side, attacker).with_character(other, defender);
    match landed {
        None => {
            attack_done_is_near(next, f, side);
        },
        Some(l) => {
            let contact = if crate::player::may_touch(m.player(side), m.player(other)) {
                l.contact
            } else {
                None
            };
            let spark = crate::frame::spark_of(m.player(side).character);
            impact_keeps(next, side, l, spark, contact);
            attack_done_is_near(impact(next, side, l, spark, contact), f, side);
        },
    }
}

/// The round flow stays sound through a whole frame, frozen or live, whatever the
/// host answers.
pub proof fn frame_keeps_the_flow_sound(
    m: MatchModel,
    f: Frame,
    p1_input: MatchInput,
    p2_input: MatchInput,
    replies: Seq<Reply>,
)
    requires
        m.flow_sound(),
        m.stage_sound(),
        just_opened(f, m, p1_input, p2_input, f.p1_partner, f.p2_partner),
    ensures
        conversed(opened(m, p1_input, p2_input), f, replies).0.flow_sound(),
{
    let start = opened(m, p1_input, p2_input);
    opening_moves_the_game_clock(m, p1_input, p2_input);
    if m.freeze.holds() {
        frozen_frame_law(m, f, p1_input, p2_input, replies);
    } else {
        opened_frame_is_sound(m, f, p1_input, p2_input);
        live_conversation(start, f, replies);
        let (after, frame) = conversed(start, f, replies);
        if !before_push(frame.stage) {
            let mid = choose|mid: MatchModel| #[trigger]
                start.same_flow(mid) && after.same_flow(mid.round_advanced().0);
            assert(start.same_flow(mid) && after.same_flow(mid.round_advanced().0));
            crate::round_laws::flow_stays_sound(mid);
        }
    }
}

/// A match that is over stays over: a whole frame moves its game clock and nothing
/// else of its flow.
pub proof fn over_match_stays_over(
    m: MatchModel,
    f: Frame,
    p1_input: MatchInput,
    p2_input: MatchInput,
    replies: Seq<Reply>,
)
    requires
        m.flow_sound(),
        m.stage_sound(),
        m.flow.match_state == crate::round::MatchState::Over,
        just_opened(f, m, p1_input, p2_input, f.p1_partner, f.p2_partner),
    ensures
        ({
            let after = conversed(opened(m, p1_input, p2_input), f, replies).0;
            after.same_flow(m.with_flow(Flow { game_time: after.flow.game_time, ..m.flow }))
        }),
{
    let start = opened(m, p1_input, p2_input);
    opening_moves_the_game_clock(m, p1_input, p2_input);
    if m.freeze.holds() {
        frozen_frame_law(m, f, p1_input, p2_input, replies);
    } else {
        opened_frame_is_sound(m, f, p1_input, p2_input);
        live_conversation(start, f, replies);
        let (after, frame) = conversed(start, f, replies);
        if !before_push(frame.stage) {
            let mid = choose|mid: MatchModel| #[trigger]
                start.same_flow(mid) && after.same_flow(mid.round_advanced().0);
            assert(start.same_flow(mid) && after.same_flow(mid.round_advanced().0));
            reveal(MatchModel::round_advanced);
        }
    }
}

/// Whether player 1's orders of this frame are not known yet.
pub open spec fn before_p1(stage: Stage) -> bool {
    stage == Stage::Open || stage == Stage::Root(Side::P1) || stage is Alone || stage == Stage::Done
}

/// Whether player 2's orders of this frame are not known yet.
pub open spec fn before_p2(stage: Stage) -> bool {
    before_p1(stage) || stage == Stage::Root(Side::P2) || (stage matches Stage::Ops(side, _)
        && side == Side::P1)
}

/// Whether two frames differ at most in orders that no tick has given yet.
pub open spec fn alike(f: Frame, g: Frame) -> bool {
    &&& g == (Frame { p1_orders: g.p1_orders, p2_orders: g.p2_orders, ..f })
    &&& !before_p1(f.stage) ==> f.p1_orders == g.p1_orders
    &&& !before_p2(f.stage) ==> f.p2_orders == g.p2_orders
}

/// What running player 1's target operations comes to.
proof fn p1_ops_run(m: MatchModel, f: Frame, from: int)
    ensures
        ({
            let ops = f.p1_orders.target_ops@;
            let done = m.with_character(
                Side::P2,
                after_ops(m.p1.character, m.p2.character, ops, from),
            );
            ops_run(m, f, Side::P1, from) == (
                done,
                f.at(
                    if next_work(ops, from) < ops.len() {
                        Stage::Ops(Side::P1, next_work(ops, from) as usize)
                    } else {
                        Stage::Root(Side::P2)
                    },
                ),
            )
        }),
{
    reveal(ops_run);
    reveal(ops_done);
}

/// Running player 1's target operations does not look at player 2's orders.
proof fn p1_ops_are_alike(m: MatchModel, f: Frame, g: Frame, from: int)
    requires
        g == (Frame { p2_orders: g.p2_orders, ..f }),
    ensures
        ({
            let a = ops_run(m, f, Side::P1, from);
            let b = ops_run(m, g, Side::P1, from);
            &&& a.0 == b.0
            &&& alike(a.1, b.1)
        }),
{
    p1_ops_run(m, f, from);
    p1_ops_run(m, g, from);
}

/// A fighter's tick takes frames that are alike to matches that are the same and
/// frames that are alike.
proof fn root_ticks_are_alike(
    m: MatchModel,
    f: Frame,
    g: Frame,
    side: Side,
    fighter: Character,
    report: TickReport,
)
    requires
        alike(f, g),
        f.stage == Stage::Root(side),
    ensures
        ({
            let a = root_ticked(m, f, side, fighter, report);
            let b = root_ticked(m, g, side, fighter, report);
            &&& a.0 == b.0
            &&& alike(a.1, b.1)
        }),
{
    reveal(root_ticked);
    let next = m.with_character(side, fighter).with_sounds(side, report.sound_requests@);
    let a = f.with_orders(side, report.orders);
    let b = g.with_orders(side, report.orders);
    match side {
        Side::P1 => {
            if f.fighting {
                p1_ops_are_alike(next, a, b, 0);
            } else {
                reveal(ops_done);
            }
        },
        Side::P2 => {
            assert(a == b);
        },
    }
}

/// What a target operation needed takes frames that are alike to matches that are
/// the same and frames that are alike.
proof fn served_ops_are_alike(m: MatchModel, f: Frame, g: Frame, side: Side, i: usize, reply: Reply)
    requires
        alike(f, g),
        f.stage == Stage::Ops(side, i),
    ensures
        ({
            let a = op_served(m, f, side, i as int, reply);
            let b = op_served(m, g, side, i as int, reply);
            &&& a.0 == b.0
            &&& alike(a.1, b.1)
        }),
{
    reveal(op_served);
    match side {
        Side::P1 => {
            let ops = f.p1_orders.target_ops@;
            if i < ops.len() {
                p1_ops_are_alike(
                    m.with_character(
                        Side::P2,
                        crate::frame::served(m.p2.character, ops[i as int], reply),
                    ),
                    f,
                    g,
                    i + 1,
                );
            }
        },
        Side::P2 => {
            assert(f == g);
        },
    }
}

/// The first answers of a frame take frames that are alike to matches that are the
/// same and frames that are alike.
proof fn first_steps_are_alike(m: MatchModel, f: Frame, g: Frame, reply: Reply)
    requires
        alike(f, g),
        f.stage == Stage::Open || f.stage is Alone || f.stage == Stage::Done,
    ensures
        stepped(m, f, reply).0 == stepped(m, g, reply).0,
        alike(stepped(m, f, reply).1, stepped(m, g, reply).1),
{
    reveal(ticked_alone);
    reveal(inputs_read);
}

/// The same answer takes frames that are alike to matches that are the same and
/// frames that are alike.
proof fn steps_are_alike(m: MatchModel, f: Frame, g: Frame, reply: Reply)
    requires
        alike(f, g),
    ensures
        stepped(m, f, reply).0 == stepped(m, g, reply).0,
        alike(stepped(m, f, reply).1, stepped(m, g, reply).1),
{
    if f != g {
        match f.stage {
            Stage::Root(side) => {
                if let Reply::Ticked { fighter, report } = reply {
                    root_ticks_are_alike(m, f, g, side, fighter, report);
                }
            },
            Stage::Ops(side, i) => {
                served_ops_are_alike(m, f, g, side, i, reply);
            },
            _ => {
                first_steps_are_alike(m, f, g, reply);
            },
        }
    }
}

/// The same answers take frames that are alike to matches that are the same.
proof fn conversations_are_alike(m: MatchModel, f: Frame, g: Frame, replies: Seq<Reply>)
    requires
        alike(f, g),
    ensures
        conversed(m, f, replies).0 == conversed(m, g, replies).0,
        alike(conversed(m, f, replies).1, conversed(m, g, replies).1),
    decreases replies.len(),
{
    if replies.len() > 0 {
        conversations_are_alike(m, f, g, replies.drop_last());
        let (before, a) = conversed(m, f, replies.drop_last());
        steps_are_alike(
            before,
            a,
            conversed(m, g, replies.drop_last()).1,
            replies.last(),
        );
    }
}

/// A frame is determined by the match, the inputs and the answers: nothing else
/// enters it.
pub proof fn same_answers_same_match(
    m: MatchModel,
    f: Frame,
    g: Frame,
    p1_input: MatchInput,
    p2_input: MatchInput,
    p1_partner: Option<u64>,
    p2_partner: Option<u64>,
    replies: Seq<Reply>,
)
    requires
        just_opened(f, m, p1_input, p2_input, p1_partner, p2_partner),
        just_opened(g, m, p1_input, p2_input, p1_partner, p2_partner),
    ensures
        conversed(opened(m, p1_input, p2_input), f, replies).0 == conversed(
            opened(m, p1_input, p2_input),
            g,
            replies,
        ).0,
{
    conversations_are_alike(opened(m, p1_input, p2_input), f, g, replies);
}

/// Whether a match that starts as `m` ends as `end` when it is played frame by
/// frame with the given inputs and answers.
pub open spec fn plays(
    m: MatchModel,
    inputs: Seq<(MatchInput, MatchInput)>,
    answers: Seq<Seq<Reply>>,
    end: MatchModel,
) -> bool
    decreases inputs.len(),
{
    if inputs.len() == 0 {
        end == m
    } else {
        exists|mid: MatchModel, f: Frame| #[trigger]
            frame_played(mid, f, inputs.last(), answers[inputs.len() - 1], end) && plays(
                m,
                inputs.drop_last(),
                answers,
                mid,
            )
    }
}

/// Whether a frame `f` opened on `m` with the given inputs ends as `end` with the
/// given answers.
pub open spec fn frame_played(
    m: MatchModel,
    f: Frame,
    inputs: (MatchInput, MatchInput),
    answers: Seq<Reply>,
    end: MatchModel,
) -> bool {
    &&& just_opened(f, m, inputs.0, inputs.1, None, None)
    &&& end == conversed(opened(m, inputs.0, inputs.1), f, answers).0
}

/// Two runs from the same state with the same inputs and the same answers end the
/// same.
pub proof fn same_inputs_same_match(
    m: MatchModel,
    inputs: Seq<(MatchInput, MatchInput)>,
    answers: Seq<Seq<Reply>>,
    a: MatchModel,
    b: MatchModel,
)
    requires
        plays(m, inputs, answers, a),
        plays(m, inputs, answers, b),
    ensures
        a == b,
    decreases inputs.len(),
{
    if inputs.len() > 0 {
        let n = inputs.len() - 1;
        let (ma, fa): (MatchModel, Frame) = choose|mid: MatchModel, f: Frame| #[trigger]
            frame_played(mid, f, inputs.last(), answers[n], a) && plays(
                m,
                inputs.drop_last(),
                answers,
                mid,
            );
        let (mb, fb): (MatchModel, Frame) = choose|mid: MatchModel, f: Frame| #[trigger]
            frame_played(mid, f, inputs.last(), answers[n], b) && plays(
                m,
                inputs.drop_last(),
                answers,
                mid,
            );
        same_inputs_same_match(m, inputs.drop_last(), answers, ma, mb);
        same_answers_same_match(
            ma,
            fa,
            fb,
            inputs.last().0,
            inputs.last().1,
            None,
            None,
            answers[n],
        );
    }
}

} // verus!
