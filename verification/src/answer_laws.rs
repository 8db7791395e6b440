//! What becomes of the host's answers, stage by stage: what is taken in, what
//! stays, and what the frame waits for next.

use vstd::prelude::*;

use crate::air::elapsed_before;
use crate::arith::saturated;
use crate::character::{after_ops, Character, SparkSource, TargetOp};
use crate::effect::{effects_ticked, EffectSide};
use crate::explod::{after_explod_ops, explods_spawned, explods_ticked};
use crate::frame::{
    attack_done, attack_resolved, clash_settled, combat_begun, combat_done, displays_run,
    explods_run, helpers_made, helpers_ran, impact, inputs_read, op_served, ops_done, ops_run,
    projectile_resolved, projectiles_flew, projectiles_made, projectiles_next,
    pushed_and_advanced, root_ticked, roots_done, stepped, ticked_alone, Frame, Landed, Reply,
    Stage,
};
use crate::freeze::{Freeze, FreezeExempt};
use crate::game::{ClashOutcome, MatchModel};
use crate::helper::{helper_births, helpers_due, helpers_kept, helpers_spawned, HelperTick};
use crate::player::PlayerModel;
use crate::projectile::{
    projectile_births, projectiles_due, projectiles_moved, projectiles_spawned, Projectile,
};
use crate::report::{FreezeKind, FreezeRequest, TickReport};
use crate::round::Side;
use crate::scalar::{Scalar, Vec2};

verus! {

/// Whether an operation is one that the host has a part in.
pub open spec fn hosted(op: TargetOp) -> bool {
    match op {
        TargetOp::State(_) => true,
        TargetOp::Bind { .. } => true,
        TargetOp::VelAdd(_) => true,
        TargetOp::LifeAdd { .. } => false,
        TargetOp::PowerAdd(_) => false,
        TargetOp::Facing(_) => false,
        TargetOp::VelSet(_) => false,
    }
}

/// Whether two frames differ in what they wait for and in nothing else.
pub open spec fn same_frame(f: Frame, g: Frame) -> bool {
    g == (Frame { stage: g.stage, ..f })
}

/// Whether a player has changed in its fighter at most.
pub open spec fn fighter_only(before: PlayerModel, after: PlayerModel) -> bool {
    after == (PlayerModel { character: after.character, ..before })
}

/// Whether a match has changed in its two fighters, in the sounds and in the freeze
/// at most.
pub open spec fn ticks_only(before: MatchModel, after: MatchModel) -> bool {
    &&& fighter_only(before.p1, after.p1)
    &&& fighter_only(before.p2, after.p2)
    &&& after == (MatchModel {
        p1: after.p1,
        p2: after.p2,
        p1_sound_requests: after.p1_sound_requests,
        p2_sound_requests: after.p2_sound_requests,
        freeze: after.freeze,
        ..before
    })
}

/// What a frame waits for once a side's operations are done: player 2's tick after
/// player 1's, and then the helpers.
pub open spec fn after_side(side: Side) -> Stage {
    if side == Side::P1 {
        Stage::Root(Side::P2)
    } else {
        Stage::SpawnHelpers
    }
}

/// Whether a frame has come to the first of a side's operations from `from` on that
/// the host has a part in, or past them all where there is none.
pub open spec fn stops_for_the_host(
    stage: Stage,
    side: Side,
    ops: Seq<TargetOp>,
    from: int,
) -> bool {
    ||| {
        &&& stage == after_side(side)
        &&& forall|k: int| from <= k < ops.len() ==> !hosted(#[trigger] ops[k])
    }
    ||| stage matches Stage::Ops(who, i) && {
        &&& who == side
        &&& from <= i < ops.len()
        &&& hosted(ops[i as int])
        &&& forall|k: int| from <= k < i ==> !hosted(#[trigger] ops[k])
    }
}

/// The freeze after a side's request: a positive time replaces it, and the side that
/// asked is exempt where it asked for a `SuperPause`.
pub open spec fn frozen_by(
    before: Freeze,
    req: Option<FreezeRequest>,
    asker: FreezeExempt,
    after: Freeze,
) -> bool {
    if req is Some && req->0.time > 0 {
        &&& after.remaining == req->0.time
        &&& req->0.kind == FreezeKind::Pause ==> after.exempt == FreezeExempt::Nobody
        &&& req->0.kind == FreezeKind::SuperPause ==> after.exempt == asker
    } else {
        after == before
    }
}

/// The first of the operations that needs the host is found.
proof fn work_is_found(ops: Seq<TargetOp>, from: int)
    requires
        0 <= from <= ops.len(),
    ensures
        ({
            let i = crate::character::next_work(ops, from);
            &&& from <= i <= ops.len()
            &&& forall|k: int| from <= k < i ==> !hosted(#[trigger] ops[k])
            &&& i < ops.len() ==> hosted(ops[i])
        }),
    decreases ops.len() - from,
{
    if from < ops.len() && !crate::character::needs_host(ops[from]) {
        work_is_found(ops, from + 1);
    }
}

/// Whether the freezes that two ticks asked for are in force: player 2's where it
/// asked for one, else player 1's, else the one before; and none but in the fight.
pub open spec fn freezes_armed(f: Frame, before: Freeze, after: Freeze) -> bool {
    if f.fighting {
        exists|mid: Freeze|
            {
                &&& #[trigger] frozen_by(before, f.p1_orders.freeze_request, FreezeExempt::P1, mid)
                &&& frozen_by(mid, f.p2_orders.freeze_request, FreezeExempt::P2, after)
            }
    } else {
        after == before
    }
}

/// What follows a side's operations.
proof fn done_ops(m: MatchModel, f: Frame, side: Side)
    ensures
        ({
            let (next, g) = ops_done(m, f, side);
            &&& same_frame(f, g)
            &&& g.stage == after_side(side)
            &&& next == (MatchModel { freeze: next.freeze, ..m })
            &&& side == Side::P1 ==> next.freeze == m.freeze
            &&& side == Side::P2 ==> freezes_armed(f, m.freeze, next.freeze)
        }),
{
    reveal(ops_done);
    reveal(roots_done);
    let mid = m.freeze.armed(f.p1_orders.freeze_request, FreezeExempt::P1);
    assert(frozen_by(m.freeze, f.p1_orders.freeze_request, FreezeExempt::P1, mid));
    assert(frozen_by(
        mid,
        f.p2_orders.freeze_request,
        FreezeExempt::P2,
        mid.armed(f.p2_orders.freeze_request, FreezeExempt::P2),
    ));
}

/// Whether a side's operations from `from` on have been done to its opponent, as far
/// as they go without the host.
pub open spec fn ops_taken(
    m: MatchModel,
    f: Frame,
    side: Side,
    from: int,
    next: MatchModel,
    g: Frame,
) -> bool {
    let ops = f.orders(side).target_ops@;
    &&& same_frame(f, g)
    &&& stops_for_the_host(g.stage, side, ops, from)
    &&& next.player(side) == m.player(side)
    &&& fighter_only(m.player(side.opponent_spec()), next.player(side.opponent_spec()))
    &&& next.player(side.opponent_spec()).character == after_ops(
        m.player(side).character,
        m.player(side.opponent_spec()).character,
        ops,
        from,
    )
    &&& next == (MatchModel { p1: next.p1, p2: next.p2, freeze: next.freeze, ..m })
    &&& g.stage == Stage::SpawnHelpers ==> freezes_armed(f, m.freeze, next.freeze)
    &&& g.stage != Stage::SpawnHelpers ==> next.freeze == m.freeze
}

/// Operations are taken in.
proof fn run_ops(m: MatchModel, f: Frame, side: Side, from: int)
    requires
        0 <= from <= f.orders(side).target_ops@.len(),
    ensures
        ({
            let (next, g) = ops_run(m, f, side, from);
            ops_taken(m, f, side, from, next, g)
        }),
{
    reveal(ops_run);
    let ops = f.orders(side).target_ops@;
    assert(f.orders(side).target_ops.len() == ops.len());
    let other = side.opponent_spec();
    let i = crate::character::next_work(ops, from);
    let done = m.with_character(
        other,
        after_ops(m.player(side).character, m.player(other).character, ops, from),
    );
    work_is_found(ops, from);
    done_ops(done, f, side);
    if i < ops.len() {
        let j = i as usize;
        assert(ops_run(m, f, side, from).1.stage == Stage::Ops(side, j));
    }
}

/// A fighter's tick is taken in whole: its state, its sounds in place of those
/// before, and its orders. In the fight its operations are done to its opponent, up
/// to the first that needs the host; outside the fight its opponent is let alone.
pub proof fn ticks_are_taken_in(
    m: MatchModel,
    f: Frame,
    side: Side,
    fighter: Character,
    report: TickReport,
)
    requires
        f.stage == Stage::Root(side),
    ensures
        ({
            let (next, g) = stepped(m, f, Reply::Ticked { fighter, report });
            let other = side.opponent_spec();
            &&& next.player(side).character == fighter
            &&& next.sounds(side) == report.sound_requests@
            &&& next.sounds(other) == m.sounds(other)
            &&& g.orders(side) == report.orders
            &&& g.orders(other) == f.orders(other)
            &&& g == (Frame {
                stage: g.stage,
                p1_orders: g.p1_orders,
                p2_orders: g.p2_orders,
                ..f
            })
            &&& ticks_only(m, next)
            &&& f.fighting ==> stops_for_the_host(
                g.stage,
                side,
                report.orders.target_ops@,
                0,
            )
            &&& f.fighting ==> next.player(other).character == after_ops(
                fighter,
                m.player(other).character,
                report.orders.target_ops@,
                0,
            )
            &&& !f.fighting ==> g.stage == after_side(side)
            &&& !f.fighting ==> next.player(other).character == m.player(other).character
            &&& g.stage == Stage::SpawnHelpers ==> freezes_armed(g, m.freeze, next.freeze)
            &&& g.stage != Stage::SpawnHelpers ==> next.freeze == m.freeze
        }),
{
    reveal(root_ticked);
    let next = m.with_character(side, fighter).with_sounds(side, report.sound_requests@);
    let frame = f.with_orders(side, report.orders);
    run_ops(next, frame, side, 0);
    done_ops(next, frame, side);
}

/// What a host does for an operation reaches the target: a state that it entered is
/// the target from then on, and a sum is the target's new position for a pin and its
/// new velocity for a push. Then the operations behind it are done.
pub proof fn operations_are_taken_in(m: MatchModel, f: Frame, side: Side, i: usize, reply: Reply)
    requires
        f.stage == Stage::Ops(side, i),
        i < f.orders(side).target_ops@.len(),
    ensures
        ({
            let (next, g) = stepped(m, f, reply);
            let other = side.opponent_spec();
            let before = m.player(other).character;
            let op = f.orders(side).target_ops@[i as int];
            let target = match (op, reply) {
                (TargetOp::State(_), Reply::Entered(c)) => Some(c),
                (TargetOp::Bind { .. }, Reply::Sum(v)) => Some(Character { pos: v, ..before }),
                (TargetOp::VelAdd(_), Reply::Sum(v)) => Some(Character { vel: v, ..before }),
                _ => None,
            };
            match target {
                Some(t) => ops_taken(m.with_character(other, t), f, side, i + 1, next, g),
                None => next == m && g == f,
            }
        }),
{
    reveal(op_served);
    let other = side.opponent_spec();
    let before = m.player(other).character;
    let op = f.orders(side).target_ops@[i as int];
    assert(f.orders(side).target_ops.len() == f.orders(side).target_ops@.len());
    run_ops(
        m.with_character(other, crate::frame::served(before, op, reply)),
        f,
        side,
        i + 1,
    );
}

/// The tick of the exempt fighter, of either side, is taken in as its fighter, with
/// its sounds; the freeze has one frame less to go, and the frame is over. Nothing
/// else of a frozen match changes.
pub proof fn lone_ticks_are_taken_in(
    m: MatchModel,
    f: Frame,
    side: Side,
    fighter: Character,
    report: TickReport,
)
    requires
        f.stage == Stage::Alone(side),
        m.freeze.remaining > 0,
    ensures
        ({
            let (next, g) = stepped(m, f, Reply::Ticked { fighter, report });
            let other = side.opponent_spec();
            &&& g.stage == Stage::Done
            &&& same_frame(f, g)
            &&& next.player(side) == (PlayerModel { character: fighter, ..m.player(side) })
            &&& next.player(other) == m.player(other)
            &&& next.sounds(side) == report.sound_requests@
            &&& next.sounds(other) == m.sounds(other)
            &&& next.freeze.remaining == m.freeze.remaining - 1
            &&& m.freeze.remaining > 1 ==> next.freeze.exempt == m.freeze.exempt
            &&& ticks_only(m, next)
        }),
{
    reveal(ticked_alone);
}

/// What the recognisers matched is kept in the fight, each side's on its own side,
/// and dropped elsewhere; then player 1 ticks.
pub proof fn matches_are_taken_in(
    m: MatchModel,
    f: Frame,
    p1_matched: Vec<String>,
    p2_matched: Vec<String>,
)
    requires
        f.stage == Stage::Open,
    ensures
        ({
            let (next, g) = stepped(m, f, Reply::Opened { p1_matched, p2_matched });
            &&& g.stage == Stage::Root(Side::P1)
            &&& same_frame(f, g)
            &&& f.fighting ==> next.p1.just_matched == p1_matched@
            &&& f.fighting ==> next.p2.just_matched == p2_matched@
            &&& !f.fighting ==> next.p1.just_matched == m.p1.just_matched
            &&& !f.fighting ==> next.p2.just_matched == m.p2.just_matched
            &&& next == (MatchModel {
                p1: PlayerModel { just_matched: next.p1.just_matched, ..m.p1 },
                p2: PlayerModel { just_matched: next.p2.just_matched, ..m.p2 },
                ..m
            })
        }),
{
    reveal(inputs_read);
}

/// The helpers that the host made join those of the side that ordered them, in
/// order; an answer with another number of them is not taken in.
pub proof fn made_helpers_are_taken_in(
    m: MatchModel,
    f: Frame,
    p1: Vec<Character>,
    p2: Vec<Character>,
)
    requires
        f.stage == Stage::SpawnHelpers,
    ensures
        ({
            let (next, g) = stepped(m, f, Reply::Spawned { p1, p2 });
            let seen = m.flow.bounds.seen();
            let asked1 = helper_births(
                m.p1.character,
                m.p1.helpers.len(),
                f.p1_orders.helper_spawns@,
                f.p2_x,
                seen,
            );
            let asked2 = helper_births(
                m.p2.character,
                m.p2.helpers.len(),
                f.p2_orders.helper_spawns@,
                f.p1_x,
                seen,
            );
            if p1@.len() == asked1.len() && p2@.len() == asked2.len() {
                &&& g.stage == Stage::TickHelpers
                &&& same_frame(f, g)
                &&& next.p1.helpers == helpers_spawned(
                    m.p1.helpers,
                    f.p1_orders.helper_spawns@,
                    p1@,
                )
                &&& next.p2.helpers == helpers_spawned(
                    m.p2.helpers,
                    f.p2_orders.helper_spawns@,
                    p2@,
                )
                &&& next == (MatchModel {
                    p1: PlayerModel { helpers: next.p1.helpers, ..m.p1 },
                    p2: PlayerModel { helpers: next.p2.helpers, ..m.p2 },
                    ..m
                })
            } else {
                next == m && g == f
            }
        }),
{
    reveal(helpers_made);
}

/// What became of each side's helpers is taken in on that side.
pub proof fn helper_ticks_are_taken_in(
    m: MatchModel,
    f: Frame,
    p1: Vec<HelperTick>,
    p2: Vec<HelperTick>,
)
    requires
        f.stage == Stage::TickHelpers,
    ensures
        ({
            let (next, g) = stepped(m, f, Reply::HelpersTicked { p1, p2 });
            if p1@.len() == helpers_due(m.p1.helpers).len() && p2@.len() == helpers_due(
                m.p2.helpers,
            ).len() {
                &&& g.stage == Stage::SpawnProjectiles
                &&& same_frame(f, g)
                &&& next.p1.helpers == helpers_kept(helpers_due(m.p1.helpers), p1@)
                &&& next.p2.helpers == helpers_kept(helpers_due(m.p2.helpers), p2@)
                &&& next == (MatchModel {
                    p1: PlayerModel { helpers: next.p1.helpers, ..m.p1 },
                    p2: PlayerModel { helpers: next.p2.helpers, ..m.p2 },
                    ..m
                })
            } else {
                next == m && g == f
            }
        }),
{
    reveal(helpers_ran);
}

/// The projectiles that the host made join those of the side that ordered them.
pub proof fn made_projectiles_are_taken_in(
    m: MatchModel,
    f: Frame,
    p1: Vec<Character>,
    p2: Vec<Character>,
)
    requires
        f.stage == Stage::SpawnProjectiles,
    ensures
        ({
            let (next, g) = stepped(m, f, Reply::Spawned { p1, p2 });
            let spawns1 = f.p1_orders.projectile_spawns@;
            let spawns2 = f.p2_orders.projectile_spawns@;
            if p1@.len() == projectile_births(
                m.p1.character,
                m.p1.projectiles.len(),
                spawns1,
            ).len() && p2@.len() == projectile_births(
                m.p2.character,
                m.p2.projectiles.len(),
                spawns2,
            ).len() {
                &&& g.stage == Stage::MoveProjectiles
                &&& same_frame(f, g)
                &&& next.p1.projectiles == projectiles_spawned(
                    m.p1.projectiles,
                    m.p1.character,
                    spawns1,
                    p1@,
                )
                &&& next.p2.projectiles == projectiles_spawned(
                    m.p2.projectiles,
                    m.p2.character,
                    spawns2,
                    p2@,
                )
                &&& next == (MatchModel {
                    p1: PlayerModel { projectiles: next.p1.projectiles, ..m.p1 },
                    p2: PlayerModel { projectiles: next.p2.projectiles, ..m.p2 },
                    ..m
                })
            } else {
                next == m && g == f
            }
        }),
{
    reveal(projectiles_made);
}

/// A side's explods after a frame of their own: the new ones are spawned where the
/// side ordered them, then the side's changes are made, then all of them age.
pub open spec fn explods_lived(
    before: PlayerModel,
    after: PlayerModel,
    spawns: Seq<crate::report::ExplodSpawn>,
    ops: Seq<crate::report::ExplodOp>,
    owner_id: i32,
    seen_x: Scalar,
    opponent_x: Scalar,
    stage: crate::stage::StageView,
) -> bool {
    after.explods == explods_ticked(
        after_explod_ops(
            explods_spawned(
                before.explods,
                before.character,
                before.loaded.air,
                spawns,
                owner_id,
                seen_x,
                stage,
            ),
            ops,
        ),
        before.loaded.air,
        before.character.pos,
        before.character.facing,
        opponent_x,
        stage,
    )
}

/// The displays of both sides are run.
proof fn run_displays(m: MatchModel, f: Frame)
    ensures
        ({
            let next = displays_run(m, f);
            let stage = m.flow.bounds.seen();
            &&& explods_lived(
                m.p1,
                next.p1,
                f.p1_orders.explod_spawns@,
                f.p1_orders.explod_ops@,
                1,
                f.p2_x,
                m.p2.character.pos.x,
                stage,
            )
            &&& explods_lived(
                m.p2,
                next.p2,
                f.p2_orders.explod_spawns@,
                f.p2_orders.explod_ops@,
                2,
                f.p1_x,
                m.p1.character.pos.x,
                stage,
            )
            &&& next == (MatchModel {
                p1: PlayerModel { explods: next.p1.explods, frame_advantage: None, ..m.p1 },
                p2: PlayerModel { explods: next.p2.explods, frame_advantage: None, ..m.p2 },
                ..m
            })
        }),
{
    reveal(displays_run);
    reveal(explods_run);
}

/// Whether the sparks of a match are one tick on and nothing else has changed.
pub open spec fn sparks_aged(m: MatchModel, next: MatchModel) -> bool {
    &&& next == (MatchModel { effects: next.effects, ..m })
    &&& next.effects == effects_ticked(
        m.effects,
        m.p1.loaded.air,
        m.p2.loaded.air,
        m.common_fx,
    )
}

/// Combat ends with the sparks one tick on.
proof fn end_combat(m: MatchModel, f: Frame)
    ensures
        ({
            let (next, g) = combat_done(m, f);
            &&& g.stage == Stage::Push
            &&& same_frame(f, g)
            &&& sparks_aged(m, next)
        }),
{
    reveal(combat_done);
}

/// Where the projectiles have arrived is taken in on their own side, with the same
/// edges for both; then each side's explods live through the frame by that side's
/// orders. In the fight combat begins: with a clash where there may be one, else
/// with player 1's attack. Outside the fight there is none, and the sparks age at
/// once.
pub proof fn moves_are_taken_in(
    m: MatchModel,
    f: Frame,
    p1: Vec<Vec2>,
    p2: Vec<Vec2>,
    edges: Vec2,
)
    requires
        f.stage == Stage::MoveProjectiles,
        p1@.len() == projectiles_due(m.p1.projectiles).len(),
        p2@.len() == projectiles_due(m.p2.projectiles).len(),
    ensures
        ({
            let (next, g) = stepped(m, f, Reply::Moved { p1, p2, edges });
            let stage = m.flow.bounds.seen();
            &&& same_frame(f, g)
            &&& next.p1.projectiles == projectiles_moved(
                projectiles_due(m.p1.projectiles),
                p1@,
                m.p1.loaded.air,
                edges.x,
                edges.y,
            )
            &&& next.p2.projectiles == projectiles_moved(
                projectiles_due(m.p2.projectiles),
                p2@,
                m.p2.loaded.air,
                edges.x,
                edges.y,
            )
            &&& explods_lived(
                m.p1,
                next.p1,
                f.p1_orders.explod_spawns@,
                f.p1_orders.explod_ops@,
                1,
                f.p2_x,
                m.p2.character.pos.x,
                stage,
            )
            &&& explods_lived(
                m.p2,
                next.p2,
                f.p2_orders.explod_spawns@,
                f.p2_orders.explod_ops@,
                2,
                f.p1_x,
                m.p1.character.pos.x,
                stage,
            )
            &&& next == (MatchModel {
                p1: PlayerModel {
                    projectiles: next.p1.projectiles,
                    explods: next.p1.explods,
                    frame_advantage: None,
                    ..m.p1
                },
                p2: PlayerModel {
                    projectiles: next.p2.projectiles,
                    explods: next.p2.explods,
                    frame_advantage: None,
                    ..m.p2
                },
                effects: next.effects,
                ..m
            })
            &&& f.fighting ==> next.effects == m.effects
            &&& f.fighting ==> g.stage == if next.may_clash() {
                Stage::Clash
            } else {
                Stage::Attack(Side::P1)
            }
            &&& !f.fighting ==> g.stage == Stage::Push && next.effects == effects_ticked(
                m.effects,
                m.p1.loaded.air,
                m.p2.loaded.air,
                m.common_fx,
            )
        }),
{
    reveal(projectiles_flew);
    reveal(combat_begun);
    let flown = MatchModel {
        p1: m.p1.with_projectiles(
            projectiles_moved(
                projectiles_due(m.p1.projectiles),
                p1@,
                m.p1.loaded.air,
                edges.x,
                edges.y,
            ),
        ),
        p2: m.p2.with_projectiles(
            projectiles_moved(
                projectiles_due(m.p2.projectiles),
                p2@,
                m.p2.loaded.air,
                edges.x,
                edges.y,
            ),
        ),
        ..m
    };
    run_displays(flown, f);
    end_combat(displays_run(flown, f), f);
}

/// A clash cancels the attacks that lose it, where both connect, and no other: each
/// side keeps its attack exactly where the outcome lets it. Then player 1 attacks.
pub proof fn clashes_are_taken_in(
    m: MatchModel,
    f: Frame,
    p1_hits: bool,
    p2_hits: bool,
    outcome: ClashOutcome,
)
    requires
        f.stage == Stage::Clash,
        m.may_clash(),
    ensures
        ({
            let (next, g) = stepped(m, f, Reply::Clash { p1_hits, p2_hits, outcome });
            let both = p1_hits && p2_hits;
            let p1_keeps = !both || outcome == ClashOutcome::Trade || outcome
                == ClashOutcome::FirstWins;
            let p2_keeps = !both || outcome == ClashOutcome::Trade || outcome
                == ClashOutcome::SecondWins;
            &&& g.stage == Stage::Attack(Side::P1)
            &&& same_frame(f, g)
            &&& next.p1.character == if p1_keeps {
                m.p1.character
            } else {
                (Character { active_hitdef: None, ..m.p1.character })
            }
            &&& next.p2.character == if p2_keeps {
                m.p2.character
            } else {
                (Character { active_hitdef: None, ..m.p2.character })
            }
            &&& fighter_only(m.p1, next.p1) && fighter_only(m.p2, next.p2)
            &&& next == (MatchModel { p1: next.p1, p2: next.p2, ..m })
        }),
{
    reveal(clash_settled);
}

/// What a frame waits for once the attacks are done, where the sides have `p1` and
/// `p2` projectiles, from a side's projectile `i` on: that projectile; else player
/// 2's first; else pushing.
pub open spec fn after_attacks(p1: nat, p2: nat, side: Side, i: int) -> Stage {
    if side == Side::P1 && i < p1 {
        Stage::Projectile(Side::P1, i as usize)
    } else if side == Side::P1 && p2 > 0 {
        Stage::Projectile(Side::P2, 0)
    } else if side == Side::P2 && i < p2 {
        Stage::Projectile(Side::P2, i as usize)
    } else {
        Stage::Push
    }
}

/// Whether a match goes on to what follows: the sparks age exactly where combat is
/// over.
pub open spec fn goes_on(m: MatchModel, next: MatchModel, stage: Stage) -> bool {
    if stage == Stage::Push {
        sparks_aged(m, next)
    } else {
        next == m
    }
}

/// The next projectile is found.
proof fn next_projectile(m: MatchModel, f: Frame, side: Side, i: int)
    ensures
        ({
            let (next, g) = projectiles_next(m, f, side, i);
            &&& same_frame(f, g)
            &&& g.stage == after_attacks(
                m.p1.projectiles.len(),
                m.p2.projectiles.len(),
                side,
                i,
            )
            &&& goes_on(m, next, g.stage)
        }),
{
    reveal(projectiles_next);
    end_combat(m, f);
}

/// Whether a frame goes on after a side's attack: to player 2's after player 1's,
/// and then to the projectiles.
pub open spec fn attacked_on(m: MatchModel, f: Frame, side: Side, next: MatchModel, g: Frame)
    -> bool {
    &&& same_frame(f, g)
    &&& side == Side::P1 ==> g.stage == Stage::Attack(Side::P2) && next == m
    &&& side == Side::P2 ==> g.stage == after_attacks(
        m.p1.projectiles.len(),
        m.p2.projectiles.len(),
        Side::P1,
        0,
    ) && goes_on(m, next, g.stage)
}

/// An attack is over.
proof fn end_attack(m: MatchModel, f: Frame, side: Side)
    ensures
        ({
            let (next, g) = attack_done(m, f, side);
            attacked_on(m, f, side, next, g)
        }),
{
    reveal(attack_done);
    next_projectile(m, f, Side::P1, 0);
}

/// An attack that did not land leaves both fighters as the host resolved them, and
/// nothing else; the frame goes on.
pub proof fn misses_are_taken_in(
    m: MatchModel,
    f: Frame,
    side: Side,
    attacker: Character,
    defender: Character,
)
    requires
        f.stage == Stage::Attack(side),
    ensures
        ({
            let (next, g) = stepped(m, f, Reply::Attacked { attacker, defender, landed: None });
            let taken = m.with_character(side, attacker).with_character(
                side.opponent_spec(),
                defender,
            );
            attacked_on(taken, f, side, next, g)
        }),
{
    reveal(attack_resolved);
    let taken = m.with_character(side, attacker).with_character(side.opponent_spec(), defender);
    end_attack(taken, f, side);
}

/// The match after a landed attack of a side, before the frame goes on: both
/// fighters are as the host resolved them; the attacker shows the frame advantage
/// and plays the sound of the impact behind its others; and there is at most one
/// spark more.
pub open spec fn struck(
    m: MatchModel,
    side: Side,
    attacker: Character,
    defender: Character,
    l: Landed,
    after: MatchModel,
) -> bool {
    let other = side.opponent_spec();
    let own = m.player(side);
    let frames = own.loaded.air.frames_of(attacker.anim);
    &&& after.player(side) == (PlayerModel {
        character: attacker,
        frame_advantage: after.player(side).frame_advantage,
        ..own
    })
    &&& after.player(other) == (PlayerModel { character: defender, ..m.player(other) })
    &&& l.move_total is None || !own.loaded.air@.dom().contains(attacker.anim) ==> after.player(
        side,
    ).frame_advantage is None
    &&& l.move_total is Some && own.loaded.air@.dom().contains(attacker.anim) ==> {
        let elapsed = elapsed_before(frames, attacker.anim_elem) as int;
        let total = l.move_total->0 as int;
        let left = if elapsed < total {
            total - elapsed
        } else {
            0
        };
        after.player(side).frame_advantage == Some(saturated(l.stun - left))
    }
    &&& after.sounds(other) == m.sounds(other)
    &&& l.hit_sound is None ==> after.sounds(side) == m.sounds(side)
    &&& l.hit_sound matches Some(s) ==> {
        let sounds = after.sounds(side);
        &&& sounds.len() == m.sounds(side).len() + 1
        &&& sounds.take(m.sounds(side).len() as int) =~= m.sounds(side)
        &&& sounds.last().group == s.group && sounds.last().sample == s.sample
        &&& sounds.last().common == s.common
        &&& sounds.last().channel == 0 && sounds.last().volume_scale == 100
        &&& !sounds.last().looping
    }
    &&& after == (MatchModel {
        p1: after.p1,
        p2: after.p2,
        p1_sound_requests: after.p1_sound_requests,
        p2_sound_requests: after.p2_sound_requests,
        effects: after.effects,
        ..m
    })
}

/// Whether a spark has been added at the point of contact: from the attacker's own
/// animations under the attacker's side, or from the common effects where they are
/// installed; and none where the attack makes none, has no point of contact, or its
/// action is missing or empty.
pub open spec fn sparks(
    m: MatchModel,
    side: Side,
    spark: Option<SparkSource>,
    contact: Option<Vec2>,
    effects: Seq<crate::effect::Effect>,
) -> bool {
    let (source, anim, air) = match spark {
        Some(SparkSource::Own { anim }) => (
            if side == Side::P1 {
                EffectSide::P1
            } else {
                EffectSide::P2
            },
            anim,
            Some(m.player(side).loaded.air),
        ),
        Some(SparkSource::Common { anim }) => (EffectSide::Common, anim, m.common_fx),
        _ => (EffectSide::Common, 0, None),
    };
    if air is Some && air->0.frames_of(anim).len() > 0 && contact is Some {
        let fx = effects.last();
        let frames = air->0.frames_of(anim);
        &&& effects.len() == m.effects.len() + 1
        &&& effects.drop_last() =~= m.effects
        &&& fx.side == source
        &&& fx.anim == anim
        &&& fx.pos == contact->0
        &&& fx.elem == 0 && fx.elem_time == 0
        &&& fx.sprite == frames[0].sprite && fx.offset == frames[0].offset
        &&& fx.remaining == crate::air::lifetime_of(frames)
    } else {
        effects == m.effects
    }
}

/// What comes of an impact.
proof fn impact_strikes(
    m: MatchModel,
    side: Side,
    attacker: Character,
    defender: Character,
    l: Landed,
    spark: Option<SparkSource>,
    contact: Option<Vec2>,
)
    ensures
        ({
            let next = m.with_character(side, attacker).with_character(
                side.opponent_spec(),
                defender,
            );
            let after = impact(next, side, l, spark, contact);
            &&& struck(m, side, attacker, defender, l, after)
            &&& sparks(m, side, spark, contact, after.effects)
        }),
{
    reveal(impact);
    let next = m.with_character(side, attacker).with_character(side.opponent_spec(), defender);
    let after = impact(next, side, l, spark, contact);
    if let Some(s) = l.hit_sound {
        assert(after.sounds(side).drop_last() =~= m.sounds(side));
    }
}

/// A landed attack, of either side: both fighters are as the host resolved them,
/// with what comes of the impact. The spark is that of the attack as it was armed,
/// at the point of contact where the boxes could touch. An attack that sends its
/// attacker into a state makes the frame wait for exactly that; any other lets it
/// go on.
pub proof fn hits_are_taken_in(
    m: MatchModel,
    f: Frame,
    side: Side,
    attacker: Character,
    defender: Character,
    l: Landed,
)
    requires
        f.stage == Stage::Attack(side),
    ensures
        ({
            let (next, g) = stepped(m, f, Reply::Attacked { attacker, defender, landed: Some(l) });
            let spark = match m.player(side).character.active_hitdef {
                Some(h) => Some(h.spark),
                None => None,
            };
            let contact = if crate::player::may_touch(
                m.player(side),
                m.player(side.opponent_spec()),
            ) {
                l.contact
            } else {
                None
            };
            exists|after: MatchModel|
                {
                    &&& #[trigger] struck(m, side, attacker, defender, l, after)
                    &&& sparks(m, side, spark, contact, after.effects)
                    &&& match l.attacker_state {
                        Some(n) => {
                            &&& next == after
                            &&& g.stage == Stage::AttackerState(side, n)
                            &&& same_frame(f, g)
                        },
                        None => attacked_on(after, f, side, next, g),
                    }
                }
        }),
{
    reveal(attack_resolved);
    let other = side.opponent_spec();
    let taken = m.with_character(side, attacker).with_character(other, defender);
    let spark = match m.player(side).character.active_hitdef {
        Some(h) => Some(h.spark),
        None => None,
    };
    let contact = if crate::player::may_touch(m.player(side), m.player(other)) {
        l.contact
    } else {
        None
    };
    let after = impact(taken, side, l, spark, contact);
    impact_strikes(m, side, attacker, defender, l, spark, contact);
    end_attack(after, f, side);
    assert(struck(m, side, attacker, defender, l, after));
}

/// Only a landed attack that has a state for its attacker makes a frame wait for
/// that side to enter one.
pub proof fn only_throws_wait(m: MatchModel, f: Frame, reply: Reply, side: Side, n: i32)
    requires
        f.stage is Attack,
        stepped(m, f, reply).1.stage == Stage::AttackerState(side, n),
    ensures
        f.stage == Stage::Attack(side),
        reply matches Reply::Attacked { landed: Some(l), .. } && l.attacker_state == Some(n),
{
    if let Stage::Attack(who) = f.stage {
        if let Reply::Attacked { attacker, defender, landed } = reply {
            match landed {
                None => {
                    misses_are_taken_in(m, f, who, attacker, defender);
                },
                Some(l) => {
                    hits_are_taken_in(m, f, who, attacker, defender, l);
                },
            }
        }
    }
}

/// The state that a thrower entered is its own from then on, and the frame goes on.
pub proof fn throws_are_taken_in(m: MatchModel, f: Frame, side: Side, n: i32, c: Character)
    requires
        f.stage == Stage::AttackerState(side, n),
    ensures
        ({
            let (next, g) = stepped(m, f, Reply::Entered(c));
            attacked_on(m.with_character(side, c), f, side, next, g)
        }),
{
    end_attack(m.with_character(side, c), f, side);
}

/// A projectile's attack, of either side: the defender is as the host resolved it.
/// One that did not land flies on as the host resolved it, and the next is looked
/// at. One that landed is gone, its owner holds a target, and the owner is told which
/// it was and whether it was blocked.
pub proof fn projectiles_are_taken_in(
    m: MatchModel,
    f: Frame,
    side: Side,
    i: usize,
    projectile: Character,
    defender: Character,
    landed: Option<bool>,
)
    requires
        f.stage == Stage::Projectile(side, i),
        i < m.player(side).projectiles.len(),
    ensures
        ({
            let (next, g) = stepped(
                m,
                f,
                Reply::ProjectileResolved { projectile, defender, landed },
            );
            let own = m.player(side);
            let hit = m.with_character(side.opponent_spec(), defender);
            let flown = Projectile { character: projectile, ..own.projectiles[i as int] };
            &&& same_frame(f, g)
            &&& landed is None ==> {
                let taken = hit.with_player(
                    side,
                    PlayerModel {
                        projectiles: own.projectiles.update(i as int, flown),
                        ..own
                    },
                );
                &&& g.stage == after_attacks(
                    taken.p1.projectiles.len(),
                    taken.p2.projectiles.len(),
                    side,
                    i + 1,
                )
                &&& goes_on(taken, next, g.stage)
            }
            &&& landed matches Some(guarded) ==> {
                &&& g.stage == Stage::RecordHit(
                    side,
                    i,
                    own.projectiles[i as int].proj_id,
                    guarded,
                )
                &&& next == hit.with_player(
                    side,
                    PlayerModel {
                        projectiles: own.projectiles.remove(i as int),
                        character: Character { has_target: true, ..own.character },
                        ..own
                    },
                )
            }
        }),
{
    reveal(projectile_resolved);
    let own = m.player(side);
    let hit = m.with_character(side.opponent_spec(), defender);
    next_projectile(
        hit.with_player(side, crate::player::projectile_kept(own, i as int, projectile)),
        f,
        side,
        i + 1,
    );
}

/// Once a hit has been recorded the projectiles behind it are looked at.
pub proof fn records_are_taken_in(
    m: MatchModel,
    f: Frame,
    side: Side,
    i: usize,
    id: i32,
    guarded: bool,
)
    requires
        f.stage == Stage::RecordHit(side, i, id, guarded),
    ensures
        ({
            let (next, g) = stepped(m, f, Reply::Acknowledged);
            &&& same_frame(f, g)
            &&& g.stage == after_attacks(
                m.p1.projectiles.len(),
                m.p2.projectiles.len(),
                side,
                i as int,
            )
            &&& goes_on(m, next, g.stage)
        }),
{
    next_projectile(m, f, side, i as int);
}

/// Whether a fighter is where it was pushed to, turned to its opponent if it stands
/// idle and may turn, and as it was else.
pub open spec fn pushed_to(
    before: Character,
    x: Scalar,
    opponent_right: bool,
    after: Character,
) -> bool {
    let idle = (before.state_type == crate::character::StateType::Standing || before.state_type
        == crate::character::StateType::Unchanged) && before.move_type
        == crate::character::MoveType::Idle;
    let turns = idle && !before.no_auto_turn;
    &&& after.pos.x == x && after.pos.y == before.pos.y
    &&& after.facing == if turns {
        if opponent_right {
            crate::character::Facing::Right
        } else {
            crate::character::Facing::Left
        }
    } else {
        before.facing
    }
    &&& after == (Character { pos: after.pos, facing: after.facing, ..before })
}

/// Where the bodies were pushed and clamped to is taken in on either side, and each
/// fighter that is free to turns to the other; then the round moves on, and a frame
/// waits for the new round exactly where one begins.
pub proof fn pushes_are_taken_in(m: MatchModel, f: Frame, p1_x: Scalar, p2_x: Scalar)
    requires
        f.stage == Stage::Push,
    ensures
        ({
            let (next, g) = stepped(m, f, Reply::Pushed { p1_x, p2_x });
            &&& same_frame(f, g)
            &&& exists|turned: MatchModel|
                {
                    &&& next == (#[trigger] turned.round_advanced()).0
                    &&& g.stage == if turned.round_advanced().1 {
                        Stage::NewRound
                    } else {
                        Stage::Done
                    }
                    &&& pushed_to(
                        m.p1.character,
                        p1_x,
                        p1_x.at_most(p2_x),
                        turned.p1.character,
                    )
                    &&& pushed_to(
                        m.p2.character,
                        p2_x,
                        !p1_x.at_most(p2_x),
                        turned.p2.character,
                    )
                    &&& fighter_only(m.p1, turned.p1) && fighter_only(m.p2, turned.p2)
                    &&& turned == (MatchModel { p1: turned.p1, p2: turned.p2, ..m })
                }
        }),
{
    reveal(pushed_and_advanced);
    let turned = m.pushed(p1_x, p2_x).faced();
    pushing_turns(m, p1_x, p2_x);
    let moved = turned.round_advanced();
}

/// Pushing and turning, fighter by fighter.
proof fn pushing_turns(m: MatchModel, p1_x: Scalar, p2_x: Scalar)
    ensures
        ({
            let turned = m.pushed(p1_x, p2_x).faced();
            &&& pushed_to(m.p1.character, p1_x, p1_x.at_most(p2_x), turned.p1.character)
            &&& pushed_to(m.p2.character, p2_x, !p1_x.at_most(p2_x), turned.p2.character)
            &&& fighter_only(m.p1, turned.p1) && fighter_only(m.p2, turned.p2)
            &&& turned == (MatchModel { p1: turned.p1, p2: turned.p2, ..m })
        }),
{
}

/// A new round begins with the fighters that the host sent into the round-init
/// state, where they define it, and with those that were there else.
pub proof fn beginnings_are_taken_in(m: MatchModel, f: Frame, p1: Character, p2: Character)
    requires
        f.stage == Stage::NewRound,
    ensures
        ({
            let (next, g) = stepped(m, f, Reply::RoundBegun { p1, p2 });
            &&& g.stage == Stage::Done
            &&& same_frame(f, g)
            &&& next.p1.character == if m.p1.loaded.states@.contains(5900) {
                p1
            } else {
                m.p1.character
            }
            &&& next.p2.character == if m.p2.loaded.states@.contains(5900) {
                p2
            } else {
                m.p2.character
            }
            &&& fighter_only(m.p1, next.p1) && fighter_only(m.p2, next.p2)
            &&& next == (MatchModel { p1: next.p1, p2: next.p2, ..m })
        }),
{
}

/// Whether a reply is of the kind that a stage waits for.
pub open spec fn suits(stage: Stage, reply: Reply) -> bool {
    match reply {
        Reply::Acknowledged => stage is RecordHit,
        Reply::Ticked { .. } => stage is Alone || stage is Root,
        Reply::Opened { .. } => stage == Stage::Open,
        Reply::Entered(_) => stage is Ops || stage is AttackerState,
        Reply::Sum(_) => stage is Ops,
        Reply::Spawned { .. } => stage == Stage::SpawnHelpers || stage == Stage::SpawnProjectiles,
        Reply::HelpersTicked { .. } => stage == Stage::TickHelpers,
        Reply::Moved { .. } => stage == Stage::MoveProjectiles,
        Reply::Clash { .. } => stage == Stage::Clash,
        Reply::Attacked { .. } => stage is Attack,
        Reply::ProjectileResolved { .. } => stage is Projectile,
        Reply::Pushed { .. } => stage == Stage::Push,
        Reply::RoundBegun { .. } => stage == Stage::NewRound,
    }
}

/// A reply of another kind than the frame waits for changes nothing, and neither do
/// projectiles that did not all arrive.
pub proof fn other_replies_are_not_taken_in(m: MatchModel, f: Frame, reply: Reply)
    requires
        !suits(f.stage, reply) || (f.stage == Stage::MoveProjectiles && (
        reply matches Reply::Moved { p1, p2, .. } && (p1@.len() != projectiles_due(
            m.p1.projectiles,
        ).len() || p2@.len() != projectiles_due(m.p2.projectiles).len()))),
    ensures
        stepped(m, f, reply) == (m, f),
{
    reveal(op_served);
    reveal(projectiles_flew);
}

} // verus!
