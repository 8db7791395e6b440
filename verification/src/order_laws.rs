//! What a frame comes past on its way to the end.

use vstd::prelude::*;

use crate::answer_laws::{
    after_attacks, after_side, hits_are_taken_in, misses_are_taken_in, moves_are_taken_in,
    operations_are_taken_in, other_replies_are_not_taken_in, projectiles_are_taken_in,
    pushes_are_taken_in, records_are_taken_in, suits, throws_are_taken_in, ticks_are_taken_in,
};
use crate::character::Character;
use crate::frame::{
    clash_settled, helpers_made, helpers_ran, inputs_read, projectiles_made, pushed_and_advanced,
    stepped, ticked_alone, Frame, Landed, Reply, Stage,
};
use crate::frame_laws::conversed;
use crate::game::MatchModel;
use crate::projectile::{projectiles_due, Projectile};
use crate::report::TickReport;
use crate::round::Side;
use crate::scalar::Scalar;
use crate::tick::fits;

verus! {

/// The place of a stage in a live frame.
pub open spec fn place_of(stage: Stage) -> int {
    match stage {
        Stage::Open => 0,
        Stage::Root(Side::P1) => 1,
        Stage::Ops(Side::P1, _) => 2,
        Stage::Root(Side::P2) => 3,
        Stage::Ops(Side::P2, _) => 4,
        Stage::SpawnHelpers => 5,
        Stage::TickHelpers => 6,
        Stage::SpawnProjectiles => 7,
        Stage::MoveProjectiles => 8,
        Stage::Clash => 9,
        Stage::Attack(Side::P1) => 10,
        Stage::AttackerState(Side::P1, _) => 11,
        Stage::Attack(Side::P2) => 12,
        Stage::AttackerState(Side::P2, _) => 13,
        Stage::Projectile(Side::P1, _) => 14,
        Stage::RecordHit(Side::P1, _, _, _) => 14,
        Stage::Projectile(Side::P2, _) => 15,
        Stage::RecordHit(Side::P2, _, _, _) => 15,
        Stage::Push => 16,
        Stage::NewRound => 17,
        Stage::Alone(_) => 18,
        Stage::Done => 18,
    }
}

/// Whether no live frame can do without a stage: every frame ticks both fighters,
/// makes and ticks helpers, makes and moves projectiles, and pushes; and a frame of
/// the fight lets both fighters attack.
pub open spec fn required(stage: Stage, fighting: bool) -> bool {
    ||| stage == Stage::Open || stage is Root || stage == Stage::SpawnHelpers
    ||| stage == Stage::TickHelpers || stage == Stage::SpawnProjectiles
    ||| stage == Stage::MoveProjectiles || stage == Stage::Push
    ||| stage is Attack && fighting
}

/// What a frame can wait for once it has been answered, or go on waiting for, where
/// `p1` and `p2` projectiles of the sides are left.
pub open spec fn follows(from: Stage, to: Stage, fighting: bool, p1: nat, p2: nat) -> bool {
    ||| to == from
    ||| match from {
        Stage::Open => to == Stage::Root(Side::P1),
        Stage::Root(side) => to == after_side(side) || (to matches Stage::Ops(who, _) && who
            == side),
        Stage::Ops(side, _) => to == after_side(side) || (to matches Stage::Ops(who, _) && who
            == side),
        Stage::SpawnHelpers => to == Stage::TickHelpers,
        Stage::TickHelpers => to == Stage::SpawnProjectiles,
        Stage::SpawnProjectiles => to == Stage::MoveProjectiles,
        Stage::MoveProjectiles => if fighting {
            to == Stage::Clash || to == Stage::Attack(Side::P1)
        } else {
            to == Stage::Push
        },
        Stage::Clash => to == Stage::Attack(Side::P1),
        Stage::Attack(Side::P1) => to == Stage::Attack(Side::P2) || (
        to matches Stage::AttackerState(who, _) && who == Side::P1),
        Stage::AttackerState(Side::P1, _) => to == Stage::Attack(Side::P2),
        Stage::Attack(Side::P2) => to == after_attacks(p1, p2, Side::P1, 0) || (
        to matches Stage::AttackerState(who, _) && who == Side::P2),
        Stage::AttackerState(Side::P2, _) => to == after_attacks(p1, p2, Side::P1, 0),
        Stage::Projectile(side, i) => to == after_attacks(p1, p2, side, i + 1) || (
        to matches Stage::RecordHit(who, k, _, _) && who == side && k == i),
        Stage::RecordHit(side, i, _, _) => to == after_attacks(p1, p2, side, i as int),
        Stage::Push => to == Stage::NewRound || to == Stage::Done,
        Stage::NewRound => to == Stage::Done,
        Stage::Alone(_) => to == Stage::Done,
        Stage::Done => false,
    }
}

/// What a step does to the projectiles of either side, seen from the stages of
/// combat on: nothing, but that the one which is looked at flies on or is gone.
pub open spec fn projectiles_stay(m: MatchModel, f: Frame, next: MatchModel, g: Frame) -> bool {
    match f.stage {
        Stage::Projectile(side, i) => {
            let other = side.opponent_spec();
            let all = m.player(side).projectiles;
            &&& next.player(other).projectiles == m.player(other).projectiles
            &&& i < all.len() && g.stage is RecordHit ==> next.player(side).projectiles
                == all.remove(i as int)
            &&& i < all.len() && !(g.stage is RecordHit) ==> {
                &&& next.player(side).projectiles.len() == all.len()
                &&& forall|k: int|
                    0 <= k < all.len() && k != i ==> #[trigger] next.player(side).projectiles[k]
                        == all[k]
            }
        },
        _ => before_projectiles(f.stage) || f.stage is RecordHit ==> {
            &&& next.p1.projectiles == m.p1.projectiles
            &&& next.p2.projectiles == m.p2.projectiles
        },
    }
}

/// Whether a side's orders stand unless its fighter ticks.
pub open spec fn orders_stand(f: Frame, g: Frame) -> bool {
    &&& f.stage != Stage::Root(Side::P1) ==> g.p1_orders == f.p1_orders
    &&& f.stage != Stage::Root(Side::P2) ==> g.p2_orders == f.p2_orders
}

/// Whether from combat on the explods of either side stay as they are, but that the
/// end of a round clears them.
pub open spec fn explods_stay(m: MatchModel, f: Frame, next: MatchModel) -> bool {
    &&& 9 <= place_of(f.stage) && f.stage != Stage::Push ==> {
        next.p1.explods == m.p1.explods && next.p2.explods == m.p2.explods
    }
    &&& f.stage == Stage::Push ==> {
        &&& next.p1.explods == m.p1.explods || next.p1.explods.len() == 0
        &&& next.p2.explods == m.p2.explods || next.p2.explods.len() == 0
    }
}

/// Whether a step goes on as a step can.
#[verifier::opaque]
pub open spec fn goes_rightly(m: MatchModel, f: Frame, reply: Reply) -> bool {
    let (next, g) = stepped(m, f, reply);
    &&& g.fighting == f.fighting
    &&& follows(
        f.stage,
        g.stage,
        f.fighting,
        next.p1.projectiles.len(),
        next.p2.projectiles.len(),
    )
    &&& suits(f.stage, reply) && (in_combat(m, f.stage) || f.stage == Stage::Push) ==> g.stage
        != f.stage
    &&& projectiles_stay(m, f, next, g)
    &&& orders_stand(f, g)
    &&& explods_stay(m, f, next)
    &&& !suits(f.stage, reply) ==> g.stage == f.stage
}

/// Reading inputs goes on rightly.
proof fn reading_goes_rightly(m: MatchModel, f: Frame, reply: Reply)
    requires
        suits(f.stage, reply),
        f.stage == Stage::Open,
    ensures
        goes_rightly(m, f, reply),
{
    reveal(goes_rightly);
    reveal(inputs_read);
}

/// A fighter's tick goes on rightly.
proof fn ticking_goes_rightly(
    m: MatchModel,
    f: Frame,
    side: Side,
    fighter: Character,
    report: TickReport,
)
    requires
        f.stage == Stage::Root(side),
    ensures
        goes_rightly(m, f, Reply::Ticked { fighter, report }),
{
    reveal(goes_rightly);
    ticks_are_taken_in(m, f, side, fighter, report);
}

/// A target operation goes on rightly.
proof fn operating_goes_rightly(m: MatchModel, f: Frame, side: Side, i: usize, reply: Reply)
    requires
        f.stage == Stage::Ops(side, i),
        i < f.orders(side).target_ops@.len(),
        suits(f.stage, reply),
    ensures
        goes_rightly(m, f, reply),
{
    reveal(goes_rightly);
    operations_are_taken_in(m, f, side, i, reply);
}

/// Making and ticking helpers and making projectiles goes on rightly.
proof fn making_goes_rightly(m: MatchModel, f: Frame, reply: Reply)
    requires
        suits(f.stage, reply),
        f.stage == Stage::SpawnHelpers || f.stage == Stage::TickHelpers || f.stage
            == Stage::SpawnProjectiles,
    ensures
        goes_rightly(m, f, reply),
{
    reveal(goes_rightly);
    reveal(helpers_made);
    reveal(helpers_ran);
    reveal(projectiles_made);
}

/// Moving projectiles goes on rightly.
proof fn moving_goes_rightly(m: MatchModel, f: Frame, reply: Reply)
    requires
        suits(f.stage, reply),
        f.stage == Stage::MoveProjectiles,
    ensures
        goes_rightly(m, f, reply),
{
    reveal(goes_rightly);
    if let Reply::Moved { p1, p2, edges } = reply {
        if p1@.len() == projectiles_due(m.p1.projectiles).len() && p2@.len() == projectiles_due(
            m.p2.projectiles,
        ).len() {
            moves_are_taken_in(m, f, p1, p2, edges);
        } else {
            other_replies_are_not_taken_in(m, f, reply);
        }
    }
}

/// A clash goes on rightly.
proof fn clashing_goes_rightly(m: MatchModel, f: Frame, reply: Reply)
    requires
        suits(f.stage, reply),
        f.stage == Stage::Clash,
    ensures
        goes_rightly(m, f, reply),
{
    reveal(goes_rightly);
    reveal(clash_settled);
}

/// An attack goes on rightly.
proof fn attacking_goes_rightly(
    m: MatchModel,
    f: Frame,
    side: Side,
    attacker: Character,
    defender: Character,
    landed: Option<Landed>,
)
    requires
        f.stage == Stage::Attack(side),
    ensures
        goes_rightly(m, f, Reply::Attacked { attacker, defender, landed }),
{
    reveal(goes_rightly);
    match landed {
        None => {
            misses_are_taken_in(m, f, side, attacker, defender);
        },
        Some(l) => {
            hits_are_taken_in(m, f, side, attacker, defender, l);
        },
    }
}

/// A throw goes on rightly.
proof fn throwing_goes_rightly(m: MatchModel, f: Frame, side: Side, n: i32, c: Character)
    requires
        f.stage == Stage::AttackerState(side, n),
    ensures
        goes_rightly(m, f, Reply::Entered(c)),
{
    reveal(goes_rightly);
    throws_are_taken_in(m, f, side, n, c);
}

/// A projectile that flies on goes on rightly.
proof fn flying_goes_rightly(
    m: MatchModel,
    f: Frame,
    side: Side,
    i: usize,
    projectile: Character,
    defender: Character,
)
    requires
        f.stage == Stage::Projectile(side, i),
        i < m.player(side).projectiles.len(),
        m.stage_sound(),
    ensures
        goes_rightly(m, f, Reply::ProjectileResolved { projectile, defender, landed: None }),
{
    reveal(goes_rightly);
    projectiles_are_taken_in(m, f, side, i, projectile, defender, None);
    assert(m.player(side).projectiles.len() <= crate::projectile::MAX_PROJECTILES_PER_PLAYER);
}

/// A projectile that lands goes on rightly.
proof fn landing_goes_rightly(
    m: MatchModel,
    f: Frame,
    side: Side,
    i: usize,
    projectile: Character,
    defender: Character,
    guarded: bool,
)
    requires
        f.stage == Stage::Projectile(side, i),
        i < m.player(side).projectiles.len(),
    ensures
        goes_rightly(
            m,
            f,
            Reply::ProjectileResolved { projectile, defender, landed: Some(guarded) },
        ),
{
    reveal(goes_rightly);
    projectiles_are_taken_in(m, f, side, i, projectile, defender, Some(guarded));
}

/// A recorded hit goes on rightly.
proof fn recording_goes_rightly(
    m: MatchModel,
    f: Frame,
    side: Side,
    i: usize,
    id: i32,
    guarded: bool,
)
    requires
        f.stage == Stage::RecordHit(side, i, id, guarded),
    ensures
        goes_rightly(m, f, Reply::Acknowledged),
{
    reveal(goes_rightly);
    records_are_taken_in(m, f, side, i, id, guarded);
}

/// The end of a frame goes on rightly.
proof fn ending_goes_rightly(m: MatchModel, f: Frame, reply: Reply)
    requires
        suits(f.stage, reply),
        f.stage == Stage::Push || f.stage == Stage::NewRound || f.stage is Alone,
    ensures
        goes_rightly(m, f, reply),
{
    reveal(goes_rightly);
    reveal(ticked_alone);
    if let Reply::Pushed { p1_x, p2_x } = reply {
        pushing_goes_rightly(m, f, p1_x, p2_x);
    }
}

/// The round flow leaves explods alone or clears them.
proof fn flow_keeps_explods(m: MatchModel)
    ensures
        ({
            let next = m.round_advanced().0;
            &&& next.p1.explods == m.p1.explods || next.p1.explods.len() == 0
            &&& next.p2.explods == m.p2.explods || next.p2.explods.len() == 0
        }),
{
    reveal(MatchModel::round_advanced);
}

/// Pushing goes on rightly.
proof fn pushing_goes_rightly(m: MatchModel, f: Frame, p1_x: Scalar, p2_x: Scalar)
    requires
        f.stage == Stage::Push,
    ensures
        goes_rightly(m, f, Reply::Pushed { p1_x, p2_x }),
{
    reveal(goes_rightly);
    pushes_are_taken_in(m, f, p1_x, p2_x);
    reveal(pushed_and_advanced);
    flow_keeps_explods(m.pushed(p1_x, p2_x).faced());
}

/// An answer of another kind goes nowhere.
proof fn other_answers_go_nowhere(m: MatchModel, f: Frame, reply: Reply)
    requires
        !suits(f.stage, reply),
    ensures
        goes_rightly(m, f, reply),
        stepped(m, f, reply) == (m, f),
{
    reveal(goes_rightly);
    other_replies_are_not_taken_in(m, f, reply);
}

/// Whatever the host answers, a frame goes on to what can follow, and until combat
/// is over only the projectile that it looks at changes.
pub proof fn every_step_goes_rightly(m: MatchModel, f: Frame, reply: Reply)
    requires
        fits(m, f),
        m.stage_sound(),
    ensures
        goes_rightly(m, f, reply),
{
    if !suits(f.stage, reply) {
        other_answers_go_nowhere(m, f, reply);
    } else {
        match (f.stage, reply) {
            (Stage::MoveProjectiles, _) => {
                moving_goes_rightly(m, f, reply);
            },
            (Stage::Clash, _) => {
                clashing_goes_rightly(m, f, reply);
            },
            (Stage::Attack(side), Reply::Attacked { attacker, defender, landed }) => {
                attacking_goes_rightly(m, f, side, attacker, defender, landed);
            },
            (Stage::AttackerState(side, n), Reply::Entered(c)) => {
                throwing_goes_rightly(m, f, side, n, c);
            },
            (
                Stage::Projectile(side, i),
                Reply::ProjectileResolved { projectile, defender, landed },
            ) => {
                match landed {
                    None => {
                        flying_goes_rightly(m, f, side, i, projectile, defender);
                    },
                    Some(guarded) => {
                        landing_goes_rightly(m, f, side, i, projectile, defender, guarded);
                    },
                }
            },
            (Stage::RecordHit(side, i, id, guarded), Reply::Acknowledged) => {
                recording_goes_rightly(m, f, side, i, id, guarded);
            },
            (Stage::Open, _) => {
                reading_goes_rightly(m, f, reply);
            },
            (Stage::Root(side), Reply::Ticked { fighter, report }) => {
                ticking_goes_rightly(m, f, side, fighter, report);
            },
            (Stage::Ops(side, i), _) => {
                operating_goes_rightly(m, f, side, i, reply);
            },
            (Stage::SpawnHelpers, _) | (Stage::TickHelpers, _) | (Stage::SpawnProjectiles, _) => {
                making_goes_rightly(m, f, reply);
            },
            _ => {
                ending_goes_rightly(m, f, reply);
            },
        }
    }
}

/// The place of the next stage that a frame cannot do without.
spec fn bound_of(from: Stage, fighting: bool) -> int {
    match from {
        Stage::Open => 1,
        Stage::Root(Side::P1) | Stage::Ops(Side::P1, _) => 3,
        Stage::Root(Side::P2) | Stage::Ops(Side::P2, _) => 5,
        Stage::SpawnHelpers => 6,
        Stage::TickHelpers => 7,
        Stage::SpawnProjectiles => 8,
        Stage::MoveProjectiles => if fighting {
            10
        } else {
            16
        },
        Stage::Clash => 10,
        Stage::Attack(Side::P1) | Stage::AttackerState(Side::P1, _) => 12,
        Stage::Push | Stage::NewRound | Stage::Done | Stage::Alone(_) => 18,
        _ => 16,
    }
}

/// What follows comes no further than the bound.
proof fn following_is_bounded(from: Stage, to: Stage, fighting: bool, p1: nat, p2: nat)
    requires
        follows(from, to, fighting, p1, p2),
    ensures
        place_of(to) <= bound_of(from, fighting),
{
}

/// The bound is no further than what a frame cannot do without.
proof fn duties_are_bounded(from: Stage, fighting: bool, duty: Stage)
    requires
        fighting || place_of(from) < 9 || place_of(from) > 15,
        required(duty, fighting),
        place_of(from) < place_of(duty),
    ensures
        bound_of(from, fighting) <= place_of(duty),
{
}

/// What a frame cannot do without has a place of its own.
proof fn duties_stand_alone(to: Stage, fighting: bool, duty: Stage)
    requires
        required(duty, fighting),
        place_of(to) == place_of(duty),
    ensures
        to == duty,
{
}

/// Whatever the host answers, a live frame leaves nothing out that no frame can do
/// without: it comes no further than the next of them.
pub proof fn no_stage_is_left_out(m: MatchModel, f: Frame, reply: Reply, duty: Stage)
    requires
        fits(m, f),
        m.stage_sound(),
        !(f.stage is Alone),
        f.fighting || place_of(f.stage) < 9 || place_of(f.stage) > 15,
        required(duty, f.fighting),
        place_of(f.stage) < place_of(duty),
    ensures
        place_of(stepped(m, f, reply).1.stage) < place_of(duty) || stepped(m, f, reply).1.stage
            == duty,
{
    every_step_goes_rightly(m, f, reply);
    reveal(goes_rightly);
    let (next, g) = stepped(m, f, reply);
    following_is_bounded(
        f.stage,
        g.stage,
        f.fighting,
        next.p1.projectiles.len(),
        next.p2.projectiles.len(),
    );
    duties_are_bounded(f.stage, f.fighting, duty);
    if place_of(g.stage) == place_of(duty) {
        duties_stand_alone(g.stage, f.fighting, duty);
    }
}

/// Whether a conversation has come past a stage.
pub open spec fn visited(m: MatchModel, f: Frame, replies: Seq<Reply>, stage: Stage) -> bool
    decreases replies.len(),
{
    ||| conversed(m, f, replies).1.stage == stage
    ||| replies.len() > 0 && visited(m, f, replies.drop_last(), stage)
}

/// Once a live frame is over it has come past everything that no frame can do
/// without: both fighters have been asked to tick, in the fight both have been asked
/// to attack, and the bodies have been asked to be pushed.
pub proof fn every_frame_does_its_duty(
    m: MatchModel,
    f: Frame,
    replies: Seq<Reply>,
    duty: Stage,
)
    requires
        f.stage == Stage::Open,
        m.stage_sound(),
        required(duty, f.fighting),
        place_of(conversed(m, f, replies).1.stage) >= place_of(duty),
    ensures
        visited(m, f, replies, duty),
    decreases replies.len(),
{
    if replies.len() > 0 {
        let rest = replies.drop_last();
        let (before, frame) = conversed(m, f, rest);
        crate::frame_laws::live_conversation(m, f, rest);
        if place_of(frame.stage) >= place_of(duty) {
            every_frame_does_its_duty(m, f, rest, duty);
        } else {
            no_stage_is_left_out(before, frame, replies.last(), duty);
        }
    }
}

/// Whether a stage is one of combat that has not come to the projectiles yet.
pub open spec fn before_projectiles(stage: Stage) -> bool {
    stage == Stage::Clash || stage is Attack || stage is AttackerState
}

/// The projectiles of a side that combat has not come to yet.
pub open spec fn pending(m: MatchModel, stage: Stage, side: Side) -> Seq<Projectile> {
    let all = m.player(side).projectiles;
    match stage {
        Stage::Projectile(who, i) => if who == side {
            all.skip(i as int)
        } else if side == Side::P2 {
            all
        } else {
            Seq::empty()
        },
        Stage::RecordHit(who, i, _, _) => if who == side {
            all.skip(i as int)
        } else if side == Side::P2 {
            all
        } else {
            Seq::empty()
        },
        _ => if before_projectiles(stage) {
            all
        } else {
            Seq::empty()
        },
    }
}

/// The projectile of a side that the host resolves with this answer, if any.
pub open spec fn resolving(m: MatchModel, f: Frame, reply: Reply, side: Side) -> Seq<Projectile> {
    match (f.stage, reply) {
        (Stage::Projectile(who, i), Reply::ProjectileResolved { .. }) => if who == side && i
            < m.player(side).projectiles.len() {
            seq![m.player(side).projectiles[i as int]]
        } else {
            Seq::empty()
        },
        _ => Seq::empty(),
    }
}

/// The projectiles of a side that the host has resolved in a conversation, in order.
pub open spec fn resolved(m: MatchModel, f: Frame, replies: Seq<Reply>, side: Side) -> Seq<
    Projectile,
>
    decreases replies.len(),
{
    if replies.len() == 0 {
        Seq::empty()
    } else {
        let rest = replies.drop_last();
        let (before, frame) = conversed(m, f, rest);
        resolved(m, f, rest, side) + resolving(before, frame, replies.last(), side)
    }
}

/// Whether combat is going on, and looks at a projectile that is there.
pub open spec fn in_combat(m: MatchModel, stage: Stage) -> bool {
    match stage {
        Stage::Projectile(who, i) => i < m.player(who).projectiles.len(),
        Stage::RecordHit(who, i, _, _) => i <= m.player(who).projectiles.len(),
        _ => before_projectiles(stage),
    }
}

/// Whether a step of combat has lost no projectile: each side's that were to come
/// are those that the host resolves now, and those that are still to come.
pub open spec fn loses_none(m: MatchModel, f: Frame, reply: Reply) -> bool {
    let (next, g) = stepped(m, f, reply);
    &&& in_combat(next, g.stage) || g.stage == Stage::Push
    &&& forall|side: Side|
        #![trigger pending(m, f.stage, side)]
        pending(m, f.stage, side) =~= resolving(m, f, reply, side) + pending(
            next,
            g.stage,
            side,
        )
}

/// Combat loses no projectile.
proof fn combat_loses_none(m: MatchModel, f: Frame, reply: Reply)
    requires
        in_combat(m, f.stage),
        fits(m, f),
        m.stage_sound(),
    ensures
        loses_none(m, f, reply),
{
    every_step_goes_rightly(m, f, reply);
    if !suits(f.stage, reply) {
        other_answers_go_nowhere(m, f, reply);
    } else {
        suitable_loses_none(m, f, reply);
    }
}

/// An answer that suits loses no projectile.
proof fn suitable_loses_none(m: MatchModel, f: Frame, reply: Reply)
    requires
        in_combat(m, f.stage),
        fits(m, f),
        m.stage_sound(),
        suits(f.stage, reply),
        goes_rightly(m, f, reply),
    ensures
        loses_none(m, f, reply),
{
    reveal(goes_rightly);
    let (next, g) = stepped(m, f, reply);
    if let Stage::Projectile(side, i) = f.stage {
        let all = m.player(side).projectiles;
        assert(all.skip(i as int) =~= seq![all[i as int]] + all.skip(i + 1));
        if g.stage is RecordHit {
            assert(all.remove(i as int).skip(i as int) =~= all.skip(i + 1));
        } else {
            assert(next.player(side).projectiles.skip(i + 1) =~= all.skip(i + 1));
        }
    }
}

/// No projectile is passed over: in a live fight, from the beginning of combat until
/// the bodies are pushed, the host resolves exactly the projectiles of either side
/// that were on stage, each once and in order.
pub proof fn every_projectile_is_resolved(
    m: MatchModel,
    f: Frame,
    replies: Seq<Reply>,
    side: Side,
)
    requires
        before_projectiles(f.stage),
        f.fighting,
        m.stage_sound(),
        fits(m, f),
        conversed(m, f, replies).1.stage == Stage::Push,
    ensures
        resolved(m, f, replies, side) == m.player(side).projectiles,
{
    none_is_lost(m, f, replies, side);
    reveal(all_there);
}

/// Once combat is over it does not begin anew.
proof fn the_end_stays(m: MatchModel, f: Frame, reply: Reply)
    requires
        place_of(f.stage) >= 16,
        !(f.stage is Alone),
        fits(m, f),
        m.stage_sound(),
    ensures
        place_of(stepped(m, f, reply).1.stage) >= 16,
        stepped(m, f, reply).1.stage == Stage::Push ==> stepped(m, f, reply) == (m, f),
{
    every_step_goes_rightly(m, f, reply);
    reveal(goes_rightly);
    if !suits(f.stage, reply) {
        other_answers_go_nowhere(m, f, reply);
    }
}

/// Whether those that were resolved and those that are to come are all.
#[verifier::opaque]
spec fn all_there(
    done: Seq<Projectile>,
    next: MatchModel,
    stage: Stage,
    side: Side,
    all: Seq<Projectile>,
) -> bool {
    &&& in_combat(next, stage) || place_of(stage) >= 16
    &&& in_combat(next, stage) || stage == Stage::Push ==> done + pending(next, stage, side)
        =~= all
}

/// A step keeps them all.
proof fn step_keeps_all(
    m: MatchModel,
    f: Frame,
    reply: Reply,
    side: Side,
    done: Seq<Projectile>,
    all: Seq<Projectile>,
)
    requires
        all_there(done, m, f.stage, side, all),
        fits(m, f),
        m.stage_sound(),
        !(f.stage is Alone),
    ensures
        all_there(
            done + resolving(m, f, reply, side),
            stepped(m, f, reply).0,
            stepped(m, f, reply).1.stage,
            side,
            all,
        ),
{
    reveal(all_there);
    let (next, g) = stepped(m, f, reply);
    if in_combat(m, f.stage) {
        combat_loses_none(m, f, reply);
        let before = pending(m, f.stage, side);
        assert(done + resolving(m, f, reply, side) + pending(next, g.stage, side) =~= done + (
        resolving(m, f, reply, side) + pending(next, g.stage, side)));
    } else {
        the_end_stays(m, f, reply);
        assert(done + resolving(m, f, reply, side) =~= done);
    }
}

/// Those that were resolved and those that are to come are all.
proof fn none_is_lost(m: MatchModel, f: Frame, replies: Seq<Reply>, side: Side)
    requires
        before_projectiles(f.stage),
        f.fighting,
        m.stage_sound(),
        fits(m, f),
    ensures
        all_there(
            resolved(m, f, replies, side),
            conversed(m, f, replies).0,
            conversed(m, f, replies).1.stage,
            side,
            m.player(side).projectiles,
        ),
    decreases replies.len(),
{
    if replies.len() > 0 {
        let rest = replies.drop_last();
        none_is_lost(m, f, rest, side);
        crate::frame_laws::live_conversation(m, f, rest);
        let (before, frame) = conversed(m, f, rest);
        step_keeps_all(
            before,
            frame,
            replies.last(),
            side,
            resolved(m, f, rest, side),
            m.player(side).projectiles,
        );
    } else {
        reveal(all_there);
    }
}

} // verus!
