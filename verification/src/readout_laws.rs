//! What a frame leaves to show, and what no frame touches.

use vstd::prelude::*;

use crate::character::{after_ops, Character, SparkSource};
use crate::frame::{
    attack_done, attack_resolved, clash_settled, combat_begun, combat_done, displays_run,
    explods_run, fighters_opened, frozen_opened, helpers_made, helpers_ran, impact, inputs_read,
    live_opened, op_served, opened, ops_done, ops_run, projectile_resolved, projectiles_flew,
    projectiles_made, projectiles_next, pushed_and_advanced, root_ticked, roots_done, served,
    spark_of, stepped, ticked_alone, Frame, Landed, Reply, Stage,
};
use crate::frame_laws::{conversed, opening_moves_the_game_clock};
use crate::game::MatchModel;
use crate::input::MatchInput;
use crate::player::{may_touch, projectile_kept};
use crate::report::TickReport;
use crate::round::Side;
use crate::scalar::Vec2;

verus! {

impl MatchModel {
    /// Whether two matches agree on what neither snapshots nor frames change.
    pub open spec fn same_assets(self, other: MatchModel) -> bool {
        &&& self.p1.loaded == other.p1.loaded
        &&& self.p2.loaded == other.p2.loaded
        &&& self.common_fx == other.common_fx
        &&& self.flow.single_round == other.flow.single_round
    }

    /// Whether a later state of the match shows no frame advantage of a side but
    /// the one that it shows now.
    pub open spec fn nothing_new(self, later: MatchModel, side: Side) -> bool {
        later.player(side).frame_advantage is None || later.player(side).frame_advantage
            == self.player(side).frame_advantage
    }

    /// Whether two matches show the same commands.
    pub open spec fn as_matched(self, other: MatchModel) -> bool {
        self.p1.just_matched == other.p1.just_matched && self.p2.just_matched
            == other.p2.just_matched
    }
}

/// The side whose attack a reply lets connect, if any.
pub open spec fn connects(f: Frame, reply: Reply) -> Option<Side> {
    match (f.stage, reply) {
        (Stage::Attack(side), Reply::Attacked { landed: Some(_), .. }) => Some(side),
        _ => None,
    }
}

/// Whether a reply holds what was read from the inputs of a live fight.
pub open spec fn reads(f: Frame, reply: Reply) -> bool {
    f.stage == Stage::Open && f.fighting && reply is Opened
}

/// Whether a transition keeps the assets and the commands, and shows no new frame
/// advantage but of the side whose attack connects.
pub open spec fn steady(m: MatchModel, next: MatchModel, connecting: Option<Side>) -> bool {
    &&& m.same_assets(next)
    &&& m.as_matched(next)
    &&& connecting != Some(Side::P1) ==> m.nothing_new(next, Side::P1)
    &&& connecting != Some(Side::P2) ==> m.nothing_new(next, Side::P2)
}

/// Whether a step keeps the assets, the commands unless it reads inputs, and shows
/// no new frame advantage but of the side whose attack connects.
pub open spec fn steps_steadily(m: MatchModel, f: Frame, reply: Reply) -> bool {
    let next = stepped(m, f, reply).0;
    let connecting = connects(f, reply);
    &&& m.same_assets(next)
    &&& !reads(f, reply) ==> m.as_matched(next)
    &&& connecting != Some(Side::P1) ==> m.nothing_new(next, Side::P1)
    &&& connecting != Some(Side::P2) ==> m.nothing_new(next, Side::P2)
}

/// The round flow is steady.
proof fn flow_is_steady(m: MatchModel)
    ensures
        steady(m, m.round_advanced().0, None),
{
    reveal(MatchModel::round_advanced);
}

/// The end of a side's target operations is steady.
proof fn ops_done_is_steady(m: MatchModel, f: Frame, side: Side)
    ensures
        steady(m, ops_done(m, f, side).0, None),
{
    reveal(ops_done);
    reveal(roots_done);
}

/// Running target operations is steady.
proof fn ops_run_is_steady(m: MatchModel, f: Frame, side: Side, from: int)
    ensures
        steady(m, ops_run(m, f, side, from).0, None),
{
    reveal(ops_run);
    let other = side.opponent_spec();
    let done = m.with_character(
        other,
        after_ops(
            m.player(side).character,
            m.player(other).character,
            f.orders(side).target_ops@,
            from,
        ),
    );
    ops_done_is_steady(done, f, side);
}

/// A fighter's tick is steady.
proof fn root_is_steady(
    m: MatchModel,
    f: Frame,
    side: Side,
    fighter: Character,
    report: TickReport,
)
    ensures
        steady(m, root_ticked(m, f, side, fighter, report).0, None),
        steady(m, ticked_alone(m, f, side, fighter, report).0, None),
{
    reveal(root_ticked);
    reveal(ticked_alone);
    let next = m.with_character(side, fighter).with_sounds(side, report.sound_requests@);
    let frame = f.with_orders(side, report.orders);
    ops_run_is_steady(next, frame, side, 0);
    ops_done_is_steady(next, frame, side);
}

/// What a target operation needed is steady.
proof fn served_op_is_steady(m: MatchModel, f: Frame, side: Side, i: int, reply: Reply)
    ensures
        steady(m, op_served(m, f, side, i, reply).0, None),
{
    reveal(op_served);
    let other = side.opponent_spec();
    let target = served(m.player(other).character, f.orders(side).target_ops@[i], reply);
    ops_run_is_steady(m.with_character(other, target), f, side, i + 1);
}

/// Ticks and target operations are steady.
proof fn ticking_is_steady(m: MatchModel, f: Frame, reply: Reply)
    requires
        f.stage is Root || f.stage is Ops || f.stage is Open || f.stage is Alone,
    ensures
        steps_steadily(m, f, reply),
{
    match (f.stage, reply) {
        (Stage::Alone(side), Reply::Ticked { fighter, report }) => {
            root_is_steady(m, f, side, fighter, report);
        },
        (Stage::Open, Reply::Opened { p1_matched, p2_matched }) => {
            reveal(inputs_read);
        },
        (Stage::Root(side), Reply::Ticked { fighter, report }) => {
            root_is_steady(m, f, side, fighter, report);
        },
        (Stage::Ops(side, i), _) => {
            served_op_is_steady(m, f, side, i as int, reply);
        },
        _ => {},
    }
}

/// Helpers, projectiles and displays are steady.
proof fn stage_is_steady(m: MatchModel, f: Frame, reply: Reply)
    requires
        f.stage is SpawnHelpers || f.stage is TickHelpers || f.stage is SpawnProjectiles
            || f.stage is MoveProjectiles,
    ensures
        steady(m, stepped(m, f, reply).0, None),
{
    reveal(helpers_made);
    reveal(helpers_ran);
    reveal(projectiles_made);
    reveal(projectiles_flew);
    reveal(combat_begun);
    reveal(displays_run);
    reveal(explods_run);
    reveal(combat_done);
}

/// The end of a side's projectiles is steady.
proof fn projectiles_next_is_steady(m: MatchModel, f: Frame, side: Side, i: int)
    ensures
        steady(m, projectiles_next(m, f, side, i).0, None),
{
    reveal(projectiles_next);
    reveal(combat_done);
}

/// The end of a side's attack is steady.
proof fn attack_done_is_steady(m: MatchModel, f: Frame, side: Side)
    ensures
        steady(m, attack_done(m, f, side).0, None),
{
    reveal(attack_done);
    projectiles_next_is_steady(m, f, Side::P1, 0);
}

/// What comes of a landed attack is steady.
proof fn impact_is_steady(
    m: MatchModel,
    side: Side,
    landed: Landed,
    spark: Option<SparkSource>,
    contact: Option<Vec2>,
)
    ensures
        steady(m, impact(m, side, landed, spark, contact), Some(side)),
{
    reveal(impact);
}

/// A side's attack is steady.
proof fn attack_is_steady(
    m: MatchModel,
    f: Frame,
    side: Side,
    attacker: Character,
    defender: Character,
    landed: Option<Landed>,
)
    ensures
        steady(
            m,
            attack_resolved(m, f, side, attacker, defender, landed).0,
            if landed is Some {
                Some(side)
            } else {
                None
            },
        ),
{
    reveal(attack_resolved);
    let other = side.opponent_spec();
    let next = m.with_character(side, attacker).with_character(other, defender);
    match landed {
        None => {
            attack_done_is_steady(next, f, side);
        },
        Some(l) => {
            let contact = if may_touch(m.player(side), m.player(other)) {
                l.contact
            } else {
                None
            };
            let spark = spark_of(m.player(side).character);
            impact_is_steady(next, side, l, spark, contact);
            attack_done_is_steady(impact(next, side, l, spark, contact), f, side);
        },
    }
}

/// A side's projectile is steady.
proof fn projectile_is_steady(
    m: MatchModel,
    f: Frame,
    side: Side,
    i: int,
    projectile: Character,
    defender: Character,
    landed: Option<bool>,
)
    ensures
        steady(m, projectile_resolved(m, f, side, i, projectile, defender, landed).0, None),
{
    reveal(projectile_resolved);
    let next = m.with_character(side.opponent_spec(), defender).with_player(
        side,
        projectile_kept(m.player(side), i, projectile),
    );
    projectiles_next_is_steady(next, f, side, i + 1);
}

/// Combat is steady.
proof fn combat_is_steady(m: MatchModel, f: Frame, reply: Reply)
    requires
        f.stage is Clash || f.stage is Attack || f.stage is AttackerState || f.stage is Projectile
            || f.stage is RecordHit,
    ensures
        steady(m, stepped(m, f, reply).0, connects(f, reply)),
{
    match (f.stage, reply) {
        (Stage::Clash, Reply::Clash { p1_hits, p2_hits, outcome }) => {
            reveal(clash_settled);
        },
        (Stage::Attack(side), Reply::Attacked { attacker, defender, landed }) => {
            attack_is_steady(m, f, side, attacker, defender, landed);
        },
        (Stage::AttackerState(side, _), Reply::Entered(c)) => {
            attack_done_is_steady(m.with_character(side, c), f, side);
        },
        (
            Stage::Projectile(side, i),
            Reply::ProjectileResolved { projectile, defender, landed },
        ) => {
            projectile_is_steady(m, f, side, i as int, projectile, defender, landed);
        },
        (Stage::RecordHit(side, i, _, _), Reply::Acknowledged) => {
            projectiles_next_is_steady(m, f, side, i as int);
        },
        _ => {},
    }
}

/// A step is steady.
proof fn step_is_steady(m: MatchModel, f: Frame, reply: Reply)
    ensures
        steps_steadily(m, f, reply),
{
    if f.stage is Root || f.stage is Ops || f.stage is Open || f.stage is Alone {
        ticking_is_steady(m, f, reply);
    } else if f.stage is SpawnHelpers || f.stage is TickHelpers || f.stage is SpawnProjectiles
        || f.stage is MoveProjectiles {
        stage_is_steady(m, f, reply);
    } else if f.stage is Clash || f.stage is Attack || f.stage is AttackerState
        || f.stage is Projectile || f.stage is RecordHit {
        combat_is_steady(m, f, reply);
    } else {
        if let Reply::Pushed { p1_x, p2_x } = reply {
            reveal(pushed_and_advanced);
            flow_is_steady(m.pushed(p1_x, p2_x).faced());
        }
    }
}

/// Whether an attack of a side connects in a conversation.
pub open spec fn connected(m: MatchModel, f: Frame, replies: Seq<Reply>, side: Side) -> bool
    decreases replies.len(),
{
    replies.len() > 0 && {
        ||| connected(m, f, replies.drop_last(), side)
        ||| connects(conversed(m, f, replies.drop_last()).1, replies.last()) == Some(side)
    }
}

/// Whether the inputs of a live fight are read in a conversation.
pub open spec fn inputs_taken(m: MatchModel, f: Frame, replies: Seq<Reply>) -> bool
    decreases replies.len(),
{
    replies.len() > 0 && {
        ||| inputs_taken(m, f, replies.drop_last())
        ||| reads(conversed(m, f, replies.drop_last()).1, replies.last())
    }
}

/// A conversation keeps the assets. One that reads no inputs keeps the commands,
/// and a side whose attack does not connect in it shows no frame advantage that was
/// not there before.
pub proof fn conversation_is_steady(m: MatchModel, f: Frame, replies: Seq<Reply>, side: Side)
    ensures
        m.same_assets(conversed(m, f, replies).0),
        !inputs_taken(m, f, replies) ==> m.as_matched(conversed(m, f, replies).0),
        !connected(m, f, replies, side) ==> m.nothing_new(conversed(m, f, replies).0, side),
    decreases replies.len(),
{
    if replies.len() > 0 {
        conversation_is_steady(m, f, replies.drop_last(), side);
        let (before, frame) = conversed(m, f, replies.drop_last());
        step_is_steady(before, frame, replies.last());
    }
}

/// Opening a frame keeps the assets, and leaves nothing to show of the frame before.
pub proof fn opening_clears_readouts(m: MatchModel, p1_input: MatchInput, p2_input: MatchInput)
    ensures
        m.same_assets(opened(m, p1_input, p2_input)),
        opened(m, p1_input, p2_input) == opened(m, p1_input, p2_input).unread(),
{
    opening_moves_the_game_clock(m, p1_input, p2_input);
    reveal(frozen_opened);
    reveal(live_opened);
    reveal(fighters_opened);
}

/// A frame on which no attack of a side connects shows no frame advantage of that
/// side, whatever the frame before has shown.
pub proof fn no_connection_no_advantage(
    m: MatchModel,
    f: Frame,
    p1_input: MatchInput,
    p2_input: MatchInput,
    replies: Seq<Reply>,
    side: Side,
)
    requires
        !connected(opened(m, p1_input, p2_input), f, replies, side),
    ensures
        conversed(opened(m, p1_input, p2_input), f, replies).0.player(
            side,
        ).frame_advantage is None,
{
    opening_clears_readouts(m, p1_input, p2_input);
    conversation_is_steady(opened(m, p1_input, p2_input), f, replies, side);
}

/// A frame on which no inputs are read shows no commands, whatever the frame before
/// has shown.
pub proof fn no_input_no_commands(
    m: MatchModel,
    f: Frame,
    p1_input: MatchInput,
    p2_input: MatchInput,
    replies: Seq<Reply>,
)
    requires
        !inputs_taken(opened(m, p1_input, p2_input), f, replies),
    ensures
        ({
            let after = conversed(opened(m, p1_input, p2_input), f, replies).0;
            after.p1.just_matched.len() == 0 && after.p2.just_matched.len() == 0
        }),
{
    opening_clears_readouts(m, p1_input, p2_input);
    conversation_is_steady(opened(m, p1_input, p2_input), f, replies, Side::P1);
}

/// What is left to show of the frame before does not enter the next.
pub proof fn readouts_do_not_matter(
    x: MatchModel,
    y: MatchModel,
    p1_input: MatchInput,
    p2_input: MatchInput,
)
    requires
        x.unread() == y.unread(),
    ensures
        opened(x, p1_input, p2_input) == opened(y, p1_input, p2_input),
{
    reveal(frozen_opened);
    reveal(live_opened);
    assert(x.p1.unread() == y.p1.unread());
    assert(x.p2.unread() == y.p2.unread());
    assert(x.clock() == y.clock());
}

} // verus!
