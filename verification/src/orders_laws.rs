//! What becomes, over a whole frame, of what a fighter's tick has ordered, and of the
//! tick that a freeze leaves.

use vstd::prelude::*;

use crate::answer_laws::{
    lone_ticks_are_taken_in, moves_are_taken_in, other_replies_are_not_taken_in,
    ticks_are_taken_in,
};
use crate::character::Character;
use crate::explod::{
    after_explod_op, after_explod_ops, explods_ticked, only_given_fields_change,
    removing_removes, ticked_explods_were_there, Explod,
};
use crate::frame::{just_opened, opened, stepped, Frame, Reply, Stage};
use crate::frame_laws::{conversed, live_conversation};
use crate::game::MatchModel;
use crate::input::MatchInput;
use crate::order_laws::{every_step_goes_rightly, follows, goes_rightly, place_of};
use crate::projectile::projectiles_due;
use crate::report::{ExplodOp, Orders, TickReport};
use crate::request_laws::exempted;
use crate::round::Side;
use crate::scalar::Vec2;
use crate::tick::fits;

verus! {

/// Whether all explods of a list are of a kind.
pub open spec fn all_such(explods: Seq<Explod>, kind: spec_fn(Explod) -> bool) -> bool {
    forall|i: int| 0 <= i < explods.len() ==> kind(#[trigger] explods[i])
}

/// Whether a kind can be told by what an explod keeps as it ages.
spec fn ageless(kind: spec_fn(Explod) -> bool) -> bool {
    forall|a: Explod, b: Explod|
        a.id == b.id && a.anim == b.anim && a.sprpriority == b.sprpriority && a.anchor_offset
            == b.anchor_offset ==> #[trigger] kind(a) == #[trigger] kind(b)
}

/// Whether an operation leaves only explods of a kind.
spec fn leaves_only(op: ExplodOp, kind: spec_fn(Explod) -> bool) -> bool {
    forall|explods: Seq<Explod>| all_such(#[trigger] after_explod_op(explods, op), kind)
}

/// What the last operation leaves is there one tick on.
proof fn the_last_operation_counts(
    explods: Seq<Explod>,
    ops: Seq<ExplodOp>,
    air: crate::air::AirFile,
    owner_pos: Vec2,
    owner_facing: crate::character::Facing,
    opponent_x: crate::scalar::Scalar,
    stage: crate::stage::StageView,
    kind: spec_fn(Explod) -> bool,
)
    requires
        ops.len() > 0,
        leaves_only(ops.last(), kind),
        ageless(kind),
    ensures
        all_such(
            explods_ticked(
                after_explod_ops(explods, ops),
                air,
                owner_pos,
                owner_facing,
                opponent_x,
                stage,
            ),
            kind,
        ),
{
    let changed = after_explod_ops(explods, ops);
    let before = after_explod_ops(explods, ops.drop_last());
    assert(changed == after_explod_op(before, ops.last()));
    let after = explods_ticked(changed, air, owner_pos, owner_facing, opponent_x, stage);
    assert forall|i: int| 0 <= i < after.len() implies kind(#[trigger] after[i]) by {
        let j = ticked_explods_were_there(
            changed,
            air,
            owner_pos,
            owner_facing,
            opponent_x,
            stage,
            i,
        );
        assert(kind(changed[j]));
    }
}

/// Whether a frame still has a side's orders to carry out, or has left only explods
/// of a kind to that side.
#[verifier::opaque]
spec fn on_its_way(
    m: MatchModel,
    f: Frame,
    side: Side,
    orders: Orders,
    kind: spec_fn(Explod) -> bool,
) -> bool {
    let own_tick = if side == Side::P1 {
        1int
    } else {
        3
    };
    &&& !(f.stage is Alone)
    &&& own_tick < place_of(f.stage)
    &&& place_of(f.stage) <= 8 ==> f.orders(side) == orders
    &&& place_of(f.stage) > 8 ==> all_such(m.player(side).explods, kind)
}

/// What follows is never back at a tick that is over.
proof fn no_way_back(from: Stage, to: Stage, fighting: bool, p1: nat, p2: nat)
    requires
        follows(from, to, fighting, p1, p2),
        !(from is Alone),
    ensures
        place_of(from) <= place_of(to),
        !(to is Alone),
        place_of(from) <= 7 ==> place_of(to) <= 8,
{
}

/// The step at which explods live keeps the frame on its way.
proof fn displays_keep_the_way(
    m: MatchModel,
    f: Frame,
    side: Side,
    orders: Orders,
    kind: spec_fn(Explod) -> bool,
    p1: Vec<Vec2>,
    p2: Vec<Vec2>,
    edges: Vec2,
)
    requires
        f.stage == Stage::MoveProjectiles,
        f.orders(side) == orders,
        orders.explod_ops@.len() > 0,
        leaves_only(orders.explod_ops@.last(), kind),
        ageless(kind),
        p1@.len() == projectiles_due(m.p1.projectiles).len(),
        p2@.len() == projectiles_due(m.p2.projectiles).len(),
    ensures
        all_such(
            stepped(m, f, Reply::Moved { p1, p2, edges }).0.player(side).explods,
            kind,
        ),
{
    moves_are_taken_in(m, f, p1, p2, edges);
    let own = m.player(side);
    let other = m.player(side.opponent_spec());
    let seen_x = if side == Side::P1 {
        f.p2_x
    } else {
        f.p1_x
    };
    the_last_operation_counts(
        crate::explod::explods_spawned(
            own.explods,
            own.character,
            own.loaded.air,
            orders.explod_spawns@,
            side.player_id_spec(),
            seen_x,
            m.flow.bounds.seen(),
        ),
        orders.explod_ops@,
        own.loaded.air,
        own.character.pos,
        own.character.facing,
        other.character.pos.x,
        m.flow.bounds.seen(),
        kind,
    );
}

/// A step keeps a frame on its way.
proof fn steps_keep_the_way(
    m: MatchModel,
    f: Frame,
    reply: Reply,
    side: Side,
    orders: Orders,
    kind: spec_fn(Explod) -> bool,
)
    requires
        on_its_way(m, f, side, orders, kind),
        fits(m, f),
        m.stage_sound(),
        orders.explod_ops@.len() > 0,
        leaves_only(orders.explod_ops@.last(), kind),
        ageless(kind),
    ensures
        on_its_way(stepped(m, f, reply).0, stepped(m, f, reply).1, side, orders, kind),
{
    reveal(on_its_way);
    every_step_goes_rightly(m, f, reply);
    reveal(goes_rightly);
    let (next, g) = stepped(m, f, reply);
    no_way_back(
        f.stage,
        g.stage,
        f.fighting,
        next.p1.projectiles.len(),
        next.p2.projectiles.len(),
    );
    if f.stage == Stage::MoveProjectiles {
        if let Reply::Moved { p1, p2, edges } = reply {
            if p1@.len() == projectiles_due(m.p1.projectiles).len() && p2@.len()
                == projectiles_due(m.p2.projectiles).len() {
                displays_keep_the_way(m, f, side, orders, kind, p1, p2, edges);
            } else {
                other_replies_are_not_taken_in(m, f, reply);
            }
        } else {
            other_replies_are_not_taken_in(m, f, reply);
        }
    }
}

/// A conversation keeps a frame on its way.
proof fn conversations_keep_the_way(
    m: MatchModel,
    f: Frame,
    replies: Seq<Reply>,
    side: Side,
    orders: Orders,
    kind: spec_fn(Explod) -> bool,
)
    requires
        on_its_way(m, f, side, orders, kind),
        crate::frame_laws::before_push(f.stage),
        fits(m, f),
        m.stage_sound(),
        f.fighting || !crate::frame_laws::of_combat(f.stage),
        orders.explod_ops@.len() > 0,
        leaves_only(orders.explod_ops@.last(), kind),
        ageless(kind),
    ensures
        on_its_way(
            conversed(m, f, replies).0,
            conversed(m, f, replies).1,
            side,
            orders,
            kind,
        ),
    decreases replies.len(),
{
    if replies.len() > 0 {
        let rest = replies.drop_last();
        conversations_keep_the_way(m, f, rest, side, orders, kind);
        live_conversation(m, f, rest);
        let (before, frame) = conversed(m, f, rest);
        steps_keep_the_way(before, frame, replies.last(), side, orders, kind);
    }
}

/// A tick that orders something sets a frame on its way, and whatever the host answers
/// from then on, once the explods have lived through the frame only those of the kind
/// that the last operation leaves are there.
proof fn orders_are_on_their_way(
    m: MatchModel,
    f: Frame,
    side: Side,
    fighter: Character,
    report: TickReport,
    replies: Seq<Reply>,
    kind: spec_fn(Explod) -> bool,
)
    requires
        f.stage == Stage::Root(side),
        m.stage_sound(),
        report.orders.explod_ops@.len() > 0,
        leaves_only(report.orders.explod_ops@.last(), kind),
        ageless(kind),
    ensures
        ({
            let (ticked, g) = stepped(m, f, Reply::Ticked { fighter, report });
            let (after, end) = conversed(ticked, g, replies);
            place_of(end.stage) > 8 ==> all_such(after.player(side).explods, kind)
        }),
{
    let reply = Reply::Ticked { fighter, report };
    let (ticked, g) = stepped(m, f, reply);
    ticks_are_taken_in(m, f, side, fighter, report);
    crate::frame_laws::step_keeps(m, f, reply);
    assert(on_its_way(ticked, g, side, report.orders, kind)) by {
        reveal(on_its_way);
    }
    conversations_keep_the_way(ticked, g, replies, side, report.orders, kind);
    reveal(on_its_way);
}

/// An explod that is ordered away is gone: where a fighter's tick, on either side, last
/// orders the explods removed that a selector picks, then from the moment that the
/// explods have lived through the frame until its end that side owns none of them,
/// whatever the host answers.
pub proof fn removed_explods_are_gone(
    m: MatchModel,
    f: Frame,
    side: Side,
    fighter: Character,
    report: TickReport,
    selector: Option<i32>,
    replies: Seq<Reply>,
    i: int,
)
    requires
        f.stage == Stage::Root(side),
        m.stage_sound(),
        report.orders.explod_ops@.len() > 0,
        report.orders.explod_ops@.last() == ExplodOp::Remove(selector),
        ({
            let (ticked, g) = stepped(m, f, Reply::Ticked { fighter, report });
            let (after, end) = conversed(ticked, g, replies);
            &&& place_of(end.stage) > place_of(Stage::MoveProjectiles)
            &&& 0 <= i < after.player(side).explods.len()
        }),
    ensures
        ({
            let (ticked, g) = stepped(m, f, Reply::Ticked { fighter, report });
            let (after, end) = conversed(ticked, g, replies);
            selector is Some && after.player(side).explods[i].id != selector->0
        }),
{
    let kind = |e: Explod| selector is Some && e.id != selector->0;
    assert forall|explods: Seq<Explod>| all_such(
        #[trigger] after_explod_op(explods, ExplodOp::Remove(selector)),
        kind,
    ) by {
        removing_removes(explods, selector);
    }
    orders_are_on_their_way(m, f, side, fighter, report, replies, kind);
    let (ticked, g) = stepped(m, f, Reply::Ticked { fighter, report });
    let (after, end) = conversed(ticked, g, replies);
    assert(kind(after.player(side).explods[i]));
}

/// An explod that is ordered changed is changed: where a fighter's tick, on either
/// side, last orders a change, then from the moment that the explods have lived
/// through the frame until its end every explod of that side which the change picks
/// has the action, the offset and the priority that it gave.
pub proof fn changed_explods_are_changed(
    m: MatchModel,
    f: Frame,
    side: Side,
    fighter: Character,
    report: TickReport,
    replies: Seq<Reply>,
    i: int,
)
    requires
        f.stage == Stage::Root(side),
        m.stage_sound(),
        report.orders.explod_ops@.len() > 0,
        report.orders.explod_ops@.last() is Modify,
        ({
            let (ticked, g) = stepped(m, f, Reply::Ticked { fighter, report });
            let (after, end) = conversed(ticked, g, replies);
            &&& place_of(end.stage) > place_of(Stage::MoveProjectiles)
            &&& 0 <= i < after.player(side).explods.len()
        }),
    ensures
        ({
            let (ticked, g) = stepped(m, f, Reply::Ticked { fighter, report });
            let (after, end) = conversed(ticked, g, replies);
            let op = report.orders.explod_ops@.last();
            let e = after.player(side).explods[i];
            op->Modify_id is None || op->Modify_id == Some(e.id) ==> {
                &&& op->Modify_anim is Some ==> e.anim == op->Modify_anim->0
                &&& op->Modify_pos is Some ==> e.anchor_offset == op->Modify_pos->0
                &&& op->Modify_sprpriority is Some ==> e.sprpriority == op->Modify_sprpriority->0
            }
        }),
{
    let op = report.orders.explod_ops@.last();
    let kind = |e: Explod|
        op->Modify_id is None || op->Modify_id == Some(e.id) ==> {
            &&& op->Modify_anim is Some ==> e.anim == op->Modify_anim->0
            &&& op->Modify_pos is Some ==> e.anchor_offset == op->Modify_pos->0
            &&& op->Modify_sprpriority is Some ==> e.sprpriority == op->Modify_sprpriority->0
        };
    assert forall|explods: Seq<Explod>| all_such(#[trigger] after_explod_op(explods, op), kind) by {
        let after = after_explod_op(explods, op);
        assert forall|k: int| 0 <= k < after.len() implies kind(#[trigger] after[k]) by {
            only_given_fields_change(explods, op, k);
        }
    }
    orders_are_on_their_way(m, f, side, fighter, report, replies, kind);
    let (ticked, g) = stepped(m, f, Reply::Ticked { fighter, report });
    let (after, end) = conversed(ticked, g, replies);
    assert(kind(after.player(side).explods[i]));
}

/// A frozen frame with an exempt fighter, of either side, is over only once that
/// fighter has ticked, and has then taken its tick in: the fighter and its sounds are
/// those of the last tick that the host gave while the frame waited for it.
pub proof fn the_exempt_fighter_ticks(
    m: MatchModel,
    f: Frame,
    p1_input: MatchInput,
    p2_input: MatchInput,
    replies: Seq<Reply>,
    side: Side,
)
    requires
        m.freeze.remaining > 0,
        exempted(m.freeze.exempt) == Some(side),
        just_opened(f, m, p1_input, p2_input, f.p1_partner, f.p2_partner),
        conversed(opened(m, p1_input, p2_input), f, replies).1.stage == Stage::Done,
    ensures
        exists|k: int|
            {
                &&& 0 <= k < replies.len()
                &&& (#[trigger] replies[k]) is Ticked
                &&& conversed(opened(m, p1_input, p2_input), f, replies).0.player(side).character
                    == replies[k]->fighter
                &&& conversed(opened(m, p1_input, p2_input), f, replies).0.sounds(side)
                    == replies[k]->report.sound_requests@
            },
    decreases replies.len(),
{
    let start = opened(m, p1_input, p2_input);
    if replies.len() > 0 {
        let rest = replies.drop_last();
        let reply = replies.last();
        let (before, frame) = conversed(start, f, rest);
        crate::frame_laws::frozen_frame_law(m, f, p1_input, p2_input, rest);
        if frame.stage == Stage::Done {
            the_exempt_fighter_ticks(m, f, p1_input, p2_input, rest, side);
            other_replies_are_not_taken_in(before, frame, reply);
            let k = choose|k: int|
                {
                    &&& 0 <= k < rest.len()
                    &&& (#[trigger] rest[k]) is Ticked
                    &&& before.player(side).character == rest[k]->fighter
                    &&& before.sounds(side) == rest[k]->report.sound_requests@
                };
            assert(replies[k] == rest[k]);
        } else {
            assert(frame.stage == Stage::Alone(side));
            if let Reply::Ticked { fighter, report } = reply {
                lone_ticks_are_taken_in(before, frame, side, fighter, report);
                assert(replies[replies.len() - 1] is Ticked);
            } else {
                other_replies_are_not_taken_in(before, frame, reply);
            }
        }
    }
}

} // verus!
