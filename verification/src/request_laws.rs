//! What a frame opens with and asks for, in terms of the match alone.

use vstd::prelude::*;

use crate::air::Rect;
use crate::arith::saturated;
use crate::character::{Character, CommandSource, Facing, RoundView, TargetOp, TargetWork};
use crate::frame::{
    fighters_opened, frozen_opened, just_opened, live_opened, opened, Feed, Frame, Request, Stage,
};
use crate::freeze::FreezeExempt;
use crate::game::{Flow, MatchModel};
use crate::input::MatchInput;
use crate::player::{ContactProbe, HelperRun, PlayerModel, PushBody, RedirectGraph};
use crate::report::SoundRequest;
use crate::round::{MatchState, RoundState, Side};
use crate::tick::asks;

verus! {

/// A side is itself and not the other: what is read of it and what is put in its
/// place concern that side alone.
pub proof fn sides_are_told_apart(
    m: MatchModel,
    f: Frame,
    p: PlayerModel,
    c: Character,
    sounds: Seq<SoundRequest>,
)
    ensures
        m.player(Side::P1) == m.p1 && m.player(Side::P2) == m.p2,
        m.sounds(Side::P1) == m.p1_sound_requests && m.sounds(Side::P2) == m.p2_sound_requests,
        m.with_player(Side::P1, p) == (MatchModel { p1: p, ..m }),
        m.with_player(Side::P2, p) == (MatchModel { p2: p, ..m }),
        m.with_character(Side::P1, c) == (MatchModel {
            p1: PlayerModel { character: c, ..m.p1 },
            ..m
        }),
        m.with_character(Side::P2, c) == (MatchModel {
            p2: PlayerModel { character: c, ..m.p2 },
            ..m
        }),
        m.with_sounds(Side::P1, sounds) == (MatchModel { p1_sound_requests: sounds, ..m }),
        m.with_sounds(Side::P2, sounds) == (MatchModel { p2_sound_requests: sounds, ..m }),
        f.orders(Side::P1) == f.p1_orders && f.orders(Side::P2) == f.p2_orders,
        Side::P1.opponent_spec() == Side::P2 && Side::P2.opponent_spec() == Side::P1,
        Side::P1.player_id_spec() == 1 && Side::P2.player_id_spec() == 2,
{
}

/// Whether a sample holds exactly what an input holds.
pub open spec fn samples(feed: Feed, input: MatchInput) -> bool {
    &&& feed.raw.direction.left == input.left && feed.raw.direction.right == input.right
    &&& feed.raw.direction.up == input.up && feed.raw.direction.down == input.down
    &&& feed.raw.a == input.a && feed.raw.b == input.b && feed.raw.c == input.c
    &&& feed.raw.x == input.x && feed.raw.y == input.y && feed.raw.z == input.z
    &&& !feed.raw.start
}

/// The first thing that a live frame asks for is to read its inputs. In the fight
/// each side's recogniser gets a sample of that side's own input, with that side's
/// own facing; outside the fight neither gets any.
pub proof fn inputs_reach_their_recognisers(
    m: MatchModel,
    f: Frame,
    p1_input: MatchInput,
    p2_input: MatchInput,
    req: Request,
)
    requires
        !m.freeze.holds(),
        just_opened(f, m, p1_input, p2_input, f.p1_partner, f.p2_partner),
        asks(opened(m, p1_input, p2_input), f, req),
    ensures
        req is Open,
        m.flow.round_state == RoundState::Fight ==> {
            &&& req->Open_p1 is Some && samples(req->Open_p1->0, p1_input)
            &&& req->Open_p2 is Some && samples(req->Open_p2->0, p2_input)
            &&& req->Open_p1->0.facing_right == (m.p1.character.facing == Facing::Right)
            &&& req->Open_p2->0.facing_right == (m.p2.character.facing == Facing::Right)
        },
        m.flow.round_state != RoundState::Fight ==> req->Open_p1 is None && req->Open_p2 is None,
{
    reveal(live_opened);
    reveal(fighters_opened);
}

/// What a player presses can be told from what its recogniser is fed: two frames
/// of a fight that differ in a side's input differ in that side's feed, and in no
/// other where the other side's input is the same.
pub proof fn inputs_can_be_told_apart(
    m: MatchModel,
    f: Frame,
    g: Frame,
    p1_input: MatchInput,
    p2_input: MatchInput,
    other_p1: MatchInput,
    other_p2: MatchInput,
    req: Request,
    other: Request,
)
    requires
        !m.freeze.holds(),
        m.flow.round_state == RoundState::Fight,
        just_opened(f, m, p1_input, p2_input, f.p1_partner, f.p2_partner),
        just_opened(g, m, other_p1, other_p2, g.p1_partner, g.p2_partner),
        asks(opened(m, p1_input, p2_input), f, req),
        asks(opened(m, other_p1, other_p2), g, other),
    ensures
        p1_input == other_p1 <==> req->Open_p1 == other->Open_p1,
        p2_input == other_p2 <==> req->Open_p2 == other->Open_p2,
{
    inputs_reach_their_recognisers(m, f, p1_input, p2_input, req);
    inputs_reach_their_recognisers(m, g, other_p1, other_p2, other);
}

/// Whether a fighter that faces as given blocks with an input: it holds the way
/// behind it and not the way ahead.
pub open spec fn holds_back(facing: Facing, input: MatchInput) -> bool {
    if facing == Facing::Right {
        input.left && !input.right
    } else {
        input.right && !input.left
    }
}

/// A fighter as a live frame opens: it reads the clock of this frame, and in the
/// fight whether it blocks is read off its own input and its recognised commands
/// drive it; outside the fight nothing does.
#[verifier::opaque]
pub open spec fn readied(
    before: Character,
    after: Character,
    flow: Flow,
    input: MatchInput,
) -> bool {
    let fighting = flow.round_state == RoundState::Fight;
    &&& after.round_view.game_time == saturated(flow.game_time + 1)
    &&& after.round_view.round_no == flow.round_number
    &&& after.round_view.match_over == (flow.match_state == MatchState::Over)
    &&& flow.round_number >= 1 ==> after.round_view.rounds_existed == flow.round_number - 1
    &&& after.round_view.round_state == match flow.round_state {
        RoundState::Intro => 0int,
        RoundState::Fight => 1,
        RoundState::Ko => 2,
        RoundState::Win => 3,
    }
    &&& after.commands == if fighting {
        CommandSource::Recognised
    } else {
        CommandSource::NoCommands
    }
    &&& after.holding_back == if fighting {
        holds_back(before.facing, input)
    } else {
        before.holding_back
    }
    &&& after == (Character {
        round_view: after.round_view,
        commands: after.commands,
        holding_back: after.holding_back,
        ..before
    })
}

/// A fighter with a clock to read and, in the fight, an input.
#[verifier::opaque]
spec fn ready(c: Character, clock: RoundView, fighting: bool, input: MatchInput) -> Character {
    if fighting {
        Character {
            holding_back: crate::input::guards(input, c.facing == Facing::Right),
            commands: CommandSource::Recognised,
            round_view: clock,
            ..c
        }
    } else {
        Character { commands: CommandSource::NoCommands, round_view: clock, ..c }
    }
}

/// The match with the game clock of the next frame, and nothing to show.
spec fn ticked_on(m: MatchModel) -> MatchModel {
    m.unread().with_flow(Flow { game_time: saturated(m.flow.game_time + 1), ..m.flow })
}

/// A fighter that has a clock to read and its input is ready.
proof fn fighter_is_readied(m: MatchModel, c: Character, input: MatchInput)
    ensures
        readied(
            c,
            ready(c, ticked_on(m).clock(), m.flow.round_state == RoundState::Fight, input),
            m.flow,
            input,
        ),
{
    reveal(readied);
    reveal(ready);
}

/// Opening a live frame touches the two players alone.
#[verifier::rlimit(40)]
proof fn opening_is_local(m: MatchModel, p1_input: MatchInput, p2_input: MatchInput)
    ensures
        ({
            let fighting = m.flow.round_state == RoundState::Fight;
            fighters_opened(m, p1_input, p2_input) == (MatchModel {
                p1: PlayerModel {
                    character: ready(m.p1.character, m.clock(), fighting, p1_input),
                    ..m.p1
                },
                p2: PlayerModel {
                    character: ready(m.p2.character, m.clock(), fighting, p2_input),
                    ..m.p2
                },
                ..m
            })
        }),
{
    reveal(fighters_opened);
    reveal(ready);
}

/// Opening a live frame moves the game clock, readies each fighter with its own
/// input, and touches nothing else that lasts.
pub proof fn opening_readies_both(m: MatchModel, p1_input: MatchInput, p2_input: MatchInput)
    requires
        !m.freeze.holds(),
    ensures
        ({
            let next = opened(m, p1_input, p2_input);
            &&& readied(m.p1.character, next.p1.character, m.flow, p1_input)
            &&& readied(m.p2.character, next.p2.character, m.flow, p2_input)
            &&& next.flow == (Flow { game_time: saturated(m.flow.game_time + 1), ..m.flow })
            &&& next.p1 == (PlayerModel {
                character: next.p1.character,
                just_matched: Seq::empty(),
                frame_advantage: None,
                ..m.p1
            })
            &&& next.p2 == (PlayerModel {
                character: next.p2.character,
                just_matched: Seq::empty(),
                frame_advantage: None,
                ..m.p2
            })
            &&& next == (MatchModel { p1: next.p1, p2: next.p2, flow: next.flow, ..m })
        }),
{
    reveal(live_opened);
    opening_is_local(ticked_on(m), p1_input, p2_input);
    fighter_is_readied(m, m.p1.character, p1_input);
    fighter_is_readied(m, m.p2.character, p2_input);
}

/// A frame remembers the inputs, the teammates, the phase and the places that it
/// opened with, each on its own side.
pub proof fn frames_remember_their_opening(
    m: MatchModel,
    f: Frame,
    p1_input: MatchInput,
    p2_input: MatchInput,
    p1_partner: Option<u64>,
    p2_partner: Option<u64>,
)
    requires
        just_opened(f, m, p1_input, p2_input, p1_partner, p2_partner),
    ensures
        f.p1_input == p1_input && f.p2_input == p2_input,
        f.p1_partner == p1_partner && f.p2_partner == p2_partner,
        f.p1_x == m.p1.character.pos.x && f.p2_x == m.p2.character.pos.x,
        f.fighting <==> m.flow.round_state == RoundState::Fight,
        m.freeze.remaining <= 0 <==> f.stage == Stage::Open,
{
}

/// The side that a freeze leaves free, if any.
pub open spec fn exempted(exempt: FreezeExempt) -> Option<Side> {
    match exempt {
        FreezeExempt::P1 => Some(Side::P1),
        FreezeExempt::P2 => Some(Side::P2),
        FreezeExempt::Nobody => None,
    }
}

/// Opening a frozen frame readies the exempt fighter and no other.
proof fn freezing_is_local(m: MatchModel)
    ensures
        ({
            let next = frozen_opened(m);
            &&& m.freeze.exempt == FreezeExempt::P1 ==> next.p1.character == (Character {
                round_view: m.clock(),
                commands: CommandSource::NoCommands,
                ..m.p1.character
            }) && next.p2.character == m.p2.character
            &&& m.freeze.exempt == FreezeExempt::P2 ==> next.p2.character == (Character {
                round_view: m.clock(),
                commands: CommandSource::NoCommands,
                ..m.p2.character
            }) && next.p1.character == m.p1.character
            &&& m.freeze.exempt == FreezeExempt::Nobody ==> next.freeze == m.freeze.counted()
            &&& next.flow == m.flow
        }),
{
    reveal(frozen_opened);
}

/// A frozen frame asks for the tick of the exempt fighter, of either side, and for
/// nothing exactly when nobody is exempt. The fighter that is handed out reads the
/// clock as it stands and no commands; its opponent is handed out as it is.
pub proof fn the_exempt_fighter_is_asked_for(
    m: MatchModel,
    f: Frame,
    p1_input: MatchInput,
    p2_input: MatchInput,
    req: Request,
)
    requires
        m.freeze.remaining > 0,
        just_opened(f, m, p1_input, p2_input, f.p1_partner, f.p2_partner),
        asks(opened(m, p1_input, p2_input), f, req),
    ensures
        req == Request::Done <==> m.freeze.exempt == FreezeExempt::Nobody,
        m.freeze.exempt != FreezeExempt::Nobody ==> {
            let side = exempted(m.freeze.exempt)->0;
            let own = if side == Side::P1 {
                m.p1.character
            } else {
                m.p2.character
            };
            let other = if side == Side::P1 {
                m.p2.character
            } else {
                m.p1.character
            };
            &&& f.stage == Stage::Alone(side)
            &&& req is TickAlone
            &&& req->TickAlone_side == side
            &&& req->TickAlone_opponent == other
            &&& req->TickAlone_fighter.commands == CommandSource::NoCommands
            &&& req->TickAlone_fighter.round_view.game_time == m.flow.game_time
            &&& req->TickAlone_fighter.round_view.round_no == m.flow.round_number
            &&& req->TickAlone_fighter.round_view.match_over == (m.flow.match_state
                == MatchState::Over)
            &&& req->TickAlone_fighter.round_view.round_state == match m.flow.round_state {
                RoundState::Intro => 0int,
                RoundState::Fight => 1,
                RoundState::Ko => 2,
                RoundState::Win => 3,
            }
            &&& m.flow.round_number >= 1 ==> req->TickAlone_fighter.round_view.rounds_existed
                == m.flow.round_number - 1
            &&& req->TickAlone_fighter == (Character {
                round_view: req->TickAlone_fighter.round_view,
                commands: CommandSource::NoCommands,
                ..own
            })
            &&& req->TickAlone_stage.left == m.flow.bounds.left
            &&& req->TickAlone_stage.right == m.flow.bounds.right
            &&& req->TickAlone_stage.game_width == m.flow.bounds.game_width
            &&& req->TickAlone_stage.game_height == m.flow.bounds.game_height
        },
        m.freeze.exempt == FreezeExempt::Nobody ==> f.stage == Stage::Done && opened(
            m,
            p1_input,
            p2_input,
        ).freeze.remaining == m.freeze.remaining - 1,
{
    freezing_is_local(m);
}

/// Whether a graph shows a fighter whom it can reach: its own helpers and
/// projectiles one for one and in order, its opponent under the opponent's player
/// id, the opponent as target exactly while it holds one, and its teammate.
pub open spec fn reaches(
    graph: RedirectGraph,
    own: PlayerModel,
    opponent_id: int,
    opponent: Character,
    partner: Option<u64>,
) -> bool {
    &&& graph.helpers@.len() == own.helpers.len()
    &&& graph.helper_ids@.len() == own.helpers.len()
    &&& forall|i: int|
        0 <= i < own.helpers.len() ==> {
            &&& (#[trigger] graph.helpers@[i]).0 == own.helpers[i].helper_id
            &&& graph.helpers@[i].1 == own.helpers[i].character.entity
        }
    &&& forall|i: int|
        0 <= i < own.helpers.len() ==> #[trigger] graph.helper_ids@[i] == own.helpers[i].helper_id
    &&& graph.proj_ids@.len() == own.projectiles.len()
    &&& forall|i: int|
        0 <= i < own.projectiles.len() ==> #[trigger] graph.proj_ids@[i]
            == own.projectiles[i].proj_id
    &&& graph.target == if own.character.has_target {
        Some(opponent.entity)
    } else {
        None
    }
    &&& graph.target_ids@.len() == if own.character.has_target {
        1int
    } else {
        0
    }
    &&& own.character.has_target ==> graph.target_ids@[0] == opponent_id
    &&& graph.players@.len() == 1
    &&& graph.players@[0].0 == opponent_id && graph.players@[0].1 == opponent.entity
    &&& graph.partner == partner
}

/// A fighter is handed out for its tick as it is, with its opponent as it is, the
/// stage, and whom its triggers can reach. Player 1 is addressed as 1, player 2 as
/// 2.
pub proof fn fighters_are_asked_to_tick(m: MatchModel, f: Frame, req: Request)
    requires
        f.stage is Root,
        asks(m, f, req),
    ensures
        req is TickRoot,
        f.stage == Stage::Root(req->TickRoot_side),
        req->TickRoot_side == Side::P1 ==> {
            &&& req->TickRoot_fighter == m.p1.character
            &&& req->TickRoot_opponent == m.p2.character
            &&& reaches(req->TickRoot_graph, m.p1, 2, m.p2.character, f.p1_partner)
        },
        req->TickRoot_side == Side::P2 ==> {
            &&& req->TickRoot_fighter == m.p2.character
            &&& req->TickRoot_opponent == m.p1.character
            &&& reaches(req->TickRoot_graph, m.p2, 1, m.p1.character, f.p2_partner)
        },
        req->TickRoot_stage.left == m.flow.bounds.left,
        req->TickRoot_stage.right == m.flow.bounds.right,
        req->TickRoot_stage.game_width == m.flow.bounds.game_width,
        req->TickRoot_stage.game_height == m.flow.bounds.game_height,
{
}

/// What a target operation asks the host for is done to the opponent of the fighter
/// that ordered it: a state is entered, a pin stands off from the one that binds
/// and the way that it faces, and a velocity grows from the target's own.
pub proof fn operations_are_asked_for(m: MatchModel, f: Frame, i: usize, req: Request)
    requires
        f.stage == Stage::Ops(Side::P1, i) || f.stage == Stage::Ops(Side::P2, i),
        asks(m, f, req),
    ensures
        ({
            let p1_orders = f.stage == Stage::Ops(Side::P1, i);
            let ops = if p1_orders {
                f.p1_orders.target_ops@
            } else {
                f.p2_orders.target_ops@
            };
            let binder = if p1_orders {
                m.p1.character
            } else {
                m.p2.character
            };
            let target = if p1_orders {
                m.p2.character
            } else {
                m.p1.character
            };
            let op = ops[i as int];
            &&& i < ops.len() && (op is State || op is Bind || op is VelAdd) ==> {
                &&& req is Target
                &&& req->Target_side == if p1_orders {
                    Side::P2
                } else {
                    Side::P1
                }
                &&& req->Target_target == target
                &&& op matches TargetOp::State(n) ==> req->work == TargetWork::EnterState(n)
                &&& op matches TargetOp::Bind { time, pos } ==> {
                    &&& req->work is Pin
                    &&& req->work->Pin_0.anchor == binder.pos
                    &&& req->work->Pin_0.shift.y == pos.y
                    &&& binder.facing == Facing::Right ==> req->work->Pin_0.shift.x == pos.x
                    &&& binder.facing == Facing::Left ==> req->work->Pin_0.shift.x
                        == pos.x.negated()
                }
                &&& op matches TargetOp::VelAdd(v) ==> {
                    &&& req->work is Accelerate
                    &&& req->work->Accelerate_0.anchor == target.vel
                    &&& req->work->Accelerate_0.shift == v
                }
            }
        }),
{
}

/// Whether a run holds what a side's helpers can read: their owner, their opponent,
/// and the ids of all that the owner has on stage.
pub open spec fn runs(run: HelperRun, own: PlayerModel, opponent: Character) -> bool {
    &&& run.root == own.character
    &&& run.opponent == opponent
    &&& run.helpers@ == crate::helper::helpers_due(own.helpers)
    &&& run.helper_ids@.len() == own.helpers.len()
    &&& forall|i: int|
        0 <= i < own.helpers.len() ==> #[trigger] run.helper_ids@[i] == own.helpers[i].helper_id
    &&& run.proj_ids@.len() == own.projectiles.len()
    &&& forall|i: int|
        0 <= i < own.projectiles.len() ==> #[trigger] run.proj_ids@[i]
            == own.projectiles[i].proj_id
}

/// Helpers are asked for where their own side ordered them, measured from their own
/// owner and from where its opponent stood as the frame began; then each side's
/// helpers are asked to tick against the other side's fighter.
pub proof fn helpers_are_asked_for(m: MatchModel, f: Frame, req: Request)
    requires
        asks(m, f, req),
    ensures
        f.stage == Stage::SpawnHelpers ==> {
            &&& req is SpawnHelpers
            &&& req->SpawnHelpers_p1@ == crate::helper::helper_births(
                m.p1.character,
                m.p1.helpers.len(),
                f.p1_orders.helper_spawns@,
                f.p2_x,
                m.flow.bounds.seen(),
            )
            &&& req->SpawnHelpers_p2@ == crate::helper::helper_births(
                m.p2.character,
                m.p2.helpers.len(),
                f.p2_orders.helper_spawns@,
                f.p1_x,
                m.flow.bounds.seen(),
            )
        },
        f.stage == Stage::TickHelpers ==> {
            &&& req is TickHelpers
            &&& runs(req->TickHelpers_p1, m.p1, m.p2.character)
            &&& runs(req->TickHelpers_p2, m.p2, m.p1.character)
            &&& req->TickHelpers_stage.left == m.flow.bounds.left
            &&& req->TickHelpers_stage.right == m.flow.bounds.right
            &&& req->TickHelpers_stage.game_width == m.flow.bounds.game_width
            &&& req->TickHelpers_stage.game_height == m.flow.bounds.game_height
        },
{
}

/// Projectiles are asked for where their own side ordered them; then every one that
/// flies on is asked to be moved from where it is by its own velocity, and the edges
/// lie the margin outside the stage.
pub proof fn projectiles_are_asked_for(m: MatchModel, f: Frame, req: Request)
    requires
        asks(m, f, req),
    ensures
        f.stage == Stage::SpawnProjectiles ==> {
            &&& req is SpawnProjectiles
            &&& req->SpawnProjectiles_p1@ == crate::projectile::projectile_births(
                m.p1.character,
                m.p1.projectiles.len(),
                f.p1_orders.projectile_spawns@,
            )
            &&& req->SpawnProjectiles_p2@ == crate::projectile::projectile_births(
                m.p2.character,
                m.p2.projectiles.len(),
                f.p2_orders.projectile_spawns@,
            )
        },
        f.stage == Stage::MoveProjectiles ==> {
            let due1 = crate::projectile::projectiles_due(m.p1.projectiles);
            let due2 = crate::projectile::projectiles_due(m.p2.projectiles);
            &&& req is MoveProjectiles
            &&& req->MoveProjectiles_p1@.len() == due1.len()
            &&& req->MoveProjectiles_p2@.len() == due2.len()
            &&& forall|i: int|
                0 <= i < due1.len() ==> {
                    &&& (#[trigger] req->MoveProjectiles_p1@[i]).anchor == due1[i].character.pos
                    &&& req->MoveProjectiles_p1@[i].shift == due1[i].velocity
                }
            &&& forall|i: int|
                0 <= i < due2.len() ==> {
                    &&& (#[trigger] req->MoveProjectiles_p2@[i]).anchor == due2[i].character.pos
                    &&& req->MoveProjectiles_p2@[i].shift == due2[i].velocity
                }
            &&& req->edges.anchor.x == m.flow.bounds.left
            &&& req->edges.anchor.y == m.flow.bounds.right
            &&& req->edges.shift.x.negated() == req->edges.shift.y
            &&& !req->edges.shift.y.negative() && !req->edges.shift.y.nan()
            &&& req->edges.shift.y.bits == 0x42A0_0000
        },
{
}

/// The boxes that a fighter shows: those of the frame its cursor is on, or of the
/// nearest frame where the cursor lies outside its action.
pub open spec fn shows(p: PlayerModel, boxes: Seq<Rect>, attack: bool) -> bool {
    let frames = p.loaded.air.frames_of(p.character.anim);
    let elem = p.character.anim_elem as int;
    if frames.len() == 0 {
        boxes.len() == 0
    } else {
        exists|k: int|
            {
                &&& 0 <= k < frames.len()
                &&& elem <= 0 ==> k == 0
                &&& elem >= frames.len() ==> k == frames.len() - 1
                &&& 0 <= elem < frames.len() ==> k == elem
                &&& boxes == if attack {
                    (#[trigger] frames[k]).clsn1@
                } else {
                    frames[k].clsn2@
                }
            }
    }
}

/// Whether a probe tests one player's attack boxes against the other's hurt boxes,
/// each from where its fighter stands and the way it faces.
pub open spec fn probes(probe: ContactProbe, attacker: PlayerModel, defender: PlayerModel) -> bool {
    &&& shows(attacker, probe.attack@, true)
    &&& shows(defender, probe.hurt@, false)
    &&& probe.attack@.len() > 0 && probe.hurt@.len() > 0
    &&& probe.attacker_pos == attacker.character.pos
    &&& probe.attacker_facing == attacker.character.facing
    &&& probe.defender_pos == defender.character.pos
    &&& probe.defender_facing == defender.character.facing
}

/// A fighter shows the boxes of its current frame.
proof fn boxes_are_shown(p: PlayerModel, attack: bool)
    ensures
        shows(
            p,
            crate::air::boxes_of(
                p.loaded.air.frames_of(p.character.anim),
                p.character.anim_elem,
                attack,
            ),
            attack,
        ),
{
    let frames = p.loaded.air.frames_of(p.character.anim);
    if frames.len() > 0 {
        let elem = p.character.anim_elem as int;
        let k = if elem < 0 {
            0
        } else if elem >= frames.len() {
            frames.len() - 1
        } else {
            elem
        };
        let shown = frames[k];
        assert(0 <= k < frames.len());
    }
}

/// An attack is handed out with its attacker and its defender as they are, and with
/// a probe of its point of contact exactly where there are boxes on either side.
pub proof fn attacks_are_asked_for(m: MatchModel, f: Frame, side: Side, req: Request)
    requires
        f.stage == Stage::Attack(side),
        asks(m, f, req),
    ensures
        req is ResolveAttack,
        req->ResolveAttack_side == side,
        side == Side::P1 ==> {
            &&& req->attacker == m.p1.character
            &&& req->ResolveAttack_defender == m.p2.character
            &&& req->probe matches Some(p) ==> probes(p, m.p1, m.p2)
        },
        side == Side::P2 ==> {
            &&& req->attacker == m.p2.character
            &&& req->ResolveAttack_defender == m.p1.character
            &&& req->probe matches Some(p) ==> probes(p, m.p2, m.p1)
        },
        req->probe is None ==> {
            let (a, d) = if side == Side::P1 {
                (m.p1, m.p2)
            } else {
                (m.p2, m.p1)
            };
            shows(a, Seq::empty(), true) || shows(d, Seq::empty(), false)
        },
{
    boxes_are_shown(m.p1, true);
    boxes_are_shown(m.p2, true);
    boxes_are_shown(m.p1, false);
    boxes_are_shown(m.p2, false);
    let (a, d) = if side == Side::P1 {
        (m.p1, m.p2)
    } else {
        (m.p2, m.p1)
    };
    if req->probe is None {
        assert(crate::player::attack_boxes(a) =~= Seq::empty() || crate::player::hurt_boxes(d)
            =~= Seq::empty());
    }
}

/// A clash is asked for with a probe of either attack against the other fighter and
/// the priority of either attack.
pub proof fn clashes_are_asked_for(m: MatchModel, f: Frame, req: Request)
    requires
        f.stage == Stage::Clash,
        m.may_clash(),
        asks(m, f, req),
    ensures
        req is Clash,
        probes(req->Clash_0.p1, m.p1, m.p2),
        probes(req->Clash_0.p2, m.p2, m.p1),
        m.p1.character.active_hitdef matches Some(h) && h.priority == req->Clash_0.p1_priority,
        m.p2.character.active_hitdef matches Some(h) && h.priority == req->Clash_0.p2_priority,
{
    boxes_are_shown(m.p1, true);
    boxes_are_shown(m.p2, true);
    boxes_are_shown(m.p1, false);
    boxes_are_shown(m.p2, false);
}

/// Two attacks may clash exactly where both fighters are armed, neither has made
/// contact yet, and both show attack boxes and hurt boxes.
pub proof fn armed_attacks_may_clash(
    m: MatchModel,
    p1_attack: Seq<Rect>,
    p1_hurt: Seq<Rect>,
    p2_attack: Seq<Rect>,
    p2_hurt: Seq<Rect>,
)
    requires
        shows(m.p1, p1_attack, true),
        shows(m.p1, p1_hurt, false),
        shows(m.p2, p2_attack, true),
        shows(m.p2, p2_hurt, false),
    ensures
        m.may_clash() <==> {
            &&& m.p1.character.active_hitdef is Some && m.p2.character.active_hitdef is Some
            &&& !m.p1.character.move_contact && !m.p2.character.move_contact
            &&& p1_attack.len() > 0 && p1_hurt.len() > 0
            &&& p2_attack.len() > 0 && p2_hurt.len() > 0
        },
{
    boxes_are_shown(m.p1, true);
    boxes_are_shown(m.p2, true);
    boxes_are_shown(m.p1, false);
    boxes_are_shown(m.p2, false);
    shown_once(m.p1, p1_attack, crate::player::attack_boxes(m.p1), true);
    shown_once(m.p1, p1_hurt, crate::player::hurt_boxes(m.p1), false);
    shown_once(m.p2, p2_attack, crate::player::attack_boxes(m.p2), true);
    shown_once(m.p2, p2_hurt, crate::player::hurt_boxes(m.p2), false);
}

/// What a fighter shows is one thing.
proof fn shown_once(p: PlayerModel, a: Seq<Rect>, b: Seq<Rect>, attack: bool)
    requires
        shows(p, a, attack),
        shows(p, b, attack),
    ensures
        a =~= b,
{
}

/// A thrower is asked to enter its state, and a projectile is handed out with the
/// fighter that it flies at; where one has landed its owner is told.
pub proof fn hits_are_asked_for(m: MatchModel, f: Frame, side: Side, req: Request)
    requires
        asks(m, f, req),
    ensures
        ({
            let own = if side == Side::P1 {
                m.p1
            } else {
                m.p2
            };
            let other = if side == Side::P1 {
                m.p2
            } else {
                m.p1
            };
            &&& f.stage matches Stage::AttackerState(who, n) ==> (who == side ==> {
                &&& req is EnterState
                &&& req->EnterState_side == side
                &&& req->EnterState_fighter == own.character
                &&& req->EnterState_state_no == n
            })
            &&& f.stage matches Stage::Projectile(who, i) ==> (who == side && i
                < own.projectiles.len() ==> {
                &&& req is ResolveProjectile
                &&& req->ResolveProjectile_side == side
                &&& req->ResolveProjectile_projectile == own.projectiles[i as int]
                &&& req->ResolveProjectile_defender == other.character
            })
            &&& f.stage matches Stage::RecordHit(who, i, id, guarded) ==> (who == side ==> {
                &&& req is RecordHit
                &&& req->RecordHit_side == side
                &&& req->proj_id == id
                &&& req->guarded == guarded
            })
        }),
{
}

/// Whether a body is that of a fighter: its axis, its facing, and its widths, which
/// are those of this frame where there are any and its own else. Its left side is
/// its back where it faces right and its front where it faces left.
pub open spec fn embodies(body: PushBody, c: Character) -> bool {
    &&& body.x == c.pos.x
    &&& body.facing == c.facing
    &&& c.cur_width.active ==> body.front == c.cur_width.front && body.back == c.cur_width.back
    &&& !c.cur_width.active ==> body.front == c.size.ground_front && body.back
        == c.size.ground_back
    &&& c.facing == Facing::Right ==> body.left_half == body.back && body.right_half == body.front
    &&& c.facing == Facing::Left ==> body.left_half == body.front && body.right_half == body.back
}

/// Pushing is asked for with the bodies of both fighters and the edges of the stage;
/// a new round with both fighters, and with those entering that define the state.
pub proof fn endings_are_asked_for(m: MatchModel, f: Frame, req: Request)
    requires
        asks(m, f, req),
    ensures
        f.stage == Stage::Push ==> {
            &&& req is PushAndClamp
            &&& embodies(req->PushAndClamp_p1, m.p1.character)
            &&& embodies(req->PushAndClamp_p2, m.p2.character)
            &&& req->left == m.flow.bounds.left
            &&& req->right == m.flow.bounds.right
        },
        f.stage == Stage::NewRound ==> {
            &&& req is NewRound
            &&& req->NewRound_p1 == m.p1.character
            &&& req->NewRound_p2 == m.p2.character
            &&& req->entering.p1 <==> m.p1.loaded.states@.contains(5900)
            &&& req->entering.p2 <==> m.p2.loaded.states@.contains(5900)
        },
        f.stage == Stage::Done ==> req == Request::Done,
{
}

} // verus!
