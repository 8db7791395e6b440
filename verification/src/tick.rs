//! Opening a frame, asking for what it needs, and taking in the answers.

use vstd::prelude::*;

use crate::arith::saturating_sum;
use crate::character::{
    apply_target_op, apply_target_ops, work_of, Character, CommandSource, Facing, TargetOp,
    TargetWork,
};
use crate::effect::EffectSide;
use crate::frame::{
    attack_done, attack_resolved, births, clash_settled, combat_begun, combat_done, displays_run,
    explods_run, fighters_opened, first_stage, frozen_opened, helpers_made, helpers_ran, impact,
    inputs_read, just_opened, live_opened, op_served, opened, ops_done, ops_run,
    projectile_resolved, projectiles_flew, projectiles_made, projectiles_next, pushed_and_advanced,
    root_ticked, roots_done, stepped, ticked_alone, Feed, Frame, Landed, Reply, Request, Stage,
};
use crate::freeze::FreezeExempt;
use crate::game::{ClashOutcome, Match, MatchModel};
use crate::helper::HelperTick;
use crate::input::{match_input_to_state, raw_sample, MatchInput};
use crate::player::{
    body_of, compute_frame_advantage, directional_contact, may_touch, projectile_kept,
    projectile_spent, Player,
};
use crate::projectile::{
    projectile_births, projectiles_due, steps_of, Projectile, OFFSCREEN_MARGIN,
};
use crate::report::{hit_sound_request, Orders, SoundRequest, TickReport};
use crate::round::{RoundState, Side};
use crate::scalar::{Placement, Scalar, Vec2};

verus! {

/// The edges that projectiles must not pass: the margin beyond each of the
/// stage's, as the left (x) and the right (y) of a point.
pub open spec fn outer_edges(m: MatchModel) -> Placement {
    let margin = Scalar { bits: OFFSCREEN_MARGIN };
    Placement {
        anchor: Vec2 { x: m.flow.bounds.left, y: m.flow.bounds.right },
        shift: Vec2 { x: margin.negated(), y: margin },
    }
}

/// The input that a side's recogniser reads, while the fight is live.
pub open spec fn feed_of(m: MatchModel, f: Frame, side: Side) -> Option<Feed> {
    if f.fighting {
        Some(
            Feed {
                raw: raw_sample(
                    match side {
                        Side::P1 => f.p1_input,
                        Side::P2 => f.p2_input,
                    },
                ),
                facing_right: m.player(side).character.facing == Facing::Right,
            },
        )
    } else {
        None
    }
}

/// Whether a frame waits for something that is there: its operation, its clash or
/// its projectile.
pub open spec fn fits(m: MatchModel, f: Frame) -> bool {
    match f.stage {
        Stage::Ops(side, i) => i < f.orders(side).target_ops@.len() && needs(m, f, side, i) is Some,
        Stage::Clash => m.may_clash(),
        Stage::Projectile(side, i) => i < m.player(side).projectiles.len(),
        _ => true,
    }
}

/// What a side's target operation `i` needs.
pub open spec fn needs(m: MatchModel, f: Frame, side: Side, i: usize) -> Option<TargetWork> {
    work_of(
        m.player(side).character,
        m.player(side.opponent_spec()).character,
        f.orders(side).target_ops@[i as int],
    )
}

/// Whether `req` is what a frame asks for.
pub open spec fn asks(m: MatchModel, f: Frame, req: Request) -> bool {
    if !fits(m, f) {
        req == Request::Done
    } else {
        match f.stage {
            Stage::Done => req == Request::Done,
            Stage::Alone(who) => req == (Request::TickAlone {
                side: who,
                fighter: m.player(who).character,
                opponent: m.player(who.opponent_spec()).character,
                stage: m.flow.bounds.seen(),
            }),
            Stage::Open => req == (Request::Open {
                p1: feed_of(m, f, Side::P1),
                p2: feed_of(m, f, Side::P2),
            }),
            Stage::Root(who) => req matches Request::TickRoot {
                side,
                fighter,
                opponent,
                stage,
                graph,
            } && side == who && fighter == m.player(who).character && opponent == m.player(
                who.opponent_spec(),
            ).character && stage == m.flow.bounds.seen() && graph.is_of(
                m.player(who),
                who.opponent_spec().player_id_spec(),
                m.player(who.opponent_spec()).character,
                match who {
                    Side::P1 => f.p1_partner,
                    Side::P2 => f.p2_partner,
                },
            ),
            Stage::Ops(who, i) => req matches Request::Target { side, target, work } && side
                == who.opponent_spec() && target == m.player(side).character && Some(work)
                == needs(m, f, who, i),
            Stage::SpawnHelpers => req matches Request::SpawnHelpers { p1, p2 } && p1@ == births(
                m,
                f,
                Side::P1,
            ) && p2@ == births(m, f, Side::P2),
            Stage::TickHelpers => req matches Request::TickHelpers { p1, p2, stage } && p1.is_of(
                m.p1,
                m.p2.character,
            ) && p2.is_of(m.p2, m.p1.character) && stage == m.flow.bounds.seen(),
            Stage::SpawnProjectiles => req matches Request::SpawnProjectiles { p1, p2 } && p1@
                == m.p1.projectile_births(f.p1_orders.projectile_spawns@) && p2@
                == m.p2.projectile_births(f.p2_orders.projectile_spawns@),
            Stage::MoveProjectiles => req matches Request::MoveProjectiles { p1, p2, edges } && p1@
                == steps_of(projectiles_due(m.p1.projectiles)) && p2@ == steps_of(
                projectiles_due(m.p2.projectiles),
            ) && edges == outer_edges(m),
            Stage::Clash => req matches Request::Clash(probe) && probe.is_of(m),
            Stage::Attack(who) => req matches Request::ResolveAttack {
                side,
                attacker,
                defender,
                probe,
            } && side == who && attacker == m.player(who).character && defender == m.player(
                who.opponent_spec(),
            ).character && probe is Some == may_touch(
                m.player(who),
                m.player(who.opponent_spec()),
            ) && (probe matches Some(p) ==> p.is_of(
                m.player(who),
                m.player(who.opponent_spec()),
            )),
            Stage::AttackerState(who, number) => req == (Request::EnterState {
                side: who,
                fighter: m.player(who).character,
                state_no: number,
            }),
            Stage::Projectile(who, i) => req == (Request::ResolveProjectile {
                side: who,
                projectile: m.player(who).projectiles[i as int],
                defender: m.player(who.opponent_spec()).character,
            }),
            Stage::RecordHit(who, _, id, blocked) => req == (Request::RecordHit {
                side: who,
                proj_id: id,
                guarded: blocked,
            }),
            Stage::Push => req == (Request::PushAndClamp {
                p1: body_of(m.p1.character),
                p2: body_of(m.p2.character),
                left: m.flow.bounds.left,
                right: m.flow.bounds.right,
            }),
            Stage::NewRound => req == (Request::NewRound {
                p1: m.p1.character,
                p2: m.p2.character,
                entering: m.round_init(),
            }),
        }
    }
}

impl Match {
    /// Opens a frame without teammates.
    pub fn tick(&mut self, p1_input: MatchInput, p2_input: MatchInput) -> (r: Frame)
        ensures
            final(self)@ == opened(old(self)@, p1_input, p2_input),
            just_opened(r, old(self)@, p1_input, p2_input, None, None),
    {
        self.tick_with_partners(p1_input, p2_input, None, None)
    }

    /// Opens a frame: nothing is left to show of the frame before. While a freeze
    /// holds, the frame only ticks the exempt fighter, if there is one, and counts
    /// the freeze down. Else the game clock moves on, both fighters get to read it,
    /// and inputs are taken while the fight is live. The partners are the entities of
    /// the fighters' teammates.
    pub fn tick_with_partners(
        &mut self,
        p1_input: MatchInput,
        p2_input: MatchInput,
        p1_partner: Option<u64>,
        p2_partner: Option<u64>,
    ) -> (r: Frame)
        ensures
            final(self)@ == opened(old(self)@, p1_input, p2_input),
            just_opened(r, old(self)@, p1_input, p2_input, p1_partner, p2_partner),
    {
        let fighting = self.flow.round_state == RoundState::Fight;
        let mut frame = Frame {
            stage: Stage::Open,
            p1_input,
            p2_input,
            p1_partner,
            p2_partner,
            fighting,
            p1_x: self.p1.character.pos.x,
            p2_x: self.p2.character.pos.x,
            p1_orders: Orders::none(),
            p2_orders: Orders::none(),
        };
        if self.freeze.active() {
            frame.stage = self.tick_frozen();
        } else {
            self.open_live(p1_input, p2_input);
        }
        frame
    }

    /// Opens a live frame.
    fn open_live(&mut self, p1_input: MatchInput, p2_input: MatchInput)
        ensures
            final(self)@ == live_opened(old(self)@, p1_input, p2_input),
    {
        proof {
            reveal(live_opened);
            reveal(fighters_opened);
        }
        self.p1.clear_readouts();
        self.p2.clear_readouts();
        self.flow.game_time = saturating_sum(self.flow.game_time, 1);
        let view = self.round_view();
        self.p1.set_round_view(view);
        self.p2.set_round_view(view);
        if self.flow.round_state == RoundState::Fight {
            let _ = self.p1.feed_input(p1_input);
            let _ = self.p2.feed_input(p2_input);
        } else {
            self.p1.tick_standalone();
            self.p2.tick_standalone();
        }
    }

    /// Opens a frozen frame, and returns what it waits for.
    pub fn tick_frozen(&mut self) -> (r: Stage)
        requires
            old(self)@.freeze.holds(),
        ensures
            final(self)@ == frozen_opened(old(self)@),
            r == first_stage(old(self)@),
    {
        proof {
            reveal(frozen_opened);
        }
        let view = self.round_view();
        self.silence();
        self.p1.clear_readouts();
        self.p2.clear_readouts();
        match self.freeze.exempt {
            FreezeExempt::P1 => {
                let mut c = self.p1.character;
                c.round_view = view;
                c.commands = CommandSource::NoCommands;
                self.set_character(Side::P1, c);
                Stage::Alone(Side::P1)
            },
            FreezeExempt::P2 => {
                let mut c = self.p2.character;
                c.round_view = view;
                c.commands = CommandSource::NoCommands;
                self.set_character(Side::P2, c);
                Stage::Alone(Side::P2)
            },
            FreezeExempt::Nobody => {
                self.freeze.count_down();
                Stage::Done
            },
        }
    }

    /// Drops the sounds of both sides.
    fn silence(&mut self)
        ensures
            final(self)@ == old(self)@.with_sounds(Side::P1, Seq::empty()).with_sounds(
                Side::P2,
                Seq::empty(),
            ),
    {
        self.set_sounds(Side::P1, Vec::new());
        self.set_sounds(Side::P2, Vec::new());
        assert(self.p1_sound_requests@ =~= Seq::empty());
        assert(self.p2_sound_requests@ =~= Seq::empty());
    }

    /// The player on a side.
    pub fn player(&self, side: Side) -> (r: &Player)
        ensures
            r@ == self@.player(side),
    {
        match side {
            Side::P1 => &self.p1,
            Side::P2 => &self.p2,
        }
    }

    /// What a frame asks for next.
    pub fn request(&self, f: &Frame) -> (r: Request)
        ensures
            asks(self@, *f, r),
    {
        match f.stage {
            Stage::Done => Request::Done,
            Stage::Alone(side) => Request::TickAlone {
                side,
                fighter: self.player(side).character,
                opponent: self.player(side.opponent()).character,
                stage: self.flow.bounds.view(),
            },
            Stage::Open => {
                if f.fighting {
                    Request::Open {
                        p1: Some(
                            Feed {
                                raw: match_input_to_state(f.p1_input),
                                facing_right: self.p1.character.facing == Facing::Right,
                            },
                        ),
                        p2: Some(
                            Feed {
                                raw: match_input_to_state(f.p2_input),
                                facing_right: self.p2.character.facing == Facing::Right,
                            },
                        ),
                    }
                } else {
                    Request::Open { p1: None, p2: None }
                }
            },
            Stage::Root(side) => {
                let other = side.opponent();
                let partner = match side {
                    Side::P1 => f.p1_partner,
                    Side::P2 => f.p2_partner,
                };
                Request::TickRoot {
                    side,
                    fighter: self.player(side).character,
                    opponent: self.player(other).character,
                    stage: self.flow.bounds.view(),
                    graph: self.player(side).redirect_graph(
                        other.player_id(),
                        &self.player(other).character,
                        partner,
                    ),
                }
            },
            Stage::Ops(side, i) => self.target_request(f, side, i),
            Stage::SpawnHelpers => Request::SpawnHelpers {
                p1: self.p1.plan_helpers(
                    &f.p1_orders.helper_spawns,
                    f.p2_x,
                    self.flow.bounds.view(),
                ),
                p2: self.p2.plan_helpers(
                    &f.p2_orders.helper_spawns,
                    f.p1_x,
                    self.flow.bounds.view(),
                ),
            },
            Stage::TickHelpers => Request::TickHelpers {
                p1: self.p1.helper_run(&self.p2.character),
                p2: self.p2.helper_run(&self.p1.character),
                stage: self.flow.bounds.view(),
            },
            Stage::SpawnProjectiles => Request::SpawnProjectiles {
                p1: self.p1.plan_projectiles(&f.p1_orders.projectile_spawns),
                p2: self.p2.plan_projectiles(&f.p2_orders.projectile_spawns),
            },
            Stage::MoveProjectiles => {
                let margin = Scalar { bits: OFFSCREEN_MARGIN };
                Request::MoveProjectiles {
                    p1: self.p1.projectile_steps(),
                    p2: self.p2.projectile_steps(),
                    edges: Placement {
                        anchor: Vec2 { x: self.flow.bounds.left, y: self.flow.bounds.right },
                        shift: Vec2 { x: margin.neg(), y: margin },
                    },
                }
            },
            Stage::Clash => match self.clash_probe() {
                Some(probe) => Request::Clash(probe),
                None => Request::Done,
            },
            Stage::Attack(side) => Request::ResolveAttack {
                side,
                attacker: self.player(side).character,
                defender: self.player(side.opponent()).character,
                probe: directional_contact(self.player(side), self.player(side.opponent())),
            },
            Stage::AttackerState(side, state_no) => Request::EnterState {
                side,
                fighter: self.player(side).character,
                state_no,
            },
            Stage::Projectile(side, i) => {
                if i < self.player(side).projectiles.len() {
                    Request::ResolveProjectile {
                        side,
                        projectile: self.player(side).projectiles[i],
                        defender: self.player(side.opponent()).character,
                    }
                } else {
                    Request::Done
                }
            },
            Stage::RecordHit(side, _, proj_id, guarded) => Request::RecordHit {
                side,
                proj_id,
                guarded,
            },
            Stage::Push => {
                let (p1, p2) = self.push_bodies();
                Request::PushAndClamp {
                    p1,
                    p2,
                    left: self.flow.bounds.left,
                    right: self.flow.bounds.right,
                }
            },
            Stage::NewRound => Request::NewRound {
                p1: self.p1.character,
                p2: self.p2.character,
                entering: self.run_round_init(),
            },
        }
    }

    /// What a side's target operation `i` asks for.
    fn target_request(&self, f: &Frame, side: Side, i: usize) -> (r: Request)
        requires
            f.stage == Stage::Ops(side, i),
        ensures
            asks(self@, *f, r),
    {
        let orders = match side {
            Side::P1 => &f.p1_orders,
            Side::P2 => &f.p2_orders,
        };
        if i < orders.target_ops.len() {
            let mut target = self.player(side.opponent()).character;
            let work = apply_target_op(
                &self.player(side).character,
                &mut target,
                orders.target_ops[i],
            );
            if let Some(work) = work {
                return Request::Target {
                    side: side.opponent(),
                    target: self.player(side.opponent()).character,
                    work,
                };
            }
        }
        Request::Done
    }

    /// Puts another state of a fighter in place.
    fn set_character(&mut self, side: Side, c: Character)
        ensures
            final(self)@ == old(self)@.with_character(side, c),
    {
        match side {
            Side::P1 => {
                self.p1.character = c;
            },
            Side::P2 => {
                self.p2.character = c;
            },
        }
    }

    /// Replaces the sounds of a side.
    fn set_sounds(&mut self, side: Side, sounds: Vec<SoundRequest>)
        ensures
            final(self)@ == old(self)@.with_sounds(side, sounds@),
    {
        match side {
            Side::P1 => {
                self.p1_sound_requests = sounds;
            },
            Side::P2 => {
                self.p2_sound_requests = sounds;
            },
        }
    }

    /// Takes in the host's reply to what the frame asked for.
    pub fn step(&mut self, f: &mut Frame, reply: Reply)
        ensures
            (final(self)@, *final(f)) == stepped(old(self)@, *old(f), reply),
    {
        match (f.stage, reply) {
            (Stage::Alone(side), Reply::Ticked { fighter, report }) => {
                self.take_lone_tick(f, side, fighter, report);
            },
            (Stage::Open, Reply::Opened { p1_matched, p2_matched }) => {
                self.take_inputs(f, p1_matched, p2_matched);
            },
            (Stage::Root(side), Reply::Ticked { fighter, report }) => {
                self.take_root_tick(f, side, fighter, report);
            },
            (Stage::Ops(side, i), reply) => {
                self.serve_op(f, side, i, reply);
            },
            (Stage::SpawnHelpers, Reply::Spawned { p1, p2 }) => {
                self.take_helpers(f, &p1, &p2);
            },
            (Stage::TickHelpers, Reply::HelpersTicked { p1, p2 }) => {
                self.take_helper_ticks(f, &p1, &p2);
            },
            (Stage::SpawnProjectiles, Reply::Spawned { p1, p2 }) => {
                self.take_projectiles(f, &p1, &p2);
            },
            (Stage::MoveProjectiles, Reply::Moved { p1, p2, edges }) => {
                self.take_moves(f, &p1, &p2, edges);
            },
            (Stage::Clash, Reply::Clash { p1_hits, p2_hits, outcome }) => {
                self.take_clash(f, p1_hits, p2_hits, outcome);
            },
            (Stage::Attack(side), Reply::Attacked { attacker, defender, landed }) => {
                self.take_attack(f, side, attacker, defender, landed);
            },
            (Stage::AttackerState(side, _), Reply::Entered(c)) => {
                self.set_character(side, c);
                self.after_attack(f, side);
            },
            (
                Stage::Projectile(side, i),
                Reply::ProjectileResolved { projectile, defender, landed },
            ) => {
                self.resolve_projectile_hit(f, side, i, projectile, defender, landed);
            },
            (Stage::RecordHit(side, i, _, _), Reply::Acknowledged) => {
                self.next_projectile(f, side, i);
            },
            (Stage::Push, Reply::Pushed { p1_x, p2_x }) => {
                self.take_push(f, p1_x, p2_x);
            },
            (Stage::NewRound, Reply::RoundBegun { p1, p2 }) => {
                self.finish_round_init(p1, p2);
                f.stage = Stage::Done;
            },
            _ => {},
        }
    }

    /// Takes in the tick of a fighter that is exempt from a freeze.
    fn take_lone_tick(&mut self, f: &mut Frame, side: Side, fighter: Character, report: TickReport)
        ensures
            (final(self)@, *final(f)) == ticked_alone(old(self)@, *old(f), side, fighter, report),
    {
        proof {
            reveal(ticked_alone);
        }
        self.set_character(side, fighter);
        self.set_sounds(side, report.sound_requests);
        self.freeze.count_down();
        f.stage = Stage::Done;
    }

    /// Takes in what the recognisers have matched.
    fn take_inputs(&mut self, f: &mut Frame, p1_matched: Vec<String>, p2_matched: Vec<String>)
        ensures
            (final(self)@, *final(f)) == inputs_read(
                old(self)@,
                *old(f),
                p1_matched@,
                p2_matched@,
            ),
    {
        proof {
            reveal(inputs_read);
        }
        if f.fighting {
            self.p1.just_matched = p1_matched;
            self.p2.just_matched = p2_matched;
        }
        f.stage = Stage::Root(Side::P1);
    }

    /// Takes in how two attacks that may clash were tested.
    fn take_clash(&mut self, f: &mut Frame, p1_hits: bool, p2_hits: bool, outcome: ClashOutcome)
        ensures
            (final(self)@, *final(f)) == clash_settled(
                old(self)@,
                *old(f),
                p1_hits,
                p2_hits,
                outcome,
            ),
    {
        proof {
            reveal(clash_settled);
        }
        self.resolve_priority_clash(p1_hits, p2_hits, outcome);
        f.stage = Stage::Attack(Side::P1);
    }

    /// Takes in where the bodies were pushed and clamped to, turns the fighters,
    /// and moves the round on.
    fn take_push(&mut self, f: &mut Frame, p1_x: Scalar, p2_x: Scalar)
        ensures
            (final(self)@, *final(f)) == pushed_and_advanced(old(self)@, *old(f), p1_x, p2_x),
    {
        proof {
            reveal(pushed_and_advanced);
        }
        self.apply_push_and_bounds(p1_x, p2_x);
        self.face_when_neutral();
        f.stage = if self.advance_round() {
            Stage::NewRound
        } else {
            Stage::Done
        };
    }

    /// Takes in a fighter's tick.
    fn take_root_tick(&mut self, f: &mut Frame, side: Side, fighter: Character, report: TickReport)
        ensures
            (final(self)@, *final(f)) == root_ticked(old(self)@, *old(f), side, fighter, report),
    {
        proof {
            reveal(root_ticked);
        }
        self.set_character(side, fighter);
        self.set_sounds(side, report.sound_requests);
        match side {
            Side::P1 => {
                f.p1_orders = report.orders;
            },
            Side::P2 => {
                f.p2_orders = report.orders;
            },
        }
        if f.fighting {
            self.run_ops(f, side, 0);
        } else {
            self.after_ops(f, side);
        }
    }

    /// Applies a side's target operations from `from` on, up to the next that
    /// needs the host.
    fn run_ops(&mut self, f: &mut Frame, side: Side, from: usize)
        requires
            from <= old(f).orders(side).target_ops@.len(),
        ensures
            (final(self)@, *final(f)) == ops_run(old(self)@, *old(f), side, from as int),
    {
        proof {
            reveal(ops_run);
        }
        let stopped = match side {
            Side::P1 => apply_target_ops(
                &self.p1.character,
                &mut self.p2.character,
                &f.p1_orders.target_ops,
                from,
            ),
            Side::P2 => apply_target_ops(
                &self.p2.character,
                &mut self.p1.character,
                &f.p2_orders.target_ops,
                from,
            ),
        };
        if stopped.1.is_some() {
            f.stage = Stage::Ops(side, stopped.0);
        } else {
            self.after_ops(f, side);
        }
    }

    /// Goes on after a side's target operations.
    fn after_ops(&mut self, f: &mut Frame, side: Side)
        ensures
            (final(self)@, *final(f)) == ops_done(old(self)@, *old(f), side),
    {
        proof {
            reveal(ops_done);
            reveal(roots_done);
        }
        match side {
            Side::P1 => {
                f.stage = Stage::Root(Side::P2);
            },
            Side::P2 => {
                if f.fighting {
                    self.arm_freeze(f.p1_orders.freeze_request, FreezeExempt::P1);
                    self.arm_freeze(f.p2_orders.freeze_request, FreezeExempt::P2);
                }
                f.stage = Stage::SpawnHelpers;
            },
        }
    }

    /// Takes in what a side's target operation `i` needed.
    fn serve_op(&mut self, f: &mut Frame, side: Side, i: usize, reply: Reply)
        ensures
            (final(self)@, *final(f)) == op_served(
                old(self)@,
                *old(f),
                side,
                i as int,
                reply,
            ),
    {
        proof {
            reveal(op_served);
        }
        let len: usize = match side {
            Side::P1 => f.p1_orders.target_ops.len(),
            Side::P2 => f.p2_orders.target_ops.len(),
        };
        if i >= len {
            return ;
        }
        let op = match side {
            Side::P1 => f.p1_orders.target_ops[i],
            Side::P2 => f.p2_orders.target_ops[i],
        };
        let mut target = self.player(side.opponent()).character;
        match (op, reply) {
            (TargetOp::State(_), Reply::Entered(c)) => {
                target = c;
            },
            (TargetOp::Bind { time: _, pos: _ }, Reply::Sum(v)) => {
                target.pos = v;
            },
            (TargetOp::VelAdd(_), Reply::Sum(v)) => {
                target.vel = v;
            },
            _ => {
                return ;
            },
        }
        self.set_character(side.opponent(), target);
        self.run_ops(f, side, i + 1);
    }

    /// Takes in the helpers that were made.
    fn take_helpers(&mut self, f: &mut Frame, p1: &Vec<Character>, p2: &Vec<Character>)
        ensures
            (final(self)@, *final(f)) == helpers_made(old(self)@, *old(f), p1@, p2@),
    {
        proof {
            reveal(helpers_made);
        }
        let stage = self.flow.bounds.view();
        let b1 = self.p1.plan_helpers(&f.p1_orders.helper_spawns, f.p2_x, stage);
        let b2 = self.p2.plan_helpers(&f.p2_orders.helper_spawns, f.p1_x, stage);
        if p1.len() == b1.len() && p2.len() == b2.len() {
            self.p1.spawn_helpers(&f.p1_orders.helper_spawns, p1);
            self.p2.spawn_helpers(&f.p2_orders.helper_spawns, p2);
            f.stage = Stage::TickHelpers;
        }
    }

    /// Takes in the ticks of the helpers.
    fn take_helper_ticks(&mut self, f: &mut Frame, p1: &Vec<HelperTick>, p2: &Vec<HelperTick>)
        ensures
            (final(self)@, *final(f)) == helpers_ran(old(self)@, *old(f), p1@, p2@),
    {
        proof {
            reveal(helpers_ran);
        }
        let due1 = crate::helper::due_helpers(&self.p1.helpers);
        let due2 = crate::helper::due_helpers(&self.p2.helpers);
        if p1.len() == due1.len() && p2.len() == due2.len() {
            self.p1.tick_helpers(p1);
            self.p2.tick_helpers(p2);
            f.stage = Stage::SpawnProjectiles;
        }
    }

    /// Takes in the projectiles that were made.
    fn take_projectiles(&mut self, f: &mut Frame, p1: &Vec<Character>, p2: &Vec<Character>)
        ensures
            (final(self)@, *final(f)) == projectiles_made(old(self)@, *old(f), p1@, p2@),
    {
        proof {
            reveal(projectiles_made);
        }
        let b1 = self.p1.plan_projectiles(&f.p1_orders.projectile_spawns);
        let b2 = self.p2.plan_projectiles(&f.p2_orders.projectile_spawns);
        if p1.len() == b1.len() && p2.len() == b2.len() {
            self.p1.spawn_projectiles(&f.p1_orders.projectile_spawns, p1);
            self.p2.spawn_projectiles(&f.p2_orders.projectile_spawns, p2);
            f.stage = Stage::MoveProjectiles;
        }
    }

    /// Takes in where the projectiles have arrived, and goes on to combat.
    fn take_moves(&mut self, f: &mut Frame, p1: &Vec<Vec2>, p2: &Vec<Vec2>, edges: Vec2)
        ensures
            (final(self)@, *final(f)) == projectiles_flew(old(self)@, *old(f), p1@, p2@, edges),
    {
        proof {
            reveal(projectiles_flew);
        }
        let due1 = crate::projectile::due_projectiles(&self.p1.projectiles);
        let due2 = crate::projectile::due_projectiles(&self.p2.projectiles);
        if p1.len() == due1.len() && p2.len() == due2.len() {
            self.p1.tick_projectiles(p1, edges.x, edges.y);
            self.p2.tick_projectiles(p2, edges.x, edges.y);
            self.begin_combat(f);
        }
    }

    /// Runs the explods, and begins combat while the fight is live.
    fn begin_combat(&mut self, f: &mut Frame)
        ensures
            (final(self)@, *final(f)) == combat_begun(old(self)@, *old(f)),
    {
        proof {
            reveal(combat_begun);
        }
        self.run_displays(f);
        if !f.fighting {
            self.end_combat(f);
        } else if self.clash_probe().is_some() {
            f.stage = Stage::Clash;
        } else {
            f.stage = Stage::Attack(Side::P1);
        }
    }

    /// Runs the explods of both players, and clears their frame advantage.
    fn run_displays(&mut self, f: &Frame)
        ensures
            final(self)@ == displays_run(old(self)@, *f),
    {
        proof {
            reveal(displays_run);
            reveal(explods_run);
        }
        let stage = self.flow.bounds.view();
        self.p1.spawn_explods(
            &f.p1_orders.explod_spawns,
            Side::P1.player_id(),
            f.p2_x,
            stage,
        );
        self.p2.spawn_explods(
            &f.p2_orders.explod_spawns,
            Side::P2.player_id(),
            f.p1_x,
            stage,
        );
        self.p1.apply_explod_ops(&f.p1_orders.explod_ops);
        self.p2.apply_explod_ops(&f.p2_orders.explod_ops);
        let p1_pos = self.p1.character.pos;
        let p1_facing = self.p1.character.facing;
        let p2_pos = self.p2.character.pos;
        let p2_facing = self.p2.character.facing;
        self.p1.tick_explods(p1_pos, p1_facing, p2_pos.x, stage);
        self.p2.tick_explods(p2_pos, p2_facing, p1_pos.x, stage);
        self.p1.frame_advantage = None;
        self.p2.frame_advantage = None;
    }

    /// Moves the sparks on, and goes on to pushing.
    fn end_combat(&mut self, f: &mut Frame)
        ensures
            (final(self)@, *final(f)) == combat_done(old(self)@, *old(f)),
    {
        proof {
            reveal(combat_done);
        }
        self.tick_effects();
        f.stage = Stage::Push;
    }

    /// Takes in how a side's attack was resolved.
    fn take_attack(
        &mut self,
        f: &mut Frame,
        side: Side,
        attacker: Character,
        defender: Character,
        landed: Option<Landed>,
    )
        ensures
            (final(self)@, *final(f)) == attack_resolved(
                old(self)@,
                *old(f),
                side,
                attacker,
                defender,
                landed,
            ),
    {
        proof {
            reveal(attack_resolved);
        }
        let spark = match self.player(side).character.active_hitdef {
            Some(hd) => Some(hd.spark),
            None => None,
        };
        let touching = directional_contact(
            self.player(side),
            self.player(side.opponent()),
        ).is_some();
        self.set_character(side, attacker);
        self.set_character(side.opponent(), defender);
        match landed {
            None => {
                self.after_attack(f, side);
            },
            Some(l) => {
                let contact = if touching {
                    l.contact
                } else {
                    None
                };
                self.land(side, l, spark, contact);
                match l.attacker_state {
                    Some(state_no) => {
                        f.stage = Stage::AttackerState(side, state_no);
                    },
                    None => {
                        self.after_attack(f, side);
                    },
                }
            },
        }
    }

    /// Does what comes of a landed attack: frame advantage, sound and spark.
    fn land(
        &mut self,
        side: Side,
        landed: Landed,
        spark: Option<crate::character::SparkSource>,
        contact: Option<Vec2>,
    )
        ensures
            final(self)@ == impact(old(self)@, side, landed, spark, contact),
    {
        proof {
            reveal(impact);
        }
        let known = compute_frame_advantage(self.player(side), landed.move_total, landed.stun);
        match side {
            Side::P1 => {
                self.p1.frame_advantage = known;
                if let Some(s) = landed.hit_sound {
                    self.p1_sound_requests.push(hit_sound_request(s));
                }
            },
            Side::P2 => {
                self.p2.frame_advantage = known;
                if let Some(s) = landed.hit_sound {
                    self.p2_sound_requests.push(hit_sound_request(s));
                }
            },
        }
        if let (Some(source), Some(point)) = (spark, contact) {
            let shown = match side {
                Side::P1 => EffectSide::P1,
                Side::P2 => EffectSide::P2,
            };
            self.spawn_effect(shown, source, point);
        }
    }

    /// Goes on after a side's attack.
    fn after_attack(&mut self, f: &mut Frame, side: Side)
        ensures
            (final(self)@, *final(f)) == attack_done(old(self)@, *old(f), side),
    {
        proof {
            reveal(attack_done);
        }
        match side {
            Side::P1 => {
                f.stage = Stage::Attack(Side::P2);
            },
            Side::P2 => {
                self.next_projectile(f, Side::P1, 0);
            },
        }
    }

    /// Goes on to the next projectile from a side's index `i` on.
    fn next_projectile(&mut self, f: &mut Frame, side: Side, i: usize)
        ensures
            (final(self)@, *final(f)) == projectiles_next(old(self)@, *old(f), side, i as int),
    {
        proof {
            reveal(projectiles_next);
        }
        if i < self.player(side).projectiles.len() {
            f.stage = Stage::Projectile(side, i);
        } else if side == Side::P1 && self.p2.projectiles.len() > 0 {
            f.stage = Stage::Projectile(Side::P2, 0);
        } else {
            self.end_combat(f);
        }
    }

    /// Puts another state of a side's projectile `i` in place.
    fn set_projectile(&mut self, side: Side, i: usize, c: Character)
        requires
            i < old(self)@.player(side).projectiles.len(),
        ensures
            final(self)@ == old(self)@.with_player(
                side,
                projectile_kept(old(self)@.player(side), i as int, c),
            ),
    {
        match side {
            Side::P1 => {
                self.p1.set_projectile(i, c);
            },
            Side::P2 => {
                self.p2.set_projectile(i, c);
            },
        }
    }

    /// Takes out a side's projectile `i`, which has landed.
    fn spend_projectile(&mut self, side: Side, i: usize) -> (r: Projectile)
        requires
            i < old(self)@.player(side).projectiles.len(),
        ensures
            final(self)@ == old(self)@.with_player(
                side,
                projectile_spent(old(self)@.player(side), i as int),
            ),
            r == old(self)@.player(side).projectiles[i as int],
    {
        match side {
            Side::P1 => self.p1.spend_projectile(i),
            Side::P2 => self.p2.spend_projectile(i),
        }
    }

    /// Takes in how the attack of a side's projectile `i` was resolved.
    fn resolve_projectile_hit(
        &mut self,
        f: &mut Frame,
        side: Side,
        i: usize,
        projectile: Character,
        defender: Character,
        landed: Option<bool>,
    )
        ensures
            (final(self)@, *final(f)) == projectile_resolved(
                old(self)@,
                *old(f),
                side,
                i as int,
                projectile,
                defender,
                landed,
            ),
    {
        proof {
            reveal(projectile_resolved);
        }
        if i >= self.player(side).projectiles.len() {
            return ;
        }
        self.set_character(side.opponent(), defender);
        match landed {
            None => {
                self.set_projectile(side, i, projectile);
                self.next_projectile(f, side, i + 1);
            },
            Some(guarded) => {
                let gone = self.spend_projectile(side, i);
                f.stage = Stage::RecordHit(side, i, gone.proj_id, guarded);
            },
        }
    }
}

} // verus!
