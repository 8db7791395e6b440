//! What holds of the round flow.

use vstd::prelude::*;

use crate::arith::saturated;
use crate::character::{reset_for_round, Character, Facing};
use crate::game::{fresh_match, Flow, MatchModel};
use crate::player::PlayerModel;
use crate::round::{MatchState, RoundState, Side, Winner, INTRO_FRAMES, KO_FRAMES};
use crate::scalar::Vec2;
use crate::stage::StageBounds;

verus! {

impl MatchModel {
    /// What holds of the round flow of every match.
    pub open spec fn flow_sound(self) -> bool {
        &&& self.flow.rounds_to_win >= 1
        &&& 0 <= self.flow.timer <= self.flow.round_frames
        &&& self.flow.phase_timer >= 0
        &&& self.flow.p1_round_wins >= 0
        &&& self.flow.p2_round_wins >= 0
        &&& self.flow.round_number >= 1
        &&& self.flow.game_time >= 0
        &&& self.flow.winner is Some <==> (self.flow.round_state == RoundState::Ko
            || self.flow.round_state == RoundState::Win)
        &&& self.flow.match_winner is Some <==> self.flow.match_state == MatchState::Over
        &&& self.flow.match_state == MatchState::Over ==> self.flow.round_state == RoundState::Win
    }

    /// The round flow `n` frames on, while nothing else happens.
    pub open spec fn flow_after(self, n: nat) -> MatchModel
        decreases n,
    {
        if n == 0 {
            self
        } else {
            self.flow_after((n - 1) as nat).round_advanced().0
        }
    }

    /// Whether both fighters have life left.
    pub open spec fn both_standing(self) -> bool {
        self.p1.character.life > 0 && self.p2.character.life > 0
    }
}

/// A new match is sound, in the intro of its first round, with a full clock and
/// no wins, and its fighters look at each other.
pub proof fn fresh_match_is_sound(
    p1: PlayerModel,
    p2: PlayerModel,
    bounds: StageBounds,
    round_seconds: i32,
    rounds_to_win: i32,
)
    ensures
        ({
            let m = fresh_match(p1, p2, bounds, round_seconds, rounds_to_win);
            &&& m.flow_sound()
            &&& m.flow.round_state == RoundState::Intro
            &&& m.flow.timer == m.flow.round_frames
            &&& m.p1.character.facing == m.p2.character.facing.flipped()
        }),
{
}

/// The flow keeps a match sound.
pub proof fn flow_stays_sound(m: MatchModel)
    requires
        m.flow_sound(),
    ensures
        m.round_advanced().0.flow_sound(),
{
    reveal(MatchModel::round_advanced);
}

/// Within a round the phase never goes back, and moves by at most one. Only after
/// the last phase does it start over, and then a new round begins.
pub proof fn phase_moves_forward(m: MatchModel)
    ensures
        ({
            let (next, new_round) = m.round_advanced();
            &&& !new_round ==> m.flow.round_state.code() <= next.flow.round_state.code()
                <= m.flow.round_state.code() + 1
            &&& new_round ==> m.flow.round_state == RoundState::Win && next.flow.round_state
                == RoundState::Intro && next.flow.round_number == saturated(m.flow.round_number + 1)
            &&& !new_round ==> next.flow.round_number == m.flow.round_number
        }),
{
    reveal(MatchModel::round_advanced);
}

/// The clock runs in the fight alone, by one frame at a time, and never below
/// zero. Elsewhere it stands, until a new round fills it.
pub proof fn clock_runs_in_the_fight(m: MatchModel)
    requires
        m.flow.timer >= 0,
    ensures
        ({
            let (next, new_round) = m.round_advanced();
            if new_round {
                next.flow.timer == m.flow.round_frames
            } else if m.flow.round_state == RoundState::Fight && m.flow.timer > 0 {
                next.flow.timer == m.flow.timer - 1
            } else {
                next.flow.timer == m.flow.timer
            }
        }),
{
    reveal(MatchModel::round_advanced);
}

/// One frame of the intro.
proof fn intro_moves_on(m: MatchModel)
    requires
        m.flow.round_state == RoundState::Intro,
    ensures
        m.round_advanced() == (m.intro_advanced(), false),
{
    reveal(MatchModel::round_advanced);
}

/// One frame of the knockout hold.
proof fn ko_moves_on(m: MatchModel)
    requires
        m.flow.round_state == RoundState::Ko,
    ensures
        m.round_advanced() == (m.ko_advanced(), false),
{
    reveal(MatchModel::round_advanced);
}

/// The frame after the knockout hold ends the match or begins the next round.
proof fn win_moves_on(m: MatchModel)
    requires
        m.flow.round_state == RoundState::Win,
    ensures
        ({
            let next = m.round_advanced().0;
            next.flow.match_state == MatchState::Over || (next.flow.round_state
                == RoundState::Intro && next.flow.round_number == saturated(
                m.flow.round_number + 1,
            ) && next.flow.winner is None)
        }),
{
    reveal(MatchModel::round_advanced);
}

/// The intro lasts exactly as long as it should, with the clock standing, and
/// gives both fighters control when it ends.
pub proof fn intro_lasts(m: MatchModel, n: nat)
    requires
        m.flow.round_state == RoundState::Intro,
        m.flow.phase_timer == 0,
        n <= INTRO_FRAMES,
    ensures
        ({
            let after = m.flow_after(n);
            &&& after.flow.timer == m.flow.timer
            &&& if n < INTRO_FRAMES {
                after.flow.round_state == RoundState::Intro && after.flow.phase_timer == n
            } else {
                after.flow.round_state == RoundState::Fight && after.p1.character.ctrl
                    && after.p2.character.ctrl
            }
        }),
    decreases n,
{
    if n > 0 {
        intro_lasts(m, (n - 1) as nat);
        intro_moves_on(m.flow_after((n - 1) as nat));
    }
}

/// The knockout hold lasts exactly as long as it should, with the clock standing
/// and the verdict and the wins kept.
pub proof fn ko_lasts(m: MatchModel, n: nat)
    requires
        m.flow.round_state == RoundState::Ko,
        m.flow.phase_timer == 0,
        n <= KO_FRAMES,
    ensures
        ({
            let after = m.flow_after(n);
            &&& after.flow.timer == m.flow.timer
            &&& after.flow.winner == m.flow.winner
            &&& after.flow.p1_round_wins == m.flow.p1_round_wins
            &&& after.flow.p2_round_wins == m.flow.p2_round_wins
            &&& after.flow.round_number == m.flow.round_number
            &&& after.flow.match_state == m.flow.match_state
            &&& if n < KO_FRAMES {
                after.flow.round_state == RoundState::Ko && after.flow.phase_timer == n
            } else {
                after.flow.round_state == RoundState::Win
            }
        }),
    decreases n,
{
    if n > 0 {
        ko_lasts(m, (n - 1) as nat);
        ko_moves_on(m.flow_after((n - 1) as nat));
    }
}

/// While both fighters stand and time is left, the fight goes on in the same
/// round.
pub proof fn undecided_fight_goes_on(m: MatchModel)
    requires
        m.flow.round_state == RoundState::Fight,
        m.both_standing(),
        m.flow.timer > 1,
    ensures
        m.round_advanced() == (
            m.with_flow(Flow { timer: (m.flow.timer - 1) as i32, ..m.flow }),
            false,
        ),
{
    reveal(MatchModel::round_advanced);
}

/// A knockout decides the round at once: whoever stands wins, two that are down
/// draw, and nobody has control any more.
pub proof fn knockout_decides(m: MatchModel)
    requires
        m.flow.round_state == RoundState::Fight,
        !m.both_standing(),
    ensures
        ({
            let (next, new_round) = m.round_advanced();
            &&& !new_round
            &&& next.flow.round_state == RoundState::Ko && next.flow.phase_timer == 0
            &&& next.flow.round_number == m.flow.round_number
            &&& next.flow.winner == Some(
                if m.p1.character.life > 0 {
                    Winner::P1
                } else if m.p2.character.life > 0 {
                    Winner::P2
                } else {
                    Winner::Draw
                },
            )
            &&& !next.p1.character.ctrl && !next.p2.character.ctrl
        }),
{
    reveal(MatchModel::round_advanced);
}

/// Time over decides by life: more life wins, equal life draws.
pub proof fn time_over_decides_by_life(m: MatchModel)
    requires
        m.flow.round_state == RoundState::Fight,
        m.both_standing(),
        0 <= m.flow.timer <= 1,
    ensures
        ({
            let (next, new_round) = m.round_advanced();
            let a = m.p1.character.life;
            let b = m.p2.character.life;
            &&& !new_round
            &&& next.flow.round_state == RoundState::Ko
            &&& next.flow.timer == 0
            &&& next.flow.winner == Some(Winner::P1) <==> a > b
            &&& next.flow.winner == Some(Winner::P2) <==> a < b
            &&& next.flow.winner == Some(Winner::Draw) <==> a == b
        }),
{
    reveal(MatchModel::round_advanced);
}

/// A decided round is credited to its winner, and a draw to nobody.
pub proof fn rounds_are_credited(m: MatchModel, winner: Winner)
    requires
        m.flow.p1_round_wins < i32::MAX,
        m.flow.p2_round_wins < i32::MAX,
    ensures
        ({
            let next = m.decided(winner);
            &&& next.flow.p1_round_wins == m.flow.p1_round_wins + if winner == Winner::P1 {
                1int
            } else {
                0
            }
            &&& next.flow.p2_round_wins == m.flow.p2_round_wins + if winner == Winner::P2 {
                1int
            } else {
                0
            }
        }),
{
}

/// A best-of-N match is over exactly when a decided round finds a player at the
/// target, and that player has won it. Until then another round follows.
pub proof fn target_wins_the_match(m: MatchModel)
    requires
        m.flow.round_state == RoundState::Win,
        m.flow.match_state == MatchState::InProgress,
        !m.flow.single_round,
    ensures
        ({
            let (next, new_round) = m.round_advanced();
            let met = m.flow.p1_round_wins >= m.flow.rounds_to_win
                || m.flow.p2_round_wins >= m.flow.rounds_to_win;
            &&& new_round == !met
            &&& next.flow.match_state == if met {
                MatchState::Over
            } else {
                MatchState::InProgress
            }
            &&& met ==> next.flow.match_winner == Some(
                if m.flow.p1_round_wins >= m.flow.rounds_to_win {
                    Winner::P1
                } else {
                    Winner::P2
                },
            )
            &&& met ==> next.flow.round_number == m.flow.round_number
        }),
{
    reveal(MatchModel::round_advanced);
}

/// A best-of-N match is never a draw.
pub proof fn match_is_never_a_draw(m: MatchModel)
    requires
        !m.flow.single_round,
        m.flow.match_winner != Some(Winner::Draw),
    ensures
        m.round_advanced().0.flow.match_winner != Some(Winner::Draw),
{
    reveal(MatchModel::round_advanced);
}

/// A match that is over stays as it is.
pub proof fn over_is_terminal(m: MatchModel, n: nat)
    requires
        m.flow_sound(),
        m.flow.match_state == MatchState::Over,
    ensures
        m.flow_after(n) == m,
    decreases n,
{
    reveal(MatchModel::round_advanced);
    if n > 0 {
        over_is_terminal(m, (n - 1) as nat);
    }
}

/// In a single-round match the first decided round is final: the match has the
/// round's own verdict, a draw too, and nobody's life is restored.
pub proof fn single_round_is_final(m: MatchModel)
    requires
        m.flow_sound(),
        m.flow.single_round,
        m.flow.round_state == RoundState::Win,
        m.flow.match_state == MatchState::InProgress,
    ensures
        ({
            let (next, new_round) = m.round_advanced();
            &&& !new_round
            &&& next.flow.match_state == MatchState::Over
            &&& next.flow.match_winner == m.flow.winner
            &&& next.p1 == m.p1
            &&& next.p2 == m.p2
        }),
{
    reveal(MatchModel::round_advanced);
}

/// What a fighter keeps and what it gets back at the top of a round: power and
/// target stay; life is full, it stands at its start, idle, facing its opponent,
/// without control, velocity, attack or anything left of a hit.
pub proof fn round_restores_fighters(m: MatchModel, side: Side)
    ensures
        ({
            let next = m.next_round();
            let c = next.player(side).character;
            let before = m.player(side).character;
            let reset = match side {
                Side::P1 => m.flow.p1_reset,
                Side::P2 => m.flow.p2_reset,
            };
            &&& c.power == before.power
            &&& c.power_max == before.power_max
            &&& c.life == reset.life_max
            &&& c.life_max == reset.life_max
            &&& c.pos == reset.pos
            &&& c.vel == Vec2::zero_spec()
            &&& c.facing == next.player(side.opponent_spec()).character.facing.flipped()
            &&& !c.ctrl && !c.holding_back
            &&& c.state_no == 0
            &&& c.active_hitdef is None
            &&& c.hitpause == 0 && c.shaketime == 0 && !c.move_contact
        }),
{
}

/// Nothing that is drawn or heard survives the end of a round, nor does a freeze;
/// the next round has a full clock and no winner.
pub proof fn round_clears_the_stage(m: MatchModel)
    ensures
        ({
            let next = m.next_round();
            &&& next.effects.len() == 0
            &&& next.p1.projectiles.len() == 0 && next.p2.projectiles.len() == 0
            &&& next.p1.explods.len() == 0 && next.p2.explods.len() == 0
            &&& next.p1_sound_requests.len() == 0 && next.p2_sound_requests.len() == 0
            &&& !next.freeze.holds()
            &&& next.flow.timer == m.flow.round_frames
            &&& next.flow.winner is None
            &&& next.flow.round_state == RoundState::Intro
        }),
{
}

/// Fighters that were there from the start have existed for one round fewer than
/// the number of the round.
pub proof fn rounds_existed_trails_the_round(m: MatchModel)
    requires
        m.flow.round_number >= 1,
    ensures
        m.clock().round_no == m.flow.round_number,
        m.clock().rounds_existed == m.flow.round_number - 1,
{
}

/// A knockout in the fight leads, once the hold and the results have been shown,
/// to the intro of the next round or to the end of the match.
pub proof fn knockout_settles_the_round(m: MatchModel)
    requires
        m.flow_sound(),
        m.flow.round_state == RoundState::Fight,
        m.flow.match_state == MatchState::InProgress,
        !m.both_standing(),
    ensures
        ({
            let after = m.flow_after((KO_FRAMES + 2) as nat);
            ||| after.flow.match_state == MatchState::Over
            ||| {
                &&& after.flow.round_state == RoundState::Intro
                &&& after.flow.round_number == saturated(m.flow.round_number + 1)
                &&& after.flow.winner is None
            }
        }),
{
    knockout_decides(m);
    let ko = m.flow_after(1);
    assert(ko == m.round_advanced().0) by {
        reveal_with_fuel(MatchModel::flow_after, 2);
    }
    ko_lasts(ko, KO_FRAMES as nat);
    flow_adds_up(m, 1, KO_FRAMES as nat);
    let win = m.flow_after((KO_FRAMES + 1) as nat);
    assert(m.flow_after((KO_FRAMES + 2) as nat) == win.round_advanced().0);
    win_moves_on(win);
}

/// Frames of the flow add up.
proof fn flow_adds_up(m: MatchModel, a: nat, b: nat)
    ensures
        m.flow_after(a).flow_after(b) == m.flow_after(a + b),
    decreases b,
{
    if b > 0 {
        let c = (b - 1) as nat;
        flow_adds_up(m, a, c);
        assert(m.flow_after(a).flow_after(b) == m.flow_after(a).flow_after(c).round_advanced().0);
        assert((a + b - 1) as nat == a + c);
        assert(m.flow_after(a + b) == m.flow_after(a + c).round_advanced().0);
    } else {
        assert(a + b == a);
    }
}

/// Whether two matches differ at most in their flow and in who has control.
pub open spec fn control_only(a: MatchModel, b: MatchModel) -> bool {
    &&& b.p1 == (PlayerModel {
        character: Character { ctrl: b.p1.character.ctrl, ..a.p1.character },
        ..a.p1
    })
    &&& b.p2 == (PlayerModel {
        character: Character { ctrl: b.p2.character.ctrl, ..a.p2.character },
        ..a.p2
    })
    &&& b == (MatchModel { p1: b.p1, p2: b.p2, flow: b.flow, ..a })
}

/// A frame of the intro touches nothing but its clock; the last one begins the fight
/// and gives both fighters control.
pub proof fn the_intro_only_waits(m: MatchModel)
    requires
        m.flow.round_state == RoundState::Intro,
    ensures
        ({
            let (next, new_round) = m.round_advanced();
            let over = next.flow.round_state == RoundState::Fight;
            &&& !new_round
            &&& over <==> m.flow.phase_timer >= INTRO_FRAMES - 1
            &&& next.flow == (Flow {
                round_state: if over {
                    RoundState::Fight
                } else {
                    RoundState::Intro
                },
                phase_timer: if over {
                    0
                } else {
                    (m.flow.phase_timer + 1) as i32
                },
                ..m.flow
            })
            &&& control_only(m, next)
            &&& over ==> next.p1.character.ctrl && next.p2.character.ctrl
            &&& !over ==> next.p1 == m.p1 && next.p2 == m.p2
        }),
{
    intro_moves_on(m);
}

/// Crediting a round touches the tallies.
proof fn crediting_is_local(m: MatchModel, winner: Winner)
    ensures
        m.credited(winner).flow == (Flow {
            p1_round_wins: m.credited(winner).flow.p1_round_wins,
            p2_round_wins: m.credited(winner).flow.p2_round_wins,
            ..m.flow
        }),
        m.credited(winner).p1 == m.p1,
        m.credited(winner).p2 == m.p2,
        m.credited(winner).p1_sound_requests == m.p1_sound_requests,
        m.credited(winner).p2_sound_requests == m.p2_sound_requests,
        m.credited(winner).freeze == m.freeze,
        m.credited(winner).effects == m.effects,
        m.credited(winner).common_fx == m.common_fx,
{
}

/// Deciding a round touches the flow and who has control.
proof fn deciding_is_local(m: MatchModel, winner: Winner)
    ensures
        ({
            let next = m.decided(winner);
            &&& next.p1 == m.p1.with_character(Character { ctrl: false, ..m.p1.character })
            &&& next.p2 == m.p2.with_character(Character { ctrl: false, ..m.p2.character })
            &&& next.flow == (Flow {
                round_state: RoundState::Ko,
                phase_timer: 0,
                winner: next.flow.winner,
                p1_round_wins: next.flow.p1_round_wins,
                p2_round_wins: next.flow.p2_round_wins,
                ..m.flow
            })
            &&& next.p1_sound_requests == m.p1_sound_requests
            &&& next.p2_sound_requests == m.p2_sound_requests
            &&& next.freeze == m.freeze
            &&& next.effects == m.effects
            &&& next.common_fx == m.common_fx
        }),
{
    crediting_is_local(m.with_flow(Flow { winner: Some(winner), ..m.flow }), winner);
}

/// The match with its clock one frame on.
#[verifier::opaque]
spec fn clocked(m: MatchModel) -> MatchModel {
    m.with_flow(
        Flow {
            timer: if m.flow.timer > 0 {
                (m.flow.timer - 1) as i32
            } else {
                m.flow.timer
            },
            ..m.flow
        },
    )
}

/// A frame of the fight counts, and then decides where there is a verdict.
proof fn fight_moves_on(m: MatchModel)
    requires
        m.flow.round_state == RoundState::Fight,
    ensures
        m.round_advanced() == match clocked(m).verdict() {
            Some(w) => (clocked(m).decided(w), false),
            None => (clocked(m), false),
        },
        clocked(m) == m.with_flow(clocked(m).flow),
        clocked(m).flow == (Flow { timer: clocked(m).flow.timer, ..m.flow }),
{
    reveal(MatchModel::round_advanced);
    reveal(clocked);
}

/// Whether a match is another one with its round decided.
#[verifier::opaque]
spec fn settled(m: MatchModel, next: MatchModel) -> bool {
    &&& next.p1 == m.p1.with_character(Character { ctrl: false, ..m.p1.character })
    &&& next.p2 == m.p2.with_character(Character { ctrl: false, ..m.p2.character })
    &&& next.flow == (Flow {
        round_state: RoundState::Ko,
        phase_timer: 0,
        winner: next.flow.winner,
        p1_round_wins: next.flow.p1_round_wins,
        p2_round_wins: next.flow.p2_round_wins,
        ..m.flow
    })
    &&& next == (MatchModel { p1: next.p1, p2: next.p2, flow: next.flow, ..m })
}

/// A decided round is settled.
proof fn deciding_settles(m: MatchModel, winner: Winner)
    ensures
        settled(m, m.decided(winner)),
{
    deciding_is_local(m, winner);
    reveal(settled);
}

/// A frame of the fight only counts, or settles the round.
proof fn fights_settle(m: MatchModel)
    requires
        m.flow.round_state == RoundState::Fight,
    ensures
        !m.round_advanced().1,
        m.round_advanced().0 == clocked(m) || settled(clocked(m), m.round_advanced().0),
{
    fight_moves_on(m);
    if let Some(w) = clocked(m).verdict() {
        deciding_settles(clocked(m), w);
    }
}

/// A frame of the fight touches nothing but its clock; one that decides it records
/// the verdict, credits it, begins the hold, and takes control from both fighters.
pub proof fn the_fight_only_decides(m: MatchModel)
    requires
        m.flow.round_state == RoundState::Fight,
    ensures
        !m.round_advanced().1,
        ({
            let next = m.round_advanced().0;
            if next.flow.round_state == RoundState::Ko {
                &&& next.p1 == (PlayerModel {
                    character: Character { ctrl: false, ..m.p1.character },
                    ..m.p1
                })
                &&& next.p2 == (PlayerModel {
                    character: Character { ctrl: false, ..m.p2.character },
                    ..m.p2
                })
                &&& next.flow == (Flow {
                    round_state: RoundState::Ko,
                    phase_timer: 0,
                    timer: next.flow.timer,
                    winner: next.flow.winner,
                    p1_round_wins: next.flow.p1_round_wins,
                    p2_round_wins: next.flow.p2_round_wins,
                    ..m.flow
                })
                &&& next == (MatchModel { p1: next.p1, p2: next.p2, flow: next.flow, ..m })
            } else {
                next == (MatchModel { flow: Flow { timer: next.flow.timer, ..m.flow }, ..m })
            }
        }),
{
    fights_settle(m);
    reveal(clocked);
    reveal(settled);
}

/// A frame of the knockout hold touches nothing but its clock, and the last one shows
/// the results.
pub proof fn the_hold_only_waits(m: MatchModel)
    requires
        m.flow.round_state == RoundState::Ko,
    ensures
        ({
            let (next, new_round) = m.round_advanced();
            let over = next.flow.round_state == RoundState::Win;
            &&& !new_round
            &&& over <==> m.flow.phase_timer >= KO_FRAMES - 1
            &&& next == (MatchModel {
                flow: Flow {
                    round_state: if over {
                        RoundState::Win
                    } else {
                        RoundState::Ko
                    },
                    phase_timer: if over {
                        0
                    } else {
                        (m.flow.phase_timer + 1) as i32
                    },
                    ..m.flow
                },
                ..m
            })
        }),
{
    ko_moves_on(m);
}

/// A decided fight is credited to its winner as it is decided: one round more for
/// whoever won it, and none for a draw.
pub proof fn decisions_are_credited(m: MatchModel)
    requires
        m.flow.round_state == RoundState::Fight,
        m.flow.p1_round_wins < i32::MAX,
        m.flow.p2_round_wins < i32::MAX,
    ensures
        ({
            let next = m.round_advanced().0;
            let decided = next.flow.round_state == RoundState::Ko;
            &&& next.flow.p1_round_wins == m.flow.p1_round_wins + if decided && next.flow.winner
                == Some(Winner::P1) {
                1int
            } else {
                0
            }
            &&& next.flow.p2_round_wins == m.flow.p2_round_wins + if decided && next.flow.winner
                == Some(Winner::P2) {
                1int
            } else {
                0
            }
        }),
{
    reveal(MatchModel::round_advanced);
}

/// After a round the match ends or goes on. Ending touches nothing but the verdict;
/// going on restores both fighters, each from its own start, turns them to each
/// other, clears the stage, and keeps everything that belongs to the match.
pub proof fn rounds_end_or_begin(m: MatchModel)
    requires
        m.flow.round_state == RoundState::Win,
    ensures
        ({
            let (next, new_round) = m.round_advanced();
            let right = m.flow.p1_reset.pos.x.at_most(m.flow.p2_reset.pos.x);
            &&& m.flow.match_state == MatchState::Over ==> next == m && !new_round
            &&& !new_round ==> next == (MatchModel {
                flow: Flow {
                    match_state: MatchState::Over,
                    match_winner: next.flow.match_winner,
                    ..m.flow
                },
                ..m
            })
            &&& new_round ==> {
                &&& next.p1.character == (Character {
                    facing: if right {
                        Facing::Right
                    } else {
                        Facing::Left
                    },
                    ..reset_for_round(m.p1.character, m.flow.p1_reset)
                })
                &&& next.p2.character == (Character {
                    facing: if right {
                        Facing::Left
                    } else {
                        Facing::Right
                    },
                    ..reset_for_round(m.p2.character, m.flow.p2_reset)
                })
                &&& next.p1 == (PlayerModel {
                    character: next.p1.character,
                    projectiles: Seq::empty(),
                    explods: Seq::empty(),
                    ..m.p1
                })
                &&& next.p2 == (PlayerModel {
                    character: next.p2.character,
                    projectiles: Seq::empty(),
                    explods: Seq::empty(),
                    ..m.p2
                })
                &&& next.flow == (Flow {
                    round_state: RoundState::Intro,
                    round_number: saturated(m.flow.round_number + 1),
                    timer: m.flow.round_frames,
                    phase_timer: 0,
                    winner: None,
                    ..m.flow
                })
                &&& next.effects.len() == 0 && next.freeze.remaining == 0
                &&& next.p1_sound_requests.len() == 0 && next.p2_sound_requests.len() == 0
                &&& next.common_fx == m.common_fx
            }
        }),
{
    reveal(MatchModel::round_advanced);
}

/// A new match is set up as it was asked to be: each player as it was handed in but
/// for its facing, the player further left facing right, the clock and the target as
/// asked but for their least values, and nothing won, shown, heard or frozen.
pub proof fn matches_begin_as_asked(
    p1: PlayerModel,
    p2: PlayerModel,
    bounds: StageBounds,
    round_seconds: i32,
    rounds_to_win: i32,
)
    ensures
        ({
            let m = fresh_match(p1, p2, bounds, round_seconds, rounds_to_win);
            let right = p1.character.pos.x.at_most(p2.character.pos.x);
            let f1 = if right {
                Facing::Right
            } else {
                Facing::Left
            };
            let f2 = if right {
                Facing::Left
            } else {
                Facing::Right
            };
            &&& m.p1 == (PlayerModel { character: Character { facing: f1, ..p1.character }, ..p1 })
            &&& m.p2 == (PlayerModel { character: Character { facing: f2, ..p2.character }, ..p2 })
            &&& m.flow.bounds == bounds
            &&& round_seconds <= 0 ==> m.flow.timer == 0
            &&& 0 <= round_seconds <= 35_791_394 ==> m.flow.timer == round_seconds * 60
            &&& m.flow.round_frames == m.flow.timer
            &&& rounds_to_win >= 1 ==> m.flow.rounds_to_win == rounds_to_win
            &&& rounds_to_win < 1 ==> m.flow.rounds_to_win == 1
            &&& m.flow.round_state == RoundState::Intro && m.flow.phase_timer == 0
            &&& m.flow.p1_round_wins == 0 && m.flow.p2_round_wins == 0
            &&& m.flow.round_number == 1 && m.flow.game_time == 0
            &&& m.flow.match_state == MatchState::InProgress
            &&& m.flow.winner is None && m.flow.match_winner is None
            &&& !m.flow.single_round
            &&& m.flow.p1_reset.pos == p1.character.pos && m.flow.p1_reset.facing == f1
            &&& m.flow.p2_reset.pos == p2.character.pos && m.flow.p2_reset.facing == f2
            &&& m.flow.p1_reset.life_max == p1.character.life_max
            &&& m.flow.p2_reset.life_max == p2.character.life_max
            &&& m.effects.len() == 0 && m.freeze.remaining == 0 && m.common_fx is None
            &&& m.p1_sound_requests.len() == 0 && m.p2_sound_requests.len() == 0
        }),
{
}

} // verus!
