//! The match: two players, the round clock and the best-of-N flow.

use vstd::prelude::*;

use crate::air::AirFile;
use crate::arith::{saturated, saturating_difference, saturating_product, saturating_sum};
use crate::character::{
    auto_turned, face_each_other, face_each_other_when_neutral, facings, reset_fighter_for_round,
    reset_for_round, turned, Character, Priority, RoundResetState, RoundView, SparkSource,
};
use crate::effect::{effects_ticked, new_effect, start_effect, tick_effects, Effect, EffectSide};
use crate::freeze::{Freeze, FreezeExempt};
use crate::player::{
    body_of, directional_contact, may_touch, CharacterFingerprint, ContactProbe, Player,
    PlayerDriver, PlayerModel, PushBody,
};
use crate::report::{FreezeRequest, SoundRequest};
use crate::round::{
    compare_life, derive_player_seed, player_seed, verdict_by_life, MatchState, RoundState, Side,
    Winner, DEFAULT_ROUNDS_TO_WIN, DEFAULT_ROUND_SECONDS, INTRO_FRAMES, KO_FRAMES,
    ROUND_INIT_STATE, TICKS_PER_SECOND,
};
use crate::scalar::{Scalar, Vec2};
use crate::stage::StageBounds;

verus! {

/// The flow of the rounds and of the match.
#[derive(Debug, Clone, Copy, PartialEq)]
pub struct Flow {
    /// The playfield.
    pub bounds: StageBounds,
    /// The phase of the round.
    pub round_state: RoundState,
    /// Frames left on the round clock.
    pub timer: i32,
    /// Frames spent in the intro or the knockout hold.
    pub phase_timer: i32,
    /// The winner of the round, once decided.
    pub winner: Option<Winner>,
    /// Round wins that win the match.
    pub rounds_to_win: i32,
    /// Rounds player 1 has won.
    pub p1_round_wins: i32,
    /// Rounds player 2 has won.
    pub p2_round_wins: i32,
    /// The number of the round, from 1.
    pub round_number: i32,
    /// Whether the match is decided.
    pub match_state: MatchState,
    /// The winner of the match, once decided.
    pub match_winner: Option<Winner>,
    /// What player 1 is restored to at the top of a round.
    pub p1_reset: RoundResetState,
    /// What player 2 is restored to at the top of a round.
    pub p2_reset: RoundResetState,
    /// Frames on the clock at the top of a round.
    pub round_frames: i32,
    /// Frames since the match began. It never goes back.
    pub game_time: i32,
    /// Whether the first decided round ends the match.
    pub single_round: bool,
}

/// The two-player match.
#[derive(Debug, Clone)]
pub struct Match {
    /// Player 1.
    pub p1: Player,
    /// Player 2.
    pub p2: Player,
    /// The flow of the rounds and of the match.
    pub flow: Flow,
    /// Sounds player 1 plays on the last frame.
    pub p1_sound_requests: Vec<SoundRequest>,
    /// Sounds player 2 plays on the last frame.
    pub p2_sound_requests: Vec<SoundRequest>,
    /// The freeze in force.
    pub freeze: Freeze,
    /// The live hit sparks.
    pub effects: Vec<Effect>,
    /// The common effects' animations, if installed.
    pub common_fx: Option<AirFile>,
}

/// A match, with its lists as sequences.
pub struct MatchModel {
    /// Player 1.
    pub p1: PlayerModel,
    /// Player 2.
    pub p2: PlayerModel,
    /// The flow of the rounds and of the match.
    pub flow: Flow,
    /// Sounds player 1 plays on the last frame.
    pub p1_sound_requests: Seq<SoundRequest>,
    /// Sounds player 2 plays on the last frame.
    pub p2_sound_requests: Seq<SoundRequest>,
    /// The freeze in force.
    pub freeze: Freeze,
    /// The live hit sparks.
    pub effects: Seq<Effect>,
    /// The common effects' animations, if installed.
    pub common_fx: Option<AirFile>,
}

impl View for Match {
    type V = MatchModel;

    open spec fn view(&self) -> MatchModel {
        MatchModel {
            p1: self.p1@,
            p2: self.p2@,
            flow: self.flow,
            p1_sound_requests: self.p1_sound_requests@,
            p2_sound_requests: self.p2_sound_requests@,
            freeze: self.freeze,
            effects: self.effects@,
            common_fx: self.common_fx,
        }
    }
}

/// Where the opponent of a CPU player stands, and where that player does. The
/// gap is `opponent_x - own_x`.
#[derive(Debug, Clone, Copy, PartialEq)]
pub struct AiObservation {
    /// The opponent's X.
    pub opponent_x: Scalar,
    /// The player's own X.
    pub own_x: Scalar,
}

/// Which fighters enter the common round-init state at the top of a round.
#[derive(Debug, Clone, Copy, PartialEq, Eq, Structural)]
pub struct RoundInit {
    /// Whether player 1 does.
    pub p1: bool,
    /// Whether player 2 does.
    pub p2: bool,
}

/// How two attacks that connect on the same frame fare.
#[derive(Debug, Clone, Copy, PartialEq, Eq, Structural)]
pub enum ClashOutcome {
    /// Both land.
    Trade,
    /// Player 1's lands.
    FirstWins,
    /// Player 2's lands.
    SecondWins,
    /// Neither lands.
    NeitherHits,
}

/// Two attacks that may connect on the same frame.
#[derive(Debug, Clone, PartialEq)]
pub struct ClashProbe {
    /// Player 1's attack against player 2.
    pub p1: ContactProbe,
    /// Player 2's attack against player 1.
    pub p2: ContactProbe,
    /// The priority of player 1's attack.
    pub p1_priority: Priority,
    /// The priority of player 2's attack.
    pub p2_priority: Priority,
}

/// The larger of two numbers.
pub open spec fn larger(a: i32, b: i32) -> i32 {
    if a > b {
        a
    } else {
        b
    }
}

/// The sounds of a new match or round: none.
pub open spec fn silence() -> Seq<SoundRequest> {
    Seq::empty()
}

/// A match at the top of its first round, before the fighters that define it have
/// entered the round-init state.
pub open spec fn fresh_match(
    p1: PlayerModel,
    p2: PlayerModel,
    bounds: StageBounds,
    round_seconds: i32,
    rounds_to_win: i32,
) -> MatchModel {
    let (f1, f2) = facings(p1.character.pos.x, p2.character.pos.x);
    let c1 = turned(p1.character, f1);
    let c2 = turned(p2.character, f2);
    let frames = saturated(larger(round_seconds, 0) * TICKS_PER_SECOND);
    MatchModel {
        p1: p1.with_character(c1),
        p2: p2.with_character(c2),
        flow: Flow {
            bounds,
            round_state: RoundState::Intro,
            timer: frames,
            phase_timer: 0,
            winner: None,
            rounds_to_win: larger(rounds_to_win, 1),
            p1_round_wins: 0,
            p2_round_wins: 0,
            round_number: 1,
            match_state: MatchState::InProgress,
            match_winner: None,
            p1_reset: RoundResetState::of(c1),
            p2_reset: RoundResetState::of(c2),
            round_frames: frames,
            game_time: 0,
            single_round: false,
        },
        p1_sound_requests: silence(),
        p2_sound_requests: silence(),
        freeze: Freeze::inactive_spec(),
        effects: Seq::empty(),
        common_fx: None,
    }
}

impl MatchModel {
    /// The player on a side.
    pub open spec fn player(self, side: Side) -> PlayerModel {
        match side {
            Side::P1 => self.p1,
            Side::P2 => self.p2,
        }
    }

    /// The match with another player on a side.
    pub open spec fn with_player(self, side: Side, player: PlayerModel) -> MatchModel {
        match side {
            Side::P1 => MatchModel { p1: player, ..self },
            Side::P2 => MatchModel { p2: player, ..self },
        }
    }

    /// The match with another flow.
    pub open spec fn with_flow(self, flow: Flow) -> MatchModel {
        MatchModel { flow, ..self }
    }

    /// The match with nothing to show of a frame on either side.
    pub open spec fn unread(self) -> MatchModel {
        MatchModel { p1: self.p1.unread(), p2: self.p2.unread(), ..self }
    }

    /// The match with nothing on stage that a player owns.
    pub open spec fn swept(self) -> MatchModel {
        MatchModel { p1: self.p1.alone(), p2: self.p2.alone(), ..self }
    }

    /// The match with another fighter state on a side.
    pub open spec fn with_character(self, side: Side, character: Character) -> MatchModel {
        self.with_player(side, self.player(side).with_character(character))
    }

    /// The match with other sounds on a side.
    pub open spec fn with_sounds(self, side: Side, sounds: Seq<SoundRequest>) -> MatchModel {
        match side {
            Side::P1 => MatchModel { p1_sound_requests: sounds, ..self },
            Side::P2 => MatchModel { p2_sound_requests: sounds, ..self },
        }
    }

    /// The sounds of a side.
    pub open spec fn sounds(self, side: Side) -> Seq<SoundRequest> {
        match side {
            Side::P1 => self.p1_sound_requests,
            Side::P2 => self.p2_sound_requests,
        }
    }

    /// The clock that triggers read.
    pub open spec fn clock(self) -> RoundView {
        RoundView {
            round_state: self.flow.round_state.code(),
            game_time: self.flow.game_time,
            match_over: self.flow.match_state == MatchState::Over,
            round_no: self.flow.round_number,
            rounds_existed: larger(saturated(self.flow.round_number - 1), 0),
        }
    }

    /// Which fighters enter the round-init state.
    pub open spec fn round_init(self) -> RoundInit {
        RoundInit {
            p1: self.p1.loaded.defines(ROUND_INIT_STATE),
            p2: self.p2.loaded.defines(ROUND_INIT_STATE),
        }
    }

    /// The match once the fighters that define it have entered the round-init
    /// state, as `c1` and `c2`.
    pub open spec fn round_initialised(self, c1: Character, c2: Character) -> MatchModel {
        let a = if self.round_init().p1 {
            self.with_character(Side::P1, c1)
        } else {
            self
        };
        if self.round_init().p2 {
            a.with_character(Side::P2, c2)
        } else {
            a
        }
    }

    /// The knockout hold: its clock starts, and nobody has control.
    pub open spec fn ko_entered(self) -> MatchModel {
        MatchModel {
            flow: Flow { round_state: RoundState::Ko, phase_timer: 0, ..self.flow },
            p1: self.p1.with_character(Character { ctrl: false, ..self.p1.character }),
            p2: self.p2.with_character(Character { ctrl: false, ..self.p2.character }),
            ..self
        }
    }

    /// A round credited to its winner; a draw is credited to nobody.
    pub open spec fn credited(self, winner: Winner) -> MatchModel {
        match winner {
            Winner::P1 => self.with_flow(
                Flow { p1_round_wins: saturated(self.flow.p1_round_wins + 1), ..self.flow },
            ),
            Winner::P2 => self.with_flow(
                Flow { p2_round_wins: saturated(self.flow.p2_round_wins + 1), ..self.flow },
            ),
            Winner::Draw => self,
        }
    }

    /// A decided round: the verdict recorded and credited, the hold entered.
    pub open spec fn decided(self, winner: Winner) -> MatchModel {
        self.with_flow(Flow { winner: Some(winner), ..self.flow }).credited(
            winner,
        ).ko_entered()
    }

    /// The verdict on a fight, if there is one: a fighter without life has lost,
    /// two of them draw, and with none left on the clock life decides.
    pub open spec fn verdict(self) -> Option<Winner> {
        let p1_down = self.p1.character.life <= 0;
        let p2_down = self.p2.character.life <= 0;
        if p1_down && p2_down {
            Some(Winner::Draw)
        } else if p2_down {
            Some(Winner::P1)
        } else if p1_down {
            Some(Winner::P2)
        } else if self.flow.timer == 0 {
            Some(verdict_by_life(self.p1.character.life, self.p2.character.life))
        } else {
            None
        }
    }

    /// The match, over.
    pub open spec fn ended(self, winner: Winner) -> MatchModel {
        self.with_flow(
            Flow { match_state: MatchState::Over, match_winner: Some(winner), ..self.flow },
        )
    }

    /// A fighter at the top of the next round, turned to its opponent.
    pub open spec fn next_round_fighter(self, side: Side) -> Character {
        let (f1, f2) = facings(self.flow.p1_reset.pos.x, self.flow.p2_reset.pos.x);
        match side {
            Side::P1 => turned(reset_for_round(self.p1.character, self.flow.p1_reset), f1),
            Side::P2 => turned(reset_for_round(self.p2.character, self.flow.p2_reset), f2),
        }
    }

    /// The match at the top of its next round: fighters restored and turned to
    /// each other, the clock full, nothing left of sounds, freeze, sparks,
    /// projectiles and explods. Helpers stay.
    pub open spec fn next_round(self) -> MatchModel {
        MatchModel {
            p1: PlayerModel {
                character: self.next_round_fighter(Side::P1),
                projectiles: Seq::empty(),
                explods: Seq::empty(),
                ..self.p1
            },
            p2: PlayerModel {
                character: self.next_round_fighter(Side::P2),
                projectiles: Seq::empty(),
                explods: Seq::empty(),
                ..self.p2
            },
            flow: Flow {
                timer: self.flow.round_frames,
                phase_timer: 0,
                winner: None,
                round_number: saturated(self.flow.round_number + 1),
                round_state: RoundState::Intro,
                ..self.flow
            },
            p1_sound_requests: silence(),
            p2_sound_requests: silence(),
            freeze: Freeze::inactive_spec(),
            effects: Seq::empty(),
            ..self
        }
    }

    /// Who has won the match, as a decided round leaves it; `None` where another
    /// round is to be played. In a single-round match that is the round's own
    /// verdict, else whoever has reached the target.
    pub open spec fn match_verdict(self) -> Option<Winner> {
        if self.flow.single_round {
            Some(
                match self.flow.winner {
                    Some(w) => w,
                    None => Winner::Draw,
                },
            )
        } else if self.flow.p1_round_wins >= self.flow.rounds_to_win {
            Some(Winner::P1)
        } else if self.flow.p2_round_wins >= self.flow.rounds_to_win {
            Some(Winner::P2)
        } else {
            None
        }
    }

    /// The match after a decided round, and whether a new round begins.
    pub open spec fn round_resolved(self) -> (MatchModel, bool) {
        if self.flow.match_state == MatchState::Over {
            (self, false)
        } else {
            match self.match_verdict() {
                Some(w) => (self.ended(w), false),
                None => (self.next_round(), true),
            }
        }
    }

    /// The intro, one frame on.
    pub open spec fn intro_advanced(self) -> MatchModel {
        let passed = saturated(self.flow.phase_timer + 1);
        if passed >= INTRO_FRAMES {
            MatchModel {
                flow: Flow { round_state: RoundState::Fight, phase_timer: 0, ..self.flow },
                p1: self.p1.with_character(Character { ctrl: true, ..self.p1.character }),
                p2: self.p2.with_character(Character { ctrl: true, ..self.p2.character }),
                ..self
            }
        } else {
            self.with_flow(Flow { phase_timer: passed, ..self.flow })
        }
    }

    /// The fight, one frame on: the clock counts down, and a verdict ends it.
    pub open spec fn fight_advanced(self) -> MatchModel {
        let counted = self.with_flow(
            Flow {
                timer: if self.flow.timer > 0 {
                    (self.flow.timer - 1) as i32
                } else {
                    self.flow.timer
                },
                ..self.flow
            },
        );
        match counted.verdict() {
            Some(w) => counted.decided(w),
            None => counted,
        }
    }

    /// The knockout hold, one frame on.
    pub open spec fn ko_advanced(self) -> MatchModel {
        let passed = saturated(self.flow.phase_timer + 1);
        if passed >= KO_FRAMES {
            self.with_flow(Flow { round_state: RoundState::Win, phase_timer: 0, ..self.flow })
        } else {
            self.with_flow(Flow { phase_timer: passed, ..self.flow })
        }
    }

    /// The round flow one frame on, and whether a new round begins.
    #[verifier::opaque]
    pub open spec fn round_advanced(self) -> (MatchModel, bool) {
        match self.flow.round_state {
            RoundState::Intro => (self.intro_advanced(), false),
            RoundState::Fight => (self.fight_advanced(), false),
            RoundState::Ko => (self.ko_advanced(), false),
            RoundState::Win => self.round_resolved(),
        }
    }

    /// The match with a spark added for a landed attack of `side`. There is none
    /// where the attack has none, its action is missing or empty, or the common
    /// effects it asks for are not installed.
    pub open spec fn sparked(self, side: EffectSide, spark: SparkSource, pos: Vec2) -> MatchModel {
        let (source, anim, air) = match spark {
            SparkSource::NoSpark => (side, 0, None),
            SparkSource::Own { anim } => (
                side,
                anim,
                match side {
                    EffectSide::P1 => Some(self.p1.loaded.air),
                    EffectSide::P2 => Some(self.p2.loaded.air),
                    EffectSide::Common => None,
                },
            ),
            SparkSource::Common { anim } => (EffectSide::Common, anim, self.common_fx),
        };
        match air {
            Some(a) => if a.frames_of(anim).len() > 0 {
                MatchModel {
                    effects: self.effects.push(new_effect(source, anim, a.frames_of(anim), pos)),
                    ..self
                }
            } else {
                self
            },
            None => self,
        }
    }

    /// The match with its sparks one tick on.
    pub open spec fn effects_advanced(self) -> MatchModel {
        MatchModel {
            effects: effects_ticked(
                self.effects,
                self.p1.loaded.air,
                self.p2.loaded.air,
                self.common_fx,
            ),
            ..self
        }
    }

    /// Whether the two fighters' attacks may clash: both are armed, neither has
    /// made contact yet, and each shows boxes that could touch.
    pub open spec fn may_clash(self) -> bool {
        &&& self.p1.character.active_hitdef is Some
        &&& self.p2.character.active_hitdef is Some
        &&& !self.p1.character.move_contact
        &&& !self.p2.character.move_contact
        &&& may_touch(self.p1, self.p2)
        &&& may_touch(self.p2, self.p1)
    }

    /// The match after a clash: the losing attacks are cancelled.
    pub open spec fn clashed(self, outcome: ClashOutcome) -> MatchModel {
        let a = if outcome == ClashOutcome::SecondWins || outcome == ClashOutcome::NeitherHits {
            self.with_character(
                Side::P1,
                Character { active_hitdef: None, ..self.p1.character },
            )
        } else {
            self
        };
        if outcome == ClashOutcome::FirstWins || outcome == ClashOutcome::NeitherHits {
            a.with_character(Side::P2, Character { active_hitdef: None, ..self.p2.character })
        } else {
            a
        }
    }

    /// The match with the fighters moved to the X they were pushed and clamped to.
    pub open spec fn pushed(self, x1: Scalar, x2: Scalar) -> MatchModel {
        let c1 = self.p1.character;
        let c2 = self.p2.character;
        MatchModel {
            p1: self.p1.with_character(Character { pos: Vec2 { x: x1, ..c1.pos }, ..c1 }),
            p2: self.p2.with_character(Character { pos: Vec2 { x: x2, ..c2.pos }, ..c2 }),
            ..self
        }
    }

    /// The match with every fighter that is free to turn facing its opponent.
    pub open spec fn faced(self) -> MatchModel {
        let (f1, f2) = facings(self.p1.character.pos.x, self.p2.character.pos.x);
        MatchModel {
            p1: self.p1.with_character(auto_turned(self.p1.character, f1)),
            p2: self.p2.with_character(auto_turned(self.p2.character, f2)),
            ..self
        }
    }
}

impl ClashProbe {
    /// Whether this is the probe of a match's two attacks.
    pub open spec fn is_of(self, m: MatchModel) -> bool {
        &&& self.p1.is_of(m.p1, m.p2)
        &&& self.p2.is_of(m.p2, m.p1)
        &&& m.p1.character.active_hitdef matches Some(hd) && hd.priority == self.p1_priority
        &&& m.p2.character.active_hitdef matches Some(hd) && hd.priority == self.p2_priority
    }
}

impl Match {
    /// A match with the default round length and the default target, best of three.
    pub fn new(p1: Player, p2: Player, bounds: StageBounds) -> (r: Match)
        ensures
            r@ == fresh_match(p1@, p2@, bounds, DEFAULT_ROUND_SECONDS, DEFAULT_ROUNDS_TO_WIN),
    {
        Match::with_round_seconds(p1, p2, bounds, DEFAULT_ROUND_SECONDS)
    }

    /// A match with rounds of the given length and the default target.
    pub fn with_round_seconds(
        p1: Player,
        p2: Player,
        bounds: StageBounds,
        round_seconds: i32,
    ) -> (r: Match)
        ensures
            r@ == fresh_match(p1@, p2@, bounds, round_seconds, DEFAULT_ROUNDS_TO_WIN),
    {
        Match::with_config(p1, p2, bounds, round_seconds, DEFAULT_ROUNDS_TO_WIN)
    }

    /// A match with the given target and the default round length.
    pub fn with_rounds_to_win(
        p1: Player,
        p2: Player,
        bounds: StageBounds,
        rounds_to_win: i32,
    ) -> (r: Match)
        ensures
            r@ == fresh_match(p1@, p2@, bounds, DEFAULT_ROUND_SECONDS, rounds_to_win),
    {
        Match::with_config(p1, p2, bounds, DEFAULT_ROUND_SECONDS, rounds_to_win)
    }

    /// A match with rounds of the given length and the given target. A negative
    /// length counts as 0, and a target below 1 as 1. The fighters are turned to
    /// each other, and where they stand is what every round starts from.
    ///
    /// The fighters have still to enter the round-init state: see
    /// [`Match::run_round_init`].
    pub fn with_config(
        p1: Player,
        p2: Player,
        bounds: StageBounds,
        round_seconds: i32,
        rounds_to_win: i32,
    ) -> (r: Match)
        ensures
            r@ == fresh_match(p1@, p2@, bounds, round_seconds, rounds_to_win),
    {
        let mut p1 = p1;
        let mut p2 = p2;
        face_each_other(&mut p1.character, &mut p2.character);
        let p1_reset = RoundResetState::capture(&p1.character);
        let p2_reset = RoundResetState::capture(&p2.character);
        let seconds: i32 = if round_seconds > 0 {
            round_seconds
        } else {
            0
        };
        let round_frames: i32 = saturating_product(seconds, TICKS_PER_SECOND);
        let m = Match {
            p1,
            p2,
            flow: Flow {
                bounds,
                round_state: RoundState::Intro,
                timer: round_frames,
                phase_timer: 0,
                winner: None,
                rounds_to_win: if rounds_to_win > 1 {
                    rounds_to_win
                } else {
                    1
                },
                p1_round_wins: 0,
                p2_round_wins: 0,
                round_number: 1,
                match_state: MatchState::InProgress,
                match_winner: None,
                p1_reset,
                p2_reset,
                round_frames,
                game_time: 0,
                single_round: false,
            },
            p1_sound_requests: Vec::new(),
            p2_sound_requests: Vec::new(),
            freeze: Freeze::inactive(),
            effects: Vec::new(),
            common_fx: None,
        };
        assert(m.p1_sound_requests@ =~= silence());
        assert(m.p2_sound_requests@ =~= silence());
        assert(m.effects@ =~= Seq::empty());
        m
    }

    /// A match with the defaults, its players seeded from `match_seed`.
    pub fn with_seed(p1: Player, p2: Player, bounds: StageBounds, match_seed: i32) -> (r: Match)
        ensures
            r@ == fresh_match(
                p1@,
                p2@,
                bounds,
                DEFAULT_ROUND_SECONDS,
                DEFAULT_ROUNDS_TO_WIN,
            ).seeded(match_seed),
    {
        let mut m = Match::new(p1, p2, bounds);
        m.seed_players(match_seed);
        m
    }

    /// Seeds the fighters' random streams: player 1 with the match seed, player 2
    /// with a seed derived from it.
    pub fn seed_players(&mut self, match_seed: i32)
        ensures
            final(self)@ == old(self)@.seeded(match_seed),
    {
        self.p1.character.rng_seed = derive_player_seed(match_seed, 0);
        self.p2.character.rng_seed = derive_player_seed(match_seed, 1);
    }

    /// Sets each fighter's level from what drives it.
    pub fn set_drivers(&mut self, p1_driver: PlayerDriver, p2_driver: PlayerDriver)
        ensures
            final(self)@ == (MatchModel {
                p1: old(self)@.p1.with_character(
                    Character { ai_level: p1_driver.level(), ..old(self)@.p1.character },
                ),
                p2: old(self)@.p2.with_character(
                    Character { ai_level: p2_driver.level(), ..old(self)@.p2.character },
                ),
                ..old(self)@
            }),
    {
        self.p1.character.ai_level = p1_driver.ai_level();
        self.p2.character.ai_level = p2_driver.ai_level();
    }

    /// Installs the common effects' animations in place of any before.
    pub fn set_common_fx(&mut self, air: AirFile)
        ensures
            final(self)@ == (MatchModel { common_fx: Some(air), ..old(self)@ }),
    {
        self.common_fx = Some(air);
    }

    /// The common effects' animations, if installed.
    pub fn common_fx(&self) -> (r: Option<&AirFile>)
        ensures
            r is Some == self@.common_fx is Some,
            r matches Some(air) ==> Some(*air) == self@.common_fx,
    {
        self.common_fx.as_ref()
    }

    /// Sets the number of round wins that win the match; below 1 counts as 1. A
    /// target that is met already takes effect when the next round is decided.
    pub fn set_rounds_to_win(&mut self, rounds_to_win: i32)
        ensures
            final(self)@ == old(self)@.with_flow(
                Flow { rounds_to_win: larger(rounds_to_win, 1), ..old(self)@.flow },
            ),
    {
        self.flow.rounds_to_win = if rounds_to_win > 1 {
            rounds_to_win
        } else {
            1
        };
    }

    /// Makes the first decided round end the match, with its own verdict, and
    /// without restoring anyone's life.
    pub fn set_single_round(&mut self, single_round: bool)
        ensures
            final(self)@ == old(self)@.with_flow(Flow { single_round, ..old(self)@.flow }),
    {
        self.flow.single_round = single_round;
    }

    /// Whether the first decided round ends the match.
    pub fn single_round(&self) -> (r: bool)
        ensures
            r == self@.flow.single_round,
    {
        self.flow.single_round
    }

    /// Player 1.
    pub fn p1(&self) -> (r: &Player)
        ensures
            *r == self.p1,
    {
        &self.p1
    }

    /// Player 2.
    pub fn p2(&self) -> (r: &Player)
        ensures
            *r == self.p2,
    {
        &self.p2
    }

    /// What a CPU on side 2 sees of its opponent.
    pub fn ai_observation_for_p2(&self) -> (r: AiObservation)
        ensures
            r == (AiObservation {
                opponent_x: self@.p1.character.pos.x,
                own_x: self@.p2.character.pos.x,
            }),
    {
        AiObservation { opponent_x: self.p1.pos().x, own_x: self.p2.pos().x }
    }

    /// What a CPU on side 1 sees of its opponent.
    pub fn ai_observation_for_p1(&self) -> (r: AiObservation)
        ensures
            r == (AiObservation {
                opponent_x: self@.p2.character.pos.x,
                own_x: self@.p1.character.pos.x,
            }),
    {
        AiObservation { opponent_x: self.p2.pos().x, own_x: self.p1.pos().x }
    }

    /// Takes the match apart into its two players.
    pub fn into_players(self) -> (r: (Player, Player))
        ensures
            r == (self.p1, self.p2),
    {
        (self.p1, self.p2)
    }

    /// The stamps of the two characters.
    pub fn character_fingerprints(&self) -> (r: (CharacterFingerprint, CharacterFingerprint))
        ensures
            r == (self@.p1.loaded.fingerprint, self@.p2.loaded.fingerprint),
    {
        (self.p1.fingerprint(), self.p2.fingerprint())
    }

    /// The playfield.
    pub fn bounds(&self) -> (r: StageBounds)
        ensures
            r == self@.flow.bounds,
    {
        self.flow.bounds
    }

    /// The phase of the round.
    pub fn round_state(&self) -> (r: RoundState)
        ensures
            r == self@.flow.round_state,
    {
        self.flow.round_state
    }

    /// Frames left on the round clock.
    pub fn timer(&self) -> (r: i32)
        ensures
            r == self@.flow.timer,
    {
        self.flow.timer
    }

    /// The winner of the round, once decided.
    pub fn winner(&self) -> (r: Option<Winner>)
        ensures
            r == self@.flow.winner,
    {
        self.flow.winner
    }

    /// Round wins that win the match.
    pub fn rounds_to_win(&self) -> (r: i32)
        ensures
            r == self@.flow.rounds_to_win,
    {
        self.flow.rounds_to_win
    }

    /// Rounds player 1 has won.
    pub fn p1_round_wins(&self) -> (r: i32)
        ensures
            r == self@.flow.p1_round_wins,
    {
        self.flow.p1_round_wins
    }

    /// Rounds player 2 has won.
    pub fn p2_round_wins(&self) -> (r: i32)
        ensures
            r == self@.flow.p2_round_wins,
    {
        self.flow.p2_round_wins
    }

    /// The number of the round, from 1.
    pub fn round_number(&self) -> (r: i32)
        ensures
            r == self@.flow.round_number,
    {
        self.flow.round_number
    }

    /// Frames since the match began.
    pub fn game_time(&self) -> (r: i32)
        ensures
            r == self@.flow.game_time,
    {
        self.flow.game_time
    }

    /// Frames of freeze left.
    pub fn freeze_time(&self) -> (r: i32)
        ensures
            r == larger(self@.freeze.remaining, 0),
    {
        if self.freeze.remaining > 0 {
            self.freeze.remaining
        } else {
            0
        }
    }

    /// Whether player 1 is held still.
    pub fn p1_frozen(&self) -> (r: bool)
        ensures
            r == self@.freeze.holds_side(FreezeExempt::P1),
    {
        self.freeze.freezes(FreezeExempt::P1)
    }

    /// Whether player 2 is held still.
    pub fn p2_frozen(&self) -> (r: bool)
        ensures
            r == self@.freeze.holds_side(FreezeExempt::P2),
    {
        self.freeze.freezes(FreezeExempt::P2)
    }

    /// The clock that triggers read.
    pub fn round_view(&self) -> (r: RoundView)
        ensures
            r == self@.clock(),
    {
        let existed: i32 = saturating_difference(self.flow.round_number, 1);
        RoundView {
            round_state: self.flow.round_state.trigger_code(),
            game_time: self.flow.game_time,
            match_over: self.flow.match_state == MatchState::Over,
            round_no: self.flow.round_number,
            rounds_existed: if existed > 0 {
                existed
            } else {
                0
            },
        }
    }

    /// Whether the match is decided.
    pub fn match_state(&self) -> (r: MatchState)
        ensures
            r == self@.flow.match_state,
    {
        self.flow.match_state
    }

    /// The winner of the match, once decided.
    pub fn match_winner(&self) -> (r: Option<Winner>)
        ensures
            r == self@.flow.match_winner,
    {
        self.flow.match_winner
    }

    /// The live hit sparks.
    pub fn effects(&self) -> (r: &Vec<Effect>)
        ensures
            r@ == self@.effects,
    {
        &self.effects
    }

    /// Sounds player 1 plays on the last frame, in order.
    pub fn p1_sound_requests(&self) -> (r: &Vec<SoundRequest>)
        ensures
            r@ == self@.p1_sound_requests,
    {
        &self.p1_sound_requests
    }

    /// Sounds player 2 plays on the last frame, in order.
    pub fn p2_sound_requests(&self) -> (r: &Vec<SoundRequest>)
        ensures
            r@ == self@.p2_sound_requests,
    {
        &self.p2_sound_requests
    }

    /// Arms a freeze for a fighter's request. It takes effect on the next frame.
    pub fn arm_freeze(&mut self, req: Option<FreezeRequest>, side: FreezeExempt)
        ensures
            final(self)@ == (MatchModel {
                freeze: old(self)@.freeze.armed(req, side),
                ..old(self)@
            }),
    {
        self.freeze.arm(req, side);
    }

    /// The probe of the two attacks, where they may clash.
    pub fn clash_probe(&self) -> (r: Option<ClashProbe>)
        ensures
            r is Some == self@.may_clash(),
            r matches Some(probe) ==> probe.is_of(self@),
    {
        if self.p1.character.move_contact || self.p2.character.move_contact {
            return None;
        }
        match (self.p1.character.active_hitdef, self.p2.character.active_hitdef) {
            (Some(p1_hd), Some(p2_hd)) => {
                match (
                    directional_contact(&self.p1, &self.p2),
                    directional_contact(&self.p2, &self.p1),
                ) {
                    (Some(p1), Some(p2)) => Some(
                        ClashProbe {
                            p1,
                            p2,
                            p1_priority: p1_hd.priority,
                            p2_priority: p2_hd.priority,
                        },
                    ),
                    _ => None,
                }
            },
            _ => None,
        }
    }

    /// Settles a clash: where both attacks connect, those that lose by `outcome`
    /// are cancelled before either lands. Where they may not clash, or only one
    /// connects, nothing changes.
    pub fn resolve_priority_clash(&mut self, p1_hits: bool, p2_hits: bool, outcome: ClashOutcome)
        ensures
            final(self)@ == if old(self)@.may_clash() && p1_hits && p2_hits {
                old(self)@.clashed(outcome)
            } else {
                old(self)@
            },
    {
        if !(p1_hits && p2_hits) || self.clash_probe().is_none() {
            return ;
        }
        match outcome {
            ClashOutcome::Trade => {},
            ClashOutcome::FirstWins => {
                self.p2.character.active_hitdef = None;
            },
            ClashOutcome::SecondWins => {
                self.p1.character.active_hitdef = None;
            },
            ClashOutcome::NeitherHits => {
                self.p1.character.active_hitdef = None;
                self.p2.character.active_hitdef = None;
            },
        }
    }

    /// The bodies to push apart and clamp to the playfield.
    pub fn push_bodies(&self) -> (r: (PushBody, PushBody))
        ensures
            r == (body_of(self@.p1.character), body_of(self@.p2.character)),
    {
        (self.p1.push_body(), self.p2.push_body())
    }

    /// Moves the fighters to the X they were pushed and clamped to.
    pub fn apply_push_and_bounds(&mut self, x1: Scalar, x2: Scalar)
        ensures
            final(self)@ == old(self)@.pushed(x1, x2),
    {
        self.p1.character.pos.x = x1;
        self.p2.character.pos.x = x2;
    }

    /// Turns every fighter that is free to turn to its opponent.
    pub fn face_when_neutral(&mut self)
        ensures
            final(self)@ == old(self)@.faced(),
    {
        face_each_other_when_neutral(&mut self.p1.character, &mut self.p2.character);
    }

    /// Moves the round flow one frame on. Returns whether a new round has begun,
    /// for which the fighters have still to enter the round-init state.
    pub fn advance_round(&mut self) -> (r: bool)
        ensures
            (final(self)@, r) == old(self)@.round_advanced(),
    {
        proof {
            reveal(MatchModel::round_advanced);
        }
        match self.flow.round_state {
            RoundState::Intro => {
                self.flow.phase_timer = saturating_sum(self.flow.phase_timer, 1);
                if self.flow.phase_timer >= INTRO_FRAMES {
                    self.flow.round_state = RoundState::Fight;
                    self.flow.phase_timer = 0;
                    self.p1.character.ctrl = true;
                    self.p2.character.ctrl = true;
                }
                false
            },
            RoundState::Fight => {
                if self.flow.timer > 0 {
                    self.flow.timer = self.flow.timer - 1;
                }
                let p1_down = self.p1.character.life <= 0;
                let p2_down = self.p2.character.life <= 0;
                if p1_down || p2_down {
                    let winner = if p1_down && p2_down {
                        Winner::Draw
                    } else if p2_down {
                        Winner::P1
                    } else {
                        Winner::P2
                    };
                    self.decide_round(winner);
                } else if self.flow.timer == 0 {
                    let winner = compare_life(self.p1.character.life, self.p2.character.life);
                    self.decide_round(winner);
                }
                false
            },
            RoundState::Ko => {
                self.flow.phase_timer = saturating_sum(self.flow.phase_timer, 1);
                if self.flow.phase_timer >= KO_FRAMES {
                    self.flow.round_state = RoundState::Win;
                    self.flow.phase_timer = 0;
                }
                false
            },
            RoundState::Win => self.resolve_match_or_next_round(),
        }
    }

    /// Records and credits a verdict, and enters the knockout hold.
    pub fn decide_round(&mut self, winner: Winner)
        ensures
            final(self)@ == old(self)@.decided(winner),
    {
        self.flow.winner = Some(winner);
        self.credit_round(winner);
        self.enter_ko();
    }

    /// Credits a round to its winner. A draw is credited to nobody.
    pub fn credit_round(&mut self, winner: Winner)
        ensures
            final(self)@ == old(self)@.credited(winner),
    {
        match winner {
            Winner::P1 => {
                self.flow.p1_round_wins = saturating_sum(self.flow.p1_round_wins, 1);
            },
            Winner::P2 => {
                self.flow.p2_round_wins = saturating_sum(self.flow.p2_round_wins, 1);
            },
            Winner::Draw => {},
        }
    }

    /// Enters the knockout hold and takes control from both fighters.
    pub fn enter_ko(&mut self)
        ensures
            final(self)@ == old(self)@.ko_entered(),
    {
        self.flow.round_state = RoundState::Ko;
        self.flow.phase_timer = 0;
        self.p1.character.ctrl = false;
        self.p2.character.ctrl = false;
    }

    /// Ends the match where a decided round has settled it, else begins the next
    /// round. Returns whether it did the latter.
    pub fn resolve_match_or_next_round(&mut self) -> (r: bool)
        ensures
            (final(self)@, r) == old(self)@.round_resolved(),
    {
        if self.flow.match_state == MatchState::Over {
            return false;
        }
        if self.flow.single_round {
            let verdict = match self.flow.winner {
                Some(w) => w,
                None => Winner::Draw,
            };
            self.end_match(verdict);
            return false;
        }
        if self.flow.p1_round_wins >= self.flow.rounds_to_win {
            self.end_match(Winner::P1);
            false
        } else if self.flow.p2_round_wins >= self.flow.rounds_to_win {
            self.end_match(Winner::P2);
            false
        } else {
            self.reset_for_next_round();
            true
        }
    }

    /// Ends the match.
    pub fn end_match(&mut self, winner: Winner)
        ensures
            final(self)@ == old(self)@.ended(winner),
    {
        self.flow.match_state = MatchState::Over;
        self.flow.match_winner = Some(winner);
    }

    /// Restores both fighters and the clock for the next round. Power carries
    /// over. The fighters have still to enter the round-init state: see
    /// [`Match::run_round_init`].
    pub fn reset_for_next_round(&mut self)
        ensures
            final(self)@ == old(self)@.next_round(),
    {
        reset_fighter_for_round(&mut self.p1.character, self.flow.p1_reset);
        reset_fighter_for_round(&mut self.p2.character, self.flow.p2_reset);
        face_each_other(&mut self.p1.character, &mut self.p2.character);
        self.flow.timer = self.flow.round_frames;
        self.flow.phase_timer = 0;
        self.flow.winner = None;
        self.flow.round_number = saturating_sum(self.flow.round_number, 1);
        self.flow.round_state = RoundState::Intro;
        self.p1_sound_requests = Vec::new();
        self.p2_sound_requests = Vec::new();
        self.freeze = Freeze::inactive();
        self.effects = Vec::new();
        self.p1.projectiles = Vec::new();
        self.p2.projectiles = Vec::new();
        self.p1.explods = Vec::new();
        self.p2.explods = Vec::new();
        assert(self.p1_sound_requests@ =~= silence());
        assert(self.p2_sound_requests@ =~= silence());
        assert(self.effects@ =~= Seq::empty());
        assert(self.p1.projectiles@ =~= Seq::empty());
        assert(self.p2.projectiles@ =~= Seq::empty());
        assert(self.p1.explods@ =~= Seq::empty());
        assert(self.p2.explods@ =~= Seq::empty());
    }

    /// Takes everything that the players own off the stage.
    pub fn sweep_stage(&mut self)
        ensures
            final(self)@ == old(self)@.swept(),
    {
        self.p1.leave_stage();
        self.p2.leave_stage();
    }

    /// Which fighters enter the round-init state at the top of the round: those
    /// that define it. The host sends them there and hands the result to
    /// [`Match::finish_round_init`].
    pub fn run_round_init(&self) -> (r: RoundInit)
        ensures
            r == self@.round_init(),
    {
        RoundInit {
            p1: self.p1.loaded.defines_state(ROUND_INIT_STATE),
            p2: self.p2.loaded.defines_state(ROUND_INIT_STATE),
        }
    }

    /// Takes in the fighters after they have entered the round-init state. One
    /// that does not define it is left alone.
    pub fn finish_round_init(&mut self, p1: Character, p2: Character)
        ensures
            final(self)@ == old(self)@.round_initialised(p1, p2),
    {
        let entered = self.run_round_init();
        if entered.p1 {
            self.p1.character = p1;
        }
        if entered.p2 {
            self.p2.character = p2;
        }
    }

    /// Adds the spark of a landed attack at the point of contact.
    pub fn spawn_effect(&mut self, attacker_side: EffectSide, spark: SparkSource, pos: Vec2)
        ensures
            final(self)@ == old(self)@.sparked(attacker_side, spark, pos),
    {
        let effect = match spark {
            SparkSource::NoSpark => None,
            SparkSource::Own { anim } => match attacker_side {
                EffectSide::P1 => start_effect(attacker_side, anim, &self.p1.loaded.air, pos),
                EffectSide::P2 => start_effect(attacker_side, anim, &self.p2.loaded.air, pos),
                EffectSide::Common => None,
            },
            SparkSource::Common { anim } => match &self.common_fx {
                Some(air) => start_effect(EffectSide::Common, anim, air, pos),
                None => None,
            },
        };
        if let Some(fx) = effect {
            self.effects.push(fx);
        }
    }

    /// Moves the sparks one tick on and drops those that have expired.
    pub fn tick_effects(&mut self)
        ensures
            final(self)@ == old(self)@.effects_advanced(),
    {
        self.effects = tick_effects(
            &self.effects,
            &self.p1.loaded.air,
            &self.p2.loaded.air,
            &self.common_fx,
        );
    }
}

impl MatchModel {
    /// The match with its fighters seeded from a match seed.
    pub open spec fn seeded(self, match_seed: i32) -> MatchModel {
        MatchModel {
            p1: self.p1.with_character(
                Character { rng_seed: player_seed(match_seed, 0), ..self.p1.character },
            ),
            p2: self.p2.with_character(
                Character { rng_seed: player_seed(match_seed, 1), ..self.p2.character },
            ),
            ..self
        }
    }
}

} // verus!
