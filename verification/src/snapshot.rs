//! Saving the runtime state of a match and putting it back.
//!
//! A snapshot holds what changes while a match is played: the round flow, the
//! sparks, and either fighter, of which the host adds its own part as bytes. It
//! does not hold what is loaded, nor helpers, projectiles and explods. It is put
//! back into a match of the same characters.

use vstd::prelude::*;

use crate::character::{
    Character, CommandSource, Facing, HitDef, MoveType, RoundResetState, RoundView, StateType,
    WidthOverride,
};
use crate::codec::{
    deserialize_snapshot, handed, serialize_snapshot, snapshot_decoded, snapshot_encoded,
    snapshot_parts, SnapshotRead, SnapshotWire,
};
use crate::effect::Effect;
use crate::error::{explain, FpError, Mismatch};
use crate::freeze::Freeze;
use crate::game::{silence, Flow, Match, MatchModel};
use crate::player::{CharacterFingerprint, Player, PlayerModel};
use crate::round::{MatchState, RoundState, Side, Winner};
use crate::scalar::Vec2;
use crate::stage::StageBounds;
use crate::wire::{
    snapshot_from_wire, snapshot_round_trip, snapshot_to_wire, snapshot_wire, wire_snapshot,
};

verus! {

/// The runtime state of a fighter, without the entity it belongs to and without
/// what is loaded.
#[derive(Debug, Clone, Copy, PartialEq)]
pub struct CharacterSnapshot {
    /// World position.
    pub pos: Vec2,
    /// Velocity.
    pub vel: Vec2,
    /// Facing.
    pub facing: Facing,
    /// Life.
    pub life: i32,
    /// Maximum life.
    pub life_max: i32,
    /// Power.
    pub power: i32,
    /// Maximum power.
    pub power_max: i32,
    /// Current state number.
    pub state_no: i32,
    /// Previous state number.
    pub prev_state_no: i32,
    /// Frames spent in the state.
    pub state_time: i32,
    /// Posture.
    pub state_type: StateType,
    /// Kind of move.
    pub move_type: MoveType,
    /// Whether the player has control.
    pub ctrl: bool,
    /// Whether the fighter holds away from its opponent.
    pub holding_back: bool,
    /// Whether the fighter holds its opponent as a target.
    pub has_target: bool,
    /// Current action.
    pub anim: i32,
    /// Zero-based frame of the action.
    pub anim_elem: i32,
    /// Frames the current frame has been shown.
    pub anim_elem_time: i32,
    /// Frames the action has run.
    pub anim_time: i32,
    /// The armed attack, if any.
    pub active_hitdef: Option<HitDef>,
    /// Whether the current move has already made contact.
    pub move_contact: bool,
    /// Frames of hit pause left.
    pub hitpause: i32,
    /// Frames of hit shake left.
    pub shaketime: i32,
    /// Whether automatic turning is suppressed.
    pub no_auto_turn: bool,
    /// The push-width override.
    pub cur_width: WidthOverride,
    /// The level of what drives it.
    pub ai_level: u8,
    /// The seed last given to its random stream.
    pub rng_seed: i32,
    /// The clock its triggers read.
    pub round_view: RoundView,
    /// Where its commands come from.
    pub commands: CommandSource,
}

impl CharacterSnapshot {
    /// The snapshot of a fighter.
    pub open spec fn of(c: Character) -> CharacterSnapshot {
        CharacterSnapshot {
            pos: c.pos,
            vel: c.vel,
            facing: c.facing,
            life: c.life,
            life_max: c.life_max,
            power: c.power,
            power_max: c.power_max,
            state_no: c.state_no,
            prev_state_no: c.prev_state_no,
            state_time: c.state_time,
            state_type: c.state_type,
            move_type: c.move_type,
            ctrl: c.ctrl,
            holding_back: c.holding_back,
            has_target: c.has_target,
            anim: c.anim,
            anim_elem: c.anim_elem,
            anim_elem_time: c.anim_elem_time,
            anim_time: c.anim_time,
            active_hitdef: c.active_hitdef,
            move_contact: c.move_contact,
            hitpause: c.hitpause,
            shaketime: c.shaketime,
            no_auto_turn: c.no_auto_turn,
            cur_width: c.cur_width,
            ai_level: c.ai_level,
            rng_seed: c.rng_seed,
            round_view: c.round_view,
            commands: c.commands,
        }
    }

    /// A fighter with this state put back: it keeps its entity and its size.
    pub open spec fn onto(self, c: Character) -> Character {
        Character {
            entity: c.entity,
            size: c.size,
            pos: self.pos,
            vel: self.vel,
            facing: self.facing,
            life: self.life,
            life_max: self.life_max,
            power: self.power,
            power_max: self.power_max,
            state_no: self.state_no,
            prev_state_no: self.prev_state_no,
            state_time: self.state_time,
            state_type: self.state_type,
            move_type: self.move_type,
            ctrl: self.ctrl,
            holding_back: self.holding_back,
            has_target: self.has_target,
            anim: self.anim,
            anim_elem: self.anim_elem,
            anim_elem_time: self.anim_elem_time,
            anim_time: self.anim_time,
            active_hitdef: self.active_hitdef,
            move_contact: self.move_contact,
            hitpause: self.hitpause,
            shaketime: self.shaketime,
            no_auto_turn: self.no_auto_turn,
            cur_width: self.cur_width,
            ai_level: self.ai_level,
            rng_seed: self.rng_seed,
            round_view: self.round_view,
            commands: self.commands,
        }
    }

    /// Takes a snapshot of a fighter.
    pub fn capture(c: &Character) -> (r: CharacterSnapshot)
        ensures
            r == CharacterSnapshot::of(*c),
    {
        CharacterSnapshot {
            pos: c.pos,
            vel: c.vel,
            facing: c.facing,
            life: c.life,
            life_max: c.life_max,
            power: c.power,
            power_max: c.power_max,
            state_no: c.state_no,
            prev_state_no: c.prev_state_no,
            state_time: c.state_time,
            state_type: c.state_type,
            move_type: c.move_type,
            ctrl: c.ctrl,
            holding_back: c.holding_back,
            has_target: c.has_target,
            anim: c.anim,
            anim_elem: c.anim_elem,
            anim_elem_time: c.anim_elem_time,
            anim_time: c.anim_time,
            active_hitdef: c.active_hitdef,
            move_contact: c.move_contact,
            hitpause: c.hitpause,
            shaketime: c.shaketime,
            no_auto_turn: c.no_auto_turn,
            cur_width: c.cur_width,
            ai_level: c.ai_level,
            rng_seed: c.rng_seed,
            round_view: c.round_view,
            commands: c.commands,
        }
    }

    /// Puts this state back into a fighter.
    pub fn restore(&self, c: &mut Character)
        ensures
            *final(c) == self.onto(*old(c)),
    {
        *c = Character {
            entity: c.entity,
            size: c.size,
            pos: self.pos,
            vel: self.vel,
            facing: self.facing,
            life: self.life,
            life_max: self.life_max,
            power: self.power,
            power_max: self.power_max,
            state_no: self.state_no,
            prev_state_no: self.prev_state_no,
            state_time: self.state_time,
            state_type: self.state_type,
            move_type: self.move_type,
            ctrl: self.ctrl,
            holding_back: self.holding_back,
            has_target: self.has_target,
            anim: self.anim,
            anim_elem: self.anim_elem,
            anim_elem_time: self.anim_elem_time,
            anim_time: self.anim_time,
            active_hitdef: self.active_hitdef,
            move_contact: self.move_contact,
            hitpause: self.hitpause,
            shaketime: self.shaketime,
            no_auto_turn: self.no_auto_turn,
            cur_width: self.cur_width,
            ai_level: self.ai_level,
            rng_seed: self.rng_seed,
            round_view: self.round_view,
            commands: self.commands,
        };
    }
}

/// The runtime state of one side.
#[derive(Debug, Clone, PartialEq)]
pub struct PlayerSnapshot {
    /// The fighter.
    pub character: CharacterSnapshot,
    /// The host's part: the rest of the entity, its input history, and the timers
    /// of its command recogniser.
    pub host: Vec<u8>,
}

impl PlayerSnapshot {
    /// Takes a snapshot of a player, with the host's part.
    pub fn capture(player: &Player, host: Vec<u8>) -> (r: PlayerSnapshot)
        ensures
            r.character == CharacterSnapshot::of(player@.character),
            r.host == host,
    {
        PlayerSnapshot { character: CharacterSnapshot::capture(&player.character), host }
    }

    /// Puts the snapshot back into a player. The host puts back its own part.
    pub fn apply_to(&self, player: &mut Player)
        ensures
            final(player)@ == old(player)@.with_character(
                self.character.onto(old(player)@.character),
            ),
    {
        self.character.restore(&mut player.character);
    }
}

/// The runtime state of a match.
#[derive(Debug, Clone, PartialEq)]
pub struct MatchSnapshot {
    /// The stamp of player 1's character.
    pub p1_fingerprint: CharacterFingerprint,
    /// The stamp of player 2's character.
    pub p2_fingerprint: CharacterFingerprint,
    /// Player 1.
    pub p1: PlayerSnapshot,
    /// Player 2.
    pub p2: PlayerSnapshot,
    /// The playfield.
    pub bounds: StageBounds,
    /// The phase of the round.
    pub round_state: RoundState,
    /// Frames left on the round clock.
    pub timer: i32,
    /// Frames spent in the intro or the knockout hold.
    pub phase_timer: i32,
    /// The winner of the round, once decided.
    pub winner: Option<Winner>,
    /// Round wins that win the match.
    pub rounds_to_win: i32,
    /// Rounds player 1 has won.
    pub p1_round_wins: i32,
    /// Rounds player 2 has won.
    pub p2_round_wins: i32,
    /// The number of the round, from 1.
    pub round_number: i32,
    /// Whether the match is decided.
    pub match_state: MatchState,
    /// The winner of the match, once decided.
    pub match_winner: Option<Winner>,
    /// What player 1 is restored to at the top of a round.
    pub p1_reset: RoundResetState,
    /// What player 2 is restored to at the top of a round.
    pub p2_reset: RoundResetState,
    /// Frames on the clock at the top of a round.
    pub round_frames: i32,
    /// Frames since the match began.
    pub game_time: i32,
    /// The freeze in force.
    pub freeze: Freeze,
    /// The live hit sparks.
    pub effects: Vec<Effect>,
}

/// A snapshot, with its lists as sequences.
pub struct SnapshotModel {
    /// The stamp of player 1's character.
    pub p1_fingerprint: CharacterFingerprint,
    /// The stamp of player 2's character.
    pub p2_fingerprint: CharacterFingerprint,
    /// Player 1's fighter.
    pub p1: CharacterSnapshot,
    /// The host's part of player 1.
    pub p1_host: Seq<u8>,
    /// Player 2's fighter.
    pub p2: CharacterSnapshot,
    /// The host's part of player 2.
    pub p2_host: Seq<u8>,
    /// The playfield.
    pub bounds: StageBounds,
    /// The phase of the round.
    pub round_state: RoundState,
    /// Frames left on the round clock.
    pub timer: i32,
    /// Frames spent in the intro or the knockout hold.
    pub phase_timer: i32,
    /// The winner of the round, once decided.
    pub winner: Option<Winner>,
    /// Round wins that win the match.
    pub rounds_to_win: i32,
    /// Rounds player 1 has won.
    pub p1_round_wins: i32,
    /// Rounds player 2 has won.
    pub p2_round_wins: i32,
    /// The number of the round, from 1.
    pub round_number: i32,
    /// Whether the match is decided.
    pub match_state: MatchState,
    /// The winner of the match, once decided.
    pub match_winner: Option<Winner>,
    /// What player 1 is restored to at the top of a round.
    pub p1_reset: RoundResetState,
    /// What player 2 is restored to at the top of a round.
    pub p2_reset: RoundResetState,
    /// Frames on the clock at the top of a round.
    pub round_frames: i32,
    /// Frames since the match began.
    pub game_time: i32,
    /// The freeze in force.
    pub freeze: Freeze,
    /// The live hit sparks.
    pub effects: Seq<Effect>,
}

impl View for MatchSnapshot {
    type V = SnapshotModel;

    open spec fn view(&self) -> SnapshotModel {
        SnapshotModel {
            p1_fingerprint: self.p1_fingerprint,
            p2_fingerprint: self.p2_fingerprint,
            p1: self.p1.character,
            p1_host: self.p1.host@,
            p2: self.p2.character,
            p2_host: self.p2.host@,
            bounds: self.bounds,
            round_state: self.round_state,
            timer: self.timer,
            phase_timer: self.phase_timer,
            winner: self.winner,
            rounds_to_win: self.rounds_to_win,
            p1_round_wins: self.p1_round_wins,
            p2_round_wins: self.p2_round_wins,
            round_number: self.round_number,
            match_state: self.match_state,
            match_winner: self.match_winner,
            p1_reset: self.p1_reset,
            p2_reset: self.p2_reset,
            round_frames: self.round_frames,
            game_time: self.game_time,
            freeze: self.freeze,
            effects: self.effects@,
        }
    }
}

impl SnapshotModel {
    /// The snapshot of a match, with the host's part of either side.
    pub open spec fn of(m: MatchModel, p1_host: Seq<u8>, p2_host: Seq<u8>) -> SnapshotModel {
        SnapshotModel {
            p1_fingerprint: m.p1.loaded.fingerprint,
            p2_fingerprint: m.p2.loaded.fingerprint,
            p1: CharacterSnapshot::of(m.p1.character),
            p1_host,
            p2: CharacterSnapshot::of(m.p2.character),
            p2_host,
            bounds: m.flow.bounds,
            round_state: m.flow.round_state,
            timer: m.flow.timer,
            phase_timer: m.flow.phase_timer,
            winner: m.flow.winner,
            rounds_to_win: m.flow.rounds_to_win,
            p1_round_wins: m.flow.p1_round_wins,
            p2_round_wins: m.flow.p2_round_wins,
            round_number: m.flow.round_number,
            match_state: m.flow.match_state,
            match_winner: m.flow.match_winner,
            p1_reset: m.flow.p1_reset,
            p2_reset: m.flow.p2_reset,
            round_frames: m.flow.round_frames,
            game_time: m.flow.game_time,
            freeze: m.freeze,
            effects: m.effects,
        }
    }

    /// A match with the snapshot put back: no sounds are left over, and what a
    /// snapshot does not hold stays.
    pub open spec fn onto(self, m: MatchModel) -> MatchModel {
        MatchModel {
            p1: m.p1.with_character(self.p1.onto(m.p1.character)),
            p2: m.p2.with_character(self.p2.onto(m.p2.character)),
            flow: Flow {
                bounds: self.bounds,
                round_state: self.round_state,
                timer: self.timer,
                phase_timer: self.phase_timer,
                winner: self.winner,
                rounds_to_win: self.rounds_to_win,
                p1_round_wins: self.p1_round_wins,
                p2_round_wins: self.p2_round_wins,
                round_number: self.round_number,
                match_state: self.match_state,
                match_winner: self.match_winner,
                p1_reset: self.p1_reset,
                p2_reset: self.p2_reset,
                round_frames: self.round_frames,
                game_time: self.game_time,
                single_round: m.flow.single_round,
            },
            p1_sound_requests: silence(),
            p2_sound_requests: silence(),
            freeze: self.freeze,
            effects: self.effects,
            common_fx: m.common_fx,
        }
    }

    /// Whether the snapshot was taken from the characters of a match.
    pub open spec fn fits(self, m: MatchModel) -> bool {
        self.p1_fingerprint == m.p1.loaded.fingerprint && self.p2_fingerprint
            == m.p2.loaded.fingerprint
    }

    /// What does not belong together; player 1 is looked at first.
    pub open spec fn mismatch(self, m: MatchModel) -> Mismatch {
        if self.p1_fingerprint != m.p1.loaded.fingerprint {
            Mismatch::Character {
                side: Side::P1,
                snapshot: self.p1_fingerprint.0,
                live: m.p1.loaded.fingerprint.0,
            }
        } else {
            Mismatch::Character {
                side: Side::P2,
                snapshot: self.p2_fingerprint.0,
                live: m.p2.loaded.fingerprint.0,
            }
        }
    }
}

/// A copy of `effects`.
fn copy_effects(effects: &Vec<Effect>) -> (r: Vec<Effect>)
    ensures
        r@ == effects@,
{
    let mut out: Vec<Effect> = Vec::new();
    let mut i: usize = 0;
    while i < effects.len()
        invariant
            i <= effects@.len(),
            out@ =~= effects@.take(i as int),
        decreases effects.len() - i,
    {
        out.push(effects[i]);
        i = i + 1;
    }
    assert(effects@.take(effects@.len() as int) =~= effects@);
    out
}

impl MatchSnapshot {
    /// Takes a snapshot of a match, with the host's part of either side.
    pub fn capture(m: &Match, p1_host: Vec<u8>, p2_host: Vec<u8>) -> (r: MatchSnapshot)
        ensures
            r@ == SnapshotModel::of(m@, p1_host@, p2_host@),
    {
        let (p1_fingerprint, p2_fingerprint) = m.character_fingerprints();
        MatchSnapshot {
            p1_fingerprint,
            p2_fingerprint,
            p1: PlayerSnapshot::capture(&m.p1, p1_host),
            p2: PlayerSnapshot::capture(&m.p2, p2_host),
            bounds: m.flow.bounds,
            round_state: m.flow.round_state,
            timer: m.flow.timer,
            phase_timer: m.flow.phase_timer,
            winner: m.flow.winner,
            rounds_to_win: m.flow.rounds_to_win,
            p1_round_wins: m.flow.p1_round_wins,
            p2_round_wins: m.flow.p2_round_wins,
            round_number: m.flow.round_number,
            match_state: m.flow.match_state,
            match_winner: m.flow.match_winner,
            p1_reset: m.flow.p1_reset,
            p2_reset: m.flow.p2_reset,
            round_frames: m.flow.round_frames,
            game_time: m.flow.game_time,
            freeze: m.freeze,
            effects: copy_effects(&m.effects),
        }
    }

    /// Puts the snapshot back into a match of the same characters. One of other
    /// characters is left as it is.
    pub fn apply_to(&self, m: &mut Match) -> (r: Result<(), FpError>)
        ensures
            r is Ok == self@.fits(old(m)@),
            r is Ok ==> final(m)@ == self@.onto(old(m)@),
            r matches Err(e) ==> e == FpError::Mismatch(self@.mismatch(old(m)@)) && *final(m)
                == *old(m),
    {
        match self.check_fingerprints(m) {
            Ok(()) => {},
            Err(e) => {
                return Err(e);
            },
        }
        self.p1.apply_to(&mut m.p1);
        self.p2.apply_to(&mut m.p2);
        m.flow.bounds = self.bounds;
        m.flow.round_state = self.round_state;
        m.flow.timer = self.timer;
        m.flow.phase_timer = self.phase_timer;
        m.flow.winner = self.winner;
        m.flow.rounds_to_win = self.rounds_to_win;
        m.flow.p1_round_wins = self.p1_round_wins;
        m.flow.p2_round_wins = self.p2_round_wins;
        m.flow.round_number = self.round_number;
        m.flow.match_state = self.match_state;
        m.flow.match_winner = self.match_winner;
        m.flow.p1_reset = self.p1_reset;
        m.flow.p2_reset = self.p2_reset;
        m.flow.round_frames = self.round_frames;
        m.flow.game_time = self.game_time;
        m.freeze = self.freeze;
        m.effects = copy_effects(&self.effects);
        m.p1_sound_requests = Vec::new();
        m.p2_sound_requests = Vec::new();
        assert(m.p1_sound_requests@ =~= silence());
        assert(m.p2_sound_requests@ =~= silence());
        Ok(())
    }

    /// Checks that the snapshot was taken from the characters of a match.
    pub fn check_fingerprints(&self, m: &Match) -> (r: Result<(), FpError>)
        ensures
            r is Ok == self@.fits(m@),
            r matches Err(e) ==> e == FpError::Mismatch(self@.mismatch(m@)),
    {
        let (p1, p2) = m.character_fingerprints();
        if self.p1_fingerprint != p1 {
            return Err(
                FpError::Mismatch(
                    Mismatch::Character {
                        side: Side::P1,
                        snapshot: self.p1_fingerprint.0,
                        live: p1.0,
                    },
                ),
            );
        }
        if self.p2_fingerprint != p2 {
            return Err(
                FpError::Mismatch(
                    Mismatch::Character {
                        side: Side::P2,
                        snapshot: self.p2_fingerprint.0,
                        live: p2.0,
                    },
                ),
            );
        }
        Ok(())
    }
}

/// The snapshot read from bytes, or why there is none.
pub open spec fn snapshot_read(read: SnapshotRead, r: Result<MatchSnapshot, FpError>) -> bool {
    match read {
        Err(message) => r matches Err(FpError::Other(text)) && text@
            == "match snapshot deserialize failed: "@ + message,
        Ok(parts) => match wire_snapshot(parts) {
            Some(s) => r matches Ok(snap) && snap@ == s,
            None => r matches Err(FpError::Other(text)) && text@
                == "match snapshot deserialize failed: "@ + "tag for enum is not valid"@,
        },
    }
}

/// What comes of putting bytes back into a match: where they hold a snapshot of
/// its characters it is put back and the host gets its parts, else the match is
/// as it was.
pub open spec fn restored(
    read: SnapshotRead,
    before: MatchModel,
    after: MatchModel,
    r: Result<(Vec<u8>, Vec<u8>), FpError>,
) -> bool {
    let snap = match read {
        Ok(parts) => wire_snapshot(parts),
        Err(_) => None,
    };
    match snap {
        Some(s) => if s.fits(before) {
            &&& r matches Ok(host) && host.0@ == s.p1_host && host.1@ == s.p2_host
            &&& after == s.onto(before)
        } else {
            r matches Err(e) && e == FpError::Mismatch(s.mismatch(before)) && after == before
        },
        None => r matches Err(e) && snapshot_read(read, Err(e)) && after == before,
    }
}

/// What comes of putting bytes back into a match. The codec's message, where it
/// refuses them, may be any.
pub open spec fn restored_from(
    bytes: Seq<u8>,
    before: MatchModel,
    after: MatchModel,
    r: Result<(Vec<u8>, Vec<u8>), FpError>,
) -> bool {
    exists|message: Seq<char>|
        restored(#[trigger] handed(snapshot_decoded(bytes), message), before, after, r)
}

impl MatchSnapshot {
    /// Makes a snapshot of what the codec read.
    pub fn from_read(read: Result<SnapshotWire, String>) -> (r: Result<MatchSnapshot, FpError>)
        ensures
            snapshot_read(
                match read {
                    Ok(w) => SnapshotRead::Ok(snapshot_parts(w)),
                    Err(e) => SnapshotRead::Err(e@),
                },
                r,
            ),
    {
        match read {
            Ok(w) => match snapshot_from_wire(w) {
                Some(s) => Ok(s),
                None => Err(
                    explain(
                        "match snapshot deserialize failed: ",
                        &"tag for enum is not valid".to_owned(),
                    ),
                ),
            },
            Err(e) => Err(explain("match snapshot deserialize failed: ", &e)),
        }
    }
}

impl Match {
    /// Takes a snapshot of the match as bytes, with the host's part of either
    /// side. The bytes depend on what they hold alone, reading them gives it back,
    /// and the codec refuses them where any are cut off.
    pub fn snapshot(&self, p1_host: Vec<u8>, p2_host: Vec<u8>) -> (r: Result<Vec<u8>, FpError>)
        ensures
            r is Ok,
            r->Ok_0@ == snapshot_encoded(
                snapshot_wire(SnapshotModel::of(self@, p1_host@, p2_host@)),
            ),
            snapshot_decoded(r->Ok_0@) == Some(
                snapshot_wire(SnapshotModel::of(self@, p1_host@, p2_host@)),
            ),
            forall|n: int|
                0 <= n < r->Ok_0@.len() ==> snapshot_decoded(#[trigger] r->Ok_0@.take(n)) is None,
    {
        let snap = MatchSnapshot::capture(self, p1_host, p2_host);
        match serialize_snapshot(&snapshot_to_wire(snap)) {
            Ok(bytes) => Ok(bytes),
            Err(e) => Err(explain("match snapshot serialize failed: ", &e)),
        }
    }

    /// Takes a snapshot of the match, with the host's part of either side.
    pub fn snapshot_state(&self, p1_host: Vec<u8>, p2_host: Vec<u8>) -> (r: MatchSnapshot)
        ensures
            r@ == SnapshotModel::of(self@, p1_host@, p2_host@),
    {
        MatchSnapshot::capture(self, p1_host, p2_host)
    }

    /// Puts a snapshot back from bytes, and returns the host's part of either
    /// side. Bytes that hold no snapshot, or one of other characters, leave the
    /// match as it is.
    pub fn restore_snapshot(&mut self, bytes: &[u8]) -> (r: Result<(Vec<u8>, Vec<u8>), FpError>)
        ensures
            restored_from(bytes@, old(self)@, final(self)@, r),
    {
        let read = deserialize_snapshot(bytes);
        let ghost message = read->Err_0@;
        let r = self.restore_read(read);
        assert(restored(handed(snapshot_decoded(bytes@), message), old(self)@, self@, r));
        r
    }

    /// Puts back what the codec read.
    pub fn restore_read(&mut self, read: Result<SnapshotWire, String>) -> (r: Result<
        (Vec<u8>, Vec<u8>),
        FpError,
    >)
        ensures
            restored(
                match read {
                    Ok(w) => SnapshotRead::Ok(snapshot_parts(w)),
                    Err(e) => SnapshotRead::Err(e@),
                },
                old(self)@,
                final(self)@,
                r,
            ),
    {
        match MatchSnapshot::from_read(read) {
            Ok(snap) => match snap.apply_to(self) {
                Ok(()) => Ok((snap.p1.host, snap.p2.host)),
                Err(e) => Err(e),
            },
            Err(e) => Err(e),
        }
    }

    /// Puts a snapshot back. One of other characters leaves the match as it is.
    pub fn restore_snapshot_state(&mut self, snap: &MatchSnapshot) -> (r: Result<(), FpError>)
        ensures
            r is Ok == snap@.fits(old(self)@),
            r is Ok ==> final(self)@ == snap@.onto(old(self)@),
            r matches Err(e) ==> e == FpError::Mismatch(snap@.mismatch(old(self)@))
                && *final(self) == *old(self),
    {
        snap.apply_to(self)
    }
}

/// A match keeps everything that a snapshot of its own holds: putting it back
/// changes only that no sounds are left over.
pub proof fn own_snapshot_changes_nothing(m: MatchModel, p1_host: Seq<u8>, p2_host: Seq<u8>)
    ensures
        SnapshotModel::of(m, p1_host, p2_host).fits(m),
        SnapshotModel::of(m, p1_host, p2_host).onto(m) == (MatchModel {
            p1_sound_requests: silence(),
            p2_sound_requests: silence(),
            ..m
        }),
{
}

/// What is put back is what was taken: whatever match of the same characters a
/// snapshot is put back into, a snapshot of that match is the same again.
pub proof fn restored_snapshot_is_the_same(s: SnapshotModel, m: MatchModel)
    requires
        s.fits(m),
    ensures
        SnapshotModel::of(s.onto(m), s.p1_host, s.p2_host) == s,
{
}

/// Saving and restoring give the state back: the bytes of a snapshot of `m`, put
/// back into any match of the same characters, are accepted; the match then has
/// the state of `m`, the host gets its own parts back, and another snapshot has
/// the same bytes.
pub proof fn restoring_gives_the_state_back(
    m: MatchModel,
    p1_host: Seq<u8>,
    p2_host: Seq<u8>,
    bytes: Seq<u8>,
    into: MatchModel,
    after: MatchModel,
    r: Result<(Vec<u8>, Vec<u8>), FpError>,
)
    requires
        snapshot_decoded(bytes) == Some(
            snapshot_wire(SnapshotModel::of(m, p1_host, p2_host)),
        ),
        bytes == snapshot_encoded(snapshot_wire(SnapshotModel::of(m, p1_host, p2_host))),
        m.p1.loaded.fingerprint == into.p1.loaded.fingerprint,
        m.p2.loaded.fingerprint == into.p2.loaded.fingerprint,
        restored_from(bytes, into, after, r),
    ensures
        r matches Ok(host) && host.0@ == p1_host && host.1@ == p2_host,
        SnapshotModel::of(after, p1_host, p2_host) == SnapshotModel::of(m, p1_host, p2_host),
        snapshot_encoded(snapshot_wire(SnapshotModel::of(after, p1_host, p2_host))) == bytes,
{
    let s = SnapshotModel::of(m, p1_host, p2_host);
    snapshot_round_trip(s);
    restored_snapshot_is_the_same(s, into);
}

/// Bytes that the codec refuses, such as those of a snapshot with some cut off, are
/// refused, and the match stays as it is.
pub proof fn unreadable_snapshot_is_refused(
    bytes: Seq<u8>,
    into: MatchModel,
    after: MatchModel,
    r: Result<(Vec<u8>, Vec<u8>), FpError>,
)
    requires
        snapshot_decoded(bytes) is None,
        restored_from(bytes, into, after, r),
    ensures
        r matches Err(FpError::Other(_)),
        after == into,
{
}

/// A snapshot of another character is refused, and the match stays as it is.
pub proof fn foreign_snapshot_is_refused(
    m: MatchModel,
    p1_host: Seq<u8>,
    p2_host: Seq<u8>,
    bytes: Seq<u8>,
    into: MatchModel,
    after: MatchModel,
    r: Result<(Vec<u8>, Vec<u8>), FpError>,
)
    requires
        snapshot_decoded(bytes) == Some(
            snapshot_wire(SnapshotModel::of(m, p1_host, p2_host)),
        ),
        m.p1.loaded.fingerprint != into.p1.loaded.fingerprint || m.p2.loaded.fingerprint
            != into.p2.loaded.fingerprint,
        restored_from(bytes, into, after, r),
    ensures
        r matches Err(FpError::Mismatch(_)),
        after == into,
{
    snapshot_round_trip(SnapshotModel::of(m, p1_host, p2_host));
}

/// Whether two matches agree in everything that a snapshot is to keep: the fighters
/// but for their handles and sizes, the whole flow but for its mode, the freeze and
/// the sparks.
pub open spec fn same_runtime(a: MatchModel, b: MatchModel) -> bool {
    &&& a.p1.character == (Character {
        entity: a.p1.character.entity,
        size: a.p1.character.size,
        ..b.p1.character
    })
    &&& a.p2.character == (Character {
        entity: a.p2.character.entity,
        size: a.p2.character.size,
        ..b.p2.character
    })
    &&& a.flow == (Flow { single_round: a.flow.single_round, ..b.flow })
    &&& a.freeze == b.freeze
    &&& a.effects == b.effects
}

/// A snapshot keeps the whole runtime of a match: put back into any match it makes
/// that match agree with the one it was taken from, leaves there what a snapshot does
/// not keep, and no sounds.
pub proof fn snapshots_keep_the_runtime(
    m: MatchModel,
    into: MatchModel,
    p1_host: Seq<u8>,
    p2_host: Seq<u8>,
)
    ensures
        ({
            let after = SnapshotModel::of(m, p1_host, p2_host).onto(into);
            &&& same_runtime(after, m)
            &&& after.p1 == (PlayerModel { character: after.p1.character, ..into.p1 })
            &&& after.p2 == (PlayerModel { character: after.p2.character, ..into.p2 })
            &&& after.p1.character.entity == into.p1.character.entity
            &&& after.p2.character.entity == into.p2.character.entity
            &&& after.p1.character.size == into.p1.character.size
            &&& after.p2.character.size == into.p2.character.size
            &&& after.flow.single_round == into.flow.single_round
            &&& after.common_fx == into.common_fx
            &&& after.p1_sound_requests.len() == 0 && after.p2_sound_requests.len() == 0
        }),
{
}

/// A snapshot fits exactly the matches of the two characters that it was taken from,
/// each on its own side.
pub proof fn snapshots_fit_their_characters(
    m: MatchModel,
    into: MatchModel,
    p1_host: Seq<u8>,
    p2_host: Seq<u8>,
)
    ensures
        SnapshotModel::of(m, p1_host, p2_host).fits(into) <==> m.p1.loaded.fingerprint
            == into.p1.loaded.fingerprint && m.p2.loaded.fingerprint
            == into.p2.loaded.fingerprint,
{
}

/// A snapshot that does not fit is refused with the first side that it does not fit,
/// its stamp there and the stamp of the match.
pub proof fn mismatches_name_the_side(s: SnapshotModel, m: MatchModel)
    requires
        !s.fits(m),
    ensures
        s.mismatch(m) is Character,
        s.p1_fingerprint != m.p1.loaded.fingerprint ==> s.mismatch(m) == (Mismatch::Character {
            side: Side::P1,
            snapshot: s.p1_fingerprint.0,
            live: m.p1.loaded.fingerprint.0,
        }),
        s.p1_fingerprint == m.p1.loaded.fingerprint ==> s.mismatch(m) == (Mismatch::Character {
            side: Side::P2,
            snapshot: s.p2_fingerprint.0,
            live: m.p2.loaded.fingerprint.0,
        }) && s.p2_fingerprint != m.p2.loaded.fingerprint,
{
}

} // verus!
