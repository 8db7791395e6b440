//! The vocabulary of the round flow: phases, verdicts, sides and seeds.

use vstd::arithmetic::div_mod::{
    lemma_mod_multiples_vanish, lemma_mul_mod_noop_left, lemma_small_mod,
};
use vstd::prelude::*;

verus! {

/// Frames the intro lasts before combat begins.
pub const INTRO_FRAMES: i32 = 60;

/// Frames the knockout hold lasts before the results.
pub const KO_FRAMES: i32 = 90;

/// Default round length in seconds.
pub const DEFAULT_ROUND_SECONDS: i32 = 99;

/// Frames per second.
pub const TICKS_PER_SECOND: i32 = 60;

/// The common state every fighter that defines it enters at the top of a round.
pub const ROUND_INIT_STATE: i32 = 5900;

/// Default number of round wins that win the match: best of three.
pub const DEFAULT_ROUNDS_TO_WIN: i32 = 2;

/// The match seed used when a caller has none of its own. It is fixed, so that
/// the default match plays out the same way every time.
pub const DEFAULT_MATCH_SEED: i32 = 1;

/// One of the two sides of a match.
#[derive(Debug, Clone, Copy, PartialEq, Eq, Structural)]
pub enum Side {
    /// Player 1.
    P1,
    /// Player 2.
    P2,
}

impl Side {
    /// The opposing side.
    pub open spec fn opponent_spec(self) -> Side {
        match self {
            Side::P1 => Side::P2,
            Side::P2 => Side::P1,
        }
    }

    /// The opposing side.
    pub fn opponent(self) -> (r: Side)
        ensures
            r == self.opponent_spec(),
    {
        match self {
            Side::P1 => Side::P2,
            Side::P2 => Side::P1,
        }
    }

    /// The id under which triggers address the side's fighter.
    pub open spec fn player_id_spec(self) -> i32 {
        match self {
            Side::P1 => 1,
            Side::P2 => 2,
        }
    }

    /// The id under which triggers address the side's fighter.
    pub fn player_id(self) -> (r: i32)
        ensures
            r == self.player_id_spec(),
    {
        match self {
            Side::P1 => 1,
            Side::P2 => 2,
        }
    }
}

/// The phase of a round: `Intro`, `Fight`, `Ko`, `Win`, in that order.
#[derive(Debug, Clone, Copy, PartialEq, Eq, Structural)]
pub enum RoundState {
    /// Before the fight; the clock has not started.
    Intro,
    /// Live combat; the clock counts down and hits land.
    Fight,
    /// A knockout or time over has just occurred; a brief hold.
    Ko,
    /// The round is decided.
    Win,
}

impl RoundState {
    /// The phase as the number the `RoundState` trigger reads.
    pub open spec fn code(self) -> i32 {
        match self {
            RoundState::Intro => 0,
            RoundState::Fight => 1,
            RoundState::Ko => 2,
            RoundState::Win => 3,
        }
    }

    /// The phase as the number the `RoundState` trigger reads: 0 in the intro,
    /// 1 in the fight, 2 in the knockout hold, 3 once the round is decided.
    pub fn trigger_code(self) -> (r: i32)
        ensures
            r == self.code(),
    {
        match self {
            RoundState::Intro => 0,
            RoundState::Fight => 1,
            RoundState::Ko => 2,
            RoundState::Win => 3,
        }
    }
}

/// Who won a round, or a match.
#[derive(Debug, Clone, Copy, PartialEq, Eq, Structural)]
pub enum Winner {
    /// Player 1.
    P1,
    /// Player 2.
    P2,
    /// Neither: a double knockout, or equal life at time over.
    Draw,
}

/// Whether the whole match is still being contested.
#[derive(Debug, Clone, Copy, PartialEq, Eq, Structural)]
pub enum MatchState {
    /// More rounds may be played.
    InProgress,
    /// The match is decided. Terminal.
    Over,
}

/// The verdict at time over: more life wins, equal life is a draw.
pub open spec fn verdict_by_life(p1_life: i32, p2_life: i32) -> Winner {
    if p1_life > p2_life {
        Winner::P1
    } else if p1_life < p2_life {
        Winner::P2
    } else {
        Winner::Draw
    }
}

/// Decides a winner by comparing two life totals, as time over does.
pub fn compare_life(p1_life: i32, p2_life: i32) -> (r: Winner)
    ensures
        r == verdict_by_life(p1_life, p2_life),
{
    if p1_life > p2_life {
        Winner::P1
    } else if p1_life < p2_life {
        Winner::P2
    } else {
        Winner::Draw
    }
}

/// The lane that a match seed and a player index are laid out in before mixing.
/// A negative seed enters as its two's complement.
pub open spec fn seed_lane(match_seed: i32, player_index: u32) -> u64 {
    (match_seed as i64 as u64).wrapping_mul(0x9E37_79B9_7F4A_7C15).wrapping_add(
        (player_index as u64).wrapping_mul(0xBF58_476D_1CE4_E5B9),
    )
}

/// The two shift-and-multiply rounds and the last shift that mix a lane.
pub open spec fn mixed(z: u64) -> u64 {
    let a = (z ^ (z >> 30)).wrapping_mul(0xBF58_476D_1CE4_E5B9);
    let b = (a ^ (a >> 27)).wrapping_mul(0x94D0_49BB_1331_11EB);
    b ^ (b >> 31)
}

/// The seed of player `player_index` in a match seeded with `match_seed`: player
/// 0 has the match seed, every other the low half of its mixed lane.
pub open spec fn player_seed(match_seed: i32, player_index: u32) -> i32 {
    if player_index == 0 {
        match_seed
    } else {
        mixed(seed_lane(match_seed, player_index)) as i32
    }
}

/// Derives a player's seed from the match seed: player 0 gets the match seed
/// itself, every other player a mix of the match seed and its index.
pub fn derive_player_seed(match_seed: i32, player_index: u32) -> (r: i32)
    ensures
        r == player_seed(match_seed, player_index),
{
    if player_index == 0 {
        return match_seed;
    }
    let seed: u64 = (match_seed as i64 as u64).wrapping_mul(0x9E37_79B9_7F4A_7C15);
    let index: u64 = (player_index as u64).wrapping_mul(0xBF58_476D_1CE4_E5B9);
    let z: u64 = mix(seed.wrapping_add(index));
    z as i32
}

/// Mixes a lane.
fn mix(z: u64) -> (r: u64)
    ensures
        r == mixed(z),
{
    let a: u64 = (z ^ (z >> 30)).wrapping_mul(0xBF58_476D_1CE4_E5B9);
    let b: u64 = (a ^ (a >> 27)).wrapping_mul(0x94D0_49BB_1331_11EB);
    b ^ (b >> 31)
}

/// Multiplying by an odd number can be undone by multiplying by its inverse.
proof fn product_undone(x: u64, c: u64, inverse: u64, times: int)
    requires
        c * inverse == times * 0x1_0000_0000_0000_0000 + 1,
    ensures
        x.wrapping_mul(c).wrapping_mul(inverse) == x,
{
    let m: int = 0x1_0000_0000_0000_0000;
    let p: int = x * c;
    lemma_mul_mod_noop_left(p, inverse as int, m);
    assert(p * inverse == m * (x * times) + x) by (nonlinear_arith)
        requires
            p == x * c,
            c * inverse == times * m + 1,
    ;
    lemma_mod_multiples_vanish(x * times, x as int, m);
    lemma_small_mod(x as nat, m as nat);
    assert(x.wrapping_mul(c) == p % m);
}

/// The multiplications of the mix lose nothing.
proof fn products_differ(x: u64, y: u64)
    requires
        x != y,
    ensures
        x.wrapping_mul(0xBF58_476D_1CE4_E5B9) != y.wrapping_mul(0xBF58_476D_1CE4_E5B9),
        x.wrapping_mul(0x94D0_49BB_1331_11EB) != y.wrapping_mul(0x94D0_49BB_1331_11EB),
{
    product_undone(x, 0xBF58_476D_1CE4_E5B9, 0x96DE_1B17_3F11_9089, 8125545580553827436);
    product_undone(y, 0xBF58_476D_1CE4_E5B9, 0x96DE_1B17_3F11_9089, 8125545580553827436);
    product_undone(x, 0x94D0_49BB_1331_11EB, 0x3196_42B2_D24D_8EC3, 2077064247507883091);
    product_undone(y, 0x94D0_49BB_1331_11EB, 0x3196_42B2_D24D_8EC3, 2077064247507883091);
}

/// The shifts of the mix lose nothing.
proof fn shifts_differ(x: u64, y: u64)
    by (bit_vector)
    requires
        x != y,
    ensures
        x ^ (x >> 30) != y ^ (y >> 30),
        x ^ (x >> 27) != y ^ (y >> 27),
        x ^ (x >> 31) != y ^ (y >> 31),
{
}

/// Two lanes that differ are mixed into two that differ.
pub proof fn mixing_loses_nothing(x: u64, y: u64)
    requires
        x != y,
    ensures
        mixed(x) != mixed(y),
{
    let c: u64 = 0xBF58_476D_1CE4_E5B9;
    let d: u64 = 0x94D0_49BB_1331_11EB;
    let xa: u64 = (x ^ (x >> 30)).wrapping_mul(c);
    let ya: u64 = (y ^ (y >> 30)).wrapping_mul(c);
    let xb: u64 = (xa ^ (xa >> 27)).wrapping_mul(d);
    let yb: u64 = (ya ^ (ya >> 27)).wrapping_mul(d);
    shifts_differ(x, y);
    products_differ(x ^ (x >> 30), y ^ (y >> 30));
    shifts_differ(xa, ya);
    products_differ(xa ^ (xa >> 27), ya ^ (ya >> 27));
    shifts_differ(xb, yb);
}

/// No two players of a match share a mixed lane, whatever the match seed. A
/// player's seed is the low half of that lane.
pub proof fn players_have_their_own_lanes(match_seed: i32, i: u32, j: u32)
    requires
        i != j,
    ensures
        mixed(seed_lane(match_seed, i)) != mixed(seed_lane(match_seed, j)),
{
    products_differ(i as u64, j as u64);
    mixing_loses_nothing(seed_lane(match_seed, i), seed_lane(match_seed, j));
}

} // verus!
