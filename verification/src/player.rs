//! One side of a match: a fighter, its assets, and what it owns on stage.

use vstd::prelude::*;

use crate::air::{current_frame_clsn, elapsed_before, elapsed_in_action, boxes_of, AirFile, Rect};
use crate::arith::{saturated, saturating_difference};
use crate::character::{Character, CommandSource, Facing, RoundView};
use crate::explod::{self, Explod};
use crate::helper::{self, Helper, HelperBirth, HelperTick};
use crate::input::{
    guards, logical_direction, match_input_to_state, raw_sample, InputState, MatchInput,
};
use crate::projectile::{self, Projectile, ProjectileBirth};
use crate::report::{ExplodOp, ExplodSpawn, HelperSpawn, ProjectileSpawn};
use crate::scalar::{Placement, Scalar, Vec2};
use crate::stage::StageView;

verus! {

/// A stamp of a loaded character, the same for the same character in every run.
#[derive(Debug, Clone, Copy, PartialEq, Eq, Structural)]
pub struct CharacterFingerprint(pub u64);

/// What the coordinator reads of a character's assets.
#[derive(Debug, Clone)]
pub struct LoadedCharacter {
    /// The character's stamp.
    pub fingerprint: CharacterFingerprint,
    /// The numbers of the states it defines.
    pub states: Vec<i32>,
    /// Its animations.
    pub air: AirFile,
}

impl LoadedCharacter {
    /// Whether a state with this number is defined.
    pub open spec fn defines(self, state_no: i32) -> bool {
        self.states@.contains(state_no)
    }

    /// Whether the character defines a state.
    pub fn defines_state(&self, state_no: i32) -> (r: bool)
        ensures
            r == self.defines(state_no),
    {
        let mut i: usize = 0;
        while i < self.states.len()
            invariant
                i <= self.states@.len(),
                forall|k: int| 0 <= k < i ==> self.states@[k] != state_no,
            decreases self.states.len() - i,
        {
            if self.states[i] == state_no {
                assert(self.states@[i as int] == state_no);
                return true;
            }
            i = i + 1;
        }
        false
    }
}

/// The difficulty of the CPU.
#[derive(Debug, Clone, Copy, PartialEq, Eq, Structural)]
pub enum AiDifficulty {
    /// Level 2.
    Easy,
    /// Level 4.
    Normal,
    /// Level 7.
    Hard,
}

/// What drives one side of a match.
#[derive(Debug, Clone, Copy, PartialEq, Eq, Structural)]
pub enum PlayerDriver {
    /// A human.
    Human,
    /// The CPU.
    Cpu(AiDifficulty),
}

impl Default for PlayerDriver {
    fn default() -> (r: PlayerDriver)
        ensures
            r == PlayerDriver::Human,
    {
        PlayerDriver::Human
    }
}

impl PlayerDriver {
    /// The level of a driver.
    pub open spec fn level(self) -> u8 {
        match self {
            PlayerDriver::Human => 0,
            PlayerDriver::Cpu(AiDifficulty::Easy) => 2,
            PlayerDriver::Cpu(AiDifficulty::Normal) => 4,
            PlayerDriver::Cpu(AiDifficulty::Hard) => 7,
        }
    }

    /// The level that the `AILevel` trigger reads: 0 for a human, and for the CPU
    /// a level that grows with its difficulty.
    pub fn ai_level(self) -> (r: u8)
        ensures
            r == self.level(),
    {
        match self {
            PlayerDriver::Human => 0,
            PlayerDriver::Cpu(difficulty) => match difficulty {
                AiDifficulty::Easy => 2,
                AiDifficulty::Normal => 4,
                AiDifficulty::Hard => 7,
            },
        }
    }
}

/// One side of a match.
#[derive(Debug, Clone)]
pub struct Player {
    /// The fighter.
    pub character: Character,
    /// Its assets.
    pub loaded: LoadedCharacter,
    /// The helpers it owns, in the order they were spawned.
    pub helpers: Vec<Helper>,
    /// The projectiles it owns, in the order they were spawned.
    pub projectiles: Vec<Projectile>,
    /// The explods it owns, in the order they were spawned.
    pub explods: Vec<Explod>,
    /// The commands its recogniser matched on the last frame.
    pub just_matched: Vec<String>,
    /// The frame advantage of the attack it landed on the last frame.
    pub frame_advantage: Option<i32>,
}

/// A player, with its lists as sequences.
pub struct PlayerModel {
    /// The fighter.
    pub character: Character,
    /// Its assets.
    pub loaded: LoadedCharacter,
    /// Its helpers.
    pub helpers: Seq<Helper>,
    /// Its projectiles.
    pub projectiles: Seq<Projectile>,
    /// Its explods.
    pub explods: Seq<Explod>,
    /// The commands matched on the last frame.
    pub just_matched: Seq<String>,
    /// The frame advantage of the last frame.
    pub frame_advantage: Option<i32>,
}

impl View for Player {
    type V = PlayerModel;

    open spec fn view(&self) -> PlayerModel {
        PlayerModel {
            character: self.character,
            loaded: self.loaded,
            helpers: self.helpers@,
            projectiles: self.projectiles@,
            explods: self.explods@,
            just_matched: self.just_matched@,
            frame_advantage: self.frame_advantage,
        }
    }
}

/// The entities that a fighter's triggers can reach on its tick.
#[derive(Debug, Clone, PartialEq)]
pub struct RedirectGraph {
    /// Its helpers: id and entity, in order.
    pub helpers: Vec<(i32, u64)>,
    /// The ids of its helpers, in order.
    pub helper_ids: Vec<i32>,
    /// The ids of its projectiles, in order.
    pub proj_ids: Vec<i32>,
    /// The entity it holds as a target, if any.
    pub target: Option<u64>,
    /// The player ids of the targets it holds.
    pub target_ids: Vec<i32>,
    /// Its teammate, if any.
    pub partner: Option<u64>,
    /// The other players: id and entity.
    pub players: Vec<(i32, u64)>,
}

impl RedirectGraph {
    /// Whether this is the graph of `player` against an opponent with the given
    /// player id.
    pub open spec fn is_of(
        self,
        player: PlayerModel,
        opponent_id: i32,
        opponent: Character,
        partner: Option<u64>,
    ) -> bool {
        &&& self.helpers@ == Seq::new(
            player.helpers.len(),
            |i: int| (player.helpers[i].helper_id, player.helpers[i].character.entity),
        )
        &&& self.helper_ids@ == helper_ids(player.helpers)
        &&& self.proj_ids@ == proj_ids(player.projectiles)
        &&& self.target == if player.character.has_target {
            Some(opponent.entity)
        } else {
            None
        }
        &&& self.target_ids@ == if player.character.has_target {
            seq![opponent_id]
        } else {
            Seq::empty()
        }
        &&& self.partner == partner
        &&& self.players@ == seq![(opponent_id, opponent.entity)]
    }
}

/// A player whose projectile `i` flies on, as `c`.
pub open spec fn projectile_kept(p: PlayerModel, i: int, c: Character) -> PlayerModel {
    p.with_projectiles(
        p.projectiles.update(i, Projectile { character: c, ..p.projectiles[i] }),
    )
}

/// A player whose projectile `i` has landed: it is gone, and whom it hit is the
/// fighter's target.
pub open spec fn projectile_spent(p: PlayerModel, i: int) -> PlayerModel {
    p.with_projectiles(p.projectiles.remove(i)).with_character(
        Character { has_target: true, ..p.character },
    )
}

/// The ids of helpers, in order.
pub open spec fn helper_ids(helpers: Seq<Helper>) -> Seq<i32> {
    Seq::new(helpers.len(), |i: int| helpers[i].helper_id)
}

/// The ids of projectiles, in order.
pub open spec fn proj_ids(projectiles: Seq<Projectile>) -> Seq<i32> {
    Seq::new(projectiles.len(), |i: int| projectiles[i].proj_id)
}

/// The helpers of a player that tick on this frame, and what they can read of
/// their owner.
#[derive(Debug, Clone, PartialEq)]
pub struct HelperRun {
    /// The owner, which their `parent` and `root` stand for.
    pub root: Character,
    /// The opponent.
    pub opponent: Character,
    /// The helpers to tick, in order.
    pub helpers: Vec<Helper>,
    /// The ids of all the owner's helpers.
    pub helper_ids: Vec<i32>,
    /// The ids of all the owner's projectiles.
    pub proj_ids: Vec<i32>,
}

impl HelperRun {
    /// Whether this is the helper run of `player` against an opponent.
    pub open spec fn is_of(self, player: PlayerModel, opponent: Character) -> bool {
        &&& self.root == player.character
        &&& self.opponent == opponent
        &&& self.helpers@ == helper::helpers_due(player.helpers)
        &&& self.helper_ids@ == helper_ids(player.helpers)
        &&& self.proj_ids@ == proj_ids(player.projectiles)
    }
}

/// The body of a fighter, as pushing and clamping take it.
#[derive(Debug, Clone, Copy, PartialEq)]
pub struct PushBody {
    /// The axis.
    pub x: Scalar,
    /// Half-width in front.
    pub front: Scalar,
    /// Half-width behind.
    pub back: Scalar,
    /// Which way it faces.
    pub facing: Facing,
    /// Distance from the axis to the left edge.
    pub left_half: Scalar,
    /// Distance from the axis to the right edge.
    pub right_half: Scalar,
}

/// The push half-widths of a fighter, in front and behind: the override of this
/// frame where there is one, else its static size.
pub open spec fn widths(c: Character) -> (Scalar, Scalar) {
    if c.cur_width.active {
        (c.cur_width.front, c.cur_width.back)
    } else {
        (c.size.ground_front, c.size.ground_back)
    }
}

/// The distance from a fighter's axis to its left edge.
pub open spec fn left_half(c: Character) -> Scalar {
    match c.facing {
        Facing::Right => widths(c).1,
        Facing::Left => widths(c).0,
    }
}

/// The distance from a fighter's axis to its right edge.
pub open spec fn right_half(c: Character) -> Scalar {
    match c.facing {
        Facing::Right => widths(c).0,
        Facing::Left => widths(c).1,
    }
}

/// The push body of a fighter.
pub open spec fn body_of(c: Character) -> PushBody {
    PushBody {
        x: c.pos.x,
        front: widths(c).0,
        back: widths(c).1,
        facing: c.facing,
        left_half: left_half(c),
        right_half: right_half(c),
    }
}

/// Stun minus recovery: positive where the attacker recovers first.
pub fn frame_advantage(stun: i32, frames_until_actionable: i32) -> (r: i32)
    ensures
        r == saturated(stun - frames_until_actionable),
{
    saturating_difference(stun, frames_until_actionable)
}

/// The frame advantage of a landed attack: the defender's stun minus what is left
/// of the attacker's move. There is none where the attacker's action is missing
/// or has no frame count (`move_total`).
pub open spec fn advantage(
    attacker: PlayerModel,
    move_total: Option<i32>,
    stun: i32,
) -> Option<i32> {
    let air = attacker.loaded.air;
    let c = attacker.character;
    if !air@.dom().contains(c.anim) {
        None
    } else {
        match move_total {
            None => None,
            Some(total) => {
                let elapsed = elapsed_before(air.frames_of(c.anim), c.anim_elem);
                let left = if elapsed < total {
                    total - elapsed
                } else {
                    0
                };
                Some(saturated(stun - left))
            },
        }
    }
}

/// The boxes and stances of an attack against a defender, for the host to test.
#[derive(Debug, Clone, PartialEq)]
pub struct ContactProbe {
    /// The attack boxes the attacker shows.
    pub attack: Vec<Rect>,
    /// The attacker's position.
    pub attacker_pos: Vec2,
    /// The attacker's facing.
    pub attacker_facing: Facing,
    /// The hurt boxes the defender shows.
    pub hurt: Vec<Rect>,
    /// The defender's position.
    pub defender_pos: Vec2,
    /// The defender's facing.
    pub defender_facing: Facing,
}

/// The attack boxes a player shows.
pub open spec fn attack_boxes(p: PlayerModel) -> Seq<Rect> {
    boxes_of(p.loaded.air.frames_of(p.character.anim), p.character.anim_elem, true)
}

/// The hurt boxes a player shows.
pub open spec fn hurt_boxes(p: PlayerModel) -> Seq<Rect> {
    boxes_of(p.loaded.air.frames_of(p.character.anim), p.character.anim_elem, false)
}

/// Whether an attack can make contact at all: there is a box on either side.
pub open spec fn may_touch(attacker: PlayerModel, defender: PlayerModel) -> bool {
    attack_boxes(attacker).len() > 0 && hurt_boxes(defender).len() > 0
}

impl ContactProbe {
    /// Whether this is the probe of one player's attack against another.
    pub open spec fn is_of(self, attacker: PlayerModel, defender: PlayerModel) -> bool {
        &&& self.attack@ == attack_boxes(attacker)
        &&& self.attacker_pos == attacker.character.pos
        &&& self.attacker_facing == attacker.character.facing
        &&& self.hurt@ == hurt_boxes(defender)
        &&& self.defender_pos == defender.character.pos
        &&& self.defender_facing == defender.character.facing
    }
}

/// The probe of `attacker`'s current attack boxes against `defender`'s hurt
/// boxes; `None` where one of them shows no box, so that there is no contact.
pub fn directional_contact(attacker: &Player, defender: &Player) -> (r: Option<ContactProbe>)
    ensures
        r is Some == may_touch(attacker@, defender@),
        r matches Some(probe) ==> probe.is_of(attacker@, defender@),
{
    let attack = current_frame_clsn(
        &attacker.loaded.air,
        attacker.character.anim,
        attacker.character.anim_elem,
        true,
    );
    let hurt = current_frame_clsn(
        &defender.loaded.air,
        defender.character.anim,
        defender.character.anim_elem,
        false,
    );
    if attack.len() == 0 || hurt.len() == 0 {
        return None;
    }
    Some(
        ContactProbe {
            attack,
            attacker_pos: attacker.character.pos,
            attacker_facing: attacker.character.facing,
            hurt,
            defender_pos: defender.character.pos,
            defender_facing: defender.character.facing,
        },
    )
}

/// The frame advantage of an attack that `attacker` has just landed.
/// `move_total` is the frame count of its current action, where that is an
/// attack that can be counted.
pub fn compute_frame_advantage(attacker: &Player, move_total: Option<i32>, stun: i32) -> (r: Option<
    i32,
>)
    ensures
        r == advantage(attacker@, move_total, stun),
{
    match attacker.loaded.air.action(attacker.character.anim) {
        None => None,
        Some(action) => match move_total {
            None => None,
            Some(total) => {
                let elapsed: i32 = elapsed_in_action(action, attacker.character.anim_elem);
                let left: i32 = if elapsed < total {
                    total - elapsed
                } else {
                    0
                };
                Some(frame_advantage(stun, left))
            },
        },
    }
}

impl Player {
    /// Makes a side of a match of a fighter and its assets. It owns nothing yet.
    pub fn new(character: Character, loaded: LoadedCharacter) -> (r: Player)
        ensures
            r@ == (PlayerModel {
                character,
                loaded,
                helpers: Seq::empty(),
                projectiles: Seq::empty(),
                explods: Seq::empty(),
                just_matched: Seq::empty(),
                frame_advantage: None,
            }),
    {
        let p = Player {
            character,
            loaded,
            helpers: Vec::new(),
            projectiles: Vec::new(),
            explods: Vec::new(),
            just_matched: Vec::new(),
            frame_advantage: None,
        };
        assert(p.helpers@ =~= Seq::empty());
        assert(p.projectiles@ =~= Seq::empty());
        assert(p.explods@ =~= Seq::empty());
        assert(p.just_matched@ =~= Seq::empty());
        p
    }

    /// The frame advantage of the attack this player landed on the last frame,
    /// if it landed one whose advantage is known.
    pub fn frame_advantage(&self) -> (r: Option<i32>)
        ensures
            r == self@.frame_advantage,
    {
        self.frame_advantage
    }

    /// The helpers this player owns, in the order they were spawned.
    pub fn helpers(&self) -> (r: &Vec<Helper>)
        ensures
            r@ == self@.helpers,
    {
        &self.helpers
    }

    /// The projectiles this player owns, in the order they were spawned.
    pub fn projectiles(&self) -> (r: &Vec<Projectile>)
        ensures
            r@ == self@.projectiles,
    {
        &self.projectiles
    }

    /// The explods this player owns, in the order they were spawned.
    pub fn explods(&self) -> (r: &Vec<Explod>)
        ensures
            r@ == self@.explods,
    {
        &self.explods
    }

    /// The commands the player's recogniser matched on the last frame; none where no
    /// input was read on it.
    pub fn just_matched_commands(&self) -> (r: &Vec<String>)
        ensures
            r@ == self@.just_matched,
    {
        &self.just_matched
    }

    /// World position.
    pub fn pos(&self) -> (r: Vec2)
        ensures
            r == self@.character.pos,
    {
        self.character.pos
    }

    /// Facing.
    pub fn facing(&self) -> (r: Facing)
        ensures
            r == self@.character.facing,
    {
        self.character.facing
    }

    /// Current action.
    pub fn anim(&self) -> (r: i32)
        ensures
            r == self@.character.anim,
    {
        self.character.anim
    }

    /// Zero-based frame of the current action.
    pub fn anim_elem(&self) -> (r: i32)
        ensures
            r == self@.character.anim_elem,
    {
        self.character.anim_elem
    }

    /// Life.
    pub fn life(&self) -> (r: i32)
        ensures
            r == self@.character.life,
    {
        self.character.life
    }

    /// Maximum life.
    pub fn life_max(&self) -> (r: i32)
        ensures
            r == self@.character.life_max,
    {
        self.character.life_max
    }

    /// Power. It carries across the rounds of a match.
    pub fn power(&self) -> (r: i32)
        ensures
            r == self@.character.power,
    {
        self.character.power
    }

    /// Maximum power.
    pub fn power_max(&self) -> (r: i32)
        ensures
            r == self@.character.power_max,
    {
        self.character.power_max
    }

    /// The stamp of the loaded character.
    pub fn fingerprint(&self) -> (r: CharacterFingerprint)
        ensures
            r == self@.loaded.fingerprint,
    {
        self.loaded.fingerprint
    }

    /// The push half-widths, in front and behind.
    pub fn push_widths(&self) -> (r: (Scalar, Scalar))
        ensures
            r == widths(self@.character),
    {
        let w = self.character.cur_width;
        if w.active {
            (w.front, w.back)
        } else {
            (self.character.size.ground_front, self.character.size.ground_back)
        }
    }

    /// The distance from the axis to the left edge of the body.
    pub fn push_body_left_half(&self) -> (r: Scalar)
        ensures
            r == left_half(self@.character),
    {
        let (front, back) = self.push_widths();
        match self.character.facing {
            Facing::Right => back,
            Facing::Left => front,
        }
    }

    /// The distance from the axis to the right edge of the body.
    pub fn push_body_right_half(&self) -> (r: Scalar)
        ensures
            r == right_half(self@.character),
    {
        let (front, back) = self.push_widths();
        match self.character.facing {
            Facing::Right => front,
            Facing::Left => back,
        }
    }

    /// The body, as pushing and clamping take it.
    pub fn push_body(&self) -> (r: PushBody)
        ensures
            r == body_of(self@.character),
    {
        let (front, back) = self.push_widths();
        PushBody {
            x: self.character.pos.x,
            front,
            back,
            facing: self.character.facing,
            left_half: self.push_body_left_half(),
            right_half: self.push_body_right_half(),
        }
    }

    /// Drops what the frame before has left to show: the commands just matched and
    /// the frame advantage.
    pub fn clear_readouts(&mut self)
        ensures
            final(self)@ == old(self)@.unread(),
    {
        self.just_matched = Vec::new();
        self.frame_advantage = None;
        assert(self.just_matched@ =~= Seq::empty());
    }

    /// Takes everything that the player owns off the stage.
    pub fn leave_stage(&mut self)
        ensures
            final(self)@ == old(self)@.alone(),
    {
        self.helpers = Vec::new();
        self.projectiles = Vec::new();
        self.explods = Vec::new();
        assert(self.helpers@ =~= Seq::empty());
        assert(self.projectiles@ =~= Seq::empty());
        assert(self.explods@ =~= Seq::empty());
    }

    /// Takes an input for the next tick: whether it blocks is read off against the
    /// current facing, and the fighter's commands are those recognised in it.
    /// Returns the raw sample for the recogniser.
    pub fn feed_input(&mut self, input: MatchInput) -> (r: InputState)
        ensures
            r == raw_sample(input),
            final(self)@ == old(self)@.fed(input),
    {
        let raw = match_input_to_state(input);
        let facing_right = self.character.facing == Facing::Right;
        let logical = logical_direction(&raw.direction, facing_right);
        self.character.holding_back = logical.back && !logical.forward;
        self.character.commands = CommandSource::Recognised;
        raw
    }

    /// Prepares the fighter for a tick on its own, off the active stage: no input
    /// drives it.
    pub fn tick_standalone(&mut self)
        ensures
            final(self)@ == old(self)@.with_character(
                Character { commands: CommandSource::NoCommands, ..old(self)@.character },
            ),
    {
        self.character.commands = CommandSource::NoCommands;
    }

    /// Gives the fighter a clock to read.
    pub fn set_round_view(&mut self, view: RoundView)
        ensures
            final(self)@ == old(self)@.with_character(
                Character { round_view: view, ..old(self)@.character },
            ),
    {
        self.character.round_view = view;
    }

    /// Puts another state of projectile `i` in place.
    pub fn set_projectile(&mut self, i: usize, c: Character)
        requires
            i < old(self)@.projectiles.len(),
        ensures
            final(self)@ == projectile_kept(old(self)@, i as int, c),
    {
        let mut projectile = self.projectiles[i];
        projectile.character = c;
        self.projectiles.set(i, projectile);
    }

    /// Takes out projectile `i`, which has landed. The fighter holds whom it hit
    /// as a target.
    pub fn spend_projectile(&mut self, i: usize) -> (r: Projectile)
        requires
            i < old(self)@.projectiles.len(),
        ensures
            final(self)@ == projectile_spent(old(self)@, i as int),
            r == old(self)@.projectiles[i as int],
    {
        self.character.has_target = true;
        self.projectiles.remove(i)
    }

    /// The ids of the helpers, in order.
    fn helper_id_list(&self) -> (r: Vec<i32>)
        ensures
            r@ == helper_ids(self@.helpers),
    {
        let mut ids: Vec<i32> = Vec::new();
        let mut i: usize = 0;
        while i < self.helpers.len()
            invariant
                i <= self.helpers@.len(),
                ids@.len() == i,
                forall|k: int| 0 <= k < i ==> #[trigger] ids@[k] == self.helpers@[k].helper_id,
            decreases self.helpers.len() - i,
        {
            ids.push(self.helpers[i].helper_id);
            i = i + 1;
        }
        assert(ids@ =~= helper_ids(self@.helpers));
        ids
    }

    /// The ids of the projectiles, in order.
    fn proj_id_list(&self) -> (r: Vec<i32>)
        ensures
            r@ == proj_ids(self@.projectiles),
    {
        let mut ids: Vec<i32> = Vec::new();
        let mut i: usize = 0;
        while i < self.projectiles.len()
            invariant
                i <= self.projectiles@.len(),
                ids@.len() == i,
                forall|k: int| 0 <= k < i ==> #[trigger] ids@[k] == self.projectiles@[k].proj_id,
            decreases self.projectiles.len() - i,
        {
            ids.push(self.projectiles[i].proj_id);
            i = i + 1;
        }
        assert(ids@ =~= proj_ids(self@.projectiles));
        ids
    }

    /// The entities that the fighter's triggers can reach on its tick. The
    /// opponent is its target once it has hit it, and always reachable by id.
    pub fn redirect_graph(
        &self,
        opponent_id: i32,
        opponent: &Character,
        partner: Option<u64>,
    ) -> (r: RedirectGraph)
        ensures
            r.is_of(self@, opponent_id, *opponent, partner),
    {
        let mut helpers: Vec<(i32, u64)> = Vec::new();
        let mut i: usize = 0;
        while i < self.helpers.len()
            invariant
                i <= self.helpers@.len(),
                helpers@.len() == i,
                forall|k: int|
                    0 <= k < i ==> #[trigger] helpers@[k] == (
                        self.helpers@[k].helper_id,
                        self.helpers@[k].character.entity,
                    ),
            decreases self.helpers.len() - i,
        {
            helpers.push((self.helpers[i].helper_id, self.helpers[i].character.entity));
            i = i + 1;
        }
        let mut target_ids: Vec<i32> = Vec::new();
        let mut target: Option<u64> = None;
        if self.character.has_target {
            target = Some(opponent.entity);
            target_ids.push(opponent_id);
        }
        let mut players: Vec<(i32, u64)> = Vec::new();
        players.push((opponent_id, opponent.entity));
        let graph = RedirectGraph {
            helpers,
            helper_ids: self.helper_id_list(),
            proj_ids: self.proj_id_list(),
            target,
            target_ids,
            partner,
            players,
        };
        proof {
            assert(graph.helpers@ =~= Seq::new(
                self@.helpers.len(),
                |i: int| (self@.helpers[i].helper_id, self@.helpers[i].character.entity),
            ));
            assert(graph.target_ids@ =~= if self@.character.has_target {
                seq![opponent_id]
            } else {
                Seq::empty()
            });
            assert(graph.players@ =~= seq![(opponent_id, opponent.entity)]);
        }
        graph
    }

    /// The helpers to make for `spawns`.
    pub fn plan_helpers(
        &self,
        spawns: &Vec<HelperSpawn>,
        opponent_x: Scalar,
        stage: StageView,
    ) -> (r: Vec<HelperBirth>)
        ensures
            r@ == self@.helper_births(spawns@, opponent_x, stage),
    {
        helper::plan_helpers(&self.character, self.helpers.len(), spawns, opponent_x, stage)
    }

    /// Takes in the helpers that the host made for `spawns`.
    pub fn spawn_helpers(&mut self, spawns: &Vec<HelperSpawn>, born: &Vec<Character>)
        requires
            born@.len() <= spawns@.len(),
        ensures
            final(self)@ == old(self)@.with_helpers(
                helper::helpers_spawned(old(self)@.helpers, spawns@, born@),
            ),
    {
        helper::spawn_helpers(&mut self.helpers, spawns, born);
    }

    /// The helpers that tick on this frame, and what they can read.
    pub fn helper_run(&self, opponent: &Character) -> (r: HelperRun)
        ensures
            r.is_of(self@, *opponent),
    {
        HelperRun {
            root: self.character,
            opponent: *opponent,
            helpers: helper::due_helpers(&self.helpers),
            helper_ids: self.helper_id_list(),
            proj_ids: self.proj_id_list(),
        }
    }

    /// Takes in what became of the helpers that were due on this frame. Those
    /// whose life ran out, or that asked for it, are gone.
    pub fn tick_helpers(&mut self, ticks: &Vec<HelperTick>)
        requires
            ticks@.len() == helper::helpers_due(old(self)@.helpers).len(),
        ensures
            final(self)@ == old(self)@.with_helpers(
                helper::helpers_kept(helper::helpers_due(old(self)@.helpers), ticks@),
            ),
    {
        let due = helper::due_helpers(&self.helpers);
        self.helpers = helper::keep_helpers(&due, ticks);
    }

    /// The projectiles to make for `spawns`.
    pub fn plan_projectiles(&self, spawns: &Vec<ProjectileSpawn>) -> (r: Vec<ProjectileBirth>)
        ensures
            r@ == self@.projectile_births(spawns@),
    {
        projectile::plan_projectiles(&self.character, self.projectiles.len(), spawns)
    }

    /// Takes in the projectiles that the host made for `spawns`.
    pub fn spawn_projectiles(&mut self, spawns: &Vec<ProjectileSpawn>, made: &Vec<Character>)
        requires
            made@.len() <= spawns@.len(),
        ensures
            final(self)@ == old(self)@.with_projectiles(
                projectile::projectiles_spawned(
                    old(self)@.projectiles,
                    old(self)@.character,
                    spawns@,
                    made@,
                ),
            ),
    {
        projectile::spawn_projectiles(&mut self.projectiles, &self.character, spawns, made);
    }

    /// The steps that the projectiles take on this frame.
    pub fn projectile_steps(&self) -> (r: Vec<Placement>)
        ensures
            r@ == projectile::steps_of(projectile::projectiles_due(self@.projectiles)),
    {
        projectile::plan_steps(&projectile::due_projectiles(&self.projectiles))
    }

    /// Takes in where the projectiles have arrived. Those whose life ran out, or
    /// that are no longer within `[left, right]`, are gone.
    pub fn tick_projectiles(&mut self, moved: &Vec<Vec2>, left: Scalar, right: Scalar)
        requires
            moved@.len() == projectile::projectiles_due(old(self)@.projectiles).len(),
        ensures
            final(self)@ == old(self)@.with_projectiles(
                projectile::projectiles_moved(
                    projectile::projectiles_due(old(self)@.projectiles),
                    moved@,
                    old(self)@.loaded.air,
                    left,
                    right,
                ),
            ),
    {
        let due = projectile::due_projectiles(&self.projectiles);
        self.projectiles = projectile::move_projectiles(&due, moved, &self.loaded.air, left, right);
    }

    /// Spawns the explods that the fighter asks for.
    pub fn spawn_explods(
        &mut self,
        spawns: &Vec<ExplodSpawn>,
        owner_id: i32,
        opponent_x: Scalar,
        stage: StageView,
    )
        ensures
            final(self)@ == old(self)@.with_explods(
                explod::explods_spawned(
                    old(self)@.explods,
                    old(self)@.character,
                    old(self)@.loaded.air,
                    spawns@,
                    owner_id,
                    opponent_x,
                    stage,
                ),
            ),
    {
        explod::spawn_explods(
            &mut self.explods,
            &self.character,
            &self.loaded.air,
            spawns,
            owner_id,
            opponent_x,
            stage,
        );
    }

    /// Changes or removes explods, operation by operation.
    pub fn apply_explod_ops(&mut self, ops: &Vec<ExplodOp>)
        ensures
            final(self)@ == old(self)@.with_explods(
                explod::after_explod_ops(old(self)@.explods, ops@),
            ),
    {
        explod::apply_explod_ops(&mut self.explods, ops);
    }

    /// Moves the explods one tick on and drops those that go.
    pub fn tick_explods(
        &mut self,
        owner_pos: Vec2,
        owner_facing: Facing,
        opponent_x: Scalar,
        stage: StageView,
    )
        ensures
            final(self)@ == old(self)@.with_explods(
                explod::explods_ticked(
                    old(self)@.explods,
                    old(self)@.loaded.air,
                    owner_pos,
                    owner_facing,
                    opponent_x,
                    stage,
                ),
            ),
    {
        self.explods = explod::tick_explods(
            &self.explods,
            &self.loaded.air,
            owner_pos,
            owner_facing,
            opponent_x,
            stage,
        );
    }
}

impl PlayerModel {
    /// The player with another fighter state.
    pub open spec fn with_character(self, character: Character) -> PlayerModel {
        PlayerModel { character, ..self }
    }

    /// The player with other helpers.
    pub open spec fn with_helpers(self, helpers: Seq<Helper>) -> PlayerModel {
        PlayerModel { helpers, ..self }
    }

    /// The player with other projectiles.
    pub open spec fn with_projectiles(self, projectiles: Seq<Projectile>) -> PlayerModel {
        PlayerModel { projectiles, ..self }
    }

    /// The player with other explods.
    pub open spec fn with_explods(self, explods: Seq<Explod>) -> PlayerModel {
        PlayerModel { explods, ..self }
    }

    /// The player with nothing to show of a frame: no commands just matched and no
    /// frame advantage.
    pub open spec fn unread(self) -> PlayerModel {
        PlayerModel { just_matched: Seq::empty(), frame_advantage: None, ..self }
    }

    /// The player with nothing of its own on stage: no helpers, projectiles or
    /// explods.
    pub open spec fn alone(self) -> PlayerModel {
        PlayerModel {
            helpers: Seq::empty(),
            projectiles: Seq::empty(),
            explods: Seq::empty(),
            ..self
        }
    }

    /// The player after it has taken an input.
    pub open spec fn fed(self, input: MatchInput) -> PlayerModel {
        self.with_character(
            Character {
                holding_back: guards(input, self.character.facing == Facing::Right),
                commands: CommandSource::Recognised,
                ..self.character
            },
        )
    }

    /// The helpers to make for `spawns`.
    pub open spec fn helper_births(
        self,
        spawns: Seq<HelperSpawn>,
        opponent_x: Scalar,
        stage: StageView,
    ) -> Seq<HelperBirth> {
        helper::helper_births(self.character, self.helpers.len(), spawns, opponent_x, stage)
    }

    /// The projectiles to make for `spawns`.
    pub open spec fn projectile_births(self, spawns: Seq<ProjectileSpawn>) -> Seq<ProjectileBirth> {
        projectile::projectile_births(self.character, self.projectiles.len(), spawns)
    }

    /// Whether the player owns no more than it may.
    pub open spec fn within_caps(self) -> bool {
        &&& self.helpers.len() <= helper::MAX_HELPERS_PER_PLAYER
        &&& self.projectiles.len() <= projectile::MAX_PROJECTILES_PER_PLAYER
        &&& self.explods.len() <= explod::MAX_EXPLODS_PER_PLAYER
    }
}

/// A human has no level, and the level of the CPU grows with its difficulty, from at
/// least 1 to at most 8.
pub proof fn levels_grow_with_difficulty()
    ensures
        PlayerDriver::Human.level() == 0,
        1 <= PlayerDriver::Cpu(AiDifficulty::Easy).level(),
        PlayerDriver::Cpu(AiDifficulty::Easy).level() < PlayerDriver::Cpu(
            AiDifficulty::Normal,
        ).level(),
        PlayerDriver::Cpu(AiDifficulty::Normal).level() < PlayerDriver::Cpu(
            AiDifficulty::Hard,
        ).level(),
        PlayerDriver::Cpu(AiDifficulty::Hard).level() <= 8,
{
}

} // verus!
