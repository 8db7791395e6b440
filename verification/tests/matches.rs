use std::collections::HashMap;
use std::ops::{Deref, DerefMut};

use fp_engine::{
    advance_projectile_frame, apply_target_op, compare_life, compute_frame_advantage,
    current_frame_clsn, derive_player_seed, directional_contact, elapsed_in_action,
    effect_lifetime, face_each_other_when_neutral, facing_opposite, facings_toward,
    frame_advantage, hit_sound_request, is_neutral_facing_state, replay_match, AiDifficulty,
    AirFile, AnimAction, AnimFrame, BodySize, Character, CharacterFingerprint, CharacterSnapshot,
    ClashOutcome, CommandSource, ContactProbe, EffectSide, ExplodSpawn, Facing, FpError, Frame,
    FreezeKind, FreezeRequest, HelperSpawn, HelperTick, HitDef, Landed, LoadedCharacter, Match,
    MatchInput, MatchRecorder, MatchState, Mismatch, MoveType, Offset, Orders, Placement, Player,
    PlayerDriver, PosType, Priority, PriorityType, ProjectileSpawn, PushBody, Rect, RedirectGraph,
    ReplayError, ReplayLog, Reply, Request, RoundState, RoundView, Scalar, Side, SoundId,
    SoundRequest, SparkSource, SpriteId, StageBounds, StageView, StateType, TargetOp, TargetWork,
    TickReport, TrainingPlayback, TrainingRecorder, TrainingRecording, Vec2, WidthOverride, Winner,
    DEFAULT_MATCH_SEED, DEFAULT_ROUNDS_TO_WIN, DEFAULT_ROUND_SECONDS, INTRO_FRAMES, KO_FRAMES,
    MAX_HELPERS_PER_PLAYER, MAX_PROJECTILES_PER_PLAYER, RECORDING_FORMAT_VERSION,
    ROUND_INIT_STATE, TICKS_PER_SECOND,
};

// ---- numbers ---------------------------------------------------------------

trait Float {
    fn f(self) -> f32;
}

impl Float for Scalar {
    fn f(self) -> f32 {
        f32::from_bits(self.bits)
    }
}

fn sc(x: f32) -> Scalar {
    Scalar { bits: x.to_bits() }
}

fn vec2(x: f32, y: f32) -> Vec2 {
    Vec2 { x: sc(x), y: sc(y) }
}

fn sum(p: Placement) -> Vec2 {
    vec2(
        p.anchor.x.f() + p.shift.x.f(),
        p.anchor.y.f() + p.shift.y.f(),
    )
}

fn bounds(left: f32, right: f32) -> StageBounds {
    StageBounds::new(sc(left), sc(right))
}

fn rect(x: f32, y: f32, w: f32, h: f32) -> Rect {
    Rect {
        x: sc(x),
        y: sc(y),
        w: sc(w),
        h: sc(h),
    }
}

// ---- a host that plays the part of the full engine --------------------------

/// What the host keeps of an entity beside the mirrored part.
#[derive(Clone, PartialEq, Debug)]
struct Full {
    vars: [i32; 60],
    rng: i32,
    seeded: i32,
    contacts: HashMap<i32, (i32, i32, i32)>,
}

impl Full {
    fn new() -> Self {
        Full {
            vars: [0; 60],
            rng: 1,
            seeded: 0,
            contacts: HashMap::new(),
        }
    }

    fn random(&mut self) -> i32 {
        self.rng = ((self.rng as i64 * 16807) % 2147483647) as i32;
        self.rng % 1000
    }

    fn save(&self) -> Vec<u8> {
        let mut out = Vec::new();
        for v in self.vars {
            out.extend_from_slice(&v.to_le_bytes());
        }
        out.extend_from_slice(&self.rng.to_le_bytes());
        out.extend_from_slice(&self.seeded.to_le_bytes());
        out
    }

    fn load(&mut self, bytes: &[u8]) {
        let word = |i: usize| {
            i32::from_le_bytes([
                bytes[4 * i],
                bytes[4 * i + 1],
                bytes[4 * i + 2],
                bytes[4 * i + 3],
            ])
        };
        for i in 0..60 {
            self.vars[i] = word(i);
        }
        self.rng = word(60);
        self.seeded = word(61);
    }
}

/// One tick of an entity.
struct Tick<'a> {
    c: &'a mut Character,
    full: &'a mut Full,
    opponent: Character,
    graph: Option<RedirectGraph>,
    run_ids: (Vec<i32>, Vec<i32>),
    sounds: Vec<SoundRequest>,
    orders: Orders,
    destroy_self: bool,
}

type Script = Box<dyn FnMut(&mut Tick)>;

fn idle() -> Script {
    Box::new(|_| {})
}

/// A fully specified attack, packed into the handle that a fighter carries.
#[derive(Clone, Copy)]
struct Attack {
    hit: u64,
    guard: u64,
    hit_stun: u64,
    guard_stun: u64,
    p1stateno: Option<i32>,
    p2stateno: Option<i32>,
    hitsound: Option<SoundId>,
    guardsound: Option<SoundId>,
    sparkno: i32,
    priority: Priority,
}

fn hit_sound() -> SoundId {
    SoundId {
        group: 5,
        sample: 0,
        common: false,
    }
}

fn guard_sound() -> SoundId {
    SoundId {
        group: 6,
        sample: 1,
        common: true,
    }
}

fn classify(sparkno: i32) -> SparkSource {
    if sparkno == -1 {
        SparkSource::NoSpark
    } else if sparkno < 0 {
        SparkSource::Own { anim: -sparkno }
    } else {
        SparkSource::Common { anim: sparkno }
    }
}

impl Attack {
    fn def(self) -> HitDef {
        let state = |s: Option<i32>| match s {
            Some(n) => n as u64 + 1,
            None => 0,
        };
        let mut sounds = 0;
        if self.hitsound.is_some() {
            sounds += 1;
        }
        if self.guardsound.is_some() {
            sounds += 2;
        }
        HitDef {
            attack: self.hit
                | self.guard << 10
                | self.hit_stun << 16
                | self.guard_stun << 24
                | state(self.p1stateno) << 30
                | state(self.p2stateno) << 44
                | sounds << 58,
            priority: self.priority,
            spark: classify(self.sparkno),
        }
    }

    fn of(h: HitDef) -> Attack {
        let state = |s: u64| if s == 0 { None } else { Some(s as i32 - 1) };
        let a = h.attack;
        let sounds = a >> 58;
        Attack {
            hit: a & 0x3ff,
            guard: (a >> 10) & 0x3f,
            hit_stun: (a >> 16) & 0xff,
            guard_stun: (a >> 24) & 0x3f,
            p1stateno: state((a >> 30) & 0x3fff),
            p2stateno: state((a >> 44) & 0x3fff),
            hitsound: if sounds & 1 != 0 { Some(hit_sound()) } else { None },
            guardsound: if sounds & 2 != 0 {
                Some(guard_sound())
            } else {
                None
            },
            sparkno: -1,
            priority: h.priority,
        }
    }
}

fn sample_hitdef() -> Attack {
    Attack {
        hit: 30,
        guard: 5,
        hit_stun: 12,
        guard_stun: 8,
        p1stateno: None,
        p2stateno: None,
        hitsound: None,
        guardsound: None,
        sparkno: -1,
        priority: Priority {
            value: 4,
            kind: PriorityType::Hit,
        },
    }
}

fn edges(r: &Rect, pos: Vec2, facing: Facing) -> (f32, f32, f32, f32) {
    let (x, y, w, h) = (r.x.f(), r.y.f(), r.w.f(), r.h.f());
    let (l, r) = match facing {
        Facing::Right => (x, x + w),
        Facing::Left => (-(x + w), -x),
    };
    (
        pos.x.f() + l,
        pos.x.f() + r,
        pos.y.f() + y,
        pos.y.f() + y + h,
    )
}

fn overlap(p: &ContactProbe) -> Option<Vec2> {
    for a in &p.attack {
        for d in &p.hurt {
            let (al, ar, at, ab) = edges(a, p.attacker_pos, p.attacker_facing);
            let (dl, dr, dt, db) = edges(d, p.defender_pos, p.defender_facing);
            let (l, r) = (al.max(dl), ar.min(dr));
            let (t, b) = (at.max(dt), ab.min(db));
            if l < r && t < b {
                return Some(vec2((l + r) / 2.0, (t + b) / 2.0));
            }
        }
    }
    None
}

fn move_total(air: &AirFile, anim: i32) -> Option<i32> {
    let action = air.actions.get(&anim)?;
    if action.frames.iter().all(|f| f.clsn1.is_empty()) {
        return None;
    }
    if action.frames.iter().any(|f| f.ticks <= 0) {
        return None;
    }
    Some(action.frames.iter().map(|f| f.ticks).sum())
}

fn push_apart(a: &PushBody, b: &PushBody, left: f32, right: f32) -> (f32, f32) {
    let (mut ax, mut bx) = (a.x.f(), b.x.f());
    let l = (ax - a.left_half.f()).max(bx - b.left_half.f());
    let r = (ax + a.right_half.f()).min(bx + b.right_half.f());
    if r > l {
        let half = (r - l) / 2.0;
        if ax <= bx {
            ax -= half;
            bx += half;
        } else {
            ax += half;
            bx -= half;
        }
    }
    let clamp = |x: f32, lh: f32, rh: f32| {
        let x = if x + rh > right { right - rh } else { x };
        if x - lh < left {
            left + lh
        } else {
            x
        }
    };
    (
        clamp(ax, a.left_half.f(), a.right_half.f()),
        clamp(bx, b.left_half.f(), b.right_half.f()),
    )
}

struct Host {
    next: u64,
    full: HashMap<u64, Full>,
    airs: (AirFile, AirFile),
    scripts: (Script, Script),
    helper_scripts: (Script, Script),
    being_hit_states: Vec<i32>,
    clashes: u32,
    attacks: u32,
    fed: Vec<(bool, bool)>,
    births: Vec<u64>,
}

impl Host {
    fn new(p1: &Player, p2: &Player) -> Self {
        Host {
            next: 100,
            full: HashMap::new(),
            airs: (p1.loaded.air.clone(), p2.loaded.air.clone()),
            scripts: (idle(), idle()),
            helper_scripts: (idle(), idle()),
            being_hit_states: Vec::new(),
            clashes: 0,
            attacks: 0,
            fed: Vec::new(),
            births: Vec::new(),
        }
    }

    fn entity(&mut self, entity: u64) -> &mut Full {
        self.full.entry(entity).or_insert_with(Full::new)
    }

    fn air(&self, side: Side) -> &AirFile {
        match side {
            Side::P1 => &self.airs.0,
            Side::P2 => &self.airs.1,
        }
    }

    fn enter(&mut self, c: &mut Character, state_no: i32) {
        c.prev_state_no = c.state_no;
        c.state_no = state_no;
        c.state_time = 0;
        if self.being_hit_states.contains(&state_no) {
            c.move_type = MoveType::BeingHit;
        }
    }

    fn run(
        &mut self,
        side: Side,
        helper: bool,
        mut c: Character,
        opponent: Character,
        graph: Option<RedirectGraph>,
        run_ids: (Vec<i32>, Vec<i32>),
    ) -> (Character, TickReport, bool) {
        let mut full = self.full.remove(&c.entity).unwrap_or_else(Full::new);
        if full.seeded != c.rng_seed {
            full.seeded = c.rng_seed;
            full.rng = ((c.rng_seed as i64).rem_euclid(2147483646) + 1) as i32;
        }
        let mut tick = Tick {
            c: &mut c,
            full: &mut full,
            opponent,
            graph,
            run_ids,
            sounds: Vec::new(),
            orders: Orders::none(),
            destroy_self: false,
        };
        let script = match (side, helper) {
            (Side::P1, false) => &mut self.scripts.0,
            (Side::P2, false) => &mut self.scripts.1,
            (Side::P1, true) => &mut self.helper_scripts.0,
            (Side::P2, true) => &mut self.helper_scripts.1,
        };
        script(&mut tick);
        let report = TickReport {
            sound_requests: tick.sounds,
            orders: tick.orders,
        };
        let destroy = tick.destroy_self;
        c.state_time += 1;
        self.full.insert(c.entity, full);
        (c, report, destroy)
    }

    fn resolve(
        &self,
        attacker: &mut Character,
        attacker_air: &AirFile,
        defender: &mut Character,
        defender_air: &AirFile,
    ) -> Option<(Landed, bool)> {
        let def = attacker.active_hitdef?;
        if attacker.move_contact {
            return None;
        }
        let probe = ContactProbe {
            attack: current_frame_clsn(attacker_air, attacker.anim, attacker.anim_elem, true),
            attacker_pos: attacker.pos,
            attacker_facing: attacker.facing,
            hurt: current_frame_clsn(defender_air, defender.anim, defender.anim_elem, false),
            defender_pos: defender.pos,
            defender_facing: defender.facing,
        };
        overlap(&probe)?;
        let attack = Attack::of(def);
        let guarded = defender.holding_back;
        let damage = if guarded { attack.guard } else { attack.hit } as i32;
        defender.life = (defender.life - damage).max(0);
        if !guarded {
            defender.move_type = MoveType::BeingHit;
            if let Some(n) = attack.p2stateno {
                defender.prev_state_no = defender.state_no;
                defender.state_no = n;
                defender.state_time = 0;
            }
        }
        attacker.move_contact = true;
        attacker.has_target = true;
        Some((
            Landed {
                stun: if guarded {
                    attack.guard_stun as i32
                } else {
                    attack.hit_stun as i32
                },
                move_total: move_total(attacker_air, attacker.anim),
                hit_sound: if guarded {
                    attack.guardsound
                } else {
                    attack.hitsound
                },
                attacker_state: attack.p1stateno,
                contact: None,
            },
            guarded,
        ))
    }

    fn answer(&mut self, req: Request) -> Reply {
        match req {
            Request::Done => unreachable!(),
            Request::TickAlone {
                side,
                fighter,
                opponent,
                ..
            } => {
                let (fighter, report, _) =
                    self.run(side, false, fighter, opponent, None, (vec![], vec![]));
                Reply::Ticked { fighter, report }
            }
            Request::Open { p1, p2 } => {
                for full in self.full.values_mut() {
                    for t in full.contacts.values_mut() {
                        for n in [&mut t.0, &mut t.1, &mut t.2] {
                            if *n >= 0 {
                                *n += 1;
                            }
                        }
                    }
                }
                self.fed.push((p1.is_some(), p2.is_some()));
                let names = |feed: Option<fp_engine::Feed>| {
                    let mut out: Vec<String> = Vec::new();
                    if let Some(feed) = feed {
                        let d = feed.raw.direction;
                        let (fwd, back) = if feed.facing_right {
                            (d.right, d.left)
                        } else {
                            (d.left, d.right)
                        };
                        if fwd && !back {
                            out.push("holdfwd".to_string());
                        }
                        if back && !fwd {
                            out.push("holdback".to_string());
                        }
                        if d.up {
                            out.push("holdup".to_string());
                        }
                        if d.down {
                            out.push("holddown".to_string());
                        }
                        for (held, name) in [
                            (feed.raw.a, "a"),
                            (feed.raw.b, "b"),
                            (feed.raw.c, "c"),
                            (feed.raw.x, "x"),
                            (feed.raw.y, "y"),
                            (feed.raw.z, "z"),
                        ] {
                            if held {
                                out.push(name.to_string());
                            }
                        }
                    }
                    out
                };
                Reply::Opened {
                    p1_matched: names(p1),
                    p2_matched: names(p2),
                }
            }
            Request::TickRoot {
                side,
                fighter,
                opponent,
                graph,
                ..
            } => {
                let (fighter, report, _) =
                    self.run(side, false, fighter, opponent, Some(graph), (vec![], vec![]));
                Reply::Ticked { fighter, report }
            }
            Request::Target { target, work, .. } => match work {
                TargetWork::EnterState(n) => {
                    let mut c = target;
                    self.enter(&mut c, n);
                    Reply::Entered(c)
                }
                TargetWork::Pin(p) => Reply::Sum(sum(p)),
                TargetWork::Accelerate(p) => Reply::Sum(sum(p)),
            },
            Request::SpawnHelpers { p1, p2 } => {
                let mut make = |births: Vec<fp_engine::HelperBirth>| {
                    let mut out = Vec::new();
                    for b in births {
                        let mut c = fighter();
                        c.entity = self.next;
                        self.next += 1;
                        self.births.push(c.entity);
                        c.pos = sum(b.at);
                        c.facing = b.facing;
                        c.state_no = b.state_no;
                        out.push(c);
                    }
                    out
                };
                let p1 = make(p1);
                let p2 = make(p2);
                Reply::Spawned { p1, p2 }
            }
            Request::TickHelpers { p1, p2, .. } => {
                let mut go = |side: Side, run: fp_engine::HelperRun| {
                    let mut out = Vec::new();
                    for h in &run.helpers {
                        let (character, _, destroy_self) = self.run(
                            side,
                            true,
                            h.character,
                            run.root,
                            None,
                            (run.helper_ids.clone(), run.proj_ids.clone()),
                        );
                        out.push(HelperTick {
                            character,
                            destroy_self,
                        });
                    }
                    out
                };
                let p1 = go(Side::P1, p1);
                let p2 = go(Side::P2, p2);
                Reply::HelpersTicked { p1, p2 }
            }
            Request::SpawnProjectiles { p1, p2 } => {
                let mut make = |births: Vec<fp_engine::ProjectileBirth>| {
                    let mut out = Vec::new();
                    for b in births {
                        let mut c = fighter();
                        c.entity = self.next;
                        self.next += 1;
                        c.pos = sum(b.at);
                        out.push(c);
                    }
                    out
                };
                let p1 = make(p1);
                let p2 = make(p2);
                Reply::Spawned { p1, p2 }
            }
            Request::MoveProjectiles { p1, p2, edges } => Reply::Moved {
                p1: p1.into_iter().map(sum).collect(),
                p2: p2.into_iter().map(sum).collect(),
                edges: sum(edges),
            },
            Request::Clash(probe) => {
                self.clashes += 1;
                let (a, b) = (probe.p1_priority, probe.p2_priority);
                let outcome = if a.value > b.value {
                    ClashOutcome::FirstWins
                } else if a.value < b.value {
                    ClashOutcome::SecondWins
                } else if a.kind == PriorityType::Hit && b.kind == PriorityType::Hit {
                    ClashOutcome::Trade
                } else {
                    ClashOutcome::NeitherHits
                };
                Reply::Clash {
                    p1_hits: overlap(&probe.p1).is_some(),
                    p2_hits: overlap(&probe.p2).is_some(),
                    outcome,
                }
            }
            Request::ResolveAttack {
                side,
                mut attacker,
                mut defender,
                probe,
            } => {
                self.attacks += 1;
                let contact = match &probe {
                    Some(p) => overlap(p),
                    None => None,
                };
                let landed = self
                    .resolve(
                        &mut attacker,
                        self.air(side),
                        &mut defender,
                        self.air(side.opponent()),
                    )
                    .map(|(l, _)| Landed { contact, ..l });
                Reply::Attacked {
                    attacker,
                    defender,
                    landed,
                }
            }
            Request::EnterState {
                mut fighter,
                state_no,
                ..
            } => {
                self.enter(&mut fighter, state_no);
                Reply::Entered(fighter)
            }
            Request::ResolveProjectile {
                side,
                projectile,
                mut defender,
            } => {
                let mut p = projectile.character;
                let landed = self
                    .resolve(
                        &mut p,
                        self.air(side),
                        &mut defender,
                        self.air(side.opponent()),
                    )
                    .map(|(_, guarded)| guarded);
                Reply::ProjectileResolved {
                    projectile: p,
                    defender,
                    landed,
                }
            }
            Request::RecordHit {
                side,
                proj_id,
                guarded,
            } => {
                let entity = match side {
                    Side::P1 => 1,
                    Side::P2 => 2,
                };
                let t = self
                    .entity(entity)
                    .contacts
                    .entry(proj_id)
                    .or_insert((-1, -1, -1));
                t.0 = 0;
                if guarded {
                    t.2 = 0;
                } else {
                    t.1 = 0;
                }
                Reply::Acknowledged
            }
            Request::PushAndClamp {
                p1,
                p2,
                left,
                right,
            } => {
                let (a, b) = push_apart(&p1, &p2, left.f(), right.f());
                Reply::Pushed {
                    p1_x: sc(a),
                    p2_x: sc(b),
                }
            }
            Request::NewRound {
                mut p1,
                mut p2,
                entering,
            } => {
                if entering.p1 {
                    self.enter(&mut p1, ROUND_INIT_STATE);
                }
                if entering.p2 {
                    self.enter(&mut p2, ROUND_INIT_STATE);
                }
                Reply::RoundBegun { p1, p2 }
            }
        }
    }
}

/// A match together with its host.
struct Game {
    m: Match,
    host: Host,
}

impl Deref for Game {
    type Target = Match;
    fn deref(&self) -> &Match {
        &self.m
    }
}

impl DerefMut for Game {
    fn deref_mut(&mut self) -> &mut Match {
        &mut self.m
    }
}

impl Game {
    fn wrap(mut m: Match) -> Self {
        m.p1.character.entity = 1;
        m.p2.character.entity = 2;
        let mut host = Host::new(&m.p1, &m.p2);
        let entering = m.run_round_init();
        let (mut c1, mut c2) = (m.p1.character, m.p2.character);
        if entering.p1 {
            host.enter(&mut c1, ROUND_INIT_STATE);
        }
        if entering.p2 {
            host.enter(&mut c2, ROUND_INIT_STATE);
        }
        m.finish_round_init(c1, c2);
        Game { m, host }
    }

    fn new(p1: Player, p2: Player, b: StageBounds) -> Self {
        Game::wrap(Match::new(p1, p2, b))
    }

    fn with_round_seconds(p1: Player, p2: Player, b: StageBounds, seconds: i32) -> Self {
        Game::wrap(Match::with_round_seconds(p1, p2, b, seconds))
    }

    fn with_rounds_to_win(p1: Player, p2: Player, b: StageBounds, rounds: i32) -> Self {
        Game::wrap(Match::with_rounds_to_win(p1, p2, b, rounds))
    }

    fn with_config(p1: Player, p2: Player, b: StageBounds, seconds: i32, rounds: i32) -> Self {
        Game::wrap(Match::with_config(p1, p2, b, seconds, rounds))
    }

    fn finish(&mut self, mut f: Frame) {
        loop {
            let req = self.m.request(&f);
            if req == Request::Done {
                break;
            }
            let reply = self.host.answer(req);
            self.m.step(&mut f, reply);
        }
    }

    fn tick(&mut self, p1: MatchInput, p2: MatchInput) {
        let f = self.m.tick(p1, p2);
        self.finish(f);
    }

    fn vars(&mut self, entity: u64) -> &mut [i32; 60] {
        &mut self.host.entity(entity).vars
    }

    fn begin_next_round(&mut self) {
        self.m.reset_for_next_round();
        let entering = self.m.run_round_init();
        let (mut c1, mut c2) = (self.m.p1.character, self.m.p2.character);
        if entering.p1 {
            self.host.enter(&mut c1, ROUND_INIT_STATE);
        }
        if entering.p2 {
            self.host.enter(&mut c2, ROUND_INIT_STATE);
        }
        self.m.finish_round_init(c1, c2);
    }

    fn host_parts(&mut self) -> (Vec<u8>, Vec<u8>) {
        let a = self.host.entity(1).save();
        let b = self.host.entity(2).save();
        (a, b)
    }

    fn save(&mut self) -> Vec<u8> {
        let (a, b) = self.host_parts();
        self.m.snapshot(a, b).expect("snapshot must serialize")
    }

    fn state(&mut self) -> fp_engine::MatchSnapshot {
        let (a, b) = self.host_parts();
        self.m.snapshot_state(a, b)
    }

    fn load(&mut self, bytes: &[u8]) -> Result<(), FpError> {
        let (a, b) = self.m.restore_snapshot(bytes)?;
        self.host.entity(1).load(&a);
        self.host.entity(2).load(&b);
        Ok(())
    }

    fn replay(&mut self, log: &ReplayLog) -> Result<(), ReplayError> {
        let mut replay = replay_match(&mut self.m, log)?;
        while let Some(f) = replay.tick(&mut self.m, log) {
            self.finish(f);
        }
        Ok(())
    }

    fn record(&mut self, seed: i32, script: &[(MatchInput, MatchInput)]) -> ReplayLog {
        let host = &mut self.host;
        let mut rec = MatchRecorder::new(&mut self.m, seed, DEFAULT_ROUND_SECONDS);
        for &(p1, p2) in script {
            let mut f = rec.tick(p1, p2);
            loop {
                let req = rec.request(&f);
                if req == Request::Done {
                    break;
                }
                let reply = host.answer(req);
                rec.step(&mut f, reply);
            }
        }
        rec.into_log()
    }
}

// ---- fixtures ---------------------------------------------------------------

/// A fresh fighter with default constants.
fn fighter() -> Character {
    Character {
        entity: 0,
        pos: vec2(0.0, 0.0),
        vel: vec2(0.0, 0.0),
        facing: Facing::Right,
        life: 1000,
        life_max: 1000,
        power: 0,
        power_max: 3000,
        state_no: 0,
        prev_state_no: 0,
        state_time: 0,
        state_type: StateType::Standing,
        move_type: MoveType::Idle,
        ctrl: false,
        holding_back: false,
        has_target: false,
        anim: 0,
        anim_elem: 0,
        anim_elem_time: 0,
        anim_time: 0,
        active_hitdef: None,
        move_contact: false,
        hitpause: 0,
        shaketime: 0,
        no_auto_turn: false,
        cur_width: WidthOverride {
            active: false,
            front: sc(0.0),
            back: sc(0.0),
        },
        size: BodySize {
            ground_front: sc(16.0),
            ground_back: sc(15.0),
        },
        ai_level: 0,
        rng_seed: 0,
        round_view: RoundView {
            round_state: 0,
            game_time: 0,
            match_over: false,
            round_no: 1,
            rounds_existed: 0,
        },
        commands: CommandSource::NoCommands,
    }
}

fn frame(sprite: SpriteId, ticks: i32, clsn1: Vec<Rect>, clsn2: Vec<Rect>) -> AnimFrame {
    AnimFrame {
        sprite,
        offset: Offset { x: 0, y: 0 },
        ticks,
        clsn1,
        clsn2,
    }
}

fn sprite(group: u16, image: u16) -> SpriteId {
    SpriteId { group, image }
}

fn action(number: i32, frames: Vec<AnimFrame>) -> AnimAction {
    AnimAction {
        action_number: number,
        frames,
        loopstart: 0,
    }
}

fn air_with(number: i32, clsn1: Vec<Rect>, clsn2: Vec<Rect>) -> AirFile {
    let mut actions = HashMap::new();
    actions.insert(
        number,
        action(number, vec![frame(sprite(0, 0), 1, clsn1, clsn2)]),
    );
    AirFile { actions }
}

fn loaded_with(air: AirFile) -> LoadedCharacter {
    LoadedCharacter {
        fingerprint: CharacterFingerprint(0x7e57),
        states: Vec::new(),
        air,
    }
}

fn hurt() -> Rect {
    rect(-18.0, -70.0, 36.0, 70.0)
}

fn defender_loaded() -> LoadedCharacter {
    loaded_with(air_with(0, Vec::new(), vec![hurt()]))
}

fn attacker_loaded() -> LoadedCharacter {
    let mut air = air_with(200, vec![rect(10.0, -60.0, 45.0, 20.0)], Vec::new());
    air.actions.insert(
        0,
        action(0, vec![frame(sprite(0, 0), 1, Vec::new(), vec![hurt()])]),
    );
    loaded_with(air)
}

fn brawler_loaded() -> LoadedCharacter {
    loaded_with(air_with(
        200,
        vec![rect(-60.0, -60.0, 120.0, 40.0)],
        vec![rect(-30.0, -70.0, 60.0, 70.0)],
    ))
}

fn arm_brawler(p: &mut Player, hd: Attack) {
    p.character.anim = 200;
    p.character.anim_elem = 0;
    p.character.move_type = MoveType::Attack;
    p.character.state_type = StateType::Standing;
    p.character.holding_back = false;
    p.character.active_hitdef = Some(hd.def());
    p.character.move_contact = false;
}

fn basic_match() -> Game {
    let mut p1c = fighter();
    p1c.pos = vec2(-50.0, 0.0);
    let mut p2c = fighter();
    p2c.pos = vec2(50.0, 0.0);
    let p1 = Player::new(p1c, attacker_loaded());
    let p2 = Player::new(p2c, defender_loaded());
    Game::new(p1, p2, bounds(-200.0, 200.0))
}

fn into_fight(m: &mut Game) {
    for _ in 0..(INTRO_FRAMES + 1) {
        m.tick(MatchInput::none(), MatchInput::none());
    }
}

fn ko_p2_and_settle(m: &mut Game) {
    assert_eq!(m.round_state(), RoundState::Fight);
    m.p2.character.life = 0;
    m.tick(MatchInput::none(), MatchInput::none());
    assert_eq!(m.round_state(), RoundState::Ko, "KO enters the KO hold");
    for _ in 0..(KO_FRAMES + 1) {
        m.tick(MatchInput::none(), MatchInput::none());
    }
}

fn ko_p1_and_settle(m: &mut Game) {
    assert_eq!(m.round_state(), RoundState::Fight);
    m.p1.character.life = 0;
    m.tick(MatchInput::none(), MatchInput::none());
    assert_eq!(m.round_state(), RoundState::Ko);
    for _ in 0..(KO_FRAMES + 1) {
        m.tick(MatchInput::none(), MatchInput::none());
    }
}

// ---- matches ------------------------------------------------------------------

fn width(front: f32, back: f32) -> WidthOverride {
    WidthOverride {
        active: true,
        front: sc(front),
        back: sc(back),
    }
}

fn make_player(x: f32) -> Player {
    let mut c = fighter();
    c.pos = vec2(x, 0.0);
    c.facing = if x < 0.0 { Facing::Right } else { Facing::Left };
    Player::new(c, defender_loaded())
}

fn fa_attacker_loaded() -> LoadedCharacter {
    let attack = rect(10.0, -60.0, 60.0, 20.0);
    let mk = |clsn1: Vec<Rect>| frame(sprite(0, 0), 10, clsn1, Vec::new());
    let mut actions = HashMap::new();
    actions.insert(
        200,
        action(
            200,
            vec![
                mk(Vec::new()),
                mk(Vec::new()),
                mk(Vec::new()),
                mk(vec![attack]),
                mk(vec![attack]),
                mk(Vec::new()),
                mk(Vec::new()),
                mk(Vec::new()),
                mk(Vec::new()),
            ],
        ),
    );
    actions.insert(
        0,
        action(0, vec![frame(sprite(0, 0), 1, Vec::new(), vec![hurt()])]),
    );
    loaded_with(AirFile { actions })
}

fn fa_match() -> Game {
    let mut p1c = fighter();
    p1c.pos = vec2(-20.0, 0.0);
    p1c.facing = Facing::Right;
    p1c.life = 1000;
    let mut p2c = fighter();
    p2c.pos = vec2(20.0, 0.0);
    p2c.facing = Facing::Left;
    p2c.life = 1000;
    let p1 = Player::new(p1c, fa_attacker_loaded());
    let p2 = Player::new(p2c, defender_loaded());
    let mut m = Game::new(p1, p2, bounds(-300.0, 300.0));
    into_fight(&mut m);
    m
}

fn clash_match() -> Game {
    let mut p1c = fighter();
    p1c.pos = vec2(-20.0, 0.0);
    p1c.facing = Facing::Right;
    p1c.life = 1000;
    let mut p2c = fighter();
    p2c.pos = vec2(20.0, 0.0);
    p2c.facing = Facing::Left;
    p2c.life = 1000;
    let p1 = Player::new(p1c, brawler_loaded());
    let p2 = Player::new(p2c, brawler_loaded());
    let mut m = Game::new(p1, p2, bounds(-300.0, 300.0));
    into_fight(&mut m);
    m
}

fn spark_attacker_loaded(spark_anim: i32) -> LoadedCharacter {
    let mut loaded = attacker_loaded();
    let mk = |img: u16| AnimFrame {
        offset: Offset { x: 3, y: -4 },
        ..frame(sprite(10, img), 2, Vec::new(), Vec::new())
    };
    loaded
        .air
        .actions
        .insert(spark_anim, action(spark_anim, vec![mk(0), mk(1), mk(2)]));
    loaded
}

fn spark_match(hd: Attack, spark_anim: i32) -> Game {
    let mut p1c = fighter();
    p1c.pos = vec2(0.0, 0.0);
    p1c.facing = Facing::Right;
    p1c.life = 1000;
    let mut p2c = fighter();
    p2c.pos = vec2(60.0, 0.0);
    p2c.facing = Facing::Left;
    p2c.life = 1000;

    let p1 = Player::new(p1c, spark_attacker_loaded(spark_anim));
    let p2 = Player::new(p2c, defender_loaded());
    let mut m = Game::new(p1, p2, bounds(-300.0, 300.0));
    into_fight(&mut m);

    m.p1.character.anim = 200;
    m.p1.character.anim_elem = 0;
    m.p1.character.move_type = MoveType::Attack;
    m.p1.character.active_hitdef = Some(hd.def());
    m.p1.character.move_contact = false;
    m.p2.character.anim = 0;
    m.p2.character.anim_elem = 0;
    m.p2.character.state_type = StateType::Standing;
    m.p2.character.holding_back = false;
    m
}

fn common_fx_air(anim: i32) -> AirFile {
    let mk = |img: u16| frame(sprite(anim as u16, img), 2, Vec::new(), Vec::new());
    let mut actions = HashMap::new();
    actions.insert(anim, action(anim, vec![mk(0), mk(1), mk(2)]));
    AirFile { actions }
}

#[test]
fn both_characters_tick_without_panic() {
    let mut m = basic_match();
    for _ in 0..120 {
        m.tick(MatchInput::none(), MatchInput::none());
    }
    assert!(matches!(
        m.round_state(),
        RoundState::Fight | RoundState::Ko | RoundState::Win
    ));
}

#[test]
fn starts_in_intro_then_enters_fight() {
    let mut m = basic_match();
    assert_eq!(m.round_state(), RoundState::Intro);
    for _ in 0..INTRO_FRAMES {
        assert_eq!(m.round_state(), RoundState::Intro);
        m.tick(MatchInput::none(), MatchInput::none());
    }
    assert_eq!(m.round_state(), RoundState::Fight);
    assert!(m.p1().character.ctrl);
    assert!(m.p2().character.ctrl);
}

#[test]
fn initial_facing_is_toward_opponent() {
    let m = basic_match();
    assert_eq!(m.p1().facing(), Facing::Right);
    assert_eq!(m.p2().facing(), Facing::Left);
}

#[test]
fn connecting_attack_drops_life_and_ko_advances_round() {
    let mut p1c = fighter();
    p1c.pos = vec2(0.0, 0.0);
    p1c.facing = Facing::Right;

    let mut p2c = fighter();
    p2c.pos = vec2(60.0, 0.0);
    p2c.facing = Facing::Left;

    let p1 = Player::new(p1c, attacker_loaded());
    let p2 = Player::new(p2c, defender_loaded());
    let mut m = Game::new(p1, p2, bounds(-300.0, 300.0));
    into_fight(&mut m);
    m.p2.character.life = 20;
    let life_before = m.p2().life();
    for _ in 0..5 {
        m.p1.character.anim = 200;
        m.p1.character.anim_elem = 0;
        m.p1.character.move_type = MoveType::Attack;
        m.p1.character.active_hitdef = Some(sample_hitdef().def());
        m.p1.character.move_contact = false;
        m.p2.character.anim = 0;
        m.p2.character.anim_elem = 0;
        m.p2.character.state_type = StateType::Standing;
        m.tick(MatchInput::none(), MatchInput::none());
        if m.round_state() != RoundState::Fight {
            break;
        }
    }

    assert!(
        m.p2().life() < life_before,
        "a connecting attack must reduce the defender's life"
    );
    assert_eq!(m.p2().life(), 0, "lethal punch drops life to zero");
    assert!(
        matches!(m.round_state(), RoundState::Ko | RoundState::Win),
        "a KO advances the round state, got {:?}",
        m.round_state()
    );
    assert_eq!(m.winner(), Some(Winner::P1));
}

#[test]
fn frame_advantage_surfaced_on_scripted_connecting_hit() {
    let mut m = fa_match();
    m.p1.character.anim = 200;
    m.p1.character.anim_elem = 3;
    m.p1.character.move_type = MoveType::Attack;
    m.p1.character.state_type = StateType::Standing;
    m.p1.character.active_hitdef = Some(sample_hitdef().def());
    m.p1.character.move_contact = false;
    m.p2.character.anim = 0;
    m.p2.character.anim_elem = 0;
    m.p2.character.state_type = StateType::Standing;
    m.p2.character.holding_back = false;

    m.tick(MatchInput::none(), MatchInput::none());
    assert!(m.p2().life() < 1000, "scripted attack must connect");
    let adv = m
        .p1()
        .frame_advantage()
        .expect("a connecting attack surfaces a frame advantage");
    assert_eq!(adv, -48, "12 hit-stun minus 60 remaining recovery = -48");
}

#[test]
fn frame_advantage_is_none_without_a_connection() {
    let mut m = fa_match();
    m.p1.character.anim = 0;
    m.p1.character.active_hitdef = None;
    m.tick(MatchInput::none(), MatchInput::none());
    assert_eq!(
        m.p1().frame_advantage(),
        None,
        "no connection => no advantage shown"
    );
}

/// A match in which player 1 has just landed an attack, with an input that its
/// recogniser has matched.
fn connected_match() -> Game {
    let mut m = fa_match();
    m.p1.character.anim = 200;
    m.p1.character.anim_elem = 3;
    m.p1.character.move_type = MoveType::Attack;
    m.p1.character.active_hitdef = Some(sample_hitdef().def());
    let right = MatchInput {
        right: true,
        ..MatchInput::none()
    };
    m.tick(right, MatchInput::none());
    assert_eq!(m.p1().frame_advantage(), Some(-48));
    assert!(!m.p1().just_matched_commands().is_empty());
    m
}

#[test]
fn frozen_frames_show_no_advantage_and_no_commands() {
    let cases = [
        (FreezeKind::Pause, fp_engine::FreezeExempt::P1),
        (FreezeKind::SuperPause, fp_engine::FreezeExempt::P1),
        (FreezeKind::SuperPause, fp_engine::FreezeExempt::P2),
    ];
    for (kind, side) in cases {
        let mut m = connected_match();
        m.arm_freeze(Some(FreezeRequest { kind, time: 5 }), side);
        m.tick(MatchInput::none(), MatchInput::none());
        assert_eq!(m.freeze_time(), 4);
        assert_eq!(m.p1().frame_advantage(), None, "nothing connects in a freeze");
        assert_eq!(m.p2().frame_advantage(), None);
        assert!(m.p1().just_matched_commands().is_empty());
    }
}

#[test]
fn frames_outside_the_fight_show_no_advantage_and_no_commands() {
    let mut m = connected_match();
    m.p2.character.life = 0;
    m.p1.character.active_hitdef = None;
    m.tick(MatchInput::none(), MatchInput::none());
    assert_eq!(m.round_state(), RoundState::Ko);
    let right = MatchInput {
        right: true,
        ..MatchInput::none()
    };
    m.tick(right, right);
    assert_eq!(m.p1().frame_advantage(), None);
    assert!(m.p1().just_matched_commands().is_empty());
    assert!(m.p2().just_matched_commands().is_empty());
}

#[test]
fn equal_hit_priority_trades_both_land() {
    let mut m = clash_match();
    let hd = Attack {
        priority: Priority {
            value: 3,
            kind: PriorityType::Hit,
        },
        ..sample_hitdef()
    };
    arm_brawler(&mut m.p1, hd);
    arm_brawler(&mut m.p2, hd);

    m.tick(MatchInput::none(), MatchInput::none());

    assert!(m.p1().life() < 1000, "P1 took the traded hit");
    assert!(m.p2().life() < 1000, "P2 took the traded hit");
}

#[test]
fn higher_priority_value_cancels_lower() {
    let mut m = clash_match();
    arm_brawler(
        &mut m.p1,
        Attack {
            priority: Priority {
                value: 6,
                kind: PriorityType::Hit,
            },
            ..sample_hitdef()
        },
    );
    arm_brawler(
        &mut m.p2,
        Attack {
            priority: Priority {
                value: 3,
                kind: PriorityType::Hit,
            },
            ..sample_hitdef()
        },
    );

    m.tick(MatchInput::none(), MatchInput::none());
    assert!(
        m.p2().life() < 1000,
        "the higher-priority attacker (P1) lands on P2"
    );
    assert_eq!(
        m.p1().life(),
        1000,
        "the lower-priority attacker (P2) was cancelled"
    );
}

#[test]
fn higher_priority_value_wins_for_p2() {
    let mut m = clash_match();
    arm_brawler(
        &mut m.p1,
        Attack {
            priority: Priority {
                value: 2,
                kind: PriorityType::Hit,
            },
            ..sample_hitdef()
        },
    );
    arm_brawler(
        &mut m.p2,
        Attack {
            priority: Priority {
                value: 7,
                kind: PriorityType::Hit,
            },
            ..sample_hitdef()
        },
    );

    m.tick(MatchInput::none(), MatchInput::none());

    assert!(
        m.p1().life() < 1000,
        "the higher-priority attacker (P2) lands on P1"
    );
    assert_eq!(
        m.p2().life(),
        1000,
        "the lower-priority attacker (P1) was cancelled"
    );
}

#[test]
fn equal_value_dodge_suppresses_both() {
    let mut m = clash_match();
    arm_brawler(
        &mut m.p1,
        Attack {
            priority: Priority {
                value: 4,
                kind: PriorityType::Hit,
            },
            ..sample_hitdef()
        },
    );
    arm_brawler(
        &mut m.p2,
        Attack {
            priority: Priority {
                value: 4,
                kind: PriorityType::Dodge,
            },
            ..sample_hitdef()
        },
    );

    m.tick(MatchInput::none(), MatchInput::none());

    assert_eq!(m.p1().life(), 1000, "a dodge clash lands nothing on P1");
    assert_eq!(m.p2().life(), 1000, "a dodge clash lands nothing on P2");
}

#[test]
fn single_attacker_path_is_unchanged() {
    let mut m = clash_match();
    arm_brawler(
        &mut m.p1,
        Attack {
            priority: Priority {
                value: 1,
                kind: PriorityType::Hit,
            },
            ..sample_hitdef()
        },
    );
    m.p2.character.anim = 200;
    m.p2.character.anim_elem = 0;
    m.p2.character.state_type = StateType::Standing;
    m.p2.character.active_hitdef = None;

    m.tick(MatchInput::none(), MatchInput::none());

    assert!(m.p2().life() < 1000, "the lone attacker still lands");
    assert_eq!(m.p1().life(), 1000, "the non-attacking P2 deals no damage");
    assert!(
        m.p1().character.move_contact,
        "the lone attacker's move registered a connection"
    );
}

#[test]
fn no_clash_when_only_one_direction_connects() {
    let mut p1c = fighter();
    p1c.pos = vec2(-20.0, 0.0);
    p1c.facing = Facing::Right;
    p1c.life = 1000;
    let mut p2c = fighter();
    p2c.pos = vec2(20.0, 0.0);
    p2c.facing = Facing::Left;
    p2c.life = 1000;
    let p1 = Player::new(p1c, brawler_loaded());
    let p2 = Player::new(p2c, defender_loaded());
    let mut m = Game::new(p1, p2, bounds(-300.0, 300.0));
    into_fight(&mut m);
    arm_brawler(
        &mut m.p1,
        Attack {
            priority: Priority {
                value: 5,
                kind: PriorityType::Hit,
            },
            ..sample_hitdef()
        },
    );
    m.p2.character.anim = 0;
    m.p2.character.anim_elem = 0;
    m.p2.character.state_type = StateType::Standing;
    m.p2.character.active_hitdef = Some(
        Attack {
        priority: Priority {
            value: 7,
            kind: PriorityType::Hit,
        },
        ..sample_hitdef()
    }
        .def(),
    );
    m.p2.character.move_contact = false;

    m.tick(MatchInput::none(), MatchInput::none());
    assert!(m.p2().life() < 1000, "P1's lone attack lands on P2");
    assert_eq!(m.p1().life(), 1000, "P2 could not connect (no attack box)");
}

#[test]
fn connecting_attack_appends_hit_sound_to_attacker_requests() {
    let hitsound = SoundId {
        group: 5,
        sample: 0,
        common: false,
    };

    let mut p1c = fighter();
    p1c.pos = vec2(0.0, 0.0);
    p1c.facing = Facing::Right;
    let mut p2c = fighter();
    p2c.pos = vec2(60.0, 0.0);
    p2c.facing = Facing::Left;
    p2c.life = 1000;

    let p1 = Player::new(p1c, attacker_loaded());
    let p2 = Player::new(p2c, defender_loaded());
    let mut m = Game::new(p1, p2, bounds(-300.0, 300.0));
    into_fight(&mut m);
    let mut hd = sample_hitdef();
    hd.hitsound = Some(hitsound);
    m.p1.character.anim = 200;
    m.p1.character.anim_elem = 0;
    m.p1.character.move_type = MoveType::Attack;
    m.p1.character.active_hitdef = Some(hd.def());
    m.p1.character.move_contact = false;
    m.p2.character.anim = 0;
    m.p2.character.anim_elem = 0;
    m.p2.character.state_type = StateType::Standing;
    m.p2.character.holding_back = false;

    m.tick(MatchInput::none(), MatchInput::none());

    assert!(m.p2().life() < 1000, "the attack must connect");
    let req = m
        .p1_sound_requests()
        .iter()
        .find(|r| r.group == hitsound.group && r.sample == hitsound.sample)
        .expect("P1's hit sound must be present in its sound requests");
    assert_eq!(req.channel, 0, "impact sound plays on the hit channel (0)");
    assert_eq!(req.volume_scale, 100, "impact sound at full volume");
    assert!(!req.looping);
    assert!(
        !req.common,
        "the SoundId `common` flag propagates unchanged (own .snd here)"
    );
    assert!(
        !m.p2_sound_requests()
            .iter()
            .any(|r| r.group == hitsound.group && r.sample == hitsound.sample),
        "the hit sound belongs to the attacker, not the defender"
    );
}

#[test]
fn connecting_attack_without_hitsound_appends_nothing() {
    let mut p1c = fighter();
    p1c.pos = vec2(0.0, 0.0);
    p1c.facing = Facing::Right;
    let mut p2c = fighter();
    p2c.pos = vec2(60.0, 0.0);
    p2c.facing = Facing::Left;
    p2c.life = 1000;

    let p1 = Player::new(p1c, attacker_loaded());
    let p2 = Player::new(p2c, defender_loaded());
    let mut m = Game::new(p1, p2, bounds(-300.0, 300.0));
    into_fight(&mut m);

    let mut hd = sample_hitdef();
    hd.hitsound = None;
    hd.guardsound = None;
    m.p1.character.anim = 200;
    m.p1.character.anim_elem = 0;
    m.p1.character.move_type = MoveType::Attack;
    m.p1.character.active_hitdef = Some(hd.def());
    m.p1.character.move_contact = false;
    m.p2.character.anim = 0;
    m.p2.character.anim_elem = 0;
    m.p2.character.state_type = StateType::Standing;
    m.p2.character.holding_back = false;

    m.tick(MatchInput::none(), MatchInput::none());

    assert!(m.p2().life() < 1000, "the attack must connect");
    assert!(
        m.p1_sound_requests().is_empty(),
        "a connecting attack with no HitDef sound appends no request"
    );
}

#[test]
fn guarded_attack_appends_guard_sound_to_attacker_requests() {
    let guardsound = SoundId {
        group: 6,
        sample: 1,
        common: true,
    };

    let mut p1c = fighter();
    p1c.pos = vec2(0.0, 0.0);
    p1c.facing = Facing::Right;
    let mut p2c = fighter();
    p2c.pos = vec2(60.0, 0.0);
    p2c.facing = Facing::Left;
    p2c.life = 1000;

    let p1 = Player::new(p1c, attacker_loaded());
    let p2 = Player::new(p2c, defender_loaded());
    let mut m = Game::new(p1, p2, bounds(-300.0, 300.0));
    into_fight(&mut m);

    let mut hd = sample_hitdef();
    hd.guardsound = Some(guardsound);
    m.p1.character.anim = 200;
    m.p1.character.anim_elem = 0;
    m.p1.character.move_type = MoveType::Attack;
    m.p1.character.active_hitdef = Some(hd.def());
    m.p1.character.move_contact = false;
    m.p2.character.anim = 0;
    m.p2.character.anim_elem = 0;
    m.p2.character.state_type = StateType::Standing;
    let p2_back = MatchInput {
        right: true,
        ..MatchInput::none()
    };
    m.tick(MatchInput::none(), p2_back);
    assert_eq!(m.p2().life(), 1000 - 5, "guard damage, not hit damage");
    let req = m
        .p1_sound_requests()
        .iter()
        .find(|r| r.group == guardsound.group && r.sample == guardsound.sample)
        .expect("P1's guard sound must be present on a blocked attack");
    assert_eq!(req.channel, 0);
    assert_eq!(req.volume_scale, 100);
    assert!(
        req.common,
        "a common guard sound (the hitsound/guardsound default) resolves against fight.snd"
    );
}

#[test]
fn ko_eventually_reaches_win() {
    let mut m = basic_match();
    into_fight(&mut m);
    m.p2.character.life = 0;
    m.tick(MatchInput::none(), MatchInput::none());
    assert_eq!(m.round_state(), RoundState::Ko);
    for _ in 0..KO_FRAMES {
        m.tick(MatchInput::none(), MatchInput::none());
    }
    assert_eq!(m.round_state(), RoundState::Win);
    assert_eq!(m.winner(), Some(Winner::P1));
}

#[test]
fn round_state_trigger_code_maps_phases() {
    assert_eq!(RoundState::Intro.trigger_code(), 0);
    assert_eq!(RoundState::Fight.trigger_code(), 1);
    assert_eq!(RoundState::Ko.trigger_code(), 2);
    assert_eq!(RoundState::Win.trigger_code(), 3);
}

#[test]
fn tick_installs_round_view_on_both_characters() {
    let mut m = basic_match();
    m.tick(MatchInput::none(), MatchInput::none());
    assert_eq!(m.round_state(), RoundState::Intro);
    let v1 = m.p1().character.round_view;
    let v2 = m.p2().character.round_view;
    assert_eq!(v1, v2, "both characters get the same coordinator view");
    assert_eq!(v1.round_state, 0, "intro maps to RoundState 0");
    assert_eq!(v1.game_time, 1, "GameTime advanced to 1 after one tick");
    assert!(!v1.match_over, "match not over during the intro");
}

#[test]
fn round_state_and_game_time_advance_through_a_round() {
    let mut m = basic_match();
    m.tick(MatchInput::none(), MatchInput::none());
    assert_eq!(m.p1().character.round_view.round_state, 0);
    let gt_after_first = m.game_time();
    assert_eq!(gt_after_first, 1);
    into_fight(&mut m);
    assert_eq!(m.round_state(), RoundState::Fight);
    assert_eq!(
        m.p1().character.round_view.round_state,
        1,
        "fight phase maps to RoundState 1"
    );
    assert!(
        m.game_time() > gt_after_first,
        "GameTime advances monotonically into the fight"
    );
    let mut prev = m.game_time();
    for _ in 0..5 {
        m.tick(MatchInput::none(), MatchInput::none());
        assert!(m.game_time() >= prev, "GameTime is monotonic");
        prev = m.game_time();
    }
    m.p2.character.life = 0;
    m.tick(MatchInput::none(), MatchInput::none());
    assert_eq!(m.round_state(), RoundState::Ko);
    m.tick(MatchInput::none(), MatchInput::none());
    assert_eq!(
        m.p1().character.round_view.round_state,
        2,
        "KO / pre-over phase maps to RoundState 2"
    );
}

#[test]
fn match_over_flips_at_match_end() {
    let p1 = Player::new(fighter(), defender_loaded());
    let p2 = Player::new(fighter(), defender_loaded());
    let mut m = Game::with_rounds_to_win(p1, p2, StageBounds::default(), 1);
    into_fight(&mut m);
    assert_eq!(m.match_state(), MatchState::InProgress);
    assert!(!m.p1().character.round_view.match_over);
    ko_p2_and_settle(&mut m);
    assert_eq!(m.match_state(), MatchState::Over);
    assert_eq!(m.match_winner(), Some(Winner::P1));
    let gt_before = m.game_time();
    m.tick(MatchInput::none(), MatchInput::none());
    assert!(
        m.p1().character.round_view.match_over,
        "MatchOver is set once the match is decided"
    );
    assert!(m.p2().character.round_view.match_over);
    assert!(
        m.game_time() > gt_before,
        "GameTime keeps advancing past match end"
    );
}

#[test]
fn round_view_carries_round_number_and_rounds_existed() {
    let m = basic_match();
    assert_eq!(m.round_number(), 1);
    let v = m.round_view();
    assert_eq!(v.round_no, 1, "opening round is RoundNo 1");
    assert_eq!(v.rounds_existed, 0, "no rounds completed in round 1");
}

#[test]
fn round_no_and_rounds_existed_advance_across_a_multi_round_match() {
    let mut m = basic_match();
    into_fight(&mut m);
    assert_eq!(m.round_number(), 1);
    let v1 = m.p1().character.round_view;
    let v2 = m.p2().character.round_view;
    assert_eq!(v1, v2, "both characters get the same coordinator view");
    assert_eq!(v1.round_no, 1, "round 1: RoundNo 1");
    assert_eq!(v1.rounds_existed, 0, "round 1: RoundsExisted 0");
    assert_eq!(v1.rounds_existed, v1.round_no - 1);
    ko_p2_and_settle(&mut m);
    assert_eq!(m.round_number(), 2, "advanced to round 2");
    assert_eq!(m.p1_round_wins(), 1);
    m.tick(MatchInput::none(), MatchInput::none());
    let v = m.p1().character.round_view;
    assert_eq!(v.round_no, 2, "round 2: RoundNo 2");
    assert_eq!(
        v.rounds_existed, 1,
        "one round completed -> RoundsExisted 1"
    );
    assert_eq!(v.rounds_existed, v.round_no - 1);
    into_fight(&mut m);
    ko_p1_and_settle(&mut m);
    assert_eq!(m.round_number(), 3, "the split advances to round 3");
    assert_eq!(m.p1_round_wins(), 1);
    assert_eq!(m.p2_round_wins(), 1);
    m.tick(MatchInput::none(), MatchInput::none());
    let v = m.p2().character.round_view;
    assert_eq!(v.round_no, 3, "round 3: RoundNo 3");
    assert_eq!(
        v.rounds_existed, 2,
        "two rounds completed -> RoundsExisted 2"
    );
    assert_eq!(v.rounds_existed, v.round_no - 1);
}

#[test]
fn player_push_separates_overlapping_characters() {
    let mut p1c = fighter();
    p1c.pos = vec2(0.0, 0.0);
    let mut p2c = fighter();
    p2c.pos = vec2(0.0, 0.0);
    let p1 = Player::new(p1c, defender_loaded());
    let p2 = Player::new(p2c, defender_loaded());
    let mut m = Game::new(p1, p2, bounds(-300.0, 300.0));
    m.tick(MatchInput::none(), MatchInput::none());
    let dx = (m.p1().pos().x.f() - m.p2().pos().x.f()).abs();
    assert!(
        dx > 0.0,
        "overlapping characters must be pushed apart, got dx = {dx}"
    );
    assert!(dx >= 1.0, "separation should be meaningful, got {dx}");
}

#[test]
fn bound_clamp_keeps_characters_on_stage() {
    let mut p1c = fighter();
    p1c.pos = vec2(1000.0, 0.0);
    let mut p2c = fighter();
    p2c.pos = vec2(-1000.0, 0.0);
    let bounds = bounds(-100.0, 100.0);
    let p1 = Player::new(p1c, defender_loaded());
    let p2 = Player::new(p2c, defender_loaded());
    let mut m = Game::new(p1, p2, bounds);

    m.tick(MatchInput::none(), MatchInput::none());
    let p1 = m.p1();
    let p1_right = p1.pos().x.f() + p1.push_body_right_half().f();
    assert!(
        p1_right <= bounds.right.f() + 1e-3,
        "P1 right edge {p1_right} must be within stage right {}",
        bounds.right.f()
    );
    let p2 = m.p2();
    let p2_left = p2.pos().x.f() - p2.push_body_left_half().f();
    assert!(
        p2_left >= bounds.left.f() - 1e-3,
        "P2 left edge {p2_left} must be within stage left {}",
        bounds.left.f()
    );
}

#[test]
fn time_over_compares_life() {
    let mut p1c = fighter();
    p1c.pos = vec2(-50.0, 0.0);
    p1c.life = 800;
    let mut p2c = fighter();
    p2c.pos = vec2(50.0, 0.0);
    p2c.life = 500;
    let p1 = Player::new(p1c, defender_loaded());
    let p2 = Player::new(p2c, defender_loaded());
    let mut m = Game::with_round_seconds(p1, p2, bounds(-200.0, 200.0), 1);
    into_fight(&mut m);
    for _ in 0..(TICKS_PER_SECOND + 1) {
        m.tick(MatchInput::none(), MatchInput::none());
        if m.round_state() != RoundState::Fight {
            break;
        }
    }
    assert_ne!(m.round_state(), RoundState::Fight, "timer ran out");
    assert_eq!(m.winner(), Some(Winner::P1), "more life wins on time over");
}

#[test]
fn neutral_character_refaces_opponent() {
    let mut p1c = fighter();
    p1c.pos = vec2(50.0, 0.0);
    p1c.facing = Facing::Right;
    p1c.state_type = StateType::Standing;
    p1c.move_type = MoveType::Idle;
    let mut p2c = fighter();
    p2c.pos = vec2(-50.0, 0.0);
    p2c.facing = Facing::Left;
    p2c.state_type = StateType::Standing;
    p2c.move_type = MoveType::Idle;
    let p1 = Player::new(p1c, defender_loaded());
    let p2 = Player::new(p2c, defender_loaded());
    let mut m = Game::new(p1, p2, bounds(-300.0, 300.0));
    into_fight(&mut m);
    m.p1.character.facing = Facing::Right;
    m.p2.character.facing = Facing::Left;
    m.p1.character.move_type = MoveType::Idle;
    m.p1.character.state_type = StateType::Standing;
    m.p2.character.move_type = MoveType::Idle;
    m.p2.character.state_type = StateType::Standing;

    m.tick(MatchInput::none(), MatchInput::none());
    assert_eq!(m.p1().facing(), Facing::Left);
    assert_eq!(m.p2().facing(), Facing::Right);
}

#[test]
fn attacking_character_keeps_facing() {
    let mut p1c = fighter();
    p1c.pos = vec2(50.0, 0.0);
    p1c.state_type = StateType::Standing;
    let mut p2c = fighter();
    p2c.pos = vec2(-50.0, 0.0);
    let p1 = Player::new(p1c, attacker_loaded());
    let p2 = Player::new(p2c, defender_loaded());
    let mut m = Game::new(p1, p2, bounds(-300.0, 300.0));
    into_fight(&mut m);
    m.p1.character.facing = Facing::Right; // opponent is to the left -> "wrong"
    m.p1.character.move_type = MoveType::Attack;
    m.tick(MatchInput::none(), MatchInput::none());
    assert_eq!(
        m.p1().facing(),
        Facing::Right,
        "an attacking character must not be re-faced"
    );
}

#[test]
fn round_seconds_clamps_non_positive() {
    let p1 = Player::new(fighter(), defender_loaded());
    let p2 = Player::new(fighter(), defender_loaded());
    let m = Game::with_round_seconds(p1, p2, StageBounds::default(), -5);
    assert_eq!(m.timer(), 0, "a non-positive round length clamps to 0");
}

#[test]
fn default_timer_is_ninety_nine_seconds() {
    let m = basic_match();
    assert_eq!(
        m.timer(),
        DEFAULT_ROUND_SECONDS * TICKS_PER_SECOND,
        "default round clock is 99s * 60"
    );
    assert_eq!(m.timer(), 99 * 60);
}

#[test]
fn timer_frozen_during_intro() {
    let mut m = basic_match();
    let start = m.timer();
    for _ in 0..(INTRO_FRAMES - 1) {
        m.tick(MatchInput::none(), MatchInput::none());
        assert_eq!(m.round_state(), RoundState::Intro);
        assert_eq!(m.timer(), start, "timer must not move during intro");
    }
}

#[test]
fn timer_decrements_one_per_fight_tick() {
    let mut m = basic_match();
    into_fight(&mut m);
    assert_eq!(m.round_state(), RoundState::Fight);
    let before = m.timer();
    m.tick(MatchInput::none(), MatchInput::none());
    assert_eq!(
        m.timer(),
        before - 1,
        "one fight tick burns one timer frame"
    );
    m.tick(MatchInput::none(), MatchInput::none());
    assert_eq!(m.timer(), before - 2);
}

#[test]
fn timer_frozen_after_ko() {
    let mut m = basic_match();
    into_fight(&mut m);
    m.p2.character.life = 0;
    m.tick(MatchInput::none(), MatchInput::none());
    assert_eq!(m.round_state(), RoundState::Ko);
    let frozen = m.timer();
    for _ in 0..10 {
        m.tick(MatchInput::none(), MatchInput::none());
        assert_eq!(m.timer(), frozen, "timer is frozen during the KO hold");
    }
}

#[test]
fn round_state_is_monotonic() {
    fn rank(s: RoundState) -> u8 {
        match s {
            RoundState::Intro => 0,
            RoundState::Fight => 1,
            RoundState::Ko => 2,
            RoundState::Win => 3,
        }
    }
    let mut m = basic_match();
    into_fight(&mut m);
    m.p2.character.life = 0;
    let mut prev = rank(m.round_state());
    for _ in 0..(KO_FRAMES + 1) {
        m.tick(MatchInput::none(), MatchInput::none());
        let now = rank(m.round_state());
        assert!(now >= prev, "round state went backwards: {prev} -> {now}");
        prev = now;
    }
    assert_eq!(m.round_state(), RoundState::Win);
}

#[test]
fn win_phase_holds_then_advances_round() {
    let mut m = basic_match();
    into_fight(&mut m);
    m.p2.character.life = 0;
    for _ in 0..(KO_FRAMES + 1) {
        m.tick(MatchInput::none(), MatchInput::none());
    }
    assert_eq!(m.round_state(), RoundState::Win);
    assert_eq!(m.winner(), Some(Winner::P1), "round winner decided in Win");
    assert_eq!(m.round_number(), 1, "still round 1 while Win is displayed");
    m.tick(MatchInput::none(), MatchInput::none());
    assert_eq!(
        m.round_state(),
        RoundState::Intro,
        "Win advances to next round"
    );
    assert_eq!(m.round_number(), 2, "round_number incremented out of Win");
    assert_eq!(m.p1_round_wins(), 1, "the round win was credited");
    assert_eq!(
        m.winner(),
        None,
        "current-round winner cleared for the new round"
    );
}

#[test]
fn winner_is_none_before_decision() {
    let mut m = basic_match();
    assert_eq!(m.winner(), None, "no winner during intro");
    into_fight(&mut m);
    assert_eq!(m.winner(), None, "no winner at fight start");
}

#[test]
fn double_ko_is_a_draw() {
    let mut m = basic_match();
    into_fight(&mut m);
    m.p1.character.life = 0;
    m.p2.character.life = 0;
    m.tick(MatchInput::none(), MatchInput::none());
    assert_eq!(m.winner(), Some(Winner::Draw), "both down is a draw");
    assert!(matches!(m.round_state(), RoundState::Ko | RoundState::Win));
}

#[test]
fn p1_ko_makes_p2_win() {
    let mut m = basic_match();
    into_fight(&mut m);
    m.p1.character.life = 0;
    m.tick(MatchInput::none(), MatchInput::none());
    assert_eq!(m.winner(), Some(Winner::P2));
    assert_eq!(m.round_state(), RoundState::Ko);
}

#[test]
fn negative_life_counts_as_ko() {
    let mut m = basic_match();
    into_fight(&mut m);
    m.p2.character.life = -100;
    m.tick(MatchInput::none(), MatchInput::none());
    assert_eq!(m.round_state(), RoundState::Ko);
    assert_eq!(m.winner(), Some(Winner::P1));
}

#[test]
fn time_over_equal_life_is_draw() {
    let mut p1c = fighter();
    p1c.pos = vec2(-50.0, 0.0);
    p1c.life = 600;
    let mut p2c = fighter();
    p2c.pos = vec2(50.0, 0.0);
    p2c.life = 600;
    let p1 = Player::new(p1c, defender_loaded());
    let p2 = Player::new(p2c, defender_loaded());
    let mut m = Game::with_round_seconds(p1, p2, bounds(-200.0, 200.0), 1);
    into_fight(&mut m);
    for _ in 0..(TICKS_PER_SECOND + 2) {
        m.tick(MatchInput::none(), MatchInput::none());
        if m.round_state() != RoundState::Fight {
            break;
        }
    }
    assert_ne!(m.round_state(), RoundState::Fight);
    assert_eq!(
        m.winner(),
        Some(Winner::Draw),
        "equal life at time over draws"
    );
}

#[test]
fn time_over_p2_more_life_wins() {
    let mut p1c = fighter();
    p1c.pos = vec2(-50.0, 0.0);
    p1c.life = 300;
    let mut p2c = fighter();
    p2c.pos = vec2(50.0, 0.0);
    p2c.life = 900;
    let p1 = Player::new(p1c, defender_loaded());
    let p2 = Player::new(p2c, defender_loaded());
    let mut m = Game::with_round_seconds(p1, p2, bounds(-200.0, 200.0), 1);
    into_fight(&mut m);
    for _ in 0..(TICKS_PER_SECOND + 2) {
        m.tick(MatchInput::none(), MatchInput::none());
        if m.round_state() != RoundState::Fight {
            break;
        }
    }
    assert_eq!(m.winner(), Some(Winner::P2));
}

#[test]
fn compare_life_covers_all_orderings() {
    assert_eq!(compare_life(100, 50), Winner::P1);
    assert_eq!(compare_life(50, 100), Winner::P2);
    assert_eq!(compare_life(50, 50), Winner::Draw);
}

#[test]
fn no_combat_during_intro() {
    let mut p1c = fighter();
    p1c.pos = vec2(0.0, 0.0);
    p1c.facing = Facing::Right;
    let mut p2c = fighter();
    p2c.pos = vec2(60.0, 0.0);
    p2c.facing = Facing::Left;
    let p1 = Player::new(p1c, attacker_loaded());
    let p2 = Player::new(p2c, defender_loaded());
    let mut m = Game::new(p1, p2, bounds(-300.0, 300.0));
    assert_eq!(m.round_state(), RoundState::Intro);

    let life_before = m.p2().life();
    for _ in 0..5 {
        m.p1.character.anim = 200;
        m.p1.character.anim_elem = 0;
        m.p1.character.move_type = MoveType::Attack;
        m.p1.character.active_hitdef = Some(sample_hitdef().def());
        m.p1.character.move_contact = false;
        m.p2.character.anim = 0;
        m.p2.character.anim_elem = 0;
        m.p2.character.state_type = StateType::Standing;
        assert_eq!(m.round_state(), RoundState::Intro, "still in intro");
        m.tick(MatchInput::none(), MatchInput::none());
    }
    assert_eq!(
        m.p2().life(),
        life_before,
        "no damage may be dealt during the intro phase"
    );
}

#[test]
fn no_combat_during_ko() {
    let mut p1c = fighter();
    p1c.pos = vec2(0.0, 0.0);
    p1c.facing = Facing::Right;
    let mut p2c = fighter();
    p2c.pos = vec2(60.0, 0.0);
    p2c.facing = Facing::Left;
    let p1 = Player::new(p1c, attacker_loaded());
    let p2 = Player::new(p2c, defender_loaded());
    let mut m = Game::new(p1, p2, bounds(-300.0, 300.0));
    into_fight(&mut m);
    m.p1.character.life = 0;
    m.tick(MatchInput::none(), MatchInput::none());
    assert_eq!(m.round_state(), RoundState::Ko);

    let p2_life = m.p2().life();
    for _ in 0..5 {
        m.p1.character.anim = 200;
        m.p1.character.anim_elem = 0;
        m.p1.character.move_type = MoveType::Attack;
        m.p1.character.active_hitdef = Some(sample_hitdef().def());
        m.p1.character.move_contact = false;
        m.p2.character.anim = 0;
        m.p2.character.anim_elem = 0;
        m.p2.character.state_type = StateType::Standing;
        m.tick(MatchInput::none(), MatchInput::none());
    }
    assert_eq!(m.p2().life(), p2_life, "no combat during the KO hold");
}

#[test]
fn combat_runs_both_directions() {
    let mut p1c = fighter();
    p1c.pos = vec2(0.0, 0.0);
    p1c.facing = Facing::Right;
    let mut p2c = fighter();
    p2c.pos = vec2(40.0, 0.0);
    p2c.facing = Facing::Left;
    let p1 = Player::new(p1c, attacker_loaded());
    let p2 = Player::new(p2c, attacker_loaded());
    let mut m = Game::new(p1, p2, bounds(-300.0, 300.0));
    into_fight(&mut m);

    let p1_before = m.p1().life();
    let p2_before = m.p2().life();
    m.p1.character.anim = 200;
    m.p1.character.anim_elem = 0;
    m.p1.character.move_type = MoveType::Attack;
    m.p1.character.active_hitdef = Some(sample_hitdef().def());
    m.p1.character.move_contact = false;
    m.p2.character.anim = 0;
    m.p2.character.anim_elem = 0;
    m.p2.character.state_type = StateType::Standing;
    m.p2.character.active_hitdef = None;
    m.tick(MatchInput::none(), MatchInput::none());
    assert!(m.p2().life() < p2_before, "P1's attack must damage P2");

    if m.round_state() != RoundState::Fight {
        return;
    }
    m.p2.character.anim = 200;
    m.p2.character.anim_elem = 0;
    m.p2.character.move_type = MoveType::Attack;
    m.p2.character.active_hitdef = Some(sample_hitdef().def());
    m.p2.character.move_contact = false;
    m.p1.character.anim = 0;
    m.p1.character.anim_elem = 0;
    m.p1.character.state_type = StateType::Standing;
    m.p1.character.active_hitdef = None;
    m.tick(MatchInput::none(), MatchInput::none());
    assert!(m.p1().life() < p1_before, "P2's attack must damage P1");
}

#[test]
fn hitonce_prevents_double_damage() {
    let mut p1c = fighter();
    p1c.pos = vec2(0.0, 0.0);
    p1c.facing = Facing::Right;
    let mut p2c = fighter();
    p2c.pos = vec2(60.0, 0.0);
    p2c.facing = Facing::Left;
    let p1 = Player::new(p1c, attacker_loaded());
    let p2 = Player::new(p2c, defender_loaded());
    let mut m = Game::new(p1, p2, bounds(-300.0, 300.0));
    into_fight(&mut m);
    m.p1.character.anim = 200;
    m.p1.character.anim_elem = 0;
    m.p1.character.move_type = MoveType::Attack;
    m.p1.character.active_hitdef = Some(sample_hitdef().def());
    m.p1.character.move_contact = false;
    m.p2.character.anim = 0;
    m.p2.character.anim_elem = 0;
    m.p2.character.state_type = StateType::Standing;

    m.tick(MatchInput::none(), MatchInput::none());
    let after_first = m.p2().life();
    assert!(after_first < m.p2().life_max(), "first frame connects");
    for _ in 0..4 {
        m.p2.character.anim = 0;
        m.p2.character.anim_elem = 0;
        m.p2.character.state_type = StateType::Standing;
        if m.round_state() != RoundState::Fight {
            break;
        }
        m.tick(MatchInput::none(), MatchInput::none());
    }
    assert_eq!(
        m.p2().life(),
        after_first,
        "hitonce: an already-connected move must not damage again"
    );
}

#[test]
fn missing_attack_box_does_not_connect() {
    let mut p1c = fighter();
    p1c.pos = vec2(0.0, 0.0);
    p1c.facing = Facing::Right;
    let mut p2c = fighter();
    p2c.pos = vec2(20.0, 0.0);
    p2c.facing = Facing::Left;
    let p1 = Player::new(p1c, attacker_loaded());
    let p2 = Player::new(p2c, defender_loaded());
    let mut m = Game::new(p1, p2, bounds(-300.0, 300.0));
    into_fight(&mut m);

    let before = m.p2().life();
    for _ in 0..5 {
        m.p1.character.anim = 0;
        m.p1.character.anim_elem = 0;
        m.p1.character.move_type = MoveType::Attack;
        m.p1.character.active_hitdef = Some(sample_hitdef().def());
        m.p1.character.move_contact = false;
        if m.round_state() != RoundState::Fight {
            break;
        }
        m.tick(MatchInput::none(), MatchInput::none());
    }
    assert_eq!(m.p2().life(), before, "no Clsn1 -> no contact, no damage");
}

#[test]
fn empty_air_ticks_safely() {
    let empty = AirFile {
        actions: HashMap::new(),
    };
    let p1 = Player::new(fighter(), loaded_with(empty.clone()));
    let p2 = Player::new(fighter(), loaded_with(empty));
    let mut m = Game::new(p1, p2, StageBounds::default());
    for _ in 0..120 {
        m.tick(MatchInput::none(), MatchInput::none());
    }
    assert!(matches!(
        m.round_state(),
        RoundState::Fight | RoundState::Ko | RoundState::Win
    ));
}

#[test]
fn player_push_separation_is_exact() {
    let mut p1c = fighter();
    p1c.pos = vec2(0.0, 0.0);
    let mut p2c = fighter();
    p2c.pos = vec2(0.0, 0.0);
    let p1 = Player::new(p1c, defender_loaded());
    let p2 = Player::new(p2c, defender_loaded());
    let mut m = Game::new(p1, p2, bounds(-300.0, 300.0));
    m.tick(MatchInput::none(), MatchInput::none());
    let dx = m.p2().pos().x.f() - m.p1().pos().x.f();
    assert!(
        (dx - 30.0).abs() < 1e-3,
        "coincident default bodies separate to centers 30 apart, got {dx}"
    );
    let inner_overlap = |m: &Game| {
        let p1_right = m.p1().pos().x.f() + m.p1().push_body_right_half().f();
        let p2_left = m.p2().pos().x.f() - m.p2().push_body_left_half().f();
        p1_right - p2_left
    };
    let after_first = inner_overlap(&m);
    m.tick(MatchInput::none(), MatchInput::none());
    let after_second = inner_overlap(&m);
    assert!(
        after_second < after_first + 1e-6,
        "repeated push must not increase overlap: {after_first} -> {after_second}"
    );
}

#[test]
fn player_push_leaves_separated_characters_untouched() {
    let mut p1c = fighter();
    p1c.pos = vec2(-100.0, 0.0);
    let mut p2c = fighter();
    p2c.pos = vec2(100.0, 0.0);
    let p1 = Player::new(p1c, defender_loaded());
    let p2 = Player::new(p2c, defender_loaded());
    let mut m = Game::new(p1, p2, bounds(-300.0, 300.0));
    m.tick(MatchInput::none(), MatchInput::none());
    assert!((m.p1().pos().x.f() - -100.0).abs() < 1e-3, "P1 unmoved");
    assert!((m.p2().pos().x.f() - 100.0).abs() < 1e-3, "P2 unmoved");
}

#[test]
fn clamp_with_too_narrow_stage_is_finite() {
    let mut p1c = fighter();
    p1c.pos = vec2(500.0, 0.0);
    let mut p2c = fighter();
    p2c.pos = vec2(-500.0, 0.0);
    let p1 = Player::new(p1c, defender_loaded());
    let p2 = Player::new(p2c, defender_loaded());
    let mut m = Game::new(p1, p2, bounds(-5.0, 5.0));
    m.tick(MatchInput::none(), MatchInput::none());
    assert!(m.p1().pos().x.f().is_finite(), "P1 x stays finite");
    assert!(m.p2().pos().x.f().is_finite(), "P2 x stays finite");
}

#[test]
fn reversed_bounds_do_not_panic() {
    let mut p1c = fighter();
    p1c.pos = vec2(50.0, 0.0);
    let mut p2c = fighter();
    p2c.pos = vec2(-50.0, 0.0);
    let p1 = Player::new(p1c, defender_loaded());
    let p2 = Player::new(p2c, defender_loaded());
    let mut m = Game::new(p1, p2, bounds(100.0, -100.0));
    for _ in 0..5 {
        m.tick(MatchInput::none(), MatchInput::none());
    }
    assert!(m.p1().pos().x.f().is_finite());
    assert!(m.p2().pos().x.f().is_finite());
}

#[test]
fn long_run_stays_finite_and_on_stage() {
    let mut m = basic_match();
    let bounds = m.bounds();
    for _ in 0..600 {
        m.tick(MatchInput::none(), MatchInput::none());
        for p in [m.p1(), m.p2()] {
            assert!(p.pos().x.f().is_finite(), "position must stay finite");
            let right = p.pos().x.f() + p.push_body_right_half().f();
            let left = p.pos().x.f() - p.push_body_left_half().f();
            assert!(
                right <= bounds.right.f() + 1.0 && left >= bounds.left.f() - 1.0,
                "fighter drifted off stage: [{left}, {right}] vs [{}, {}]",
                bounds.left.f(),
                bounds.right.f()
            );
        }
    }
}

#[test]
fn read_accessors_reflect_character_state() {
    let mut c = fighter();
    c.pos = vec2(12.0, -34.0);
    c.facing = Facing::Left;
    c.anim = 42;
    c.anim_elem = 3;
    c.life = 777;
    c.power = 1500;
    c.power_max = 3000;
    let p = Player::new(c, defender_loaded());
    assert_eq!(p.pos(), vec2(12.0, -34.0));
    assert_eq!(p.facing(), Facing::Left);
    assert_eq!(p.anim(), 42);
    assert_eq!(p.anim_elem(), 3);
    assert_eq!(p.life(), 777);
    assert_eq!(p.life_max(), 1000);
    assert_eq!(
        p.power(),
        1500,
        "power accessor reflects the live character"
    );
    assert_eq!(
        p.power_max(),
        3000,
        "power_max accessor reflects the live character"
    );
}

#[test]
fn power_accessor_surfaces_meter_and_carries_across_rounds() {
    let p1 = Player::new(fighter(), defender_loaded());
    let p2 = Player::new(fighter(), defender_loaded());
    let mut m = Game::new(p1, p2, StageBounds::default());
    m.p1.character.power = 1234;
    let built = m.p1().power();
    assert_eq!(built, 1234, "accessor reflects the meter the sim tracks");
    assert!(m.p1().power_max() > 0, "power_max is a sane denominator");
    m.p2.character.life = 0;
    for _ in 0..(INTRO_FRAMES + KO_FRAMES + 4) {
        m.tick(MatchInput::none(), MatchInput::none());
    }
    assert_eq!(
        m.round_number(),
        2,
        "the match advanced into the next round (reset ran)"
    );
    assert_eq!(
        m.p1().power(),
        built,
        "power carries across the round reset (not zeroed) and stays visible"
    );
}

#[test]
fn match_input_none_matches_default() {
    assert_eq!(MatchInput::none(), MatchInput::default());
}

#[test]
fn crouching_character_keeps_facing() {
    let mut p1c = fighter();
    p1c.pos = vec2(50.0, 0.0); // right side; "correct" facing is Left
    p1c.facing = Facing::Right;
    p1c.state_type = StateType::Crouching;
    p1c.move_type = MoveType::Idle;
    let mut p2c = fighter();
    p2c.pos = vec2(-50.0, 0.0);
    let p1 = Player::new(p1c, defender_loaded());
    let p2 = Player::new(p2c, defender_loaded());
    let mut m = Game::new(p1, p2, bounds(-300.0, 300.0));
    into_fight(&mut m);
    m.p1.character.facing = Facing::Right;
    m.p1.character.state_type = StateType::Crouching;
    m.p1.character.move_type = MoveType::Idle;
    m.tick(MatchInput::none(), MatchInput::none());
    assert_eq!(
        m.p1().facing(),
        Facing::Right,
        "a crouching character is not neutral for facep2"
    );
}

#[test]
fn being_hit_character_keeps_facing() {
    let mut p1c = fighter();
    p1c.pos = vec2(50.0, 0.0);
    p1c.facing = Facing::Right;
    let mut p2c = fighter();
    p2c.pos = vec2(-50.0, 0.0);
    let p1 = Player::new(p1c, defender_loaded());
    let p2 = Player::new(p2c, defender_loaded());
    let mut m = Game::new(p1, p2, bounds(-300.0, 300.0));
    into_fight(&mut m);
    m.p1.character.facing = Facing::Right;
    m.p1.character.state_type = StateType::Standing;
    m.p1.character.move_type = MoveType::BeingHit;
    m.tick(MatchInput::none(), MatchInput::none());
    assert_eq!(
        m.p1().facing(),
        Facing::Right,
        "get-hit reaction keeps facing"
    );
}

#[test]
fn neutral_facing_state_predicate() {
    let mut c = fighter();
    c.state_type = StateType::Standing;
    c.move_type = MoveType::Idle;
    assert!(is_neutral_facing_state(&c));
    c.state_type = StateType::Unchanged;
    assert!(is_neutral_facing_state(&c));
    c.move_type = MoveType::Attack;
    assert!(!is_neutral_facing_state(&c), "attacking is not neutral");
    c.move_type = MoveType::Idle;
    c.state_type = StateType::Air;
    assert!(!is_neutral_facing_state(&c), "airborne is not neutral");
    c.state_type = StateType::Crouching;
    assert!(!is_neutral_facing_state(&c), "crouching is not neutral");
}

#[test]
fn facings_toward_tie_break() {
    assert_eq!(facings_toward(sc(0.0), sc(0.0)), (Facing::Right, Facing::Left));
    assert_eq!(facings_toward(sc(-10.0), sc(10.0)), (Facing::Right, Facing::Left));
    assert_eq!(facings_toward(sc(10.0), sc(-10.0)), (Facing::Left, Facing::Right));
}

#[test]
fn ko_removes_control() {
    let mut m = basic_match();
    into_fight(&mut m);
    assert!(m.p1().character.ctrl && m.p2().character.ctrl);
    m.p2.character.life = 0;
    m.tick(MatchInput::none(), MatchInput::none());
    assert_eq!(m.round_state(), RoundState::Ko);
    assert!(!m.p1().character.ctrl, "control revoked at KO");
    assert!(!m.p2().character.ctrl, "control revoked at KO");
}

#[test]
fn bounds_accessor_round_trips() {
    let b = bounds(-123.0, 456.0);
    let p1 = Player::new(fighter(), defender_loaded());
    let p2 = Player::new(fighter(), defender_loaded());
    let m = Game::new(p1, p2, b);
    assert_eq!(m.bounds(), b);
    assert_eq!(m.bounds().left.f(), -123.0);
    assert_eq!(m.bounds().right.f(), 456.0);
}

#[test]
fn stage_bounds_default_is_symmetric() {
    let b = StageBounds::default();
    assert_eq!(b.left.f(), -200.0);
    assert_eq!(b.right.f(), 200.0);
    assert!(b.left.f() < b.right.f());
}

#[test]
fn match_starts_best_of_three_round_one() {
    let m = basic_match();
    assert_eq!(
        m.rounds_to_win(),
        DEFAULT_ROUNDS_TO_WIN,
        "default best of three"
    );
    assert_eq!(m.rounds_to_win(), 2);
    assert_eq!(m.round_number(), 1, "first round is round 1");
    assert_eq!(m.p1_round_wins(), 0);
    assert_eq!(m.p2_round_wins(), 0);
    assert_eq!(m.match_state(), MatchState::InProgress);
    assert_eq!(m.match_winner(), None, "no match winner at the start");
}

#[test]
fn rounds_to_win_override_and_clamp() {
    let p1 = Player::new(fighter(), defender_loaded());
    let p2 = Player::new(fighter(), defender_loaded());
    let m = Game::with_rounds_to_win(p1, p2, StageBounds::default(), 3);
    assert_eq!(m.rounds_to_win(), 3, "explicit best of five");

    let p1 = Player::new(fighter(), defender_loaded());
    let p2 = Player::new(fighter(), defender_loaded());
    let m = Game::with_rounds_to_win(p1, p2, StageBounds::default(), 0);
    assert_eq!(m.rounds_to_win(), 1, "non-positive target clamps to 1");

    let mut m = basic_match();
    m.set_rounds_to_win(-4);
    assert_eq!(m.rounds_to_win(), 1, "setter clamps a non-positive target");
    m.set_rounds_to_win(5);
    assert_eq!(m.rounds_to_win(), 5);
}

#[test]
fn ko_p2_twice_wins_match_for_p1() {
    let mut p1c = fighter();
    p1c.pos = vec2(-50.0, 0.0);
    let mut p2c = fighter();
    p2c.pos = vec2(50.0, 0.0);
    let p1 = Player::new(p1c, defender_loaded());
    let p2 = Player::new(p2c, defender_loaded());
    let mut m = Game::new(p1, p2, bounds(-200.0, 200.0));

    let p1_start = m.p1().pos();
    let p2_start = m.p2().pos();
    into_fight(&mut m);
    m.p2.character.life = 400;
    m.p1.character.pos.x = sc(-10.0);
    m.p2.character.pos.x = sc(10.0);
    ko_p2_and_settle(&mut m);

    assert_eq!(m.p1_round_wins(), 1, "P1 credited the round-1 KO");
    assert_eq!(m.p2_round_wins(), 0);
    assert_eq!(
        m.match_state(),
        MatchState::InProgress,
        "match not over after 1"
    );
    assert_eq!(m.match_winner(), None);
    assert_eq!(m.round_number(), 2, "round_number incremented to 2");
    assert_eq!(m.round_state(), RoundState::Intro, "reset re-enters Intro");
    assert_eq!(m.winner(), None, "current-round winner cleared on reset");
    assert_eq!(m.p1().life(), m.p1().life_max(), "P1 life restored to max");
    assert_eq!(m.p2().life(), m.p2().life_max(), "P2 life restored to max");
    assert_eq!(m.p1().pos(), p1_start, "P1 back at its start position");
    assert_eq!(m.p2().pos(), p2_start, "P2 back at its start position");
    assert_eq!(m.p1().facing(), Facing::Right, "P1 re-faces the opponent");
    assert_eq!(m.p2().facing(), Facing::Left, "P2 re-faces the opponent");
    assert_eq!(m.timer(), DEFAULT_ROUND_SECONDS * TICKS_PER_SECOND);
    into_fight(&mut m);
    ko_p2_and_settle(&mut m);

    assert_eq!(m.p1_round_wins(), 2, "P1 reached the win threshold");
    assert_eq!(m.match_state(), MatchState::Over, "match is now over");
    assert_eq!(m.match_winner(), Some(Winner::P1), "P1 wins the match");
    assert_eq!(m.round_number(), 2, "no further round after the match ends");
}

#[test]
fn split_rounds_advance_to_round_three() {
    let mut m = basic_match();
    into_fight(&mut m);
    ko_p2_and_settle(&mut m);
    assert_eq!(m.p1_round_wins(), 1);
    assert_eq!(m.round_number(), 2);
    assert_eq!(m.match_state(), MatchState::InProgress);
    into_fight(&mut m);
    ko_p1_and_settle(&mut m);
    assert_eq!(m.p1_round_wins(), 1, "P1 still on one");
    assert_eq!(m.p2_round_wins(), 1, "P2 now on one");
    assert_eq!(m.match_state(), MatchState::InProgress, "1-1 is undecided");
    assert_eq!(m.match_winner(), None);
    assert_eq!(m.round_number(), 3, "the split advances to round 3");
    assert_eq!(m.round_state(), RoundState::Intro);
}

#[test]
fn time_over_credits_higher_life_fighter() {
    let mut p1c = fighter();
    p1c.pos = vec2(-50.0, 0.0);
    p1c.life = 800;
    let mut p2c = fighter();
    p2c.pos = vec2(50.0, 0.0);
    p2c.life = 500;
    let p1 = Player::new(p1c, defender_loaded());
    let p2 = Player::new(p2c, defender_loaded());
    let mut m = Game::with_round_seconds(p1, p2, bounds(-200.0, 200.0), 1);
    into_fight(&mut m);
    for _ in 0..(TICKS_PER_SECOND + 1) {
        m.tick(MatchInput::none(), MatchInput::none());
        if m.round_state() != RoundState::Fight {
            break;
        }
    }
    assert_ne!(m.round_state(), RoundState::Fight, "timer expired");
    assert_eq!(m.winner(), Some(Winner::P1), "more life wins the round");
    for _ in 0..(KO_FRAMES + 1) {
        m.tick(MatchInput::none(), MatchInput::none());
    }
    assert_eq!(m.p1_round_wins(), 1, "time-over winner credited the round");
    assert_eq!(m.p2_round_wins(), 0);
    assert_eq!(
        m.round_number(),
        2,
        "time-over round still resets for the next"
    );
    assert_eq!(m.round_state(), RoundState::Intro);
}

#[test]
fn draw_round_credits_neither_and_continues() {
    let mut m = basic_match();
    into_fight(&mut m);
    m.p1.character.life = 0;
    m.p2.character.life = 0;
    m.tick(MatchInput::none(), MatchInput::none());
    assert_eq!(m.winner(), Some(Winner::Draw), "double KO is a draw round");
    for _ in 0..(KO_FRAMES + 1) {
        m.tick(MatchInput::none(), MatchInput::none());
    }
    assert_eq!(m.p1_round_wins(), 0, "a draw credits neither player");
    assert_eq!(m.p2_round_wins(), 0);
    assert_eq!(
        m.match_state(),
        MatchState::InProgress,
        "draw keeps the match live"
    );
    assert_eq!(m.match_winner(), None);
    assert_eq!(
        m.round_number(),
        2,
        "a drawn round still advances to the next"
    );
    assert_eq!(m.round_state(), RoundState::Intro);
}

#[test]
fn match_over_is_terminal() {
    let p1 = Player::new(fighter(), defender_loaded());
    let p2 = Player::new(fighter(), defender_loaded());
    let mut m = Game::with_rounds_to_win(p1, p2, StageBounds::default(), 1);
    into_fight(&mut m);
    ko_p2_and_settle(&mut m);

    assert_eq!(
        m.match_state(),
        MatchState::Over,
        "best-of-one ends in one KO"
    );
    assert_eq!(m.match_winner(), Some(Winner::P1));
    assert_eq!(
        m.round_number(),
        1,
        "no reset when the match is already won"
    );
    let (state, winner, round) = (m.match_state(), m.match_winner(), m.round_number());
    for _ in 0..120 {
        m.tick(MatchInput::none(), MatchInput::none());
        assert_eq!(m.match_state(), state, "match-over is terminal");
        assert_eq!(m.match_winner(), winner, "match winner is stable");
        assert_eq!(m.round_number(), round, "round number stable once over");
    }
}

#[test]
fn power_carries_across_rounds() {
    let mut m = basic_match();
    into_fight(&mut m);
    m.p1.character.power = 1234;
    m.p2.character.power = 567;
    ko_p2_and_settle(&mut m);
    assert_eq!(m.round_number(), 2, "advanced to round 2");
    assert_eq!(
        m.p1().character.power,
        1234,
        "P1 power carries across rounds"
    );
    assert_eq!(
        m.p2().character.power,
        567,
        "P2 power carries across rounds"
    );
}

#[test]
fn round_reset_clears_transient_combat_state() {
    let mut m = basic_match();
    into_fight(&mut m);
    m.p2.character.hitpause = 12;
    m.p2.character.shaketime = 8;
    m.p2.character.active_hitdef = Some(sample_hitdef().def());
    m.p2.character.move_type = MoveType::BeingHit;
    m.p2.character.vel = vec2(7.0, -3.0);
    ko_p2_and_settle(&mut m);

    assert_eq!(m.round_number(), 2);
    let p2 = m.p2();
    assert_eq!(p2.character.hitpause, 0, "hit-pause cleared on reset");
    assert_eq!(p2.character.shaketime, 0, "hit-shake cleared on reset");
    assert!(
        p2.character.active_hitdef.is_none(),
        "active HitDef cleared"
    );
    assert_eq!(p2.character.move_type, MoveType::Idle, "back to idle");
    assert_eq!(
        p2.character.state_type,
        StateType::Standing,
        "back to standing"
    );
    assert_eq!(p2.character.vel, vec2(0.0, 0.0), "velocity zeroed");
    assert_eq!(p2.character.state_no, 0, "state machine back to state 0");
}

#[test]
fn next_round_resumes_fighting() {
    let mut m = basic_match();
    into_fight(&mut m);
    ko_p2_and_settle(&mut m);
    assert_eq!(m.round_state(), RoundState::Intro, "reset re-enters Intro");
    into_fight(&mut m);
    assert_eq!(m.round_state(), RoundState::Fight, "next round goes live");
    let before = m.timer();
    m.tick(MatchInput::none(), MatchInput::none());
    assert_eq!(m.timer(), before - 1, "the reset round clock counts down");
}

#[test]
fn with_config_applies_both_clamps() {
    let p1 = Player::new(fighter(), defender_loaded());
    let p2 = Player::new(fighter(), defender_loaded());
    let m = Game::with_config(p1, p2, StageBounds::default(), -3, -7);
    assert_eq!(
        m.timer(),
        0,
        "negative round_seconds clamps to a 0-frame timer"
    );
    assert_eq!(
        m.rounds_to_win(),
        1,
        "non-positive rounds_to_win clamps to 1"
    );
    let p1 = Player::new(fighter(), defender_loaded());
    let p2 = Player::new(fighter(), defender_loaded());
    let m = Game::with_config(p1, p2, StageBounds::default(), 5, 4);
    assert_eq!(m.timer(), 5 * TICKS_PER_SECOND, "round_seconds honored");
    assert_eq!(m.rounds_to_win(), 4, "rounds_to_win honored");
    assert_eq!(m.round_number(), 1);
    assert_eq!(m.match_state(), MatchState::InProgress);
}

#[test]
fn best_of_five_needs_three_round_wins() {
    let p1 = Player::new(fighter(), defender_loaded());
    let p2 = Player::new(fighter(), defender_loaded());
    let mut m = Game::with_rounds_to_win(p1, p2, bounds(-200.0, 200.0), 3);
    for expected_wins in 1..=2 {
        into_fight(&mut m);
        ko_p2_and_settle(&mut m);
        assert_eq!(m.p1_round_wins(), expected_wins);
        assert_eq!(m.match_state(), MatchState::InProgress, "not over before 3");
        assert_eq!(m.match_winner(), None);
        assert_eq!(m.round_number(), expected_wins + 1, "round_number climbs");
        assert_eq!(m.round_state(), RoundState::Intro, "reset between rounds");
    }
    into_fight(&mut m);
    ko_p2_and_settle(&mut m);
    assert_eq!(
        m.p1_round_wins(),
        3,
        "P1 reached the best-of-five threshold"
    );
    assert_eq!(m.match_state(), MatchState::Over);
    assert_eq!(m.match_winner(), Some(Winner::P1));
    assert_eq!(m.round_number(), 3, "no reset once the match is decided");
}

#[test]
fn repeated_draws_never_end_the_match() {
    let mut m = basic_match();
    for round in 1..=4 {
        into_fight(&mut m);
        assert_eq!(m.round_number(), round, "round_number tracks each draw");
        m.p1.character.life = 0;
        m.p2.character.life = 0;
        m.tick(MatchInput::none(), MatchInput::none());
        assert_eq!(m.winner(), Some(Winner::Draw));
        for _ in 0..(KO_FRAMES + 1) {
            m.tick(MatchInput::none(), MatchInput::none());
        }
        assert_eq!(m.p1_round_wins(), 0, "draws never credit P1");
        assert_eq!(m.p2_round_wins(), 0, "draws never credit P2");
        assert_eq!(
            m.match_state(),
            MatchState::InProgress,
            "a draw never ends it"
        );
        assert_eq!(m.match_winner(), None, "match winner is never Draw");
    }
    assert_eq!(m.round_number(), 5, "four draws advanced to round 5");
}

#[test]
fn lowering_threshold_ends_match_on_next_decision() {
    let mut m = basic_match();
    into_fight(&mut m);
    ko_p2_and_settle(&mut m);
    assert_eq!(m.p1_round_wins(), 1);
    assert_eq!(
        m.match_state(),
        MatchState::InProgress,
        "1 < 2, still going"
    );
    m.set_rounds_to_win(1);
    assert_eq!(m.rounds_to_win(), 1);
    assert_eq!(
        m.match_state(),
        MatchState::InProgress,
        "lowering the target does not retroactively end the match"
    );
    into_fight(&mut m);
    ko_p2_and_settle(&mut m);
    assert_eq!(
        m.match_state(),
        MatchState::Over,
        "next decision ends the match"
    );
    assert_eq!(m.match_winner(), Some(Winner::P1));
    assert_eq!(m.p1_round_wins(), 2);
}

#[test]
fn round_reset_restores_life_to_captured_max() {
    let mut m = basic_match();
    let captured_max = m.p2().life_max();
    into_fight(&mut m);
    m.p2.character.life_max = 12345;
    m.p2.character.holding_back = true;
    m.p1.character.holding_back = true;
    ko_p2_and_settle(&mut m);

    assert_eq!(m.round_number(), 2);
    assert_eq!(
        m.p2().life_max(),
        captured_max,
        "life_max restored from the captured reset template"
    );
    assert_eq!(
        m.p2().life(),
        captured_max,
        "life restored to the captured max"
    );
    assert!(!m.p1().character.ctrl, "control off during the reset intro");
    assert!(!m.p2().character.ctrl);
    assert!(
        !m.p1().character.holding_back,
        "guard latch cleared on reset"
    );
    assert!(!m.p2().character.holding_back);
}

#[test]
fn two_time_over_wins_decide_the_match() {
    let build = || {
        let mut p1c = fighter();
        p1c.pos = vec2(-50.0, 0.0);
        p1c.life = 900;
        let mut p2c = fighter();
        p2c.pos = vec2(50.0, 0.0);
        p2c.life = 100;
        let p1 = Player::new(p1c, defender_loaded());
        let p2 = Player::new(p2c, defender_loaded());
        Game::with_round_seconds(p1, p2, bounds(-200.0, 200.0), 1)
    };
    let mut m = build();

    let run_time_over = |m: &mut Game| {
        into_fight(m);
        for _ in 0..(TICKS_PER_SECOND + 1) {
            m.tick(MatchInput::none(), MatchInput::none());
            if m.round_state() != RoundState::Fight {
                break;
            }
        }
        assert_ne!(m.round_state(), RoundState::Fight, "timer expired");
        for _ in 0..(KO_FRAMES + 1) {
            m.tick(MatchInput::none(), MatchInput::none());
        }
    };
    run_time_over(&mut m);
    assert_eq!(m.p1_round_wins(), 1);
    assert_eq!(m.match_state(), MatchState::InProgress);
    assert_eq!(m.round_number(), 2);
    assert_eq!(m.p1().life(), m.p1().life_max());
    assert_eq!(m.p2().life(), m.p2().life_max());
    into_fight(&mut m);
    m.p2.character.life = 50;
    for _ in 0..(TICKS_PER_SECOND + 1) {
        m.tick(MatchInput::none(), MatchInput::none());
        if m.round_state() != RoundState::Fight {
            break;
        }
    }
    assert_eq!(
        m.winner(),
        Some(Winner::P1),
        "P1 ahead at the second time-over"
    );
    for _ in 0..(KO_FRAMES + 1) {
        m.tick(MatchInput::none(), MatchInput::none());
    }
    assert_eq!(m.p1_round_wins(), 2, "P1's second round win");
    assert_eq!(m.match_state(), MatchState::Over);
    assert_eq!(m.match_winner(), Some(Winner::P1));
}

#[test]
fn round_phase_frozen_after_match_over() {
    let p1 = Player::new(fighter(), defender_loaded());
    let p2 = Player::new(fighter(), defender_loaded());
    let mut m = Game::with_rounds_to_win(p1, p2, StageBounds::default(), 1);
    into_fight(&mut m);
    ko_p2_and_settle(&mut m);
    assert_eq!(m.match_state(), MatchState::Over);
    let phase = m.round_state();
    assert_eq!(phase, RoundState::Win, "match ended out of the Win arm");
    m.p1.character.life = 0;
    for _ in 0..30 {
        m.tick(MatchInput::none(), MatchInput::none());
        assert_eq!(
            m.round_state(),
            phase,
            "round phase frozen after match over"
        );
    }
    assert_eq!(m.match_winner(), Some(Winner::P1), "winner unchanged");
}

#[test]
fn match_state_and_winner_enums_are_well_behaved() {
    let a = MatchState::InProgress;
    let b = a;
    assert_eq!(a, b);
    assert_ne!(MatchState::InProgress, MatchState::Over);
    assert!(format!("{:?}", MatchState::Over).contains("Over"));
    assert_ne!(Winner::P1, Winner::P2);
    assert_ne!(Winner::P1, Winner::Draw);
    assert_ne!(Winner::P2, Winner::Draw);
    let w = Winner::Draw;
    assert_eq!(w, w);
    assert!(format!("{:?}", Winner::P1).contains("P1"));
}

#[test]
fn undecided_match_stays_in_round_one() {
    let mut m = basic_match();
    into_fight(&mut m);
    for _ in 0..300 {
        m.tick(MatchInput::none(), MatchInput::none());
    }
    assert_eq!(m.round_number(), 1, "no decision -> still round 1");
    assert_eq!(m.p1_round_wins(), 0);
    assert_eq!(m.p2_round_wins(), 0);
    assert_eq!(m.match_state(), MatchState::InProgress);
    assert_eq!(m.round_state(), RoundState::Fight, "still fighting round 1");
}

#[test]
fn attacker_state_p1stateno_moves_attacker_on_connect() {
    let mut p1c = fighter();
    p1c.pos = vec2(0.0, 0.0);
    p1c.facing = Facing::Right;

    let mut p2c = fighter();
    p2c.pos = vec2(60.0, 0.0);
    p2c.facing = Facing::Left;
    p2c.life = 1000;
    let mut p1_loaded = attacker_loaded();
    p1_loaded.states.push(810);

    let p1 = Player::new(p1c, p1_loaded);
    let p2 = Player::new(p2c, defender_loaded());
    let mut m = Game::new(p1, p2, bounds(-300.0, 300.0));
    into_fight(&mut m);
    let mut hd = sample_hitdef();
    hd.p1stateno = Some(810);
    hd.p2stateno = Some(820);

    for _ in 0..3 {
        m.p1.character.anim = 200;
        m.p1.character.anim_elem = 0;
        m.p1.character.move_type = MoveType::Attack;
        m.p1.character.active_hitdef = Some(hd.def());
        m.p1.character.move_contact = false;
        m.p2.character.anim = 0;
        m.p2.character.anim_elem = 0;
        m.p2.character.state_type = StateType::Standing;
        m.tick(MatchInput::none(), MatchInput::none());
        if m.p1().character.state_no == 810 {
            break;
        }
        if m.round_state() != RoundState::Fight {
            break;
        }
    }

    assert_eq!(
        m.p1().character.state_no,
        810,
        "p1stateno moved the attacker into its throw state"
    );
}

#[test]
fn facing_opposite_is_an_involution() {
    assert_eq!(facing_opposite(Facing::Right), Facing::Left);
    assert_eq!(facing_opposite(Facing::Left), Facing::Right);
    assert_eq!(
        facing_opposite(facing_opposite(Facing::Right)),
        Facing::Right
    );
    assert_eq!(facing_opposite(facing_opposite(Facing::Left)), Facing::Left);
}

#[test]
fn connecting_attack_without_p1stateno_keeps_attacker_state() {
    let mut p1c = fighter();
    p1c.pos = vec2(0.0, 0.0);
    p1c.facing = Facing::Right;
    let mut p2c = fighter();
    p2c.pos = vec2(60.0, 0.0);
    p2c.facing = Facing::Left;
    p2c.life = 1000;

    let p1 = Player::new(p1c, attacker_loaded());
    let p2 = Player::new(p2c, defender_loaded());
    let mut m = Game::new(p1, p2, bounds(-300.0, 300.0));
    into_fight(&mut m);
    let mut hd = sample_hitdef();
    hd.p1stateno = None;
    hd.p2stateno = None;
    m.p1.character.state_no = 200;
    m.p1.character.anim = 200;
    m.p1.character.anim_elem = 0;
    m.p1.character.move_type = MoveType::Attack;
    m.p1.character.active_hitdef = Some(hd.def());
    m.p1.character.move_contact = false;
    m.p2.character.anim = 0;
    m.p2.character.anim_elem = 0;
    m.p2.character.state_type = StateType::Standing;

    m.tick(MatchInput::none(), MatchInput::none());

    assert!(m.p2().life() < 1000, "the attack must connect");
    assert_eq!(
        m.p1().character.state_no,
        200,
        "with no p1stateno the attacker stays in its current state"
    );
}

#[test]
fn width_override_drives_player_push_half_widths() {
    let mut c = fighter();
    c.facing = Facing::Right;
    let mut p = Player::new(c, defender_loaded());
    assert_eq!(p.push_body_right_half().f(), 16.0);
    assert_eq!(p.push_body_left_half().f(), 15.0);
    p.character.cur_width = width(40.0, 8.0);
    assert_eq!(
        p.push_body_right_half().f(),
        40.0,
        "right half = override front (facing right)"
    );
    assert_eq!(
        p.push_body_left_half().f(),
        8.0,
        "left half = override back (facing right)"
    );
    p.character.facing = Facing::Left;
    assert_eq!(
        p.push_body_right_half().f(),
        8.0,
        "right half = override back (facing left)"
    );
    assert_eq!(
        p.push_body_left_half().f(),
        40.0,
        "left half = override front (facing left)"
    );
}

#[test]
fn width_override_widens_player_push_separation() {
    let mut p1c = fighter();
    p1c.pos = vec2(0.0, 0.0);
    p1c.cur_width = width(40.0, 40.0);
    let p1 = Player::new(p1c, defender_loaded());
    let p2 = Player::new(fighter(), defender_loaded());
    let m = Game::new(p1, p2, bounds(-300.0, 300.0));
    assert_eq!(m.p1().push_body_right_half().f(), 40.0);
    assert_eq!(m.p1().push_body_left_half().f(), 40.0);
    let p2_right = m.p2().push_body_right_half().f();
    assert!(
        p2_right == 16.0 || p2_right == 15.0,
        "P2 keeps its static width (16 or 15), got {p2_right}"
    );
}

#[test]
fn noautoturn_suppresses_baseline_face_opponent() {
    let neutral_pair = || {
        let mut a = fighter();
        a.pos = vec2(-50.0, 0.0);
        a.facing = Facing::Right;
        a.state_type = StateType::Standing;
        a.move_type = MoveType::Idle;
        let mut b = fighter();
        b.pos = vec2(50.0, 0.0);
        b.facing = Facing::Right; // "wrong" way; baseline should flip it left
        b.state_type = StateType::Standing;
        b.move_type = MoveType::Idle;
        (a, b)
    };
    let (mut a, mut b) = neutral_pair();
    face_each_other_when_neutral(&mut a, &mut b);
    assert_eq!(b.facing, Facing::Left, "neutral B turns to face A");
    let (mut a, mut b) = neutral_pair();
    b.no_auto_turn = true;
    face_each_other_when_neutral(&mut a, &mut b);
    assert_eq!(b.facing, Facing::Right, "NoAutoTurn keeps B's facing");
    assert_eq!(
        a.facing,
        Facing::Right,
        "A (no assertion) is unaffected / already correct"
    );
}

#[test]
fn connecting_hit_spawns_own_spark_at_contact() {
    let mut hd = sample_hitdef();
    hd.sparkno = -5;
    let mut m = spark_match(hd, 5);

    m.tick(MatchInput::none(), MatchInput::none());

    assert!(m.p2().life() < 1000, "the attack must connect");
    assert_eq!(m.effects().len(), 1, "exactly one spark spawned on the hit");
    let fx = &m.effects()[0];
    assert_eq!(
        fx.side,
        EffectSide::P1,
        "the spark is sourced from the attacker (P1)"
    );
    assert_eq!(fx.anim, 5, "the own-spark plays action 5 (magnitude of -5)");
    assert_eq!(fx.sprite, sprite(10, 0));
    assert!(
        fx.pos.x.f() > 0.0 && fx.pos.x.f() < 60.0,
        "spark anchored in the overlap region, got x={}",
        fx.pos.x.f()
    );
}

#[test]
fn no_hit_spawns_no_spark() {
    let mut hd = sample_hitdef();
    hd.sparkno = -5;
    let mut m = spark_match(hd, 5);
    m.p1.character.pos = vec2(-250.0, 0.0);
    m.p1.character.anim = 200;
    m.p1.character.anim_elem = 0;
    m.p1.character.active_hitdef = Some(
        Attack {
            sparkno: -5,
            ..sample_hitdef()
        }
        .def(),
    );
    m.p1.character.move_contact = false;

    m.tick(MatchInput::none(), MatchInput::none());

    assert_eq!(m.p2().life(), 1000, "no overlap -> no hit");
    assert!(m.effects().is_empty(), "no spark without a connecting hit");
}

#[test]
fn spark_ticks_down_and_expires() {
    let mut hd = sample_hitdef();
    hd.sparkno = -5;
    let mut m = spark_match(hd, 5);
    m.tick(MatchInput::none(), MatchInput::none());
    assert_eq!(m.effects().len(), 1, "spark spawned");
    m.p1.character.active_hitdef = None;
    m.p1.character.move_contact = false;
    let mut ticked = 0;
    for _ in 0..10 {
        if m.effects().is_empty() {
            break;
        }
        m.tick(MatchInput::none(), MatchInput::none());
        ticked += 1;
    }
    assert!(m.effects().is_empty(), "the spark eventually expires");
    assert!(
        ticked <= 6,
        "expiry is bounded by the action lifetime, took {ticked}"
    );
}

#[test]
fn common_spark_spawns_nothing_but_hit_lands() {
    let mut hd = sample_hitdef();
    hd.sparkno = 0;
    let mut m = spark_match(hd, 5);

    m.tick(MatchInput::none(), MatchInput::none());

    assert!(
        m.p2().life() < 1000,
        "a common-spark hit still connects + damages"
    );
    assert!(
        m.effects().is_empty(),
        "no common-fx asset loaded -> common spark is a best-effort skip"
    );
}

#[test]
fn common_spark_spawns_from_loaded_common_fx() {
    let mut hd = sample_hitdef();
    hd.sparkno = 2;
    let mut m = spark_match(hd, 5);
    m.set_common_fx(common_fx_air(2));

    m.tick(MatchInput::none(), MatchInput::none());

    assert!(
        m.p2().life() < 1000,
        "the common-spark hit connects + damages"
    );
    assert_eq!(m.effects().len(), 1, "exactly one common spark spawned");
    let fx = &m.effects()[0];
    assert_eq!(
        fx.side,
        EffectSide::Common,
        "the spark is sourced from the common-fx set, not a fighter"
    );
    assert_eq!(fx.anim, 2, "the common spark plays common action 2");
    assert_eq!(fx.sprite, sprite(2, 0));
}

#[test]
fn common_spark_missing_action_in_loaded_set_spawns_nothing() {
    let mut hd = sample_hitdef();
    hd.sparkno = 7;
    let mut m = spark_match(hd, 5);
    m.set_common_fx(common_fx_air(2));

    m.tick(MatchInput::none(), MatchInput::none());

    assert!(
        m.p2().life() < 1000,
        "the hit lands even when the common action is missing"
    );
    assert!(
        m.effects().is_empty(),
        "a missing common action spawns nothing"
    );
}

#[test]
fn sentinel_and_missing_spark_action_spawn_nothing() {
    let mut hd = sample_hitdef();
    hd.sparkno = -1;
    let mut m = spark_match(hd, 5);
    m.tick(MatchInput::none(), MatchInput::none());
    assert!(m.p2().life() < 1000, "the hit still lands with no spark");
    assert!(m.effects().is_empty(), "-1 sentinel spawns no spark");
    let mut hd2 = sample_hitdef();
    hd2.sparkno = -999;
    let mut m2 = spark_match(hd2, 5);
    m2.tick(MatchInput::none(), MatchInput::none());
    assert!(
        m2.p2().life() < 1000,
        "the hit lands even when the spark action is missing"
    );
    assert!(
        m2.effects().is_empty(),
        "a missing own-spark action spawns nothing"
    );
}

#[test]
fn round_reset_clears_sparks() {
    let mut hd = sample_hitdef();
    hd.sparkno = -5;
    let mut m = spark_match(hd, 5);
    m.tick(MatchInput::none(), MatchInput::none());
    assert_eq!(m.effects().len(), 1, "spark present mid-round");
    m.begin_next_round();
    assert!(m.effects().is_empty(), "round reset clears live sparks");
}

#[test]
fn derive_player_seed_gives_p1_the_match_seed_and_p2_a_distinct_one() {
    for &seed in &[0, 1, -1, 1234, i32::MAX, i32::MIN] {
        let p1 = derive_player_seed(seed, 0);
        let p2 = derive_player_seed(seed, 1);
        assert_eq!(p1, seed, "P1 seed is the match seed itself");
        assert_ne!(p1, p2, "P2 seed must be distinct from P1 (seed {seed})");
    }
}

#[test]
fn match_without_helpers_keeps_empty_slot_maps() {
    let mut m = basic_match();
    for _ in 0..30 {
        m.tick(MatchInput::none(), MatchInput::none());
    }
    assert!(m.p1().helpers().is_empty(), "no P1 helpers");
    assert!(m.p2().helpers().is_empty(), "no P2 helpers");
}

#[test]
fn match_without_projectiles_keeps_empty_slot_maps() {
    let mut m = basic_match();
    for _ in 0..30 {
        m.tick(MatchInput::none(), MatchInput::none());
    }
    assert!(m.p1().projectiles().is_empty(), "no P1 projectiles");
    assert!(m.p2().projectiles().is_empty(), "no P2 projectiles");
}

#[test]
fn player_driver_ai_level_mapping() {
    assert_eq!(PlayerDriver::Human.ai_level(), 0);
    assert_eq!(PlayerDriver::Cpu(AiDifficulty::Easy).ai_level(), 2);
    assert_eq!(PlayerDriver::Cpu(AiDifficulty::Normal).ai_level(), 4);
    assert_eq!(PlayerDriver::Cpu(AiDifficulty::Hard).ai_level(), 7);
    assert_eq!(PlayerDriver::default().ai_level(), 0);
}

#[test]
fn match_with_drivers_sets_ai_level_per_side() {
    let mut m = Game::new(
        make_player(-50.0),
        make_player(50.0),
        bounds(-200.0, 200.0),
    );
    m.set_drivers(PlayerDriver::Human, PlayerDriver::Cpu(AiDifficulty::Hard));
    assert_eq!(m.p1().character.ai_level, 0, "human P1 must be level 0");
    assert_eq!(
        m.p2().character.ai_level,
        7,
        "CPU(Hard) P2 must be level 7"
    );
}

#[test]
fn match_without_drivers_keeps_human_default_ai_level() {
    let m = Game::new(
        make_player(-50.0),
        make_player(50.0),
        bounds(-200.0, 200.0),
    );
    assert_eq!(m.p1().character.ai_level, 0);
    assert_eq!(m.p2().character.ai_level, 0);
}

// ---- inputs -----------------------------------------------------------------

fn names(p: &Player) -> Vec<String> {
    p.just_matched_commands().to_vec()
}

fn fed(facing: Facing, input: MatchInput) -> (Player, Vec<String>) {
    let mut m = basic_match();
    into_fight(&mut m);
    m.p1.character.facing = facing;
    m.tick(input, MatchInput::none());
    (m.p1().clone(), names(m.p1()))
}

#[test]
fn feed_input_runs_real_matcher_facing_relative() {
    let mut p = Player::new(fighter(), defender_loaded());
    p.character.facing = Facing::Right;
    let raw = p.feed_input(MatchInput {
        right: true,
        ..MatchInput::none()
    });
    assert!(raw.direction.right && !raw.direction.left);
    assert!(!p.character.holding_back, "toward opponent is not back");
    assert_eq!(p.character.commands, CommandSource::Recognised);

    let mut p = Player::new(fighter(), defender_loaded());
    p.character.facing = Facing::Right;
    p.feed_input(MatchInput {
        left: true,
        ..MatchInput::none()
    });
    assert!(
        p.character.holding_back,
        "holding away from the opponent sets holding_back"
    );

    let mut p = Player::new(fighter(), defender_loaded());
    p.character.facing = Facing::Left;
    p.feed_input(MatchInput {
        left: true,
        ..MatchInput::none()
    });
    assert!(!p.character.holding_back);

    let (_, fwd) = fed(
        Facing::Right,
        MatchInput {
            right: true,
            ..MatchInput::none()
        },
    );
    assert!(fwd.contains(&"holdfwd".to_string()));
    assert!(!fwd.contains(&"holdback".to_string()));
    let (_, mirrored) = fed(
        Facing::Left,
        MatchInput {
            left: true,
            ..MatchInput::none()
        },
    );
    assert!(mirrored.contains(&"holdfwd".to_string()));
}

#[test]
fn feed_input_recognizes_button_commands() {
    let (_, x) = fed(
        Facing::Right,
        MatchInput {
            x: true,
            ..MatchInput::none()
        },
    );
    assert!(x.contains(&"x".to_string()));
    let (_, a) = fed(
        Facing::Right,
        MatchInput {
            a: true,
            ..MatchInput::none()
        },
    );
    assert!(!a.contains(&"x".to_string()));
}

#[test]
fn opposing_horizontal_inputs_cancel() {
    let mut p = Player::new(fighter(), defender_loaded());
    p.character.facing = Facing::Right;
    p.feed_input(MatchInput {
        left: true,
        right: true,
        ..MatchInput::none()
    });
    assert!(
        !p.character.holding_back,
        "ambiguous horizontal is not blocking"
    );

    let mut p = Player::new(fighter(), defender_loaded());
    p.character.facing = Facing::Left;
    p.feed_input(MatchInput::none());
    assert!(!p.character.holding_back);
}

#[test]
fn vertical_inputs_map_unchanged() {
    for facing in [Facing::Left, Facing::Right] {
        let (_, up) = fed(
            facing,
            MatchInput {
                up: true,
                ..MatchInput::none()
            },
        );
        assert!(up.contains(&"holdup".to_string()), "{facing:?}");
        let (_, down) = fed(
            facing,
            MatchInput {
                down: true,
                ..MatchInput::none()
            },
        );
        assert!(down.contains(&"holddown".to_string()), "{facing:?}");
    }
}

#[test]
fn all_attack_buttons_map() {
    let input = MatchInput {
        a: true,
        b: true,
        c: true,
        x: true,
        y: true,
        z: true,
        ..MatchInput::none()
    };
    let (_, matched) = fed(Facing::Right, input);
    for name in ["a", "b", "c", "x", "y", "z"] {
        assert!(
            matched.contains(&name.to_string()),
            "missing button command {name}"
        );
    }
}

#[test]
fn feed_input_sets_holding_back_on_character() {
    let mut p = Player::new(fighter(), defender_loaded());
    p.character.facing = Facing::Right;
    p.feed_input(MatchInput {
        left: true,
        ..MatchInput::none()
    });
    assert!(
        p.character.holding_back,
        "holding away from opponent sets holding_back"
    );

    let mut p = Player::new(fighter(), defender_loaded());
    p.character.facing = Facing::Right;
    p.feed_input(MatchInput {
        right: true,
        ..MatchInput::none()
    });
    assert!(
        !p.character.holding_back,
        "holding toward opponent is not back"
    );
}

#[test]
fn input_state_into_match_input_round_trips() {
    let mut s = fp_engine::InputState::default();
    s.direction.left = true;
    s.direction.up = true;
    s.set_button(fp_engine::Button::A, true);
    s.set_button(fp_engine::Button::Z, true);
    let m: MatchInput = s.into();
    assert!(m.left && m.up && m.a && m.z);
    assert!(!m.right && !m.down && !m.b && !m.c && !m.x && !m.y);
    assert_eq!(fp_engine::match_input_to_state(m), s);
}

#[test]
fn commands_are_read_only_in_the_fight() {
    let mut m = basic_match();
    let held = MatchInput {
        x: true,
        ..MatchInput::none()
    };
    m.tick(held, held);
    assert_eq!(m.host.fed.last(), Some(&(false, false)));
    assert!(names(m.p1()).is_empty());
    assert_eq!(m.p1().character.commands, CommandSource::NoCommands);
    into_fight(&mut m);
    m.tick(held, MatchInput::none());
    assert_eq!(m.host.fed.last(), Some(&(true, true)));
    assert_eq!(names(m.p1()), vec!["x".to_string()]);
    assert!(names(m.p2()).is_empty());
    assert_eq!(m.p1().character.commands, CommandSource::Recognised);
}

// ---- sounds -----------------------------------------------------------------

fn play_snd_match() -> Game {
    let mut p1c = fighter();
    p1c.pos = vec2(-50.0, 0.0);
    p1c.state_no = 0;
    let mut p2c = fighter();
    p2c.pos = vec2(50.0, 0.0);
    let p1 = Player::new(p1c, defender_loaded());
    let p2 = Player::new(p2c, defender_loaded());
    let mut m = Game::new(p1, p2, bounds(-200.0, 200.0));
    m.host.scripts.0 = Box::new(|t| {
        if t.c.state_no == 0 {
            t.sounds.push(SoundRequest {
                group: 7,
                sample: 3,
                channel: -1,
                volume_scale: 100,
                looping: false,
                common: false,
            });
        }
    });
    m
}

#[test]
fn play_snd_surfaces_on_p1_sound_requests() {
    let mut m = play_snd_match();
    m.tick(MatchInput::none(), MatchInput::none());
    let reqs = m.p1_sound_requests();
    assert_eq!(reqs.len(), 1, "P1's PlaySnd surfaces exactly one request");
    assert_eq!(reqs[0].group, 7, "authored group is surfaced");
    assert_eq!(reqs[0].sample, 3, "authored sample is surfaced");
    assert!(
        m.p2_sound_requests().is_empty(),
        "silent P2 surfaces nothing"
    );
}

#[test]
fn sound_requests_are_replaced_each_tick() {
    let mut m = play_snd_match();
    m.tick(MatchInput::none(), MatchInput::none());
    assert_eq!(
        m.p1_sound_requests().len(),
        1,
        "first tick surfaces the request"
    );
    m.p1.character.state_no = 999;
    m.tick(MatchInput::none(), MatchInput::none());
    assert!(
        m.p1_sound_requests().is_empty(),
        "a tick with no PlaySnd replaces the slice with empty (not appended)"
    );
}

#[test]
fn round_reset_clears_stale_sound_requests() {
    let mut m = play_snd_match();
    into_fight(&mut m);
    m.tick(MatchInput::none(), MatchInput::none());
    assert!(!m.p1_sound_requests().is_empty(), "P1 has pending requests");
    m.p2.character.life = 0;
    m.tick(MatchInput::none(), MatchInput::none());
    assert_eq!(m.round_state(), RoundState::Ko);
    for _ in 0..(KO_FRAMES + 1) {
        m.tick(MatchInput::none(), MatchInput::none());
    }
    assert_eq!(m.round_number(), 2, "reset happened");
    assert!(
        m.p1_sound_requests().is_empty(),
        "the reset clears stale sound requests"
    );
    assert!(m.p2_sound_requests().is_empty());
}

#[test]
fn impact_sounds_play_on_channel_zero_at_full_volume() {
    let r = hit_sound_request(SoundId {
        group: 9,
        sample: 4,
        common: true,
    });
    assert_eq!(
        r,
        SoundRequest {
            group: 9,
            sample: 4,
            channel: 0,
            volume_scale: 100,
            looping: false,
            common: true,
        }
    );
}

// ---- throws -----------------------------------------------------------------

fn throw_script(ops: Vec<TargetOp>) -> Script {
    Box::new(move |t| {
        if t.c.state_no == 810 && t.c.has_target {
            t.orders.target_ops = ops.clone();
        }
    })
}

#[test]
fn target_ops_apply_to_opponent_state_bind_and_life() {
    let mut p1c = fighter();
    p1c.pos = vec2(0.0, 0.0);
    p1c.facing = Facing::Right;
    p1c.state_no = 810;
    p1c.has_target = true;
    let mut p2c = fighter();
    p2c.pos = vec2(60.0, 0.0);
    p2c.facing = Facing::Left;
    p2c.life = 500;
    p2c.life_max = 1000;
    let mut m = Game::new(
        Player::new(p1c, attacker_loaded()),
        Player::new(p2c, defender_loaded()),
        bounds(-300.0, 300.0),
    );
    m.host.scripts.0 = throw_script(vec![
        TargetOp::State(820),
        TargetOp::Bind {
            time: 1,
            pos: vec2(60.0, -5.0),
        },
        TargetOp::LifeAdd {
            value: -40,
            kill: false,
        },
    ]);
    into_fight(&mut m);
    m.p1.character.state_no = 810;
    m.p1.character.has_target = true;
    m.p1.character.facing = Facing::Right;
    m.p1.character.pos = vec2(0.0, 0.0);
    let life_before = m.p2().life();

    m.tick(MatchInput::none(), MatchInput::none());

    assert_eq!(
        m.p2().character.state_no,
        820,
        "TargetState moved P2 to 820"
    );
    assert!(
        (m.p2().pos().x.f() - 60.0).abs() < 1e-3,
        "bound X is facing-relative to the binder, got {}",
        m.p2().pos().x.f()
    );
    assert!(
        (m.p2().pos().y.f() + 5.0).abs() < 1e-3,
        "bound Y offset from the binder, got {}",
        m.p2().pos().y.f()
    );
    assert_eq!(m.p2().life(), life_before - 40, "throw damage applied");
}

#[test]
fn target_bind_mirrors_and_lifeadd_floors_at_one() {
    let mut p1c = fighter();
    p1c.pos = vec2(0.0, 0.0);
    p1c.facing = Facing::Left;
    p1c.state_no = 810;
    p1c.has_target = true;
    let mut p2c = fighter();
    p2c.pos = vec2(-60.0, 0.0);
    p2c.facing = Facing::Right;
    p2c.life = 10;
    p2c.life_max = 1000;
    let mut m = Game::new(
        Player::new(p1c, attacker_loaded()),
        Player::new(p2c, defender_loaded()),
        bounds(-300.0, 300.0),
    );
    m.host.scripts.0 = throw_script(vec![
        TargetOp::Bind {
            time: 1,
            pos: vec2(60.0, 0.0),
        },
        TargetOp::Facing(-1),
        TargetOp::LifeAdd {
            value: -9999,
            kill: false,
        },
    ]);
    into_fight(&mut m);
    m.p1.character.state_no = 810;
    m.p1.character.has_target = true;
    m.p1.character.facing = Facing::Left;
    m.p1.character.pos = vec2(0.0, 0.0);

    m.tick(MatchInput::none(), MatchInput::none());

    assert!(
        (m.p2().pos().x.f() + 60.0).abs() < 1e-3,
        "left-facing bind mirrors X, got {}",
        m.p2().pos().x.f()
    );
    assert_eq!(m.p2().facing(), Facing::Right, "facing opposite the binder");
    assert_eq!(m.p2().life(), 1, "kill=false floors life at 1");
}

fn throw_match_p1_binder(ops: Vec<TargetOp>, p2_pos: Vec2, p2_life: i32) -> Game {
    let mut p1c = fighter();
    p1c.pos = vec2(0.0, 0.0);
    p1c.facing = Facing::Right;
    p1c.state_no = 810;
    p1c.has_target = true;
    let mut p2c = fighter();
    p2c.pos = p2_pos;
    p2c.facing = Facing::Left;
    p2c.life = p2_life;
    p2c.life_max = 1000;
    let mut m = Game::new(
        Player::new(p1c, attacker_loaded()),
        Player::new(p2c, defender_loaded()),
        bounds(-300.0, 300.0),
    );
    into_fight(&mut m);
    m.host.scripts.0 = throw_script(ops);
    m.p1.character.state_no = 810;
    m.p1.character.has_target = true;
    m.p1.character.facing = Facing::Right;
    m.p1.character.pos = vec2(0.0, 0.0);
    m
}

#[test]
fn target_velset_and_poweradd_apply_to_opponent() {
    let mut m = throw_match_p1_binder(
        vec![TargetOp::VelSet(vec2(3.0, -7.0)), TargetOp::PowerAdd(250)],
        vec2(80.0, 0.0),
        500,
    );
    m.p2.character.vel = vec2(99.0, 99.0);
    m.p2.character.power = 0;
    m.tick(MatchInput::none(), MatchInput::none());
    let vel = m.p2().character.vel;
    assert!(
        (vel.x.f() - 3.0).abs() < 1e-3 && (vel.y.f() + 7.0).abs() < 1e-3,
        "TargetVelSet overwrites the target velocity, got {vel:?}"
    );
    assert_eq!(
        m.p2().character.power,
        250,
        "TargetPowerAdd grants meter to the target"
    );
}

#[test]
fn target_veladd_accumulates_and_poweradd_clamps_to_range() {
    let mut m = throw_match_p1_binder(
        vec![TargetOp::VelAdd(vec2(2.0, 1.0)), TargetOp::PowerAdd(99999)],
        vec2(80.0, 0.0),
        500,
    );
    m.p2.character.vel = vec2(10.0, -4.0);
    m.p2.character.power = 0;
    let power_max = m.p2().character.power_max;
    assert!(
        power_max > 0,
        "default power_max must be positive for this test"
    );
    m.tick(MatchInput::none(), MatchInput::none());
    let vel = m.p2().character.vel;
    assert!(
        (vel.x.f() - 12.0).abs() < 1e-3 && (vel.y.f() + 3.0).abs() < 1e-3,
        "TargetVelAdd accumulates onto the existing velocity, got {vel:?}"
    );
    assert_eq!(
        m.p2().character.power,
        power_max,
        "a huge TargetPowerAdd saturates at power_max, never beyond"
    );
}

#[test]
fn target_lifeadd_kill_true_can_reach_zero() {
    let mut m = throw_match_p1_binder(
        vec![TargetOp::LifeAdd {
            value: -9999,
            kill: true,
        }],
        vec2(80.0, 0.0),
        50,
    );
    m.tick(MatchInput::none(), MatchInput::none());
    assert_eq!(
        m.p2().character.life,
        0,
        "kill=true allows the throw damage to reduce the target to zero life"
    );
}

#[test]
fn target_facing_non_negative_matches_binder() {
    let mut m = throw_match_p1_binder(
        vec![TargetOp::State(820), TargetOp::Facing(1)],
        vec2(80.0, 0.0),
        500,
    );
    m.host.being_hit_states = vec![820];
    m.p2.character.facing = Facing::Left;
    m.tick(MatchInput::none(), MatchInput::none());
    assert_eq!(
        m.p2().character.state_no,
        820,
        "the victim entered its being-hit state"
    );
    assert_eq!(
        m.p2().facing(),
        Facing::Right,
        "TargetFacing value >= 0 faces the target the same way as the binder"
    );
}

#[test]
fn target_state_to_unknown_state_degrades_safely() {
    let mut m = throw_match_p1_binder(vec![TargetOp::State(820)], vec2(80.0, 0.0), 500);
    let life_before = m.p2().life();
    m.tick(MatchInput::none(), MatchInput::none());
    assert_eq!(
        m.p2().character.state_no,
        820,
        "TargetState to an unknown state still updates the cursor (no panic)"
    );
    assert_eq!(
        m.p2().life(),
        life_before,
        "an unknown TargetState destination does not corrupt unrelated fields"
    );
}

#[test]
fn target_ops_do_not_apply_during_intro() {
    let mut p1c = fighter();
    p1c.pos = vec2(0.0, 0.0);
    p1c.facing = Facing::Right;
    p1c.state_no = 810;
    p1c.has_target = true;
    let mut p2c = fighter();
    p2c.pos = vec2(80.0, 0.0);
    p2c.facing = Facing::Left;
    p2c.life = 500;
    p2c.life_max = 1000;
    let mut m = Game::new(
        Player::new(p1c, attacker_loaded()),
        Player::new(p2c, defender_loaded()),
        bounds(-300.0, 300.0),
    );
    m.host.scripts.0 = throw_script(vec![
        TargetOp::State(820),
        TargetOp::Bind {
            time: 1,
            pos: vec2(60.0, -5.0),
        },
        TargetOp::LifeAdd {
            value: -40,
            kill: false,
        },
    ]);
    assert_eq!(m.round_state(), RoundState::Intro);
    let life_before = m.p2().life();
    let pos_before = m.p2().pos();
    m.tick(MatchInput::none(), MatchInput::none());
    assert_eq!(m.round_state(), RoundState::Intro, "still in the intro");
    assert_ne!(
        m.p2().character.state_no,
        820,
        "throw TargetState must not fire during the intro"
    );
    assert_eq!(
        m.p2().life(),
        life_before,
        "throw TargetLifeAdd must not damage during the intro"
    );
    assert!(
        (m.p2().pos().x.f() - pos_before.x.f()).abs() < 1e-3,
        "throw TargetBind must not move the opponent during the intro"
    );
}

#[test]
fn target_ops_apply_when_p2_is_the_binder() {
    let mut p1c = fighter();
    p1c.pos = vec2(-80.0, 0.0);
    p1c.facing = Facing::Right;
    p1c.life = 500;
    p1c.life_max = 1000;
    let mut p2c = fighter();
    p2c.pos = vec2(0.0, 0.0);
    p2c.facing = Facing::Left;
    p2c.state_no = 810;
    p2c.has_target = true;
    let mut m = Game::new(
        Player::new(p1c, defender_loaded()),
        Player::new(p2c, attacker_loaded()),
        bounds(-300.0, 300.0),
    );
    into_fight(&mut m);
    m.host.scripts.1 = throw_script(vec![
        TargetOp::State(820),
        TargetOp::Bind {
            time: 1,
            pos: vec2(60.0, 0.0),
        },
        TargetOp::LifeAdd {
            value: -30,
            kill: false,
        },
    ]);
    m.p2.character.state_no = 810;
    m.p2.character.has_target = true;
    m.p2.character.facing = Facing::Left;
    m.p2.character.pos = vec2(0.0, 0.0);
    let life_before = m.p1().life();

    m.tick(MatchInput::none(), MatchInput::none());

    assert_eq!(
        m.p1().character.state_no,
        820,
        "P2's TargetState drove P1 (the target) into 820"
    );
    assert!(
        (m.p1().pos().x.f() + 60.0).abs() < 1e-3,
        "left-facing binder P2 mirrors +60 to -60, got {}",
        m.p1().pos().x.f()
    );
    assert_eq!(
        m.p1().life(),
        life_before - 30,
        "P2's TargetLifeAdd damaged P1"
    );
}

/// Applies operations one by one, with the host's part done here.
fn apply_target_ops(binder: &Character, target: &mut Character, ops: &[TargetOp]) {
    let ops = ops.to_vec();
    let mut at = 0;
    loop {
        let (i, work) = fp_engine::apply_target_ops(binder, target, &ops, at);
        match work {
            None => {
                assert_eq!(i, ops.len());
                break;
            }
            Some(TargetWork::EnterState(n)) => target.state_no = n,
            Some(TargetWork::Pin(p)) => target.pos = sum(p),
            Some(TargetWork::Accelerate(p)) => target.vel = sum(p),
        }
        at = i + 1;
    }
}

#[test]
fn apply_target_ops_empty_is_noop_and_only_touches_target() {
    let mut binder = fighter();
    binder.pos = vec2(5.0, 9.0);
    binder.facing = Facing::Right;
    let mut target = fighter();
    target.pos = vec2(100.0, 0.0);
    target.life = 700;
    let life_before = target.life;
    let pos_before = target.pos;
    apply_target_ops(&binder, &mut target, &[]);
    assert_eq!(target.life, life_before, "empty ops leave life untouched");
    assert_eq!(target.pos, pos_before, "empty ops leave position untouched");
    assert_eq!(binder.pos, vec2(5.0, 9.0));
}

#[test]
fn apply_target_ops_applies_each_variant_in_order() {
    let mut binder = fighter();
    binder.pos = vec2(10.0, 2.0);
    binder.facing = Facing::Left;
    let mut target = fighter();
    target.pos = vec2(200.0, 0.0);
    target.facing = Facing::Left;
    target.life = 100;
    target.life_max = 1000;
    target.power = 0;
    target.vel = vec2(0.0, 0.0);
    apply_target_ops(
        &binder,
        &mut target,
        &[
            TargetOp::State(820),
            TargetOp::Bind {
                time: 1,
                pos: vec2(30.0, -4.0),
            },
            TargetOp::Facing(1),
            TargetOp::VelSet(vec2(1.5, -2.5)),
            TargetOp::VelAdd(vec2(0.5, 0.5)),
            TargetOp::LifeAdd {
                value: -250,
                kill: false,
            },
            TargetOp::PowerAdd(120),
        ],
    );
    assert_eq!(target.state_no, 820, "State entered the target's own 820");
    assert!(
        (target.pos.x.f() + 20.0).abs() < 1e-3 && (target.pos.y.f() + 2.0).abs() < 1e-3,
        "facing-relative bind, got {:?}",
        target.pos
    );
    assert_eq!(target.facing, Facing::Left, "Facing(1) matches the binder");
    assert!(
        (target.vel.x.f() - 2.0).abs() < 1e-3 && (target.vel.y.f() + 2.0).abs() < 1e-3,
        "VelSet then VelAdd compose, got {:?}",
        target.vel
    );
    assert_eq!(target.life, 1, "non-killing life add floors at 1");
    assert_eq!(target.power, 120, "power add within range");
}

#[test]
fn life_and_power_changes_stop_at_their_ends() {
    let binder = fighter();
    let mut c = fighter();
    c.life = 990;
    apply_target_op(
        &binder,
        &mut c,
        TargetOp::LifeAdd {
            value: i32::MAX,
            kill: false,
        },
    );
    assert_eq!(c.life, 1000);
    c.life_max = -5;
    apply_target_op(
        &binder,
        &mut c,
        TargetOp::LifeAdd {
            value: i32::MIN,
            kill: false,
        },
    );
    assert_eq!(c.life, 1);
    apply_target_op(
        &binder,
        &mut c,
        TargetOp::LifeAdd {
            value: 7,
            kill: true,
        },
    );
    assert_eq!(c.life, 0);
    c.power = 10;
    apply_target_op(&binder, &mut c, TargetOp::PowerAdd(-11));
    assert_eq!(c.power, 0);
    c.power_max = -1;
    apply_target_op(&binder, &mut c, TargetOp::PowerAdd(50));
    assert_eq!(c.power, 0);
}

// ---- freezes ----------------------------------------------------------------

fn freeze_match(kind: FreezeKind, time: i32) -> Game {
    let mut p1c = fighter();
    p1c.pos = vec2(-50.0, 0.0);
    let mut p2c = fighter();
    p2c.pos = vec2(50.0, 0.0);
    let mut m = Game::new(
        Player::new(p1c, defender_loaded()),
        Player::new(p2c, loaded_with(air_with(0, Vec::new(), Vec::new()))),
        bounds(-200.0, 200.0),
    );
    m.host.scripts.0 = Box::new(move |t| {
        if t.full.vars[0] == 1 {
            t.orders.freeze_request = Some(FreezeRequest { kind, time });
            t.full.vars[0] = 0;
        }
    });
    into_fight(&mut m);
    m
}

#[test]
fn superpause_freezes_opponent_and_timer_while_trigger_keeps_ticking() {
    let mut m = freeze_match(FreezeKind::SuperPause, 5);
    m.vars(1)[0] = 1;
    let p2_time_before = m.p2().character.state_time;
    m.tick(MatchInput::none(), MatchInput::none());
    assert_eq!(m.freeze_time(), 5, "5-tick freeze armed");
    assert!(m.p2_frozen(), "P2 is frozen");
    assert!(!m.p1_frozen(), "the SuperPause trigger (P1) is exempt");
    let p2_time_frozen = m.p2().character.state_time;
    let p1_time_at_freeze_start = m.p1().character.state_time;
    let timer_at_freeze_start = m.timer();
    let game_time_at_freeze_start = m.game_time();
    assert!(
        p2_time_frozen > p2_time_before,
        "P2 advanced on the fire tick"
    );
    for i in 0..5 {
        m.tick(MatchInput::none(), MatchInput::none());
        assert_eq!(
            m.p2().character.state_time,
            p2_time_frozen,
            "P2 state Time frozen on frozen tick {i}"
        );
        assert_eq!(m.timer(), timer_at_freeze_start, "timer frozen");
        assert_eq!(m.game_time(), game_time_at_freeze_start, "GameTime frozen");
        assert_eq!(
            m.p1().character.state_time,
            p1_time_at_freeze_start + (i + 1),
            "P1 (exempt) keeps ticking during the freeze"
        );
    }
    assert_eq!(m.freeze_time(), 0, "freeze expired after 5 ticks");
    assert!(!m.p2_frozen(), "P2 unfrozen");
    m.tick(MatchInput::none(), MatchInput::none());
    assert!(
        m.p2().character.state_time > p2_time_frozen,
        "P2 resumes advancing after the freeze"
    );
    assert!(
        m.game_time() > game_time_at_freeze_start,
        "GameTime resumes after the freeze"
    );
}

#[test]
fn pause_freezes_both_players() {
    let mut m = freeze_match(FreezeKind::Pause, 4);
    m.vars(1)[0] = 1;
    m.tick(MatchInput::none(), MatchInput::none());
    assert_eq!(m.freeze_time(), 4, "4-tick Pause armed");
    assert!(m.p1_frozen(), "Pause freezes P1 too (no exempt)");
    assert!(m.p2_frozen(), "Pause freezes P2");
    let p1_time = m.p1().character.state_time;
    let p2_time = m.p2().character.state_time;
    let game_time = m.game_time();
    for _ in 0..4 {
        m.tick(MatchInput::none(), MatchInput::none());
        assert_eq!(m.p1().character.state_time, p1_time, "P1 frozen by Pause");
        assert_eq!(m.p2().character.state_time, p2_time, "P2 frozen by Pause");
        assert_eq!(m.game_time(), game_time, "GameTime frozen by Pause");
    }
    assert_eq!(m.freeze_time(), 0, "Pause expired");
    m.tick(MatchInput::none(), MatchInput::none());
    assert!(
        m.game_time() > game_time,
        "GameTime resumes after the Pause"
    );
}

#[test]
fn freeze_does_not_advance_game_time() {
    let mut m = freeze_match(FreezeKind::SuperPause, 3);
    m.vars(1)[0] = 1;
    m.tick(MatchInput::none(), MatchInput::none());
    let gt = m.game_time();
    assert_eq!(m.freeze_time(), 3);
    for _ in 0..3 {
        m.tick(MatchInput::none(), MatchInput::none());
        assert_eq!(m.game_time(), gt, "GameTime does not advance while frozen");
    }
    m.tick(MatchInput::none(), MatchInput::none());
    assert_eq!(
        m.game_time(),
        gt + 1,
        "GameTime advances again once unfrozen"
    );
}

#[test]
fn zero_time_pause_does_not_freeze() {
    let mut m = freeze_match(FreezeKind::Pause, 0);
    m.vars(1)[0] = 1;
    m.tick(MatchInput::none(), MatchInput::none());
    assert_eq!(m.freeze_time(), 0, "time=0 leaves no freeze armed");
    assert!(!m.p1_frozen());
    assert!(!m.p2_frozen());
}

#[test]
fn the_later_of_two_freezes_wins() {
    let mut m = freeze_match(FreezeKind::Pause, 9);
    m.host.scripts.1 = Box::new(|t| {
        if t.full.vars[0] == 1 {
            t.orders.freeze_request = Some(FreezeRequest {
                kind: FreezeKind::SuperPause,
                time: 2,
            });
            t.full.vars[0] = 0;
        }
    });
    m.vars(1)[0] = 1;
    m.vars(2)[0] = 1;
    m.tick(MatchInput::none(), MatchInput::none());
    assert_eq!(m.freeze_time(), 2);
    assert!(m.p1_frozen() && !m.p2_frozen());
}

#[test]
fn nothing_freezes_outside_the_fight() {
    let mut p1c = fighter();
    p1c.pos = vec2(-50.0, 0.0);
    let mut m = Game::new(
        Player::new(p1c, defender_loaded()),
        Player::new(fighter(), defender_loaded()),
        bounds(-200.0, 200.0),
    );
    m.host.scripts.0 = Box::new(|t| {
        t.orders.freeze_request = Some(FreezeRequest {
            kind: FreezeKind::Pause,
            time: 30,
        });
    });
    m.tick(MatchInput::none(), MatchInput::none());
    assert_eq!(m.freeze_time(), 0);
    assert_eq!(m.host.attacks, 0);
}

// ---- the top of a round -----------------------------------------------------

#[test]
fn round_init_uses_5900() {
    let mut p1c = fighter();
    p1c.pos = vec2(-50.0, 0.0);
    let mut p2c = fighter();
    p2c.pos = vec2(50.0, 0.0);
    let mut converging = defender_loaded();
    converging.states = vec![0, ROUND_INIT_STATE];
    let mut m = Game::new(
        Player::new(p1c, converging),
        Player::new(p2c, defender_loaded()),
        bounds(-200.0, 200.0),
    );
    m.host.scripts.0 = Box::new(|t| {
        if t.c.state_no == ROUND_INIT_STATE {
            t.c.life = t.c.life_max;
            t.c.state_no = 0;
        }
    });
    assert_eq!(
        m.p1.character.state_no, ROUND_INIT_STATE,
        "a fighter that defines 5900 is entered into it at round init"
    );
    assert_eq!(
        m.p2.character.state_no, 0,
        "a fighter with no 5900 is left in the neutral stand (no-op)"
    );
    m.p1.character.life = 1;
    m.tick(MatchInput::none(), MatchInput::none());
    assert_eq!(
        m.p1.character.life, m.p1.character.life_max,
        "5900's LifeSet re-asserts full life on round init"
    );
    assert_eq!(
        m.p1.character.state_no, 0,
        "5900 hands back to the neutral stand - it converges with the reset"
    );
    m.p1.character.state_no = 42;
    m.begin_next_round();
    assert_eq!(
        m.p1.character.state_no, ROUND_INIT_STATE,
        "reset_for_next_round re-enters 5900 for the fighter that defines it"
    );
    assert_eq!(
        m.p2.character.state_no, 0,
        "the 5900-less fighter is reset to the neutral stand, not 5900"
    );
}

#[test]
fn a_new_round_in_a_frame_enters_the_round_init_state() {
    let mut m = basic_match();
    m.p1.loaded.states = vec![ROUND_INIT_STATE];
    into_fight(&mut m);
    ko_p2_and_settle(&mut m);
    assert_eq!(m.round_number(), 2);
    assert_eq!(m.p1().character.state_no, ROUND_INIT_STATE);
    assert_eq!(m.p2().character.state_no, 0);
}

#[test]
fn a_single_round_match_ends_with_its_own_verdict() {
    let mut m = basic_match();
    m.set_single_round(true);
    assert!(m.single_round());
    into_fight(&mut m);
    m.p1.character.life = 0;
    m.p2.character.life = 0;
    for _ in 0..(KO_FRAMES + 10) {
        m.tick(MatchInput::none(), MatchInput::none());
    }
    assert_eq!(m.match_state(), MatchState::Over);
    assert_eq!(m.match_winner(), Some(Winner::Draw));
    assert_eq!(m.p1().life(), 0, "nobody is healed");
    assert_eq!(m.p2().life(), 0);
    assert_eq!(m.round_number(), 1);
}

// ---- random streams, snapshots and replays ------------------------------------

fn rng_script() -> Script {
    Box::new(|t| {
        if t.c.state_no == 0 {
            t.full.vars[0] = t.full.random();
        }
    })
}

fn stamped_rng_probe_match(stamp: u64) -> Game {
    let mut p1c = fighter();
    p1c.pos = vec2(-50.0, 0.0);
    let mut p2c = fighter();
    p2c.pos = vec2(50.0, 0.0);
    let mut loaded = defender_loaded();
    loaded.fingerprint = CharacterFingerprint(stamp);
    let mut m = Game::new(
        Player::new(p1c, loaded.clone()),
        Player::new(p2c, loaded),
        bounds(-200.0, 200.0),
    );
    m.host.scripts = (rng_script(), rng_script());
    m
}

fn rng_probe_match() -> Game {
    stamped_rng_probe_match(0x7e57)
}

fn scripted_inputs(n: usize) -> Vec<(MatchInput, MatchInput)> {
    (0..n)
        .map(|i| {
            let p1 = MatchInput {
                right: i % 3 == 0,
                left: i % 7 == 0,
                a: i % 5 == 0,
                up: i % 11 == 0,
                ..MatchInput::none()
            };
            let p2 = MatchInput {
                left: i % 4 == 0,
                right: i % 9 == 0,
                b: i % 6 == 0,
                down: i % 13 == 0,
                ..MatchInput::none()
            };
            (p1, p2)
        })
        .collect()
}

#[test]
fn snapshot_restore_round_trips_to_the_snapshot_point() {
    let mut m = rng_probe_match();
    m.seed_players(DEFAULT_MATCH_SEED);
    into_fight(&mut m);
    for (p1, p2) in scripted_inputs(40) {
        m.tick(p1, p2);
    }
    let saved = m.save();
    for (p1, p2) in scripted_inputs(40) {
        m.tick(p1, p2);
    }
    let after = m.save();
    assert_ne!(
        saved, after,
        "ticking past the snapshot must change the runtime state"
    );
    m.load(&saved).expect("restore must succeed");
    let restored = m.save();
    assert_eq!(
        saved, restored,
        "restore must reproduce the snapshot byte-for-byte"
    );
}

#[test]
fn match_state_serialize_round_trip_is_bit_for_bit_stable() {
    let mut m = rng_probe_match();
    m.seed_players(DEFAULT_MATCH_SEED);
    into_fight(&mut m);
    for (p1, p2) in scripted_inputs(73) {
        m.tick(p1, p2);
    }
    let baseline = rng_probe_match().state();
    let captured = m.state();
    assert_ne!(
        captured, baseline,
        "the captured state must be a non-trivial mid-match state"
    );
    let bytes_a = m.save();
    let bytes_b = m.save();
    assert_eq!(
        bytes_a, bytes_b,
        "serialization must be deterministic (stable bytes across runs)"
    );
    let mut restored = rng_probe_match();
    restored.load(&bytes_a).expect("deserialize must succeed");
    assert_eq!(
        restored.state(),
        captured,
        "the deserialized state must equal the original (round-trip equality)"
    );
    assert_eq!(
        restored.save(),
        bytes_a,
        "serialize -> deserialize -> serialize must be byte-for-byte stable"
    );
}

#[test]
fn restore_then_tick_matches_continuing_from_the_original() {
    let script = scripted_inputs(60);
    let mut reference = rng_probe_match();
    reference.seed_players(7);
    into_fight(&mut reference);
    for &(p1, p2) in &script {
        reference.tick(p1, p2);
    }
    let reference_end = reference.save();

    let mut resumed = rng_probe_match();
    resumed.seed_players(7);
    into_fight(&mut resumed);
    for &(p1, p2) in &script[..30] {
        resumed.tick(p1, p2);
    }
    let mid = resumed.save();
    for &(p1, p2) in &script[..15] {
        resumed.tick(p1, p2);
    }
    resumed.load(&mid).expect("restore");
    for &(p1, p2) in &script[30..] {
        resumed.tick(p1, p2);
    }
    let resumed_end = resumed.save();
    assert_eq!(
        reference_end, resumed_end,
        "restore-and-continue must match a straight-through run"
    );
}

#[test]
fn malformed_snapshot_is_a_recoverable_error_not_a_panic() {
    let mut m = rng_probe_match();
    m.seed_players(DEFAULT_MATCH_SEED);
    into_fight(&mut m);
    let good = m.save();
    let truncated = &good[..good.len() / 2];
    assert!(
        m.load(truncated).is_err(),
        "a truncated snapshot must be a recoverable Err"
    );
    assert!(
        m.load(&[0xFFu8; 8]).is_err(),
        "a garbage snapshot must be a recoverable Err"
    );
    assert!(m.load(&[]).is_err(), "empty must be a recoverable Err");
    match m.load(&[]) {
        Err(FpError::Other(text)) => {
            assert!(text.starts_with("match snapshot deserialize failed: "));
            assert!(text.len() > "match snapshot deserialize failed: ".len());
        }
        other => panic!("expected an unreadable snapshot, got {other:?}"),
    }
    assert_eq!(m.save(), good, "a failed restore changes nothing");
    m.tick(MatchInput::none(), MatchInput::none());
}

#[test]
fn a_snapshot_with_an_unknown_tag_is_refused() {
    let mut m = rng_probe_match();
    let good = m.save();
    // Two stamps, then position and velocity: the facing tag follows.
    let mut bad = good.clone();
    bad[32] = 9;
    match m.load(&bad) {
        Err(FpError::Other(text)) => assert_eq!(
            text,
            "match snapshot deserialize failed: tag for enum is not valid"
        ),
        other => panic!("expected an unreadable snapshot, got {other:?}"),
    }
    assert_eq!(m.save(), good);
}

#[test]
fn snapshot_restores_into_same_characters_unchanged() {
    let mut source = rng_probe_match();
    source.seed_players(DEFAULT_MATCH_SEED);
    into_fight(&mut source);
    for (p1, p2) in scripted_inputs(40) {
        source.tick(p1, p2);
    }
    let saved = source.save();
    let saved_state = source.save();
    let mut target = rng_probe_match();
    target
        .load(&saved)
        .expect("restore into same characters must succeed");
    assert_eq!(
        target.save(),
        saved_state,
        "restored same-character match must reproduce the snapshot byte-for-byte"
    );
}

#[test]
fn snapshot_restored_into_different_character_is_rejected() {
    let mut source = stamped_rng_probe_match(0xA);
    source.seed_players(DEFAULT_MATCH_SEED);
    into_fight(&mut source);
    for (p1, p2) in scripted_inputs(20) {
        source.tick(p1, p2);
    }
    let saved = source.save();
    let before = source.save();
    let mut other = stamped_rng_probe_match(0xB);
    let other_before = other.save();
    let err = other
        .load(&saved)
        .expect_err("restoring into a different character must fail");
    assert!(
        matches!(err, FpError::Mismatch(_)),
        "identity mismatch must be a recoverable FpError::Mismatch, got {err:?}"
    );
    assert_eq!(
        err,
        FpError::Mismatch(Mismatch::Character {
            side: Side::P1,
            snapshot: 0xA,
            live: 0xB,
        })
    );
    assert_eq!(
        other.save(),
        other_before,
        "a rejected restore must leave the target match untouched"
    );
    let mut same = stamped_rng_probe_match(0xA);
    same.load(&saved)
        .expect("same-character restore still succeeds");
    assert_ne!(before, stamped_rng_probe_match(0xA).save());
}

#[test]
fn tampered_snapshot_fingerprint_is_rejected() {
    let mut m = rng_probe_match();
    m.seed_players(DEFAULT_MATCH_SEED);
    into_fight(&mut m);
    for (p1, p2) in scripted_inputs(10) {
        m.tick(p1, p2);
    }
    let mut snap = m.state();
    snap.p1_fingerprint = CharacterFingerprint(snap.p1_fingerprint.0 ^ 0xDEAD);
    let mut target = rng_probe_match();
    let err = target
        .restore_snapshot_state(&snap)
        .expect_err("a tampered fingerprint must be rejected");
    assert!(matches!(err, FpError::Mismatch(_)));

    let mut snap = m.state();
    snap.p2_fingerprint = CharacterFingerprint(1);
    assert_eq!(
        target.restore_snapshot_state(&snap),
        Err(FpError::Mismatch(Mismatch::Character {
            side: Side::P2,
            snapshot: 1,
            live: 0x7e57,
        }))
    );
}

#[test]
fn a_snapshot_keeps_what_it_does_not_hold() {
    let mut m = rng_probe_match();
    let snap = m.state();
    into_fight(&mut m);
    m.set_single_round(true);
    m.set_common_fx(common_fx_air(2));
    m.p1.character.size.ground_front = sc(77.0);
    m.p1_sound_requests.push(hit_sound_request(hit_sound()));
    m.restore_snapshot_state(&snap).expect("same characters");
    assert!(m.single_round());
    assert!(m.common_fx().is_some());
    assert_eq!(m.p1().character.entity, 1);
    assert_eq!(m.p1().character.size.ground_front.f(), 77.0);
    assert!(m.p1_sound_requests().is_empty());
    assert_eq!(m.round_state(), RoundState::Intro);
    assert_eq!(m.game_time(), 0);
}

#[test]
fn a_snapshot_holds_attacks_sparks_and_freezes() {
    let mut m = spark_match(
        Attack {
            sparkno: -5,
            p1stateno: Some(77),
            ..sample_hitdef()
        },
        5,
    );
    m.tick(MatchInput::none(), MatchInput::none());
    m.arm_freeze(
        Some(FreezeRequest {
            kind: FreezeKind::SuperPause,
            time: 12,
        }),
        fp_engine::FreezeExempt::P2,
    );
    m.p2.character.active_hitdef = Some(
        Attack {
            sparkno: 40,
            priority: Priority {
                value: -2,
                kind: PriorityType::Dodge,
            },
            ..sample_hitdef()
        }
        .def(),
    );
    m.flow.winner = Some(Winner::Draw);
    m.flow.match_winner = Some(Winner::P2);
    m.flow.match_state = MatchState::Over;
    let bytes = m.save();
    let state = m.state();
    let mut other = spark_match(sample_hitdef(), 5);
    other.load(&bytes).expect("same characters");
    assert_eq!(other.state(), state);
    assert_eq!(other.effects().len(), 1);
    assert_eq!(other.freeze_time(), 12);
    assert!(other.p1_frozen() && !other.p2_frozen());
    assert_eq!(other.match_winner(), Some(Winner::P2));
}

#[test]
fn ai_level_survives_character_snapshot_bincode_round_trip() {
    let mut m = rng_probe_match();
    m.set_drivers(PlayerDriver::Human, PlayerDriver::Cpu(AiDifficulty::Hard));
    assert_eq!(CharacterSnapshot::capture(&m.p2.character).ai_level, 7);
    let bytes = m.save();
    let mut restored = rng_probe_match();
    assert_eq!(restored.p2().character.ai_level, 0);
    restored.load(&bytes).expect("same characters");
    assert_eq!(
        restored.p2().character.ai_level,
        7,
        "ai_level must survive a bincode round-trip"
    );
    assert_eq!(restored.p1().character.ai_level, 0);
}

#[test]
fn replay_into_different_character_is_rejected() {
    let seed: i32 = 7;
    let mut source = stamped_rng_probe_match(0xA);
    source.seed_players(seed);
    let log = source.record(seed, &scripted_inputs(30));
    let (fp_a, _) = stamped_rng_probe_match(0xA).character_fingerprints();
    assert_eq!(
        log.p1_fingerprint, fp_a,
        "recorder stamps the source fingerprint"
    );
    let mut ok = stamped_rng_probe_match(0xA);
    ok.replay(&log).expect("replay into same character succeeds");
    let mut wrong = stamped_rng_probe_match(0xB);
    let before = wrong.save();
    let err = wrong
        .replay(&log)
        .expect_err("replay into a different character must fail");
    assert!(
        matches!(err, ReplayError::CharacterMismatch { side: "P1", .. }),
        "expected a P1 character mismatch, got {err:?}"
    );
    assert_eq!(
        err,
        ReplayError::CharacterMismatch {
            side: "P1",
            logged: 0xA,
            actual: 0xB,
        }
    );
    assert_eq!(
        wrong.save(),
        before,
        "a rejected replay must leave the target match untouched"
    );
    let mut half = log.clone();
    half.p1_fingerprint = CharacterFingerprint(0);
    assert_eq!(
        wrong.replay(&half),
        Err(ReplayError::CharacterMismatch {
            side: "P2",
            logged: 0xA,
            actual: 0xB,
        })
    );
}

fn replay_with_intro(log: &ReplayLog) -> ReplayLog {
    let mut full = ReplayLog::new(
        log.match_seed,
        log.bounds,
        log.rounds_to_win,
        log.round_seconds,
    );
    for _ in 0..(INTRO_FRAMES + 1) {
        full.push(MatchInput::none(), MatchInput::none());
    }
    for &(p1, p2) in &log.inputs {
        full.push(p1, p2);
    }
    full
}

#[test]
fn record_then_replay_reproduces_identical_final_state() {
    let seed: i32 = 4242;
    let frames: usize = 200;
    let script = scripted_inputs(frames);
    let mut original = rng_probe_match();
    original.seed_players(seed);
    into_fight(&mut original);
    let log = original.record(seed, &script);
    let original_end = original.save();
    assert_eq!(log.len(), frames, "log records every frame");
    let mut fresh = rng_probe_match();
    fresh
        .replay(&replay_with_intro(&log))
        .expect("replay must succeed");
    let replay_end = fresh.save();
    assert_eq!(
        original_end, replay_end,
        "replay must reproduce the recorded match byte-for-byte"
    );
}

#[test]
fn replay_log_persists_and_reloads_via_bincode() {
    let seed: i32 = 99;
    let mut original = rng_probe_match();
    original.seed_players(seed);
    let log = original.record(seed, &scripted_inputs(50));
    let bytes = log.encode().expect("encode");
    let reloaded = ReplayLog::decode(&bytes).expect("decode");
    assert_eq!(log, reloaded);
    let mut a = rng_probe_match();
    let mut b = rng_probe_match();
    a.replay(&log).expect("replay must succeed");
    b.replay(&reloaded).expect("replay must succeed");
    assert_eq!(
        a.save(),
        b.save(),
        "a reloaded replay log reproduces the same state"
    );
}

#[test]
fn two_identical_runs_are_byte_equal_every_frame() {
    let seed: i32 = 1234;
    let script = scripted_inputs(300);
    let mut a = rng_probe_match();
    let mut b = rng_probe_match();
    a.seed_players(seed);
    b.seed_players(seed);
    for &(p1, p2) in &script {
        a.tick(p1, p2);
        b.tick(p1, p2);
        assert_eq!(
            a.state(),
            b.state(),
            "two identical runs diverged at game_time {}",
            a.game_time()
        );
    }
}

#[test]
fn distinct_seeds_make_p1_and_p2_draw_different_random_streams() {
    let mut m = rng_probe_match();
    m.seed_players(DEFAULT_MATCH_SEED);
    into_fight(&mut m);
    let mut p1_draws = Vec::new();
    let mut p2_draws = Vec::new();
    for _ in 0..40 {
        m.tick(MatchInput::none(), MatchInput::none());
        p1_draws.push(m.vars(1)[0]);
        p2_draws.push(m.vars(2)[0]);
    }
    assert_ne!(
        p1_draws, p2_draws,
        "distinct per-player seeds must yield different random streams"
    );
    assert!(
        p1_draws.iter().any(|&v| v != 0),
        "P1's random stream should produce non-zero draws"
    );
}

#[test]
fn a_fixed_match_seed_reproduces_the_run() {
    let seed: i32 = 31337;
    let script = scripted_inputs(120);
    let run = |seed: i32| {
        let mut m = rng_probe_match();
        m.seed_players(seed);
        into_fight(&mut m);
        for &(p1, p2) in &script {
            m.tick(p1, p2);
        }
        m.save()
    };
    assert_eq!(run(seed), run(seed), "a fixed match seed must reproduce");
    assert_ne!(
        run(seed),
        run(seed + 1),
        "a different match seed should change the run"
    );
}

#[test]
fn unseeded_players_share_a_stream_motivating_distinct_seeding() {
    let mut m = rng_probe_match();
    into_fight(&mut m);
    let mut p1_draws = Vec::new();
    let mut p2_draws = Vec::new();
    for _ in 0..30 {
        m.tick(MatchInput::none(), MatchInput::none());
        p1_draws.push(m.vars(1)[0]);
        p2_draws.push(m.vars(2)[0]);
    }
    assert_eq!(
        p1_draws, p2_draws,
        "unseeded same-character players share one default RNG stream"
    );
}

#[test]
fn derived_seeds_have_known_values() {
    assert_eq!(derive_player_seed(0, 0), 0);
    assert_eq!(derive_player_seed(1, 1), -994462567);
    assert_eq!(derive_player_seed(-1, 1), 529149184);
    assert_eq!(derive_player_seed(1, 2), 1722151100);
    // The one match seed for which both players share a stream.
    assert_eq!(derive_player_seed(-557011651, 1), -557011651);
    let m = Match::with_seed(
        Player::new(fighter(), defender_loaded()),
        Player::new(fighter(), defender_loaded()),
        StageBounds::default(),
        31,
    );
    assert_eq!(m.p1().character.rng_seed, 31);
    assert_eq!(m.p2().character.rng_seed, derive_player_seed(31, 1));
}

// ---- training setups -----------------------------------------------------------

fn record_setup(m: &mut Game, side: Side, inputs: &[(MatchInput, MatchInput)]) -> TrainingRecording {
    let (a, b) = m.host_parts();
    let host = &mut m.host;
    let mut rec = TrainingRecorder::new(&mut m.m, side, a, b).expect("start state");
    assert!(rec.is_empty());
    for &(p1, p2) in inputs {
        let mut f = rec.tick(p1, p2);
        loop {
            let req = rec.request(&f);
            if req == Request::Done {
                break;
            }
            let reply = host.answer(req);
            rec.step(&mut f, reply);
        }
    }
    assert_eq!(rec.len(), inputs.len());
    assert_eq!(rec.match_ref().round_number(), 1);
    rec.into_recording()
}

#[test]
fn a_recording_holds_only_the_dummy() {
    let mut m = rng_probe_match();
    into_fight(&mut m);
    let inputs = scripted_inputs(5);
    let rec = record_setup(&mut m, Side::P2, &inputs);
    assert_eq!(rec.format_version, RECORDING_FORMAT_VERSION);
    assert_eq!(rec.dummy_side, Side::P2);
    assert_eq!(rec.len(), 5);
    assert!(!rec.is_empty());
    let dummy: Vec<MatchInput> = inputs.iter().map(|i| i.1).collect();
    assert_eq!(rec.dummy_inputs, dummy);
    let mut other = rng_probe_match();
    into_fight(&mut other);
    let rec1 = record_setup(&mut other, Side::P1, &inputs);
    let own: Vec<MatchInput> = inputs.iter().map(|i| i.0).collect();
    assert_eq!(rec1.dummy_inputs, own);
}

#[test]
fn playback_loops_from_the_same_start() {
    let mut m = rng_probe_match();
    m.seed_players(5);
    into_fight(&mut m);
    let start = m.state();
    let rec = record_setup(&mut m, Side::P2, &scripted_inputs(6));
    for (p1, p2) in scripted_inputs(9) {
        m.tick(p1, p2);
    }
    let Game { m, host } = &mut m;
    let (mut playback, parts) = match TrainingPlayback::new(m, rec.clone()) {
        Ok(ok) => ok,
        Err(e) => panic!("same characters, got {e:?}"),
    };
    host.entity(1).load(&parts.0);
    host.entity(2).load(&parts.1);
    assert_eq!(playback.dummy_side(), Side::P2);
    assert_eq!(playback.cursor(), 0);
    let mut ends = Vec::new();
    for n in 0..18 {
        assert_eq!(playback.at_loop_boundary(), n > 0 && n % 6 == 0);
        let step = match playback.tick(MatchInput::none()) {
            Ok(step) => step,
            Err(e) => panic!("same characters, got {e:?}"),
        };
        assert_eq!(step.reseated.is_some(), n > 0 && n % 6 == 0);
        if let Some((a, b)) = step.reseated {
            host.entity(1).load(&a);
            host.entity(2).load(&b);
            assert_eq!(a, start.p1.host);
            assert_eq!(b, start.p2.host);
        }
        let mut f = step.frame.expect("there is an input");
        assert_eq!(f.p1_input, MatchInput::none());
        assert_eq!(f.p2_input, rec.dummy_inputs[n % 6]);
        loop {
            let req = playback.request(&f);
            if req == Request::Done {
                break;
            }
            let reply = host.answer(req);
            playback.step(&mut f, reply);
        }
        assert_eq!(playback.cursor(), n % 6 + 1);
        let (a, b) = (host.entity(1).save(), host.entity(2).save());
        ends.push(playback.match_ref().snapshot_state(a, b));
    }
    assert_eq!(ends.len(), 18);
    for n in 0..12 {
        assert_eq!(ends[n], ends[n + 6], "every loop goes through the same states");
    }
    assert_ne!(ends[0], ends[1]);
}

#[test]
fn loops_repeat_with_a_projectile_in_flight_at_their_end() {
    let mut p1c = fighter();
    p1c.pos = vec2(-50.0, 0.0);
    let mut p2c = fighter();
    p2c.pos = vec2(50.0, 0.0);
    let mut m = Game::new(
        Player::new(p1c, defender_loaded()),
        Player::new(p2c, projectile_owner_loaded()),
        bounds(-200.0, 200.0),
    );
    m.host.scripts.1 = Box::new(|t| {
        t.full.vars[0] += 1;
        if t.full.vars[0] == 1 {
            t.orders.projectile_spawns.push(projectile_spawn(4, 8.0));
            t.orders.helper_spawns.push(helper_spawn(7, -1));
            t.orders.explod_spawns.push(ExplodSpawn {
                id: 42,
                anim: PROJ_ANIM,
                pos_type: PosType::P1,
                pos: vec2(0.0, 0.0),
                sprpriority: 0,
                bindtime: 1,
                removetime: 100,
            });
        }
        let seen = match &t.graph {
            Some(g) => g.proj_ids.len() + g.helper_ids.len(),
            None => 0,
        };
        t.full.vars[1] = seen as i32;
    });
    into_fight(&mut m);
    m.host.entity(2).vars[0] = 0;
    let rec = record_setup(&mut m, Side::P2, &[(MatchInput::none(), MatchInput::none()); 4]);
    let Game { m, host } = &mut m;
    let (mut playback, parts) = match TrainingPlayback::new(m, rec) {
        Ok(ok) => ok,
        Err(e) => panic!("same characters, got {e:?}"),
    };
    host.entity(1).load(&parts.0);
    host.entity(2).load(&parts.1);
    host.next = 100;
    assert!(playback.match_ref().p2().projectiles().is_empty());
    assert!(playback.match_ref().p2().helpers().is_empty());
    assert!(playback.match_ref().p2().explods().is_empty());
    let mut states = Vec::new();
    for _ in 0..12 {
        let step = match playback.tick(MatchInput::none()) {
            Ok(step) => step,
            Err(e) => panic!("same characters, got {e:?}"),
        };
        if let Some((a, b)) = step.reseated {
            assert_eq!(playback.match_ref().p2().projectiles().len(), 0);
            host.entity(1).load(&a);
            host.entity(2).load(&b);
            host.next = 100;
        }
        let mut f = step.frame.expect("there is an input");
        loop {
            let req = playback.request(&f);
            if req == Request::Done {
                break;
            }
            let reply = host.answer(req);
            playback.step(&mut f, reply);
        }
        let (a, b) = (host.entity(1).save(), host.entity(2).save());
        let now = playback.match_ref();
        assert_eq!(now.p2().projectiles().len(), 1, "it is in flight, and alone");
        assert_eq!(now.p2().helpers().len(), 1);
        assert_eq!(now.p2().explods().len(), 1);
        assert_eq!(now.p1().life(), 1000, "none of an earlier loop lands");
        assert!(!now.p2().character.has_target);
        states.push((
            now.snapshot_state(a, b),
            now.p2().projectiles().clone(),
            now.p2().explods().clone(),
            now.p2().helpers()[0].pos(),
        ));
    }
    for n in 0..8 {
        assert_eq!(states[n], states[n + 4], "every loop goes through the same states");
    }
    assert_ne!(states[0].1, states[1].1, "the projectile moves");
}

#[test]
fn an_empty_playback_only_reseats() {
    let mut m = rng_probe_match();
    into_fight(&mut m);
    let rec = record_setup(&mut m, Side::P1, &[]);
    let (mut playback, _) = match TrainingPlayback::new(&mut m.m, rec) {
        Ok(ok) => ok,
        Err(e) => panic!("same characters, got {e:?}"),
    };
    assert!(playback.at_loop_boundary());
    let step = match playback.tick(MatchInput::none()) {
        Ok(step) => step,
        Err(e) => panic!("same characters, got {e:?}"),
    };
    assert!(step.reseated.is_some());
    assert!(step.frame.is_none());
    assert_eq!(playback.cursor(), 0);
    assert!(playback.reset().is_ok());
}

#[test]
fn playback_refuses_other_characters_and_unreadable_starts() {
    let mut m = stamped_rng_probe_match(3);
    let rec = record_setup(&mut m, Side::P2, &scripted_inputs(2));
    let mut other = stamped_rng_probe_match(4);
    let before = other.save();
    assert!(matches!(
        TrainingPlayback::new(&mut other.m, rec.clone()),
        Err(FpError::Mismatch(_))
    ));
    let mut broken = rec;
    broken.start.truncate(11);
    assert!(matches!(
        TrainingPlayback::new(&mut other.m, broken),
        Err(FpError::Other(_))
    ));
    assert_eq!(other.save(), before);
}

#[test]
fn cut_off_bytes_are_refused_wherever_they_end() {
    let mut m = rng_probe_match();
    let rec = record_setup(&mut m, Side::P2, &scripted_inputs(3));
    let bytes = rec.encode().expect("encode");
    for n in 0..bytes.len() {
        assert!(matches!(
            TrainingRecording::decode(&bytes[..n]),
            Err(FpError::Other(_))
        ));
    }
    let mut log = ReplayLog::default();
    for (p1, p2) in scripted_inputs(3) {
        log.push(p1, p2);
    }
    let bytes = log.encode().expect("encode");
    for n in 0..bytes.len() {
        assert!(matches!(
            ReplayLog::decode(&bytes[..n]),
            Err(ReplayError::Codec(_))
        ));
    }
    let bytes = m.save();
    for n in 0..bytes.len() {
        assert!(matches!(
            m.m.restore_snapshot(&bytes[..n]),
            Err(FpError::Other(_))
        ));
    }
    assert_eq!(m.save(), bytes, "a refusal leaves the match as it was");
}

#[test]
fn recordings_survive_the_codec() {
    let mut m = rng_probe_match();
    let rec = record_setup(&mut m, Side::P2, &scripted_inputs(7));
    let bytes = rec.encode().expect("encode");
    assert_eq!(TrainingRecording::decode(&bytes), Ok(rec.clone()));
    assert_eq!(rec.encode().expect("encode"), bytes);
    match TrainingRecording::decode(&bytes[..9]) {
        Err(FpError::Other(text)) => {
            assert!(text.starts_with("training recording deserialize failed: "))
        }
        other => panic!("expected unreadable bytes, got {other:?}"),
    }
    let mut later = rec.clone();
    later.format_version = 8;
    assert_eq!(
        TrainingRecording::decode(&later.encode().expect("encode")),
        Err(FpError::Mismatch(Mismatch::Version {
            found: 8,
            expected: RECORDING_FORMAT_VERSION,
        }))
    );
    let mut sideless = bytes;
    sideless[4] = 7;
    assert_eq!(
        TrainingRecording::decode(&sideless),
        Err(FpError::Other(
            "training recording deserialize failed: tag for enum is not valid".to_string()
        ))
    );
}

// ---- helpers ------------------------------------------------------------------

fn helper_spawn(id: i32, remove_time: i32) -> HelperSpawn {
    HelperSpawn {
        helper_id: id,
        state_no: 1000,
        pos_type: PosType::P1,
        pos: vec2(30.0, 0.0),
        facing: 1,
        remove_time,
    }
}

fn helper_match(spawn: HelperSpawn) -> Game {
    let mut p1c = fighter();
    p1c.pos = vec2(-50.0, 0.0);
    p1c.facing = Facing::Right;
    p1c.life = 555;
    p1c.state_no = 0;
    let mut p2c = fighter();
    p2c.pos = vec2(50.0, 0.0);
    let mut m = Game::new(
        Player::new(p1c, defender_loaded()),
        Player::new(p2c, defender_loaded()),
        bounds(-200.0, 200.0),
    );
    m.host.scripts.0 = Box::new(move |t| {
        if t.c.state_time == 0 {
            t.orders.helper_spawns.push(spawn);
        }
    });
    m
}

#[test]
fn helper_controller_spawns_addressable_child() {
    let mut m = helper_match(helper_spawn(1234, -1));
    assert!(m.p1().helpers().is_empty(), "no helper before any tick");
    m.tick(MatchInput::none(), MatchInput::none());
    let helpers = m.p1().helpers();
    assert_eq!(helpers.len(), 1, "exactly one helper spawned");
    assert_eq!(helpers[0].helper_id(), 1234, "addressable by its id");
    assert!(
        (helpers[0].pos().x.f() - (-20.0)).abs() < 1e-3,
        "helper spawned at the p1-relative anchor, got {}",
        helpers[0].pos().x.f()
    );
    m.tick(MatchInput::none(), MatchInput::none());
    assert_eq!(m.p1().helpers().len(), 1, "Helper fired once (Time = 0)");
}

#[test]
fn helper_ticks_and_parent_root_redirects_resolve() {
    let mut m = helper_match(helper_spawn(1234, -1));
    m.host.helper_scripts.0 = Box::new(|t| {
        if t.opponent.life == 555 {
            t.full.vars[0] = 1;
        }
    });
    m.tick(MatchInput::none(), MatchInput::none());
    let helper = m.p1().helpers()[0];
    assert_eq!(
        helper.character.state_no, 1000,
        "helper entered its start state"
    );
    let entity = helper.character.entity;
    assert_eq!(
        m.vars(entity)[0],
        1,
        "the root that the helper sees is its owner (life 555)"
    );
    let t_before = m.p1().helpers()[0].character.state_time;
    m.tick(MatchInput::none(), MatchInput::none());
    let t_after = m.p1().helpers()[0].character.state_time;
    assert!(t_after > t_before, "helper's state Time advances each tick");
}

#[test]
fn numhelper_guard_latches_spawn_to_exactly_one_helper() {
    let id: i32 = 3;
    let mut m = helper_match(helper_spawn(id, -1));
    m.host.scripts.0 = Box::new(move |t| {
        let count = match &t.graph {
            Some(g) => g.helper_ids.iter().filter(|h| **h == id).count(),
            None => 0,
        };
        if count == 0 {
            t.orders.helper_spawns.push(helper_spawn(id, -1));
        }
    });
    assert!(m.p1().helpers().is_empty(), "no helper before any tick");
    for _ in 0..(MAX_HELPERS_PER_PLAYER * 2) {
        m.tick(MatchInput::none(), MatchInput::none());
    }
    let helpers = m.p1().helpers();
    assert_eq!(helpers.iter().filter(|h| h.helper_id() == id).count(), 1);
    assert_eq!(
        helpers.len(),
        1,
        "the player owns exactly one helper in total"
    );
}

#[test]
fn helper_destroyself_removes_from_slot_map() {
    let mut m = helper_match(helper_spawn(77, -1));
    m.host.helper_scripts.0 = Box::new(|t| {
        if t.c.state_time >= 1 {
            t.destroy_self = true;
        }
    });
    m.tick(MatchInput::none(), MatchInput::none());
    assert_eq!(
        m.p1().helpers().len(),
        1,
        "helper spawned and survived its first tick (DestroySelf gated to Time >= 1)"
    );
    m.tick(MatchInput::none(), MatchInput::none());
    assert!(
        m.p1().helpers().is_empty(),
        "helper removed from the slot-map the tick it ran DestroySelf"
    );
}

#[test]
fn helper_removetime_auto_expires() {
    let remove_time: i32 = 3;
    let mut m = helper_match(helper_spawn(88, remove_time));
    m.tick(MatchInput::none(), MatchInput::none());
    assert_eq!(m.p1().helpers().len(), 1, "helper alive after spawn");
    assert_eq!(
        m.p1().helpers()[0].remaining(),
        remove_time - 1,
        "lifetime counts down each tick"
    );
    for _ in 0..(remove_time - 1) {
        m.tick(MatchInput::none(), MatchInput::none());
    }
    assert_eq!(
        m.p1().helpers().len(),
        1,
        "helper still alive on its last live frame (remaining == 0)"
    );
    assert_eq!(m.p1().helpers()[0].remaining(), 0, "on the last live frame");
    m.tick(MatchInput::none(), MatchInput::none());
    assert!(
        m.p1().helpers().is_empty(),
        "helper auto-expired when its removetime lifespan elapsed"
    );
}

#[test]
fn spawn_and_destroy_each_tick_stays_bounded() {
    let mut m = helper_match(helper_spawn(5, -1));
    m.host.scripts.0 = Box::new(|t| t.orders.helper_spawns.push(helper_spawn(5, -1)));
    m.host.helper_scripts.0 = Box::new(|t| t.destroy_self = true);
    for _ in 0..(MAX_HELPERS_PER_PLAYER * 4) {
        m.tick(MatchInput::none(), MatchInput::none());
        assert!(m.p1().helpers().len() <= 1);
    }
}

#[test]
fn helpers_and_projectiles_stop_at_their_caps() {
    let mut m = helper_match(helper_spawn(5, -1));
    m.host.scripts.0 = Box::new(|t| {
        for id in 0..20 {
            t.orders.helper_spawns.push(helper_spawn(id, -1));
            t.orders.projectile_spawns.push(projectile_spawn(id, 0.0));
        }
    });
    for n in 1..=4 {
        m.tick(MatchInput::none(), MatchInput::none());
        assert_eq!(m.p1().helpers().len(), (20 * n).min(MAX_HELPERS_PER_PLAYER));
        assert_eq!(
            m.p1().projectiles().len(),
            (20 * n).min(MAX_PROJECTILES_PER_PLAYER)
        );
    }
    assert_eq!(m.host.births.len(), 56, "no helper is made for nothing");
    assert_eq!(
        m.p1().helpers()[55].helper_id(),
        15,
        "the first ones that fit are taken"
    );
}

#[test]
fn helpers_are_placed_and_faced_by_their_request() {
    let cases = [
        (PosType::P1, -20.0),
        (PosType::P2, 80.0),
        (PosType::Front, 230.0),
        (PosType::Back, -170.0),
        (PosType::Left, -170.0),
        (PosType::Right, 230.0),
    ];
    for (pos_type, x) in cases {
        let spawn = HelperSpawn {
            pos_type,
            facing: -1,
            ..helper_spawn(1, -1)
        };
        let mut m = helper_match(spawn);
        m.tick(MatchInput::none(), MatchInput::none());
        let h = m.p1().helpers()[0];
        assert_eq!(h.pos().x.f(), x, "{pos_type:?}");
        assert_eq!(h.character.facing, Facing::Left);
        assert_eq!(h.anim(), 0);
    }
}

#[test]
fn root_destroyself_does_not_remove_player() {
    let mut m = basic_match();
    m.host.scripts.0 = Box::new(|t| t.destroy_self = true);
    for _ in 0..10 {
        m.tick(MatchInput::none(), MatchInput::none());
    }
    assert_eq!(m.p1().life(), m.p1().life_max(), "root still alive");
    assert!(
        m.p1().helpers().is_empty(),
        "the self-destructing root spawned no helpers and is not a helper itself"
    );
}

// ---- projectiles ----------------------------------------------------------------

const PROJ_ANIM: i32 = 2000;

fn projectile_spawn(id: i32, speed: f32) -> ProjectileSpawn {
    ProjectileSpawn {
        id,
        anim: PROJ_ANIM,
        pos: vec2(20.0, -40.0),
        velocity: vec2(speed, 0.0),
        remove_time: -1,
        hitdef: Attack {
            p2stateno: Some(5000),
            ..sample_hitdef()
        }
        .def(),
    }
}

fn projectile_owner_loaded() -> LoadedCharacter {
    let mut air = air_with(
        PROJ_ANIM,
        vec![rect(-30.0, -70.0, 60.0, 70.0)],
        Vec::new(),
    );
    air.actions.insert(
        0,
        action(0, vec![frame(sprite(0, 0), 1, Vec::new(), vec![hurt()])]),
    );
    loaded_with(air)
}

fn projectile_match(p1_x: f32, p2_x: f32, left: f32, right: f32) -> Game {
    let mut p1c = fighter();
    p1c.pos = vec2(p1_x, 0.0);
    p1c.facing = Facing::Right;
    let mut p2c = fighter();
    p2c.pos = vec2(p2_x, 0.0);
    let mut m = Game::new(
        Player::new(p1c, projectile_owner_loaded()),
        Player::new(p2c, defender_loaded()),
        bounds(left, right),
    );
    m.host.scripts.0 = Box::new(|t| {
        if t.c.round_view.round_state == 1 && t.full.vars[30] == 0 {
            t.orders.projectile_spawns.push(projectile_spawn(9001, 8.0));
            t.full.vars[30] = 1;
        }
        t.full.vars[0] = match &t.graph {
            Some(g) => g.target_ids.len() as i32,
            None => -1,
        };
    });
    m
}

#[test]
fn projectile_controller_spawns_moving_entity() {
    let mut m = projectile_match(-100.0, 280.0, -300.0, 300.0);
    assert!(m.p1().projectiles().is_empty(), "none before any tick");
    into_fight(&mut m);
    let projs = m.p1().projectiles();
    assert_eq!(projs.len(), 1, "exactly one projectile spawned");
    let proj = &projs[0];
    assert_eq!(proj.proj_id(), 9001, "addressable by its projid");
    assert_eq!(proj.anim(), PROJ_ANIM, "displays its projanim");
    let hd = Attack::of(
        proj.character
            .active_hitdef
            .expect("projectile carries its own HitDef"),
    );
    assert_eq!(hd.hit, 30);
    assert_eq!(hd.p2stateno, Some(5000));
    assert!(
        m.p1().character.active_hitdef.is_none(),
        "the owner does not carry the projectile's attack"
    );
    m.tick(MatchInput::none(), MatchInput::none());
    assert_eq!(m.p1().projectiles().len(), 1, "Projectile fired once");
}

#[test]
fn projectile_advances_each_tick() {
    let mut m = projectile_match(-100.0, 280.0, -400.0, 400.0);
    into_fight(&mut m);
    let x0 = m.p1().projectiles()[0].pos().x.f();
    m.tick(MatchInput::none(), MatchInput::none());
    let x1 = m.p1().projectiles()[0].pos().x.f();
    m.tick(MatchInput::none(), MatchInput::none());
    let x2 = m.p1().projectiles()[0].pos().x.f();
    assert!(x1 > x0, "projectile moved right (x1={x1} > x0={x0})");
    assert!(x2 > x1, "projectile kept moving right (x2={x2} > x1={x1})");
    assert!(
        (x1 - x0 - 8.0).abs() < 1e-3,
        "advanced 8px/tick, got {}",
        x1 - x0
    );
}

#[test]
fn projectile_connects_and_damages_opponent() {
    let mut m = projectile_match(0.0, 200.0, -400.0, 400.0);
    into_fight(&mut m);
    let life_before = m.p2().life();
    let mut connected = false;
    for _ in 0..40 {
        m.tick(MatchInput::none(), MatchInput::none());
        if m.p2().life() < life_before {
            connected = true;
            break;
        }
    }
    assert!(
        connected,
        "projectile connected and reduced the opponent's life"
    );
    assert!(
        m.p2().life() <= life_before - 30,
        "applied at least the HitDef hit damage"
    );
    assert_eq!(
        m.p2().character.state_no,
        5000,
        "defender entered the projectile's p2stateno"
    );
    assert!(
        m.p1().projectiles().is_empty(),
        "the connecting projectile was reaped (single-hit)"
    );
}

#[test]
fn proj_triggers_populate_across_match_lifecycle() {
    let mut m = projectile_match(0.0, 200.0, -400.0, 400.0);
    assert!(m.p1().projectiles().is_empty());
    assert!(!m.host.entity(1).contacts.contains_key(&9001));
    into_fight(&mut m);
    assert_eq!(
        m.p1().projectiles().len(),
        1,
        "one live projectile (the NumProj count)"
    );
    assert!(!m.host.entity(1).contacts.contains_key(&9001));
    let mut connected = false;
    for _ in 0..40 {
        m.tick(MatchInput::none(), MatchInput::none());
        if m.host.entity(1).contacts.contains_key(&9001) {
            connected = true;
            break;
        }
    }
    assert!(
        connected,
        "the projectile connected and recorded a Proj* event"
    );
    assert_eq!(
        m.host.entity(1).contacts[&9001],
        (0, 0, -1),
        "contact and hit read 0, guard reads never"
    );
    assert!(
        m.p1().projectiles().is_empty(),
        "single-hit projectile reaped"
    );
    m.tick(MatchInput::none(), MatchInput::none());
    assert_eq!(m.host.entity(1).contacts[&9001], (1, 1, -1));
}

#[test]
fn numproj_read_from_helper_context_sees_owner_count() {
    let mut m = projectile_match(-100.0, 280.0, -400.0, 400.0);
    m.host.scripts.0 = Box::new(|t| {
        if t.c.state_time == 0 {
            t.orders.projectile_spawns.push(projectile_spawn(9001, 8.0));
            t.orders.helper_spawns.push(helper_spawn(1234, -1));
        }
    });
    m.host.helper_scripts.0 = Box::new(|t| t.full.vars[0] = t.run_ids.1.len() as i32);
    m.tick(MatchInput::none(), MatchInput::none());
    assert_eq!(
        m.p1().projectiles().len(),
        1,
        "exactly one live projectile (the owner's NumProj count)"
    );
    let helper = m.p1().helpers()[0].character;
    assert_eq!(helper.state_no, 1000, "helper entered its start state");
    m.tick(MatchInput::none(), MatchInput::none());
    assert_eq!(m.p1().projectiles().len(), 1);
    assert_eq!(
        m.vars(helper.entity)[0],
        1,
        "helper read the OWNER's NumProj (1 live projectile), not its own empty list (0)"
    );
}

#[test]
fn projectile_is_reaped_after_flying_offscreen() {
    let mut m = projectile_match(0.0, -200.0, -150.0, 150.0);
    into_fight(&mut m);
    assert_eq!(
        m.p1().projectiles().len(),
        1,
        "projectile present after spawn"
    );
    for _ in 0..40 {
        m.tick(MatchInput::none(), MatchInput::none());
    }
    assert!(
        m.p1().projectiles().is_empty(),
        "projectile reaped after flying off the stage"
    );
}

#[test]
fn projectiles_count_down_and_mirror_their_flight() {
    let mut m = basic_match();
    m.host.scripts.1 = Box::new(|t| {
        if t.c.state_time == 0 {
            t.orders.projectile_spawns.push(ProjectileSpawn {
                remove_time: 2,
                ..projectile_spawn(4, 8.0)
            });
        }
    });
    m.tick(MatchInput::none(), MatchInput::none());
    let p = m.p2().projectiles()[0];
    assert_eq!(p.velocity.x.f(), -8.0);
    assert_eq!(p.pos().x.f(), 50.0 - 20.0 - 8.0);
    assert_eq!(p.remaining, 1);
    m.tick(MatchInput::none(), MatchInput::none());
    assert_eq!(m.p2().projectiles()[0].remaining, 0);
    m.tick(MatchInput::none(), MatchInput::none());
    assert!(m.p2().projectiles().is_empty());
}

#[test]
fn projectile_animations_loop() {
    let mut air = two_frame_air(5, 2);
    let mut c = fighter();
    c.anim = 5;
    let mut seen = Vec::new();
    for _ in 0..5 {
        advance_projectile_frame(&mut c, &air);
        seen.push((c.anim_elem, c.anim_elem_time));
    }
    assert_eq!(seen, vec![(0, 1), (1, 0), (1, 1), (0, 0), (0, 1)]);
    c.anim_elem = 9;
    advance_projectile_frame(&mut c, &air);
    assert_eq!((c.anim_elem, c.anim_elem_time), (0, 0));
    c.anim_elem = -5;
    c.anim_elem_time = 1;
    advance_projectile_frame(&mut c, &air);
    assert_eq!((c.anim_elem, c.anim_elem_time), (0, 0));
    air.actions.insert(5, action(5, Vec::new()));
    c.anim_elem = 3;
    advance_projectile_frame(&mut c, &air);
    assert_eq!(c.anim_elem, 3);
}

#[test]
fn playerid_redirect_resolves_opponent_through_match() {
    let mut m = basic_match();
    m.p2.character.life = 444;
    m.host.scripts.0 = Box::new(|t| {
        if let Some(g) = &t.graph {
            if g.players == vec![(2, 2)] && t.opponent.life == 444 {
                t.full.vars[1] = 1;
            }
            if g.target.is_some() || !g.target_ids.is_empty() {
                t.full.vars[0] = 1;
            }
        }
    });
    into_fight(&mut m);
    assert_eq!(
        m.vars(1)[1],
        1,
        "`playerid(2)` resolved to the opponent (life 444), not 0"
    );
    assert_eq!(m.vars(1)[0], 0, "no target before a hit");
}

#[test]
fn target_redirect_resolves_after_a_hit_through_match() {
    let mut m = projectile_match(0.0, 200.0, -400.0, 400.0);
    into_fight(&mut m);
    assert_eq!(m.vars(1)[0], 0, "no target before the hit");
    assert!(!m.p1().character.has_target, "no target before the hit");
    let mut hit = false;
    for _ in 0..40 {
        m.tick(MatchInput::none(), MatchInput::none());
        if m.p1().character.has_target {
            hit = true;
            break;
        }
    }
    assert!(hit, "P1's projectile connected and established a target");
    m.tick(MatchInput::none(), MatchInput::none());
    assert_eq!(
        m.vars(1)[0],
        1,
        "`target` redirect resolved to the hit opponent"
    );
}

#[test]
fn one_v_one_partner_redirect_stays_zero() {
    let mut m = basic_match();
    m.host.scripts.0 = Box::new(|t| {
        if let Some(g) = &t.graph {
            if g.partner.is_some() {
                t.full.vars[4] = 1;
            }
        }
    });
    m.tick(MatchInput::none(), MatchInput::none());
    assert_eq!(
        m.vars(1)[4],
        0,
        "a 1v1 match has no partner, so the redirect stays 0 and the probe never fires"
    );
    let f = m
        .m
        .tick_with_partners(MatchInput::none(), MatchInput::none(), Some(31), None);
    m.finish(f);
    assert_eq!(m.vars(1)[4], 1, "a teammate is reachable");
}

/// Two fighters 120 apart, the second with a life that can be told.
fn probe_match() -> Game {
    let mut p1c = fighter();
    p1c.pos = vec2(-60.0, 0.0);
    p1c.facing = Facing::Right;
    let mut p2c = fighter();
    p2c.pos = vec2(60.0, 0.0);
    p2c.facing = Facing::Left;
    p2c.life = 432;
    let p1 = Player::new(p1c, attacker_loaded());
    let p2 = Player::new(p2c, defender_loaded());
    Game::new(p1, p2, bounds(-220.0, 220.0))
}

#[test]
fn match_tick_wires_opponent_into_cross_entity_triggers() {
    let mut m = probe_match();
    let front =
        m.p1().character.size.ground_front.f() + m.p2().character.size.ground_front.f();
    m.host.scripts.0 = Box::new(|t| {
        let gap = t.opponent.pos.x.f() - t.c.pos.x.f();
        let widths = t.c.size.ground_front.f() + t.opponent.size.ground_front.f();
        t.full.vars[0] = gap as i32;
        t.full.vars[1] = (gap - widths) as i32;
        t.full.vars[2] = t.opponent.life;
    });
    m.tick(MatchInput::none(), MatchInput::none());
    assert_eq!(m.vars(1)[0], 120, "p1 must see p2dist X = 120 (opponent in front)");
    assert_eq!(
        m.vars(1)[1],
        120 - front as i32,
        "p1 must see edge-to-edge p2bodydist X = 120 - widths"
    );
    assert_eq!(m.vars(1)[2], 432, "P2Life must read the opponent's life");
}

#[test]
fn match_tick_resolves_redirect_through_a_trigger() {
    let mut m = probe_match();
    let p2 = m.p2().character.entity;
    m.host.scripts.0 = Box::new(move |t| {
        if let Some(g) = &t.graph {
            let reached = g.players.iter().any(|(_, handle)| *handle == p2);
            if reached && t.opponent.entity == p2 && t.opponent.life == 432 {
                t.full.vars[3] = 1;
            }
        }
    });
    m.tick(MatchInput::none(), MatchInput::none());
    assert_eq!(
        m.vars(1)[3],
        1,
        "`(p2, life)` redirect must resolve the opponent through Match::tick"
    );
}

#[test]
fn ai_observations_hold_both_positions() {
    let m = basic_match();
    let o = m.ai_observation_for_p2();
    assert_eq!(o.opponent_x.f() - o.own_x.f(), -100.0);
    let o = m.ai_observation_for_p1();
    assert_eq!(o.opponent_x.f() - o.own_x.f(), 100.0);
    let (p1, p2) = m.m.into_players();
    assert_eq!(p1.pos().x.f(), -50.0);
    assert_eq!(p2.pos().x.f(), 50.0);
}

// ---- explods --------------------------------------------------------------------

fn two_frame_air(anim: i32, ticks: i32) -> AirFile {
    let mk = |g: u16| frame(sprite(g, 0), ticks, Vec::new(), Vec::new());
    let mut actions = HashMap::new();
    actions.insert(anim, action(anim, vec![mk(0), mk(1)]));
    AirFile { actions }
}

#[test]
fn explod_spawns_through_match_tick_and_clears_on_round_reset() {
    let mut p1c = fighter();
    p1c.pos = vec2(-50.0, 0.0);
    p1c.facing = Facing::Right;
    let mut p2c = fighter();
    p2c.pos = vec2(50.0, 0.0);
    p2c.facing = Facing::Left;
    let mut m = Game::new(
        Player::new(p1c, loaded_with(two_frame_air(5, 4))),
        Player::new(p2c, loaded_with(two_frame_air(0, 4))),
        bounds(-300.0, 300.0),
    );
    m.host.scripts.0 = Box::new(|t| {
        if t.c.state_time == 0 {
            t.orders.explod_spawns.push(ExplodSpawn {
                id: 42,
                anim: 5,
                pos_type: PosType::P1,
                pos: vec2(0.0, 0.0),
                sprpriority: 0,
                bindtime: 1,
                removetime: 100,
            });
        }
    });
    for _ in 0..3 {
        m.tick(MatchInput::none(), MatchInput::none());
    }
    let explods = m.p1().explods();
    assert_eq!(explods.len(), 1, "the Explod controller spawned one explod");
    assert_eq!(explods[0].id(), 42);
    assert_eq!(explods[0].anim(), 5);
    m.begin_next_round();
    assert!(
        m.p1().explods().is_empty(),
        "explods do not survive a round boundary"
    );
}

// ---- frame data -----------------------------------------------------------------

#[test]
fn frame_advantage_on_block_equals_blockstun_minus_recovery() {
    let act = action(
        200,
        vec![
            frame(sprite(0, 0), 4, Vec::new(), Vec::new()),
            frame(
                sprite(0, 0),
                3,
                vec![rect(0.0, -40.0, 30.0, -10.0)],
                Vec::new(),
            ),
            frame(sprite(0, 0), 8, Vec::new(), Vec::new()),
        ],
    );
    let startup = elapsed_in_action(&act, 1);
    let active = elapsed_in_action(&act, 2) - startup;
    let recovery = elapsed_in_action(&act, 3) - startup - active;
    assert_eq!((startup, active, recovery), (4, 3, 8));
    let on_block = frame_advantage(5, recovery);
    assert_eq!(on_block, -3, "on-block advantage = blockstun - recovery");
    let on_hit = frame_advantage(12, recovery);
    assert_eq!(on_hit, 4, "on-hit advantage = hitstun - recovery");
}

#[test]
fn elapsed_time_clamps_its_cursor_and_skips_holds() {
    let act = action(
        7,
        vec![
            frame(sprite(0, 0), 4, Vec::new(), Vec::new()),
            frame(sprite(0, 0), -1, Vec::new(), Vec::new()),
            frame(sprite(0, 0), i32::MAX, Vec::new(), Vec::new()),
        ],
    );
    assert_eq!(elapsed_in_action(&act, -3), 0);
    assert_eq!(elapsed_in_action(&act, 1), 4);
    assert_eq!(elapsed_in_action(&act, 2), 4);
    assert_eq!(elapsed_in_action(&act, 99), i32::MAX);
    assert_eq!(effect_lifetime(&act), 60);
    assert_eq!(effect_lifetime(&action(1, Vec::new())), 1);
    let p = Player::new(fighter(), defender_loaded());
    assert_eq!(compute_frame_advantage(&p, None, 5), None);
    assert_eq!(compute_frame_advantage(&p, Some(3), 5), Some(2));
    assert_eq!(
        compute_frame_advantage(&p, Some(1), i32::MIN),
        Some(i32::MIN)
    );
}

#[test]
fn contact_needs_boxes_on_both_sides() {
    let mut a = Player::new(fighter(), attacker_loaded());
    let mut d = Player::new(fighter(), defender_loaded());
    assert!(directional_contact(&a, &d).is_none(), "no attack box shown");
    a.character.anim = 200;
    a.character.anim_elem = 77;
    let probe = directional_contact(&a, &d).expect("boxes on both sides");
    assert_eq!(probe.attack.len(), 1);
    assert_eq!(probe.hurt, vec![hurt()]);
    d.character.anim = 3;
    assert!(directional_contact(&a, &d).is_none(), "no hurt box shown");
}

// ---- the conversation -------------------------------------------------------------

#[test]
fn a_reply_that_does_not_fit_changes_nothing() {
    let mut m = basic_match();
    let mut f = m.m.tick(MatchInput::none(), MatchInput::none());
    let before = m.state();
    let stage = f.stage;
    m.m.step(&mut f, Reply::Acknowledged);
    m.m.step(
        &mut f,
        Reply::Pushed {
            p1_x: sc(1.0),
            p2_x: sc(2.0),
        },
    );
    assert_eq!(f.stage, stage);
    assert_eq!(m.state(), before);
    loop {
        let req = m.m.request(&f);
        if let Request::SpawnHelpers { .. } = req {
            break;
        }
        let reply = m.host.answer(req);
        m.m.step(&mut f, reply);
    }
    let stage = f.stage;
    m.m.step(
        &mut f,
        Reply::Spawned {
            p1: vec![fighter()],
            p2: vec![],
        },
    );
    assert_eq!(f.stage, stage, "too many entities");
    assert!(m.p1().helpers().is_empty());
    m.finish(f);
    assert_eq!(m.game_time(), 1);
}

#[test]
fn clashes_are_probed_only_when_both_may_connect() {
    let mut m = clash_match();
    arm_brawler(&mut m.p1, sample_hitdef());
    m.tick(MatchInput::none(), MatchInput::none());
    assert_eq!(m.host.clashes, 0, "one attack is no clash");
    arm_brawler(&mut m.p1, sample_hitdef());
    arm_brawler(&mut m.p2, sample_hitdef());
    m.p1.character.move_contact = true;
    m.tick(MatchInput::none(), MatchInput::none());
    assert_eq!(m.host.clashes, 0, "a spent attack cannot clash");
    arm_brawler(&mut m.p1, sample_hitdef());
    arm_brawler(&mut m.p2, sample_hitdef());
    m.tick(MatchInput::none(), MatchInput::none());
    assert_eq!(m.host.clashes, 1);
}

#[test]
fn stage_views_carry_the_bounds() {
    let b = StageBounds::with_dims(sc(-1.0), sc(2.0), sc(640.0), sc(480.0));
    let v: StageView = b.view();
    assert_eq!(v.left.f(), -1.0);
    assert_eq!(v.right.f(), 2.0);
    assert_eq!(v.game_width.f(), 640.0);
    assert_eq!(v.game_height.f(), 480.0);
    let d = StageBounds::default();
    assert_eq!(d.game_width.f(), 320.0);
    assert_eq!(d.game_height.f(), 240.0);
}
