use std::collections::HashMap;

use fp_engine::{
    advance_effect_frame, advance_explod_frame, back_edge_x, explod_id_matches, explod_lifetime,
    front_edge_x, AirFile, AnimAction, AnimFrame, BodySize, Character, CharacterFingerprint,
    CommandSource, Effect, EffectSide, Explod, ExplodOp, ExplodSpawn, Facing, Freeze, FreezeExempt,
    LoadedCharacter, MoveType, Offset, Player, PosType, RoundView, Scalar, SpriteId, StageView,
    StateType, Vec2, WidthOverride, EXPLOD_MAX_LIFETIME, MAX_EXPLODS_PER_PLAYER,
};

fn sc(x: f32) -> Scalar {
    Scalar { bits: x.to_bits() }
}

fn f(x: Scalar) -> f32 {
    f32::from_bits(x.bits)
}

fn vec2(x: f32, y: f32) -> Vec2 {
    Vec2 { x: sc(x), y: sc(y) }
}

fn at(e: &Explod) -> Vec2 {
    vec2(
        f(e.pos.anchor.x) + f(e.pos.shift.x),
        f(e.pos.anchor.y) + f(e.pos.shift.y),
    )
}

fn stage() -> StageView {
    StageView {
        left: sc(-160.0),
        right: sc(160.0),
        game_width: sc(320.0),
        game_height: sc(240.0),
    }
}

fn sprite(group: u16, image: u16) -> SpriteId {
    SpriteId { group, image }
}

fn fighter() -> Character {
    Character {
        entity: 1,
        pos: vec2(0.0, 0.0),
        vel: vec2(0.0, 0.0),
        facing: Facing::Right,
        life: 1000,
        life_max: 1000,
        power: 0,
        power_max: 3000,
        state_no: 0,
        prev_state_no: 0,
        state_time: 0,
        state_type: StateType::Standing,
        move_type: MoveType::Idle,
        ctrl: false,
        holding_back: false,
        has_target: false,
        anim: 0,
        anim_elem: 0,
        anim_elem_time: 0,
        anim_time: 0,
        active_hitdef: None,
        move_contact: false,
        hitpause: 0,
        shaketime: 0,
        no_auto_turn: false,
        cur_width: WidthOverride {
            active: false,
            front: sc(0.0),
            back: sc(0.0),
        },
        size: BodySize {
            ground_front: sc(16.0),
            ground_back: sc(15.0),
        },
        ai_level: 0,
        rng_seed: 0,
        round_view: RoundView {
            round_state: 0,
            game_time: 0,
            match_over: false,
            round_no: 1,
            rounds_existed: 0,
        },
        commands: CommandSource::NoCommands,
    }
}

fn animation(anim: i32, ticks: &[i32]) -> AirFile {
    let mut frames = Vec::new();
    for (i, t) in ticks.iter().enumerate() {
        frames.push(AnimFrame {
            sprite: sprite(i as u16, 0),
            offset: Offset { x: 0, y: i as i16 },
            ticks: *t,
            clsn1: Vec::new(),
            clsn2: Vec::new(),
        });
    }
    let mut actions = HashMap::new();
    actions.insert(
        anim,
        AnimAction {
            action_number: anim,
            frames,
            loopstart: 0,
        },
    );
    AirFile { actions }
}

fn explod_player(x: f32, anim: i32, ticks: i32) -> Player {
    let mut c = fighter();
    c.pos = vec2(x, 0.0);
    c.facing = Facing::Right;
    Player::new(
        c,
        LoadedCharacter {
            fingerprint: CharacterFingerprint(1),
            states: Vec::new(),
            air: animation(anim, &[ticks, ticks]),
        },
    )
}

fn spawn(id: i32, anim: i32, removetime: i32) -> ExplodSpawn {
    ExplodSpawn {
        id,
        anim,
        pos_type: PosType::P1,
        pos: vec2(0.0, 0.0),
        sprpriority: 0,
        bindtime: -1,
        removetime,
    }
}

#[test]
fn explod_spawn_inserts_rendered_entity() {
    let mut p = explod_player(0.0, 5, 4);
    let s = ExplodSpawn {
        id: 3,
        anim: 5,
        pos_type: PosType::P1,
        pos: vec2(10.0, -20.0),
        sprpriority: 2,
        bindtime: -1,
        removetime: 8,
    };
    p.spawn_explods(&vec![s], 1, sc(100.0), stage());
    assert_eq!(p.explods().len(), 1, "one explod spawned");
    let e = p.explods()[0];
    assert_eq!(e.id(), 3);
    assert_eq!(e.anim(), 5);
    assert_eq!(e.owner(), 1);
    assert_eq!(e.sprpriority, 2);
    assert_eq!(at(&e), vec2(10.0, -20.0));
    assert_eq!(e.sprite, sprite(0, 0));
    assert_eq!(e.remaining(), 8, "removetime carried as the lifetime");
}

#[test]
fn explod_spawn_missing_anim_is_skipped() {
    let mut p = explod_player(0.0, 5, 4);
    p.spawn_explods(&vec![spawn(1, 999, 8)],
        1,
        sc(0.0),
        stage(),
    );
    assert!(
        p.explods().is_empty(),
        "no explod for a missing anim action"
    );
}

#[test]
fn explod_expires_on_removetime() {
    let mut p = explod_player(0.0, 5, 99);
    p.spawn_explods(&vec![spawn(1, 5, 3)],
        1,
        sc(0.0),
        stage(),
    );
    assert_eq!(p.explods().len(), 1);
    assert_eq!(p.explods()[0].remaining(), 3);
    for expected in [2, 1, 0] {
        p.tick_explods(
            vec2(0.0, 0.0),
            Facing::Right,
            sc(0.0),
            stage(),
        );
        assert_eq!(
            p.explods()[0].remaining(),
            expected,
            "counts down by one per tick"
        );
    }
    p.tick_explods(
        vec2(0.0, 0.0),
        Facing::Right,
        sc(0.0),
        stage(),
    );
    assert!(p.explods().is_empty(), "explod reaped at removetime expiry");
}

#[test]
fn explod_play_once_reaped_when_animation_finishes() {
    let mut p = explod_player(0.0, 5, 1);
    p.spawn_explods(&vec![spawn(1, 5, -1)],
        1,
        sc(0.0),
        stage(),
    );
    assert_eq!(p.explods().len(), 1);
    p.tick_explods(
        vec2(0.0, 0.0),
        Facing::Right,
        sc(0.0),
        stage(),
    );
    assert_eq!(p.explods().len(), 1, "still playing the last frame");
    assert_eq!(
        p.explods()[0].sprite,
        sprite(1, 0),
        "advanced to frame 2"
    );
    p.tick_explods(
        vec2(0.0, 0.0),
        Facing::Right,
        sc(0.0),
        stage(),
    );
    assert!(
        p.explods().is_empty(),
        "play-once explod reaped at animation end"
    );
}

#[test]
fn explod_loop_is_bounded_by_max_lifetime() {
    let mut p = explod_player(0.0, 5, 1);
    p.spawn_explods(&vec![spawn(1, 5, -2)],
        1,
        sc(0.0),
        stage(),
    );
    assert_eq!(p.explods()[0].remaining(), EXPLOD_MAX_LIFETIME);
    assert!(
        !p.explods()[0].play_once(),
        "a -2 explod loops, not play-once"
    );
    for _ in 0..=EXPLOD_MAX_LIFETIME {
        p.tick_explods(
            vec2(0.0, 0.0),
            Facing::Right,
            sc(0.0),
            stage(),
        );
    }
    assert!(
        p.explods().is_empty(),
        "a looping explod is reaped by EXPLOD_MAX_LIFETIME"
    );
}

#[test]
fn modify_explod_updates_matching_fields_only() {
    let mut p = explod_player(0.0, 5, 99);
    p.spawn_explods(&vec![spawn(1, 5, 50), spawn(2, 5, 50)],
        1,
        sc(0.0),
        stage(),
    );
    p.apply_explod_ops(&vec![ExplodOp::Modify {
        id: Some(1),
        anim: None,
        pos: None,
        sprpriority: Some(9),
        bindtime: None,
        removetime: Some(20),
    }]);
    let e1 = p.explods().iter().find(|e| e.id() == 1).unwrap();
    let e2 = p.explods().iter().find(|e| e.id() == 2).unwrap();
    assert_eq!(e1.sprpriority, 9, "id 1 sprpriority updated");
    assert_eq!(e1.remaining(), 20, "id 1 removetime re-clamped");
    assert_eq!(e1.anim(), 5, "id 1 anim untouched (absent field)");
    assert_eq!(e2.sprpriority, 0);
    assert_eq!(e2.remaining(), 50);
}

#[test]
fn modify_explod_no_id_matches_all() {
    let mut p = explod_player(0.0, 5, 99);
    p.spawn_explods(&vec![spawn(1, 5, 50), spawn(2, 5, 50)],
        1,
        sc(0.0),
        stage(),
    );
    p.apply_explod_ops(&vec![ExplodOp::Modify {
        id: None,
        anim: None,
        pos: None,
        sprpriority: Some(4),
        bindtime: None,
        removetime: None,
    }]);
    assert!(
        p.explods().iter().all(|e| e.sprpriority == 4),
        "no-id ModifyExplod touched every explod"
    );
}

#[test]
fn remove_explod_by_id_and_all() {
    let mut p = explod_player(0.0, 5, 99);
    p.spawn_explods(&vec![spawn(1, 5, 50), spawn(2, 5, 50), spawn(1, 5, 50)],
        1,
        sc(0.0),
        stage(),
    );
    assert_eq!(p.explods().len(), 3);
    p.apply_explod_ops(&vec![ExplodOp::Remove(Some(1))]);
    assert_eq!(p.explods().len(), 1);
    assert_eq!(p.explods()[0].id(), 2);
    p.apply_explod_ops(&vec![ExplodOp::Remove(None)]);
    assert!(
        p.explods().is_empty(),
        "no-id RemoveExplod cleared the slot-map"
    );
}

#[test]
fn explod_slot_map_is_bounded() {
    let mut p = explod_player(0.0, 5, 99);
    let many: Vec<ExplodSpawn> = (0..MAX_EXPLODS_PER_PLAYER as i32 + 50)
        .map(|i| spawn(i, 5, 50))
        .collect();
    p.spawn_explods(&many, 1, sc(0.0), stage());
    assert_eq!(
        p.explods().len(),
        MAX_EXPLODS_PER_PLAYER,
        "explod count capped at MAX_EXPLODS_PER_PLAYER"
    );
}

#[test]
fn explod_bound_tracks_anchor_then_holds() {
    let mut p = explod_player(0.0, 5, 99);
    let s = ExplodSpawn {
        id: 1,
        anim: 5,
        pos_type: PosType::P1,
        pos: vec2(5.0, 0.0),
        sprpriority: 0,
        bindtime: 1,
        removetime: 50,
    };
    p.spawn_explods(&vec![s], 1, sc(0.0), stage());
    assert_eq!(at(&p.explods()[0]), vec2(5.0, 0.0));
    p.tick_explods(
        vec2(30.0, 0.0),
        Facing::Right,
        sc(0.0),
        stage(),
    );
    assert_eq!(
        at(&p.explods()[0]),
        vec2(35.0, 0.0),
        "tracked the owner"
    );
    p.tick_explods(
        vec2(100.0, 0.0),
        Facing::Right,
        sc(0.0),
        stage(),
    );
    assert_eq!(
        at(&p.explods()[0]),
        vec2(35.0, 0.0),
        "held its last bound position after the bind window elapsed"
    );
}

#[test]
fn lifetimes_follow_the_removetime() {
    assert_eq!(explod_lifetime(0), (0, false));
    assert_eq!(explod_lifetime(299), (299, false));
    assert_eq!(explod_lifetime(300), (300, false));
    assert_eq!(explod_lifetime(i32::MAX), (300, false));
    assert_eq!(explod_lifetime(-1), (300, true));
    assert_eq!(explod_lifetime(-2), (300, false));
    assert_eq!(explod_lifetime(i32::MIN), (300, false));
    assert!(explod_id_matches(4, Some(4)));
    assert!(!explod_id_matches(4, Some(5)));
    assert!(explod_id_matches(4, None));
}

#[test]
fn another_action_starts_over() {
    let mut p = explod_player(0.0, 5, 1);
    p.loaded
        .air
        .actions
        .insert(6, animation(6, &[9]).actions.remove(&6).unwrap());
    p.spawn_explods(&vec![spawn(1, 5, 50)], 1, sc(0.0), stage());
    p.tick_explods(vec2(0.0, 0.0), Facing::Right, sc(0.0), stage());
    assert_eq!(p.explods()[0].elem, 1);
    p.apply_explod_ops(&vec![ExplodOp::Modify {
        id: Some(1),
        anim: Some(6),
        pos: Some(vec2(1.0, 2.0)),
        sprpriority: None,
        bindtime: Some(0),
        removetime: Some(-1),
    }]);
    let e = p.explods()[0];
    assert_eq!((e.elem, e.elem_time, e.anim()), (0, 0, 6));
    assert_eq!(e.anchor_offset, vec2(1.0, 2.0));
    assert_eq!(e.bind_remaining(), 0);
    assert_eq!((e.remaining(), e.play_once()), (300, true));
}

#[test]
fn explods_are_mirrored_and_anchored_by_their_type() {
    let cases = [
        (PosType::P1, 40.0),
        (PosType::P2, 90.0),
        (PosType::Front, -170.0),
        (PosType::Back, 150.0),
        (PosType::Left, -170.0),
        (PosType::Right, 150.0),
    ];
    for (pos_type, x) in cases {
        let mut p = explod_player(50.0, 5, 4);
        p.character.facing = Facing::Left;
        let s = ExplodSpawn {
            pos_type,
            pos: vec2(10.0, 7.0),
            ..spawn(1, 5, 9)
        };
        p.spawn_explods(&vec![s], 2, sc(100.0), stage());
        assert_eq!(at(&p.explods()[0]), vec2(x, 7.0), "{pos_type:?}");
        assert_eq!(p.explods()[0].owner(), 2);
    }
    assert_eq!(front_edge_x(Facing::Right, stage()), sc(160.0));
    assert_eq!(back_edge_x(Facing::Right, stage()), sc(-160.0));
}

#[test]
fn cursors_hold_wrap_and_recover() {
    let air = animation(5, &[2, -1]);
    let mut e = Explod {
        owner: 1,
        id: 1,
        anim: 5,
        pos: fp_engine::Placement {
            anchor: vec2(0.0, 0.0),
            shift: vec2(0.0, 0.0),
        },
        sprite: sprite(9, 9),
        offset: Offset { x: 0, y: 0 },
        sprpriority: 0,
        pos_type: PosType::P1,
        anchor_offset: vec2(0.0, 0.0),
        bind_remaining: 0,
        elem: 0,
        elem_time: 1,
        play_once: true,
        remaining: 5,
    };
    assert!(advance_explod_frame(&mut e, &air, true));
    assert_eq!((e.elem, e.elem_time, e.sprite), (1, 0, sprite(1, 0)));
    for n in 1..4 {
        assert!(advance_explod_frame(&mut e, &air, true), "a hold stays");
        assert_eq!((e.elem, e.elem_time), (1, n));
    }
    e.elem = 12;
    assert!(advance_explod_frame(&mut e, &air, true));
    assert_eq!((e.elem, e.elem_time), (0, 0));
    let before = e;
    e.anim = 77;
    assert!(!advance_explod_frame(&mut e, &air, false));
    e.anim = before.anim;
    assert_eq!(e, before, "without an action nothing moves");
}

#[test]
fn a_spent_explod_stands_on_its_last_frame() {
    let air = animation(3, &[2]);
    let mut e = Explod {
        owner: 1,
        id: 1,
        anim: 3,
        pos: fp_engine::Placement {
            anchor: vec2(0.0, 0.0),
            shift: vec2(0.0, 0.0),
        },
        sprite: sprite(0, 0),
        offset: Offset { x: 0, y: 0 },
        sprpriority: 0,
        pos_type: PosType::P1,
        anchor_offset: vec2(0.0, 0.0),
        bind_remaining: 0,
        elem: 0,
        elem_time: 0,
        play_once: true,
        remaining: 5,
    };
    assert!(advance_explod_frame(&mut e, &air, true));
    assert_eq!((e.elem, e.elem_time), (0, 1));
    assert!(!advance_explod_frame(&mut e, &air, true));
    assert_eq!((e.elem, e.elem_time), (0, 0));
}

#[test]
fn sparks_play_once_and_hold_their_last_frame() {
    let air = animation(3, &[1, 2, 0]);
    let mut fx = Effect {
        side: EffectSide::P2,
        anim: 3,
        pos: vec2(0.0, 0.0),
        sprite: sprite(0, 0),
        offset: Offset { x: 0, y: 0 },
        elem: 0,
        elem_time: 0,
        remaining: 50,
    };
    let mut shown = Vec::new();
    for _ in 0..6 {
        assert!(advance_effect_frame(&mut fx, &air));
        shown.push(fx.elem());
    }
    assert_eq!(shown, vec![1, 1, 2, 2, 2, 2]);
    assert_eq!(fx.offset, Offset { x: 0, y: 2 });
    assert_eq!(fx.remaining(), 50);
    fx.elem = 9;
    assert!(advance_effect_frame(&mut fx, &air));
    assert_eq!(fx.elem(), 2);
    fx.anim = 4;
    assert!(!advance_effect_frame(&mut fx, &air));
}

#[test]
fn freezes_hold_everyone_but_the_exempt() {
    let none = Freeze::inactive();
    assert!(!none.active());
    assert!(!none.freezes(FreezeExempt::P1));
    let own = Freeze {
        remaining: 2,
        exempt: FreezeExempt::P1,
    };
    assert!(own.active());
    assert!(!own.freezes(FreezeExempt::P1));
    assert!(own.freezes(FreezeExempt::P2));
    assert!(own.freezes(FreezeExempt::Nobody));
    let mut f = own;
    f.count_down();
    assert_eq!(f.remaining, 1);
    f.count_down();
    assert_eq!(f, Freeze::inactive());
}

#[test]
fn numbers_compare_as_numbers() {
    let values = [
        f32::NEG_INFINITY,
        -200.0,
        -1.5,
        -0.0,
        0.0,
        1e-40,
        1.5,
        200.0,
        f32::INFINITY,
        f32::NAN,
    ];
    for a in values {
        assert_eq!(f(sc(a).neg()).to_bits(), (-a).to_bits());
        for b in values {
            assert_eq!(sc(a).le(sc(b)), a <= b, "{a} <= {b}");
            assert_eq!(sc(a) == sc(b), a == b, "{a} == {b}");
        }
    }
}
