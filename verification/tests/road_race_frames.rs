use arcade_games::car_shoot_basic;
use arcade_games::car_shoot::FrameInput as ShootInput;
use arcade_games::car_shoot::Label as ShootLabel;
use arcade_games::car_shoot::Sfx as ShootSfx;
use arcade_games::car_shoot::Sound as ShootSound;
use arcade_games::car_shoot::Spawn;
use arcade_games::car_shoot::SpriteMove as ShootMove;
use arcade_games::car_shoot::SpriteState as ShootSprite;
use arcade_games::road_race::game_logic;
use arcade_games::road_race::CollisionEvent;
use arcade_games::road_race::FrameInput;
use arcade_games::road_race::GameState;
use arcade_games::road_race::Label;
use arcade_games::road_race::Sfx;
use arcade_games::road_race::Sound;
use arcade_games::road_race::SpriteMove;
use arcade_games::road_race::SpriteState;

fn race_input(sprites: Vec<SpriteState>) -> FrameInput {
    FrameInput {
        delta_ms: 100,
        up_pressed: false,
        down_pressed: false,
        sprites,
        collisions: Vec::new(),
    }
}

fn racer_at(y: i64) -> SpriteState {
    SpriteState { label: Label::Player, x: -500_000, y }
}

#[test]
fn default_race_state() {
    let s = GameState::default();
    assert_eq!(s.health_amount, 5);
    assert!(!s.lost);
}

#[test]
fn steering_up_moves_and_tilts() {
    let mut s = GameState::default();
    let mut input = race_input(vec![racer_at(0)]);
    input.up_pressed = true;
    let out = game_logic(&mut s, &input);
    // 250 px/s for 100 ms climbs 25 000 milli-pixels.
    assert_eq!(out.moves[0], SpriteMove::SetY { label: Label::Player, y: 25_000 });
    assert_eq!(out.moves[1], SpriteMove::SetTilt { direction: 1 });
    assert_eq!(out.moves.len(), 2);
    assert_eq!(s.health_amount, 5);
    assert!(!s.lost);
}

#[test]
fn opposed_keys_cancel() {
    let mut s = GameState::default();
    let mut input = race_input(vec![racer_at(10_000)]);
    input.up_pressed = true;
    input.down_pressed = true;
    let out = game_logic(&mut s, &input);
    assert_eq!(out.moves[0], SpriteMove::SetY { label: Label::Player, y: 10_000 });
    assert_eq!(out.moves[1], SpriteMove::SetTilt { direction: 0 });
}

#[test]
fn leaving_the_road_loses() {
    let mut s = GameState::default();
    let mut input = race_input(vec![racer_at(350_000)]);
    input.up_pressed = true;
    let out = game_logic(&mut s, &input);
    // 350_000 + 25_000 crosses the road's edge at 360_000.
    assert_eq!(s.health_amount, 0);
    assert!(s.lost);
    assert!(out.game_over_banner);
    assert!(out.stop_music);
    assert_eq!(out.sounds, vec![Sound { sfx: Sfx::Jingle3, volume_pct: 50 }]);
    assert!(out.health_texts.is_empty());
}

#[test]
fn roadline_streams_and_wraps() {
    let mut s = GameState::default();
    let input = race_input(vec![
        racer_at(0),
        SpriteState { label: Label::Roadline(0), x: 0, y: 0 },
        SpriteState { label: Label::Roadline(1), x: -670_000, y: 0 },
    ]);
    let out = game_logic(&mut s, &input);
    // 400 px/s for 100 ms streams 40 000 milli-pixels left; the second line
    // crosses -675_000 and jumps 1_500_000 right.
    assert_eq!(out.moves[2], SpriteMove::SetX { label: Label::Roadline(0), x: -40_000 });
    assert_eq!(out.moves[3], SpriteMove::SetX { label: Label::Roadline(1), x: 790_000 });
}

#[test]
fn obstacle_streams_and_reenters() {
    let mut s = GameState::default();
    let input = race_input(vec![
        racer_at(0),
        SpriteState { label: Label::Obstacle(0), x: 0, y: 5_000 },
        SpriteState { label: Label::Obstacle(1), x: -790_000, y: 5_000 },
    ]);
    let out = game_logic(&mut s, &input);
    assert_eq!(out.moves[2], SpriteMove::SetX { label: Label::Obstacle(0), x: -40_000 });
    match out.moves[3] {
        SpriteMove::SetXY { label, x, y } => {
            assert_eq!(label, Label::Obstacle(1));
            assert!((800_000..1_600_000).contains(&x));
            assert!((-300_000..300_000).contains(&y));
        }
        ref other => panic!("expected a re-entry, got {:?}", other),
    }
}

#[test]
fn collision_costs_a_point() {
    let mut s = GameState::default();
    let mut input = race_input(vec![racer_at(0)]);
    input.collisions = vec![CollisionEvent {
        ended: false,
        first: Label::Player,
        second: Label::Obstacle(3),
    }];
    let out = game_logic(&mut s, &input);
    assert_eq!(s.health_amount, 4);
    assert!(!s.lost);
    assert_eq!(out.health_texts, vec![4]);
    assert_eq!(out.sounds, vec![Sound { sfx: Sfx::Impact3, volume_pct: 50 }]);
    assert!(!out.game_over_banner);
}

#[test]
fn ended_or_bystander_collisions_cost_nothing() {
    let mut s = GameState::default();
    let mut input = race_input(vec![racer_at(0)]);
    input.collisions = vec![
        CollisionEvent { ended: true, first: Label::Player, second: Label::Obstacle(3) },
        CollisionEvent { ended: false, first: Label::Roadline(1), second: Label::Obstacle(2) },
    ];
    let out = game_logic(&mut s, &input);
    assert_eq!(s.health_amount, 5);
    assert!(out.health_texts.is_empty());
    assert!(out.sounds.is_empty());
}

#[test]
fn last_point_loses_the_game() {
    let mut s = GameState::default();
    s.health_amount = 1;
    let mut input = race_input(vec![racer_at(0)]);
    input.collisions = vec![CollisionEvent {
        ended: false,
        first: Label::Obstacle(7),
        second: Label::Player,
    }];
    let out = game_logic(&mut s, &input);
    assert_eq!(s.health_amount, 0);
    assert!(s.lost);
    assert_eq!(out.health_texts, vec![0]);
    assert_eq!(
        out.sounds,
        vec![
            Sound { sfx: Sfx::Impact3, volume_pct: 50 },
            Sound { sfx: Sfx::Jingle3, volume_pct: 50 },
        ]
    );
    assert!(out.game_over_banner);
    assert!(out.stop_music);
}

#[test]
fn lost_game_does_nothing() {
    let mut s = GameState { health_amount: 0, lost: true };
    let mut input = race_input(vec![racer_at(0)]);
    input.up_pressed = true;
    input.collisions = vec![CollisionEvent {
        ended: false,
        first: Label::Player,
        second: Label::Obstacle(1),
    }];
    let out = game_logic(&mut s, &input);
    assert_eq!(s.health_amount, 0);
    assert!(s.lost);
    assert!(out.moves.is_empty());
    assert!(out.health_texts.is_empty());
    assert!(out.sounds.is_empty());
    assert!(!out.game_over_banner);
    assert!(!out.stop_music);
}

#[test]
fn collisions_stop_at_zero_health() {
    let mut s = GameState::default();
    s.health_amount = 1;
    let mut input = race_input(vec![racer_at(0)]);
    input.collisions = vec![
        CollisionEvent { ended: false, first: Label::Player, second: Label::Obstacle(1) },
        CollisionEvent { ended: false, first: Label::Player, second: Label::Obstacle(2) },
    ];
    let out = game_logic(&mut s, &input);
    assert_eq!(s.health_amount, 0);
    assert_eq!(out.health_texts, vec![0]);
    assert_eq!(out.sounds.len(), 2);
}

#[test]
fn basic_build_fires_and_climbs() {
    let mut s = car_shoot_basic::GameState::new();
    let input = ShootInput {
        delta_ms: 16,
        mouse_x: Some(50_000),
        mouse_clicked: true,
        sprites: vec![
            ShootSprite { label: ShootLabel::Player, x: 0, y: -325_000 },
            ShootSprite { label: ShootLabel::Marble(1), x: 0, y: 10_000 },
        ],
        collisions: Vec::new(),
    };
    let out = car_shoot_basic::game_logic(&mut s, &input);
    assert_eq!(s.marble_labels, vec![1, 2]);
    assert_eq!(s.cars_left, 25);
    assert_eq!(s.spawn_timer_ms, 0);
    assert_eq!(out.spawns, vec![Spawn::Marble { id: 3, x: 50_000, y: -275_000 }]);
    assert_eq!(out.sounds, vec![ShootSound { sfx: ShootSfx::Impact2, volume_pct: 40 }]);
    assert_eq!(
        out.moves,
        vec![
            ShootMove::SetX { label: ShootLabel::Player, x: 50_000 },
            ShootMove::SetY { label: ShootLabel::Marble(1), y: 10_000 + 600 * 16 },
            ShootMove::SetY { label: ShootLabel::Marble(3), y: -275_000 + 600 * 16 },
        ]
    );
    assert!(out.removals.is_empty());
    assert!(out.texts.is_empty());
    assert!(!out.game_over_banner);
    assert!(!out.stop_music);
}
