use arcade_games::car_shoot::game_logic;
use arcade_games::car_shoot::CollisionEvent;
use arcade_games::car_shoot::FrameInput;
use arcade_games::car_shoot::GameState;
use arcade_games::car_shoot::Label;
use arcade_games::car_shoot::Sfx;
use arcade_games::car_shoot::Sound;
use arcade_games::car_shoot::Spawn;
use arcade_games::car_shoot::SpriteMove;
use arcade_games::car_shoot::SpriteState;
use arcade_games::car_shoot::TextUpdate;

fn player_at(x: i64, y: i64) -> SpriteState {
    SpriteState { label: Label::Player, x, y }
}

fn quiet_input(sprites: Vec<SpriteState>) -> FrameInput {
    FrameInput {
        delta_ms: 16,
        mouse_x: None,
        mouse_clicked: false,
        sprites,
        collisions: Vec::new(),
    }
}

/// A state whose timer will not fire for a while, so spawning stays out of
/// the way of what a test looks at.
fn idle_state() -> GameState {
    let mut s = GameState::new();
    s.spawn_timer_ms = 10_000;
    s
}

#[test]
fn new_game_state() {
    let s = GameState::new();
    assert_eq!(s.marble_labels, vec![1, 2, 3]);
    assert_eq!(s.cars_left, 25);
    assert_eq!(s.score, 0);
    assert_eq!(s.spawn_timer_ms, 0);
    assert!(!s.is_end);
}

#[test]
fn click_fires_last_marble() {
    let mut s = idle_state();
    let mut input = quiet_input(vec![player_at(0, -325_000)]);
    input.mouse_x = Some(100_000);
    input.mouse_clicked = true;
    let out = game_logic(&mut s, &input);
    assert_eq!(s.marble_labels, vec![1, 2]);
    assert_eq!(out.spawns, vec![Spawn::Marble { id: 3, x: 100_000, y: -275_000 }]);
    assert_eq!(out.sounds, vec![Sound { sfx: Sfx::Impact2, volume_pct: 40 }]);
    // The gun follows the mouse, and the fresh marble climbs this frame too.
    assert_eq!(
        out.moves,
        vec![
            SpriteMove::SetX { label: Label::Player, x: 100_000 },
            SpriteMove::SetY { label: Label::Marble(3), y: -275_000 + 600 * 16 },
        ]
    );
    assert_eq!(s.score, 0);
    assert_eq!(s.cars_left, 25);
    assert_eq!(s.spawn_timer_ms, 10_000 - 16);
    assert!(!s.is_end);
    assert!(out.removals.is_empty());
    assert!(out.texts.is_empty());
}

#[test]
fn click_without_mouse_position_fires_from_gun() {
    let mut s = idle_state();
    let mut input = quiet_input(vec![player_at(42_000, -325_000)]);
    input.mouse_clicked = true;
    let out = game_logic(&mut s, &input);
    assert_eq!(out.spawns, vec![Spawn::Marble { id: 3, x: 42_000, y: -275_000 }]);
    // No mouse position: no gun repositioning.
    assert_eq!(
        out.moves,
        vec![SpriteMove::SetY { label: Label::Marble(3), y: -275_000 + 600 * 16 }]
    );
}

#[test]
fn empty_pool_fires_nothing() {
    let mut s = idle_state();
    s.marble_labels = Vec::new();
    let mut input = quiet_input(vec![player_at(0, -325_000)]);
    input.mouse_clicked = true;
    let out = game_logic(&mut s, &input);
    assert!(out.spawns.is_empty());
    assert!(out.sounds.is_empty());
    assert!(out.moves.is_empty());
    assert!(s.marble_labels.is_empty());
}

#[test]
fn marbles_climb_and_cars_drive() {
    let mut s = idle_state();
    s.marble_labels = vec![2, 3];
    let input = quiet_input(vec![
        player_at(0, -325_000),
        SpriteState { label: Label::Marble(1), x: 5_000, y: 0 },
        SpriteState { label: Label::Car(7), x: -100_000, y: 50_000 },
    ]);
    let mut input = input;
    input.delta_ms = 100;
    let out = game_logic(&mut s, &input);
    assert_eq!(
        out.moves,
        vec![
            SpriteMove::SetY { label: Label::Marble(1), y: 60_000 },
            SpriteMove::SetX { label: Label::Car(7), x: -40_000 },
        ]
    );
    assert!(out.removals.is_empty());
}

#[test]
fn offscreen_marble_returns_to_pool() {
    let mut s = idle_state();
    s.marble_labels = vec![1];
    let mut input = quiet_input(vec![
        player_at(0, -325_000),
        SpriteState { label: Label::Marble(2), x: 0, y: 399_000 },
    ]);
    input.delta_ms = 10;
    let out = game_logic(&mut s, &input);
    // 399_000 + 600 * 10 = 405_000, past the top edge.
    assert_eq!(out.moves, vec![SpriteMove::SetY { label: Label::Marble(2), y: 405_000 }]);
    assert_eq!(out.removals, vec![Label::Marble(2)]);
    assert_eq!(s.marble_labels, vec![1, 2]);
}

#[test]
fn offscreen_car_is_removed_without_scoring() {
    let mut s = idle_state();
    let mut input = quiet_input(vec![
        player_at(0, -325_000),
        SpriteState { label: Label::Car(4), x: 749_000, y: 0 },
    ]);
    input.delta_ms = 10;
    let out = game_logic(&mut s, &input);
    // 749_000 + 600 * 10 = 755_000, past the right edge.
    assert_eq!(out.removals, vec![Label::Car(4)]);
    assert_eq!(s.score, 0);
    assert_eq!(s.marble_labels, vec![1, 2, 3]);
}

#[test]
fn marble_car_collision_scores() {
    let mut s = idle_state();
    s.marble_labels = vec![1, 2];
    let mut input = quiet_input(vec![player_at(0, -325_000)]);
    input.collisions = vec![CollisionEvent {
        ended: false,
        first: Label::Marble(3),
        second: Label::Car(9),
    }];
    let out = game_logic(&mut s, &input);
    assert_eq!(s.score, 1);
    assert_eq!(s.marble_labels, vec![1, 2, 3]);
    assert_eq!(out.removals, vec![Label::Marble(3), Label::Car(9)]);
    // The scoreboard is rewritten once per removed party.
    assert_eq!(out.texts, vec![TextUpdate::Score(1), TextUpdate::Score(1)]);
    assert_eq!(
        out.sounds,
        vec![
            Sound { sfx: Sfx::Confirmation1, volume_pct: 20 },
            Sound { sfx: Sfx::Confirmation1, volume_pct: 20 },
        ]
    );
}

#[test]
fn ended_collision_is_ignored() {
    let mut s = idle_state();
    let mut input = quiet_input(vec![player_at(0, -325_000)]);
    input.collisions = vec![CollisionEvent {
        ended: true,
        first: Label::Marble(3),
        second: Label::Car(9),
    }];
    let out = game_logic(&mut s, &input);
    assert_eq!(s.score, 0);
    assert!(out.removals.is_empty());
    assert!(out.texts.is_empty());
}

#[test]
fn marble_free_collision_is_ignored() {
    let mut s = idle_state();
    let mut input = quiet_input(vec![player_at(0, -325_000)]);
    input.collisions = vec![CollisionEvent {
        ended: false,
        first: Label::Car(1),
        second: Label::Car(2),
    }];
    let out = game_logic(&mut s, &input);
    assert_eq!(s.score, 0);
    assert!(out.removals.is_empty());
}

#[test]
fn fired_timer_spawns_car() {
    let mut s = GameState::new();
    s.spawn_timer_ms = 50;
    let mut input = quiet_input(vec![player_at(0, -325_000)]);
    input.delta_ms = 100;
    let out = game_logic(&mut s, &input);
    assert_eq!(s.cars_left, 24);
    assert_eq!(out.texts, vec![TextUpdate::CarsLeft(24)]);
    assert!((100..1250).contains(&s.spawn_timer_ms));
    assert_eq!(out.spawns.len(), 1);
    match out.spawns[0] {
        Spawn::Car { id, x, y, .. } => {
            assert_eq!(id, 24);
            assert_eq!(x, -740_000);
            assert!((-100_000..325_000).contains(&y));
        }
        ref other => panic!("expected a car spawn, got {:?}", other),
    }
    assert!(!s.is_end);
}

#[test]
fn game_ends_when_no_cars_remain() {
    let mut s = GameState::new();
    s.cars_left = 0;
    s.spawn_timer_ms = 0;
    let input = quiet_input(vec![player_at(0, -325_000)]);
    let out = game_logic(&mut s, &input);
    assert!(s.is_end);
    assert!(out.game_over_banner);
    assert!(out.stop_music);
    assert_eq!(out.sounds, vec![Sound { sfx: Sfx::Jingle3, volume_pct: 50 }]);
    assert!(out.spawns.is_empty());
}

#[test]
fn surviving_car_defers_the_end() {
    let mut s = GameState::new();
    s.cars_left = 0;
    s.spawn_timer_ms = 0;
    let input = quiet_input(vec![
        player_at(0, -325_000),
        SpriteState { label: Label::Car(0), x: 0, y: 0 },
    ]);
    let out = game_logic(&mut s, &input);
    assert!(!s.is_end);
    assert!(!out.game_over_banner);
    assert!(!out.stop_music);
    assert!((100..1250).contains(&s.spawn_timer_ms));
}

#[test]
fn ended_game_does_nothing() {
    let mut s = GameState::new();
    s.is_end = true;
    s.score = 7;
    let mut input = quiet_input(vec![player_at(0, -325_000)]);
    input.mouse_clicked = true;
    input.mouse_x = Some(10_000);
    input.collisions = vec![CollisionEvent {
        ended: false,
        first: Label::Marble(3),
        second: Label::Car(9),
    }];
    let out = game_logic(&mut s, &input);
    assert_eq!(s.score, 7);
    assert_eq!(s.marble_labels, vec![1, 2, 3]);
    assert!(s.is_end);
    assert!(out.moves.is_empty());
    assert!(out.spawns.is_empty());
    assert!(out.removals.is_empty());
    assert!(out.texts.is_empty());
    assert!(out.sounds.is_empty());
    assert!(!out.game_over_banner);
    assert!(!out.stop_music);
}

#[test]
fn one_marble_in_two_events_scores_each_time() {
    // The engine can report one marble overlapping two cars in the same
    // frame; each event is settled on its own.
    let mut s = idle_state();
    s.marble_labels = Vec::new();
    let mut input = quiet_input(vec![player_at(0, -325_000)]);
    input.collisions = vec![
        CollisionEvent { ended: false, first: Label::Marble(3), second: Label::Car(9) },
        CollisionEvent { ended: false, first: Label::Marble(3), second: Label::Car(8) },
    ];
    let out = game_logic(&mut s, &input);
    assert_eq!(s.score, 2);
    assert_eq!(s.marble_labels, vec![3, 3]);
    assert_eq!(
        out.removals,
        vec![Label::Marble(3), Label::Car(9), Label::Marble(3), Label::Car(8)]
    );
}

#[test]
fn two_collisions_score_twice() {
    let mut s = idle_state();
    s.marble_labels = vec![1];
    let mut input = quiet_input(vec![player_at(0, -325_000)]);
    input.collisions = vec![
        CollisionEvent { ended: false, first: Label::Marble(3), second: Label::Car(9) },
        CollisionEvent { ended: false, first: Label::Car(8), second: Label::Marble(2) },
    ];
    let out = game_logic(&mut s, &input);
    assert_eq!(s.score, 2);
    assert_eq!(s.marble_labels, vec![1, 3, 2]);
    assert_eq!(
        out.removals,
        vec![Label::Marble(3), Label::Car(9), Label::Car(8), Label::Marble(2)]
    );
    assert_eq!(
        out.texts,
        vec![
            TextUpdate::Score(1),
            TextUpdate::Score(1),
            TextUpdate::Score(1),
            TextUpdate::Score(2),
        ]
    );
}
