//! The lane-dodging racer. The player's car sits near the left edge and
//! steers up and down; road lines and obstacles stream towards it. A road
//! line that leaves on the left wraps around; an obstacle that leaves
//! re-enters ahead at a random position. Each collision with the player
//! costs one health point, as does leaving the road, and at zero health the
//! game is lost.
//!
//! [`game_logic`] is the once-per-frame step, working on a snapshot of the
//! engine's sprite registry and the frame's input events. Positions are
//! milli-pixels, durations milliseconds.

use vstd::prelude::*;

use crate::rng;

verus! {

/// Steering speed of the player's car, in pixels per second.
pub const PLAYER_SPEED: i64 = 250;

/// Speed of the road streaming past, in pixels per second.
pub const ROAD_SPEED: i64 = 400;

/// The road's half-width: a player beyond this height has left it, in
/// milli-pixels.
pub const ROAD_EDGE: i64 = 360_000;

/// A road line to the left of this wraps, in milli-pixels.
pub const ROADLINE_WRAP_AT: i64 = -675_000;

/// How far right a wrapping road line jumps, in milli-pixels.
pub const ROADLINE_WRAP_SHIFT: i64 = 1_500_000;

/// An obstacle to the left of this re-enters ahead, in milli-pixels.
pub const OBSTACLE_RESPAWN_AT: i64 = -800_000;

/// Nearest x position a re-entering obstacle can take, in milli-pixels.
pub const OBSTACLE_X_MIN: i64 = 800_000;

/// X positions strictly below this are drawn for re-entering obstacles.
pub const OBSTACLE_X_MAX: i64 = 1_600_000;

/// Lowest height a re-entering obstacle can take, in milli-pixels.
pub const OBSTACLE_Y_MIN: i64 = -300_000;

/// Heights strictly below this are drawn for re-entering obstacles.
pub const OBSTACLE_Y_MAX: i64 = 300_000;

/// A fresh game's health.
pub const INITIAL_HEALTH: u8 = 5;

/// Coordinates handed in by the host are bounded by this, in milli-pixels.
pub const COORD_LIMIT: i64 = 1_000_000_000_000;

/// The label of a sprite in the engine's registry.
#[derive(Clone, Copy, PartialEq, Eq, Structural, Debug)]
pub enum Label {
    Player,
    Roadline(u8),
    Obstacle(u8),
}

/// One entry of the sprite registry snapshot. Coordinates in milli-pixels.
#[derive(Clone, Copy, PartialEq, Eq, Structural, Debug)]
pub struct SpriteState {
    pub label: Label,
    pub x: i64,
    pub y: i64,
}

/// One collision reported by the engine this frame. `ended` is true for the
/// event that marks the end of an overlap rather than its start.
#[derive(Clone, Copy, PartialEq, Eq, Structural, Debug)]
pub struct CollisionEvent {
    pub ended: bool,
    pub first: Label,
    pub second: Label,
}

/// A sound effect the engine should play.
#[derive(Clone, Copy, PartialEq, Eq, Structural, Debug)]
pub enum Sfx {
    Impact3,
    Jingle3,
}

/// A sound command: which effect, at which volume (in percent).
#[derive(Clone, Copy, PartialEq, Eq, Structural, Debug)]
pub struct Sound {
    pub sfx: Sfx,
    pub volume_pct: u8,
}

/// A repositioning command. `SetTilt` leans the player's car into the turn:
/// the engine draws it rotated in proportion to the steering direction.
#[derive(Clone, Copy, PartialEq, Eq, Structural, Debug)]
pub enum SpriteMove {
    SetX { label: Label, x: i64 },
    SetY { label: Label, y: i64 },
    SetXY { label: Label, x: i64, y: i64 },
    SetTilt { direction: i8 },
}

/// Everything the engine snapshot hands the frame step. The two pressed
/// flags fold together the engine's steering keys.
pub struct FrameInput {
    pub delta_ms: u32,
    pub up_pressed: bool,
    pub down_pressed: bool,
    pub sprites: Vec<SpriteState>,
    pub collisions: Vec<CollisionEvent>,
}

/// The commands one frame step asks the engine to carry out. Each entry of
/// `health_texts` rewrites the health message with the value it carries.
pub struct FrameOutput {
    pub moves: Vec<SpriteMove>,
    pub health_texts: Vec<u8>,
    pub sounds: Vec<Sound>,
    pub game_over_banner: bool,
    pub stop_music: bool,
}

/// The game's own record, carried from frame to frame.
pub struct GameState {
    pub health_amount: u8,
    pub lost: bool,
}

impl Default for GameState {
    /// A fresh game: full health, not lost.
    fn default() -> (s: Self)
        ensures
            s.health_amount == INITIAL_HEALTH,
            !s.lost,
    {
        GameState { health_amount: INITIAL_HEALTH, lost: false }
    }
}

/// Within the coordinate bound the host promises.
pub open spec fn coord_ok(s: SpriteState) -> bool {
    &&& -COORD_LIMIT <= s.x <= COORD_LIMIT
    &&& -COORD_LIMIT <= s.y <= COORD_LIMIT
}

/// What the frame step asks of its input: every snapshot coordinate within
/// the coordinate bound.
pub open spec fn input_wf(input: FrameInput) -> bool {
    forall|i: int| 0 <= i < input.sprites@.len() ==> coord_ok(#[trigger] input.sprites@[i])
}

/// The snapshot holds the player's car.
pub open spec fn has_player(w: Seq<SpriteState>) -> bool {
    exists|i: int| 0 <= i < w.len() && (#[trigger] w[i]).label is Player
}

/// The height of the first registry entry labelled as the player, scanning
/// from `i`; zero when there is none.
pub open spec fn first_player_y_from(w: Seq<SpriteState>, i: int) -> int
    decreases w.len() - i,
{
    if i < 0 || i >= w.len() {
        0
    } else if w[i].label is Player {
        w[i].y as int
    } else {
        first_player_y_from(w, i + 1)
    }
}

/// The player's height in the snapshot.
pub open spec fn first_player_y(w: Seq<SpriteState>) -> int {
    first_player_y_from(w, 0)
}

/// The steering direction the keys give: up counts one, down counts one
/// back.
pub open spec fn direction(up: bool, down: bool) -> int {
    (if up { 1int } else { 0int }) - (if down { 1int } else { 0int })
}

/// The player's height after this frame's steering.
pub open spec fn player_new_y(input: FrameInput) -> int {
    first_player_y(input.sprites@) + direction(input.up_pressed, input.down_pressed) * PLAYER_SPEED
        * input.delta_ms
}

/// The player leaves the road this frame.
pub open spec fn player_out(input: FrameInput) -> bool {
    player_new_y(input) < -ROAD_EDGE || player_new_y(input) > ROAD_EDGE
}

/// Health as the collision pass finds it: zeroed when the player left the
/// road, else as carried in.
pub open spec fn health_at_collisions(pre: GameState, input: FrameInput) -> int {
    if player_out(input) {
        0
    } else {
        pre.health_amount as int
    }
}

/// A collision event that is acted on: an overlap that begins and involves
/// the player.
pub open spec fn qualifies(e: CollisionEvent) -> bool {
    !e.ended && (e.first is Player || e.second is Player)
}

/// Health after the collision pass: each acted-on event costs a point while
/// any is left.
pub open spec fn health_after(h: int, evs: Seq<CollisionEvent>) -> int
    decreases evs.len(),
{
    if evs.len() == 0 {
        h
    } else {
        let prev = health_after(h, evs.drop_last());
        if qualifies(evs.last()) && prev > 0 {
            prev - 1
        } else {
            prev
        }
    }
}

/// The health rewrites of the collision pass, in event order: one per paid
/// point, showing the value it leaves.
pub open spec fn health_text_list(h: int, evs: Seq<CollisionEvent>) -> Seq<u8>
    decreases evs.len(),
{
    if evs.len() == 0 {
        Seq::empty()
    } else {
        let prev = health_after(h, evs.drop_last());
        health_text_list(h, evs.drop_last()) + if qualifies(evs.last()) && prev > 0 {
            seq![(prev - 1) as u8]
        } else {
            Seq::empty()
        }
    }
}

/// The impact sounds of the collision pass: one per paid point.
pub open spec fn impact_sound_list(h: int, evs: Seq<CollisionEvent>) -> Seq<Sound>
    decreases evs.len(),
{
    if evs.len() == 0 {
        Seq::empty()
    } else {
        let prev = health_after(h, evs.drop_last());
        impact_sound_list(h, evs.drop_last()) + if qualifies(evs.last()) && prev > 0 {
            seq![Sound { sfx: Sfx::Impact3, volume_pct: 50 }]
        } else {
            Seq::empty()
        }
    }
}

/// A road line's x position after this frame: streamed left, wrapping when
/// it leaves.
pub open spec fn roadline_new_x(s: SpriteState, delta_ms: u32) -> int {
    let x2 = s.x - ROAD_SPEED * delta_ms;
    if x2 < ROADLINE_WRAP_AT {
        x2 + ROADLINE_WRAP_SHIFT
    } else {
        x2
    }
}

/// An obstacle's x position after streaming, before any re-entry.
pub open spec fn obstacle_moved_x(s: SpriteState, delta_ms: u32) -> int {
    s.x - ROAD_SPEED * delta_ms
}

/// The command an obstacle's streaming produces: a plain move, or — when it
/// left on the left — a re-entry ahead at a random position within the entry
/// window.
pub open spec fn obstacle_move_ok(s: SpriteState, delta_ms: u32, m: SpriteMove) -> bool {
    if obstacle_moved_x(s, delta_ms) < OBSTACLE_RESPAWN_AT {
        &&& m is SetXY
        &&& (m matches SpriteMove::SetXY { label, x, y } ==> {
            &&& label == s.label
            &&& OBSTACLE_X_MIN <= x < OBSTACLE_X_MAX
            &&& OBSTACLE_Y_MIN <= y < OBSTACLE_Y_MAX
        })
    } else {
        m == (SpriteMove::SetX { label: s.label, x: obstacle_moved_x(s, delta_ms) as i64 })
    }
}

/// The streaming commands line up with the snapshot: one per road line and
/// obstacle, in registry order, the player's entry contributing none.
pub open spec fn moves_match(w: Seq<SpriteState>, delta_ms: u32, ms: Seq<SpriteMove>) -> bool
    decreases w.len(),
{
    if w.len() == 0 {
        ms.len() == 0
    } else {
        let s = w.last();
        if s.label is Roadline {
            &&& ms.len() > 0
            &&& ms.last() == (SpriteMove::SetX { label: s.label, x: roadline_new_x(s, delta_ms) as i64 })
            &&& moves_match(w.drop_last(), delta_ms, ms.drop_last())
        } else if s.label is Obstacle {
            &&& ms.len() > 0
            &&& obstacle_move_ok(s, delta_ms, ms.last())
            &&& moves_match(w.drop_last(), delta_ms, ms.drop_last())
        } else {
            moves_match(w.drop_last(), delta_ms, ms)
        }
    }
}

/// An output that asks nothing of the engine.
pub open spec fn quiet(out: FrameOutput) -> bool {
    &&& out.moves@.len() == 0
    &&& out.health_texts@.len() == 0
    &&& out.sounds@.len() == 0
    &&& !out.game_over_banner
    &&& !out.stop_music
}

/// Everything one frame of a running game does. `pre` is the record on
/// entry, `post` on exit, `out` the commands issued: the player's move and
/// tilt come first, then one streaming command per road line and obstacle;
/// leaving the road zeroes health, each acted-on collision costs a point
/// with a rewrite and an impact sound, and at zero health the game is lost,
/// with banner, jingle and silenced music.
pub open spec fn race_post(pre: GameState, input: FrameInput, post: GameState, out: FrameOutput) -> bool {
    let evs = input.collisions@;
    let h1 = health_at_collisions(pre, input);
    let hf = health_after(h1, evs);
    let lost = hf == 0;
    &&& post.health_amount == hf
    &&& post.lost == lost
    &&& out.moves@.len() >= 2
    &&& out.moves@[0] == (SpriteMove::SetY { label: Label::Player, y: player_new_y(input) as i64 })
    &&& out.moves@[1] == (SpriteMove::SetTilt {
        direction: direction(input.up_pressed, input.down_pressed) as i8,
    })
    &&& moves_match(input.sprites@, input.delta_ms, out.moves@.skip(2))
    &&& out.health_texts@ == health_text_list(h1, evs)
    &&& out.sounds@ == impact_sound_list(h1, evs)
        + (if lost { seq![Sound { sfx: Sfx::Jingle3, volume_pct: 50 }] } else { Seq::<Sound>::empty() })
    &&& out.game_over_banner == lost
    &&& out.stop_music == lost
}

/// The player's snapshot height is itself a snapshot coordinate, hence
/// within the coordinate bound.
proof fn lemma_first_player_y_bounded(w: Seq<SpriteState>, i: int)
    requires
        forall|j: int| 0 <= j < w.len() ==> coord_ok(#[trigger] w[j]),
    ensures
        -COORD_LIMIT <= first_player_y_from(w, i) <= COORD_LIMIT,
    decreases w.len() - i,
{
    if i < 0 || i >= w.len() {
    } else if w[i].label is Player {
    } else {
        lemma_first_player_y_bounded(w, i + 1);
    }
}

/// The player's height in the snapshot.
pub fn find_player_y(input: &FrameInput) -> (py: i64)
    requires
        input_wf(*input),
        has_player(input.sprites@),
    ensures
        py as int == first_player_y(input.sprites@),
        -COORD_LIMIT <= py <= COORD_LIMIT,
{
    let n: usize = input.sprites.len();
    let mut py: i64 = 0;
    let mut found = false;
    let mut j: usize = 0;
    while j < n && !found
        invariant
            j <= n,
            n == input.sprites@.len(),
            input_wf(*input),
            has_player(input.sprites@),
            !found ==> forall|k: int| 0 <= k < j ==> !((#[trigger] input.sprites@[k]).label is Player),
            !found ==> first_player_y(input.sprites@) == first_player_y_from(input.sprites@, j as int),
            found ==> py as int == first_player_y(input.sprites@),
        decreases n - j,
    {
        let s = input.sprites[j];
        if s.label == Label::Player {
            py = s.y;
            found = true;
        }
        j += 1;
    }
    proof {
        if !found {
            assert(!has_player(input.sprites@));
        }
        lemma_first_player_y_bounded(input.sprites@, 0);
    }
    py
}

/// One frame of the game. On a lost game it does nothing. Otherwise it
/// steers and tilts the player by the pressed keys — leaving the road zeroes
/// health — streams road lines and obstacles left with wrap and re-entry,
/// pays one health point per begun collision involving the player, and at
/// zero health declares the game lost. `race_post` states all of it
/// exactly.
pub fn game_logic(state: &mut GameState, input: &FrameInput) -> (out: FrameOutput)
    requires
        input_wf(*input),
        !old(state).lost ==> has_player(input.sprites@),
    ensures
        old(state).lost ==> *final(state) == *old(state) && quiet(out),
        !old(state).lost ==> race_post(*old(state), *input, *final(state), out),
{
    let mut out = FrameOutput {
        moves: Vec::new(),
        health_texts: Vec::new(),
        sounds: Vec::new(),
        game_over_banner: false,
        stop_music: false,
    };
    if state.lost {
        return out;
    }
    let ghost pre: GameState = *state;
    let ghost evs: Seq<CollisionEvent> = input.collisions@;
    let ghost d: u32 = input.delta_ms;

    // Steering: fold the pressed keys into a direction.
    let mut dir: i64 = 0;
    if input.up_pressed {
        dir = dir + 1;
    }
    if input.down_pressed {
        dir = dir - 1;
    }
    proof {
        assert(dir as int == direction(input.up_pressed, input.down_pressed));
    }

    // The player steers and leans into the turn; off the road, health is
    // gone.
    let py: i64 = find_player_y(input);
    let step: i64 = PLAYER_SPEED * (input.delta_ms as i64);
    let ny: i64 = if dir == 1 {
        py + step
    } else if dir == -1 {
        py - step
    } else {
        py
    };
    proof {
        let dirv: int = dir as int;
        let sx: int = PLAYER_SPEED * (input.delta_ms as int);
        assert(dirv * PLAYER_SPEED * (input.delta_ms as int) == (if dirv == 1 {
            sx
        } else if dirv == -1 {
            -sx
        } else {
            0int
        })) by (nonlinear_arith)
            requires
                -1 <= dirv <= 1,
                sx == PLAYER_SPEED * (input.delta_ms as int),
        ;
        assert(ny as int == player_new_y(*input));
    }
    out.moves.push(SpriteMove::SetY { label: Label::Player, y: ny });
    out.moves.push(SpriteMove::SetTilt { direction: dir as i8 });
    if ny < -ROAD_EDGE || ny > ROAD_EDGE {
        state.health_amount = 0;
    }
    let ghost h1: int = health_at_collisions(pre, *input);
    proof {
        assert(state.health_amount as int == h1);
        assert(out.moves@.skip(2) =~= Seq::<SpriteMove>::empty());
    }

    // Streaming: road lines wrap when they leave on the left; obstacles
    // re-enter ahead at a random position.
    let n: usize = input.sprites.len();
    let mut i: usize = 0;
    while i < n
        invariant
            i <= n,
            n == input.sprites@.len(),
            input_wf(*input),
            d == input.delta_ms,
            out.moves@.len() >= 2,
            out.moves@[0] == (SpriteMove::SetY { label: Label::Player, y: player_new_y(*input) as i64 }),
            out.moves@[1] == (SpriteMove::SetTilt {
                direction: direction(input.up_pressed, input.down_pressed) as i8,
            }),
            moves_match(input.sprites@.take(i as int), d, out.moves@.skip(2)),
            out.health_texts@.len() == 0,
            out.sounds@.len() == 0,
            !out.game_over_banner,
            !out.stop_music,
        decreases n - i,
    {
        let s = input.sprites[i];
        let ghost prev_ms: Seq<SpriteMove> = out.moves@.skip(2);
        proof {
            assert(input.sprites@.take(i as int + 1).drop_last() =~= input.sprites@.take(i as int));
            assert(input.sprites@.take(i as int + 1).last() == s);
            assert(coord_ok(input.sprites@[i as int]));
        }
        match s.label {
            Label::Roadline(_id) => {
                let x2: i64 = s.x - ROAD_SPEED * (input.delta_ms as i64);
                let nx: i64 = if x2 < ROADLINE_WRAP_AT {
                    x2 + ROADLINE_WRAP_SHIFT
                } else {
                    x2
                };
                out.moves.push(SpriteMove::SetX { label: s.label, x: nx });
                proof {
                    assert(out.moves@.skip(2) =~= prev_ms.push(
                        SpriteMove::SetX { label: s.label, x: nx },
                    ));
                    assert(out.moves@.skip(2).drop_last() =~= prev_ms);
                    assert(out.moves@.skip(2).last() == (SpriteMove::SetX { label: s.label, x: nx }));
                }
            }
            Label::Obstacle(_id) => {
                let x2: i64 = s.x - ROAD_SPEED * (input.delta_ms as i64);
                if x2 < OBSTACLE_RESPAWN_AT {
                    let rx = rng::gen_range_i64(OBSTACLE_X_MIN, OBSTACLE_X_MAX);
                    let ry = rng::gen_range_i64(OBSTACLE_Y_MIN, OBSTACLE_Y_MAX);
                    out.moves.push(SpriteMove::SetXY { label: s.label, x: rx, y: ry });
                    proof {
                        assert(out.moves@.skip(2) =~= prev_ms.push(
                            SpriteMove::SetXY { label: s.label, x: rx, y: ry },
                        ));
                        assert(out.moves@.skip(2).drop_last() =~= prev_ms);
                        assert(out.moves@.skip(2).last() == (SpriteMove::SetXY { label: s.label, x: rx, y: ry }));
                    }
                } else {
                    out.moves.push(SpriteMove::SetX { label: s.label, x: x2 });
                    proof {
                        assert(out.moves@.skip(2) =~= prev_ms.push(
                            SpriteMove::SetX { label: s.label, x: x2 },
                        ));
                        assert(out.moves@.skip(2).drop_last() =~= prev_ms);
                        assert(out.moves@.skip(2).last() == (SpriteMove::SetX { label: s.label, x: x2 }));
                    }
                }
            }
            Label::Player => {}
        }
        proof {
            assert(moves_match(input.sprites@.take(i as int + 1), d, out.moves@.skip(2)));
        }
        i += 1;
    }
    proof {
        assert(input.sprites@.take(n as int) =~= input.sprites@);
    }

    // Collisions: each begun overlap involving the player costs a point
    // while any is left, rewriting the health message and sounding an
    // impact.
    let ghost base_moves: Seq<SpriteMove> = out.moves@;
    let k_ev: usize = input.collisions.len();
    i = 0;
    while i < k_ev
        invariant
            i <= k_ev,
            k_ev == evs.len(),
            evs == input.collisions@,
            0 <= h1 <= u8::MAX,
            state.health_amount as int == health_after(h1, evs.take(i as int)),
            !state.lost,
            out.health_texts@ == health_text_list(h1, evs.take(i as int)),
            out.sounds@ == impact_sound_list(h1, evs.take(i as int)),
            out.moves@ == base_moves,
            !out.game_over_banner,
            !out.stop_music,
        decreases k_ev - i,
    {
        let e = input.collisions[i];
        proof {
            assert(evs.take(i as int + 1).drop_last() =~= evs.take(i as int));
            assert(evs.take(i as int + 1).last() == e);
        }
        let involves = matches!(e.first, Label::Player) || matches!(e.second, Label::Player);
        if involves && !e.ended {
            if state.health_amount > 0 {
                state.health_amount = state.health_amount - 1;
                out.health_texts.push(state.health_amount);
                out.sounds.push(Sound { sfx: Sfx::Impact3, volume_pct: 50 });
            }
        }
        proof {
            assert(out.health_texts@ =~= health_text_list(h1, evs.take(i as int + 1)));
            assert(out.sounds@ =~= impact_sound_list(h1, evs.take(i as int + 1)));
        }
        i += 1;
    }
    proof {
        assert(evs.take(k_ev as int) =~= evs);
    }

    // At zero health the game is lost.
    if state.health_amount == 0 {
        state.lost = true;
        out.game_over_banner = true;
        out.stop_music = true;
        out.sounds.push(Sound { sfx: Sfx::Jingle3, volume_pct: 50 });
    }
    proof {
        assert(out.sounds@ =~= impact_sound_list(h1, evs) + (if health_after(h1, evs) == 0 {
            seq![Sound { sfx: Sfx::Jingle3, volume_pct: 50 }]
        } else {
            Seq::<Sound>::empty()
        }));
    }
    out
}

} // verus!
