//! A pared-down build of the shooting gallery: the gun follows the mouse, a
//! click fires a marble from the pool, and marbles climb — no cars, no
//! scoring, no clean-up yet. It shares the snapshot and command types of
//! [`crate::car_shoot`].

use vstd::prelude::*;

use crate::car_shoot::find_aim_x;
use crate::car_shoot::input_wf;
use crate::car_shoot::has_player;
use crate::car_shoot::aim_one;
use crate::car_shoot::coord_ok;
use crate::car_shoot::world_after_shot;
use crate::car_shoot::pool_after_shot;
use crate::car_shoot::player_move_list;
use crate::car_shoot::marble_move_list;
use crate::car_shoot::marble_spawn_list;
use crate::car_shoot::shoot_sound_list;
use crate::car_shoot::shot_of;
use crate::car_shoot::FrameInput;
use crate::car_shoot::FrameOutput;
use crate::car_shoot::Label;
use crate::car_shoot::SpriteState;
use crate::car_shoot::SpriteMove;
use crate::car_shoot::Spawn;
use crate::car_shoot::Sound;
use crate::car_shoot::Sfx;
use crate::car_shoot::MARBLE_SPEED;
use crate::car_shoot::MARBLE_SPAWN_Y;
use crate::car_shoot::INITIAL_CARS;

verus! {

/// The record this build carries from frame to frame. The car count and the
/// spawn timer are already part of the record, though nothing ticks or
/// spends them yet.
pub struct GameState {
    /// Pool of marble identifiers not currently in flight; fired from the end.
    pub marble_labels: Vec<u8>,
    pub cars_left: i32,
    pub spawn_timer_ms: u32,
}

impl GameState {
    /// A fresh game: three marbles in the pool, the full complement of cars,
    /// a timer that would fire on the first frame.
    pub fn new() -> (s: GameState)
        ensures
            s.marble_labels@ == seq![1u8, 2u8, 3u8],
            s.cars_left == INITIAL_CARS,
            s.spawn_timer_ms == 0,
    {
        let mut pool: Vec<u8> = Vec::new();
        pool.push(1);
        pool.push(2);
        pool.push(3);
        proof {
            assert(pool@ =~= seq![1u8, 2u8, 3u8]);
        }
        GameState { marble_labels: pool, cars_left: INITIAL_CARS, spawn_timer_ms: 0 }
    }
}

/// Everything one frame of this build does: the shot leaves the pool, the
/// rest of the record stays, and the commands are the gun's repositioning,
/// the fired marble's spawn and sound, and one climb per marble — the fresh
/// one included. Nothing is removed, rewritten or silenced.
pub open spec fn basic_post(pre: GameState, input: FrameInput, post: GameState, out: FrameOutput) -> bool {
    let pool = pre.marble_labels@;
    let w2 = world_after_shot(input, pool);
    &&& post.marble_labels@ == pool_after_shot(pool, input.mouse_clicked)
    &&& post.cars_left == pre.cars_left
    &&& post.spawn_timer_ms == pre.spawn_timer_ms
    &&& out.moves@ == player_move_list(input) + marble_move_list(w2, input.delta_ms)
    &&& out.spawns@ == marble_spawn_list(input, pool)
    &&& out.sounds@ == shoot_sound_list(input, pool)
    &&& out.removals@.len() == 0
    &&& out.texts@.len() == 0
    &&& !out.game_over_banner
    &&& !out.stop_music
}

/// One frame: aim the gun at the mouse, fire a marble on a click, and let
/// every marble climb.
pub fn game_logic(state: &mut GameState, input: &FrameInput) -> (out: FrameOutput)
    requires
        input_wf(*input),
        has_player(input.sprites@),
    ensures
        basic_post(*old(state), *input, *final(state), out),
{
    let mut out = FrameOutput {
        moves: Vec::new(),
        spawns: Vec::new(),
        removals: Vec::new(),
        texts: Vec::new(),
        sounds: Vec::new(),
        game_over_banner: false,
        stop_music: false,
    };
    let ghost pre: GameState = *state;
    let ghost pool: Seq<u8> = pre.marble_labels@;
    let ghost d: u32 = input.delta_ms;

    // Aiming: the gun follows the mouse.
    if let Some(mx) = input.mouse_x {
        out.moves.push(SpriteMove::SetX { label: Label::Player, x: mx });
    }
    proof {
        assert(out.moves@ =~= player_move_list(*input));
    }
    let px: i64 = find_aim_x(input);

    // Firing: a click takes the last marble from the pool and puts it at the
    // gun's position.
    let mut shot: Option<u8> = None;
    if input.mouse_clicked && state.marble_labels.len() > 0 {
        let id = state.marble_labels.pop().unwrap();
        out.spawns.push(Spawn::Marble { id, x: px, y: MARBLE_SPAWN_Y });
        out.sounds.push(Sound { sfx: Sfx::Impact2, volume_pct: 40 });
        shot = Some(id);
    }
    let ghost w2: Seq<SpriteState> = world_after_shot(*input, pool);
    proof {
        assert(state.marble_labels@ =~= pool_after_shot(pool, input.mouse_clicked));
        assert(out.spawns@ =~= marble_spawn_list(*input, pool));
        assert(out.sounds@ =~= shoot_sound_list(*input, pool));
        assert(shot == shot_of(pool, input.mouse_clicked));
    }

    // Marble pass: every marble of the snapshot climbs. Aiming touches only
    // the gun's x position, so the snapshot's marbles are the working
    // registry's marbles.
    let n: usize = input.sprites.len();
    let mut i: usize = 0;
    while i < n
        invariant
            i <= n,
            n == input.sprites@.len(),
            input_wf(*input),
            d == input.delta_ms,
            w2 == world_after_shot(*input, pool),
            forall|j: int| 0 <= j < n ==> w2[j] == aim_one(input.sprites@[j], input.mouse_x),
            out.moves@ == player_move_list(*input) + marble_move_list(w2.take(i as int), d),
            out.spawns@ == marble_spawn_list(*input, pool),
            out.sounds@ == shoot_sound_list(*input, pool),
            out.removals@.len() == 0,
            out.texts@.len() == 0,
            !out.game_over_banner,
            !out.stop_music,
        decreases n - i,
    {
        let s = input.sprites[i];
        proof {
            assert(w2.take(i as int + 1).drop_last() =~= w2.take(i as int));
            assert(w2.take(i as int + 1).last() == w2[i as int]);
            assert(coord_ok(input.sprites@[i as int]));
        }
        if let Label::Marble(_id) = s.label {
            let ny: i64 = s.y + MARBLE_SPEED * (input.delta_ms as i64);
            out.moves.push(SpriteMove::SetY { label: s.label, y: ny });
        }
        proof {
            assert(out.moves@ =~= player_move_list(*input) + marble_move_list(w2.take(i as int + 1), d));
        }
        i += 1;
    }

    // The marble fired this frame is in the registry by now, so it climbs
    // with the rest.
    if let Some(id) = shot {
        let ny: i64 = MARBLE_SPAWN_Y + MARBLE_SPEED * (input.delta_ms as i64);
        out.moves.push(SpriteMove::SetY { label: Label::Marble(id), y: ny });
        proof {
            assert(w2.drop_last() =~= w2.take(n as int));
        }
    }
    proof {
        if shot is None {
            assert(w2.take(n as int) =~= w2);
        }
        assert(out.moves@ =~= player_move_list(*input) + marble_move_list(w2, d));
    }
    out
}

} // verus!
