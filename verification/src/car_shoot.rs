//! The shooting gallery. The player drags a marble gun along the bottom edge
//! with the mouse and fires one of three reusable marbles with the left
//! button. Cars cross the screen from the left at random heights and
//! intervals; a marble that hits a car removes both, scores a point and
//! returns the marble to the pool. When all cars have been spawned and none
//! is left on screen, the game ends.
//!
//! [`game_logic`] is the once-per-frame step. It works on a snapshot of the
//! engine's sprite registry and on the frame's input events, and returns the
//! commands the engine should carry out. Positions are milli-pixels,
//! durations milliseconds.

use vstd::prelude::*;

use crate::rng;

verus! {

/// Marble travel speed, in pixels per second.
pub const MARBLE_SPEED: i64 = 600;

/// Car travel speed, in pixels per second.
pub const CAR_SPEED: i64 = 600;

/// A sprite above this height is off screen, in milli-pixels.
pub const TOP_EDGE: i64 = 400_000;

/// A sprite to the right of this is off screen, in milli-pixels.
pub const RIGHT_EDGE: i64 = 750_000;

/// Height at which a fired marble appears, in milli-pixels.
pub const MARBLE_SPAWN_Y: i64 = -275_000;

/// Cars enter at the left edge, in milli-pixels.
pub const CAR_SPAWN_X: i64 = -740_000;

/// Lowest height a car can enter at, in milli-pixels.
pub const CAR_SPAWN_Y_MIN: i64 = -100_000;

/// Heights strictly below this are drawn for entering cars, in milli-pixels.
pub const CAR_SPAWN_Y_MAX: i64 = 325_000;

/// Shortest delay until the next car may be spawned, in milliseconds.
pub const SPAWN_DELAY_MIN_MS: u32 = 100;

/// Delays strictly below this are drawn for the spawn timer, in milliseconds.
pub const SPAWN_DELAY_MAX_MS: u32 = 1250;

/// Coordinates handed in by the host are bounded by this, in milli-pixels.
/// One million pixels is far beyond any window while leaving all per-frame
/// arithmetic comfortably inside `i64`.
pub const COORD_LIMIT: i64 = 1_000_000_000_000;

/// How many cars a fresh game will spawn.
pub const INITIAL_CARS: i32 = 25;

/// The label of a sprite in the engine's registry: the marble gun, a marble
/// (carrying its pool identifier) or a car (carrying the countdown value it
/// was spawned with).
#[derive(Clone, Copy, PartialEq, Eq, Structural, Debug)]
pub enum Label {
    Player,
    Marble(u8),
    Car(i32),
}

/// One entry of the sprite registry snapshot. Coordinates in milli-pixels.
#[derive(Clone, Copy, PartialEq, Eq, Structural, Debug)]
pub struct SpriteState {
    pub label: Label,
    pub x: i64,
    pub y: i64,
}

/// One collision reported by the engine this frame. `ended` is true for the
/// event that marks the end of an overlap rather than its start.
#[derive(Clone, Copy, PartialEq, Eq, Structural, Debug)]
pub struct CollisionEvent {
    pub ended: bool,
    pub first: Label,
    pub second: Label,
}

/// The body colour a spawned car is drawn with.
#[derive(Clone, Copy, PartialEq, Eq, Structural, Debug)]
pub enum CarColor {
    Black,
    Blue,
    Green,
    Red,
    Yellow,
}

/// A sound effect the engine should play.
#[derive(Clone, Copy, PartialEq, Eq, Structural, Debug)]
pub enum Sfx {
    Impact2,
    Confirmation1,
    Jingle3,
}

/// A sound command: which effect, at which volume (in percent).
#[derive(Clone, Copy, PartialEq, Eq, Structural, Debug)]
pub struct Sound {
    pub sfx: Sfx,
    pub volume_pct: u8,
}

/// A repositioning command for a sprite already in the registry.
#[derive(Clone, Copy, PartialEq, Eq, Structural, Debug)]
pub enum SpriteMove {
    SetX { label: Label, x: i64 },
    SetY { label: Label, y: i64 },
}

/// A command to add a sprite to the registry.
#[allow(inconsistent_fields)]
#[derive(Clone, Copy, PartialEq, Eq, Structural, Debug)]
pub enum Spawn {
    Marble { id: u8, x: i64, y: i64 },
    Car { id: i32, color: CarColor, x: i64, y: i64 },
}

/// A command to rewrite one of the two text elements.
#[derive(Clone, Copy, PartialEq, Eq, Structural, Debug)]
pub enum TextUpdate {
    CarsLeft(i32),
    Score(i32),
}

/// Everything the engine snapshot hands the frame step: the elapsed time,
/// the mouse, the sprite registry and the collisions reported this frame.
pub struct FrameInput {
    pub delta_ms: u32,
    pub mouse_x: Option<i64>,
    pub mouse_clicked: bool,
    pub sprites: Vec<SpriteState>,
    pub collisions: Vec<CollisionEvent>,
}

/// The commands one frame step asks the engine to carry out.
pub struct FrameOutput {
    pub moves: Vec<SpriteMove>,
    pub spawns: Vec<Spawn>,
    pub removals: Vec<Label>,
    pub texts: Vec<TextUpdate>,
    pub sounds: Vec<Sound>,
    pub game_over_banner: bool,
    pub stop_music: bool,
}

/// The game's own record, carried from frame to frame.
pub struct GameState {
    /// Pool of marble identifiers not currently in flight; fired from the end.
    pub marble_labels: Vec<u8>,
    /// How many cars are still to be spawned.
    pub cars_left: i32,
    pub score: i32,
    /// Time left until the spawn timer fires, in milliseconds.
    pub spawn_timer_ms: u32,
    pub is_end: bool,
}

impl GameState {
    /// A fresh game: three marbles in the pool, the full complement of cars,
    /// no score, a timer that fires on the first frame.
    pub fn new() -> (s: GameState)
        ensures
            s.marble_labels@ == seq![1u8, 2u8, 3u8],
            s.cars_left == INITIAL_CARS,
            s.score == 0,
            s.spawn_timer_ms == 0,
            !s.is_end,
    {
        let mut pool: Vec<u8> = Vec::new();
        pool.push(1);
        pool.push(2);
        pool.push(3);
        proof {
            assert(pool@ =~= seq![1u8, 2u8, 3u8]);
        }
        GameState { marble_labels: pool, cars_left: INITIAL_CARS, score: 0, spawn_timer_ms: 0, is_end: false }
    }
}

/// Within the coordinate bound the host promises.
pub open spec fn coord_ok(s: SpriteState) -> bool {
    &&& -COORD_LIMIT <= s.x <= COORD_LIMIT
    &&& -COORD_LIMIT <= s.y <= COORD_LIMIT
}

/// What the frame step asks of its input: every snapshot coordinate and the
/// mouse position are within the coordinate bound.
pub open spec fn input_wf(input: FrameInput) -> bool {
    &&& forall|i: int| 0 <= i < input.sprites@.len() ==> coord_ok(#[trigger] input.sprites@[i])
    &&& (input.mouse_x matches Some(mx) ==> -COORD_LIMIT <= mx <= COORD_LIMIT)
}

/// The snapshot holds the marble gun.
pub open spec fn has_player(w: Seq<SpriteState>) -> bool {
    exists|i: int| 0 <= i < w.len() && (#[trigger] w[i]).label is Player
}

/// The x position of the first registry entry labelled as the gun, scanning
/// from `i`; zero when there is none.
pub open spec fn first_player_x_from(w: Seq<SpriteState>, i: int) -> int
    decreases w.len() - i,
{
    if i < 0 || i >= w.len() {
        0
    } else if w[i].label is Player {
        w[i].x as int
    } else {
        first_player_x_from(w, i + 1)
    }
}

/// The gun's x position in the snapshot.
pub open spec fn first_player_x(w: Seq<SpriteState>) -> int {
    first_player_x_from(w, 0)
}

/// Where the gun stands this frame: under the mouse when the engine reports
/// a position, else where the snapshot has it.
pub open spec fn aim_x(input: FrameInput) -> int {
    match input.mouse_x {
        Some(mx) => mx as int,
        None => first_player_x(input.sprites@),
    }
}

/// One registry entry after aiming: the gun follows the mouse, everything
/// else stays.
pub open spec fn aim_one(s: SpriteState, mouse_x: Option<i64>) -> SpriteState {
    match mouse_x {
        Some(mx) => if s.label is Player {
            SpriteState { label: s.label, x: mx, y: s.y }
        } else {
            s
        },
        None => s,
    }
}

/// The registry after aiming.
pub open spec fn aimed_world(w: Seq<SpriteState>, mouse_x: Option<i64>) -> Seq<SpriteState> {
    Seq::new(w.len(), |j: int| aim_one(w[j], mouse_x))
}

/// The marble fired this frame, if any: the last pool entry, on a click.
pub open spec fn shot_of(pool: Seq<u8>, clicked: bool) -> Option<u8> {
    if clicked && pool.len() > 0 {
        Some(pool.last())
    } else {
        None
    }
}

/// The pool once this frame's shot, if any, has left it.
pub open spec fn pool_after_shot(pool: Seq<u8>, clicked: bool) -> Seq<u8> {
    if clicked && pool.len() > 0 {
        pool.drop_last()
    } else {
        pool
    }
}

/// The registry after aiming and firing: a fired marble appears at the gun's
/// position, at the fixed spawn height.
pub open spec fn world_after_shot(input: FrameInput, pool: Seq<u8>) -> Seq<SpriteState> {
    let w1 = aimed_world(input.sprites@, input.mouse_x);
    match shot_of(pool, input.mouse_clicked) {
        Some(id) => w1.push(
            SpriteState { label: Label::Marble(id), x: aim_x(input) as i64, y: MARBLE_SPAWN_Y },
        ),
        None => w1,
    }
}

/// A marble's height after this frame's travel.
pub open spec fn marble_step_y(s: SpriteState, delta_ms: u32) -> int {
    if s.label is Marble {
        s.y + MARBLE_SPEED * delta_ms
    } else {
        s.y as int
    }
}

/// A car's x position after this frame's travel.
pub open spec fn car_step_x(s: SpriteState, delta_ms: u32) -> int {
    if s.label is Car {
        s.x + CAR_SPEED * delta_ms
    } else {
        s.x as int
    }
}

/// One registry entry after the marble pass.
pub open spec fn marble_stepped(s: SpriteState, delta_ms: u32) -> SpriteState {
    SpriteState { label: s.label, x: s.x, y: marble_step_y(s, delta_ms) as i64 }
}

/// One registry entry after the car pass.
pub open spec fn car_stepped(s: SpriteState, delta_ms: u32) -> SpriteState {
    SpriteState { label: s.label, x: car_step_x(s, delta_ms) as i64, y: s.y }
}

/// The registry after both movement passes.
pub open spec fn moved_world(w: Seq<SpriteState>, delta_ms: u32) -> Seq<SpriteState> {
    Seq::new(w.len(), |j: int| car_stepped(marble_stepped(w[j], delta_ms), delta_ms))
}

/// The registry this frame leaves behind before clean-up: aimed, with the
/// fired marble added, everything moved.
pub open spec fn world_moved(input: FrameInput, pool: Seq<u8>) -> Seq<SpriteState> {
    moved_world(world_after_shot(input, pool), input.delta_ms)
}

/// Past the top or the right edge, so due for removal.
pub open spec fn off_screen(s: SpriteState) -> bool {
    s.y > TOP_EDGE || s.x > RIGHT_EDGE
}

/// The repositioning commands of the marble pass, in registry order.
pub open spec fn marble_move_list(w: Seq<SpriteState>, delta_ms: u32) -> Seq<SpriteMove>
    decreases w.len(),
{
    if w.len() == 0 {
        Seq::empty()
    } else {
        marble_move_list(w.drop_last(), delta_ms) + if w.last().label is Marble {
            seq![SpriteMove::SetY { label: w.last().label, y: marble_step_y(w.last(), delta_ms) as i64 }]
        } else {
            Seq::empty()
        }
    }
}

/// The repositioning commands of the car pass, in registry order.
pub open spec fn car_move_list(w: Seq<SpriteState>, delta_ms: u32) -> Seq<SpriteMove>
    decreases w.len(),
{
    if w.len() == 0 {
        Seq::empty()
    } else {
        car_move_list(w.drop_last(), delta_ms) + if w.last().label is Car {
            seq![SpriteMove::SetX { label: w.last().label, x: car_step_x(w.last(), delta_ms) as i64 }]
        } else {
            Seq::empty()
        }
    }
}

/// The gun's repositioning command, when the engine reported a mouse
/// position.
pub open spec fn player_move_list(input: FrameInput) -> Seq<SpriteMove> {
    match input.mouse_x {
        Some(mx) => seq![SpriteMove::SetX { label: Label::Player, x: mx }],
        None => Seq::empty(),
    }
}

/// The labels clean-up removes, in registry order.
pub open spec fn removed_labels(w: Seq<SpriteState>) -> Seq<Label>
    decreases w.len(),
{
    if w.len() == 0 {
        Seq::empty()
    } else {
        removed_labels(w.drop_last()) + if off_screen(w.last()) {
            seq![w.last().label]
        } else {
            Seq::empty()
        }
    }
}

/// The marble identifiers clean-up returns to the pool, in registry order.
pub open spec fn cleaned_marble_ids(w: Seq<SpriteState>) -> Seq<u8>
    decreases w.len(),
{
    if w.len() == 0 {
        Seq::empty()
    } else {
        cleaned_marble_ids(w.drop_last()) + if off_screen(w.last()) && w.last().label is Marble {
            seq![w.last().label->Marble_0]
        } else {
            Seq::empty()
        }
    }
}

/// Some car outlives clean-up.
pub open spec fn car_survives(w: Seq<SpriteState>) -> bool {
    exists|i: int| 0 <= i < w.len() && (#[trigger] w[i]).label is Car && !off_screen(w[i])
}

/// The spawn timer fires this frame.
pub open spec fn timer_fires(pre: GameState, input: FrameInput) -> bool {
    input.delta_ms >= pre.spawn_timer_ms
}

/// The game ends this frame: the timer fired with no car left to spawn and
/// none surviving on screen.
pub open spec fn end_now(pre: GameState, input: FrameInput) -> bool {
    &&& timer_fires(pre, input)
    &&& pre.cars_left <= 0
    &&& !car_survives(world_moved(input, pre.marble_labels@))
}

/// A collision event that is acted on: an overlap that begins and involves a
/// marble.
pub open spec fn event_counts(e: CollisionEvent) -> bool {
    !e.ended && (e.first is Marble || e.second is Marble)
}

/// The marble identifier under a label, as a one-element sequence.
pub open spec fn label_marble_ids(l: Label) -> Seq<u8> {
    if l is Marble {
        seq![l->Marble_0]
    } else {
        Seq::empty()
    }
}

/// The marble identifiers one event returns to the pool.
pub open spec fn event_marble_ids(e: CollisionEvent) -> Seq<u8> {
    if event_counts(e) {
        label_marble_ids(e.first) + label_marble_ids(e.second)
    } else {
        Seq::empty()
    }
}

/// The marble identifiers this frame's collisions return to the pool, in
/// event order. Its length is the score gained.
pub open spec fn scored_marble_ids(evs: Seq<CollisionEvent>) -> Seq<u8>
    decreases evs.len(),
{
    if evs.len() == 0 {
        Seq::empty()
    } else {
        scored_marble_ids(evs.drop_last()) + event_marble_ids(evs.last())
    }
}

/// The removal commands collisions issue: both parties of each acted-on
/// event.
pub open spec fn collision_removals(evs: Seq<CollisionEvent>) -> Seq<Label>
    decreases evs.len(),
{
    if evs.len() == 0 {
        Seq::empty()
    } else {
        collision_removals(evs.drop_last()) + if event_counts(evs.last()) {
            seq![evs.last().first, evs.last().second]
        } else {
            Seq::empty()
        }
    }
}

/// The confirmation sounds collisions issue: one per party of each acted-on
/// event.
pub open spec fn collision_sounds(evs: Seq<CollisionEvent>) -> Seq<Sound>
    decreases evs.len(),
{
    if evs.len() == 0 {
        Seq::empty()
    } else {
        collision_sounds(evs.drop_last()) + if event_counts(evs.last()) {
            seq![
                Sound { sfx: Sfx::Confirmation1, volume_pct: 20 },
                Sound { sfx: Sfx::Confirmation1, volume_pct: 20 },
            ]
        } else {
            Seq::empty()
        }
    }
}

/// The scoreboard rewrites one acted-on event issues: one per party, each
/// showing the score as it stands after that party was handled.
pub open spec fn event_texts(e: CollisionEvent, score_before: int) -> Seq<TextUpdate> {
    if event_counts(e) {
        let s1 = score_before + label_marble_ids(e.first).len();
        let s2 = s1 + label_marble_ids(e.second).len();
        seq![TextUpdate::Score(s1 as i32), TextUpdate::Score(s2 as i32)]
    } else {
        Seq::empty()
    }
}

/// All scoreboard rewrites this frame's collisions issue, in event order.
pub open spec fn collision_texts(evs: Seq<CollisionEvent>, score0: int) -> Seq<TextUpdate>
    decreases evs.len(),
{
    if evs.len() == 0 {
        Seq::empty()
    } else {
        collision_texts(evs.drop_last(), score0)
            + event_texts(evs.last(), score0 + scored_marble_ids(evs.drop_last()).len())
    }
}

/// The spawn command of this frame's shot, if any.
pub open spec fn marble_spawn_list(input: FrameInput, pool: Seq<u8>) -> Seq<Spawn> {
    match shot_of(pool, input.mouse_clicked) {
        Some(id) => seq![
            Spawn::Marble { id, x: aim_x(input) as i64, y: MARBLE_SPAWN_Y },
        ],
        None => Seq::empty(),
    }
}

/// The shot's sound, if any.
pub open spec fn shoot_sound_list(input: FrameInput, pool: Seq<u8>) -> Seq<Sound> {
    if shot_of(pool, input.mouse_clicked) is Some {
        seq![Sound { sfx: Sfx::Impact2, volume_pct: 40 }]
    } else {
        Seq::empty()
    }
}

/// The countdown rewrite of a frame that spawns a car.
pub open spec fn cars_left_text_list(pre: GameState, input: FrameInput) -> Seq<TextUpdate> {
    if timer_fires(pre, input) && pre.cars_left > 0 {
        seq![TextUpdate::CarsLeft((pre.cars_left - 1) as i32)]
    } else {
        Seq::empty()
    }
}

/// What the spawn list of a frame holds: the fired marble, and, when the
/// timer fired with cars still to spawn, one car at the left edge, at a
/// random height within the entry band, carrying the new countdown value.
/// The car's colour is drawn at random and is not constrained here.
pub open spec fn spawns_post(pre: GameState, input: FrameInput, sp: Seq<Spawn>) -> bool {
    let base = marble_spawn_list(input, pre.marble_labels@);
    if timer_fires(pre, input) && pre.cars_left > 0 {
        &&& sp.len() == base.len() + 1
        &&& sp.take(base.len() as int) == base
        &&& sp.last() is Car
        &&& (sp.last() matches Spawn::Car { id, color, x, y } ==> {
            &&& id == pre.cars_left - 1
            &&& x == CAR_SPAWN_X
            &&& CAR_SPAWN_Y_MIN <= y < CAR_SPAWN_Y_MAX
        })
    } else {
        sp == base
    }
}

/// An output that asks nothing of the engine.
pub open spec fn quiet(out: FrameOutput) -> bool {
    &&& out.moves@.len() == 0
    &&& out.spawns@.len() == 0
    &&& out.removals@.len() == 0
    &&& out.texts@.len() == 0
    &&& out.sounds@.len() == 0
    &&& !out.game_over_banner
    &&& !out.stop_music
}

/// The two records hold the same values.
pub open spec fn state_unchanged(a: GameState, b: GameState) -> bool {
    &&& a.marble_labels@ == b.marble_labels@
    &&& a.cars_left == b.cars_left
    &&& a.score == b.score
    &&& a.spawn_timer_ms == b.spawn_timer_ms
    &&& a.is_end == b.is_end
}

/// Everything one frame of a running game does, stated over the snapshot and
/// the events. `pre` is the record on entry, `post` on exit, `out` the
/// commands issued.
pub open spec fn frame_post(pre: GameState, input: FrameInput, post: GameState, out: FrameOutput) -> bool {
    let evs = input.collisions@;
    let pool = pre.marble_labels@;
    let w2 = world_after_shot(input, pool);
    let w3 = world_moved(input, pool);
    let fired = timer_fires(pre, input);
    let ended = end_now(pre, input);
    &&& post.score == pre.score + scored_marble_ids(evs).len()
    &&& post.cars_left == (if fired && pre.cars_left > 0 { pre.cars_left - 1 } else { pre.cars_left as int })
    &&& post.is_end == ended
    &&& (fired ==> SPAWN_DELAY_MIN_MS <= post.spawn_timer_ms < SPAWN_DELAY_MAX_MS)
    &&& (!fired ==> post.spawn_timer_ms == pre.spawn_timer_ms - input.delta_ms)
    &&& post.marble_labels@ == pool_after_shot(pool, input.mouse_clicked) + cleaned_marble_ids(w3)
        + scored_marble_ids(evs)
    &&& out.moves@ == player_move_list(input) + marble_move_list(w2, input.delta_ms)
        + car_move_list(w2, input.delta_ms)
    &&& out.removals@ == removed_labels(w3) + collision_removals(evs)
    &&& out.texts@ == cars_left_text_list(pre, input) + collision_texts(evs, pre.score as int)
    &&& out.sounds@ == shoot_sound_list(input, pool)
        + (if ended { seq![Sound { sfx: Sfx::Jingle3, volume_pct: 50 }] } else { Seq::<Sound>::empty() })
        + collision_sounds(evs)
    &&& spawns_post(pre, input, out.spawns@)
    &&& out.game_over_banner == ended
    &&& out.stop_music == ended
}

/// The score gained can not outrun the event count: at most two marbles per
/// event.
pub proof fn lemma_scored_len(evs: Seq<CollisionEvent>)
    ensures
        scored_marble_ids(evs).len() <= 2 * evs.len(),
    decreases evs.len(),
{
    if evs.len() > 0 {
        lemma_scored_len(evs.drop_last());
    }
}

/// The gun's snapshot position is itself a snapshot coordinate, hence within
/// the coordinate bound.
proof fn lemma_first_player_x_bounded(w: Seq<SpriteState>, i: int)
    requires
        forall|j: int| 0 <= j < w.len() ==> coord_ok(#[trigger] w[j]),
    ensures
        -COORD_LIMIT <= first_player_x_from(w, i) <= COORD_LIMIT,
    decreases w.len() - i,
{
    if i < 0 || i >= w.len() {
    } else if w[i].label is Player {
    } else {
        lemma_first_player_x_bounded(w, i + 1);
    }
}

/// Ends the game: raises the banner, silences the music, plays the closing
/// jingle.
pub fn game_over(state: &mut GameState, out: &mut FrameOutput)
    ensures
        final(state).is_end,
        final(state).marble_labels@ == old(state).marble_labels@,
        final(state).cars_left == old(state).cars_left,
        final(state).score == old(state).score,
        final(state).spawn_timer_ms == old(state).spawn_timer_ms,
        final(out).moves@ == old(out).moves@,
        final(out).spawns@ == old(out).spawns@,
        final(out).removals@ == old(out).removals@,
        final(out).texts@ == old(out).texts@,
        final(out).sounds@ == old(out).sounds@.push(Sound { sfx: Sfx::Jingle3, volume_pct: 50 }),
        final(out).game_over_banner,
        final(out).stop_music,
{
    state.is_end = true;
    out.game_over_banner = true;
    out.stop_music = true;
    out.sounds.push(Sound { sfx: Sfx::Jingle3, volume_pct: 50 });
}

/// Where the gun stands this frame: under the mouse when the engine reports
/// a position, else where the snapshot holds it.
pub fn find_aim_x(input: &FrameInput) -> (px: i64)
    requires
        input_wf(*input),
        has_player(input.sprites@),
    ensures
        px as int == aim_x(*input),
        -COORD_LIMIT <= px <= COORD_LIMIT,
{
    let n: usize = input.sprites.len();
    let mut px: i64 = 0;
    let mut aimed = false;
    if let Some(mx) = input.mouse_x {
        px = mx;
        aimed = true;
    } else {
        let mut j: usize = 0;
        while j < n && !aimed
            invariant
                j <= n,
                n == input.sprites@.len(),
                input_wf(*input),
                has_player(input.sprites@),
                input.mouse_x is None,
                !aimed ==> forall|k: int| 0 <= k < j ==> !((#[trigger] input.sprites@[k]).label is Player),
                !aimed ==> first_player_x(input.sprites@) == first_player_x_from(input.sprites@, j as int),
                aimed ==> px == first_player_x(input.sprites@),
            decreases n - j,
        {
            let s = input.sprites[j];
            if s.label == Label::Player {
                px = s.x;
                aimed = true;
            }
            j += 1;
        }
        proof {
            if !aimed {
                assert(!has_player(input.sprites@));
            }
            lemma_first_player_x_bounded(input.sprites@, 0);
        }
    }
    px
}

/// One frame of the game. On an ended game it does nothing. Otherwise it
/// aims the gun at the mouse, fires a marble on a click, moves marbles up
/// and cars right, lists everything off screen for removal (returning such
/// marbles to the pool), ticks the spawn timer — a fired timer either spawns
/// the next car or, when none is left to spawn or on screen, ends the game —
/// and settles the frame's collisions: both parties of a begun collision
/// involving a marble are removed, and each marble among them scores a point
/// and returns to the pool. `frame_post` states all of it exactly.
pub fn game_logic(state: &mut GameState, input: &FrameInput) -> (out: FrameOutput)
    requires
        input_wf(*input),
        !old(state).is_end ==> has_player(input.sprites@),
        !old(state).is_end ==> old(state).score + 2 * input.collisions@.len() <= i32::MAX,
    ensures
        old(state).is_end ==> state_unchanged(*old(state), *final(state)) && quiet(out),
        !old(state).is_end ==> frame_post(*old(state), *input, *final(state), out),
{
    let mut out = FrameOutput {
        moves: Vec::new(),
        spawns: Vec::new(),
        removals: Vec::new(),
        texts: Vec::new(),
        sounds: Vec::new(),
        game_over_banner: false,
        stop_music: false,
    };
    if state.is_end {
        return out;
    }
    let ghost pre: GameState = *state;
    let ghost evs: Seq<CollisionEvent> = input.collisions@;
    let ghost pool: Seq<u8> = pre.marble_labels@;
    let ghost d: u32 = input.delta_ms;

    // Aiming: the gun follows the mouse. The registry snapshot is copied
    // into a working list that the movement passes below update in place.
    if let Some(mx) = input.mouse_x {
        out.moves.push(SpriteMove::SetX { label: Label::Player, x: mx });
    }
    proof {
        assert(out.moves@ =~= player_move_list(*input));
    }
    let n: usize = input.sprites.len();
    let mut world: Vec<SpriteState> = Vec::new();
    let mut i: usize = 0;
    while i < n
        invariant
            i <= n,
            n == input.sprites@.len(),
            input_wf(*input),
            world@.len() == i,
            forall|j: int| 0 <= j < i ==> world@[j] == aim_one(input.sprites@[j], input.mouse_x),
        decreases n - i,
    {
        let mut s = input.sprites[i];
        if let Some(mx) = input.mouse_x {
            if s.label == Label::Player {
                s = SpriteState { label: s.label, x: mx, y: s.y };
            }
        }
        world.push(s);
        i += 1;
    }
    proof {
        assert(world@ =~= aimed_world(input.sprites@, input.mouse_x));
    }

    // Where the gun stands this frame, for a marble fired from it.
    let px: i64 = find_aim_x(input);

    // Firing: a click takes the last marble from the pool and puts it at the
    // gun's position.
    if input.mouse_clicked && state.marble_labels.len() > 0 {
        let id = state.marble_labels.pop().unwrap();
        out.spawns.push(Spawn::Marble { id, x: px, y: MARBLE_SPAWN_Y });
        out.sounds.push(Sound { sfx: Sfx::Impact2, volume_pct: 40 });
        world.push(SpriteState { label: Label::Marble(id), x: px, y: MARBLE_SPAWN_Y });
    }
    let ghost w2: Seq<SpriteState> = world_after_shot(*input, pool);
    proof {
        assert(state.marble_labels@ =~= pool_after_shot(pool, input.mouse_clicked));
        assert(world@ =~= w2);
        assert(out.spawns@ =~= marble_spawn_list(*input, pool));
        assert(out.sounds@ =~= shoot_sound_list(*input, pool));
        assert forall|j: int| 0 <= j < w2.len() implies coord_ok(#[trigger] w2[j]) by {
            if j < input.sprites@.len() {
                assert(w2[j] == aim_one(input.sprites@[j], input.mouse_x));
            }
        }
    }

    // Marble pass: every marble, the fresh one included, climbs.
    let m: usize = world.len();
    let ghost pml: Seq<SpriteMove> = player_move_list(*input);
    let ghost base_spawns1: Seq<Spawn> = out.spawns@;
    let ghost base_sounds1: Seq<Sound> = out.sounds@;
    i = 0;
    while i < m
        invariant
            i <= m,
            m == world@.len(),
            world@.len() == w2.len(),
            forall|j: int| 0 <= j < w2.len() ==> coord_ok(#[trigger] w2[j]),
            forall|j: int| 0 <= j < i ==> world@[j] == marble_stepped(w2[j], d),
            forall|j: int| i <= j < m ==> world@[j] == w2[j],
            d == input.delta_ms,
            out.moves@ == pml + marble_move_list(w2.take(i as int), d),
            out.spawns@ == base_spawns1,
            out.sounds@ == base_sounds1,
            out.removals@.len() == 0,
            out.texts@.len() == 0,
            !out.game_over_banner,
            !out.stop_music,
        decreases m - i,
    {
        let s = world[i];
        proof {
            assert(w2.take(i as int + 1).drop_last() =~= w2.take(i as int));
            assert(w2.take(i as int + 1).last() == w2[i as int]);
        }
        if let Label::Marble(_id) = s.label {
            let ny: i64 = s.y + MARBLE_SPEED * (input.delta_ms as i64);
            world[i] = SpriteState { label: s.label, x: s.x, y: ny };
            out.moves.push(SpriteMove::SetY { label: s.label, y: ny });
        }
        proof {
            assert(out.moves@ =~= pml + marble_move_list(w2.take(i as int + 1), d));
        }
        i += 1;
    }
    proof {
        assert(w2.take(m as int) =~= w2);
    }

    // Car pass: every car drives right.
    i = 0;
    while i < m
        invariant
            i <= m,
            m == world@.len(),
            world@.len() == w2.len(),
            forall|j: int| 0 <= j < w2.len() ==> coord_ok(#[trigger] w2[j]),
            forall|j: int| 0 <= j < i ==> world@[j] == car_stepped(marble_stepped(w2[j], d), d),
            forall|j: int| i <= j < m ==> world@[j] == marble_stepped(w2[j], d),
            d == input.delta_ms,
            out.moves@ == pml + marble_move_list(w2, d) + car_move_list(w2.take(i as int), d),
            out.spawns@ == base_spawns1,
            out.sounds@ == base_sounds1,
            out.removals@.len() == 0,
            out.texts@.len() == 0,
            !out.game_over_banner,
            !out.stop_music,
        decreases m - i,
    {
        let s = world[i];
        proof {
            assert(w2.take(i as int + 1).drop_last() =~= w2.take(i as int));
            assert(w2.take(i as int + 1).last() == w2[i as int]);
            assert(s == marble_stepped(w2[i as int], d));
        }
        if let Label::Car(_id) = s.label {
            let nx: i64 = s.x + CAR_SPEED * (input.delta_ms as i64);
            world[i] = SpriteState { label: s.label, x: nx, y: s.y };
            out.moves.push(SpriteMove::SetX { label: s.label, x: nx });
        }
        proof {
            assert(out.moves@ =~= pml + marble_move_list(w2, d) + car_move_list(w2.take(i as int + 1), d));
        }
        i += 1;
    }
    let ghost w3: Seq<SpriteState> = world_moved(*input, pool);
    proof {
        assert(w2.take(m as int) =~= w2);
        assert(world@ =~= w3);
        assert(out.moves@ == pml + marble_move_list(w2, d) + car_move_list(w2, d));
    }

    // Clean-up: everything past the top or the right edge is listed for
    // removal; marbles among it return to the pool.
    i = 0;
    while i < m
        invariant
            i <= m,
            m == world@.len(),
            world@ == w3,
            out.removals@ == removed_labels(w3.take(i as int)),
            state.marble_labels@ == pool_after_shot(pool, input.mouse_clicked)
                + cleaned_marble_ids(w3.take(i as int)),
            state.cars_left == pre.cars_left,
            state.score == pre.score,
            state.spawn_timer_ms == pre.spawn_timer_ms,
            !state.is_end,
            out.moves@ == pml + marble_move_list(w2, d) + car_move_list(w2, d),
            out.spawns@ == base_spawns1,
            out.sounds@ == base_sounds1,
            out.texts@.len() == 0,
            !out.game_over_banner,
            !out.stop_music,
            d == input.delta_ms,
        decreases m - i,
    {
        let s = world[i];
        proof {
            assert(w3.take(i as int + 1).drop_last() =~= w3.take(i as int));
            assert(w3.take(i as int + 1).last() == w3[i as int]);
        }
        if s.y > TOP_EDGE || s.x > RIGHT_EDGE {
            out.removals.push(s.label);
            if let Label::Marble(id) = s.label {
                state.marble_labels.push(id);
            }
        }
        proof {
            assert(out.removals@ =~= removed_labels(w3.take(i as int + 1)));
            assert(state.marble_labels@ =~= pool_after_shot(pool, input.mouse_clicked)
                + cleaned_marble_ids(w3.take(i as int + 1)));
        }
        i += 1;
    }
    proof {
        assert(w3.take(m as int) =~= w3);
    }

    // Spawning: when the timer fires it is wound up afresh; a car enters
    // while any are left to spawn, and otherwise the game ends once the last
    // one has left the screen.
    let fired = input.delta_ms >= state.spawn_timer_ms;
    if fired {
        let t = rng::gen_range_i64(SPAWN_DELAY_MIN_MS as i64, SPAWN_DELAY_MAX_MS as i64);
        state.spawn_timer_ms = t as u32;
        if state.cars_left > 0 {
            state.cars_left = state.cars_left - 1;
            out.texts.push(TextUpdate::CarsLeft(state.cars_left));
            let ci = rng::gen_range_i64(0, 5);
            let color = if ci == 0 {
                CarColor::Black
            } else if ci == 1 {
                CarColor::Blue
            } else if ci == 2 {
                CarColor::Green
            } else if ci == 3 {
                CarColor::Red
            } else {
                CarColor::Yellow
            };
            let cy = rng::gen_range_i64(CAR_SPAWN_Y_MIN, CAR_SPAWN_Y_MAX);
            out.spawns.push(Spawn::Car { id: state.cars_left, color, x: CAR_SPAWN_X, y: cy });
            proof {
                let base = marble_spawn_list(*input, pool);
                assert(out.spawns@.take(base.len() as int) =~= base);
            }
        } else {
            // Everything past the right edge went on the removal list just
            // above, so the rearmost surviving car is never beyond it: the
            // game ends exactly when no car is left on screen.
            let mut last_car: Option<SpriteState> = None;
            let mut j: usize = 0;
            while j < m
                invariant
                    j <= m,
                    m == world@.len(),
                    world@ == w3,
                    (last_car is Some) == (exists|k: int|
                        0 <= k < j && (#[trigger] w3[k]).label is Car && !off_screen(w3[k])),
                    (last_car matches Some(c) ==> c.label is Car && !off_screen(c)),
                decreases m - j,
            {
                let s = world[j];
                if let Label::Car(_id) = s.label {
                    if !(s.y > TOP_EDGE || s.x > RIGHT_EDGE) {
                        last_car = Some(s);
                    }
                }
                j += 1;
            }
            match last_car {
                Some(c) => {
                    if c.x > RIGHT_EDGE {
                        game_over(state, &mut out);
                    }
                }
                None => {
                    game_over(state, &mut out);
                }
            }
        }
    } else {
        state.spawn_timer_ms = state.spawn_timer_ms - input.delta_ms;
    }
    let ghost post_spawn: GameState = *state;
    let ghost base_spawns: Seq<Spawn> = out.spawns@;
    let ghost base_sounds: Seq<Sound> = out.sounds@;
    let ghost base_texts: Seq<TextUpdate> = out.texts@;
    let ghost base_removals: Seq<Label> = out.removals@;
    let ghost mid_pool: Seq<u8> = state.marble_labels@;
    let ghost ended: bool = end_now(pre, *input);
    proof {
        assert(state.is_end == ended);
        assert(out.game_over_banner == ended);
        assert(out.stop_music == ended);
        assert(spawns_post(pre, *input, base_spawns));
        assert(base_sounds =~= shoot_sound_list(*input, pool)
            + (if ended { seq![Sound { sfx: Sfx::Jingle3, volume_pct: 50 }] } else { Seq::<Sound>::empty() }));
        assert(base_texts =~= cars_left_text_list(pre, *input));
    }

    // Collisions: both parties of a begun collision involving a marble are
    // removed; each marble among them scores and returns to the pool, and
    // every removal rewrites the scoreboard and sounds a confirmation.
    let k_ev: usize = input.collisions.len();
    i = 0;
    while i < k_ev
        invariant
            i <= k_ev,
            k_ev == evs.len(),
            evs == input.collisions@,
            pre.score + 2 * evs.len() <= i32::MAX,
            state.score == pre.score + scored_marble_ids(evs.take(i as int)).len(),
            state.marble_labels@ == mid_pool + scored_marble_ids(evs.take(i as int)),
            state.cars_left == post_spawn.cars_left,
            state.spawn_timer_ms == post_spawn.spawn_timer_ms,
            state.is_end == post_spawn.is_end,
            out.removals@ == base_removals + collision_removals(evs.take(i as int)),
            out.texts@ == base_texts + collision_texts(evs.take(i as int), pre.score as int),
            out.sounds@ == base_sounds + collision_sounds(evs.take(i as int)),
            out.moves@ == pml + marble_move_list(w2, d) + car_move_list(w2, d),
            out.spawns@ == base_spawns,
            out.game_over_banner == ended,
            out.stop_music == ended,
            d == input.delta_ms,
        decreases k_ev - i,
    {
        let e = input.collisions[i];
        proof {
            assert(evs.take(i as int + 1).drop_last() =~= evs.take(i as int));
            assert(evs.take(i as int + 1).last() == e);
            lemma_scored_len(evs.take(i as int));
        }
        let first_is_marble = matches!(e.first, Label::Marble(_));
        let second_is_marble = matches!(e.second, Label::Marble(_));
        if !e.ended && (first_is_marble || second_is_marble) {
            out.removals.push(e.first);
            if let Label::Marble(id) = e.first {
                state.marble_labels.push(id);
                state.score = state.score + 1;
            }
            out.texts.push(TextUpdate::Score(state.score));
            out.sounds.push(Sound { sfx: Sfx::Confirmation1, volume_pct: 20 });
            out.removals.push(e.second);
            if let Label::Marble(id) = e.second {
                state.marble_labels.push(id);
                state.score = state.score + 1;
            }
            out.texts.push(TextUpdate::Score(state.score));
            out.sounds.push(Sound { sfx: Sfx::Confirmation1, volume_pct: 20 });
        }
        proof {
            assert(out.removals@ =~= base_removals + collision_removals(evs.take(i as int + 1)));
            assert(state.marble_labels@ =~= mid_pool + scored_marble_ids(evs.take(i as int + 1)));
            assert(out.texts@ =~= base_texts + collision_texts(evs.take(i as int + 1), pre.score as int));
            assert(out.sounds@ =~= base_sounds + collision_sounds(evs.take(i as int + 1)));
        }
        i += 1;
    }
    proof {
        assert(evs.take(k_ev as int) =~= evs);
        lemma_scored_len(evs);
    }
    out
}

} // verus!
