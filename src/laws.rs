//! Properties of the game that span several calls, proved from the
//! contracts of `tick`, `update`, `key_down_event` and `reset_game_state`.
use vstd::prelude::*;
use crate::constants::{MIN_MOVE_TIME, SPECIAL_START_MOVE_TIME, SPEED_UP_DENOMINATOR, SPEED_UP_NUMERATOR};
use crate::event_handler::{key_relation, sped_up, tick_relation, update_relation};
use crate::game_state::{
    fresh_run, has_free_cell, initial_move_time, occupies, start_position, GameState,
};
use crate::types::{
    in_grid, Difficulty, FrameEvents, GameMode, Key, KeyResponse, SnakeSegment, TickEvents,
};

verus! {

/// A tick never shortens the snake: it keeps its length, or grows by exactly
/// one segment when it eats.
pub proof fn lemma_tick_length(a: GameState, b: GameState, ev: TickEvents)
    requires
        a.wf(),
        a.mode == GameMode::Playing,
        tick_relation(a, b, ev),
    ensures
        b.snake_body@.len() == a.snake_body@.len() + if ev.ate {
            1int
        } else {
            0int
        },
        b.snake_body@.len() >= a.snake_body@.len(),
{
}

/// Food put down after a meal lies on the board and off the snake, whenever
/// the board has a free cell left for it.
pub proof fn lemma_food_off_snake_after_meal(a: GameState, b: GameState, ev: TickEvents)
    requires
        a.wf(),
        a.mode == GameMode::Playing,
        tick_relation(a, b, ev),
        ev.ate,
        b.snake_body@.len() < crate::constants::GRID_CELLS,
        has_free_cell(b.snake_body@),
    ensures
        in_grid(b.food.pos),
        !occupies(b.snake_body@, b.food.pos),
{
}

/// Throughout a run the food lies on the board and off the snake: every
/// call that the run goes through keeps the invariant that says so.
pub proof fn lemma_food_off_snake_in_run(s: GameState)
    requires
        s.wf(),
        s.mode == GameMode::Playing,
    ensures
        in_grid(s.food.pos),
        !occupies(s.snake_body@, s.food.pos),
{
}

/// Food put down for a new run lies on the board and off the snake.
pub proof fn lemma_food_off_snake_after_reset(a: GameState, b: GameState)
    requires
        fresh_run(a, b),
    ensures
        in_grid(b.food.pos),
        !occupies(b.snake_body@, b.food.pos),
{
    assert(b.snake_body@.len() == 1);
    assert(b.snake_body@[0].pos == start_position());
}

/// In a run, a direction key is refused exactly when it reverses the
/// effective direction (the pending turn, else the velocity); any other
/// direction becomes the pending turn.
pub proof fn lemma_direction_buffer(a: GameState, key: Key, b: GameState, r: KeyResponse)
    requires
        a.wf(),
        a.mode == GameMode::Playing,
        key.direction_spec() is Some,
        key_relation(a, key, b, r),
    ensures
        ({
            let d = key.direction_spec()->0;
            &&& (b.next_velocity == Some(d)) <==> d != a.effective_direction().opposite_spec()
            &&& d != a.effective_direction().opposite_spec() ==> b == (GameState {
                next_velocity: Some(d),
                ..a
            })
            &&& d == a.effective_direction().opposite_spec() ==> b == a
        }),
{
}

/// A tick raises the score by one for a meal and leaves it alone otherwise.
pub proof fn lemma_score_per_meal(a: GameState, b: GameState, ev: TickEvents)
    requires
        a.wf(),
        a.mode == GameMode::Playing,
        tick_relation(a, b, ev),
    ensures
        b.score == a.score + if ev.ate {
            1int
        } else {
            0int
        },
        b.score >= a.score,
{
}

/// A frame in a run never lowers the score: it rises by one for a meal and
/// stays otherwise.
pub proof fn lemma_score_never_drops_in_run(
    a: GameState,
    elapsed_us: u64,
    b: GameState,
    r: FrameEvents,
)
    requires
        a.wf(),
        a.mode == GameMode::Playing,
        update_relation(a, elapsed_us, b, r),
    ensures
        b.score == a.score + if r.ate {
            1int
        } else {
            0int
        },
        b.score >= a.score,
{
}

/// A frame in the menu makes the high score the larger of itself and the
/// last run's score, and changes nothing else.
pub proof fn lemma_high_score_in_menu(a: GameState, elapsed_us: u64, b: GameState, r: FrameEvents)
    requires
        a.wf(),
        a.mode == GameMode::Menu,
        update_relation(a, elapsed_us, b, r),
    ensures
        a.score > a.high_score ==> b.high_score == a.score,
        a.score <= a.high_score ==> b.high_score == a.high_score,
        b.score == a.score,
        b.mode == GameMode::Menu,
{
}

/// The interval start, decayed by 95/100 (rounded down) `n` times.
pub open spec fn decayed(t: int, n: nat) -> int
    decreases n,
{
    if n == 0 {
        t
    } else {
        decayed(t, (n - 1) as nat) * SPEED_UP_NUMERATOR as int / SPEED_UP_DENOMINATOR as int
    }
}

/// The Special interval after `n` meals: the start interval decayed `n`
/// times, held at the floor.
pub open spec fn special_interval(n: nat) -> int {
    let t = decayed(SPECIAL_START_MOVE_TIME as int, n);
    if t < MIN_MOVE_TIME {
        MIN_MOVE_TIME as int
    } else {
        t
    }
}

proof fn lemma_decayed_nonnegative(t: int, n: nat)
    requires
        t >= 0,
    ensures
        decayed(t, n) >= 0,
    decreases n,
{
    if n > 0 {
        lemma_decayed_nonnegative(t, (n - 1) as nat);
        let p = decayed(t, (n - 1) as nat);
        assert(p * 95 / 100 >= 0) by (nonlinear_arith)
            requires
                p >= 0,
        ;
    }
}

/// A Special run starts at the interval of zero meals, and each meal moves
/// the interval from its value after `n` meals to its value after `n + 1`:
/// so after `n` meals it is the start interval decayed `n` times, never
/// below the floor.
pub proof fn lemma_special_interval(a: GameState, b: GameState, ev: TickEvents, n: nat)
    requires
        a.wf(),
        a.mode == GameMode::Playing,
        a.difficulty == Difficulty::Special,
        a.move_time == special_interval(n),
        tick_relation(a, b, ev),
    ensures
        initial_move_time(Difficulty::Special) == special_interval(0),
        ev.ate ==> b.move_time == special_interval(n + 1),
        !ev.ate ==> b.move_time == special_interval(n),
{
    let t = decayed(SPECIAL_START_MOVE_TIME as int, n);
    lemma_decayed_nonnegative(SPECIAL_START_MOVE_TIME as int, n);
    assert(decayed(SPECIAL_START_MOVE_TIME as int, n + 1) == t * 95 / 100);
    assert(t * 95 / 100 <= t) by (nonlinear_arith)
        requires
            t >= 0,
    ;
    if ev.ate {
        assert(b.move_time == sped_up(a.move_time));
    }
}

/// Starting a run from the menu after a run that ended, however long the
/// snake grew and whatever it scored, leaves one segment on the start cell
/// and a score of zero.
pub proof fn lemma_new_run_after_game_over(
    a: GameState,
    b: GameState,
    ev: TickEvents,
    c: GameState,
    r: KeyResponse,
)
    requires
        a.wf(),
        a.mode == GameMode::Playing,
        tick_relation(a, b, ev),
        ev.game_over,
        key_relation(b, Key::Enter, c, r),
    ensures
        b.mode == GameMode::Menu,
        c.mode == GameMode::Playing,
        c.snake_body@ == seq![SnakeSegment { pos: start_position() }],
        c.score == 0,
{
}

} // verus!
