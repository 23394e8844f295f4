use vstd::prelude::*;
use crate::constants::{
    MAX_MUSIC_VOLUME,
    GRID_CELLS, MIN_MOVE_TIME, SPECIAL_START_MOVE_TIME, SPEED_UP_DENOMINATOR, SPEED_UP_NUMERATOR,
};
use crate::game_state::{
    fresh_run, find_food_position, has_free_cell, occupies, out_of_bounds, GameState,
};
use crate::types::{
    in_grid, Difficulty, Direction, Food, FrameEvents, GameMode, Key, KeyResponse, Music,
    SnakeSegment, TickEvents,
};

verus! {

/// The body after one step in direction `d`: every segment takes the place
/// of the one before it and the head moves one cell.
pub open spec fn advance(body: Seq<SnakeSegment>, d: Direction) -> Seq<SnakeSegment> {
    seq![SnakeSegment { pos: body[0].pos.step_spec(d) }] + body.drop_last()
}

/// The head stands on another segment.
pub open spec fn hits_itself(body: Seq<SnakeSegment>) -> bool {
    exists|i: int| 1 <= i < body.len() && (#[trigger] body[i]).pos == body[0].pos
}

/// The interval after one meal in Special difficulty: scaled by 95/100,
/// rounded down, and held at the floor.
pub open spec fn sped_up(t: u64) -> u64 {
    let scaled = t as int * SPEED_UP_NUMERATOR as int / SPEED_UP_DENOMINATOR as int;
    if scaled < MIN_MOVE_TIME {
        MIN_MOVE_TIME
    } else {
        scaled as u64
    }
}

impl GameState {
    /// The direction of the next tick: the pending turn if there is one.
    pub open spec fn effective_direction(&self) -> Direction {
        match self.next_velocity {
            Some(d) => d,
            None => self.velocity,
        }
    }
}

/// One tick of a run takes `a` to `b` and reports `ev`.
///
/// The pending turn takes effect and the snake steps. Where the head lands
/// on the food the snake grows by its old tail, the score rises by one, the
/// Special interval shrinks, and new food is put on a free cell. The run ends
/// where the head hits the body or the border, or no cell is left for food.
pub open spec fn tick_relation(a: GameState, b: GameState, ev: TickEvents) -> bool {
    let d = a.effective_direction();
    let moved = advance(a.snake_body@, d);
    let ate = moved[0].pos == a.food.pos;
    let grown = if ate {
        moved.push(a.snake_body@.last())
    } else {
        moved
    };
    let board_full = ate && !(grown.len() < GRID_CELLS && has_free_cell(grown));
    &&& ev.ate == ate
    &&& ev.game_over == (board_full || hits_itself(grown) || out_of_bounds(grown[0].pos))
    &&& b.snake_body@ == grown
    &&& b.velocity == d
    &&& b.next_velocity is None
    &&& b.score == a.score + if ate {
        1int
    } else {
        0int
    }
    &&& b.move_time == if ate && a.difficulty == Difficulty::Special {
        sped_up(a.move_time)
    } else {
        a.move_time
    }
    &&& (!ate ==> b.food == a.food)
    &&& (ate && !board_full ==> in_grid(b.food.pos) && !occupies(grown, b.food.pos))
    &&& b.mode == if ev.game_over {
        GameMode::Menu
    } else {
        GameMode::Playing
    }
    &&& b == (GameState {
        snake_body: b.snake_body,
        food: b.food,
        velocity: b.velocity,
        next_velocity: b.next_velocity,
        score: b.score,
        move_time: b.move_time,
        mode: b.mode,
        ..a
    })
}

/// Moves every segment onto the place of the one before it, from the tail
/// towards the head; the head stays where it was.
fn shift_toward_tail(body: &mut Vec<SnakeSegment>)
    requires
        old(body)@.len() >= 1,
    ensures
        final(body)@ == seq![old(body)@[0]] + old(body)@.drop_last(),
{
    let ghost orig = body@;
    let len = body.len();
    let mut i: usize = len - 1;
    while i > 0
        invariant
            0 <= i < len,
            len == orig.len(),
            body@.len() == len,
            forall|j: int| 0 <= j <= i ==> body@[j] == orig[j],
            forall|j: int| i < j < len ==> body@[j] == orig[j - 1],
        decreases i,
    {
        let prev = body[i - 1];
        body.set(i, prev);
        i -= 1;
    }
    assert(body@ =~= seq![orig[0]] + orig.drop_last());
}

/// The interval after one meal in Special difficulty.
pub fn speed_up(move_time: u64) -> (r: u64)
    requires
        move_time <= SPECIAL_START_MOVE_TIME,
    ensures
        r == sped_up(move_time),
        MIN_MOVE_TIME <= r,
        MIN_MOVE_TIME <= move_time ==> r <= move_time,
{
    let scaled = move_time * SPEED_UP_NUMERATOR / SPEED_UP_DENOMINATOR;
    if scaled < MIN_MOVE_TIME {
        MIN_MOVE_TIME
    } else {
        scaled
    }
}

impl GameState {
    /// The head stands on another segment.
    pub fn check_self_collision(&self) -> (r: bool)
        requires
            self.snake_body@.len() >= 1,
        ensures
            r == hits_itself(self.snake_body@),
    {
        let head = self.snake_body[0].pos;
        let mut i: usize = 1;
        while i < self.snake_body.len()
            invariant
                1 <= i <= self.snake_body@.len(),
                head == self.snake_body@[0].pos,
                forall|j: int| 1 <= j < i ==> (#[trigger] self.snake_body@[j]).pos != head,
            decreases self.snake_body@.len() - i,
        {
            if self.snake_body[i].pos == head {
                assert(self.snake_body@[i as int].pos == head);
                return true;
            }
            i += 1;
        }
        false
    }

    /// One step of a run; see `tick_relation`.
    pub fn tick(&mut self) -> (ev: TickEvents)
        requires
            old(self).wf(),
            old(self).mode == GameMode::Playing,
        ensures
            final(self).wf(),
            tick_relation(*old(self), *final(self), ev),
            final(self).last_update == old(self).last_update,
    {
        match self.next_velocity {
            Some(d) => {
                self.velocity = d;
                self.next_velocity = None;
            },
            None => {},
        }
        let ghost body0 = self.snake_body@;
        let len = self.snake_body.len();
        let last = self.snake_body[len - 1];
        assert(in_grid(body0[0].pos));
        shift_toward_tail(&mut self.snake_body);
        let head = self.snake_body[0].pos.step(self.velocity);
        self.snake_body.set(0, SnakeSegment { pos: head });
        assert(self.snake_body@ =~= advance(body0, self.velocity));
        let ate = head == self.food.pos;
        let mut game_over = false;
        if ate {
            self.snake_body.push(last);
            self.score += 1;
            if self.difficulty == Difficulty::Special {
                self.move_time = speed_up(self.move_time);
            }
            match find_food_position(&self.snake_body) {
                Some(p) => {
                    self.food = Food { pos: p };
                },
                None => {
                    game_over = true;
                },
            }
        }
        if self.check_self_collision() {
            game_over = true;
        }
        if self.check_border_collisions() {
            game_over = true;
        }
        if game_over {
            self.mode = GameMode::Menu;
        }
        assert forall|i: int| 0 <= i < self.snake_body@.len() && !game_over implies in_grid(
            #[trigger] self.snake_body@[i].pos,
        ) by {
            if i > 0 && i < len {
                assert(self.snake_body@[i] == body0[i - 1]);
            }
        }
        TickEvents { ate, game_over }
    }
}

/// `a + b`, held at `u64::MAX`.
pub open spec fn saturating_sum(a: u64, b: u64) -> u64 {
    if a + b > u64::MAX {
        u64::MAX
    } else {
        (a + b) as u64
    }
}

/// A response that asks for nothing.
pub open spec fn no_response() -> KeyResponse {
    KeyResponse { quit: false, menu_sound: false, volume_changed: false, left_game: false }
}

/// The track that plays in a mode: the menu's in the menu, the Special
/// track in a Special run, the game track in any other run.
pub open spec fn music_for(mode: GameMode, difficulty: Difficulty) -> Music {
    match mode {
        GameMode::Menu => Music::MenuTrack,
        GameMode::Playing => if difficulty == Difficulty::Special {
            Music::SpecialTrack
        } else {
            Music::GameTrack
        },
    }
}

/// A key press takes `a` to `b` and asks for `r`.
///
/// In the menu: Enter starts a run, Escape asks to quit, a digit selects a
/// difficulty, the volume keys step the volume by a tenth within [0, 10].
/// In a run: a direction key queues a turn unless it reverses the effective
/// direction, Escape returns to the menu. Every other key does nothing.
pub open spec fn key_relation(a: GameState, key: Key, b: GameState, r: KeyResponse) -> bool {
    match a.mode {
        GameMode::Menu => {
            if key == Key::Enter {
                &&& fresh_run((GameState { mode: GameMode::Playing, ..a }), b)
                &&& r == (KeyResponse { menu_sound: true, ..no_response() })
            } else if key == Key::Escape {
                &&& b == a
                &&& r == (KeyResponse { quit: true, menu_sound: true, ..no_response() })
            } else if key.difficulty_spec() is Some {
                let d = key.difficulty_spec()->0;
                &&& b == (GameState { difficulty: d, ..a })
                &&& r == (KeyResponse { menu_sound: a.difficulty != d, ..no_response() })
            } else if key == Key::VolumeUp {
                &&& b == (GameState {
                    music_volume: if a.music_volume < MAX_MUSIC_VOLUME {
                        (a.music_volume + 1) as u32
                    } else {
                        MAX_MUSIC_VOLUME
                    },
                    ..a
                })
                &&& r == (KeyResponse { volume_changed: true, ..no_response() })
            } else if key == Key::VolumeDown {
                &&& b == (GameState {
                    music_volume: if a.music_volume > 0 {
                        (a.music_volume - 1) as u32
                    } else {
                        0
                    },
                    ..a
                })
                &&& r == (KeyResponse { volume_changed: true, ..no_response() })
            } else {
                &&& b == a
                &&& r == no_response()
            }
        },
        GameMode::Playing => {
            if key.direction_spec() is Some {
                let d = key.direction_spec()->0;
                &&& b == (GameState {
                    next_velocity: if d != a.effective_direction().opposite_spec() {
                        Some(d)
                    } else {
                        a.next_velocity
                    },
                    ..a
                })
                &&& r == no_response()
            } else if key == Key::Escape {
                &&& b == (GameState { mode: GameMode::Menu, ..a })
                &&& r == (KeyResponse { left_game: true, ..no_response() })
            } else {
                &&& b == a
                &&& r == no_response()
            }
        },
    }
}

/// A frame of `elapsed_us` microseconds takes `a` to `b` and reports `r`.
///
/// In the menu the last run's score becomes the high score where it beats
/// it. In a run the time is gathered; once it reaches the tick interval it is
/// reset to zero and one tick fires.
pub open spec fn update_relation(a: GameState, elapsed_us: u64, b: GameState, r: FrameEvents) -> bool {
    &&& a.mode == GameMode::Menu ==> {
        &&& r == (FrameEvents { ticked: false, ate: false, game_over: false })
        &&& b == (GameState {
            high_score: if a.score > a.high_score {
                a.score
            } else {
                a.high_score
            },
            ..a
        })
    }
    &&& a.mode == GameMode::Playing ==> {
        let gathered = saturating_sum(a.last_update, elapsed_us);
        if gathered >= a.move_time {
            &&& r.ticked
            &&& b.last_update == 0
            &&& tick_relation(
                (GameState { last_update: 0, ..a }),
                b,
                (TickEvents { ate: r.ate, game_over: r.game_over }),
            )
        } else {
            &&& r == (FrameEvents { ticked: false, ate: false, game_over: false })
            &&& b == (GameState { last_update: gathered, ..a })
        }
    }
}

impl GameState {
    /// Handles a key press; see `key_relation`.
    pub fn key_down_event(&mut self, key: Key) -> (r: KeyResponse)
        requires
            old(self).wf(),
        ensures
            final(self).wf(),
            key_relation(*old(self), key, *final(self), r),
    {
        let mut response = KeyResponse {
            quit: false,
            menu_sound: false,
            volume_changed: false,
            left_game: false,
        };
        match self.mode {
            GameMode::Menu => {
                if key == Key::Enter {
                    self.mode = GameMode::Playing;
                    self.reset_game_state();
                    response.menu_sound = true;
                } else if key == Key::Escape {
                    response.quit = true;
                    response.menu_sound = true;
                } else if let Some(d) = key.difficulty() {
                    if self.difficulty != d {
                        self.difficulty = d;
                        response.menu_sound = true;
                    }
                } else if key == Key::VolumeUp {
                    if self.music_volume < MAX_MUSIC_VOLUME {
                        self.music_volume = self.music_volume + 1;
                    }
                    response.volume_changed = true;
                } else if key == Key::VolumeDown {
                    if self.music_volume > 0 {
                        self.music_volume = self.music_volume - 1;
                    }
                    response.volume_changed = true;
                }
            },
            GameMode::Playing => {
                if let Some(d) = key.direction() {
                    let current = match self.next_velocity {
                        Some(v) => v,
                        None => self.velocity,
                    };
                    if d != current.opposite() {
                        self.next_velocity = Some(d);
                    }
                } else if key == Key::Escape {
                    self.mode = GameMode::Menu;
                    response.left_game = true;
                }
            },
        }
        response
    }

    /// Advances the game by one frame that took `elapsed_us` microseconds;
    /// see `update_relation`.
    pub fn update(&mut self, elapsed_us: u64) -> (r: FrameEvents)
        requires
            old(self).wf(),
        ensures
            final(self).wf(),
            update_relation(*old(self), elapsed_us, *final(self), r),
    {
        match self.mode {
            GameMode::Menu => {
                if self.score > self.high_score {
                    self.high_score = self.score;
                }
                FrameEvents { ticked: false, ate: false, game_over: false }
            },
            GameMode::Playing => {
                self.last_update = if self.last_update > u64::MAX - elapsed_us {
                    u64::MAX
                } else {
                    self.last_update + elapsed_us
                };
                if self.last_update >= self.move_time {
                    self.last_update = 0;
                    let ev = self.tick();
                    FrameEvents { ticked: true, ate: ev.ate, game_over: ev.game_over }
                } else {
                    FrameEvents { ticked: false, ate: false, game_over: false }
                }
            },
        }
    }

    /// The track that belongs to the current state.
    pub fn desired_music(&self) -> (r: Music)
        ensures
            r == music_for(self.mode, self.difficulty),
    {
        match self.mode {
            GameMode::Menu => Music::MenuTrack,
            GameMode::Playing => if self.difficulty == Difficulty::Special {
                Music::SpecialTrack
            } else {
                Music::GameTrack
            },
        }
    }
}

} // verus!
