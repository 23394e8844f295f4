use vstd::prelude::*;
use crate::constants::{
    ASPECT_HEIGHT, ASPECT_WIDTH, EASY_MOVE_TIME, EASY_MUSIC_SPEED, FOOD_PLACEMENT_TRIES,
    GRID_CELLS, GRID_COLS, GRID_ROWS, HARD_MOVE_TIME, HARD_MUSIC_SPEED, INITIAL_MUSIC_VOLUME,
    MAX_MUSIC_VOLUME, MIN_MOVE_TIME, NORMAL_MOVE_TIME, NORMAL_MUSIC_SPEED,
    SPECIAL_START_MOVE_TIME, START_COL, START_ROW,
};
use crate::random::random_below;
use crate::types::{
    in_grid, Difficulty, Direction, Food, GameMode, PixelRect, Position, SnakeSegment,
};

verus! {

/// The whole state of the game: the run in progress, the menu's choices and
/// the layout of the board in the window.
pub struct GameState {
    /// The snake, head first.
    pub snake_body: Vec<SnakeSegment>,
    pub food: Food,
    /// The direction the head moved in on the last tick.
    pub velocity: Direction,
    /// Time gathered towards the next tick, in microseconds.
    pub last_update: u64,
    pub score: u32,
    pub high_score: u32,
    pub mode: GameMode,
    pub window_width: u32,
    pub window_height: u32,
    /// The board: the largest 4:3 rectangle that fits in the window.
    pub boundary_width: u32,
    pub boundary_height: u32,
    /// Edge of one cell on screen, in pixels.
    pub scaled_snake_size: u32,
    /// Margins that center the board in the window.
    pub offset_x: u32,
    pub offset_y: u32,
    pub difficulty: Difficulty,
    /// The tick interval, in microseconds.
    pub move_time: u64,
    /// A turn asked for since the last tick, applied at the next one.
    pub next_velocity: Option<Direction>,
    /// Volume of every sound, in tenths.
    pub music_volume: u32,
    /// Playback speed of the game music, in percent.
    pub music_speed: u32,
}

/// The board for a window: the height is kept where the window is wider than
/// 4:3, the width otherwise.
pub open spec fn locked_boundary(w: int, h: int) -> (int, int) {
    let (aw, ah) = (ASPECT_WIDTH as int, ASPECT_HEIGHT as int);
    if w * ah > h * aw {
        (h * aw / ah, h)
    } else {
        (w, w * ah / aw)
    }
}

pub open spec fn start_position() -> Position {
    Position { x: START_COL, y: START_ROW }
}

/// Some segment of `body` stands on `p`.
pub open spec fn occupies(body: Seq<SnakeSegment>, p: Position) -> bool {
    exists|i: int| 0 <= i < body.len() && (#[trigger] body[i]).pos == p
}

/// Some cell of the board is not under the snake.
pub open spec fn has_free_cell(body: Seq<SnakeSegment>) -> bool {
    exists|p: Position| #[trigger] in_grid(p) && !occupies(body, p)
}

/// The head has left the board.
pub open spec fn out_of_bounds(p: Position) -> bool {
    p.x < 0 || p.y < 0 || p.x + 1 > GRID_COLS || p.y + 1 > GRID_ROWS
}

pub open spec fn initial_move_time(d: Difficulty) -> u64 {
    match d {
        Difficulty::Easy => EASY_MOVE_TIME,
        Difficulty::Normal => NORMAL_MOVE_TIME,
        Difficulty::Hard => HARD_MOVE_TIME,
        Difficulty::Special => SPECIAL_START_MOVE_TIME,
    }
}

pub open spec fn initial_music_speed(d: Difficulty) -> u32 {
    match d {
        Difficulty::Easy => EASY_MUSIC_SPEED,
        Difficulty::Normal => NORMAL_MUSIC_SPEED,
        Difficulty::Hard => HARD_MUSIC_SPEED,
        Difficulty::Special => NORMAL_MUSIC_SPEED,
    }
}

/// `b` is `a` with a new run set up: one segment on the start cell, food on
/// another cell of the board, heading right with no turn pending, no score,
/// and the interval and music speed of `a`'s difficulty.
pub open spec fn fresh_run(a: GameState, b: GameState) -> bool {
    &&& b.snake_body@ == seq![SnakeSegment { pos: start_position() }]
    &&& in_grid(b.food.pos)
    &&& b.food.pos != start_position()
    &&& b.velocity == Direction::Right
    &&& b.next_velocity is None
    &&& b.score == 0
    &&& b.move_time == initial_move_time(a.difficulty)
    &&& b.music_speed == initial_music_speed(a.difficulty)
    &&& b == (GameState {
        snake_body: b.snake_body,
        food: b.food,
        velocity: b.velocity,
        next_velocity: b.next_velocity,
        score: b.score,
        move_time: b.move_time,
        music_speed: b.music_speed,
        ..a
    })
}

/// Some segment of `body` stands on `p`.
pub fn occupied(body: &Vec<SnakeSegment>, p: Position) -> (r: bool)
    ensures
        r == occupies(body@, p),
{
    let mut i: usize = 0;
    while i < body.len()
        invariant
            0 <= i <= body@.len(),
            forall|j: int| 0 <= j < i ==> (#[trigger] body@[j]).pos != p,
        decreases body@.len() - i,
    {
        if body[i].pos == p {
            assert(body@[i as int].pos == p);
            return true;
        }
        i += 1;
    }
    false
}

/// A cell for new food that the snake does not cover: drawn at random a few
/// times, then found by scanning the board row by row. There is none only
/// where the snake fills the board.
pub fn find_food_position(body: &Vec<SnakeSegment>) -> (r: Option<Position>)
    ensures
        r is Some <==> (body@.len() < GRID_CELLS && has_free_cell(body@)),
        r matches Some(p) ==> in_grid(p) && !occupies(body@, p),
{
    if body.len() >= GRID_CELLS {
        return None;
    }
    let mut tries: u32 = 0;
    while tries < FOOD_PLACEMENT_TRIES
        invariant
            tries <= FOOD_PLACEMENT_TRIES,
            body@.len() < GRID_CELLS,
        decreases FOOD_PLACEMENT_TRIES - tries,
    {
        let p = GameState::get_random_food_position();
        if !occupied(body, p) {
            assert(in_grid(p) && !occupies(body@, p));
            assert(has_free_cell(body@));
            return Some(p);
        }
        tries += 1;
    }
    let mut y: i32 = 0;
    while y < GRID_ROWS
        invariant
            0 <= y <= GRID_ROWS,
            body@.len() < GRID_CELLS,
            forall|p: Position| #[trigger] in_grid(p) && p.y < y ==> occupies(body@, p),
        decreases GRID_ROWS - y,
    {
        let mut x: i32 = 0;
        while x < GRID_COLS
            invariant
                0 <= x <= GRID_COLS,
                0 <= y < GRID_ROWS,
                body@.len() < GRID_CELLS,
                forall|p: Position|
                    #[trigger] in_grid(p) && (p.y < y || (p.y == y && p.x < x)) ==> occupies(
                        body@,
                        p,
                    ),
            decreases GRID_COLS - x,
        {
            let p = Position { x, y };
            if !occupied(body, p) {
                assert(in_grid(p) && !occupies(body@, p));
            assert(has_free_cell(body@));
                return Some(p);
            }
            x += 1;
        }
        y += 1;
    }
    None
}

impl GameState {
    /// The board's layout fits the window that it was computed for.
    pub open spec fn layout_wf(&self) -> bool {
        let (bw, bh) = locked_boundary(self.window_width as int, self.window_height as int);
        &&& self.boundary_width == bw
        &&& self.boundary_height == bh
        &&& self.scaled_snake_size == self.boundary_width / (GRID_COLS as u32)
        &&& self.offset_x == (self.window_width - self.boundary_width) / 2
        &&& self.offset_y == (self.window_height - self.boundary_height) / 2
    }

    /// The state's invariant. While a run is in progress the snake lies on
    /// the board and leaves at least one cell free, and the food lies on the
    /// board off the snake.
    pub open spec fn wf(&self) -> bool {
        &&& 1 <= self.snake_body@.len() <= GRID_CELLS
        &&& self.score < self.snake_body@.len()
        &&& self.mode == GameMode::Playing ==> {
            &&& self.snake_body@.len() < GRID_CELLS
            &&& forall|i: int|
                0 <= i < self.snake_body@.len() ==> in_grid(#[trigger] self.snake_body@[i].pos)
            &&& in_grid(self.food.pos)
            &&& !occupies(self.snake_body@, self.food.pos)
        }
        &&& MIN_MOVE_TIME <= self.move_time <= SPECIAL_START_MOVE_TIME
        &&& self.music_volume <= MAX_MUSIC_VOLUME
        &&& self.layout_wf()
    }

    /// The head of the snake.
    pub open spec fn head(&self) -> Position {
        self.snake_body@[0].pos
    }

    /// The board for a window of the given size, as (width, height).
    pub fn calculate_locked_boundary(window_width: u32, window_height: u32) -> (r: (u32, u32))
        ensures
            r.0 == locked_boundary(window_width as int, window_height as int).0,
            r.1 == locked_boundary(window_width as int, window_height as int).1,
            r.0 <= window_width,
            r.1 <= window_height,
    {
        let w = window_width as u64;
        let h = window_height as u64;
        if w * ASPECT_HEIGHT > h * ASPECT_WIDTH {
            let bw = h * ASPECT_WIDTH / ASPECT_HEIGHT;
            assert(bw <= w) by (nonlinear_arith)
                requires
                    bw == h * 4 / 3,
                    w * 3 > h * 4,
            ;
            (bw as u32, window_height)
        } else {
            let bh = w * ASPECT_HEIGHT / ASPECT_WIDTH;
            assert(bh <= h) by (nonlinear_arith)
                requires
                    bh == w * 3 / 4,
                    w * 3 <= h * 4,
            ;
            (window_width, bh as u32)
        }
    }

    /// Fits the board to a window of the given size.
    pub fn handle_resize(&mut self, window_width: u32, window_height: u32)
        ensures
            final(self).layout_wf(),
            final(self).window_width == window_width,
            final(self).window_height == window_height,
            *final(self) == (GameState {
                window_width: final(self).window_width,
                window_height: final(self).window_height,
                boundary_width: final(self).boundary_width,
                boundary_height: final(self).boundary_height,
                scaled_snake_size: final(self).scaled_snake_size,
                offset_x: final(self).offset_x,
                offset_y: final(self).offset_y,
                ..*old(self)
            }),
    {
        let (boundary_width, boundary_height) = GameState::calculate_locked_boundary(
            window_width,
            window_height,
        );
        self.window_width = window_width;
        self.window_height = window_height;
        self.boundary_width = boundary_width;
        self.boundary_height = boundary_height;
        self.scaled_snake_size = boundary_width / (GRID_COLS as u32);
        self.offset_x = (window_width - boundary_width) / 2;
        self.offset_y = (window_height - boundary_height) / 2;
    }

    /// A cell of the board drawn at random.
    pub fn get_random_food_position() -> (r: Position)
        ensures
            in_grid(r),
    {
        let x = random_below(GRID_COLS as u32);
        let y = random_below(GRID_ROWS as u32);
        Position { x: x as i32, y: y as i32 }
    }
}


impl GameState {
    /// A game in the menu, with the board fitted to the window, the snake on
    /// its start cell and the default difficulty.
    pub fn new(window_width: u32, window_height: u32) -> (r: GameState)
        ensures
            r.wf(),
            r.mode == GameMode::Menu,
            r.window_width == window_width,
            r.window_height == window_height,
            r.snake_body@ == seq![SnakeSegment { pos: start_position() }],
            in_grid(r.food.pos),
            r.food.pos != start_position(),
            r.velocity == Direction::Right,
            r.next_velocity is None,
            r.last_update == 0,
            r.score == 0,
            r.high_score == 0,
            r.difficulty == Difficulty::Normal,
            r.move_time == NORMAL_MOVE_TIME,
            r.music_volume == INITIAL_MUSIC_VOLUME,
            r.music_speed == NORMAL_MUSIC_SPEED,
    {
        let mut s = GameState {
            snake_body: vec![SnakeSegment { pos: Position { x: START_COL, y: START_ROW } }],
            food: Food { pos: Position { x: 0, y: 0 } },
            velocity: Direction::Right,
            last_update: 0,
            score: 0,
            high_score: 0,
            mode: GameMode::Menu,
            window_width: 0,
            window_height: 0,
            boundary_width: 0,
            boundary_height: 0,
            scaled_snake_size: 0,
            offset_x: 0,
            offset_y: 0,
            difficulty: Difficulty::Normal,
            move_time: NORMAL_MOVE_TIME,
            next_velocity: None,
            music_volume: INITIAL_MUSIC_VOLUME,
            music_speed: NORMAL_MUSIC_SPEED,
        };
        s.handle_resize(window_width, window_height);
        s.reset_game_state();
        s
    }

    /// Starts a run afresh: one segment on the start cell, new food, heading
    /// right, no score, and the interval and music speed of the difficulty.
    pub fn reset_game_state(&mut self)
        requires
            old(self).layout_wf(),
            old(self).music_volume <= MAX_MUSIC_VOLUME,
        ensures
            final(self).wf(),
            fresh_run(*old(self), *final(self)),
    {
        let start = Position { x: START_COL, y: START_ROW };
        self.snake_body = vec![SnakeSegment { pos: start }];
        let corner = Position { x: 0, y: 0 };
        assert(in_grid(corner) && !occupies(self.snake_body@, corner));
        assert(has_free_cell(self.snake_body@));
        match find_food_position(&self.snake_body) {
            Some(p) => {
                assert(self.snake_body@[0].pos != p);
                self.food = Food { pos: p };
            },
            None => {},
        }
        self.velocity = Direction::Right;
        self.next_velocity = None;
        self.score = 0;
        self.move_time = match self.difficulty {
            Difficulty::Easy => EASY_MOVE_TIME,
            Difficulty::Normal => NORMAL_MOVE_TIME,
            Difficulty::Hard => HARD_MOVE_TIME,
            Difficulty::Special => SPECIAL_START_MOVE_TIME,
        };
        self.music_speed = match self.difficulty {
            Difficulty::Easy => EASY_MUSIC_SPEED,
            Difficulty::Normal => NORMAL_MUSIC_SPEED,
            Difficulty::Hard => HARD_MUSIC_SPEED,
            Difficulty::Special => NORMAL_MUSIC_SPEED,
        };
        assert(self.snake_body@ == seq![SnakeSegment { pos: start_position() }]);
    }

    /// The head has left the board.
    pub fn check_border_collisions(&self) -> (r: bool)
        requires
            self.snake_body@.len() >= 1,
        ensures
            r == out_of_bounds(self.head()),
    {
        let head = self.snake_body[0].pos;
        let x = head.x as i64;
        let y = head.y as i64;
        x < 0 || y < 0 || x + 1 > GRID_COLS as i64 || y + 1 > GRID_ROWS as i64
    }

    /// Where a cell appears in the window, in pixels.
    pub fn scaled_rect(&self, pos: Position) -> (r: PixelRect)
        requires
            self.layout_wf(),
        ensures
            r.x == self.offset_x + pos.x * self.scaled_snake_size,
            r.y == self.offset_y + pos.y * self.scaled_snake_size,
            r.w == self.scaled_snake_size,
            r.h == self.scaled_snake_size,
    {
        let cell = self.scaled_snake_size as i64;
        let px = pos.x as i64;
        let py = pos.y as i64;
        let ghost bw = self.boundary_width as int;
        assert(bw / 28 < 0x1000_0000) by (nonlinear_arith)
            requires
                0 <= bw <= u32::MAX,
        ;
        assert(-0x8000_0000 * 0x1000_0000 <= px * cell <= 0x8000_0000 * 0x1000_0000)
            by (nonlinear_arith)
            requires
                0 <= cell < 0x1000_0000,
                -0x8000_0000 <= px < 0x8000_0000,
        ;
        assert(-0x8000_0000 * 0x1000_0000 <= py * cell <= 0x8000_0000 * 0x1000_0000)
            by (nonlinear_arith)
            requires
                0 <= cell < 0x1000_0000,
                -0x8000_0000 <= py < 0x8000_0000,
        ;
        PixelRect {
            x: self.offset_x as i64 + px * cell,
            y: self.offset_y as i64 + py * cell,
            w: cell,
            h: cell,
        }
    }

    /// Where the board appears in the window, in pixels.
    pub fn border_rect(&self) -> (r: PixelRect)
        ensures
            r.x == self.offset_x,
            r.y == self.offset_y,
            r.w == self.boundary_width,
            r.h == self.boundary_height,
    {
        PixelRect {
            x: self.offset_x as i64,
            y: self.offset_y as i64,
            w: self.boundary_width as i64,
            h: self.boundary_height as i64,
        }
    }
}

} // verus!
