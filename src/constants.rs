use vstd::prelude::*;

verus! {

/// Width of the reference layout, in pixels.
pub const REFERENCE_WIDTH: u32 = 1400;

/// Height of the reference layout, in pixels.
pub const REFERENCE_HEIGHT: u32 = 1050;

/// Edge of one grid cell in the reference layout, in pixels.
pub const REFERENCE_SNAKE_SIZE: u32 = 50;

/// The board keeps the 4:3 shape of the reference layout.
pub const ASPECT_WIDTH: u64 = 4;

pub const ASPECT_HEIGHT: u64 = 3;

/// Columns of the board: the reference width over the reference cell size.
pub const GRID_COLS: i32 = 28;

/// Rows of the board: the reference height over the reference cell size.
pub const GRID_ROWS: i32 = 21;

/// Cells on the board.
pub const GRID_CELLS: usize = 588;

/// The cell where every run starts: a quarter of the way into the board,
/// rounded down.
pub const START_COL: i32 = 7;

pub const START_ROW: i32 = 5;

// Tick intervals, in microseconds.
pub const EASY_MOVE_TIME: u64 = 120_000;

pub const NORMAL_MOVE_TIME: u64 = 80_000;

pub const HARD_MOVE_TIME: u64 = 65_000;

/// Special difficulty starts slow and speeds up with every meal.
pub const SPECIAL_START_MOVE_TIME: u64 = 150_000;

/// Each meal in Special difficulty scales the interval by 95/100.
pub const SPEED_UP_NUMERATOR: u64 = 95;

pub const SPEED_UP_DENOMINATOR: u64 = 100;

/// The interval never drops below this floor.
pub const MIN_MOVE_TIME: u64 = 30_000;

// Volume, in tenths of full volume.
pub const INITIAL_MUSIC_VOLUME: u32 = 8;

pub const MAX_MUSIC_VOLUME: u32 = 10;

// Music playback speed, in percent of normal speed.
pub const EASY_MUSIC_SPEED: u32 = 80;

pub const NORMAL_MUSIC_SPEED: u32 = 100;

pub const HARD_MUSIC_SPEED: u32 = 120;

/// Random draws made for a new food cell before the board is scanned in order.
pub const FOOD_PLACEMENT_TRIES: u32 = 64;

} // verus!
