use vstd::prelude::*;
use crate::constants::{GRID_COLS, GRID_ROWS};

verus! {

/// The top-level state of the game.
#[derive(Clone, Copy, Debug, PartialEq, Eq, Structural)]
pub enum GameMode {
    Menu,
    Playing,
}

/// Chosen in the menu; fixes the tick interval and the music speed of a run.
#[derive(Clone, Copy, Debug, PartialEq, Eq, Structural)]
pub enum Difficulty {
    Easy,
    Normal,
    Hard,
    Special,
}

/// A cell of the board, counted in cells from its top-left corner.
#[derive(Clone, Copy, Debug, PartialEq, Eq, Structural)]
pub struct Position {
    pub x: i32,
    pub y: i32,
}

#[derive(Clone, Copy, Debug, PartialEq, Eq, Structural)]
pub struct Food {
    pub pos: Position,
}

#[derive(Clone, Copy, Debug, PartialEq, Eq, Structural)]
pub struct SnakeSegment {
    pub pos: Position,
}

/// The direction of the snake's velocity: one cell per tick along one axis.
#[derive(Clone, Copy, Debug, PartialEq, Eq, Structural)]
pub enum Direction {
    Up,
    Down,
    Left,
    Right,
}

pub open spec fn in_grid(p: Position) -> bool {
    0 <= p.x < GRID_COLS && 0 <= p.y < GRID_ROWS
}

impl Direction {
    pub open spec fn opposite_spec(self) -> Direction {
        match self {
            Direction::Up => Direction::Down,
            Direction::Down => Direction::Up,
            Direction::Left => Direction::Right,
            Direction::Right => Direction::Left,
        }
    }

    /// Horizontal displacement of one tick, in cells.
    pub open spec fn dx(self) -> int {
        match self {
            Direction::Left => -1,
            Direction::Right => 1,
            _ => 0,
        }
    }

    /// Vertical displacement of one tick, in cells (the y axis points down).
    pub open spec fn dy(self) -> int {
        match self {
            Direction::Up => -1,
            Direction::Down => 1,
            _ => 0,
        }
    }

    pub fn opposite(self) -> (r: Direction)
        ensures
            r == self.opposite_spec(),
    {
        match self {
            Direction::Up => Direction::Down,
            Direction::Down => Direction::Up,
            Direction::Left => Direction::Right,
            Direction::Right => Direction::Left,
        }
    }
}

impl Position {
    pub open spec fn step_spec(self, d: Direction) -> Position {
        Position { x: (self.x + d.dx()) as i32, y: (self.y + d.dy()) as i32 }
    }

    /// The cell one tick away in direction `d`.
    pub fn step(self, d: Direction) -> (r: Position)
        requires
            i32::MIN < self.x < i32::MAX,
            i32::MIN < self.y < i32::MAX,
        ensures
            r == self.step_spec(d),
            r.x == self.x + d.dx(),
            r.y == self.y + d.dy(),
    {
        match d {
            Direction::Up => Position { x: self.x, y: self.y - 1 },
            Direction::Down => Position { x: self.x, y: self.y + 1 },
            Direction::Left => Position { x: self.x - 1, y: self.y },
            Direction::Right => Position { x: self.x + 1, y: self.y },
        }
    }
}

/// A key press, as far as the game tells keys apart.
#[derive(Clone, Copy, Debug, PartialEq, Eq, Structural)]
pub enum Key {
    Right,
    Left,
    Up,
    Down,
    Enter,
    Escape,
    Digit1,
    Digit2,
    Digit3,
    Digit4,
    VolumeUp,
    VolumeDown,
    Other,
}

impl Key {
    /// The direction a key asks for, if it is a direction key.
    pub open spec fn direction_spec(self) -> Option<Direction> {
        match self {
            Key::Right => Some(Direction::Right),
            Key::Left => Some(Direction::Left),
            Key::Up => Some(Direction::Up),
            Key::Down => Some(Direction::Down),
            _ => None,
        }
    }

    pub fn direction(self) -> (r: Option<Direction>)
        ensures
            r == self.direction_spec(),
    {
        match self {
            Key::Right => Some(Direction::Right),
            Key::Left => Some(Direction::Left),
            Key::Up => Some(Direction::Up),
            Key::Down => Some(Direction::Down),
            _ => None,
        }
    }

    /// The difficulty a menu key selects, if it is a digit key.
    pub open spec fn difficulty_spec(self) -> Option<Difficulty> {
        match self {
            Key::Digit1 => Some(Difficulty::Easy),
            Key::Digit2 => Some(Difficulty::Normal),
            Key::Digit3 => Some(Difficulty::Hard),
            Key::Digit4 => Some(Difficulty::Special),
            _ => None,
        }
    }

    pub fn difficulty(self) -> (r: Option<Difficulty>)
        ensures
            r == self.difficulty_spec(),
    {
        match self {
            Key::Digit1 => Some(Difficulty::Easy),
            Key::Digit2 => Some(Difficulty::Normal),
            Key::Digit3 => Some(Difficulty::Hard),
            Key::Digit4 => Some(Difficulty::Special),
            _ => None,
        }
    }
}

/// What a key press asks of the sound and the window.
#[derive(Clone, Copy, Debug, PartialEq, Eq, Structural)]
pub struct KeyResponse {
    /// The player asked to leave the program.
    pub quit: bool,
    /// The menu selection sound is to be played.
    pub menu_sound: bool,
    /// The volume changed and is to be applied to every sound.
    pub volume_changed: bool,
    /// A run was abandoned for the menu.
    pub left_game: bool,
}

/// What one tick of the simulation did.
#[derive(Clone, Copy, Debug, PartialEq, Eq, Structural)]
pub struct TickEvents {
    /// The head reached the food and the snake grew.
    pub ate: bool,
    /// The run ended: the snake hit itself or the border, or filled the board.
    pub game_over: bool,
}

/// What one frame's update did.
#[derive(Clone, Copy, Debug, PartialEq, Eq, Structural)]
pub struct FrameEvents {
    /// A tick fired in this frame.
    pub ticked: bool,
    pub ate: bool,
    pub game_over: bool,
}

/// The music track that belongs to the current state.
#[derive(Clone, Copy, Debug, PartialEq, Eq, Structural)]
pub enum Music {
    MenuTrack,
    GameTrack,
    SpecialTrack,
}

/// A rectangle in window pixels.
#[derive(Clone, Copy, Debug, PartialEq, Eq, Structural)]
pub struct PixelRect {
    pub x: i64,
    pub y: i64,
    pub w: i64,
    pub h: i64,
}

} // verus!
