//! Commands that the game emits and the host carries out: drawing, and quitting.
use vstd::prelude::*;

verus! {

/// A colour of the game's fixed palette.
#[derive(Clone, Copy, Debug, PartialEq, Eq, Structural)]
pub enum Color {
    Navy,
    White,
    Red,
    Black,
}

/// A line of text shown by the game; the host decides its wording.
#[derive(Clone, Copy, Debug, PartialEq, Eq, Structural)]
pub enum Text {
    Welcome,
    PlayGame,
    QuitGame,
    Failed,
    Earned { score: i32 },
    PlayAgain,
    QuitAgain,
    FlapHint,
    Score { score: i32 },
}

/// One primitive of the host: a drawing call, or the request to quit.
#[derive(Clone, Copy, Debug, PartialEq, Eq, Structural)]
pub enum Command {
    /// Make console `index` the target of the following commands.
    ActiveConsole { index: u8 },
    /// Clear the active console.
    Clear,
    /// Clear the active console to a background colour.
    ClearTo { bg: Color },
    /// Print `text` starting at a cell.
    Print { col: i32, row: i32, text: Text },
    /// Print `text` centred on a row.
    PrintCentered { row: i32, text: Text },
    /// Draw image `frame_id` of the sprite sheet, doubled in size and unrotated,
    /// at the left margin and at `y_tenths` tenths of a row.
    Sprite { y_tenths: i64, fg: Color, bg: Color, frame_id: u16 },
    /// Set one cell to a character; out-of-range cells are the host's to clip.
    Cell { col: i32, row: i32, fg: Color, bg: Color, glyph: char },
    /// Ask the host to end the program.
    Quit,
}

} // verus!
