//! Obstacles: a wall column with a gap, its generation from the score, its
//! drawing and the collision test against the player.
use vstd::prelude::*;
use vstd::assert_seqs_equal;

use bracket_lib::prelude::RandomNumberGenerator;

use crate::command::{Color, Command};
use crate::player::Player;
use crate::SCREEN_HEIGHT;

verus! {

/// Lowest row that a gap can be centred on.
pub const GAP_MIN: i32 = 10;

/// Bound above the rows that a gap can be centred on.
pub const GAP_END: i32 = 40;

/// Gap height for a score of zero; each point takes one row off.
pub const START_SIZE: i32 = 20;

/// Smallest gap height.
pub const MIN_SIZE: i32 = 3;

/// Character of a wall cell.
pub const WALL_GLYPH: char = '|';

#[verifier::external_type_specification]
#[verifier::external_body]
pub struct ExRandomNumberGenerator(RandomNumberGenerator);

/// Relies on bracket_lib's `RandomNumberGenerator::new`: a generator seeded from
/// the operating system's entropy (or, failing that, the clock).
pub assume_specification[ RandomNumberGenerator::new ]() -> RandomNumberGenerator;

/// Relies on bracket_lib's `RandomNumberGenerator::range`, which is rand's
/// `gen_range(min..max)`: a value at least `min` and below `max`; it panics
/// when the range is empty.
#[verifier::external_body]
fn random_range(rng: &mut RandomNumberGenerator, min: i32, max: i32) -> (r: i32)
    requires
        min < max,
    ensures
        min <= r < max,
{
    rng.range(min, max)
}

/// A row drawn at random from the range that gaps are centred on.
pub fn random_gap_row() -> (r: i32)
    ensures
        GAP_MIN <= r < GAP_END,
{
    let mut random = RandomNumberGenerator::new();
    random_range(&mut random, GAP_MIN, GAP_END)
}

/// A wall column at world column `x` with a gap of `size` rows centred on
/// row `gap_y`.
pub struct Obstacle {
    pub x: i32,
    pub gap_y: i32,
    pub size: i32,
}

/// Gap height at a given score: one row less per point, never under the minimum.
pub open spec fn gap_size(score: int) -> int {
    if START_SIZE - score > MIN_SIZE { START_SIZE - score } else { MIN_SIZE as int }
}

/// The gap height is never below the minimum, and from a score of seventeen on
/// it is the minimum.
pub proof fn lemma_gap_size_floor(score: int)
    requires
        score >= 0,
    ensures
        MIN_SIZE <= gap_size(score) <= START_SIZE,
        score >= START_SIZE - MIN_SIZE ==> gap_size(score) == MIN_SIZE,
{
}

/// Wall cells in column `col` for rows `from` up to `to`, top first.
pub open spec fn wall_cells(col: i32, from: int, to: int) -> Seq<Command> {
    Seq::new(
        if from < to { (to - from) as nat } else { 0 },
        |i: int| Command::Cell { col, row: (from + i) as i32, fg: Color::Red, bg: Color::Black, glyph: WALL_GLYPH },
    )
}

/// What drawing the obstacle emits: the wall above the gap, then below it, in
/// the column at its offset from the player.
pub open spec fn obstacle_drawing(o: Obstacle, player_x: int) -> Seq<Command> {
    let col = (o.x - player_x) as i32;
    let half = o.size / 2;
    wall_cells(col, 0, o.gap_y - half) + wall_cells(col, o.gap_y + half, SCREEN_HEIGHT as int)
}

/// Whether a player at world column `px` and `py` tenths of a row hits an
/// obstacle: same column, and strictly above or below the gap.
pub open spec fn hits(o: Obstacle, px: int, py: int) -> bool {
    let half = o.size / 2;
    &&& px == o.x
    &&& (py < 10 * (o.gap_y - half) || 10 * (o.gap_y + half) < py)
}

/// Appends the wall cells of column `col` for rows `from` up to `to`.
fn push_wall(out: &mut Vec<Command>, col: i32, from: i32, to: i32)
    ensures
        final(out)@ == old(out)@ + wall_cells(col, from as int, to as int),
{
    let ghost start = out@;
    let mut row: i32 = from;
    while row < to
        invariant
            from <= to ==> from <= row <= to,
            from > to ==> row == from,
            out@ == start + wall_cells(col, from as int, if from < row { row as int } else { from as int }),
        decreases to - row,
    {
        out.push(Command::Cell { col, row, fg: Color::Red, bg: Color::Black, glyph: WALL_GLYPH });
        row = row + 1;
        proof {
            assert_seqs_equal!(out@, start + wall_cells(col, from as int, row as int));
        }
    }
    proof {
        assert_seqs_equal!(out@, start + wall_cells(col, from as int, to as int));
    }
}

impl Obstacle {
    /// The gap is centred in its range and no smaller than the minimum.
    pub open spec fn wf(&self) -> bool {
        &&& GAP_MIN <= self.gap_y < GAP_END
        &&& MIN_SIZE <= self.size <= START_SIZE
    }

    /// The obstacle at world column `x` for `score`, with its gap centred on
    /// the drawn row `gap_y`.
    pub fn generate(x: i32, score: i32, gap_y: i32) -> (r: Obstacle)
        requires
            score >= 0,
            GAP_MIN <= gap_y < GAP_END,
        ensures
            r.wf(),
            r.x == x,
            r.gap_y == gap_y,
            r.size == gap_size(score as int),
    {
        let size = if score < START_SIZE - MIN_SIZE { START_SIZE - score } else { MIN_SIZE };
        Obstacle { x, gap_y, size }
    }

    /// A new obstacle at world column `x` for `score`, its gap centred on a
    /// random row of the gap range.
    pub fn new(x: i32, score: i32) -> (r: Obstacle)
        requires
            score >= 0,
        ensures
            r.wf(),
            r.x == x,
            r.size == gap_size(score as int),
    {
        Obstacle::generate(x, score, random_gap_row())
    }

    /// The drawing of the obstacle, seen from a player at world column `player_x`.
    pub fn render(&self, player_x: i32) -> (r: Vec<Command>)
        requires
            self.wf(),
            i32::MIN <= self.x - player_x <= i32::MAX,
        ensures
            r@ == obstacle_drawing(*self, player_x as int),
    {
        let screen_x = self.x - player_x;
        let half_size = self.size / 2;
        let mut r: Vec<Command> = Vec::new();
        push_wall(&mut r, screen_x, 0, self.gap_y - half_size);
        push_wall(&mut r, screen_x, self.gap_y + half_size, SCREEN_HEIGHT);
        r
    }

    /// Whether the player hits this obstacle.
    pub fn hit_obstacle(&self, player: &Player) -> (r: bool)
        requires
            self.wf(),
        ensures
            r == hits(*self, player.x as int, player.y_tenths as int),
    {
        let half_size = self.size / 2;
        let x_matches = player.x == self.x;
        let above_gap = player.y_tenths < 10 * ((self.gap_y - half_size) as i64);
        let below_gap = 10 * ((self.gap_y + half_size) as i64) < player.y_tenths;
        x_matches && (above_gap || below_gap)
    }
}

} // verus!
