//! The player: world position, vertical motion and animation frame.
use vstd::prelude::*;
use vstd::assert_seqs_equal;

use crate::command::{Color, Command};

verus! {

/// Number of frames in the player's animation cycle.
pub const ANIMATION_FRAMES: usize = 6;

/// Velocity gain per physics step, in tenths of a row per step.
pub const GRAVITY: i64 = 1;

/// Velocity below which gravity still accelerates the player, in tenths.
pub const FALL_CAP: i64 = 20;

/// Velocity set by a flap, in tenths of a row per step.
pub const FLAP_VELOCITY: i64 = -10;

/// The player. Vertical quantities are fixed point, in tenths of a row.
pub struct Player {
    /// Horizontal distance travelled, in columns.
    pub x: i32,
    /// Row, in tenths of a row; 0 is the top and it grows downward.
    pub y_tenths: i64,
    /// Vertical speed, in tenths of a row per physics step.
    pub velocity_tenths: i64,
    /// Index into the animation cycle.
    pub frame: usize,
}

/// Velocity after one step of gravity.
pub open spec fn next_velocity(v: int) -> int {
    if v < FALL_CAP { v + GRAVITY } else { v }
}

/// Row after moving by `v`, held at the top of the screen.
pub open spec fn next_y(y: int, v: int) -> int {
    if y + v < 0 { 0 } else { y + v }
}

/// Sprite glyph shown for each frame of the animation cycle.
pub open spec fn frame_glyph(frame: int) -> u16 {
    if frame == 0 {
        64
    } else if frame == 1 || frame == 5 {
        1
    } else if frame == 2 || frame == 4 {
        2
    } else {
        3
    }
}

/// What drawing the player emits: the sprite on its own console.
pub open spec fn player_drawing(p: Player) -> Seq<Command> {
    seq![
        Command::ActiveConsole { index: 1 },
        Command::Clear,
        Command::Sprite {
            y_tenths: p.y_tenths,
            fg: Color::White,
            bg: Color::Navy,
            frame_id: frame_glyph(p.frame as int),
        },
        Command::ActiveConsole { index: 0 },
    ]
}

fn dragon_glyph(frame: usize) -> (r: u16)
    requires
        frame < ANIMATION_FRAMES,
    ensures
        r == frame_glyph(frame as int),
{
    match frame {
        0 => 64,
        1 | 5 => 1,
        2 | 4 => 2,
        _ => 3,
    }
}

/// The player after one physics step.
pub open spec fn advanced(p: Player) -> Player {
    let v = next_velocity(p.velocity_tenths as int);
    Player {
        x: (p.x + 1) as i32,
        y_tenths: next_y(p.y_tenths as int, v) as i64,
        velocity_tenths: v as i64,
        frame: ((p.frame + 1) % (ANIMATION_FRAMES as int)) as usize,
    }
}

/// The player after a flap.
pub open spec fn flapped(p: Player) -> Player {
    Player { velocity_tenths: FLAP_VELOCITY, ..p }
}

/// The player after `n` physics steps.
pub open spec fn advanced_n(p: Player, n: nat) -> Player
    decreases n,
{
    if n == 0 { p } else { advanced(advanced_n(p, (n - 1) as nat)) }
}

/// Physics steps keep the player below the top and within the speed range,
/// and, with room left for the row to grow, never slow the player's fall:
/// the speed does not drop and stays at most the cap plus one gain.
pub proof fn lemma_steps_keep_player(p: Player, n: nat)
    requires
        p.wf(),
        p.y_tenths + n * (FALL_CAP + GRAVITY) <= i64::MAX,
    ensures
        advanced_n(p, n).wf(),
        advanced_n(p, n).velocity_tenths >= p.velocity_tenths,
        advanced_n(p, n).velocity_tenths <= FALL_CAP + GRAVITY,
        advanced_n(p, n).y_tenths <= p.y_tenths + n * (FALL_CAP + GRAVITY),
    decreases n,
{
    if n > 0 {
        let m = (n - 1) as nat;
        assert(p.y_tenths + m * (FALL_CAP + GRAVITY) <= i64::MAX) by (nonlinear_arith)
            requires
                p.y_tenths + n * (FALL_CAP + GRAVITY) <= i64::MAX,
                m + 1 == n,
        ;
        lemma_steps_keep_player(p, m);
        assert(p.y_tenths + n * (FALL_CAP + GRAVITY) == p.y_tenths + m * (FALL_CAP + GRAVITY)
            + (FALL_CAP + GRAVITY)) by (nonlinear_arith)
            requires
                m + 1 == n,
        ;
    }
}

/// Once the player moves downward, each later physics step moves it further
/// down: the row after `m` steps is below the row after `k` steps for `k < m`.
pub proof fn lemma_falling_player_descends(p: Player, k: nat, m: nat)
    requires
        p.wf(),
        p.velocity_tenths > 0,
        k < m,
        p.y_tenths + m * (FALL_CAP + GRAVITY) <= i64::MAX,
    ensures
        advanced_n(p, k).y_tenths < advanced_n(p, m).y_tenths,
    decreases m,
{
    let j = (m - 1) as nat;
    assert(p.y_tenths + j * (FALL_CAP + GRAVITY) <= i64::MAX) by (nonlinear_arith)
        requires
            p.y_tenths + m * (FALL_CAP + GRAVITY) <= i64::MAX,
            j + 1 == m,
    ;
    lemma_steps_keep_player(p, j);
    lemma_steps_keep_player(p, m);
    let q = advanced_n(p, j);
    assert(advanced_n(p, m) == advanced(q));
    assert(p.y_tenths + j * (FALL_CAP + GRAVITY) + (FALL_CAP + GRAVITY) <= i64::MAX)
        by (nonlinear_arith)
        requires
            p.y_tenths + m * (FALL_CAP + GRAVITY) <= i64::MAX,
            j + 1 == m,
    ;
    assert(q.y_tenths < advanced(q).y_tenths);
    if k < j {
        lemma_falling_player_descends(p, k, j);
    }
}

impl Player {
    /// The player is below the top, moves no faster than gravity allows and
    /// shows a frame of the cycle.
    pub open spec fn wf(&self) -> bool {
        &&& self.y_tenths >= 0
        &&& FLAP_VELOCITY <= self.velocity_tenths <= FALL_CAP + GRAVITY
        &&& self.frame < ANIMATION_FRAMES
    }

    /// A player at rest at column `x` and row `y`, showing the first frame.
    pub fn new(x: i32, y: i32) -> (r: Player)
        requires
            y >= 0,
        ensures
            r.x == x,
            r.y_tenths == 10 * y,
            r.velocity_tenths == 0,
            r.frame == 0,
            r.wf(),
    {
        Player { x, y_tenths: 10 * (y as i64), velocity_tenths: 0, frame: 0 }
    }

    /// One physics step: gravity, then motion, then the next animation frame.
    pub fn gravity_and_move(&mut self)
        requires
            old(self).wf(),
            old(self).x < i32::MAX,
            old(self).y_tenths <= i64::MAX - (FALL_CAP + GRAVITY),
        ensures
            final(self).wf(),
            final(self).velocity_tenths == next_velocity(old(self).velocity_tenths as int),
            final(self).y_tenths == next_y(
                old(self).y_tenths as int,
                final(self).velocity_tenths as int,
            ),
            final(self).x == old(self).x + 1,
            final(self).frame == (old(self).frame + 1) % (ANIMATION_FRAMES as int),
            *final(self) == advanced(*old(self)),
    {
        if self.velocity_tenths < FALL_CAP {
            self.velocity_tenths = self.velocity_tenths + GRAVITY;
        }
        self.y_tenths = self.y_tenths + self.velocity_tenths;
        self.x = self.x + 1;
        self.frame = (self.frame + 1) % ANIMATION_FRAMES;
        if self.y_tenths < 0 {
            self.y_tenths = 0;
        }
    }

    /// The drawing of the player at the left margin of the screen.
    pub fn render(&self) -> (r: Vec<Command>)
        requires
            self.wf(),
        ensures
            r@ == player_drawing(*self),
    {
        let glyph = dragon_glyph(self.frame);
        let r = vec![
            Command::ActiveConsole { index: 1 },
            Command::Clear,
            Command::Sprite { y_tenths: self.y_tenths, fg: Color::White, bg: Color::Navy, frame_id: glyph },
            Command::ActiveConsole { index: 0 },
        ];
        proof {
            assert_seqs_equal!(r@, player_drawing(*self));
        }
        r
    }

    /// Sets the vertical speed to an upward flap, whatever it was.
    pub fn flap(&mut self)
        requires
            old(self).wf(),
        ensures
            final(self).wf(),
            final(self).velocity_tenths == FLAP_VELOCITY,
            final(self).x == old(self).x,
            final(self).y_tenths == old(self).y_tenths,
            final(self).frame == old(self).frame,
            *final(self) == flapped(*old(self)),
    {
        self.velocity_tenths = FLAP_VELOCITY;
    }
}

} // verus!
