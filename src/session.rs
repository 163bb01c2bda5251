//! The game session: a state machine over the menu, play and end screens,
//! advanced once per frame of the host loop.
use vstd::prelude::*;

use crate::command::{Color, Command, Text};
use crate::obstacle::{
    gap_size, hits, obstacle_drawing, random_gap_row, Obstacle, GAP_END, GAP_MIN,
};
use crate::player::{advanced, flapped, player_drawing, Player, FALL_CAP, GRAVITY};
use crate::{SCREEN_HEIGHT, SCREEN_WIDTH};

verus! {

/// Time that must pass, strictly exceeded, before a physics step, in microseconds.
pub const FRAME_DURATION_US: u64 = 50_000;

/// Column the player starts in.
pub const START_X: i32 = 5;

/// Row the player starts in.
pub const START_Y: i32 = 25;

/// A key that the host reports as pressed during a frame.
#[derive(Clone, Copy, Debug, PartialEq, Eq, Structural)]
pub enum Key {
    Space,
    P,
    Q,
    Other,
}

/// The screen that the session is on.
#[derive(Clone, Copy, Debug, PartialEq, Eq, Structural)]
pub enum GameMode {
    Menu,
    Playing,
    End,
}

/// A game session.
pub struct State {
    pub player: Player,
    /// Time gathered since the last physics step, in microseconds.
    pub frame_time_us: u64,
    pub obstacle: Obstacle,
    pub mode: GameMode,
    pub score: i32,
}

/// The player as a session starts it.
pub open spec fn start_player() -> Player {
    Player { x: START_X, y_tenths: (10 * START_Y) as i64, velocity_tenths: 0, frame: 0 }
}

/// A session that has just started play, with its gap centred on `gap_y`.
pub open spec fn restarted(gap_y: i32) -> State {
    State {
        player: start_player(),
        frame_time_us: 0,
        obstacle: Obstacle { x: SCREEN_WIDTH, gap_y, size: gap_size(0) as i32 },
        mode: GameMode::Playing,
        score: 0,
    }
}

/// Whether a frame of `elapsed_us` brings the gathered time past a physics step.
pub open spec fn steps(s: State, elapsed_us: u32) -> bool {
    s.frame_time_us + elapsed_us > FRAME_DURATION_US
}

/// The player during a frame of play: moved if a physics step is due, then
/// flapped if space was pressed.
pub open spec fn played_player(s: State, elapsed_us: u32, key: Option<Key>) -> Player {
    let moved = if steps(s, elapsed_us) { advanced(s.player) } else { s.player };
    if key == Some(Key::Space) { flapped(moved) } else { moved }
}

/// Whether the player has gone past the obstacle.
pub open spec fn passed(o: Obstacle, p: Player) -> bool {
    o.x < p.x
}

/// The score after the obstacle check.
pub open spec fn score_after(score: int, o: Obstacle, p: Player) -> int {
    if passed(o, p) { score + 1 } else { score }
}

/// The obstacle after the check: once passed, a new one a screen ahead of the
/// player, sized for the new score, its gap centred on `gap_y`.
pub open spec fn obstacle_after(score: int, o: Obstacle, p: Player, gap_y: i32) -> Obstacle {
    if passed(o, p) {
        Obstacle { x: (p.x + SCREEN_WIDTH) as i32, gap_y, size: gap_size(score + 1) as i32 }
    } else {
        o
    }
}

/// Whether the player has fallen below the screen or hit the obstacle.
pub open spec fn is_over(o: Obstacle, p: Player) -> bool {
    10 * SCREEN_HEIGHT < p.y_tenths || hits(o, p.x as int, p.y_tenths as int)
}

/// The session after a frame of play.
pub open spec fn played(s: State, elapsed_us: u32, key: Option<Key>, gap_y: i32) -> State {
    let p = played_player(s, elapsed_us, key);
    let o = obstacle_after(s.score as int, s.obstacle, p, gap_y);
    State {
        player: p,
        frame_time_us: if steps(s, elapsed_us) { 0 } else { (s.frame_time_us + elapsed_us) as u64 },
        obstacle: o,
        mode: if is_over(o, p) { GameMode::End } else { GameMode::Playing },
        score: score_after(s.score as int, s.obstacle, p) as i32,
    }
}

/// What a frame of play draws: the background, the player, the hint and
/// score lines, and the obstacle as it stood before the check.
pub open spec fn play_drawing(s: State, elapsed_us: u32, key: Option<Key>) -> Seq<Command> {
    let p = played_player(s, elapsed_us, key);
    seq![Command::ClearTo { bg: Color::Navy }] + player_drawing(p) + seq![
        Command::Print { col: 0, row: 0, text: Text::FlapHint },
        Command::Print { col: 0, row: 1, text: Text::Score { score: s.score } },
    ] + obstacle_drawing(s.obstacle, p.x as int)
}

/// What the menu screen draws.
pub open spec fn menu_drawing() -> Seq<Command> {
    seq![
        Command::Clear,
        Command::PrintCentered { row: 5, text: Text::Welcome },
        Command::PrintCentered { row: 8, text: Text::PlayGame },
        Command::PrintCentered { row: 9, text: Text::QuitGame },
    ]
}

/// What the end screen draws for a final score.
pub open spec fn end_drawing(score: i32) -> Seq<Command> {
    seq![
        Command::Clear,
        Command::PrintCentered { row: 5, text: Text::Failed },
        Command::PrintCentered { row: 6, text: Text::Earned { score } },
        Command::PrintCentered { row: 8, text: Text::PlayAgain },
        Command::PrintCentered { row: 9, text: Text::QuitAgain },
    ]
}

/// The session after a frame on the menu or end screen: P starts play, any
/// other key leaves it as it was.
pub open spec fn chosen(s: State, key: Option<Key>, gap_y: i32) -> State {
    if key == Some(Key::P) { restarted(gap_y) } else { s }
}

/// What a frame on the menu or end screen sends after its drawing: Q quits.
pub open spec fn choice_commands(key: Option<Key>) -> Seq<Command> {
    if key == Some(Key::Q) { seq![Command::Quit] } else { seq![] }
}

/// The session after one frame, with a new gap centred on `gap_y` where one
/// is made.
pub open spec fn next_state(s: State, elapsed_us: u32, key: Option<Key>, gap_y: i32) -> State {
    match s.mode {
        GameMode::Menu => chosen(s, key, gap_y),
        GameMode::End => chosen(s, key, gap_y),
        GameMode::Playing => played(s, elapsed_us, key, gap_y),
    }
}

/// The commands of one frame.
pub open spec fn frame_commands(s: State, elapsed_us: u32, key: Option<Key>) -> Seq<Command> {
    match s.mode {
        GameMode::Menu => menu_drawing() + choice_commands(key),
        GameMode::End => end_drawing(s.score) + choice_commands(key),
        GameMode::Playing => play_drawing(s, elapsed_us, key),
    }
}

/// During play without a flap, a frame never slows the fall: the speed does
/// not drop and stays at most the cap plus one gain, and once the player moves
/// downward its row does not rise, and grows on a physics step.
pub proof fn lemma_fall_without_flap(s: State, elapsed_us: u32, key: Option<Key>, gap_y: i32)
    requires
        s.wf(),
        s.mode == GameMode::Playing,
        key != Some(Key::Space),
    ensures
        ({
            let n = next_state(s, elapsed_us, key, gap_y).player;
            &&& s.player.velocity_tenths <= n.velocity_tenths <= FALL_CAP + GRAVITY
            &&& s.player.velocity_tenths > 0 ==> s.player.y_tenths <= n.y_tenths
            &&& s.player.velocity_tenths > 0 && steps(s, elapsed_us) ==> s.player.y_tenths
                < n.y_tenths
        }),
{
}

/// During play, a frame in which the player goes past the obstacle adds
/// exactly one point and puts a new obstacle a screen width ahead of the
/// player, sized for the new score; any other frame keeps score and obstacle.
pub proof fn lemma_passing_scores(s: State, elapsed_us: u32, key: Option<Key>, gap_y: i32)
    requires
        s.wf(),
        s.mode == GameMode::Playing,
        s.player.x < i32::MAX - SCREEN_WIDTH,
        s.score < i32::MAX,
    ensures
        ({
            let p = played_player(s, elapsed_us, key);
            let n = next_state(s, elapsed_us, key, gap_y);
            &&& s.obstacle.x < p.x ==> n.score == s.score + 1 && n.obstacle.x == p.x
                + SCREEN_WIDTH && n.obstacle.size == gap_size(s.score + 1)
            &&& s.obstacle.x >= p.x ==> n.score == s.score && n.obstacle == s.obstacle
        }),
{
}

impl State {
    /// Player and obstacle are well formed, the player is on screen while
    /// playing and at most one step below it otherwise, the obstacle is at
    /// most a screen ahead and not yet passed, and less than a physics step
    /// of time is gathered.
    pub open spec fn wf(&self) -> bool {
        &&& self.player.wf()
        &&& self.obstacle.wf()
        &&& self.score >= 0
        &&& self.player.y_tenths <= 10 * SCREEN_HEIGHT + FALL_CAP + GRAVITY
        &&& self.mode == GameMode::Playing ==> self.player.y_tenths <= 10 * SCREEN_HEIGHT
        &&& self.player.x <= self.obstacle.x <= self.player.x + SCREEN_WIDTH
        &&& self.frame_time_us <= FRAME_DURATION_US
    }

    /// A session on the menu screen.
    pub fn new() -> (r: State)
        ensures
            r.wf(),
            r.mode == GameMode::Menu,
            r.player == start_player(),
            r.frame_time_us == 0,
            r.score == 0,
            r.obstacle.x == SCREEN_HEIGHT,
            r.obstacle.size == gap_size(0),
    {
        State {
            player: Player::new(START_X, START_Y),
            frame_time_us: 0,
            obstacle: Obstacle::new(SCREEN_HEIGHT, 0),
            mode: GameMode::Menu,
            score: 0,
        }
    }

    /// Starts play afresh, with the first gap centred on `gap_y`.
    pub fn restart(&mut self, gap_y: i32)
        requires
            GAP_MIN <= gap_y < GAP_END,
        ensures
            final(self).wf(),
            *final(self) == restarted(gap_y),
    {
        self.player = Player::new(START_X, START_Y);
        self.frame_time_us = 0;
        self.obstacle = Obstacle::generate(SCREEN_WIDTH, 0, gap_y);
        self.mode = GameMode::Playing;
        self.score = 0;
    }

    /// The menu screen: P starts play with the first gap centred on `gap_y`,
    /// Q asks the host to quit.
    pub fn main_menu(&mut self, key: Option<Key>, gap_y: i32) -> (r: Vec<Command>)
        requires
            old(self).wf(),
            GAP_MIN <= gap_y < GAP_END,
        ensures
            final(self).wf(),
            *final(self) == chosen(*old(self), key, gap_y),
            r@ == menu_drawing() + choice_commands(key),
    {
        let mut r: Vec<Command> = vec![
            Command::Clear,
            Command::PrintCentered { row: 5, text: Text::Welcome },
            Command::PrintCentered { row: 8, text: Text::PlayGame },
            Command::PrintCentered { row: 9, text: Text::QuitGame },
        ];
        self.on_choice(key, gap_y, &mut r);
        r
    }

    /// The end screen with the final score: P plays again with the first gap
    /// centred on `gap_y`, Q asks the host to quit.
    pub fn dead(&mut self, key: Option<Key>, gap_y: i32) -> (r: Vec<Command>)
        requires
            old(self).wf(),
            GAP_MIN <= gap_y < GAP_END,
        ensures
            final(self).wf(),
            *final(self) == chosen(*old(self), key, gap_y),
            r@ == end_drawing(old(self).score) + choice_commands(key),
    {
        let mut r: Vec<Command> = vec![
            Command::Clear,
            Command::PrintCentered { row: 5, text: Text::Failed },
            Command::PrintCentered { row: 6, text: Text::Earned { score: self.score } },
            Command::PrintCentered { row: 8, text: Text::PlayAgain },
            Command::PrintCentered { row: 9, text: Text::QuitAgain },
        ];
        self.on_choice(key, gap_y, &mut r);
        r
    }

    /// Acts on the key pressed on the menu or end screen.
    fn on_choice(&mut self, key: Option<Key>, gap_y: i32, out: &mut Vec<Command>)
        requires
            old(self).wf(),
            GAP_MIN <= gap_y < GAP_END,
        ensures
            final(self).wf(),
            *final(self) == chosen(*old(self), key, gap_y),
            final(out)@ == old(out)@ + choice_commands(key),
    {
        match key {
            Some(Key::P) => self.restart(gap_y),
            Some(Key::Q) => out.push(Command::Quit),
            _ => {},
        }
        proof {
            assert(final(out)@ =~= old(out)@ + choice_commands(key)) by {
                if key != Some(Key::Q) {
                    assert(choice_commands(key) =~= Seq::<Command>::empty());
                }
            }
        }
    }

    /// Counts the obstacle once the player has gone past it and puts a new
    /// one, its gap centred on `gap_y`, a screen ahead of the player.
    pub fn pass_obstacle(&mut self, gap_y: i32)
        requires
            old(self).score >= 0,
            old(self).score < i32::MAX,
            old(self).player.x <= i32::MAX - SCREEN_WIDTH,
            GAP_MIN <= gap_y < GAP_END,
        ensures
            final(self).score == score_after(
                old(self).score as int,
                old(self).obstacle,
                old(self).player,
            ),
            final(self).obstacle == obstacle_after(
                old(self).score as int,
                old(self).obstacle,
                old(self).player,
                gap_y,
            ),
            final(self).player == old(self).player,
            final(self).mode == old(self).mode,
            final(self).frame_time_us == old(self).frame_time_us,
    {
        if self.obstacle.x < self.player.x {
            self.score = self.score + 1;
            self.obstacle = Obstacle::generate(self.player.x + SCREEN_WIDTH, self.score, gap_y);
        }
    }

    /// A frame of play: gathers `elapsed_us`, takes a physics step when one is
    /// due, flaps on space, draws, replaces a passed obstacle with one whose gap
    /// is centred on `gap_y`, and ends the game on a fall or a hit.
    pub fn play(&mut self, elapsed_us: u32, key: Option<Key>, gap_y: i32) -> (r: Vec<Command>)
        requires
            old(self).wf(),
            old(self).mode == GameMode::Playing,
            old(self).player.x < i32::MAX - SCREEN_WIDTH,
            old(self).score < i32::MAX,
            GAP_MIN <= gap_y < GAP_END,
        ensures
            final(self).wf(),
            *final(self) == played(*old(self), elapsed_us, key, gap_y),
            r@ == play_drawing(*old(self), elapsed_us, key),
    {
        let mut r: Vec<Command> = vec![Command::ClearTo { bg: Color::Navy }];
        self.frame_time_us = self.frame_time_us + elapsed_us as u64;
        if FRAME_DURATION_US < self.frame_time_us {
            self.frame_time_us = 0;
            self.player.gravity_and_move();
        }
        if let Some(Key::Space) = key {
            self.player.flap();
        }
        let mut sprite = self.player.render();
        r.append(&mut sprite);
        r.push(Command::Print { col: 0, row: 0, text: Text::FlapHint });
        r.push(Command::Print { col: 0, row: 1, text: Text::Score { score: self.score } });
        let mut walls = self.obstacle.render(self.player.x);
        r.append(&mut walls);
        self.pass_obstacle(gap_y);
        if 10 * (SCREEN_HEIGHT as i64) < self.player.y_tenths || self.obstacle.hit_obstacle(&self.player) {
            self.mode = GameMode::End;
        }
        proof {
            assert(r@ =~= play_drawing(*old(self), elapsed_us, key));
        }
        r
    }

    /// One frame of the host loop, with a new gap centred on `gap_y` where a
    /// new obstacle is made.
    pub fn step(&mut self, elapsed_us: u32, key: Option<Key>, gap_y: i32) -> (r: Vec<Command>)
        requires
            old(self).wf(),
            old(self).player.x < i32::MAX - SCREEN_WIDTH,
            old(self).score < i32::MAX,
            GAP_MIN <= gap_y < GAP_END,
        ensures
            final(self).wf(),
            *final(self) == next_state(*old(self), elapsed_us, key, gap_y),
            r@ == frame_commands(*old(self), elapsed_us, key),
    {
        match self.mode {
            GameMode::Menu => self.main_menu(key, gap_y),
            GameMode::End => self.dead(key, gap_y),
            GameMode::Playing => self.play(elapsed_us, key, gap_y),
        }
    }

    /// One frame of the host loop, with `elapsed_us` microseconds since the
    /// last and the key pressed during it, if any; a new obstacle gets its gap
    /// centred on a random row.
    pub fn tick(&mut self, elapsed_us: u32, key: Option<Key>) -> (r: Vec<Command>)
        requires
            old(self).wf(),
            old(self).player.x < i32::MAX - SCREEN_WIDTH,
            old(self).score < i32::MAX,
        ensures
            final(self).wf(),
            exists|g: i32|
                GAP_MIN <= g < GAP_END && *final(self) == next_state(
                    *old(self),
                    elapsed_us,
                    key,
                    g,
                ),
            r@ == frame_commands(*old(self), elapsed_us, key),
    {
        let gap_y = random_gap_row();
        self.step(elapsed_us, key, gap_y)
    }
}

} // verus!
