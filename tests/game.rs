use flappy_dragon::command::{Color, Command, Text};
use flappy_dragon::obstacle::{random_gap_row, Obstacle};
use flappy_dragon::player::Player;
use flappy_dragon::session::{GameMode, Key, State};

fn playing_state(player: Player, obstacle: Obstacle) -> State {
    State { player, frame_time_us: 0, obstacle, mode: GameMode::Playing, score: 0 }
}

#[test]
fn new_player_is_at_rest() {
    let p = Player::new(5, 25);
    assert_eq!((p.x, p.y_tenths, p.velocity_tenths, p.frame), (5, 250, 0, 0));
}

#[test]
fn gravity_accelerates_and_moves() {
    let mut p = Player::new(5, 25);
    p.gravity_and_move();
    assert_eq!((p.x, p.y_tenths, p.velocity_tenths, p.frame), (6, 251, 1, 1));
    p.gravity_and_move();
    assert_eq!((p.x, p.y_tenths, p.velocity_tenths, p.frame), (7, 253, 2, 2));
}

#[test]
fn fall_speed_overshoots_cap_once_then_holds() {
    let mut p = Player { x: 0, y_tenths: 0, velocity_tenths: 19, frame: 0 };
    p.gravity_and_move();
    assert_eq!(p.velocity_tenths, 20);
    p.gravity_and_move();
    assert_eq!(p.velocity_tenths, 20);
    let mut q = Player { x: 0, y_tenths: 0, velocity_tenths: 20, frame: 0 };
    q.gravity_and_move();
    assert_eq!(q.velocity_tenths, 20);
}

#[test]
fn velocity_never_drops_without_flap() {
    let mut p = Player::new(5, 25);
    let mut last = p.velocity_tenths;
    let mut last_y = p.y_tenths;
    for _ in 0..100 {
        p.gravity_and_move();
        assert!(p.velocity_tenths >= last);
        assert!(p.velocity_tenths <= 21);
        assert!(p.y_tenths > last_y);
        last = p.velocity_tenths;
        last_y = p.y_tenths;
    }
    assert_eq!(p.velocity_tenths, 20);
}

#[test]
fn frame_cycles_through_six() {
    let mut p = Player::new(0, 10);
    for _ in 0..6 {
        p.gravity_and_move();
    }
    assert_eq!(p.frame, 0);
    p.gravity_and_move();
    assert_eq!(p.frame, 1);
}

#[test]
fn ceiling_clamps_row_to_zero() {
    let mut p = Player { x: 0, y_tenths: 5, velocity_tenths: -10, frame: 0 };
    p.gravity_and_move();
    assert_eq!(p.velocity_tenths, -9);
    assert_eq!(p.y_tenths, 0);
    for _ in 0..5 {
        p.flap();
        p.gravity_and_move();
        assert!(p.y_tenths >= 0);
    }
}

#[test]
fn flap_sets_upward_speed_whatever_it_was() {
    for v in [-10i64, -3, 0, 7, 20, 21] {
        let mut p = Player { x: 3, y_tenths: 120, velocity_tenths: v, frame: 4 };
        p.flap();
        assert_eq!((p.x, p.y_tenths, p.velocity_tenths, p.frame), (3, 120, -10, 4));
    }
}

#[test]
fn flap_then_step_from_start() {
    let mut p = Player::new(5, 25);
    p.flap();
    assert_eq!(p.velocity_tenths, -10);
    p.gravity_and_move();
    assert_eq!(p.velocity_tenths, -9);
    assert_eq!(p.y_tenths, 241);
}

#[test]
fn player_render_uses_frame_table() {
    let glyphs = [64u16, 1, 2, 3, 2, 1];
    for (frame, glyph) in glyphs.iter().enumerate() {
        let p = Player { x: 9, y_tenths: 73, velocity_tenths: 0, frame };
        let r = p.render();
        assert_eq!(
            r,
            vec![
                Command::ActiveConsole { index: 1 },
                Command::Clear,
                Command::Sprite { y_tenths: 73, fg: Color::White, bg: Color::Navy, frame_id: *glyph },
                Command::ActiveConsole { index: 0 },
            ]
        );
    }
}

#[test]
fn generate_sizes_gap_from_score() {
    let expected = [(0, 20), (1, 19), (10, 10), (16, 4), (17, 3), (18, 3), (1000, 3)];
    for (score, size) in expected {
        let o = Obstacle::generate(70, score, 25);
        assert_eq!((o.x, o.gap_y, o.size), (70, 25, size));
    }
}

#[test]
fn new_obstacle_draws_gap_in_range() {
    for score in 0..40 {
        let o = Obstacle::new(123, score);
        assert_eq!(o.x, 123);
        assert!(o.gap_y >= 10 && o.gap_y < 40);
        assert_eq!(o.size, std::cmp::max(3, 20 - score));
    }
    for _ in 0..200 {
        let g = random_gap_row();
        assert!((10..40).contains(&g));
    }
}

#[test]
fn hit_only_in_obstacle_column_outside_gap() {
    let o = Obstacle { x: 50, gap_y: 20, size: 10 };
    let at = |x: i32, y_tenths: i64| Player { x, y_tenths, velocity_tenths: 0, frame: 0 };
    assert!(o.hit_obstacle(&at(50, 50)));
    assert!(o.hit_obstacle(&at(50, 149)));
    assert!(!o.hit_obstacle(&at(50, 150)));
    assert!(!o.hit_obstacle(&at(50, 200)));
    assert!(!o.hit_obstacle(&at(50, 250)));
    assert!(o.hit_obstacle(&at(50, 251)));
    assert!(!o.hit_obstacle(&at(49, 50)));
    assert!(!o.hit_obstacle(&at(51, 300)));
}

#[test]
fn player_above_gap_hits_obstacle() {
    let p = Player { x: 50, y_tenths: 50, velocity_tenths: 0, frame: 0 };
    let o = Obstacle { x: 50, gap_y: 20, size: 10 };
    assert!(o.hit_obstacle(&p));
}

#[test]
fn obstacle_render_draws_walls_around_gap() {
    let o = Obstacle { x: 60, gap_y: 20, size: 5 };
    let r = o.render(55);
    let cell = |row: i32| Command::Cell { col: 5, row, fg: Color::Red, bg: Color::Black, glyph: '|' };
    let mut expected: Vec<Command> = (0..18).map(cell).collect();
    expected.extend((22..50).map(cell));
    assert_eq!(r, expected);
}

#[test]
fn passing_obstacle_scores_and_regenerates() {
    let mut s = playing_state(
        Player { x: 90, y_tenths: 250, velocity_tenths: 0, frame: 0 },
        Obstacle { x: 85, gap_y: 20, size: 20 },
    );
    s.pass_obstacle(33);
    assert_eq!(s.score, 1);
    assert_eq!((s.obstacle.x, s.obstacle.gap_y, s.obstacle.size), (170, 33, 19));
}

#[test]
fn obstacle_ahead_is_kept() {
    let mut s = playing_state(
        Player { x: 85, y_tenths: 250, velocity_tenths: 0, frame: 0 },
        Obstacle { x: 85, gap_y: 20, size: 20 },
    );
    s.pass_obstacle(33);
    assert_eq!(s.score, 0);
    assert_eq!((s.obstacle.x, s.obstacle.gap_y, s.obstacle.size), (85, 20, 20));
}

#[test]
fn menu_starts_and_quits() {
    let mut s = State::new();
    assert_eq!(s.mode, GameMode::Menu);
    let r = s.step(16_000, Some(Key::Space), 30);
    assert_eq!(
        r,
        vec![
            Command::Clear,
            Command::PrintCentered { row: 5, text: Text::Welcome },
            Command::PrintCentered { row: 8, text: Text::PlayGame },
            Command::PrintCentered { row: 9, text: Text::QuitGame },
        ]
    );
    assert_eq!(s.mode, GameMode::Menu);
    let r = s.step(16_000, Some(Key::Q), 30);
    assert_eq!(r.last(), Some(&Command::Quit));
    assert_eq!(r.len(), 5);
    let r = s.step(16_000, Some(Key::P), 30);
    assert_eq!(r.len(), 4);
    assert_eq!(s.mode, GameMode::Playing);
    assert_eq!((s.player.x, s.player.y_tenths, s.score, s.frame_time_us), (5, 250, 0, 0));
    assert_eq!((s.obstacle.x, s.obstacle.gap_y, s.obstacle.size), (80, 30, 20));
}

#[test]
fn physics_waits_for_frame_duration() {
    let mut s = State::new();
    s.step(0, Some(Key::P), 30);
    s.step(30_000, None, 30);
    assert_eq!((s.player.x, s.frame_time_us), (5, 30_000));
    s.step(20_000, None, 30);
    assert_eq!((s.player.x, s.frame_time_us), (5, 50_000));
    s.step(1, None, 30);
    assert_eq!((s.player.x, s.frame_time_us, s.player.y_tenths), (6, 0, 251));
}

#[test]
fn flap_is_read_every_frame() {
    let mut s = State::new();
    s.step(0, Some(Key::P), 30);
    s.step(10_000, Some(Key::Space), 30);
    assert_eq!((s.player.x, s.player.velocity_tenths, s.player.y_tenths), (5, -10, 250));
    s.step(60_000, None, 30);
    assert_eq!((s.player.velocity_tenths, s.player.y_tenths), (-9, 241));
}

#[test]
fn play_frame_draws_in_order() {
    let mut s = playing_state(
        Player { x: 10, y_tenths: 250, velocity_tenths: 0, frame: 0 },
        Obstacle { x: 12, gap_y: 25, size: 48 },
    );
    s.score = 7;
    let r = s.step(1_000, None, 30);
    let mut expected = vec![Command::ClearTo { bg: Color::Navy }];
    expected.extend(s.player.render());
    expected.push(Command::Print { col: 0, row: 0, text: Text::FlapHint });
    expected.push(Command::Print { col: 0, row: 1, text: Text::Score { score: 7 } });
    expected.push(Command::Cell { col: 2, row: 0, fg: Color::Red, bg: Color::Black, glyph: '|' });
    expected.push(Command::Cell { col: 2, row: 49, fg: Color::Red, bg: Color::Black, glyph: '|' });
    assert_eq!(r, expected);
}

#[test]
fn falling_without_flap_ends_with_no_score() {
    let mut s = State::new();
    s.step(0, Some(Key::P), 30);
    let mut frames = 0;
    while s.mode == GameMode::Playing {
        s.step(60_000, None, 30);
        frames += 1;
        assert!(frames < 1000);
    }
    assert_eq!(s.mode, GameMode::End);
    assert_eq!(s.score, 0);
    assert!(s.player.y_tenths > 500);
}

#[test]
fn end_screen_shows_score_and_restarts() {
    let mut s = State::new();
    s.step(0, Some(Key::P), 30);
    s.mode = GameMode::End;
    s.score = 4;
    let r = s.step(0, None, 12);
    assert_eq!(
        r,
        vec![
            Command::Clear,
            Command::PrintCentered { row: 5, text: Text::Failed },
            Command::PrintCentered { row: 6, text: Text::Earned { score: 4 } },
            Command::PrintCentered { row: 8, text: Text::PlayAgain },
            Command::PrintCentered { row: 9, text: Text::QuitAgain },
        ]
    );
    assert_eq!(s.mode, GameMode::End);
    s.step(0, Some(Key::P), 12);
    assert_eq!(s.mode, GameMode::Playing);
    assert_eq!((s.score, s.obstacle.gap_y, s.obstacle.x), (0, 12, 80));
}

#[test]
fn collision_ends_play() {
    let mut s = playing_state(
        Player { x: 49, y_tenths: 50, velocity_tenths: -10, frame: 0 },
        Obstacle { x: 50, gap_y: 20, size: 10 },
    );
    s.step(60_000, None, 30);
    assert_eq!(s.player.x, 50);
    assert_eq!(s.mode, GameMode::End);
}

#[test]
fn render_leaves_state_unchanged() {
    let p = Player { x: 9, y_tenths: 73, velocity_tenths: 4, frame: 2 };
    let o = Obstacle { x: 20, gap_y: 15, size: 6 };
    let first = (p.render(), o.render(p.x));
    for _ in 0..5 {
        assert_eq!((p.render(), o.render(p.x)), first);
    }
    assert_eq!((p.x, p.y_tenths, p.velocity_tenths, p.frame), (9, 73, 4, 2));
    assert_eq!((o.x, o.gap_y, o.size), (20, 15, 6));
}

#[test]
fn tick_runs_a_frame() {
    let mut s = State::new();
    s.tick(0, Some(Key::P));
    assert_eq!(s.mode, GameMode::Playing);
    assert_eq!((s.obstacle.x, s.obstacle.size), (80, 20));
    assert!(s.obstacle.gap_y >= 10 && s.obstacle.gap_y < 40);
    s.tick(60_000, None);
    assert_eq!((s.player.x, s.player.y_tenths), (6, 251));
}
