use shoreline::game_over::{ButtonResponse, ButtonTint, Interaction};
use shoreline::level::{blast_zone_layout, ground_layout, other_collider};
use shoreline::score::{decimal_digits, Score};
use shoreline::state::{end_game, pause_game, unpause_game, AppState};
use shoreline::timer::GameTimer;

#[test]
fn fresh_game_is_running() {
    assert_eq!(AppState::default(), AppState::Running);
}

#[test]
fn escape_pauses_only_a_running_game() {
    assert_eq!(pause_game(&AppState::Running, true), AppState::Paused);
    assert_eq!(pause_game(&AppState::Running, false), AppState::Running);
    assert_eq!(pause_game(&AppState::Paused, true), AppState::Paused);
    assert_eq!(pause_game(&AppState::GameOver, true), AppState::GameOver);
    assert_eq!(pause_game(&AppState::MainMenu, true), AppState::MainMenu);
}

#[test]
fn escape_resumes_only_a_paused_game() {
    assert_eq!(unpause_game(&AppState::Paused, true), AppState::Running);
    assert_eq!(unpause_game(&AppState::Paused, false), AppState::Paused);
    assert_eq!(unpause_game(&AppState::Running, true), AppState::Running);
    assert_eq!(unpause_game(&AppState::GameOver, true), AppState::GameOver);
}

#[test]
fn end_key_ends_the_game_from_any_state() {
    assert_eq!(end_game(&AppState::Running, true), AppState::GameOver);
    assert_eq!(end_game(&AppState::Paused, true), AppState::GameOver);
    assert_eq!(end_game(&AppState::MainMenu, true), AppState::GameOver);
    assert_eq!(end_game(&AppState::GameOver, true), AppState::GameOver);
    assert_eq!(end_game(&AppState::Running, false), AppState::Running);
    assert_eq!(end_game(&AppState::Paused, false), AppState::Paused);
}

#[test]
fn pause_and_resume_round_trip() {
    let paused = pause_game(&AppState::Running, true);
    let resumed = unpause_game(&paused, true);
    assert_eq!(resumed, AppState::Running);
}

#[test]
fn once_timer_finishes_once_and_stays_finished() {
    let mut t = GameTimer::new_once(250);
    assert!(!t.tick(100));
    assert!(!t.finished());
    assert!(t.tick(150));
    assert!(t.finished());
    assert_eq!(t.elapsed_ms, 250);
    assert!(!t.tick(500));
    assert!(t.finished());
    assert_eq!(t.elapsed_ms, 250);
}

#[test]
fn once_timer_clamps_past_its_duration() {
    let mut t = GameTimer::new_once(250);
    assert!(t.tick(10_000));
    assert_eq!(t.elapsed_ms, 250);
}

#[test]
fn repeating_timer_fires_on_each_crossing_and_keeps_the_rest() {
    let mut t = GameTimer::new_repeating(2000);
    assert!(!t.tick(1999));
    assert_eq!(t.elapsed_ms, 1999);
    assert!(t.tick(1));
    assert_eq!(t.elapsed_ms, 0);
    assert!(t.tick(4500));
    assert_eq!(t.elapsed_ms, 500);
    assert!(!t.tick(100));
    assert_eq!(t.elapsed_ms, 600);
}

#[test]
fn score_starts_at_zero() {
    let s = Score::new();
    assert_eq!(s.val, 0);
    assert_eq!(s.text(), b"0".to_vec());
}

#[test]
fn score_text_is_the_decimal_digits() {
    assert_eq!(Score { val: 912834 }.text(), b"912834".to_vec());
    assert_eq!(Score { val: 100 }.text(), b"100".to_vec());
    assert_eq!(Score { val: 7 }.text(), b"7".to_vec());
}

#[test]
fn decimal_digits_cover_the_edges() {
    assert_eq!(decimal_digits(0), b"0".to_vec());
    assert_eq!(decimal_digits(10), b"10".to_vec());
    assert_eq!(decimal_digits(u32::MAX), b"4294967295".to_vec());
}

#[test]
fn ground_sits_under_the_window_top_with_water_below() {
    let g = ground_layout(800, 600);
    assert_eq!((g.ground_x, g.ground_y), (0, 150));
    assert_eq!((g.ground_w, g.ground_h), (800, 30));
    assert_eq!(g.ground_rgb, 0xc4a484);
    assert_eq!((g.water_x, g.water_y), (0, -150));
    assert_eq!((g.water_w, g.water_h), (800, 600));
    assert_eq!(g.water_rgb, 0x2063a5);
}

#[test]
fn blast_zones_ring_the_screen() {
    let b = blast_zone_layout(800, 600);
    assert_eq!((b.bottom.x, b.bottom.y), (0, -700));
    assert_eq!((b.bottom.half_w, b.bottom.half_h), (800, 10));
    assert_eq!((b.left.x, b.left.y), (-550, 0));
    assert_eq!((b.left.half_w, b.left.half_h), (10, 600));
    assert_eq!((b.right.x, b.right.y), (550, 0));
    assert_eq!((b.right.half_w, b.right.half_h), (10, 600));
    assert_eq!(b.membership_bits, 0b0001);
    assert_eq!(b.filter_bits, 0b0010);
}

#[test]
fn contact_pairs_name_the_other_body() {
    assert_eq!(other_collider(7, 9, 7), 9);
    assert_eq!(other_collider(7, 9, 9), 7);
}

#[test]
fn play_again_click_restarts_without_repainting() {
    let r = shoreline::game_over::play_again_button(&Interaction::Clicked);
    assert_eq!(r, ButtonResponse { restart: true, recolor: None });
}

#[test]
fn hovering_tints_the_button_lime_green() {
    let r = shoreline::game_over::play_again_button(&Interaction::Hovered);
    assert_eq!(r, ButtonResponse { restart: false, recolor: Some(ButtonTint::LimeGreen) });
}

#[test]
fn an_idle_button_is_painted_white() {
    let r = shoreline::game_over::play_again_button(&Interaction::Idle);
    assert_eq!(r, ButtonResponse { restart: false, recolor: Some(ButtonTint::White) });
}
