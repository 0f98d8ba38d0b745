use dodge_the_creeps::hud::{GameOverStage, HudAction, HUD, TITLE_SECONDS};
use dodge_the_creeps::main_scene::{Main, MainAction};
use dodge_the_creeps::text::decimal_string;

#[test]
fn decimal_of_small_and_large_numbers() {
    assert_eq!(decimal_string(0), "0");
    assert_eq!(decimal_string(7), "7");
    assert_eq!(decimal_string(10), "10");
    assert_eq!(decimal_string(1234567890), "1234567890");
    assert_eq!(decimal_string(u64::MAX), "18446744073709551615");
}

#[test]
fn show_message_sets_shows_and_starts_timer() {
    let hud = HUD::new();
    assert_eq!(
        hud.show_message("Hello".to_string()),
        vec![
            HudAction::SetMessageText("Hello".to_string()),
            HudAction::ShowMessage,
            HudAction::StartMessageTimer,
        ]
    );
    assert_eq!(hud.stage(), GameOverStage::Idle);
}

#[test]
fn game_over_sequence_runs_in_three_steps() {
    let mut hud = HUD::new();
    assert_eq!(
        hud.show_game_over(),
        vec![
            HudAction::SetMessageText("Game over".to_string()),
            HudAction::ShowMessage,
            HudAction::StartMessageTimer,
        ]
    );
    assert_eq!(hud.stage(), GameOverStage::ShowingGameOver);
    assert_eq!(
        hud.on_message_timer_timeout(),
        vec![
            HudAction::HideMessage,
            HudAction::SetMessageText("Dodge the Creeps!".to_string()),
            HudAction::ShowMessage,
            HudAction::StartTitleTimer(TITLE_SECONDS),
        ]
    );
    assert_eq!(TITLE_SECONDS, 1);
    assert_eq!(hud.stage(), GameOverStage::ShowingTitle);
    assert_eq!(hud.on_title_timer_timeout(), vec![HudAction::ShowStartButton]);
    assert_eq!(hud.stage(), GameOverStage::Idle);
}

#[test]
fn message_timeout_outside_game_over_only_hides() {
    let mut hud = HUD::new();
    assert_eq!(hud.on_message_timer_timeout(), vec![HudAction::HideMessage]);
    assert_eq!(hud.stage(), GameOverStage::Idle);
    assert_eq!(hud.on_title_timer_timeout(), vec![]);
    assert_eq!(hud.stage(), GameOverStage::Idle);
}

#[test]
fn update_score_writes_decimal() {
    let hud = HUD::new();
    assert_eq!(hud.update_score(0), vec![HudAction::SetScoreText("0".to_string())]);
    assert_eq!(hud.update_score(42), vec![HudAction::SetScoreText("42".to_string())]);
}

#[test]
fn start_button_hides_and_emits() {
    let hud = HUD::new();
    assert_eq!(
        hud.on_start_button_pressed(),
        vec![HudAction::HideStartButton, HudAction::EmitStartGame]
    );
}

#[test]
fn new_game_resets_score_and_gets_ready() {
    let mut main = Main::new();
    assert_eq!(main.score(), 0);
    main.on_score_timer_timeout();
    main.on_score_timer_timeout();
    assert_eq!(main.score(), 2);
    assert_eq!(
        main.new_game(),
        vec![
            MainAction::StartPlayer,
            MainAction::HudUpdateScore(0),
            MainAction::HudShowMessage("Get Ready".to_string()),
            MainAction::ClearMobs,
            MainAction::PlayMusic,
            MainAction::StartStartTimer,
        ]
    );
    assert_eq!(main.score(), 0);
}

#[test]
fn score_timer_counts_up() {
    let mut main = Main::new();
    assert_eq!(main.on_score_timer_timeout(), vec![MainAction::HudUpdateScore(1)]);
    assert_eq!(main.on_score_timer_timeout(), vec![MainAction::HudUpdateScore(2)]);
    assert_eq!(main.score(), 2);
}

#[test]
fn start_timer_starts_score_and_mobs() {
    let main = Main::new();
    assert_eq!(
        main.on_start_timer_timeout(),
        vec![MainAction::StartScoreTimer, MainAction::StartMobTimer]
    );
}

#[test]
fn game_over_stops_everything_and_keeps_score() {
    let mut main = Main::new();
    main.on_score_timer_timeout();
    assert_eq!(
        main.game_over(),
        vec![
            MainAction::StopScoreTimer,
            MainAction::StopMobTimer,
            MainAction::HudShowGameOver,
            MainAction::StopMusic,
            MainAction::PlayDeathSound,
        ]
    );
    assert_eq!(main.score(), 1);
}
