use dirty_way::gutz_ui::{detect_screen_changes, GutzUiStack, ScreenChange};
use dirty_way::state::{Health, SaveData, Score};
use dirty_way::ui::{
    close_outgame_screen, health_text, high_score_text, open_game_over_screen, open_title_screen,
    score_text, sync_paused_screen, UiScreen,
};

#[test]
fn stack_push_pop_top() {
    let mut s: GutzUiStack<UiScreen> = GutzUiStack::default();
    assert_eq!(s.top(), None);
    assert_eq!(s.pop(), None);
    s.push(UiScreen::Title);
    s.push(UiScreen::Paused);
    assert_eq!(s.top(), Some(UiScreen::Paused));
    assert!(s.is_open(UiScreen::Title));
    assert!(s.is_open(UiScreen::Paused));
    assert!(!s.is_open(UiScreen::GameOver));
    assert_eq!(s.pop(), Some(UiScreen::Paused));
    assert_eq!(s.top(), Some(UiScreen::Title));
}

#[test]
fn stack_replace_top_and_clear() {
    let mut s: GutzUiStack<u8> = GutzUiStack::default();
    s.replace_top(1);
    assert_eq!(s.top(), Some(1));
    s.push(2);
    s.replace_top(3);
    assert_eq!(s.top(), Some(3));
    assert!(!s.is_open(2));
    assert_eq!(s.pop(), Some(3));
    assert_eq!(s.pop(), Some(1));
    s.push(4);
    s.clear();
    assert_eq!(s.top(), None);
    assert!(!s.is_open(4));
}

#[test]
fn screen_changes_report_closed_and_opened() {
    let mut s: GutzUiStack<UiScreen> = GutzUiStack::default();
    s.push(UiScreen::Title);
    let c = detect_screen_changes(&s, true, None);
    assert_eq!(
        c,
        ScreenChange { closed: None, opened: Some(UiScreen::Title), previous_top: Some(UiScreen::Title) }
    );
    let again = detect_screen_changes(&s, true, c.previous_top);
    assert_eq!(
        again,
        ScreenChange { closed: None, opened: None, previous_top: Some(UiScreen::Title) }
    );
    s.replace_top(UiScreen::GameOver);
    let c2 = detect_screen_changes(&s, true, Some(UiScreen::Title));
    assert_eq!(c2.closed, Some(UiScreen::Title));
    assert_eq!(c2.opened, Some(UiScreen::GameOver));
    s.pop();
    let c3 = detect_screen_changes(&s, true, Some(UiScreen::GameOver));
    assert_eq!(c3, ScreenChange { closed: Some(UiScreen::GameOver), opened: None, previous_top: None });
}

#[test]
fn screen_changes_ignored_when_unchanged() {
    let mut s: GutzUiStack<UiScreen> = GutzUiStack::default();
    s.push(UiScreen::Paused);
    let c = detect_screen_changes(&s, false, None);
    assert_eq!(c, ScreenChange { closed: None, opened: None, previous_top: None });
}

#[test]
fn game_screens_follow_state() {
    let mut s: GutzUiStack<UiScreen> = GutzUiStack::default();
    open_title_screen(&mut s);
    assert_eq!(s.top(), Some(UiScreen::Title));
    close_outgame_screen(&mut s);
    assert_eq!(s.top(), None);
    open_game_over_screen(&mut s);
    assert_eq!(s.top(), Some(UiScreen::GameOver));
    close_outgame_screen(&mut s);
    close_outgame_screen(&mut s);
    assert_eq!(s.top(), None);
}

#[test]
fn pause_then_resume_restores_stack() {
    let mut s: GutzUiStack<UiScreen> = GutzUiStack::default();
    open_title_screen(&mut s);
    sync_paused_screen(&mut s, false, true);
    assert_eq!(s.top(), Some(UiScreen::Title));
    sync_paused_screen(&mut s, true, true);
    assert_eq!(s.top(), Some(UiScreen::Paused));
    sync_paused_screen(&mut s, true, false);
    assert_eq!(s.top(), Some(UiScreen::Title));
    assert!(!s.is_open(UiScreen::Paused));
}

#[test]
fn hud_texts() {
    assert_eq!(score_text(&Score(0)), "Score: 0");
    assert_eq!(score_text(&Score(1234)), "Score: 1234");
    assert_eq!(score_text(&Score(u32::MAX)), "Score: 4294967295");
    assert_eq!(health_text(&Health(5)), "HP: 5");
    assert_eq!(health_text(&Health(0)), "HP: 0");
    assert_eq!(health_text(&Health(-3)), "HP: 0");
    assert_eq!(health_text(&Health(i32::MAX)), "HP: 2147483647");
    assert_eq!(high_score_text(&SaveData { high_score: 90 }), "High Score: 90");
    assert_eq!(high_score_text(&SaveData { high_score: 100 }), "High Score: 100");
}

#[test]
fn hud_numbers_read_back() {
    for n in [0u32, 7, 10, 99, 100, 65535, 1_000_000, u32::MAX] {
        let text = score_text(&Score(n));
        let digits = text.strip_prefix("Score: ").unwrap();
        assert!(n == 0 || !digits.starts_with('0'));
        assert_eq!(digits.parse::<u32>().unwrap(), n);
    }
}
