use portfolio_tui::handler::{KeyInput, Page, UIState};

#[test]
fn initial_state_is_home_at_top() {
    let s = UIState::new();
    assert_eq!(s.current_page, Page::Home);
    assert_eq!(s.scroll_offset, 0);
    assert_eq!(s.selected_item, 0);
}

#[test]
fn default_equals_new() {
    let d = UIState::default();
    assert_eq!(d.current_page, Page::Home);
    assert_eq!(d.scroll_offset, 0);
    assert_eq!(d.selected_item, 0);
}

#[test]
fn reset_scroll_clears_offsets_and_keeps_page() {
    let mut s = UIState {
        current_page: Page::About,
        scroll_offset: 17,
        selected_item: 4,
    };
    s.reset_scroll();
    assert_eq!(s.current_page, Page::About);
    assert_eq!(s.scroll_offset, 0);
    assert_eq!(s.selected_item, 0);
}

#[test]
fn press_a_switches_to_projects() {
    let mut s = UIState::new();
    let keep_running = s.handle_key(KeyInput::Char('a'), false);
    assert!(keep_running);
    assert_eq!(s.current_page, Page::Store);
    assert_eq!(s.scroll_offset, 0);
}

#[test]
fn press_h_resets_scroll_on_home() {
    let mut s = UIState {
        current_page: Page::Home,
        scroll_offset: 5,
        selected_item: 0,
    };
    let keep_running = s.handle_key(KeyInput::Char('h'), false);
    assert!(keep_running);
    assert_eq!(s.current_page, Page::Home);
    assert_eq!(s.scroll_offset, 0);
}

#[test]
fn page_switch_resets_scroll_from_any_offset() {
    for (key, page) in [
        (KeyInput::Char('h'), Page::Home),
        (KeyInput::Char('a'), Page::Store),
        (KeyInput::Char('s'), Page::About),
        (KeyInput::Char('d'), Page::FAQ),
        (KeyInput::HomeKey, Page::Home),
    ] {
        let mut s = UIState {
            current_page: Page::Store,
            scroll_offset: 42,
            selected_item: 3,
        };
        let keep_running = s.handle_key(key, false);
        assert!(keep_running);
        assert_eq!(s.current_page, page);
        assert_eq!(s.scroll_offset, 0);
    }
}

#[test]
fn down_three_times_scrolls_to_three() {
    let mut s = UIState::new();
    assert!(s.handle_key(KeyInput::Down, false));
    assert!(s.handle_key(KeyInput::Down, false));
    assert!(s.handle_key(KeyInput::Down, false));
    assert_eq!(s.scroll_offset, 3);
    assert_eq!(s.current_page, Page::Home);
}

#[test]
fn page_down_twice_scrolls_to_twenty() {
    let mut s = UIState::new();
    assert!(s.handle_key(KeyInput::PageDown, false));
    assert!(s.handle_key(KeyInput::PageDown, false));
    assert_eq!(s.scroll_offset, 20);
}

#[test]
fn up_and_page_up_stop_at_zero() {
    let mut s = UIState::new();
    assert!(s.handle_key(KeyInput::Up, false));
    assert_eq!(s.scroll_offset, 0);
    assert!(s.handle_key(KeyInput::PageUp, false));
    assert_eq!(s.scroll_offset, 0);
    assert!(s.handle_key(KeyInput::Down, false));
    assert!(s.handle_key(KeyInput::PageUp, false));
    assert_eq!(s.scroll_offset, 0);
}

#[test]
fn page_up_from_three_stops_at_zero() {
    let mut s = UIState {
        current_page: Page::FAQ,
        scroll_offset: 3,
        selected_item: 0,
    };
    assert!(s.handle_key(KeyInput::PageUp, false));
    assert_eq!(s.scroll_offset, 0);
    assert_eq!(s.current_page, Page::FAQ);
}

#[test]
fn quit_keys_stop_the_loop_and_keep_state() {
    for (key, ctrl) in [
        (KeyInput::Char('q'), false),
        (KeyInput::Esc, false),
        (KeyInput::Char('c'), true),
    ] {
        let mut s = UIState {
            current_page: Page::About,
            scroll_offset: 7,
            selected_item: 2,
        };
        let keep_running = s.handle_key(key, ctrl);
        assert!(!keep_running);
        assert_eq!(s.current_page, Page::About);
        assert_eq!(s.scroll_offset, 7);
    }
}

#[test]
fn plain_c_does_not_quit() {
    let mut s = UIState::new();
    let keep_running = s.handle_key(KeyInput::Char('c'), false);
    assert!(keep_running);
    assert_eq!(s.current_page, Page::Home);
}

#[test]
fn unmapped_keys_change_nothing() {
    let mut s = UIState {
        current_page: Page::Store,
        scroll_offset: 9,
        selected_item: 1,
    };
    assert!(s.handle_key(KeyInput::Char('z'), false));
    assert!(s.handle_key(KeyInput::Other, false));
    assert_eq!(s.current_page, Page::Store);
    assert_eq!(s.scroll_offset, 9);
    assert_eq!(s.selected_item, 1);
}
