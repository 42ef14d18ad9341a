use emerald::router::{select_target, Target, WindowState};

fn w(focused: bool, visible: bool) -> WindowState {
    WindowState { focused, visible }
}

#[test]
fn focused_window_wins_among_visible() {
    let ws = vec![w(false, true), w(false, true), w(true, true), w(false, true)];
    assert_eq!(select_target(&ws), Target::Existing(2));
}

#[test]
fn focused_hidden_window_beats_visible() {
    let ws = vec![w(false, true), w(true, false)];
    assert_eq!(select_target(&ws), Target::Existing(1));
}

#[test]
fn first_visible_when_none_focused() {
    let ws = vec![w(false, false), w(false, true), w(false, true)];
    assert_eq!(select_target(&ws), Target::Existing(1));
}

#[test]
fn first_window_when_none_focused_or_visible() {
    let ws = vec![w(false, false), w(false, false)];
    assert_eq!(select_target(&ws), Target::Existing(0));
}

#[test]
fn empty_window_set_creates_new() {
    let ws: Vec<WindowState> = Vec::new();
    assert_eq!(select_target(&ws), Target::CreateNew);
}
