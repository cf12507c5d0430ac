use ash_tutorial::window::should_exit;
use ash_tutorial::window::window_title;
use ash_tutorial::window::WindowEventKind;
use ash_tutorial::window::WINDOW_HEIGHT;
use ash_tutorial::window::WINDOW_WIDTH;

#[test]
fn window_parameters() {
    assert_eq!(WINDOW_WIDTH, 800);
    assert_eq!(WINDOW_HEIGHT, 600);
    assert_eq!(window_title(), "Ash Tutorial");
}

#[test]
fn exits_on_close_request() {
    assert!(should_exit(&WindowEventKind::CloseRequested));
}

#[test]
fn exits_on_escape() {
    assert!(should_exit(&WindowEventKind::EscapePressed));
}

#[test]
fn stays_open_on_other_events() {
    assert!(!should_exit(&WindowEventKind::OtherKeyPressed));
    assert!(!should_exit(&WindowEventKind::Other));
}
