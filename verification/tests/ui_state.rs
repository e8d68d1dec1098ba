use svwc_snip::ui::{App, Message, SnipMode};

#[test]
fn app_starts_with_nothing_requested() {
    let a = App::new();
    assert!(!a.new_screenshot);
    assert!(!a.save_screenshot);
    assert!(!a.copy_screenshot);
    assert_eq!(a.selected_option, SnipMode::Rectangle);
}

#[test]
fn app_title() {
    let a = App::new();
    assert_eq!(a.title(), "svwc-snip");
}

#[test]
fn select_option_records_the_mode() {
    let mut a = App::new();
    a.update(Message::SelectOption(SnipMode::Fullscreen));
    assert_eq!(a.selected_option, SnipMode::Fullscreen);
    a.update(Message::SelectOption(SnipMode::Window));
    assert_eq!(a.selected_option, SnipMode::Window);
}

#[test]
fn action_messages_leave_state_unchanged() {
    let mut a = App::new();
    a.update(Message::SelectOption(SnipMode::Window));
    let before = a;
    a.update(Message::NewScreenshot);
    a.update(Message::SaveScreenshot);
    a.update(Message::CopyScreenshot);
    assert_eq!(a, before);
}

#[test]
fn mode_labels() {
    assert_eq!(SnipMode::Rectangle.label(), "Rectangle");
    assert_eq!(SnipMode::Window.label(), "Window");
    assert_eq!(SnipMode::Fullscreen.label(), "Full screen");
}
