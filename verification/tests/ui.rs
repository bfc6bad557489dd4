use dynlock::auth::AuthState;
use dynlock::event::{Key, KeyboardEvent, Modifiers, MouseEvent, Named};
use dynlock::ui::{Command, IcedState, Icon, LastKeyTracker, Message, HOLD_KEY_TIMEOUT, UI};

fn no_modifiers() -> Modifiers {
    Modifiers { ctrl: false, shift: false, alt: false, logo: false }
}

fn press(key: Key, text: Option<&str>) -> KeyboardEvent {
    KeyboardEvent::KeyPressed {
        key,
        modifiers: no_modifiers(),
        text: text.map(|t| t.to_string()),
    }
}

fn release(key: Key) -> KeyboardEvent {
    KeyboardEvent::KeyReleased { key, modifiers: no_modifiers() }
}

fn is_press_of(event: &KeyboardEvent, want: Key) -> bool {
    matches!(event, KeyboardEvent::KeyPressed { key, .. } if *key == want)
}

fn configured_overlay() -> IcedState {
    let mut overlay = IcedState::new("alice".to_string());
    overlay.configure(800, 600);
    overlay
}

#[test]
fn a_new_form_is_empty_and_hidden() {
    let ui = UI::new("alice".to_string());
    assert_eq!(ui.username, "alice");
    assert_eq!(ui.password, "");
    assert!(ui.hide_input);
    assert!(!ui.caps_lock);
    assert_eq!(ui.auth, AuthState::Idle);
    assert!(!ui.auth_running());
    assert!(!ui.is_authenticated());
}

#[test]
fn typing_replaces_the_password() {
    let mut ui = UI::new("alice".to_string());
    assert!(matches!(ui.update(Message::Typing("s3".to_string())), Command::Nothing));
    assert_eq!(ui.password, "s3");
    assert!(matches!(ui.update(Message::Typing("s3cret".to_string())), Command::Nothing));
    assert_eq!(ui.password, "s3cret");
    assert_eq!(ui.username, "alice");
}

#[test]
fn reset_empties_the_password() {
    let mut ui = UI::new("alice".to_string());
    ui.update(Message::Typing("s3cret".to_string()));
    assert!(matches!(ui.update(Message::Reset), Command::Nothing));
    assert_eq!(ui.password, "");
}

#[test]
fn toggle_show_flips_the_hiding() {
    let mut ui = UI::new("alice".to_string());
    assert!(matches!(ui.update(Message::ToggleShow), Command::Nothing));
    assert!(!ui.hide_input);
    ui.update(Message::ToggleShow);
    assert!(ui.hide_input);
}

#[test]
fn caps_lock_message_sets_the_indicator() {
    let mut ui = UI::new("alice".to_string());
    ui.update(Message::CapsLock(true));
    assert!(ui.caps_lock);
    ui.update(Message::CapsLock(false));
    assert!(!ui.caps_lock);
}

#[test]
fn focus_asks_for_the_focus_and_changes_nothing() {
    let mut ui = UI::new("alice".to_string());
    ui.update(Message::Typing("pw".to_string()));
    assert!(matches!(ui.update(Message::Focus), Command::Focus));
    assert_eq!(ui.password, "pw");
    assert_eq!(ui.auth, AuthState::Idle);
}

#[test]
fn submit_asks_for_one_worker_with_the_credentials() {
    let mut ui = UI::new("alice".to_string());
    ui.update(Message::Typing("s3cret".to_string()));
    match ui.update(Message::Submit) {
        Command::Authenticate(credentials) => {
            assert_eq!(credentials.username, "alice");
            assert_eq!(credentials.password, "s3cret");
        }
        other => panic!("no worker asked for: {:?}", other),
    }
    assert_eq!(ui.auth, AuthState::Running);
    assert!(ui.auth_running());
    // while the worker runs a second submission is rejected
    assert!(matches!(ui.update(Message::Submit), Command::Rejected));
    assert_eq!(ui.auth, AuthState::Running);
    assert!(ui.start_authenticate().is_none());
    assert_eq!(ui.password, "s3cret");
}

#[test]
fn verdict_in_favour_authenticates() {
    let mut ui = UI::new("alice".to_string());
    assert!(ui.start_authenticate().is_some());
    assert!(!ui.is_authenticated());
    ui.finish_authenticate(true);
    assert_eq!(ui.auth, AuthState::Result(true));
    assert!(ui.is_authenticated());
}

#[test]
fn verdict_against_leaves_the_lock_engaged() {
    let mut ui = UI::new("alice".to_string());
    ui.update(Message::Typing("wrong".to_string()));
    assert!(ui.start_authenticate().is_some());
    ui.finish_authenticate(false);
    assert_eq!(ui.auth, AuthState::Result(false));
    assert!(!ui.is_authenticated());
    assert!(!ui.auth_running());
    // and the user may try again
    assert!(matches!(ui.update(Message::Submit), Command::Authenticate(_)));
}

#[test]
fn the_view_follows_the_form() {
    let mut ui = UI::new("alice".to_string());
    ui.update(Message::Typing("pw".to_string()));
    let view = ui.view();
    assert_eq!(view.password, "pw");
    assert!(view.secure);
    assert!(view.enabled);
    assert_eq!(view.icon, Icon::Hide);
    assert!(!view.caps_lock);

    ui.update(Message::ToggleShow);
    ui.update(Message::CapsLock(true));
    ui.update(Message::Submit);
    let view = ui.view();
    assert!(!view.secure);
    assert!(!view.enabled);
    assert_eq!(view.icon, Icon::Show);
    assert!(view.caps_lock);
}

#[test]
fn the_hold_time_is_200_milliseconds() {
    assert_eq!(HOLD_KEY_TIMEOUT, 200);
    let tracker = LastKeyTracker::new(press(Key::Character('a'), Some("a")), 1_000);
    assert_eq!(tracker.time, 1_000);
    assert!(!tracker.should_repeat(1_000));
    assert!(!tracker.should_repeat(1_199));
    assert!(tracker.should_repeat(1_200));
    assert!(tracker.should_repeat(5_000));
    // a clock that reads less than at the press is no hold
    assert!(!tracker.should_repeat(999));
}

#[test]
fn an_overlay_without_a_size_drops_input() {
    let mut overlay = IcedState::new("alice".to_string());
    let actions = overlay.key_event(press(Key::Character('a'), Some("a")), 10);
    assert!(actions.message.is_none());
    assert!(actions.event.is_none());
    assert!(overlay.last_key.is_none());
    assert_eq!(overlay.mouse_event(MouseEvent::CursorMoved), None);
    assert!(!overlay.is_authenticated());
    assert!(matches!(overlay.update(Message::Submit), Command::Nothing));
    assert!(overlay.program.is_none());
}

#[test]
fn configure_gives_a_size_and_a_fresh_form() {
    let mut overlay = configured_overlay();
    assert_eq!(overlay.viewport, Some((800, 600)));
    overlay.update(Message::Typing("pw".to_string()));
    assert_eq!(overlay.program.as_ref().map(|ui| ui.password.clone()), Some("pw".to_string()));
    overlay.configure(1024, 768);
    assert_eq!(overlay.viewport, Some((1024, 768)));
    let ui = overlay.program.as_ref().expect("a form");
    assert_eq!(ui.username, "alice");
    assert_eq!(ui.password, "");
    assert_eq!(ui.auth, AuthState::Idle);
}

#[test]
fn held_key_repeats_after_200ms() {
    let mut overlay = configured_overlay();
    let actions = overlay.key_event(press(Key::Character('a'), Some("a")), 1_000);
    assert!(actions.message.is_none());
    assert!(is_press_of(actions.event.as_ref().expect("the event"), Key::Character('a')));

    let mut delivered = 1;
    for now in [1_016u64, 1_100, 1_199] {
        let frame = overlay.render(now);
        assert!(matches!(frame.message, Message::Focus));
        assert!(frame.repeat.is_none());
    }
    for now in [1_200u64, 1_216, 1_500] {
        let frame = overlay.render(now);
        assert!(matches!(frame.message, Message::Focus));
        let repeat = frame.repeat.expect("a repeated key press");
        match repeat {
            KeyboardEvent::KeyPressed { key, modifiers, text } => {
                assert_eq!(key, Key::Character('a'));
                assert_eq!(modifiers, no_modifiers());
                assert_eq!(text, Some("a".to_string()));
            }
            other => panic!("not a key press: {:?}", other),
        }
        delivered += 1;
    }
    assert!(delivered >= 2);
}

#[test]
fn key_released_before_200ms_is_delivered_once() {
    let mut overlay = configured_overlay();
    let mut delivered = 0;
    if overlay.key_event(press(Key::Character('a'), Some("a")), 1_000).event.is_some() {
        delivered += 1;
    }
    assert!(overlay.render(1_100).repeat.is_none());
    let actions = overlay.key_event(release(Key::Character('a')), 1_150);
    assert!(actions.message.is_none());
    assert!(matches!(actions.event, Some(KeyboardEvent::KeyReleased { .. })));
    assert!(overlay.last_key.is_none());
    for now in [1_200u64, 1_400, 10_000] {
        if overlay.render(now).repeat.is_some() {
            delivered += 1;
        }
    }
    assert_eq!(delivered, 1);
}

#[test]
fn backspace_repeats_like_a_character() {
    let mut overlay = configured_overlay();
    overlay.key_event(press(Key::Named(Named::Backspace), None), 0);
    assert!(overlay.render(199).repeat.is_none());
    let repeat = overlay.render(200).repeat.expect("a repeated key press");
    assert!(is_press_of(&repeat, Key::Named(Named::Backspace)));
}

#[test]
fn tab_escape_and_caps_lock_send_a_message_and_do_not_repeat() {
    let mut overlay = configured_overlay();
    let actions = overlay.key_event(press(Key::Named(Named::Tab), None), 0);
    assert!(matches!(actions.message, Some(Message::Focus)));
    assert!(actions.event.is_some());
    let actions = overlay.key_event(press(Key::Named(Named::Escape), None), 0);
    assert!(matches!(actions.message, Some(Message::Reset)));
    let actions = overlay.key_event(press(Key::Named(Named::CapsLock), None), 0);
    assert!(matches!(actions.message, Some(Message::CapsLock(true))));
    assert!(overlay.last_key.is_none());
    assert!(overlay.render(1_000).repeat.is_none());
    let actions = overlay.key_event(release(Key::Named(Named::CapsLock)), 5);
    assert!(matches!(actions.message, Some(Message::CapsLock(false))));
}

#[test]
fn a_message_key_leaves_the_held_key() {
    let mut overlay = configured_overlay();
    overlay.key_event(press(Key::Character('x'), Some("x")), 100);
    overlay.key_event(press(Key::Named(Named::Tab), None), 150);
    let repeat = overlay.render(300).repeat.expect("a repeated key press");
    assert!(is_press_of(&repeat, Key::Character('x')));
}

#[test]
fn a_change_of_modifiers_leaves_the_held_key() {
    let mut overlay = configured_overlay();
    overlay.key_event(press(Key::Character('x'), Some("x")), 100);
    let actions = overlay.key_event(KeyboardEvent::ModifiersChanged(no_modifiers()), 120);
    assert!(actions.message.is_none());
    assert!(matches!(actions.event, Some(KeyboardEvent::ModifiersChanged(_))));
    assert!(overlay.render(300).repeat.is_some());
}

#[test]
fn a_second_key_press_restarts_the_hold() {
    let mut overlay = configured_overlay();
    overlay.key_event(press(Key::Character('a'), Some("a")), 0);
    overlay.key_event(press(Key::Character('b'), Some("b")), 150);
    assert!(overlay.render(200).repeat.is_none());
    let repeat = overlay.render(350).repeat.expect("a repeated key press");
    assert!(is_press_of(&repeat, Key::Character('b')));
}

#[test]
fn the_overlay_hands_pointer_events_on() {
    let overlay = configured_overlay();
    assert_eq!(overlay.mouse_event(MouseEvent::CursorEntered), Some(MouseEvent::CursorEntered));
}

#[test]
fn the_overlay_reports_the_forms_verdict() {
    let mut overlay = configured_overlay();
    assert!(!overlay.is_authenticated());
    assert!(matches!(overlay.update(Message::Submit), Command::Authenticate(_)));
    assert!(!overlay.is_authenticated());
    overlay.finish_authenticate(true);
    assert!(overlay.is_authenticated());
}

#[test]
fn a_new_size_keeps_the_running_check() {
    let mut overlay = configured_overlay();
    overlay.update(Message::Typing("pw".to_string()));
    assert!(matches!(overlay.update(Message::Submit), Command::Authenticate(_)));
    overlay.configure(1024, 768);
    let ui = overlay.program.as_ref().expect("a form");
    assert_eq!(ui.password, "");
    assert_eq!(ui.auth, AuthState::Running);
    // the worker that runs stays the only one
    assert!(matches!(overlay.update(Message::Submit), Command::Rejected));
    overlay.finish_authenticate(true);
    assert!(overlay.is_authenticated());
    overlay.configure(800, 600);
    assert!(overlay.is_authenticated());
}
