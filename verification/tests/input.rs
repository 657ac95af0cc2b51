use window::input::{
    button_of_code, char_is_ascii_control, key_of_text, keysym_to_keycode, mask_of,
    modifiers_from_flags, same_key, settle_pair, wheel, ButtonState, KeyCode, KeyEvent,
    KeyboardEvent, KeyboardOutcome, MouseEvent, MouseEventKind, MousePress, PendingMouse, MOD_ALL,
    MOD_ALT, MOD_CTRL, MOD_NONE, MOD_SHIFT, MOD_SUPER,
};
use window::window::{Point, WaylandWindowInner, WindowAction};

const CTRL: u16 = MOD_CTRL;

fn key(raw_key: Option<KeyCode>, utf8: Option<&str>) -> KeyboardEvent {
    KeyboardEvent::Key { raw_key, is_down: true, utf8: utf8.map(|s| s.to_string()), raw_code: 38 }
}

fn key_event(window: &mut WaylandWindowInner, evt: KeyboardEvent) -> KeyEvent {
    match window.handle_keyboard_event(evt) {
        KeyboardOutcome::Key(event) => event,
        other => panic!("expected a key event, got {:?}", other),
    }
}

#[test]
fn modifier_constants_match_the_input_types() {
    assert_eq!(MOD_NONE, wezterm_input_types::Modifiers::NONE.bits());
    assert_eq!(MOD_SHIFT, wezterm_input_types::Modifiers::SHIFT.bits());
    assert_eq!(MOD_ALL, wezterm_input_types::Modifiers::all().bits());
    assert_eq!(CTRL, wezterm_input_types::Modifiers::CTRL.bits());
    assert_eq!(mask_of(MousePress::Left), wezterm_input_types::MouseButtons::LEFT.bits());
    assert_eq!(mask_of(MousePress::Right), wezterm_input_types::MouseButtons::RIGHT.bits());
    assert_eq!(mask_of(MousePress::Middle), wezterm_input_types::MouseButtons::MIDDLE.bits());
}

#[test]
fn modifier_flags_become_bits() {
    assert_eq!(MOD_ALT, wezterm_input_types::Modifiers::ALT.bits());
    assert_eq!(MOD_CTRL, wezterm_input_types::Modifiers::CTRL.bits());
    assert_eq!(MOD_SUPER, wezterm_input_types::Modifiers::SUPER.bits());
    assert_eq!(modifiers_from_flags(false, false, false, false), 0);
    assert_eq!(modifiers_from_flags(true, false, false, false), 8);
    assert_eq!(modifiers_from_flags(false, true, false, false), 4);
    assert_eq!(modifiers_from_flags(false, false, true, false), 2);
    assert_eq!(modifiers_from_flags(false, false, false, true), 16);
    assert_eq!(modifiers_from_flags(true, true, true, true), 30);
}

#[test]
fn key_symbols_of_latin_1_are_their_characters() {
    assert_eq!(keysym_to_keycode(0x61), Some(KeyCode::Char('a')));
    assert_eq!(keysym_to_keycode(0x20), Some(KeyCode::Char(' ')));
    assert_eq!(keysym_to_keycode(0x7e), Some(KeyCode::Char('~')));
    assert_eq!(keysym_to_keycode(0xe9), Some(KeyCode::Char('\u{e9}')));
    assert_eq!(keysym_to_keycode(0xa0), Some(KeyCode::Char('\u{a0}')));
    assert_eq!(keysym_to_keycode(0xff), Some(KeyCode::Char('\u{ff}')));
    assert_eq!(keysym_to_keycode(0x1f), None);
    assert_eq!(keysym_to_keycode(0x7f), None);
    assert_eq!(keysym_to_keycode(0x9f), None);
    assert_eq!(keysym_to_keycode(0x100), None);
    assert_eq!(keysym_to_keycode(0), None);
}

#[test]
fn key_symbols_of_function_keys_are_passed_on() {
    assert_eq!(keysym_to_keycode(0xff51), Some(KeyCode::Other(0xff51)));
    assert_eq!(keysym_to_keycode(0xff00), Some(KeyCode::Other(0xff00)));
    assert_eq!(keysym_to_keycode(0xffff), Some(KeyCode::Other(0xffff)));
    assert_eq!(keysym_to_keycode(0xfeff), None);
    assert_eq!(keysym_to_keycode(0x10000), None);
}

#[test]
fn button_codes_name_three_buttons() {
    assert_eq!(button_of_code(0x110), Some(MousePress::Left));
    assert_eq!(button_of_code(0x111), Some(MousePress::Right));
    assert_eq!(button_of_code(0x112), Some(MousePress::Middle));
    assert_eq!(button_of_code(0x113), None);
    assert_eq!(button_of_code(0x10f), None);
    assert_eq!(button_of_code(0), None);
}

#[test]
fn single_character_text_is_a_char_key() {
    assert_eq!(key_of_text("a".to_string()), KeyCode::Char('a'));
    assert_eq!(key_of_text("\u{e9}".to_string()), KeyCode::Char('\u{e9}'));
    assert_eq!(key_of_text("ab".to_string()), KeyCode::Composed("ab".to_string()));
    assert_eq!(key_of_text(String::new()), KeyCode::Composed(String::new()));
}

#[test]
fn ascii_control_characters() {
    assert!(char_is_ascii_control('\u{0}'));
    assert!(char_is_ascii_control('\u{1}'));
    assert!(char_is_ascii_control('\u{1f}'));
    assert!(char_is_ascii_control('\u{7f}'));
    assert!(!char_is_ascii_control(' '));
    assert!(!char_is_ascii_control('a'));
    assert!(!char_is_ascii_control('\u{80}'));
    for c in ['\u{0}', '\u{1f}', ' ', '~', '\u{7f}', '\u{80}', '\u{e9}'] {
        assert_eq!(char_is_ascii_control(c), c.is_ascii_control());
    }
}

#[test]
fn same_key_compares_by_value() {
    assert!(same_key(&KeyCode::Char('a'), &KeyCode::Char('a')));
    assert!(!same_key(&KeyCode::Char('a'), &KeyCode::Char('b')));
    assert!(same_key(&KeyCode::Other(5), &KeyCode::Other(5)));
    assert!(!same_key(&KeyCode::Other(5), &KeyCode::Other(6)));
    assert!(same_key(&KeyCode::Composed("xy".to_string()), &KeyCode::Composed("xy".to_string())));
    assert!(!same_key(&KeyCode::Composed("xy".to_string()), &KeyCode::Composed("xz".to_string())));
    assert!(!same_key(&KeyCode::Char('a'), &KeyCode::Other(97)));
    assert!(!same_key(&KeyCode::Composed("a".to_string()), &KeyCode::Char('a')));
}

#[test]
fn settle_pair_drops_what_is_redundant() {
    assert_eq!(
        settle_pair(KeyCode::Char('\u{1}'), Some(KeyCode::Char('a'))),
        (KeyCode::Char('a'), None)
    );
    assert_eq!(
        settle_pair(KeyCode::Char('a'), Some(KeyCode::Char('a'))),
        (KeyCode::Char('a'), None)
    );
    assert_eq!(
        settle_pair(KeyCode::Char('A'), Some(KeyCode::Char('a'))),
        (KeyCode::Char('A'), Some(KeyCode::Char('a')))
    );
    assert_eq!(settle_pair(KeyCode::Char('\u{1}'), None), (KeyCode::Char('\u{1}'), None));
    assert_eq!(settle_pair(KeyCode::Other(9), Some(KeyCode::Other(9))), (KeyCode::Other(9), None));
}

#[test]
fn plain_key_carries_held_modifiers() {
    let mut window = WaylandWindowInner::new(1, 10, 10);
    assert_eq!(
        window.handle_keyboard_event(KeyboardEvent::Modifiers { modifiers: CTRL }),
        KeyboardOutcome::Ignored
    );
    assert_eq!(window.modifiers, CTRL);
    let event = key_event(&mut window, key(None, Some("x")));
    assert_eq!(
        event,
        KeyEvent {
            key_is_down: true,
            key: KeyCode::Char('x'),
            raw_key: None,
            modifiers: CTRL,
            raw_modifiers: CTRL,
            raw_code: Some(38),
            repeat_count: 1,
        }
    );
}

#[test]
fn shift_is_folded_into_letters() {
    let mut window = WaylandWindowInner::new(1, 10, 10);
    window.handle_keyboard_event(KeyboardEvent::Modifiers { modifiers: MOD_SHIFT | CTRL });
    let event = key_event(&mut window, key(None, Some("a")));
    assert_eq!(event.key, KeyCode::Char('A'));
    assert_eq!(event.modifiers, CTRL);
    assert_eq!(event.raw_modifiers, MOD_SHIFT | CTRL);
    let event = key_event(&mut window, key(None, Some("Q")));
    assert_eq!(event.key, KeyCode::Char('Q'));
    assert_eq!(event.modifiers, CTRL);
    let event = key_event(&mut window, key(None, Some("1")));
    assert_eq!(event.key, KeyCode::Char('1'));
    assert_eq!(event.modifiers, MOD_SHIFT | CTRL);
    let event = key_event(&mut window, key(None, Some("\u{e9}")));
    assert_eq!(event.key, KeyCode::Char('\u{e9}'));
    assert_eq!(event.modifiers, MOD_SHIFT | CTRL);
}

#[test]
fn letters_without_shift_stay_as_typed() {
    let mut window = WaylandWindowInner::new(1, 10, 10);
    let event = key_event(&mut window, key(None, Some("a")));
    assert_eq!(event.key, KeyCode::Char('a'));
    assert_eq!(event.modifiers, MOD_NONE);
    window.handle_keyboard_event(KeyboardEvent::Modifiers { modifiers: CTRL });
    let event = key_event(&mut window, key(None, Some("z")));
    assert_eq!(event.key, KeyCode::Char('z'));
    assert_eq!(event.modifiers, CTRL);
}

#[test]
fn shift_does_not_touch_other_keys() {
    let mut window = WaylandWindowInner::new(1, 10, 10);
    window.handle_keyboard_event(KeyboardEvent::Modifiers { modifiers: MOD_SHIFT });
    let event = key_event(&mut window, key(Some(KeyCode::Other(0xff51)), None));
    assert_eq!(event.key, KeyCode::Other(0xff51));
    assert_eq!(event.raw_key, None);
    assert_eq!(event.modifiers, MOD_SHIFT);
    let event = key_event(&mut window, key(None, Some("ab")));
    assert_eq!(event.key, KeyCode::Composed("ab".to_string()));
    assert_eq!(event.modifiers, MOD_SHIFT);
}

#[test]
fn raw_key_beside_text_clears_modifiers() {
    let mut window = WaylandWindowInner::new(1, 10, 10);
    window.handle_keyboard_event(KeyboardEvent::Modifiers { modifiers: MOD_SHIFT });
    let event = key_event(&mut window, key(Some(KeyCode::Char('a')), Some("A")));
    assert_eq!(event.key, KeyCode::Char('A'));
    assert_eq!(event.raw_key, Some(KeyCode::Char('a')));
    assert_eq!(event.modifiers, MOD_NONE);
    assert_eq!(event.raw_modifiers, MOD_SHIFT);
}

#[test]
fn control_character_gives_way_to_raw_key() {
    let mut window = WaylandWindowInner::new(1, 10, 10);
    window.handle_keyboard_event(KeyboardEvent::Modifiers { modifiers: CTRL });
    let event = key_event(&mut window, key(Some(KeyCode::Char('a')), Some("\u{1}")));
    assert_eq!(event.key, KeyCode::Char('a'));
    assert_eq!(event.raw_key, None);
    assert_eq!(event.modifiers, CTRL);
}

#[test]
fn key_release_is_reported_as_up() {
    let mut window = WaylandWindowInner::new(1, 10, 10);
    let event = key_event(
        &mut window,
        KeyboardEvent::Key {
            raw_key: Some(KeyCode::Other(1)),
            is_down: false,
            utf8: None,
            raw_code: 7,
        },
    );
    assert!(!event.key_is_down);
    assert_eq!(event.raw_code, Some(7));
}

#[test]
fn key_without_text_or_symbol_is_ignored() {
    let mut window = WaylandWindowInner::new(1, 10, 10);
    let before = window;
    assert_eq!(window.handle_keyboard_event(key(None, None)), KeyboardOutcome::Ignored);
    assert_eq!(window, before);
}

#[test]
fn focus_change_clears_modifiers() {
    let mut window = WaylandWindowInner::new(1, 10, 10);
    window.handle_keyboard_event(KeyboardEvent::Modifiers { modifiers: MOD_SHIFT | CTRL });
    assert_eq!(
        window.handle_keyboard_event(KeyboardEvent::Leave),
        KeyboardOutcome::FocusChange(false)
    );
    assert_eq!(window.modifiers, MOD_NONE);
    window.handle_keyboard_event(KeyboardEvent::Modifiers { modifiers: CTRL });
    assert_eq!(
        window.handle_keyboard_event(KeyboardEvent::Enter),
        KeyboardOutcome::FocusChange(true)
    );
    assert_eq!(window.modifiers, MOD_NONE);
}

#[test]
fn unknown_modifier_bits_are_dropped() {
    let mut window = WaylandWindowInner::new(1, 10, 10);
    window.handle_keyboard_event(KeyboardEvent::Modifiers { modifiers: 0xffff });
    assert_eq!(window.modifiers, 0x1ffe);
}

#[test]
fn wheel_turns_sign_and_scales() {
    assert_eq!(wheel(1, 1), -1);
    assert_eq!(wheel(-1, 1), 1);
    assert_eq!(wheel(3, 2), -6);
    assert_eq!(wheel(0, 5), 0);
    assert_eq!(wheel(-32767, 1), 32767);
    assert_eq!(wheel(-32768, 1), 32767);
    assert_eq!(wheel(32768, 1), -32768);
    assert_eq!(wheel(32769, 1), -32768);
    assert_eq!(wheel(i64::MAX, 3), -32768);
    assert_eq!(wheel(i64::MIN, 3), 32767);
    assert_eq!(wheel(20000, 2), -32768);
    assert_eq!(wheel(-16384, 2), 32767);
    assert_eq!(wheel(-16383, 2), 32766);
}

fn mouse(window: &WaylandWindowInner, kind: MouseEventKind, buttons: u8) -> WindowAction {
    let coords = window.last_mouse_coords;
    WindowAction::MouseEvent(MouseEvent {
        kind,
        coords,
        screen_coords: Point {
            x: coords.x + window.dimensions.pixel_width as i64,
            y: coords.y + window.dimensions.pixel_height as i64,
        },
        mouse_buttons: buttons,
        modifiers: window.modifiers,
    })
}

#[test]
fn pointer_move_is_scaled_to_pixels() {
    let mut window = WaylandWindowInner::new(1, 800, 600);
    window.dimensions.dpi = 192;
    let pending = PendingMouse { surface_coords: Some((10, 20)), button: vec![], scroll: None };
    assert!(window.can_dispatch_mouse(&pending));
    let actions = window.dispatch_pending_mouse(pending);
    assert_eq!(window.last_mouse_coords, Point { x: 20, y: 40 });
    assert_eq!(
        actions,
        vec![
            WindowAction::MouseEvent(MouseEvent {
                kind: MouseEventKind::Move,
                coords: Point { x: 20, y: 40 },
                screen_coords: Point { x: 820, y: 640 },
                mouse_buttons: 0,
                modifiers: 0,
            }),
            WindowAction::RefreshFrame,
        ]
    );
}

#[test]
fn buttons_are_tracked_in_order() {
    let mut window = WaylandWindowInner::new(1, 800, 600);
    let pending = PendingMouse {
        surface_coords: None,
        button: vec![
            (MousePress::Left, ButtonState::Pressed),
            (MousePress::Middle, ButtonState::Pressed),
            (MousePress::Left, ButtonState::Released),
            (MousePress::Right, ButtonState::Released),
        ],
        scroll: None,
    };
    let actions = window.dispatch_pending_mouse(pending);
    assert_eq!(
        actions,
        vec![
            mouse(&window, MouseEventKind::Press(MousePress::Left), 1),
            mouse(&window, MouseEventKind::Press(MousePress::Middle), 5),
            mouse(&window, MouseEventKind::Release(MousePress::Left), 4),
            mouse(&window, MouseEventKind::Release(MousePress::Right), 4),
        ]
    );
    assert_eq!(window.mouse_buttons, 4);
}

#[test]
fn scroll_reports_each_axis_that_moved() {
    let mut window = WaylandWindowInner::new(1, 800, 600);
    window.dimensions.dpi = 192;
    let pending = PendingMouse { surface_coords: None, button: vec![], scroll: Some((2, -3)) };
    let actions = window.dispatch_pending_mouse(pending);
    assert_eq!(
        actions,
        vec![
            mouse(&window, MouseEventKind::HorzWheel(-4), 0),
            mouse(&window, MouseEventKind::VertWheel(6), 0),
        ]
    );
    let pending = PendingMouse { surface_coords: None, button: vec![], scroll: Some((0, 1)) };
    assert_eq!(
        window.dispatch_pending_mouse(pending),
        vec![mouse(&window, MouseEventKind::VertWheel(-2), 0)]
    );
    let pending = PendingMouse { surface_coords: None, button: vec![], scroll: Some((0, 0)) };
    assert!(window.dispatch_pending_mouse(pending).is_empty());
}

#[test]
fn move_buttons_and_scroll_come_in_that_order() {
    let mut window = WaylandWindowInner::new(1, 800, 600);
    window.modifiers = CTRL;
    let pending = PendingMouse {
        surface_coords: Some((5, 6)),
        button: vec![(MousePress::Right, ButtonState::Pressed)],
        scroll: Some((0, 1)),
    };
    let actions = window.dispatch_pending_mouse(pending);
    assert_eq!(window.last_mouse_coords, Point { x: 5, y: 6 });
    assert_eq!(
        actions,
        vec![
            mouse(&window, MouseEventKind::Move, 0),
            WindowAction::RefreshFrame,
            mouse(&window, MouseEventKind::Press(MousePress::Right), 2),
            mouse(&window, MouseEventKind::VertWheel(-1), 2),
        ]
    );
}

#[test]
fn nothing_pending_means_nothing_to_tell() {
    let mut window = WaylandWindowInner::new(1, 800, 600);
    let before = window;
    let pending = PendingMouse { surface_coords: None, button: vec![], scroll: None };
    assert!(window.dispatch_pending_mouse(pending).is_empty());
    assert_eq!(window, before);
}

#[test]
fn can_dispatch_mouse_rejects_positions_beyond_i32() {
    let mut window = WaylandWindowInner::new(1, 800, 600);
    window.dimensions.dpi = 192;
    let far = PendingMouse { surface_coords: Some((i32::MAX, 0)), button: vec![], scroll: None };
    assert!(!window.can_dispatch_mouse(&far));
    let edge = PendingMouse { surface_coords: Some((1073741823, -1073741824)), button: vec![], scroll: None };
    assert!(window.can_dispatch_mouse(&edge));
    let over = PendingMouse { surface_coords: Some((0, -1073741825)), button: vec![], scroll: None };
    assert!(!window.can_dispatch_mouse(&over));
}
