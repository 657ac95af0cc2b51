//! What a window does with keyboard and pointer input before the
//! application sees it.

use vstd::prelude::*;
use vstd::string::StrSliceExecFns;
use crate::window::{Point, WaylandWindowInner, WindowAction};

verus! {

/// No modifier is held.
pub const MOD_NONE: u16 = 0;

/// The shift modifier.
pub const MOD_SHIFT: u16 = 2;

/// The alt modifier.
pub const MOD_ALT: u16 = 4;

/// The control modifier.
pub const MOD_CTRL: u16 = 8;

/// The super modifier, also known as the logo key.
pub const MOD_SUPER: u16 = 16;

/// Every bit that stands for a modifier.
pub const MOD_ALL: u16 = 0x1ffe;

/// A key, as far as the window looks at it: a character, a composed text,
/// or any other key, named by its code.
#[derive(Clone, Debug, PartialEq, Eq)]
pub enum KeyCode {
    Char(char),
    Composed(String),
    Other(u32),
}

/// A key with its text as a sequence of characters.
pub enum KeyCodeView {
    Char(char),
    Composed(Seq<char>),
    Other(u32),
}

impl View for KeyCode {
    type V = KeyCodeView;

    open spec fn view(&self) -> KeyCodeView {
        match *self {
            KeyCode::Char(c) => KeyCodeView::Char(c),
            KeyCode::Composed(text) => KeyCodeView::Composed(text@),
            KeyCode::Other(code) => KeyCodeView::Other(code),
        }
    }
}

/// The view of a key that may be absent.
pub open spec fn view_of(key: Option<KeyCode>) -> Option<KeyCodeView> {
    match key {
        Some(key) => Some(key@),
        None => None,
    }
}

/// What the keyboard reports to a window.
#[derive(Clone, Debug, PartialEq, Eq)]
pub enum KeyboardEvent {
    /// A key went down or up. `raw_key` is the key that the key symbol
    /// stands for, if it is a known one; `utf8` the text that the key
    /// produces, if any; `raw_code` the hardware's code of the key.
    Key { raw_key: Option<KeyCode>, is_down: bool, utf8: Option<String>, raw_code: u32 },
    /// The set of modifiers that are held has changed.
    Modifiers { modifiers: u16 },
    /// The window has got the keyboard focus.
    Enter,
    /// The window has lost the keyboard focus.
    Leave,
}

/// A key press or release as the application gets it.
#[derive(Clone, Debug, PartialEq, Eq)]
pub struct KeyEvent {
    pub key_is_down: bool,
    pub key: KeyCode,
    pub raw_key: Option<KeyCode>,
    pub modifiers: u16,
    pub raw_modifiers: u16,
    pub raw_code: Option<u32>,
    pub repeat_count: u16,
}

/// A key event with its keys as [`KeyCodeView`]s.
pub struct KeyEventView {
    pub key_is_down: bool,
    pub key: KeyCodeView,
    pub raw_key: Option<KeyCodeView>,
    pub modifiers: u16,
    pub raw_modifiers: u16,
    pub raw_code: Option<u32>,
    pub repeat_count: u16,
}

impl View for KeyEvent {
    type V = KeyEventView;

    open spec fn view(&self) -> KeyEventView {
        KeyEventView {
            key_is_down: self.key_is_down,
            key: self.key@,
            raw_key: view_of(self.raw_key),
            modifiers: self.modifiers,
            raw_modifiers: self.raw_modifiers,
            raw_code: self.raw_code,
            repeat_count: self.repeat_count,
        }
    }
}

/// What the application is to be told after a keyboard event.
#[derive(Clone, Debug, PartialEq, Eq)]
pub enum KeyboardOutcome {
    /// Nothing.
    Ignored,
    /// A key event.
    Key(KeyEvent),
    /// That the window has got the focus, or lost it.
    FocusChange(bool),
}

/// An outcome with its key event as a [`KeyEventView`].
pub enum KeyboardOutcomeView {
    Ignored,
    Key(KeyEventView),
    FocusChange(bool),
}

impl View for KeyboardOutcome {
    type V = KeyboardOutcomeView;

    open spec fn view(&self) -> KeyboardOutcomeView {
        match *self {
            KeyboardOutcome::Ignored => KeyboardOutcomeView::Ignored,
            KeyboardOutcome::Key(event) => KeyboardOutcomeView::Key(event@),
            KeyboardOutcome::FocusChange(focused) => KeyboardOutcomeView::FocusChange(focused),
        }
    }
}

/// The modifiers that are held, as bits, from one flag for each.
pub open spec fn modifier_bits(ctrl: bool, alt: bool, shift: bool, logo: bool) -> u16 {
    (if ctrl {
        MOD_CTRL
    } else {
        MOD_NONE
    }) | (if alt {
        MOD_ALT
    } else {
        MOD_NONE
    }) | (if shift {
        MOD_SHIFT
    } else {
        MOD_NONE
    }) | (if logo {
        MOD_SUPER
    } else {
        MOD_NONE
    })
}

/// The modifiers that are held, as bits.
pub fn modifiers_from_flags(ctrl: bool, alt: bool, shift: bool, logo: bool) -> (held: u16)
    ensures
        held == modifier_bits(ctrl, alt, shift, logo),
{
    let ctrl_bit: u16 = if ctrl {
        MOD_CTRL
    } else {
        MOD_NONE
    };
    let alt_bit: u16 = if alt {
        MOD_ALT
    } else {
        MOD_NONE
    };
    let shift_bit: u16 = if shift {
        MOD_SHIFT
    } else {
        MOD_NONE
    };
    let logo_bit: u16 = if logo {
        MOD_SUPER
    } else {
        MOD_NONE
    };
    ctrl_bit | alt_bit | shift_bit | logo_bit
}

/// The key that a key symbol stands for, as far as the window knows it.
/// The symbols of the printable Latin-1 characters are the codes of these
/// characters; the symbols of the function, cursor and modifier keys, which
/// have no character, are passed on as they are; any other symbol stands for
/// no key that the window knows.
pub open spec fn key_of_symbol(keysym: u32) -> Option<KeyCodeView> {
    if 0x20 <= keysym <= 0x7e || 0xa0 <= keysym <= 0xff {
        Some(KeyCodeView::Char(keysym as u8 as char))
    } else if 0xff00 <= keysym <= 0xffff {
        Some(KeyCodeView::Other(keysym))
    } else {
        None
    }
}

/// The key that a key symbol stands for.
pub fn keysym_to_keycode(keysym: u32) -> (key: Option<KeyCode>)
    ensures
        view_of(key) == key_of_symbol(keysym),
{
    if (0x20 <= keysym && keysym <= 0x7e) || (0xa0 <= keysym && keysym <= 0xff) {
        Some(KeyCode::Char(keysym as u8 as char))
    } else if 0xff00 <= keysym && keysym <= 0xffff {
        Some(KeyCode::Other(keysym))
    } else {
        None
    }
}

/// An ASCII control character: below the space, or the delete character.
pub open spec fn is_ascii_control(c: char) -> bool {
    (c as u32) < 0x20 || c as u32 == 0x7f
}

/// The key and the raw key that a key press stands for at first sight: the
/// text if there is any, as a character if it is a single one, beside the
/// raw key; else the raw key alone; and nothing if there is neither.
pub open spec fn first_pair(raw_key: Option<KeyCodeView>, text: Option<Seq<char>>) -> Option<
    (KeyCodeView, Option<KeyCodeView>),
> {
    match text {
        Some(text) => if text.len() == 1 {
            Some((KeyCodeView::Char(text[0]), raw_key))
        } else {
            Some((KeyCodeView::Composed(text), raw_key))
        },
        None => match raw_key {
            Some(key) => Some((key, None)),
            None => None,
        },
    }
}

/// The pair without what is redundant: a control character gives way to the
/// raw key it came from, and a raw key that says the same as the key is
/// dropped.
pub open spec fn settled_pair(key: KeyCodeView, raw_key: Option<KeyCodeView>) -> (
    KeyCodeView,
    Option<KeyCodeView>,
) {
    match (key, raw_key) {
        (KeyCodeView::Char(c), Some(raw)) if is_ascii_control(c) => (raw, None),
        (key, Some(raw)) if key == raw => (key, None),
        pair => pair,
    }
}

/// A character key under the modifiers held, with shift folded into the
/// character: with shift held an ASCII letter is reported in upper case and
/// without the shift modifier.
pub open spec fn shifted_char(c: char, modifiers: u16) -> (char, u16) {
    let held = modifiers & MOD_ALL;
    if held & MOD_SHIFT != 0 {
        if 'A' <= c <= 'Z' {
            (c, held & !MOD_SHIFT)
        } else if 'a' <= c <= 'z' {
            ((c as u8 - 32) as char, held & !MOD_SHIFT)
        } else {
            (c, held)
        }
    } else {
        (c, held)
    }
}

/// Folds shift into a character key by `KeyCode::normalize_shift` of
/// `wezterm_input_types`. The contract says what that function does to a
/// character: if the shift bit is among the modifiers, an ASCII upper-case
/// letter stays and an ASCII lower-case letter becomes its upper-case
/// letter, and either loses the shift bit; any other character, and any
/// character without shift, comes back as it went in. Bits that stand for no
/// modifier are dropped when the modifiers are built.
#[verifier::external_body]
fn normalize_shift_char(c: char, modifiers: u16) -> (out: (char, u16))
    ensures
        out == shifted_char(c, modifiers),
{
    let held = wezterm_input_types::Modifiers::from_bits_truncate(modifiers);
    match wezterm_input_types::KeyCode::Char(c).normalize_shift(held) {
        (wezterm_input_types::KeyCode::Char(shifted), left) => (shifted, left.bits()),
        (_, left) => (c, left.bits()),
    }
}

/// Whether two keys are the same key.
pub fn same_key(a: &KeyCode, b: &KeyCode) -> (same: bool)
    ensures
        same == (a@ == b@),
{
    match (a, b) {
        (KeyCode::Char(x), KeyCode::Char(y)) => *x == *y,
        (KeyCode::Composed(x), KeyCode::Composed(y)) => {
            let same = *x == *y;
            assert(same == (x@ =~= y@));
            same
        },
        (KeyCode::Other(x), KeyCode::Other(y)) => *x == *y,
        _ => false,
    }
}

/// Whether a character is an ASCII control character.
pub fn char_is_ascii_control(c: char) -> (control: bool)
    ensures
        control == is_ascii_control(c),
{
    let code: u32 = c as u32;
    code < 0x20 || code == 0x7f
}

/// The key that a text stands for: a character if the text is a single
/// one, else the text as a whole.
pub fn key_of_text(text: String) -> (key: KeyCode)
    ensures
        key@ == if text@.len() == 1 {
            KeyCodeView::Char(text@[0])
        } else {
            KeyCodeView::Composed(text@)
        },
{
    if text.as_str().unicode_len() == 1 {
        KeyCode::Char(text.as_str().get_char(0))
    } else {
        KeyCode::Composed(text)
    }
}

/// Drops what is redundant in a key and its raw key.
pub fn settle_pair(key: KeyCode, raw_key: Option<KeyCode>) -> (out: (KeyCode, Option<KeyCode>))
    ensures
        (out.0@, view_of(out.1)) == settled_pair(key@, view_of(raw_key)),
{
    match raw_key {
        None => (key, None),
        Some(raw) => {
            let control = match &key {
                KeyCode::Char(c) => char_is_ascii_control(*c),
                _ => false,
            };
            if control {
                (raw, None)
            } else if same_key(&key, &raw) {
                (key, None)
            } else {
                (key, Some(raw))
            }
        },
    }
}

impl WaylandWindowInner {
    /// The key event that a key press or release leads to while this
    /// window's modifiers are held, if it leads to any. The modifiers count
    /// only for a key that stands alone; with shift held, shift is folded
    /// into a letter.
    pub open spec fn key_event_of(
        self,
        raw_key: Option<KeyCodeView>,
        is_down: bool,
        text: Option<Seq<char>>,
        raw_code: u32,
    ) -> Option<KeyEventView> {
        match first_pair(raw_key, text) {
            None => None,
            Some((key, raw)) => {
                let (key, raw) = settled_pair(key, raw);
                let held = if raw.is_some() {
                    MOD_NONE
                } else {
                    self.modifiers & MOD_ALL
                };
                let (key, modifiers) = match key {
                    KeyCodeView::Char(c) => (
                        KeyCodeView::Char(shifted_char(c, held).0),
                        shifted_char(c, held).1,
                    ),
                    _ => (key, held),
                };
                Some(
                    KeyEventView {
                        key_is_down: is_down,
                        key,
                        raw_key: raw,
                        modifiers,
                        raw_modifiers: self.modifiers & MOD_ALL,
                        raw_code: Some(raw_code),
                        repeat_count: 1,
                    },
                )
            },
        }
    }

    /// What the application is told after `evt`.
    pub open spec fn keyboard_outcome(self, evt: KeyboardEvent) -> KeyboardOutcomeView {
        match evt {
            KeyboardEvent::Key { raw_key, is_down, utf8, raw_code } => {
                let text = match utf8 {
                    Some(text) => Some(text@),
                    None => None,
                };
                match self.key_event_of(view_of(raw_key), is_down, text, raw_code) {
                    Some(event) => KeyboardOutcomeView::Key(event),
                    None => KeyboardOutcomeView::Ignored,
                }
            },
            KeyboardEvent::Modifiers { modifiers } => KeyboardOutcomeView::Ignored,
            KeyboardEvent::Enter => KeyboardOutcomeView::FocusChange(true),
            KeyboardEvent::Leave => KeyboardOutcomeView::FocusChange(false),
        }
    }

    /// The modifiers the window takes to be held after `evt`: those it was
    /// told of, and none after the focus has changed, for the keys may have
    /// been released elsewhere.
    pub open spec fn modifiers_after(self, evt: KeyboardEvent) -> u16 {
        match evt {
            KeyboardEvent::Key { .. } => self.modifiers,
            KeyboardEvent::Modifiers { modifiers } => modifiers & MOD_ALL,
            KeyboardEvent::Enter => MOD_NONE,
            KeyboardEvent::Leave => MOD_NONE,
        }
    }

    /// Takes in a keyboard event and says what the application is to be
    /// told.
    pub fn handle_keyboard_event(&mut self, evt: KeyboardEvent) -> (outcome: KeyboardOutcome)
        ensures
            *final(self) == (WaylandWindowInner {
                modifiers: old(self).modifiers_after(evt),
                ..*old(self)
            }),
            outcome@ == old(self).keyboard_outcome(evt),
    {
        match evt {
            KeyboardEvent::Key { raw_key, is_down, utf8, raw_code } => {
                let (key, raw_key) = match utf8 {
                    Some(text) => (key_of_text(text), raw_key),
                    None => match raw_key {
                        Some(key) => (key, None),
                        None => {
                            return KeyboardOutcome::Ignored;
                        },
                    },
                };
                let (key, raw_key) = settle_pair(key, raw_key);
                let raw_modifiers: u16 = self.modifiers & MOD_ALL;
                let held: u16 = if raw_key.is_some() {
                    MOD_NONE
                } else {
                    raw_modifiers
                };
                let (key, modifiers) = match key {
                    KeyCode::Char(c) => {
                        let shifted = normalize_shift_char(c, held);
                        (KeyCode::Char(shifted.0), shifted.1)
                    },
                    other => (other, held),
                };
                KeyboardOutcome::Key(
                    KeyEvent {
                        key_is_down: is_down,
                        key,
                        raw_key,
                        modifiers,
                        raw_modifiers,
                        raw_code: Some(raw_code),
                        repeat_count: 1,
                    },
                )
            },
            KeyboardEvent::Modifiers { modifiers } => {
                self.modifiers = modifiers & MOD_ALL;
                KeyboardOutcome::Ignored
            },
            KeyboardEvent::Enter => {
                self.modifiers = MOD_NONE;
                KeyboardOutcome::FocusChange(true)
            },
            KeyboardEvent::Leave => {
                self.modifiers = MOD_NONE;
                KeyboardOutcome::FocusChange(false)
            },
        }
    }
}

/// A mouse button.
#[derive(Clone, Copy, Debug, PartialEq, Eq)]
pub enum MousePress {
    Left,
    Right,
    Middle,
}

/// What happened to a button.
#[derive(Clone, Copy, Debug, PartialEq, Eq)]
pub enum ButtonState {
    Pressed,
    Released,
}

/// What the pointer did.
#[derive(Clone, Copy, Debug, PartialEq, Eq)]
pub enum MouseEventKind {
    Move,
    Press(MousePress),
    Release(MousePress),
    VertWheel(i16),
    HorzWheel(i16),
}

/// What the pointer did, as the application gets it.
#[derive(Clone, Copy, Debug, PartialEq, Eq)]
pub struct MouseEvent {
    pub kind: MouseEventKind,
    /// Where the pointer is, in pixels from the window's top left corner.
    pub coords: Point,
    pub screen_coords: Point,
    /// The buttons that are held, one bit for each.
    pub mouse_buttons: u8,
    pub modifiers: u16,
}

/// What the pointer did since the window last looked: the latest position
/// in surface units, the button changes in their order, and the sum of the
/// scrolling along both axes, in whole steps.
pub struct PendingMouse {
    pub surface_coords: Option<(i32, i32)>,
    pub button: Vec<(MousePress, ButtonState)>,
    pub scroll: Option<(i64, i64)>,
}

/// The button that an input event code stands for, if it is one of the
/// three that a window tells apart.
pub fn button_of_code(code: u32) -> (button: Option<MousePress>)
    ensures
        button == if code == 0x110 {
            Some(MousePress::Left)
        } else if code == 0x111 {
            Some(MousePress::Right)
        } else if code == 0x112 {
            Some(MousePress::Middle)
        } else {
            None
        },
{
    if code == 0x110 {
        Some(MousePress::Left)
    } else if code == 0x111 {
        Some(MousePress::Right)
    } else if code == 0x112 {
        Some(MousePress::Middle)
    } else {
        None
    }
}

/// The bit that stands for a button among the buttons held.
pub open spec fn button_mask(button: MousePress) -> u8 {
    match button {
        MousePress::Left => 1,
        MousePress::Right => 2,
        MousePress::Middle => 4,
    }
}

/// The buttons held after one of them was pressed or released.
pub open spec fn buttons_after(held: u8, button: MousePress, state: ButtonState) -> u8 {
    match state {
        ButtonState::Pressed => held | button_mask(button),
        ButtonState::Released => held & !button_mask(button),
    }
}

/// The wheel movement for `steps` of scrolling on a surface whose unit is
/// `factor` pixels: the steps in pixels, with the sign turned, as far as
/// sixteen bits can hold it.
pub open spec fn wheel_of(steps: i64, factor: int) -> int {
    let moved = -(steps * factor);
    if moved > i16::MAX {
        i16::MAX as int
    } else if moved < i16::MIN {
        i16::MIN as int
    } else {
        moved
    }
}

/// The bit that stands for a button among the buttons held.
pub fn mask_of(button: MousePress) -> (mask: u8)
    ensures
        mask == button_mask(button),
{
    match button {
        MousePress::Left => 1,
        MousePress::Right => 2,
        MousePress::Middle => 4,
    }
}

/// The wheel movement for `steps` of scrolling at `factor`.
pub fn wheel(steps: i64, factor: i32) -> (moved: i16)
    requires
        1 <= factor,
    ensures
        moved == wheel_of(steps, factor as int),
{
    let bounded: i64 = if steps > 32768 {
        32768
    } else if steps < -32768 {
        -32768
    } else {
        steps
    };
    assert(-32768 * 0x8000_0000 <= bounded * factor <= 32768 * 0x8000_0000) by (nonlinear_arith)
        requires
            -32768 <= bounded <= 32768,
            1 <= factor <= 0x7fff_ffff,
    ;
    assert(steps > 32768 ==> steps * factor >= 32768) by (nonlinear_arith)
        requires
            1 <= factor,
    ;
    assert(steps < -32768 ==> steps * factor <= -32768) by (nonlinear_arith)
        requires
            1 <= factor,
    ;
    assert(bounded == 32768 ==> bounded * factor >= 32768) by (nonlinear_arith)
        requires
            1 <= factor,
    ;
    assert(bounded == -32768 ==> bounded * factor <= -32768) by (nonlinear_arith)
        requires
            1 <= factor,
    ;
    let moved: i64 = -(bounded * (factor as i64));
    if moved > 32767 {
        32767
    } else if moved < -32768 {
        -32768
    } else {
        moved as i16
    }
}

impl WaylandWindowInner {
    /// The event of kind `kind` at the pointer's last position.
    pub open spec fn mouse_event(self, kind: MouseEventKind) -> MouseEvent {
        MouseEvent {
            kind,
            coords: self.last_mouse_coords,
            screen_coords: Point {
                x: (self.last_mouse_coords.x + self.dimensions.pixel_width) as i64,
                y: (self.last_mouse_coords.y + self.dimensions.pixel_height) as i64,
            },
            mouse_buttons: self.mouse_buttons,
            modifiers: self.modifiers,
        }
    }

    /// A new position can be turned into pixels.
    pub open spec fn mouse_fits(self, pending: PendingMouse) -> bool {
        match pending.surface_coords {
            Some((x, y)) => {
                &&& i32::MIN <= self.dimensions.to_pixels(x as int) <= i32::MAX
                &&& i32::MIN <= self.dimensions.to_pixels(y as int) <= i32::MAX
            },
            None => true,
        }
    }

    /// The pointer has moved: the position is kept in pixels, the
    /// application is told and the decorations are redrawn.
    pub open spec fn move_outcome(self, coords: Option<(i32, i32)>) -> crate::window::Outcome {
        match coords {
            Some((x, y)) => {
                let moved = WaylandWindowInner {
                    last_mouse_coords: Point {
                        x: self.dimensions.to_pixels(x as int) as i64,
                        y: self.dimensions.to_pixels(y as int) as i64,
                    },
                    ..self
                };
                crate::window::Outcome {
                    state: moved,
                    actions: seq![WindowAction::MouseEvent(moved.mouse_event(MouseEventKind::Move))]
                        + moved.refresh_actions(),
                }
            },
            None => crate::window::Outcome { state: self, actions: seq![] },
        }
    }

    /// A button changed: it joins or leaves the buttons held, and the
    /// application is told.
    pub open spec fn press_outcome(self, button: MousePress, state: ButtonState) -> crate::window::Outcome {
        let after = WaylandWindowInner {
            mouse_buttons: buttons_after(self.mouse_buttons, button, state),
            ..self
        };
        let kind = match state {
            ButtonState::Pressed => MouseEventKind::Press(button),
            ButtonState::Released => MouseEventKind::Release(button),
        };
        crate::window::Outcome {
            state: after,
            actions: seq![WindowAction::MouseEvent(after.mouse_event(kind))],
        }
    }

    /// The button changes, one after the other.
    pub open spec fn buttons_outcome(self, presses: Seq<(MousePress, ButtonState)>) -> crate::window::Outcome
        decreases presses.len(),
    {
        if presses.len() == 0 {
            crate::window::Outcome { state: self, actions: seq![] }
        } else {
            let before = self.buttons_outcome(presses.drop_last());
            let last = before.state.press_outcome(presses.last().0, presses.last().1);
            crate::window::Outcome { state: last.state, actions: before.actions + last.actions }
        }
    }

    /// The wheel events for the scrolling that is owed: along the
    /// horizontal axis first, and none for an axis that did not move.
    pub open spec fn scroll_actions(self, scroll: Option<(i64, i64)>) -> Seq<WindowAction> {
        match scroll {
            Some((x, y)) => {
                let factor = self.dimensions.dpi_factor();
                let horizontal = if x != 0 {
                    seq![
                        WindowAction::MouseEvent(
                            self.mouse_event(MouseEventKind::HorzWheel(wheel_of(x, factor) as i16)),
                        ),
                    ]
                } else {
                    seq![]
                };
                let vertical = if y != 0 {
                    seq![
                        WindowAction::MouseEvent(
                            self.mouse_event(MouseEventKind::VertWheel(wheel_of(y, factor) as i16)),
                        ),
                    ]
                } else {
                    seq![]
                };
                horizontal + vertical
            },
            None => seq![],
        }
    }

    /// What the pointer's doings lead to: the move first, then the buttons,
    /// then the wheel.
    pub open spec fn mouse_outcome(self, pending: PendingMouse) -> crate::window::Outcome {
        let moved = self.move_outcome(pending.surface_coords);
        let pressed = moved.state.buttons_outcome(pending.button@);
        crate::window::Outcome {
            state: pressed.state,
            actions: moved.actions + pressed.actions + pressed.state.scroll_actions(
                pending.scroll,
            ),
        }
    }

    /// Whether [`Self::dispatch_pending_mouse`] can be called with `pending`.
    pub fn can_dispatch_mouse(&self, pending: &PendingMouse) -> (fits: bool)
        requires
            self.wf(),
        ensures
            fits == self.mouse_fits(*pending),
    {
        match pending.surface_coords {
            Some((x, y)) => {
                let factor: i64 = self.dimensions.get_dpi_factor() as i64;
                let low: i64 = -0x8000_0000;
                let high: i64 = 0x7fff_ffff;
                assert(-0x8000_0000 * 0x8000_0000 <= x * factor <= 0x8000_0000 * 0x8000_0000)
                    by (nonlinear_arith)
                    requires
                        -0x8000_0000 <= x <= 0x7fff_ffff,
                        1 <= factor <= 0x7fff_ffff,
                ;
                assert(-0x8000_0000 * 0x8000_0000 <= y * factor <= 0x8000_0000 * 0x8000_0000)
                    by (nonlinear_arith)
                    requires
                        -0x8000_0000 <= y <= 0x7fff_ffff,
                        1 <= factor <= 0x7fff_ffff,
                ;
                let px: i64 = x as i64 * factor;
                let py: i64 = y as i64 * factor;
                low <= px && px <= high && low <= py && py <= high
            },
            None => true,
        }
    }

    fn make_mouse_event(&self, kind: MouseEventKind) -> (event: MouseEvent)
        requires
            self.wf(),
        ensures
            event == self.mouse_event(kind),
    {
        MouseEvent {
            kind,
            coords: self.last_mouse_coords,
            screen_coords: Point {
                x: self.last_mouse_coords.x + self.dimensions.pixel_width as i64,
                y: self.last_mouse_coords.y + self.dimensions.pixel_height as i64,
            },
            mouse_buttons: self.mouse_buttons,
            modifiers: self.modifiers,
        }
    }

    fn press(&mut self, button: MousePress, state: ButtonState) -> (action: WindowAction)
        requires
            old(self).wf(),
        ensures
            *final(self) == old(self).press_outcome(button, state).state,
            seq![action] == old(self).press_outcome(button, state).actions,
            final(self).wf(),
    {
        let mask = mask_of(button);
        let kind = match state {
            ButtonState::Pressed => {
                self.mouse_buttons = self.mouse_buttons | mask;
                MouseEventKind::Press(button)
            },
            ButtonState::Released => {
                self.mouse_buttons = self.mouse_buttons & !mask;
                MouseEventKind::Release(button)
            },
        };
        WindowAction::MouseEvent(self.make_mouse_event(kind))
    }

    fn scroll(&self, scroll: Option<(i64, i64)>) -> (actions: Vec<WindowAction>)
        requires
            self.wf(),
        ensures
            actions@ == self.scroll_actions(scroll),
    {
        let mut actions: Vec<WindowAction> = Vec::new();
        match scroll {
            Some((x, y)) => {
                let factor: i32 = self.dimensions.get_dpi_factor();
                if x != 0 {
                    let kind = MouseEventKind::HorzWheel(wheel(x, factor));
                    actions.push(WindowAction::MouseEvent(self.make_mouse_event(kind)));
                }
                if y != 0 {
                    let kind = MouseEventKind::VertWheel(wheel(y, factor));
                    actions.push(WindowAction::MouseEvent(self.make_mouse_event(kind)));
                }
            },
            None => {},
        }
        actions
    }

    /// Takes in what the pointer did and says what the application is to
    /// be told, in order: the move to the latest position, each button
    /// change, and the wheel movement along each axis.
    pub fn dispatch_pending_mouse(&mut self, pending: PendingMouse) -> (actions: Vec<WindowAction>)
        requires
            old(self).wf(),
            old(self).mouse_fits(pending),
        ensures
            *final(self) == old(self).mouse_outcome(pending).state,
            actions@ == old(self).mouse_outcome(pending).actions,
            final(self).wf(),
    {
        let mut actions: Vec<WindowAction> = Vec::new();
        match pending.surface_coords {
            Some((x, y)) => {
                let coords = Point {
                    x: self.dimensions.surface_to_pixels(x) as i64,
                    y: self.dimensions.surface_to_pixels(y) as i64,
                };
                self.last_mouse_coords = coords;
                actions.push(WindowAction::MouseEvent(self.make_mouse_event(MouseEventKind::Move)));
                let mut refresh = self.refresh_frame();
                actions.append(&mut refresh);
            },
            None => {},
        }
        let ghost moved = *self;
        let ghost moved_actions = actions@;
        assert(moved == old(self).move_outcome(pending.surface_coords).state);
        assert(moved_actions =~= old(self).move_outcome(pending.surface_coords).actions);
        let mut i: usize = 0;
        while i < pending.button.len()
            invariant
                i <= pending.button@.len(),
                self.wf(),
                *self == moved.buttons_outcome(pending.button@.subrange(0, i as int)).state,
                actions@ == moved_actions + moved.buttons_outcome(
                    pending.button@.subrange(0, i as int),
                ).actions,
            decreases pending.button@.len() - i,
        {
            let (button, state) = pending.button[i];
            proof {
                let next = pending.button@.subrange(0, i + 1);
                assert(next.drop_last() == pending.button@.subrange(0, i as int));
                assert(next.last() == (button, state));
            }
            let action = self.press(button, state);
            actions.push(action);
            i = i + 1;
            assert(actions@ =~= moved_actions + moved.buttons_outcome(
                pending.button@.subrange(0, i as int),
            ).actions);
        }
        assert(pending.button@.subrange(0, i as int) == pending.button@);
        let mut wheel_actions = self.scroll(pending.scroll);
        actions.append(&mut wheel_actions);
        actions
    }
}

} // verus!
