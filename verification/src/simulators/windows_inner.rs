//! Construction of Windows `SendInput` records.
//!
//! The operating-system injection call consumes an array of tagged input
//! records. This module builds those records as plain values, with the exact
//! field contents pinned down; handing them to the native call is platform
//! work that lives outside this library.
//!
//! Pointer coordinates for absolute moves are normalized: the event
//! procedure maps `0` to the left/top edge of the target surface and
//! `65535` to the right/bottom edge, so a screen coordinate is scaled by
//! `65535 / screen_size` before it is placed in a record.

use vstd::prelude::*;

use crate::common_inputs::MouseButton;
use crate::simulators::virtual_key::VirtualKey;

verus! {

/// Tag of a keyboard input record.
pub const INPUT_KEYBOARD: u32 = 1;

/// Tag of a mouse input record.
pub const INPUT_MOUSE: u32 = 0;

/// Tag of a hardware input record.
pub const INPUT_HARDWARE: u32 = 2;

pub const MOUSEEVENTF_MOVE: u32 = 0x0001;

pub const MOUSEEVENTF_LEFTDOWN: u32 = 0x0002;

pub const MOUSEEVENTF_LEFTUP: u32 = 0x0004;

pub const MOUSEEVENTF_RIGHTDOWN: u32 = 0x0008;

pub const MOUSEEVENTF_RIGHTUP: u32 = 0x0010;

pub const MOUSEEVENTF_MIDDLEDOWN: u32 = 0x0020;

pub const MOUSEEVENTF_MIDDLEUP: u32 = 0x0040;

pub const MOUSEEVENTF_XDOWN: u32 = 0x0080;

pub const MOUSEEVENTF_XUP: u32 = 0x0100;

pub const MOUSEEVENTF_WHEEL: u32 = 0x0800;

pub const MOUSEEVENTF_HWHEEL: u32 = 0x1000;

pub const MOUSEEVENTF_VIRTUALDESK: u32 = 0x4000;

pub const MOUSEEVENTF_ABSOLUTE: u32 = 0x8000;

pub const KEYEVENTF_KEYUP: u32 = 0x0002;

pub const KEYEVENTF_UNICODE: u32 = 0x0004;

/// `mouseData` value selecting the first extra button.
pub const XBUTTON1: i32 = 1;

/// `mouseData` value selecting the second extra button.
pub const XBUTTON2: i32 = 2;

/// Largest normalized absolute coordinate.
pub const ABSOLUTE_COORD_MAX: i32 = 65535;

/// The payload of one input record, by device.
#[derive(Debug, Clone, Copy, PartialEq, Eq, Hash, Structural)]
pub enum WindowsSendInputEnum {
    Keyboard { virtual_key: u16, scan: u16, flags: u32, time: u32, extra_info: usize },
    Mouse { dx: i32, dy: i32, mouse_data: i32, flags: u32, time: u32, extra_info: usize },
    Hardware { message: u32, param_low: u16, param_high: u16 },
}

/// One tagged input record, as the injection call consumes it: the tag
/// names the device union member that `payload` fills.
#[derive(Debug, Clone, Copy, PartialEq, Eq, Hash, Structural)]
pub struct WindowsInput {
    pub kind: u32,
    pub payload: WindowsSendInputEnum,
}

/// The tag that belongs to a payload.
pub open spec fn spec_input_kind(payload: WindowsSendInputEnum) -> u32 {
    match payload {
        WindowsSendInputEnum::Keyboard { .. } => INPUT_KEYBOARD,
        WindowsSendInputEnum::Mouse { .. } => INPUT_MOUSE,
        WindowsSendInputEnum::Hardware { .. } => INPUT_HARDWARE,
    }
}

impl WindowsSendInputEnum {
    /// Tag this payload with the matching record kind.
    pub fn into_windows(self) -> (r: WindowsInput)
        ensures
            r.payload == self,
            r.kind == spec_input_kind(self),
    {
        let kind = match self {
            WindowsSendInputEnum::Keyboard { .. } => INPUT_KEYBOARD,
            WindowsSendInputEnum::Mouse { .. } => INPUT_MOUSE,
            WindowsSendInputEnum::Hardware { .. } => INPUT_HARDWARE,
        };
        WindowsInput { kind, payload: self }
    }
}

/// A mouse record with the given motion, wheel data and flags, at time `0`.
pub open spec fn spec_mouse_input(dx: int, dy: int, mouse_data: i32, flags: u32, extra_info: usize) -> WindowsInput {
    WindowsInput {
        kind: INPUT_MOUSE,
        payload: WindowsSendInputEnum::Mouse {
            dx: dx as i32,
            dy: dy as i32,
            mouse_data,
            flags,
            time: 0,
            extra_info,
        },
    }
}

/// A keyboard record with the given key, scan code and flags, at time `0`.
pub open spec fn spec_keyboard_input(virtual_key: u16, scan: u16, flags: u32, extra_info: usize) -> WindowsInput {
    WindowsInput {
        kind: INPUT_KEYBOARD,
        payload: WindowsSendInputEnum::Keyboard { virtual_key, scan, flags, time: 0, extra_info },
    }
}

fn mouse_input(dx: i32, dy: i32, mouse_data: i32, flags: u32, extra_info: usize) -> (r:
    WindowsInput)
    ensures
        r == spec_mouse_input(dx as int, dy as int, mouse_data, flags, extra_info),
{
    WindowsSendInputEnum::Mouse { dx, dy, mouse_data, flags, time: 0, extra_info }.into_windows()
}

fn keyboard_input(virtual_key: u16, scan: u16, flags: u32, extra_info: usize) -> (r: WindowsInput)
    ensures
        r == spec_keyboard_input(virtual_key, scan, flags, extra_info),
{
    WindowsSendInputEnum::Keyboard { virtual_key, scan, flags, time: 0, extra_info }.into_windows()
}

/// The two records of one scroll step: a vertical wheel record carrying
/// `y`, then a horizontal wheel record carrying `x`.
pub open spec fn spec_mouse_scroll(x: i32, y: i32, extra_info: usize) -> (WindowsInput,
    WindowsInput) {
    (
        spec_mouse_input(0, 0, y, MOUSEEVENTF_WHEEL, extra_info),
        spec_mouse_input(0, 0, x, MOUSEEVENTF_HWHEEL, extra_info),
    )
}

/// Build the records that scroll by `x` horizontal and `y` vertical wheel
/// units, in the order they are to be sent.
pub fn mouse_scroll(x: i32, y: i32, extra_info: usize) -> (r: (WindowsInput, WindowsInput))
    ensures
        r == spec_mouse_scroll(x, y, extra_info),
{
    (
        mouse_input(0, 0, y, MOUSEEVENTF_WHEEL, extra_info),
        mouse_input(0, 0, x, MOUSEEVENTF_HWHEEL, extra_info),
    )
}

/// The press flag for a button.
pub open spec fn spec_button_down_flag(button: MouseButton) -> u32 {
    match button {
        MouseButton::Left => MOUSEEVENTF_LEFTDOWN,
        MouseButton::Middle => MOUSEEVENTF_MIDDLEDOWN,
        MouseButton::Right => MOUSEEVENTF_RIGHTDOWN,
        MouseButton::X1 => MOUSEEVENTF_XDOWN,
        MouseButton::X2 => MOUSEEVENTF_XDOWN,
    }
}

/// The release flag for a button.
pub open spec fn spec_button_up_flag(button: MouseButton) -> u32 {
    match button {
        MouseButton::Left => MOUSEEVENTF_LEFTUP,
        MouseButton::Middle => MOUSEEVENTF_MIDDLEUP,
        MouseButton::Right => MOUSEEVENTF_RIGHTUP,
        MouseButton::X1 => MOUSEEVENTF_XUP,
        MouseButton::X2 => MOUSEEVENTF_XUP,
    }
}

/// The `mouseData` member for a button: the extra buttons are selected
/// through it, the primary buttons through their flags alone.
pub open spec fn spec_button_mouse_data(button: MouseButton) -> i32 {
    match button {
        MouseButton::Left => 0,
        MouseButton::Middle => 0,
        MouseButton::Right => 0,
        MouseButton::X1 => XBUTTON1,
        MouseButton::X2 => XBUTTON2,
    }
}

/// The record that presses `button`.
pub open spec fn spec_mouse_button_down(button: MouseButton, extra_info: usize) -> WindowsInput {
    spec_mouse_input(0, 0, spec_button_mouse_data(button), spec_button_down_flag(button), extra_info)
}

/// The record that releases `button`.
pub open spec fn spec_mouse_button_up(button: MouseButton, extra_info: usize) -> WindowsInput {
    spec_mouse_input(0, 0, spec_button_mouse_data(button), spec_button_up_flag(button), extra_info)
}

/// Build the record that presses `button`.
pub fn mouse_button_down(button: MouseButton, extra_info: usize) -> (r: WindowsInput)
    ensures
        r == spec_mouse_button_down(button, extra_info),
{
    let flags = match button {
        MouseButton::Left => MOUSEEVENTF_LEFTDOWN,
        MouseButton::Middle => MOUSEEVENTF_MIDDLEDOWN,
        MouseButton::Right => MOUSEEVENTF_RIGHTDOWN,
        MouseButton::X1 => MOUSEEVENTF_XDOWN,
        MouseButton::X2 => MOUSEEVENTF_XDOWN,
    };
    let mouse_data = match button {
        MouseButton::X1 => XBUTTON1,
        MouseButton::X2 => XBUTTON2,
        _ => 0,
    };
    mouse_input(0, 0, mouse_data, flags, extra_info)
}

/// Build the record that releases `button`.
pub fn mouse_button_up(button: MouseButton, extra_info: usize) -> (r: WindowsInput)
    ensures
        r == spec_mouse_button_up(button, extra_info),
{
    let flags = match button {
        MouseButton::Left => MOUSEEVENTF_LEFTUP,
        MouseButton::Middle => MOUSEEVENTF_MIDDLEUP,
        MouseButton::Right => MOUSEEVENTF_RIGHTUP,
        MouseButton::X1 => MOUSEEVENTF_XUP,
        MouseButton::X2 => MOUSEEVENTF_XUP,
    };
    let mouse_data = match button {
        MouseButton::X1 => XBUTTON1,
        MouseButton::X2 => XBUTTON2,
        _ => 0,
    };
    mouse_input(0, 0, mouse_data, flags, extra_info)
}

/// `v` held to the closed interval `[lo, hi]`.
pub open spec fn spec_clamp(v: int, lo: int, hi: int) -> int {
    if v < lo {
        lo
    } else if v > hi {
        hi
    } else {
        v
    }
}

/// A screen coordinate scaled onto the normalized `0..=65535` range of a
/// surface `size` pixels wide, after being held to the surface.
pub open spec fn spec_normalize_coord(v: int, size: int) -> int
    recommends
        size >= 1,
{
    spec_clamp(v, 0, size) * (ABSOLUTE_COORD_MAX as int) / size
}

/// The normalized coordinate lies in `0..=65535`.
pub proof fn lemma_normalize_coord_in_range(v: int, size: int)
    requires
        size >= 1,
    ensures
        0 <= spec_normalize_coord(v, size) <= ABSOLUTE_COORD_MAX,
{
    let c = spec_clamp(v, 0, size);
    assert(0 <= c <= size);
    assert(0 <= c * 65535 <= size * 65535) by (nonlinear_arith)
        requires
            0 <= c <= size,
    ;
    assert(0 <= c * 65535 / size <= 65535) by (nonlinear_arith)
        requires
            size >= 1,
            0 <= c * 65535 <= size * 65535,
    ;
}

/// Scale a screen coordinate onto the normalized range.
fn normalize_coord(v: i32, size: i32) -> (r: i32)
    requires
        size >= 1,
    ensures
        r == spec_normalize_coord(v as int, size as int),
{
    let clamped: i32 = if v < 0 {
        0
    } else if v > size {
        size
    } else {
        v
    };
    proof {
        lemma_normalize_coord_in_range(v as int, size as int);
    }
    let scaled: u64 = (clamped as u64) * (ABSOLUTE_COORD_MAX as u64) / (size as u64);
    scaled as i32
}

/// The record that moves the pointer to the normalized absolute position
/// `(x, y)` on the primary display surface.
pub open spec fn spec_mouse_move_to(x: i32, y: i32, extra_info: usize) -> WindowsInput {
    spec_mouse_input(
        x as int,
        y as int,
        0,
        MOUSEEVENTF_MOVE | MOUSEEVENTF_ABSOLUTE,
        extra_info,
    )
}

/// Build the record that moves the pointer to the already-normalized
/// absolute position `(x, y)`: `0` maps to the left/top edge of the primary
/// display surface and `65535` to its right/bottom edge.
pub fn mouse_move_to(x: i32, y: i32, extra_info: usize) -> (r: WindowsInput)
    ensures
        r == spec_mouse_move_to(x, y, extra_info),
{
    mouse_input(x, y, 0, MOUSEEVENTF_MOVE | MOUSEEVENTF_ABSOLUTE, extra_info)
}

/// The record that moves the pointer to the normalized absolute position
/// `(x, y)` on the virtual desktop.
pub open spec fn spec_virtual_desktop_mouse_move_to(x: i32, y: i32, extra_info: usize) -> WindowsInput {
    spec_mouse_input(
        x as int,
        y as int,
        0,
        MOUSEEVENTF_MOVE | MOUSEEVENTF_ABSOLUTE | MOUSEEVENTF_VIRTUALDESK,
        extra_info,
    )
}

/// Same as [`mouse_move_to`], but the coordinates map to the entire virtual
/// desktop.
fn virtual_desktop_mouse_move_to(x: i32, y: i32, extra_info: usize) -> (r: WindowsInput)
    ensures
        r == spec_virtual_desktop_mouse_move_to(x, y, extra_info),
{
    mouse_input(
        x,
        y,
        0,
        MOUSEEVENTF_MOVE | MOUSEEVENTF_ABSOLUTE | MOUSEEVENTF_VIRTUALDESK,
        extra_info,
    )
}

/// The record that moves the pointer to the screen position `(x, y)` on a
/// primary display of the given size, with the coordinates normalized.
pub open spec fn spec_normalized_mouse_move_to(
    x: i32,
    y: i32,
    screen_width: i32,
    screen_height: i32,
    extra_info: usize,
) -> WindowsInput {
    spec_mouse_input(
        spec_normalize_coord(x as int, screen_width as int),
        spec_normalize_coord(y as int, screen_height as int),
        0,
        MOUSEEVENTF_MOVE | MOUSEEVENTF_ABSOLUTE,
        extra_info,
    )
}

/// Build the record that moves the pointer to the screen position `(x, y)`
/// on a primary display of size `screen_width` by `screen_height` pixels.
pub fn normalized_mouse_move_to(
    x: i32,
    y: i32,
    screen_width: i32,
    screen_height: i32,
    extra_info: usize,
) -> (r: WindowsInput)
    requires
        screen_width >= 1,
        screen_height >= 1,
    ensures
        r == spec_normalized_mouse_move_to(x, y, screen_width, screen_height, extra_info),
{
    let nx = normalize_coord(x, screen_width);
    let ny = normalize_coord(y, screen_height);
    mouse_move_to(nx, ny, extra_info)
}

/// The record that moves the pointer to the virtual-desktop position
/// `(x, y)` on a virtual desktop of the given size, normalized.
pub open spec fn spec_virtual_desktop_normalized_mouse_move_to(
    x: i32,
    y: i32,
    screen_width: i32,
    screen_height: i32,
    extra_info: usize,
) -> WindowsInput {
    spec_mouse_input(
        spec_normalize_coord(x as int, screen_width as int),
        spec_normalize_coord(y as int, screen_height as int),
        0,
        MOUSEEVENTF_MOVE | MOUSEEVENTF_ABSOLUTE | MOUSEEVENTF_VIRTUALDESK,
        extra_info,
    )
}

/// Build the record that moves the pointer to `(x, y)` on a virtual desktop
/// of size `screen_width` by `screen_height` pixels.
pub fn virtual_desktop_normalized_mouse_move_to(
    x: i32,
    y: i32,
    screen_width: i32,
    screen_height: i32,
    extra_info: usize,
) -> (r: WindowsInput)
    requires
        screen_width >= 1,
        screen_height >= 1,
    ensures
        r == spec_virtual_desktop_normalized_mouse_move_to(
            x,
            y,
            screen_width,
            screen_height,
            extra_info,
        ),
{
    let nx = normalize_coord(x, screen_width);
    let ny = normalize_coord(y, screen_height);
    virtual_desktop_mouse_move_to(nx, ny, extra_info)
}

/// The record that moves the pointer by the relative amount `(x, y)`.
pub open spec fn spec_mouse_move_by(x: i32, y: i32, extra_info: usize) -> WindowsInput {
    spec_mouse_input(x as int, y as int, 0, MOUSEEVENTF_MOVE, extra_info)
}

/// Build the record that moves the pointer by `(x, y)` relative to the last
/// reported position. The system's pointer-speed and threshold settings
/// apply to relative motion, so the delivered distance may differ from the
/// requested one.
pub fn mouse_move_by(x: i32, y: i32, extra_info: usize) -> (r: WindowsInput)
    ensures
        r == spec_mouse_move_by(x, y, extra_info),
{
    mouse_input(x, y, 0, MOUSEEVENTF_MOVE, extra_info)
}

/// Whether `a + b` fits in the signed 32-bit range.
pub open spec fn spec_i32_sum_fits(a: int, b: int) -> bool {
    i32::MIN <= a + b <= i32::MAX
}

/// Build the record that moves the pointer to `current + (x, y)` on the
/// primary display, normalized; the caller supplies the current pointer
/// position as the platform reported it, or `None` where that read failed.
/// Returns `None` — and the move must be treated as failed — exactly when
/// no current position is available.
pub fn normalized_mouse_move_by(
    x: i32,
    y: i32,
    current: Option<(i32, i32)>,
    screen_width: i32,
    screen_height: i32,
    extra_info: usize,
) -> (r: Option<WindowsInput>)
    requires
        screen_width >= 1,
        screen_height >= 1,
        current matches Option::Some(c) ==> spec_i32_sum_fits(c.0 as int, x as int)
            && spec_i32_sum_fits(c.1 as int, y as int),
    ensures
        match current {
            Option::None => r is None,
            Option::Some(c) => r == Option::Some(
                spec_normalized_mouse_move_to(
                    (c.0 + x) as i32,
                    (c.1 + y) as i32,
                    screen_width,
                    screen_height,
                    extra_info,
                ),
            ),
        },
{
    match current {
        Option::None => Option::None,
        Option::Some((cx, cy)) => Option::Some(
            normalized_mouse_move_to(cx + x, cy + y, screen_width, screen_height, extra_info),
        ),
    }
}

/// Build the record that moves the pointer to `current + (x, y)` on the
/// virtual desktop, normalized; `None` exactly when no current position is
/// available.
pub fn virtual_desktop_normalized_mouse_move_by(
    x: i32,
    y: i32,
    current: Option<(i32, i32)>,
    screen_width: i32,
    screen_height: i32,
    extra_info: usize,
) -> (r: Option<WindowsInput>)
    requires
        screen_width >= 1,
        screen_height >= 1,
        current matches Option::Some(c) ==> spec_i32_sum_fits(c.0 as int, x as int)
            && spec_i32_sum_fits(c.1 as int, y as int),
    ensures
        match current {
            Option::None => r is None,
            Option::Some(c) => r == Option::Some(
                spec_virtual_desktop_normalized_mouse_move_to(
                    (c.0 + x) as i32,
                    (c.1 + y) as i32,
                    screen_width,
                    screen_height,
                    extra_info,
                ),
            ),
        },
{
    match current {
        Option::None => Option::None,
        Option::Some((cx, cy)) => Option::Some(
            virtual_desktop_normalized_mouse_move_to(
                cx + x,
                cy + y,
                screen_width,
                screen_height,
                extra_info,
            ),
        ),
    }
}

/// The record that presses the key with platform code `code`.
pub open spec fn spec_virtual_key_down(code: u16, extra_info: usize) -> WindowsInput {
    spec_keyboard_input(code, 0, 0, extra_info)
}

/// The record that releases the key with platform code `code`.
pub open spec fn spec_virtual_key_up(code: u16, extra_info: usize) -> WindowsInput {
    spec_keyboard_input(code, 0, KEYEVENTF_KEYUP, extra_info)
}

/// Build the record that presses `key`.
pub fn virtual_key_down(key: VirtualKey, extra_info: usize) -> (r: WindowsInput)
    ensures
        r == spec_virtual_key_down(key.code(), extra_info),
{
    keyboard_input(key.code(), 0, 0, extra_info)
}

/// Build the record that releases `key`.
pub fn virtual_key_up(key: VirtualKey, extra_info: usize) -> (r: WindowsInput)
    ensures
        r == spec_virtual_key_up(key.code(), extra_info),
{
    keyboard_input(key.code(), 0, KEYEVENTF_KEYUP, extra_info)
}

/// The record that presses the character `utf16_char`.
pub open spec fn spec_unicode_key_down(utf16_char: u16, extra_info: usize) -> WindowsInput {
    spec_keyboard_input(0, utf16_char, KEYEVENTF_UNICODE, extra_info)
}

/// The record that releases the character `utf16_char`.
pub open spec fn spec_unicode_key_up(utf16_char: u16, extra_info: usize) -> WindowsInput {
    spec_keyboard_input(0, utf16_char, KEYEVENTF_UNICODE | KEYEVENTF_KEYUP, extra_info)
}

/// Build the record that presses the character `utf16_char`, by scan code
/// rather than through the virtual-key table.
pub fn unicode_key_down(utf16_char: u16, extra_info: usize) -> (r: WindowsInput)
    ensures
        r == spec_unicode_key_down(utf16_char, extra_info),
{
    keyboard_input(0, utf16_char, KEYEVENTF_UNICODE, extra_info)
}

/// Build the record that releases the character `utf16_char`.
pub fn unicode_key_up(utf16_char: u16, extra_info: usize) -> (r: WindowsInput)
    ensures
        r == spec_unicode_key_up(utf16_char, extra_info),
{
    keyboard_input(0, utf16_char, KEYEVENTF_UNICODE | KEYEVENTF_KEYUP, extra_info)
}

} // verus!
