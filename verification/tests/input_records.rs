use kemuler::simulators::virtual_key::VirtualKey;
use kemuler::simulators::windows_inner::mouse_button_down;
use kemuler::simulators::windows_inner::mouse_button_up;
use kemuler::simulators::windows_inner::mouse_move_by;
use kemuler::simulators::windows_inner::mouse_move_to;
use kemuler::simulators::windows_inner::mouse_scroll;
use kemuler::simulators::windows_inner::normalized_mouse_move_by;
use kemuler::simulators::windows_inner::normalized_mouse_move_to;
use kemuler::simulators::windows_inner::unicode_key_down;
use kemuler::simulators::windows_inner::unicode_key_up;
use kemuler::simulators::windows_inner::virtual_desktop_normalized_mouse_move_by;
use kemuler::simulators::windows_inner::virtual_desktop_normalized_mouse_move_to;
use kemuler::simulators::windows_inner::virtual_key_down;
use kemuler::simulators::windows_inner::virtual_key_up;
use kemuler::simulators::windows_inner::WindowsInput;
use kemuler::simulators::windows_inner::WindowsSendInputEnum;
use kemuler::simulators::windows_inner::INPUT_HARDWARE;
use kemuler::simulators::windows_inner::INPUT_KEYBOARD;
use kemuler::simulators::windows_inner::INPUT_MOUSE;
use kemuler::simulators::windows_inner::KEYEVENTF_KEYUP;
use kemuler::simulators::windows_inner::KEYEVENTF_UNICODE;
use kemuler::simulators::windows_inner::MOUSEEVENTF_ABSOLUTE;
use kemuler::simulators::windows_inner::MOUSEEVENTF_MIDDLEDOWN;
use kemuler::simulators::windows_inner::MOUSEEVENTF_MIDDLEUP;
use kemuler::simulators::windows_inner::MOUSEEVENTF_MOVE;
use kemuler::simulators::windows_inner::MOUSEEVENTF_RIGHTDOWN;
use kemuler::simulators::windows_inner::MOUSEEVENTF_VIRTUALDESK;
use kemuler::simulators::windows_inner::MOUSEEVENTF_XDOWN;
use kemuler::simulators::windows_inner::XBUTTON1;
use kemuler::common_inputs::MouseButton;

fn mouse_payload(input: &WindowsInput) -> (i32, i32, i32, u32, u32, usize) {
    assert_eq!(input.kind, INPUT_MOUSE);
    match input.payload {
        WindowsSendInputEnum::Mouse { dx, dy, mouse_data, flags, time, extra_info } => {
            (dx, dy, mouse_data, flags, time, extra_info)
        }
        _ => panic!("expected a mouse payload"),
    }
}

fn keyboard_payload(input: &WindowsInput) -> (u16, u16, u32, u32, usize) {
    assert_eq!(input.kind, INPUT_KEYBOARD);
    match input.payload {
        WindowsSendInputEnum::Keyboard { virtual_key, scan, flags, time, extra_info } => {
            (virtual_key, scan, flags, time, extra_info)
        }
        _ => panic!("expected a keyboard payload"),
    }
}

#[test]
fn record_kinds_match_their_payloads() {
    let keyboard = WindowsSendInputEnum::Keyboard {
        virtual_key: 0x0D,
        scan: 0,
        flags: 0,
        time: 0,
        extra_info: 0,
    };
    assert_eq!(keyboard.into_windows().kind, INPUT_KEYBOARD);

    let mouse = WindowsSendInputEnum::Mouse {
        dx: 0,
        dy: 0,
        mouse_data: 0,
        flags: 0,
        time: 0,
        extra_info: 0,
    };
    assert_eq!(mouse.into_windows().kind, INPUT_MOUSE);

    let hardware = WindowsSendInputEnum::Hardware { message: 1, param_low: 2, param_high: 3 };
    let tagged = hardware.into_windows();
    assert_eq!(tagged.kind, INPUT_HARDWARE);
    assert_eq!(tagged.payload, hardware);
}

#[test]
fn button_records_carry_flag_and_button_data() {
    let down = mouse_button_down(MouseButton::Middle, 4);
    assert_eq!(mouse_payload(&down), (0, 0, 0, MOUSEEVENTF_MIDDLEDOWN, 0, 4));

    let up = mouse_button_up(MouseButton::Middle, 4);
    assert_eq!(mouse_payload(&up), (0, 0, 0, MOUSEEVENTF_MIDDLEUP, 0, 4));

    let x1_down = mouse_button_down(MouseButton::X1, 0);
    assert_eq!(mouse_payload(&x1_down), (0, 0, XBUTTON1, MOUSEEVENTF_XDOWN, 0, 0));

    let right_down = mouse_button_down(MouseButton::Right, 0);
    assert_eq!(mouse_payload(&right_down), (0, 0, 0, MOUSEEVENTF_RIGHTDOWN, 0, 0));
}

#[test]
fn scroll_builds_wheel_then_horizontal_wheel() {
    let (vertical, horizontal) = mouse_scroll(7, -3, 1);
    let (_, _, data_v, flags_v, _, _) = mouse_payload(&vertical);
    let (_, _, data_h, flags_h, _, _) = mouse_payload(&horizontal);
    assert_eq!(data_v, -3);
    assert_eq!(flags_v, 0x0800);
    assert_eq!(data_h, 7);
    assert_eq!(flags_h, 0x1000);
}

#[test]
fn raw_move_records_carry_their_flags() {
    let absolute = mouse_move_to(100, 200, 0);
    assert_eq!(
        mouse_payload(&absolute),
        (100, 200, 0, MOUSEEVENTF_MOVE | MOUSEEVENTF_ABSOLUTE, 0, 0)
    );

    let relative = mouse_move_by(-5, 9, 2);
    assert_eq!(mouse_payload(&relative), (-5, 9, 0, MOUSEEVENTF_MOVE, 0, 2));
}

#[test]
fn normalized_moves_scale_by_the_screen_size() {
    // 250 * 65535 / 1000 = 16383 (truncated), 750 * 65535 / 1000 = 49151.
    let primary = normalized_mouse_move_to(250, 750, 1000, 1000, 0);
    assert_eq!(
        mouse_payload(&primary),
        (16383, 49151, 0, MOUSEEVENTF_MOVE | MOUSEEVENTF_ABSOLUTE, 0, 0)
    );

    let virtual_desktop = virtual_desktop_normalized_mouse_move_to(250, 750, 1000, 1000, 0);
    assert_eq!(
        mouse_payload(&virtual_desktop),
        (
            16383,
            49151,
            0,
            MOUSEEVENTF_MOVE | MOUSEEVENTF_ABSOLUTE | MOUSEEVENTF_VIRTUALDESK,
            0,
            0
        )
    );
}

#[test]
fn full_scale_coordinates_reach_the_corners() {
    let corner = normalized_mouse_move_to(1000, 0, 1000, 1000, 0);
    assert_eq!(
        mouse_payload(&corner),
        (65535, 0, 0, MOUSEEVENTF_MOVE | MOUSEEVENTF_ABSOLUTE, 0, 0)
    );
}

#[test]
fn relative_normalized_moves_need_a_current_position() {
    assert_eq!(normalized_mouse_move_by(5, 5, None, 1000, 1000, 0), None);
    assert_eq!(virtual_desktop_normalized_mouse_move_by(5, 5, None, 1000, 1000, 0), None);

    let moved = normalized_mouse_move_by(5, 5, Some((245, 745)), 1000, 1000, 0);
    assert_eq!(moved, Some(normalized_mouse_move_to(250, 750, 1000, 1000, 0)));

    let moved_virtual =
        virtual_desktop_normalized_mouse_move_by(5, 5, Some((245, 745)), 1000, 1000, 0);
    assert_eq!(
        moved_virtual,
        Some(virtual_desktop_normalized_mouse_move_to(250, 750, 1000, 1000, 0))
    );
}

#[test]
fn key_records_use_the_virtual_key_code() {
    let down = virtual_key_down(VirtualKey::Enter, 3);
    assert_eq!(keyboard_payload(&down), (0x0D, 0, 0, 0, 3));

    let up = virtual_key_up(VirtualKey::Enter, 3);
    assert_eq!(keyboard_payload(&up), (0x0D, 0, KEYEVENTF_KEYUP, 0, 3));
}

#[test]
fn unicode_records_use_the_scan_code() {
    let down = unicode_key_down(0x61, 0);
    assert_eq!(keyboard_payload(&down), (0, 0x61, KEYEVENTF_UNICODE, 0, 0));

    let up = unicode_key_up(0x61, 0);
    assert_eq!(keyboard_payload(&up), (0, 0x61, KEYEVENTF_UNICODE | KEYEVENTF_KEYUP, 0, 0));
}
