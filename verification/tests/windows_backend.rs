use kemuler::combinator::sequence;
use kemuler::common_inputs::MouseButton;
use kemuler::control_flow::Duration;
use kemuler::input_event::Action;
use kemuler::simulator::dispatch;
use kemuler::simulator::DispatchError;
use kemuler::simulator::Simulate;
use kemuler::simulators::windows::OutboxItem;
use kemuler::simulators::windows::Windows;
use kemuler::simulators::windows_inner::WindowsInput;
use kemuler::simulators::windows_inner::WindowsSendInputEnum;
use kemuler::simulators::windows_inner::INPUT_MOUSE;
use kemuler::simulators::windows_inner::MOUSEEVENTF_ABSOLUTE;
use kemuler::simulators::windows_inner::MOUSEEVENTF_HWHEEL;
use kemuler::simulators::windows_inner::MOUSEEVENTF_LEFTDOWN;
use kemuler::simulators::windows_inner::MOUSEEVENTF_MOVE;
use kemuler::simulators::windows_inner::MOUSEEVENTF_VIRTUALDESK;
use kemuler::simulators::windows_inner::MOUSEEVENTF_WHEEL;
use kemuler::simulators::windows_inner::MOUSEEVENTF_XUP;
use kemuler::simulators::windows_inner::XBUTTON2;
use kemuler::input_event::Shape;

fn sent(item: &OutboxItem) -> WindowsInput {
    match item {
        OutboxItem::Send(input) => *input,
        OutboxItem::Pause(_) => panic!("expected a send record, found a pause"),
    }
}

fn mouse_record(dx: i32, dy: i32, mouse_data: i32, flags: u32, extra_info: usize) -> WindowsInput {
    WindowsInput {
        kind: INPUT_MOUSE,
        payload: WindowsSendInputEnum::Mouse { dx, dy, mouse_data, flags, time: 0, extra_info },
    }
}

#[test]
fn absolute_position_is_idempotent() {
    // Driving the pointer to (x, y) twice in direct succession leaves the
    // backend reporting (x, y) both times.
    let mut windows = Windows::new();
    let tree = Action::SetMousePosition { x: 320, y: 200 }.into_node();

    assert_eq!(dispatch(&tree, &mut windows), Ok(()));
    assert_eq!(windows.current_position(), Some((320, 200)));

    assert_eq!(dispatch(&tree, &mut windows), Ok(()));
    assert_eq!(windows.current_position(), Some((320, 200)));
}

#[test]
fn button_down_record_fields() {
    let mut windows = Windows::new();
    windows.set_extra_info(9);
    let tree = MouseButton::Left.down().to_action().into_node();
    assert_eq!(dispatch(&tree, &mut windows), Ok(()));

    let outbox = windows.take_outbox();
    assert_eq!(outbox.len(), 1);
    assert_eq!(sent(&outbox[0]), mouse_record(0, 0, 0, MOUSEEVENTF_LEFTDOWN, 9));
}

#[test]
fn extra_button_release_record_fields() {
    let mut windows = Windows::new();
    let tree = MouseButton::X2.up().to_action().into_node();
    assert_eq!(dispatch(&tree, &mut windows), Ok(()));

    let outbox = windows.take_outbox();
    assert_eq!(outbox.len(), 1);
    assert_eq!(sent(&outbox[0]), mouse_record(0, 0, XBUTTON2, MOUSEEVENTF_XUP, 0));
}

#[test]
fn scroll_queues_vertical_then_horizontal() {
    let mut windows = Windows::new();
    let tree = Action::ChangeMouseScroll { dx: 3, dy: -120 }.into_node();
    assert_eq!(dispatch(&tree, &mut windows), Ok(()));

    let outbox = windows.take_outbox();
    assert_eq!(outbox.len(), 2);
    assert_eq!(sent(&outbox[0]), mouse_record(0, 0, -120, MOUSEEVENTF_WHEEL, 0));
    assert_eq!(sent(&outbox[1]), mouse_record(0, 0, 3, MOUSEEVENTF_HWHEEL, 0));
}

#[test]
fn absolute_move_scales_onto_normalized_range() {
    let mut windows = Windows::new();
    windows.set_virtual_screen_size(1920, 1080);
    windows.set_extra_info(7);
    let tree = Action::SetMousePosition { x: 960, y: 540 }.into_node();
    assert_eq!(dispatch(&tree, &mut windows), Ok(()));

    let outbox = windows.take_outbox();
    assert_eq!(outbox.len(), 1);
    let flags = MOUSEEVENTF_MOVE | MOUSEEVENTF_ABSOLUTE | MOUSEEVENTF_VIRTUALDESK;
    // 960 * 65535 / 1920 and 540 * 65535 / 1080, truncated.
    assert_eq!(sent(&outbox[0]), mouse_record(32767, 32767, 0, flags, 7));
}

#[test]
fn absolute_move_clamps_to_the_screen() {
    let mut windows = Windows::new();
    windows.set_virtual_screen_size(1000, 1000);
    let tree = Action::SetMousePosition { x: -100, y: 99_999 }.into_node();
    assert_eq!(dispatch(&tree, &mut windows), Ok(()));

    let outbox = windows.take_outbox();
    assert_eq!(outbox.len(), 1);
    let flags = MOUSEEVENTF_MOVE | MOUSEEVENTF_ABSOLUTE | MOUSEEVENTF_VIRTUALDESK;
    assert_eq!(sent(&outbox[0]), mouse_record(0, 65535, 0, flags, 0));
}

#[test]
fn relative_move_without_a_position_reports_failure() {
    // A relative move needs the current position; a fresh backend has none,
    // so the action's failure is observable in the dispatch result.
    let mut windows = Windows::new();
    let tree = Action::ChangeMousePosition { dx: 5, dy: 5 }.into_node();
    assert_eq!(
        dispatch(&tree, &mut windows),
        Err(DispatchError::Incomplete { leaf_index: 0 })
    );
    assert_eq!(windows.take_outbox().len(), 0);
}

#[test]
fn relative_move_follows_the_known_position() {
    let mut windows = Windows::new();
    windows.set_virtual_screen_size(1000, 1000);
    windows.set_cursor_hint(Some((10, 20)));
    let tree = Action::ChangeMousePosition { dx: 5, dy: -3 }.into_node();
    assert_eq!(dispatch(&tree, &mut windows), Ok(()));
    assert_eq!(windows.current_position(), Some((15, 17)));

    let outbox = windows.take_outbox();
    assert_eq!(outbox.len(), 1);
    let flags = MOUSEEVENTF_MOVE | MOUSEEVENTF_ABSOLUTE | MOUSEEVENTF_VIRTUALDESK;
    // 15 * 65535 / 1000 = 983 and 17 * 65535 / 1000 = 1114, truncated.
    assert_eq!(sent(&outbox[0]), mouse_record(983, 1114, 0, flags, 0));
}

#[test]
fn relative_move_after_absolute_move_succeeds() {
    let mut windows = Windows::new();
    let first = Action::ChangeMousePosition { dx: 1, dy: 1 }.into_node();
    assert_eq!(
        dispatch(&first, &mut windows),
        Err(DispatchError::Incomplete { leaf_index: 0 })
    );

    let place_then_nudge = sequence(vec![
        Action::SetMousePosition { x: 100, y: 100 }.into_node(),
        Action::ChangeMousePosition { dx: 1, dy: 1 }.into_node(),
    ]);
    assert_eq!(dispatch(&place_then_nudge, &mut windows), Ok(()));
    assert_eq!(windows.current_position(), Some((101, 101)));
}

#[test]
fn relative_move_overflow_reports_failure() {
    let mut windows = Windows::new();
    windows.set_cursor_hint(Some((i32::MAX, 0)));
    let tree = Action::ChangeMousePosition { dx: 1, dy: 0 }.into_node();
    assert_eq!(
        dispatch(&tree, &mut windows),
        Err(DispatchError::Incomplete { leaf_index: 0 })
    );
    assert_eq!(windows.current_position(), Some((i32::MAX, 0)));
}

#[test]
fn key_actions_are_not_supported() {
    let mut windows = Windows::new();
    let tree = sequence(vec![
        MouseButton::Left.down().to_action().into_node(),
        Action::SetKey { key: kemuler::common_inputs::Key::Enter, to: true }.into_node(),
    ]);
    let outcome = dispatch(&tree, &mut windows);
    assert_eq!(
        outcome,
        Err(DispatchError::UnsupportedShape {
            shape: kemuler::input_event::Shape::KeySet,
            leaf_index: 1,
        })
    );
    // Fail-fast: nothing was queued.
    assert_eq!(windows.take_outbox().len(), 0);
}

#[test]
fn wait_is_queued_as_a_pause() {
    let mut windows = Windows::new();
    let pause = Duration::from_millis(250);
    let tree = Action::Wait { duration: pause }.into_node();
    assert_eq!(dispatch(&tree, &mut windows), Ok(()));

    let outbox = windows.take_outbox();
    assert_eq!(outbox.len(), 1);
    assert_eq!(outbox[0], OutboxItem::Pause(pause));
}

#[test]
fn simulate_is_called_once_per_leaf() {
    let mut windows = Windows::new();
    let tree = sequence(vec![
        MouseButton::Left.down().to_action().into_node(),
        MouseButton::Left.up().to_action().into_node(),
        Action::ChangeMouseScroll { dx: 0, dy: 1 }.into_node(),
    ]);
    assert_eq!(dispatch(&tree, &mut windows), Ok(()));
    // Scroll queues two records, the button actions one each.
    assert_eq!(windows.take_outbox().len(), 4);
}

#[test]
fn is_supported_matches_declared_capabilities() {
    let windows = Windows::new();
    assert!(windows.is_supported(Shape::MouseButtonSet));
    assert!(windows.is_supported(Shape::MousePositionSet));
    assert!(windows.is_supported(Shape::MousePositionChange));
    assert!(windows.is_supported(Shape::MouseScrollChange));
    assert!(windows.is_supported(Shape::WaitStep));
    assert!(!windows.is_supported(Shape::KeySet));
}
