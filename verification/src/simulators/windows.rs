//! The Windows backend: turns dispatched actions into `SendInput` records.
//!
//! This backend owns the state the concrete effector needs — the cached
//! extra-info token, the cached virtual-desktop size, and the last-known
//! cursor position — and computes, for every action it executes, exactly the
//! input records the platform injection call is to consume. The records
//! accumulate in an outbox in execution order; the thin platform shim drains
//! the outbox and performs the native calls, which no contract here covers.
//!
//! Relative pointer moves need a current position. The backend uses its
//! last-known cursor hint, which the caller refreshes from the platform and
//! every absolute move updates; when no hint is available the move reports
//! failure, as the contract for relative operations demands, rather than
//! guessing.

use vstd::prelude::*;

use crate::common_inputs::Key;
use crate::common_inputs::MouseButton;
use crate::control_flow::Duration;
use crate::input_event::Action;
use crate::input_event::Shape;
use crate::simulator::Event;
use crate::simulator::Simulate;
use crate::simulators::virtual_key::VirtualKey;
use crate::simulators::windows_inner;
use crate::simulators::windows_inner::WindowsInput;

verus! {

/// The virtual-key name of a symbolic key. Every symbolic key maps to
/// exactly one entry of the platform key table.
pub open spec fn spec_windowsify_common_key(key: Key) -> VirtualKey {
    match key {
        Key::Alt => VirtualKey::Alt,
        Key::Shift => VirtualKey::Shift,
        Key::Control => VirtualKey::Control,
        Key::F1 => VirtualKey::F1,
        Key::F2 => VirtualKey::F2,
        Key::F3 => VirtualKey::F3,
        Key::F4 => VirtualKey::F4,
        Key::F5 => VirtualKey::F5,
        Key::F6 => VirtualKey::F6,
        Key::F7 => VirtualKey::F7,
        Key::F8 => VirtualKey::F8,
        Key::F9 => VirtualKey::F9,
        Key::F10 => VirtualKey::F10,
        Key::F11 => VirtualKey::F11,
        Key::F12 => VirtualKey::F12,
        Key::CapsLock => VirtualKey::CapsLock,
        Key::End => VirtualKey::End,
        Key::Home => VirtualKey::Home,
        Key::PageUp => VirtualKey::PageUp,
        Key::PageDown => VirtualKey::PageDown,
        Key::Escape => VirtualKey::Escape,
        Key::Enter => VirtualKey::Enter,
        Key::Space => VirtualKey::Space,
        Key::Tab => VirtualKey::Tab,
        Key::Backspace => VirtualKey::Backspace,
        Key::Delete => VirtualKey::Delete,
        Key::UpArrow => VirtualKey::UpArrow,
        Key::DownArrow => VirtualKey::DownArrow,
        Key::LeftArrow => VirtualKey::LeftArrow,
        Key::RightArrow => VirtualKey::RightArrow,
    }
}

/// Map a symbolic key to its virtual-key name.
pub fn windowsify_common_key(key: Key) -> (r: VirtualKey)
    ensures
        r == spec_windowsify_common_key(key),
{
    match key {
        Key::Alt => VirtualKey::Alt,
        Key::Shift => VirtualKey::Shift,
        Key::Control => VirtualKey::Control,
        Key::F1 => VirtualKey::F1,
        Key::F2 => VirtualKey::F2,
        Key::F3 => VirtualKey::F3,
        Key::F4 => VirtualKey::F4,
        Key::F5 => VirtualKey::F5,
        Key::F6 => VirtualKey::F6,
        Key::F7 => VirtualKey::F7,
        Key::F8 => VirtualKey::F8,
        Key::F9 => VirtualKey::F9,
        Key::F10 => VirtualKey::F10,
        Key::F11 => VirtualKey::F11,
        Key::F12 => VirtualKey::F12,
        Key::CapsLock => VirtualKey::CapsLock,
        Key::End => VirtualKey::End,
        Key::Home => VirtualKey::Home,
        Key::PageUp => VirtualKey::PageUp,
        Key::PageDown => VirtualKey::PageDown,
        Key::Escape => VirtualKey::Escape,
        Key::Enter => VirtualKey::Enter,
        Key::Space => VirtualKey::Space,
        Key::Tab => VirtualKey::Tab,
        Key::Backspace => VirtualKey::Backspace,
        Key::Delete => VirtualKey::Delete,
        Key::UpArrow => VirtualKey::UpArrow,
        Key::DownArrow => VirtualKey::DownArrow,
        Key::LeftArrow => VirtualKey::LeftArrow,
        Key::RightArrow => VirtualKey::RightArrow,
    }
}

/// The symbolic key a virtual-key name stands for, where one exists. The
/// platform table is larger than the symbolic vocabulary, so the inverse is
/// partial.
pub open spec fn spec_commonify_virtual_key(key: VirtualKey) -> Option<Key> {
    match key {
        VirtualKey::Alt => Option::Some(Key::Alt),
        VirtualKey::Shift => Option::Some(Key::Shift),
        VirtualKey::Control => Option::Some(Key::Control),
        VirtualKey::F1 => Option::Some(Key::F1),
        VirtualKey::F2 => Option::Some(Key::F2),
        VirtualKey::F3 => Option::Some(Key::F3),
        VirtualKey::F4 => Option::Some(Key::F4),
        VirtualKey::F5 => Option::Some(Key::F5),
        VirtualKey::F6 => Option::Some(Key::F6),
        VirtualKey::F7 => Option::Some(Key::F7),
        VirtualKey::F8 => Option::Some(Key::F8),
        VirtualKey::F9 => Option::Some(Key::F9),
        VirtualKey::F10 => Option::Some(Key::F10),
        VirtualKey::F11 => Option::Some(Key::F11),
        VirtualKey::F12 => Option::Some(Key::F12),
        VirtualKey::CapsLock => Option::Some(Key::CapsLock),
        VirtualKey::End => Option::Some(Key::End),
        VirtualKey::Home => Option::Some(Key::Home),
        VirtualKey::PageUp => Option::Some(Key::PageUp),
        VirtualKey::PageDown => Option::Some(Key::PageDown),
        VirtualKey::Escape => Option::Some(Key::Escape),
        VirtualKey::Enter => Option::Some(Key::Enter),
        VirtualKey::Space => Option::Some(Key::Space),
        VirtualKey::Tab => Option::Some(Key::Tab),
        VirtualKey::Backspace => Option::Some(Key::Backspace),
        VirtualKey::Delete => Option::Some(Key::Delete),
        VirtualKey::UpArrow => Option::Some(Key::UpArrow),
        VirtualKey::DownArrow => Option::Some(Key::DownArrow),
        VirtualKey::LeftArrow => Option::Some(Key::LeftArrow),
        VirtualKey::RightArrow => Option::Some(Key::RightArrow),
        _ => Option::None,
    }
}

/// Map a virtual-key name back to the symbolic key it stands for, if any.
pub fn commonify_virtual_key(key: VirtualKey) -> (r: Option<Key>)
    ensures
        r == spec_commonify_virtual_key(key),
{
    match key {
        VirtualKey::Alt => Option::Some(Key::Alt),
        VirtualKey::Shift => Option::Some(Key::Shift),
        VirtualKey::Control => Option::Some(Key::Control),
        VirtualKey::F1 => Option::Some(Key::F1),
        VirtualKey::F2 => Option::Some(Key::F2),
        VirtualKey::F3 => Option::Some(Key::F3),
        VirtualKey::F4 => Option::Some(Key::F4),
        VirtualKey::F5 => Option::Some(Key::F5),
        VirtualKey::F6 => Option::Some(Key::F6),
        VirtualKey::F7 => Option::Some(Key::F7),
        VirtualKey::F8 => Option::Some(Key::F8),
        VirtualKey::F9 => Option::Some(Key::F9),
        VirtualKey::F10 => Option::Some(Key::F10),
        VirtualKey::F11 => Option::Some(Key::F11),
        VirtualKey::F12 => Option::Some(Key::F12),
        VirtualKey::CapsLock => Option::Some(Key::CapsLock),
        VirtualKey::End => Option::Some(Key::End),
        VirtualKey::Home => Option::Some(Key::Home),
        VirtualKey::PageUp => Option::Some(Key::PageUp),
        VirtualKey::PageDown => Option::Some(Key::PageDown),
        VirtualKey::Escape => Option::Some(Key::Escape),
        VirtualKey::Enter => Option::Some(Key::Enter),
        VirtualKey::Space => Option::Some(Key::Space),
        VirtualKey::Tab => Option::Some(Key::Tab),
        VirtualKey::Backspace => Option::Some(Key::Backspace),
        VirtualKey::Delete => Option::Some(Key::Delete),
        VirtualKey::UpArrow => Option::Some(Key::UpArrow),
        VirtualKey::DownArrow => Option::Some(Key::DownArrow),
        VirtualKey::LeftArrow => Option::Some(Key::LeftArrow),
        VirtualKey::RightArrow => Option::Some(Key::RightArrow),
        _ => Option::None,
    }
}

/// The key table round-trips: mapping a symbolic key to its platform entry
/// and back yields the key again, both at the virtual-key level and at the
/// level of the numeric platform code.
pub proof fn lemma_key_table_round_trip(key: Key)
    ensures
        spec_commonify_virtual_key(spec_windowsify_common_key(key)) == Option::Some(key),
        crate::simulators::virtual_key::spec_virtual_key_from_code(
            crate::simulators::virtual_key::spec_virtual_key_code(
                spec_windowsify_common_key(key),
            ),
        ) == Option::Some(spec_windowsify_common_key(key)),
{
    crate::simulators::virtual_key::lemma_virtual_key_code_round_trip(
        spec_windowsify_common_key(key),
    );
}

/// One queued piece of platform work, in execution order: a record for the
/// injection call, or a pause of the driving thread.
#[derive(Debug, Clone, Copy, PartialEq, Eq, Structural)]
pub enum OutboxItem {
    Send(WindowsInput),
    Pause(Duration),
}

/// The abstract state of the Windows backend.
pub struct WindowsView {
    /// The cached extra-info token placed in every record.
    pub extra_info: usize,
    /// The cached size of the virtual desktop, in pixels.
    pub virtual_screen_width: i32,
    pub virtual_screen_height: i32,
    /// The last-known cursor position, if any.
    pub cursor_hint: Option<(i32, i32)>,
    /// The queued platform work, oldest first.
    pub outbox: Seq<OutboxItem>,
    /// The calls observed so far.
    pub history: Seq<Event>,
}

/// A cached screen dimension as used for scaling: a dimension below one
/// pixel is treated as one, so scaling is total.
pub open spec fn spec_screen_dim(d: i32) -> i32 {
    if d >= 1 {
        d
    } else {
        1
    }
}

/// Which action shapes the Windows backend executes: every mouse shape and
/// the pacing step; symbolic keys are not among its capabilities.
pub open spec fn windows_supports_shape(shape: Shape) -> bool {
    match shape {
        Shape::MouseButtonSet => true,
        Shape::MousePositionSet => true,
        Shape::MousePositionChange => true,
        Shape::MouseScrollChange => true,
        Shape::KeySet => false,
        Shape::WaitStep => true,
    }
}

/// How one `simulate` call changes the backend state, and whether its
/// effect completes.
///
/// Every call appends one event to the history. A button press or release
/// queues its record; an absolute move queues a normalized virtual-desktop
/// move record and becomes the new cursor hint; a scroll queues its two
/// records; a pacing step queues a pause. A relative move completes only
/// when a cursor hint is known and the target coordinates fit in the
/// signed 32-bit range; it then behaves as an absolute move to the target.
pub open spec fn spec_step(pre: WindowsView, action: Action) -> (WindowsView, bool) {
    let width = spec_screen_dim(pre.virtual_screen_width);
    let height = spec_screen_dim(pre.virtual_screen_height);
    match action {
        Action::SetMouseButton { button, to } => {
            let record = if to {
                windows_inner::spec_mouse_button_down(button, pre.extra_info)
            } else {
                windows_inner::spec_mouse_button_up(button, pre.extra_info)
            };
            (
                WindowsView {
                    outbox: pre.outbox.push(OutboxItem::Send(record)),
                    history: pre.history.push(Event { action, completed: true }),
                    ..pre
                },
                true,
            )
        },
        Action::SetMousePosition { x, y } => {
            let record = windows_inner::spec_virtual_desktop_normalized_mouse_move_to(
                x,
                y,
                width,
                height,
                pre.extra_info,
            );
            (
                WindowsView {
                    outbox: pre.outbox.push(OutboxItem::Send(record)),
                    cursor_hint: Option::Some((x, y)),
                    history: pre.history.push(Event { action, completed: true }),
                    ..pre
                },
                true,
            )
        },
        Action::ChangeMousePosition { dx, dy } => {
            match pre.cursor_hint {
                Option::Some(c) => {
                    if windows_inner::spec_i32_sum_fits(c.0 as int, dx as int)
                        && windows_inner::spec_i32_sum_fits(c.1 as int, dy as int) {
                        let tx = (c.0 + dx) as i32;
                        let ty = (c.1 + dy) as i32;
                        let record =
                            windows_inner::spec_virtual_desktop_normalized_mouse_move_to(
                            tx,
                            ty,
                            width,
                            height,
                            pre.extra_info,
                        );
                        (
                            WindowsView {
                                outbox: pre.outbox.push(OutboxItem::Send(record)),
                                cursor_hint: Option::Some((tx, ty)),
                                history: pre.history.push(Event { action, completed: true }),
                                ..pre
                            },
                            true,
                        )
                    } else {
                        (
                            WindowsView {
                                history: pre.history.push(Event { action, completed: false }),
                                ..pre
                            },
                            false,
                        )
                    }
                },
                Option::None => (
                    WindowsView {
                        history: pre.history.push(Event { action, completed: false }),
                        ..pre
                    },
                    false,
                ),
            }
        },
        Action::ChangeMouseScroll { dx, dy } => {
            let records = windows_inner::spec_mouse_scroll(dx, dy, pre.extra_info);
            (
                WindowsView {
                    outbox: pre.outbox.push(OutboxItem::Send(records.0)).push(
                        OutboxItem::Send(records.1),
                    ),
                    history: pre.history.push(Event { action, completed: true }),
                    ..pre
                },
                true,
            )
        },
        Action::SetKey { .. } => (
            WindowsView {
                history: pre.history.push(Event { action, completed: false }),
                ..pre
            },
            false,
        ),
        Action::Wait { duration } => (
            WindowsView {
                outbox: pre.outbox.push(OutboxItem::Pause(duration)),
                history: pre.history.push(Event { action, completed: true }),
                ..pre
            },
            true,
        ),
    }
}

/// The Windows backend.
///
/// Pointer position precision is subject to differ a little: absolute
/// coordinates are normalized onto the platform's `0..=65535` range, which
/// rounds.
pub struct Windows {
    extra_info: usize,
    virtual_screen_width: i32,
    virtual_screen_height: i32,
    cursor_hint: Option<(i32, i32)>,
    outbox: Vec<OutboxItem>,
    history: Ghost<Seq<Event>>,
}

impl View for Windows {
    type V = WindowsView;

    closed spec fn view(&self) -> WindowsView {
        WindowsView {
            extra_info: self.extra_info,
            virtual_screen_width: self.virtual_screen_width,
            virtual_screen_height: self.virtual_screen_height,
            cursor_hint: self.cursor_hint,
            outbox: self.outbox@,
            history: self.history@,
        }
    }
}

impl Windows {
    /// A fresh backend: no queued work, no observed calls, no cursor hint,
    /// a zero extra-info token, and the virtual desktop taken as the full
    /// normalized range until the caller supplies the real size.
    pub fn new() -> (r: Windows)
        ensures
            r@ == (WindowsView {
                extra_info: 0,
                virtual_screen_width: windows_inner::ABSOLUTE_COORD_MAX,
                virtual_screen_height: windows_inner::ABSOLUTE_COORD_MAX,
                cursor_hint: Option::None,
                outbox: Seq::empty(),
                history: Seq::empty(),
            }),
    {
        let r = Windows {
            extra_info: 0,
            virtual_screen_width: windows_inner::ABSOLUTE_COORD_MAX,
            virtual_screen_height: windows_inner::ABSOLUTE_COORD_MAX,
            cursor_hint: Option::None,
            outbox: Vec::new(),
            history: Ghost(Seq::empty()),
        };
        proof {
            assert(r@.outbox =~= Seq::<OutboxItem>::empty());
            assert(r@.history =~= Seq::<Event>::empty());
        }
        r
    }

    /// Cache the extra-info token the platform reported; it is placed in
    /// every record built from then on.
    pub fn set_extra_info(&mut self, extra_info: usize)
        ensures
            final(self)@ == (WindowsView { extra_info, ..old(self)@ }),
    {
        self.extra_info = extra_info;
    }

    /// Cache the size of the virtual desktop, in pixels, as the platform
    /// reported it.
    pub fn set_virtual_screen_size(&mut self, width: i32, height: i32)
        requires
            width >= 1,
            height >= 1,
        ensures
            final(self)@ == (WindowsView {
                virtual_screen_width: width,
                virtual_screen_height: height,
                ..old(self)@
            }),
    {
        self.virtual_screen_width = width;
        self.virtual_screen_height = height;
    }

    /// Supply the cursor position as the platform reported it, or `None`
    /// where the read failed. Relative moves complete only while a position
    /// is known.
    pub fn set_cursor_hint(&mut self, hint: Option<(i32, i32)>)
        ensures
            final(self)@ == (WindowsView { cursor_hint: hint, ..old(self)@ }),
    {
        self.cursor_hint = hint;
    }

    /// The position the backend currently reports for the pointer: the
    /// last-known cursor position, if any.
    pub fn current_position(&self) -> (r: Option<(i32, i32)>)
        ensures
            r == self@.cursor_hint,
    {
        self.cursor_hint
    }

    /// Hand the queued platform work out, oldest first, leaving the outbox
    /// empty.
    pub fn take_outbox(&mut self) -> (r: Vec<OutboxItem>)
        ensures
            r@ == old(self)@.outbox,
            final(self)@ == (WindowsView { outbox: Seq::empty(), ..old(self)@ }),
    {
        let mut taken: Vec<OutboxItem> = Vec::new();
        std::mem::swap(&mut taken, &mut self.outbox);
        proof {
            assert(self@.outbox =~= Seq::<OutboxItem>::empty());
        }
        taken
    }

    /// Execute one action: exactly the transition [`spec_step`] describes.
    pub fn run_action(&mut self, action: Action) -> (r: bool)
        ensures
            final(self)@ == spec_step(old(self)@, action).0,
            r == spec_step(old(self)@, action).1,
    {
        let width = if self.virtual_screen_width >= 1 {
            self.virtual_screen_width
        } else {
            1
        };
        let height = if self.virtual_screen_height >= 1 {
            self.virtual_screen_height
        } else {
            1
        };
        match action {
            Action::SetMouseButton { button, to } => {
                let record = if to {
                    windows_inner::mouse_button_down(button, self.extra_info)
                } else {
                    windows_inner::mouse_button_up(button, self.extra_info)
                };
                self.outbox.push(OutboxItem::Send(record));
                proof {
                    self.history@ = self.history@.push(Event { action, completed: true });
                }
                true
            },
            Action::SetMousePosition { x, y } => {
                let record = windows_inner::virtual_desktop_normalized_mouse_move_to(
                    x,
                    y,
                    width,
                    height,
                    self.extra_info,
                );
                self.outbox.push(OutboxItem::Send(record));
                self.cursor_hint = Option::Some((x, y));
                proof {
                    self.history@ = self.history@.push(Event { action, completed: true });
                }
                true
            },
            Action::ChangeMousePosition { dx, dy } => {
                match self.cursor_hint {
                    Option::Some((cx, cy)) => {
                        let tx_wide: i64 = cx as i64 + dx as i64;
                        let ty_wide: i64 = cy as i64 + dy as i64;
                        if tx_wide >= i32::MIN as i64 && tx_wide <= i32::MAX as i64
                            && ty_wide >= i32::MIN as i64 && ty_wide <= i32::MAX as i64 {
                            let tx = tx_wide as i32;
                            let ty = ty_wide as i32;
                            let record =
                                windows_inner::virtual_desktop_normalized_mouse_move_to(
                                tx,
                                ty,
                                width,
                                height,
                                self.extra_info,
                            );
                            self.outbox.push(OutboxItem::Send(record));
                            self.cursor_hint = Option::Some((tx, ty));
                            proof {
                                self.history@ = self.history@.push(
                                    Event { action, completed: true },
                                );
                            }
                            true
                        } else {
                            proof {
                                self.history@ = self.history@.push(
                                    Event { action, completed: false },
                                );
                            }
                            false
                        }
                    },
                    Option::None => {
                        proof {
                            self.history@ = self.history@.push(
                                Event { action, completed: false },
                            );
                        }
                        false
                    },
                }
            },
            Action::ChangeMouseScroll { dx, dy } => {
                let records = windows_inner::mouse_scroll(dx, dy, self.extra_info);
                self.outbox.push(OutboxItem::Send(records.0));
                self.outbox.push(OutboxItem::Send(records.1));
                proof {
                    self.history@ = self.history@.push(Event { action, completed: true });
                }
                true
            },
            Action::SetKey { .. } => {
                proof {
                    self.history@ = self.history@.push(Event { action, completed: false });
                }
                false
            },
            Action::Wait { duration } => {
                self.outbox.push(OutboxItem::Pause(duration));
                proof {
                    self.history@ = self.history@.push(Event { action, completed: true });
                }
                true
            },
        }
    }
}

impl Default for Windows {
    /// The same backend [`Windows::new`] returns.
    fn default() -> (r: Windows)
        ensures
            r@ == (WindowsView {
                extra_info: 0,
                virtual_screen_width: windows_inner::ABSOLUTE_COORD_MAX,
                virtual_screen_height: windows_inner::ABSOLUTE_COORD_MAX,
                cursor_hint: Option::None,
                outbox: Seq::empty(),
                history: Seq::empty(),
            }),
    {
        Windows::new()
    }
}

impl Simulate for Windows {
    open spec fn supports(&self, shape: Shape) -> bool {
        windows_supports_shape(shape)
    }

    open spec fn observed(&self) -> Seq<Event> {
        self@.history
    }

    /// A relative move can fail when no current position is known, so this
    /// backend does not promise completion.
    open spec fn infallible(&self) -> bool {
        false
    }

    fn is_supported(&self, shape: Shape) -> (r: bool)
        ensures
            r == self.supports(shape),
    {
        match shape {
            Shape::KeySet => false,
            _ => true,
        }
    }

    /// Exactly the transition [`spec_step`] describes: the same contract as
    /// [`Windows::run_action`], so a dispatching caller learns the queued
    /// records, the cursor hint and the failure flag, not only the observed
    /// history.
    fn simulate(&mut self, action: Action) -> (r: bool)
        ensures
            final(self)@ == spec_step(old(self)@, action).0,
            r == spec_step(old(self)@, action).1,
            final(self).observed() == old(self).observed().push(
                Event { action, completed: r },
            ),
            forall|s: Shape| final(self).supports(s) == old(self).supports(s),
            final(self).infallible() == old(self).infallible(),
            old(self).infallible() ==> r,
    {
        self.run_action(action)
    }
}

/// Idempotence of absolute pointer placement: driving the pointer to
/// `(x, y)` completes and leaves the backend reporting position `(x, y)`,
/// and driving it to `(x, y)` again, in direct succession, completes and
/// leaves the report unchanged.
pub proof fn lemma_set_position_idempotent(pre: WindowsView, x: i32, y: i32)
    ensures
        ({
            let first = spec_step(pre, Action::SetMousePosition { x, y });
            let second = spec_step(first.0, Action::SetMousePosition { x, y });
            &&& first.1
            &&& second.1
            &&& first.0.cursor_hint == Option::Some((x, y))
            &&& second.0.cursor_hint == Option::Some((x, y))
            &&& second.0.cursor_hint == first.0.cursor_hint
        }),
{
}

} // verus!
