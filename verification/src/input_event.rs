//! Action descriptors: immutable values pairing an input subject with an
//! absolute or relative payload.
//!
//! `SetTo` and `ChangeBy` are plain data; constructing one performs no side
//! effect. The closed set of subject/payload pairings a backend can be asked
//! to execute is [`Action`]; each descriptor converts into the `Action`
//! variant for its pairing.

use vstd::prelude::*;

use crate::common_inputs::Key;
use crate::common_inputs::MouseButton;
use crate::control_flow::Duration;

verus! {

/// "Drive `input` to the absolute value `to`." Pure data.
#[derive(Debug, Clone, Copy, PartialEq, Eq, Hash, Structural)]
pub struct SetTo<S, V> {
    pub input: S,
    pub to: V,
}

/// "Drive `input` by the relative amount `by`." Pure data.
#[derive(Debug, Clone, Copy, PartialEq, Eq, Hash, Structural)]
pub struct ChangeBy<S, V> {
    pub input: S,
    pub by: V,
}

/// One concrete action: a subject/payload pairing a backend can execute,
/// or a pacing step that suspends between neighbouring actions.
#[derive(Debug, Clone, Copy, PartialEq, Eq, Hash, Structural)]
pub enum Action {
    /// Press (`to == true`) or release (`to == false`) a mouse button.
    SetMouseButton { button: MouseButton, to: bool },
    /// Move the pointer to the absolute position `(x, y)`.
    SetMousePosition { x: i32, y: i32 },
    /// Move the pointer by the relative amount `(dx, dy)`.
    ChangeMousePosition { dx: i32, dy: i32 },
    /// Scroll by `dx` horizontal and `dy` vertical wheel units.
    ChangeMouseScroll { dx: i32, dy: i32 },
    /// Press (`to == true`) or release (`to == false`) a keyboard key.
    SetKey { key: Key, to: bool },
    /// Block for `duration` before the next action begins.
    Wait { duration: Duration },
}

/// The shape of an action: which subject/payload pairing it is, with the
/// payload abstracted away. A backend declares support per shape.
#[derive(Debug, Clone, Copy, PartialEq, Eq, Hash, Structural)]
pub enum Shape {
    MouseButtonSet,
    MousePositionSet,
    MousePositionChange,
    MouseScrollChange,
    KeySet,
    WaitStep,
}

impl Action {
    pub open spec fn spec_shape(&self) -> Shape {
        match self {
            Action::SetMouseButton { .. } => Shape::MouseButtonSet,
            Action::SetMousePosition { .. } => Shape::MousePositionSet,
            Action::ChangeMousePosition { .. } => Shape::MousePositionChange,
            Action::ChangeMouseScroll { .. } => Shape::MouseScrollChange,
            Action::SetKey { .. } => Shape::KeySet,
            Action::Wait { .. } => Shape::WaitStep,
        }
    }

    /// The shape of this action.
    #[verifier::when_used_as_spec(spec_shape)]
    pub fn shape(&self) -> (s: Shape)
        ensures
            s == self.spec_shape(),
    {
        match self {
            Action::SetMouseButton { .. } => Shape::MouseButtonSet,
            Action::SetMousePosition { .. } => Shape::MousePositionSet,
            Action::ChangeMousePosition { .. } => Shape::MousePositionChange,
            Action::ChangeMouseScroll { .. } => Shape::MouseScrollChange,
            Action::SetKey { .. } => Shape::KeySet,
            Action::Wait { .. } => Shape::WaitStep,
        }
    }
}

impl MouseButton {
    /// Set this button: press it when `to` is true, release it when `to` is
    /// false. A convenience shorthand for building the descriptor directly;
    /// it is pure data and performs no side effect.
    pub fn set_to(self, to: bool) -> (r: SetTo<MouseButton, bool>)
        ensures
            r == (SetTo { input: self, to }),
    {
        SetTo { input: self, to }
    }

    /// Press the button: shorthand for `set_to(true)`.
    pub fn down(self) -> (r: SetTo<MouseButton, bool>)
        ensures
            r == (SetTo { input: self, to: true }),
    {
        self.set_to(true)
    }

    /// Release the button: shorthand for `set_to(false)`.
    pub fn up(self) -> (r: SetTo<MouseButton, bool>)
        ensures
            r == (SetTo { input: self, to: false }),
    {
        self.set_to(false)
    }

    /// Press and release the button: the two-element sequence of `down`
    /// then `up`.
    pub fn click(self) -> (r: crate::combinator::Node)
        ensures
            r.leaves() == seq![
                Action::SetMouseButton { button: self, to: true },
                Action::SetMouseButton { button: self, to: false },
            ],
    {
        let down = self.down().to_action().into_node();
        let up = self.up().to_action().into_node();
        let r = crate::combinator::and_then(down, up);
        proof {
            assert(r.leaves() =~= seq![
                Action::SetMouseButton { button: self, to: true },
                Action::SetMouseButton { button: self, to: false },
            ]);
        }
        r
    }
}

impl SetTo<MouseButton, bool> {
    /// The action this descriptor stands for.
    pub fn to_action(self) -> (a: Action)
        ensures
            a == (Action::SetMouseButton { button: self.input, to: self.to }),
    {
        Action::SetMouseButton { button: self.input, to: self.to }
    }
}

impl SetTo<crate::common_inputs::MousePosition, (i32, i32)> {
    /// The action this descriptor stands for.
    pub fn to_action(self) -> (a: Action)
        ensures
            a == (Action::SetMousePosition { x: self.to.0, y: self.to.1 }),
    {
        Action::SetMousePosition { x: self.to.0, y: self.to.1 }
    }
}

impl ChangeBy<crate::common_inputs::MousePosition, (i32, i32)> {
    /// The action this descriptor stands for.
    pub fn to_action(self) -> (a: Action)
        ensures
            a == (Action::ChangeMousePosition { dx: self.by.0, dy: self.by.1 }),
    {
        Action::ChangeMousePosition { dx: self.by.0, dy: self.by.1 }
    }
}

impl ChangeBy<crate::common_inputs::MouseScroll, (i32, i32)> {
    /// The action this descriptor stands for.
    pub fn to_action(self) -> (a: Action)
        ensures
            a == (Action::ChangeMouseScroll { dx: self.by.0, dy: self.by.1 }),
    {
        Action::ChangeMouseScroll { dx: self.by.0, dy: self.by.1 }
    }
}

impl SetTo<Key, bool> {
    /// The action this descriptor stands for.
    pub fn to_action(self) -> (a: Action)
        ensures
            a == (Action::SetKey { key: self.input, to: self.to }),
    {
        Action::SetKey { key: self.input, to: self.to }
    }
}

} // verus!
