use vstd::prelude::*;

use crate::algebra::Vector3;
use crate::ui::Handle;

verus! {

/// Which way a message travels: from the toolkit to a widget (an update of what the
/// widget shows), or from a widget to the toolkit (an edit made by the user).
#[derive(Clone, Copy, Debug, PartialEq, Eq, Structural)]
pub enum MessageDirection {
    ToWidget,
    FromWidget,
}

/// Messages of the three-number editor.
#[derive(Clone, Copy, Debug, PartialEq, Eq, Structural)]
pub enum Vec3EditorMessage<T> {
    /// The value that the editor shows.
    Value(Vector3<T>),
}

impl<T: Copy> Vec3EditorMessage<T> {
    /// A message that carries the value of the three-number editor at `destination`.
    pub fn value(destination: Handle, direction: MessageDirection, value: Vector3<T>) -> (r:
        UiMessage<T>)
        ensures
            r == (UiMessage {
                destination,
                direction,
                data: UiMessageData::Vec3Editor(Vec3EditorMessage::Value(value)),
            }),
    {
        UiMessage {
            destination,
            direction,
            data: UiMessageData::Vec3Editor(Vec3EditorMessage::Value(value)),
        }
    }
}

/// Messages of the number editor.
#[derive(Clone, Copy, Debug, PartialEq, Eq, Structural)]
pub enum NumericUpDownMessage<T> {
    Value(T),
}

/// Messages of the check box.
#[derive(Clone, Copy, Debug, PartialEq, Eq, Structural)]
pub enum CheckBoxMessage {
    Checked(Option<bool>),
}

/// What a message says, by the kind of widget it is about.
#[derive(Clone, Copy, Debug, PartialEq, Eq, Structural)]
pub enum UiMessageData<T> {
    Vec3Editor(Vec3EditorMessage<T>),
    NumericUpDown(NumericUpDownMessage<T>),
    CheckBox(CheckBoxMessage),
}

/// A message of the toolkit's message bus.
#[derive(Clone, Copy, Debug, PartialEq, Eq, Structural)]
pub struct UiMessage<T> {
    pub destination: Handle,
    pub direction: MessageDirection,
    pub data: UiMessageData<T>,
}

impl<T: Copy> UiMessage<T> {
    pub fn direction(&self) -> (r: MessageDirection)
        ensures
            r == self.direction,
    {
        self.direction
    }

    pub fn destination(&self) -> (r: Handle)
        ensures
            r == self.destination,
    {
        self.destination
    }

    pub fn data(&self) -> (r: &UiMessageData<T>)
        ensures
            *r == self.data,
    {
        &self.data
    }
}

} // verus!
