use vstd::prelude::*;

use crate::algebra::{UnitQuaternion, Vector3};
use crate::ui::Handle;

verus! {

/// Identity of the host type that owns a property; carried through unchanged.
#[verifier::external_type_specification]
#[verifier::external_body]
pub struct ExTypeId(std::any::TypeId);

/// The kinds of value a property can hold.
#[derive(Clone, Copy, Debug, PartialEq, Eq, Structural)]
pub enum ValueKind {
    UnitQuaternion,
    Vector3,
    Scalar,
    Bool,
}

/// The current value of a property, tagged with its kind.
#[derive(Clone, Copy, Debug, PartialEq, Eq, Structural)]
pub enum PropertyValue<T> {
    UnitQuaternion(UnitQuaternion<T>),
    Vector3(Vector3<T>),
    Scalar(T),
    Bool(bool),
}

impl<T> PropertyValue<T> {
    pub open spec fn kind_spec(&self) -> ValueKind {
        match self {
            PropertyValue::UnitQuaternion(_) => ValueKind::UnitQuaternion,
            PropertyValue::Vector3(_) => ValueKind::Vector3,
            PropertyValue::Scalar(_) => ValueKind::Scalar,
            PropertyValue::Bool(_) => ValueKind::Bool,
        }
    }

    /// The kind of the value held.
    pub fn kind(&self) -> (r: ValueKind)
        ensures
            r == self.kind_spec(),
    {
        match self {
            PropertyValue::UnitQuaternion(_) => ValueKind::UnitQuaternion,
            PropertyValue::Vector3(_) => ValueKind::Vector3,
            PropertyValue::Scalar(_) => ValueKind::Scalar,
            PropertyValue::Bool(_) => ValueKind::Bool,
        }
    }
}

/// Why an inspector operation failed.
#[derive(Clone, Debug)]
pub enum InspectorError {
    /// The property holds a value of another kind than the one asked for.
    TypeMismatch { property_name: String, expected: ValueKind, actual: ValueKind },
}

/// A property as the inspector sees it: its name and its current value.
#[derive(Clone, Debug)]
pub struct FieldInfo<T> {
    pub name: String,
    pub value: PropertyValue<T>,
}

impl<T> FieldInfo<T> {
    /// `e` is the error for reading this property as a unit quaternion when it holds a
    /// value of another kind.
    pub open spec fn is_quaternion_mismatch(&self, e: InspectorError) -> bool {
        &&& e matches InspectorError::TypeMismatch { property_name, expected, actual }
        &&& property_name@ == self.name@
        &&& expected == ValueKind::UnitQuaternion
        &&& actual == self.value.kind_spec()
    }
}

impl<T: Copy> FieldInfo<T> {
    /// The value as a unit quaternion, or a type mismatch when it holds anything else.
    pub fn cast_unit_quaternion(&self) -> (r: Result<UnitQuaternion<T>, InspectorError>)
        ensures
            match self.value {
                PropertyValue::UnitQuaternion(q) => r == Ok::<_, InspectorError>(q),
                _ => r matches Err(e) && self.is_quaternion_mismatch(e),
            },
    {
        match self.value {
            PropertyValue::UnitQuaternion(q) => Ok(q),
            _ => Err(
                InspectorError::TypeMismatch {
                    property_name: self.name.clone(),
                    expected: ValueKind::UnitQuaternion,
                    actual: self.value.kind(),
                },
            ),
        }
    }
}

/// A change of a property made in an editor, reported to the object that owns it.
#[derive(Debug)]
pub struct PropertyChanged<T> {
    pub owner_type_id: std::any::TypeId,
    pub name: String,
    pub value: PropertyValue<T>,
}

/// The widgets that make up one property editor.
#[derive(Clone, Copy, Debug, PartialEq, Eq, Structural)]
pub struct PropertyEditorInstance {
    /// A title widget, where the editor brings its own.
    pub title: Option<Handle>,
    /// The editor widget.
    pub editor: Handle,
}

/// How the parts of a property are arranged.
#[derive(Clone, Copy, Debug, PartialEq, Eq, Structural)]
pub enum Layout {
    Horizontal,
    Vertical,
}

} // verus!
