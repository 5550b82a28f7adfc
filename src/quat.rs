use vstd::prelude::*;

use crate::algebra::{UnitQuaternion, Vector3};
use crate::inspector::{
    FieldInfo, InspectorError, Layout, PropertyChanged, PropertyEditorInstance, PropertyValue,
    ValueKind,
};
use crate::message::{MessageDirection, UiMessage, UiMessageData, Vec3EditorMessage};
use crate::ui::{BuildContext, Handle, Thickness, UiNode};

verus! {

/// The space around the editor widget on each side.
pub const EDITOR_MARGIN: u32 = 1;

/// The editor node that shows the Euler angles `euler_degrees`.
pub open spec fn euler_editor_node<T>(euler_degrees: Vector3<T>) -> UiNode<T> {
    UiNode::Vec3Editor {
        margin: Thickness {
            left: EDITOR_MARGIN,
            top: EDITOR_MARGIN,
            right: EDITOR_MARGIN,
            bottom: EDITOR_MARGIN,
        },
        value: euler_degrees,
    }
}

/// Edits a unit quaternion property as three Euler angles in degrees (rotation order
/// XYZ).
///
/// The conversions are numeric work on the scalar type and are passed to each operation:
/// `to_euler_degrees` decomposes a rotation into its XYZ Euler angles in degrees, and
/// `from_euler_degrees` builds the rotation back from such angles. The editor keeps no
/// state of its own: what it shows is always recomputed from the stored rotation.
#[derive(Clone, Copy, Debug)]
pub struct QuatPropertyEditorDefinition;

impl QuatPropertyEditorDefinition {
    /// The kind of value this editor is for.
    pub fn value_type_id(&self) -> (r: ValueKind)
        ensures
            r == ValueKind::UnitQuaternion,
    {
        ValueKind::UnitQuaternion
    }

    /// Builds the editor for `property_info` into `build_context`: a three-number editor
    /// that shows the rotation's Euler angles in degrees, with a uniform margin.
    ///
    /// When the property does not hold a unit quaternion, fails with a type mismatch and
    /// builds nothing.
    pub fn create_instance<T: Copy, F: Fn(UnitQuaternion<T>) -> Vector3<T>>(
        &self,
        property_info: &FieldInfo<T>,
        build_context: &mut BuildContext<T>,
        to_euler_degrees: F,
    ) -> (r: Result<PropertyEditorInstance, InspectorError>)
        requires
            old(build_context)@.len() < usize::MAX,
            forall|q: UnitQuaternion<T>| to_euler_degrees.requires((q,)),
        ensures
            match property_info.value {
                PropertyValue::UnitQuaternion(q) => {
                    &&& r matches Ok(instance)
                    &&& instance.title is None
                    &&& instance.editor.index == old(build_context)@.len()
                    &&& exists|e: Vector3<T>|
                        #![trigger euler_editor_node(e)]
                        to_euler_degrees.ensures((q,), e) && final(build_context)@ == old(
                            build_context,
                        )@.push(euler_editor_node(e))
                },
                _ => {
                    &&& r matches Err(e)
                    &&& property_info.is_quaternion_mismatch(e)
                    &&& final(build_context)@ == old(build_context)@
                },
            },
    {
        let value = match property_info.cast_unit_quaternion() {
            Ok(value) => value,
            Err(e) => {
                return Err(e);
            },
        };
        let euler = to_euler_degrees(value);
        let editor = build_context.add_node(
            UiNode::Vec3Editor { margin: Thickness::uniform(EDITOR_MARGIN), value: euler },
        );
        assert(final(build_context)@ == old(build_context)@.push(euler_editor_node(euler)));
        Ok(PropertyEditorInstance { title: None, editor })
    }
    /// The message that brings the editor at `instance` up to date with `property_info`:
    /// the rotation's Euler angles in degrees, sent towards the widget so that it is not
    /// taken for an edit.
    ///
    /// When the property does not hold a unit quaternion, fails with a type mismatch.
    pub fn create_message<T: Copy, F: Fn(UnitQuaternion<T>) -> Vector3<T>>(
        &self,
        instance: Handle,
        property_info: &FieldInfo<T>,
        to_euler_degrees: F,
    ) -> (r: Result<Option<UiMessage<T>>, InspectorError>)
        requires
            forall|q: UnitQuaternion<T>| to_euler_degrees.requires((q,)),
        ensures
            match property_info.value {
                PropertyValue::UnitQuaternion(q) => {
                    &&& r matches Ok(Some(message))
                    &&& message.destination == instance
                    &&& message.direction == MessageDirection::ToWidget
                    &&& message.data matches UiMessageData::Vec3Editor(
                        Vec3EditorMessage::Value(e),
                    )
                    &&& to_euler_degrees.ensures((q,), e)
                },
                _ => r matches Err(e) && property_info.is_quaternion_mismatch(e),
            },
    {
        let value = match property_info.cast_unit_quaternion() {
            Ok(value) => value,
            Err(e) => {
                return Err(e);
            },
        };
        let euler_degrees = to_euler_degrees(value);
        Ok(Some(Vec3EditorMessage::value(instance, MessageDirection::ToWidget, euler_degrees)))
    }

    /// The change record for an edit that the user made in the editor: only a value
    /// message of the three-number editor that comes from the widget counts. Its angles,
    /// in degrees, are turned back into a rotation, reported for the field `name` of the
    /// owner type `owner_type_id`. Every other message gives nothing.
    pub fn translate_message<T: Copy, G: Fn(Vector3<T>) -> UnitQuaternion<T>>(
        &self,
        name: &str,
        owner_type_id: std::any::TypeId,
        message: &UiMessage<T>,
        from_euler_degrees: G,
    ) -> (r: Option<PropertyChanged<T>>)
        requires
            forall|v: Vector3<T>| from_euler_degrees.requires((v,)),
        ensures
            message.direction == MessageDirection::ToWidget ==> r is None,
            !(message.data is Vec3Editor) ==> r is None,
            message.direction == MessageDirection::FromWidget ==> (message.data matches UiMessageData::Vec3Editor(Vec3EditorMessage::Value(v)) ==> {
                &&& r matches Some(change)
                &&& change.owner_type_id == owner_type_id
                &&& change.name@ == name@
                &&& change.value matches PropertyValue::UnitQuaternion(rotation)
                &&& from_euler_degrees.ensures((v,), rotation)
            }),
    {
        if message.direction() == MessageDirection::FromWidget {
            if let UiMessageData::Vec3Editor(Vec3EditorMessage::Value(value)) = message.data() {
                let rotation = from_euler_degrees(*value);
                return Some(
                    PropertyChanged {
                        owner_type_id,
                        name: name.to_string(),
                        value: PropertyValue::UnitQuaternion(rotation),
                    },
                );
            }
        }
        None
    }

    /// The parts of the value are laid out side by side.
    pub fn layout(&self) -> (r: Layout)
        ensures
            r == Layout::Horizontal,
    {
        Layout::Horizontal
    }
}

} // verus!
