use crate::handle::Handle;
use crate::math::Scalar;
use vstd::prelude::*;

verus! {

/// How much light a camera collects for a frame.
#[derive(Clone, Copy, Debug, PartialEq, Eq, Structural)]
pub enum Exposure {
    /// By the luminance of the frame.
    Auto { key_value: Scalar, min_luminance: Scalar, max_luminance: Scalar },
    /// A fixed level.
    Manual(Scalar),
}

/// The new value of a property that holds one object, as far as the camera
/// reads it: an exposure, or a value of another type.
#[derive(Clone, Copy, Debug, PartialEq, Eq, Structural)]
pub enum ObjectValue {
    Exposure(Exposure),
    Other,
}

/// What has changed of a property: an item of a collection, a property of
/// an object inside it, or the object it holds.
#[derive(Clone, Copy, Debug, PartialEq, Eq, Structural)]
pub enum FieldKind {
    Collection,
    Inspectable,
    Object(ObjectValue),
}

/// A change that the inspector reports: the name of the property and what
/// has changed of it.
#[derive(Debug, PartialEq, Eq)]
pub struct PropertyChanged {
    pub name: String,
    pub value: FieldKind,
}

/// What a change of a camera's property asks for.
#[derive(Clone, Copy, Debug, PartialEq, Eq, Structural)]
pub enum CameraAction {
    /// Nothing: the change is none of an object.
    Nothing,
    /// The exposure of the camera is to be set.
    SetExposure { node: Handle, exposure: Exposure },
    /// The property is none that the camera handles; the change is to be
    /// reported.
    Unhandled,
}

/// The name of the property that holds a camera's exposure.
pub open spec fn exposure_property() -> Seq<char> {
    "exposure"@
}

impl PropertyChanged {
    /// The change sets the property `exposure` to an object.
    pub open spec fn sets_exposure(&self) -> bool {
        self.value is Object && self.name@ == exposure_property()
    }

    /// The action that the change asks for on a camera node.
    pub open spec fn camera_action(&self, node: Handle) -> CameraAction {
        match self.value {
            FieldKind::Object(value) => if self.name@ == exposure_property() {
                match value {
                    ObjectValue::Exposure(exposure) => CameraAction::SetExposure { node, exposure },
                    ObjectValue::Other => CameraAction::Unhandled,
                }
            } else {
                CameraAction::Unhandled
            },
            _ => CameraAction::Nothing,
        }
    }
}

/// Says what a change of a property asks of a camera node. A change of the
/// property `exposure` must bring an exposure.
pub fn handle_camera_property_changed(args: &PropertyChanged, node_handle: Handle) -> (action:
    CameraAction)
    requires
        args.sets_exposure() ==> args.value->Object_0 is Exposure,
    ensures
        action == args.camera_action(node_handle),
        args.sets_exposure() ==> action is SetExposure,
{
    if let FieldKind::Object(value) = args.value {
        if args.name == "exposure".to_owned() {
            match value {
                ObjectValue::Exposure(exposure) => CameraAction::SetExposure {
                    node: node_handle,
                    exposure,
                },
                ObjectValue::Other => CameraAction::Unhandled,
            }
        } else {
            CameraAction::Unhandled
        }
    } else {
        CameraAction::Nothing
    }
}

} // verus!
