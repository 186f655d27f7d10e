use scene_editor::camera::{
    handle_camera_property_changed, CameraAction, Exposure, FieldKind, ObjectValue,
    PropertyChanged,
};
use scene_editor::handle::Handle;
use scene_editor::math::Scalar;

fn scalar(value: f32) -> Scalar {
    Scalar::from_bits(value.to_bits())
}

fn changed(name: &str, value: FieldKind) -> PropertyChanged {
    PropertyChanged { name: name.to_string(), value }
}

const NODE: Handle = Handle { index: 12, generation: 4 };

#[test]
fn a_manual_exposure_is_set() {
    let exposure = Exposure::Manual(scalar(0.75));
    let args = changed("exposure", FieldKind::Object(ObjectValue::Exposure(exposure)));
    assert_eq!(
        handle_camera_property_changed(&args, NODE),
        CameraAction::SetExposure { node: NODE, exposure }
    );
}

#[test]
fn an_automatic_exposure_is_set() {
    let exposure = Exposure::Auto {
        key_value: scalar(0.01556),
        min_luminance: scalar(0.00778),
        max_luminance: scalar(64.0),
    };
    let args = changed("exposure", FieldKind::Object(ObjectValue::Exposure(exposure)));
    assert_eq!(
        handle_camera_property_changed(&args, Handle::new(0, 1)),
        CameraAction::SetExposure { node: Handle::new(0, 1), exposure }
    );
}

#[test]
fn another_property_is_unhandled() {
    let args = changed("z_near", FieldKind::Object(ObjectValue::Other));
    assert_eq!(handle_camera_property_changed(&args, NODE), CameraAction::Unhandled);
}

#[test]
fn an_exposure_under_another_name_is_unhandled() {
    let exposure = Exposure::Manual(scalar(0.75));
    for name in ["Exposure", "exposur", "exposure ", ""] {
        let args = changed(name, FieldKind::Object(ObjectValue::Exposure(exposure)));
        assert_eq!(handle_camera_property_changed(&args, NODE), CameraAction::Unhandled);
    }
}

#[test]
fn a_change_inside_the_exposure_asks_for_nothing() {
    assert_eq!(
        handle_camera_property_changed(&changed("exposure", FieldKind::Inspectable), NODE),
        CameraAction::Nothing
    );
    assert_eq!(
        handle_camera_property_changed(&changed("exposure", FieldKind::Collection), NODE),
        CameraAction::Nothing
    );
}
