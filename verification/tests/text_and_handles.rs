use scene_editor::handle::Handle;
use scene_editor::math::Scalar;
use scene_editor::text::{numbered_label, push_decimal};

#[test]
fn the_handle_that_names_nothing() {
    assert_eq!(Handle::none(), Handle { index: 0, generation: 0 });
    assert_eq!(Handle::default(), Handle::none());
}

#[test]
fn a_handle_is_its_index_and_its_generation() {
    assert_eq!(Handle::new(5, 2), Handle { index: 5, generation: 2 });
    assert_ne!(Handle::new(5, 2), Handle::new(2, 5));
    assert_ne!(Handle::new(0, 1), Handle::none());
    assert_ne!(Handle::new(1, 0), Handle::none());
}

#[test]
fn a_scalar_keeps_its_bits() {
    assert_eq!(Scalar::from_bits(0x3f80_0000).to_bits(), 0x3f80_0000);
    assert_eq!(Scalar::from_bits(1.5f32.to_bits()).to_bits(), 1.5f32.to_bits());
    assert_eq!(f32::from_bits(Scalar::from_bits(f32::NAN.to_bits()).to_bits()).is_nan(), true);
    assert_ne!(Scalar::from_bits(0.0f32.to_bits()), Scalar::from_bits((-0.0f32).to_bits()));
}

#[test]
fn decimal_of_one_digit() {
    for n in 0..10usize {
        let mut text = String::new();
        push_decimal(&mut text, n);
        assert_eq!(text, format!("{}", n));
    }
}

#[test]
fn decimal_of_many_digits() {
    for n in [10usize, 11, 19, 99, 100, 101, 255, 1000, 12345, 9_007_199, usize::MAX] {
        let mut text = String::new();
        push_decimal(&mut text, n);
        assert_eq!(text, format!("{}", n));
    }
}

#[test]
fn decimal_goes_behind_what_is_there() {
    let mut text = String::from("n = ");
    push_decimal(&mut text, 4020);
    assert_eq!(text, "n = 4020");
}

#[test]
fn numbered_labels() {
    assert_eq!(numbered_label("Layer", 0), "Layer 0");
    assert_eq!(numbered_label("Layer", 7), "Layer 7");
    assert_eq!(numbered_label("Layer", 10), "Layer 10");
    assert_eq!(numbered_label("Layer", 305), "Layer 305");
    assert_eq!(numbered_label("", 1), " 1");
}
