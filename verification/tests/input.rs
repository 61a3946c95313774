use nomnom::input::button_pressed;
use nomnom::input::can_center;
use nomnom::input::center_axis;
use nomnom::input::joystick_centered;
use nomnom::input::key_pressed;
use nomnom::input::toggled;
use nomnom::input::Keys;
use nomnom::input::JOYSTICK_CENTER;

#[test]
fn centre_reads_zero() {
    assert_eq!(JOYSTICK_CENTER, 2048);
    assert_eq!(center_axis(2048), 0);
}

#[test]
fn twelve_bit_samples_span_both_directions() {
    assert_eq!(center_axis(0), -2048);
    assert_eq!(center_axis(4095), 2047);
    assert_eq!(center_axis(648), -1400);
    assert_eq!(center_axis(3448), 1400);
}

#[test]
fn center_axis_is_signed_sample_less_centre() {
    for raw in [0u16, 1, 2047, 2048, 2049, 4095, 0x7FFF, 0x8800, 0x8801, 0xFFFF] {
        assert_eq!(center_axis(raw) as i32, (raw as i16) as i32 - 2048);
    }
    assert_eq!(center_axis(0x7FFF), 30719);
    assert_eq!(center_axis(0x8800), i16::MIN);
    assert_eq!(center_axis(0xFFFF), -2049);
}

#[test]
fn joystick_centres_both_axes() {
    assert_eq!(joystick_centered(2048, 2048), (0, 0));
    assert_eq!(joystick_centered(4095, 100), (2047, -1948));
    assert_eq!(joystick_centered(0, 3548), (-2048, 1500));
}

#[test]
fn button_pressed_finds_the_button() {
    let events = [Keys::StartUp, Keys::ADown, Keys::SelectDown];
    assert!(button_pressed(&events, Keys::ADown));
    assert!(button_pressed(&events, Keys::StartUp));
    assert!(button_pressed(&events, Keys::SelectDown));
    assert!(!button_pressed(&events, Keys::AUp));
    assert!(!button_pressed(&events, Keys::BDown));
}

#[test]
fn button_pressed_on_no_events_is_false() {
    assert!(!button_pressed(&[], Keys::ADown));
}

#[test]
fn key_pressed_on_a_or_b_down() {
    assert!(key_pressed(&[Keys::ADown]));
    assert!(key_pressed(&[Keys::SelectUp, Keys::BDown]));
    assert!(key_pressed(&[Keys::BDown, Keys::ADown]));
}

#[test]
fn key_pressed_ignores_other_events() {
    assert!(!key_pressed(&[]));
    assert!(!key_pressed(&[Keys::AUp, Keys::BUp]));
    assert!(!key_pressed(&[Keys::SelectDown, Keys::StartDown, Keys::StartUp, Keys::SelectUp]));
}

#[test]
fn toggled_flips_once_per_select_press() {
    assert!(toggled(false, &[Keys::SelectDown]));
    assert!(!toggled(true, &[Keys::SelectDown]));
    assert!(!toggled(false, &[Keys::SelectDown, Keys::SelectDown]));
    assert!(toggled(false, &[Keys::SelectDown, Keys::ADown, Keys::SelectDown, Keys::SelectDown]));
}

#[test]
fn toggled_ignores_other_events() {
    assert!(!toggled(false, &[]));
    assert!(toggled(true, &[]));
    assert!(!toggled(false, &[Keys::SelectUp, Keys::ADown, Keys::StartDown]));
    assert!(toggled(true, &[Keys::SelectUp, Keys::BDown]));
}

#[test]
fn can_center_leaves_out_what_would_overflow() {
    assert!(can_center(0));
    assert!(can_center(4095));
    assert!(can_center(0x7FFF));
    assert!(!can_center(0x8000));
    assert!(!can_center(0x87FF));
    assert!(can_center(0x8800));
    assert!(can_center(0xFFFF));
    for raw in 0..=u16::MAX {
        let fits = (raw as i16).checked_sub(2048).is_some();
        assert_eq!(can_center(raw), fits);
        if fits {
            assert_eq!(center_axis(raw), (raw as i16) - 2048);
        }
    }
}
