use launchpad_x::builder::build_led_light_message;
use launchpad_x::builder::Frame;
use launchpad_x::builder::LaunchpadX;
use launchpad_x::builder::ValidationError;

fn frame_bytes(r: Result<Frame, ValidationError>) -> Vec<u8> {
    match r {
        Ok(frame) => frame.as_bytes().clone(),
        Err(e) => panic!("expected a frame, got {:?}", e),
    }
}

fn error_of(r: Result<Frame, ValidationError>) -> ValidationError {
    match r {
        Ok(_) => panic!("expected an error, got a frame"),
        Err(e) => e,
    }
}

#[test]
fn valid_input_gives_exact_frame_bytes() {
    let bytes = frame_bytes(build_led_light_message(11, 0x15, 0));
    assert_eq!(bytes, vec![0xF0, 0x00, 0x20, 0x29, 0x02, 0x0C, 0x03, 0x0B, 0x15, 0xF7]);
}

#[test]
fn every_valid_input_gives_a_well_formed_frame() {
    for pad_index in 11u8..=99 {
        if pad_index % 10 == 0 {
            continue;
        }
        for color in [0u8, 1, 63, 127] {
            for light_type in 0u8..=3 {
                let bytes = frame_bytes(build_led_light_message(pad_index, color, light_type));
                assert_eq!(bytes.len(), 10);
                assert_eq!(&bytes[0..7], &[0xF0, 0x00, 0x20, 0x29, 0x02, 0x0C, 0x03]);
                assert_eq!(bytes[7], pad_index);
                assert_eq!(bytes[8], color);
                assert_eq!(bytes[9], 0xF7);
            }
        }
    }
}

#[test]
fn pad_index_out_of_range_is_rejected() {
    for pad_index in [0u8, 1, 9, 100, 101, 200, 255] {
        let e = error_of(build_led_light_message(pad_index, 0, 0));
        assert_eq!(e, ValidationError::InvalidPadIndex);
    }
}

#[test]
fn pad_index_multiple_of_ten_is_rejected() {
    for pad_index in [10u8, 20, 30, 40, 50, 60, 70, 80, 90] {
        let e = error_of(build_led_light_message(pad_index, 0, 0));
        assert_eq!(e, ValidationError::InvalidPadIndex);
    }
}

#[test]
fn invalid_pad_index_wins_over_other_invalid_parameters() {
    let e = error_of(build_led_light_message(10, 200, 9));
    assert_eq!(e, ValidationError::InvalidPadIndex);
    let e = error_of(build_led_light_message(100, 255, 255));
    assert_eq!(e, ValidationError::InvalidPadIndex);
}

#[test]
fn color_128_is_rejected() {
    let e = error_of(build_led_light_message(11, 128, 0));
    assert_eq!(e, ValidationError::InvalidColorValue);
}

#[test]
fn invalid_color_wins_over_invalid_light_type() {
    for color in [128u8, 129, 200, 255] {
        let e = error_of(build_led_light_message(11, color, 9));
        assert_eq!(e, ValidationError::InvalidColorValue);
    }
}

#[test]
fn light_type_above_three_is_rejected() {
    for light_type in [4u8, 5, 10, 255] {
        let e = error_of(build_led_light_message(99, 127, light_type));
        assert_eq!(e, ValidationError::InvalidLightType);
    }
}

#[test]
fn identical_inputs_give_byte_identical_frames() {
    for (pad_index, color, light_type) in [(11u8, 0x15u8, 0u8), (99, 127, 3), (45, 63, 2)] {
        let first = frame_bytes(build_led_light_message(pad_index, color, light_type));
        let second = frame_bytes(build_led_light_message(pad_index, color, light_type));
        assert_eq!(first, second);
    }
}

#[test]
fn light_pad_agrees_with_the_free_builder() {
    let device = LaunchpadX::new();
    let from_method = frame_bytes(device.light_pad(42, 7, 1));
    let from_builder = frame_bytes(build_led_light_message(42, 7, 1));
    assert_eq!(from_method, from_builder);
    let e = error_of(device.light_pad(11, 128, 0));
    assert_eq!(e, ValidationError::InvalidColorValue);
}

#[test]
fn check_pad_index_accepts_exactly_the_addressable_pads() {
    for pad_index in 0u8..=255 {
        let expected = 11 <= pad_index && pad_index <= 99 && pad_index % 10 != 0;
        let r = LaunchpadX::check_pad_index(pad_index);
        assert_eq!(r.is_ok(), expected);
        if !expected {
            assert_eq!(r.unwrap_err(), ValidationError::InvalidPadIndex);
        }
    }
}

#[test]
fn check_color_value_accepts_exactly_seven_bit_values() {
    assert!(LaunchpadX::check_color_value(0).is_ok());
    assert!(LaunchpadX::check_color_value(127).is_ok());
    assert_eq!(LaunchpadX::check_color_value(128).unwrap_err(), ValidationError::InvalidColorValue);
    assert_eq!(LaunchpadX::check_color_value(255).unwrap_err(), ValidationError::InvalidColorValue);
}

#[test]
fn check_light_type_accepts_exactly_the_four_modes() {
    for light_type in 0u8..=3 {
        assert!(LaunchpadX::check_light_type(light_type).is_ok());
    }
    assert_eq!(LaunchpadX::check_light_type(4).unwrap_err(), ValidationError::InvalidLightType);
    assert_eq!(LaunchpadX::check_light_type(255).unwrap_err(), ValidationError::InvalidLightType);
}
