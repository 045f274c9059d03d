//! Message builder and validator: turns a command plus raw parameter
//! bytes into a complete, validated SysEx frame, or rejects the input
//! with a typed error naming the offending parameter.

use vstd::prelude::*;

use crate::catalog::Command;
use crate::catalog::opcode_of;
use crate::catalog::spec_opcode;

verus! {

/// Why a parameter set was rejected.  Every rejection names the first
/// parameter, in validation order, that was out of range.
#[derive(Clone, Copy, Debug, PartialEq, Eq, Structural)]
pub enum ValidationError {
    /// Pad index outside `[11, 99]`, or a multiple of 10.
    InvalidPadIndex,
    /// Color byte outside the 7-bit MIDI data range `[0, 127]`.
    InvalidColorValue,
    /// Light-effect type code outside `[0, 3]`.
    InvalidLightType,
}

/// One complete, terminated SysEx byte sequence, ready for transmission.
/// Immutable once built; it has no identity beyond its bytes.
pub struct Frame {
    bytes: Vec<u8>,
}

impl View for Frame {
    type V = Seq<u8>;

    closed spec fn view(&self) -> Seq<u8> {
        self.bytes@
    }
}

impl Frame {
    /// The frame's bytes, in wire order.
    pub fn as_bytes(&self) -> (r: &Vec<u8>)
        ensures
            r@ == self@,
    {
        &self.bytes
    }
}

/// The fixed manufacturer SysEx header: start byte, vendor id, product
/// family id.
pub open spec fn spec_header() -> Seq<u8> {
    seq![0xF0u8, 0x00u8, 0x20u8, 0x29u8, 0x02u8, 0x0Cu8]
}

/// The single SysEx terminator byte.
pub open spec fn spec_terminator() -> u8 {
    0xF7u8
}

/// A complete frame for an opcode and its parameter bytes: header, then
/// the opcode, then the parameters, then the terminator.
pub open spec fn spec_frame(opcode: u8, params: Seq<u8>) -> Seq<u8> {
    spec_header() + seq![opcode] + params + seq![spec_terminator()]
}

/// A pad index addresses a physical pad: it lies in `[11, 99]` and is
/// not a multiple of 10, the grid's non-addressable tens-boundary.
pub open spec fn valid_pad_index(pad_index: u8) -> bool {
    11 <= pad_index <= 99 && pad_index % 10 != 0
}

/// A color value fits in a 7-bit MIDI data byte.
pub open spec fn valid_color_value(color_value: u8) -> bool {
    color_value <= 127
}

/// A light-effect type names one of the four supported lighting modes.
pub open spec fn valid_light_type(light_type: u8) -> bool {
    light_type <= 3
}

/// The exact bytes of the minimal LED-lighting frame for a pad and a
/// color: header, the LED-lighting opcode, the pad index, the color,
/// the terminator.
pub open spec fn spec_led_frame(pad_index: u8, color: u8) -> Seq<u8> {
    spec_frame(spec_opcode(Command::LedLighting), seq![pad_index, color])
}

/// Assemble a frame from an opcode and already-validated parameter
/// bytes.  Shared by every command-specific builder, so the header and
/// terminator framing is written once.
fn assemble_frame(opcode: u8, params: &Vec<u8>) -> (r: Frame)
    ensures
        r@ == spec_frame(opcode, params@),
{
    let mut bytes: Vec<u8> = Vec::new();
    bytes.push(0xF0);
    bytes.push(0x00);
    bytes.push(0x20);
    bytes.push(0x29);
    bytes.push(0x02);
    bytes.push(0x0C);
    bytes.push(opcode);
    let mut i: usize = 0;
    while i < params.len()
        invariant
            i <= params.len(),
            bytes@ == spec_header() + seq![opcode] + params@.subrange(0, i as int),
        decreases params.len() - i,
    {
        bytes.push(params[i]);
        i = i + 1;
        assert(params@.subrange(0, i as int)
            == params@.subrange(0, i - 1) + seq![params@[i - 1]]);
    }
    assert(params@.subrange(0, params@.len() as int) == params@);
    bytes.push(0xF7);
    let r = Frame { bytes };
    assert(r@ =~= spec_frame(opcode, params@));
    r
}

/// What the LED-lighting builder returns, for every input.  The
/// parameters are checked in a fixed order and the first failure wins;
/// on success the frame's bytes are pinned exactly.
pub open spec fn led_build_post(
    r: Result<Frame, ValidationError>,
    pad_index: u8,
    color: u8,
    light_type: u8,
) -> bool {
    &&& (r is Ok <==> valid_pad_index(pad_index) && valid_color_value(color) && valid_light_type(
        light_type,
    ))
    &&& (r matches Ok(frame) ==> frame@ == spec_led_frame(pad_index, color))
    &&& (!valid_pad_index(pad_index) ==> r == Err::<Frame, ValidationError>(
        ValidationError::InvalidPadIndex,
    ))
    &&& (valid_pad_index(pad_index) && !valid_color_value(color) ==> r == Err::<
        Frame,
        ValidationError,
    >(ValidationError::InvalidColorValue))
    &&& (valid_pad_index(pad_index) && valid_color_value(color) && !valid_light_type(light_type)
        ==> r == Err::<Frame, ValidationError>(ValidationError::InvalidLightType))
}

/// Build the minimal LED-lighting frame for one pad.
///
/// The parameters are validated in a fixed order and the first failure
/// wins: pad index, then color, then light-effect type.  On success the
/// returned frame holds exactly the header, the LED-lighting opcode, the
/// pad index, the color and the terminator.  The light-effect type is
/// validated but, per the wire layout of this minimal frame, not encoded
/// as a byte of its own.
pub fn build_led_light_message(pad_index: u8, color: u8, light_type: u8) -> (r: Result<
    Frame,
    ValidationError,
>)
    ensures
        led_build_post(r, pad_index, color, light_type),
{
    match LaunchpadX::check_pad_index(pad_index) {
        Ok(()) => (),
        Err(e) => {
            return Err(e);
        },
    }
    match LaunchpadX::check_color_value(color) {
        Ok(()) => (),
        Err(e) => {
            return Err(e);
        },
    }
    match LaunchpadX::check_light_type(light_type) {
        Ok(()) => (),
        Err(e) => {
            return Err(e);
        },
    }
    let mut params: Vec<u8> = Vec::new();
    params.push(pad_index);
    params.push(color);
    let frame = assemble_frame(opcode_of(Command::LedLighting), &params);
    assert(params@ =~= seq![pad_index, color]);
    Ok(frame)
}

/// Message encoder for a Launchpad X.  It holds no device connection:
/// it only builds frames, and the caller hands them to a transport.
pub struct LaunchpadX {
}

impl LaunchpadX {
    /// A fresh encoder.
    pub fn new() -> (r: LaunchpadX) {
        LaunchpadX {  }
    }

    /// The frame that lights one pad with a color and a lighting type,
    /// or the error naming the first invalid parameter.
    pub fn light_pad(&self, pad_index: u8, color: u8, light_type: u8) -> (r: Result<
        Frame,
        ValidationError,
    >)
        ensures
            led_build_post(r, pad_index, color, light_type),
    {
        build_led_light_message(pad_index, color, light_type)
    }

    /// Accept exactly the pad indices that address a physical pad;
    /// reject every other index with `InvalidPadIndex`.
    pub fn check_pad_index(pad_index: u8) -> (r: Result<(), ValidationError>)
        ensures
            r is Ok <==> valid_pad_index(pad_index),
            r matches Err(e) ==> e == ValidationError::InvalidPadIndex,
    {
        if pad_index > 99 || pad_index < 11 || pad_index % 10 == 0 {
            return Err(ValidationError::InvalidPadIndex);
        }
        Ok(())
    }

    /// Accept exactly the color values that fit a 7-bit MIDI data byte;
    /// reject every other value with `InvalidColorValue`.
    pub fn check_color_value(color_value: u8) -> (r: Result<(), ValidationError>)
        ensures
            r is Ok <==> valid_color_value(color_value),
            r matches Err(e) ==> e == ValidationError::InvalidColorValue,
    {
        if color_value > 127 {
            return Err(ValidationError::InvalidColorValue);
        }
        Ok(())
    }

    /// Accept exactly the four supported light-effect type codes; reject
    /// every other code with `InvalidLightType`.
    pub fn check_light_type(light_type: u8) -> (r: Result<(), ValidationError>)
        ensures
            r is Ok <==> valid_light_type(light_type),
            r matches Err(e) ==> e == ValidationError::InvalidLightType,
    {
        if light_type > 3 {
            return Err(ValidationError::InvalidLightType);
        }
        Ok(())
    }
}

/// Every successful LED-lighting frame starts with the six manufacturer
/// header bytes and the LED-lighting opcode, carries the pad index and
/// the color next, in that order, and ends with the terminator.
pub proof fn lemma_led_frame_shape(pad_index: u8, color: u8)
    ensures
        spec_led_frame(pad_index, color).len() == 10,
        spec_led_frame(pad_index, color).subrange(0, 6) == spec_header(),
        spec_led_frame(pad_index, color)[6] == spec_opcode(Command::LedLighting),
        spec_led_frame(pad_index, color)[7] == pad_index,
        spec_led_frame(pad_index, color)[8] == color,
        spec_led_frame(pad_index, color)[9] == spec_terminator(),
{
    assert(spec_led_frame(pad_index, color).subrange(0, 6) =~= spec_header());
}

/// The builder is a function of its inputs: two results that both meet
/// the builder's contract for identical inputs agree, byte for byte on
/// success and on the error kind on failure.
pub proof fn lemma_build_deterministic(
    r1: Result<Frame, ValidationError>,
    r2: Result<Frame, ValidationError>,
    pad_index: u8,
    color: u8,
    light_type: u8,
)
    requires
        led_build_post(r1, pad_index, color, light_type),
        led_build_post(r2, pad_index, color, light_type),
    ensures
        r1 is Ok <==> r2 is Ok,
        r1 matches Ok(f1) ==> (r2 matches Ok(f2) && f1@ == f2@),
        r1 matches Err(e1) ==> (r2 matches Err(e2) && e1 == e2),
{
}

} // verus!
