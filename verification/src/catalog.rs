//! Command catalog: the closed set of Launchpad X operations and the
//! protocol opcode assigned to each of them.

use vstd::prelude::*;

verus! {

/// A device operation supported by the Launchpad X SysEx protocol.
///
/// The set is closed: every operation the device understands has exactly
/// one variant here, and each variant maps to one fixed opcode byte.
#[derive(Clone, Copy, Debug, PartialEq, Eq, Structural)]
pub enum Command {
    SelectLayout,
    DawFaderSetup,
    LedLighting,
    VelocityCurve,
    TextScrolling,
    BrightnessLevel,
    LedSleep,
    LedFeedback,
    AftertouchConfig,
    FaderVelocity,
    ProgrammerLiveToggle,
    DawNoteDrumRack,
    DawStandalone,
    ClearDawState,
    DrumRackPosition,
    SessionColor,
    NoteModeScaleChromatic,
    NoteModeConfiguration,
    DawNoteActiveColor,
}

/// The protocol opcode byte of a command, as the device defines it.
pub open spec fn spec_opcode(command: Command) -> u8 {
    match command {
        Command::SelectLayout => 0x00,
        Command::DawFaderSetup => 0x01,
        Command::LedLighting => 0x03,
        Command::VelocityCurve => 0x04,
        Command::TextScrolling => 0x07,
        Command::BrightnessLevel => 0x08,
        Command::LedSleep => 0x09,
        Command::LedFeedback => 0x0A,
        Command::AftertouchConfig => 0x0B,
        Command::FaderVelocity => 0x0D,
        Command::ProgrammerLiveToggle => 0x0E,
        Command::DawNoteDrumRack => 0x0F,
        Command::DawStandalone => 0x10,
        Command::ClearDawState => 0x12,
        Command::DrumRackPosition => 0x13,
        Command::SessionColor => 0x14,
        Command::NoteModeScaleChromatic => 0x15,
        Command::NoteModeConfiguration => 0x16,
        Command::DawNoteActiveColor => 0x17,
    }
}

/// Look the opcode of a command up.  Total over the closed catalog: no
/// "unknown command" case exists by construction.
pub fn opcode_of(command: Command) -> (r: u8)
    ensures
        r == spec_opcode(command),
{
    match command {
        Command::SelectLayout => 0x00,
        Command::DawFaderSetup => 0x01,
        Command::LedLighting => 0x03,
        Command::VelocityCurve => 0x04,
        Command::TextScrolling => 0x07,
        Command::BrightnessLevel => 0x08,
        Command::LedSleep => 0x09,
        Command::LedFeedback => 0x0A,
        Command::AftertouchConfig => 0x0B,
        Command::FaderVelocity => 0x0D,
        Command::ProgrammerLiveToggle => 0x0E,
        Command::DawNoteDrumRack => 0x0F,
        Command::DawStandalone => 0x10,
        Command::ClearDawState => 0x12,
        Command::DrumRackPosition => 0x13,
        Command::SessionColor => 0x14,
        Command::NoteModeScaleChromatic => 0x15,
        Command::NoteModeConfiguration => 0x16,
        Command::DawNoteActiveColor => 0x17,
    }
}

/// No two distinct commands share an opcode byte: the opcode assignment
/// is injective over the whole catalog.
pub proof fn lemma_opcodes_injective(a: Command, b: Command)
    ensures
        spec_opcode(a) == spec_opcode(b) ==> a == b,
{
}

} // verus!
