use vstd::prelude::*;

verus! {

/// The closed set of controller opcodes this driver issues.
///
/// Each value stands for one fixed one-byte command from the controller
/// datasheet; commands are never constructed dynamically.
#[derive(Clone, Copy, Debug, PartialEq, Eq, Structural)]
pub enum Command {
    /// Gate driver output count and scan direction.
    DriverOutputControl,
    /// Booster soft-start timing.
    SoftStart,
    /// Enter deep sleep, with a one-byte mode payload.
    DeepSleep,
    /// RAM data-entry direction.
    DataEntry,
    /// Software reset.
    SwReset,
    /// Temperature sensor source selection.
    TemperatureSensorControl,
    /// Commit previously written RAM to the visible panel.
    MasterActivation,
    /// Display-update sequence mask.
    DisplayUpdateControl2,
    /// Select the black/white RAM plane for data writes.
    WriteRamBw,
    /// Select the red RAM plane for data writes.
    WriteRamRed,
    /// Border / VBD waveform control.
    VbdControl,
    /// RAM X address window (start and end).
    SetRamXStartEnd,
    /// RAM Y address window (start and end).
    SetRamYStartEnd,
    /// RAM X address counter.
    SetRamXAc,
    /// RAM Y address counter.
    SetRamYAc,
    /// Auto-write control for the red RAM plane.
    AutoWriteRed,
    /// Auto-write control for the black/white RAM plane.
    AutoWriteBw,
}

impl Command {
    /// The opcode byte this command puts on the bus, as the datasheet fixes it.
    pub open spec fn spec_address(self) -> u8 {
        match self {
            Command::DriverOutputControl => 0x01,
            Command::SoftStart => 0x0C,
            Command::DeepSleep => 0x10,
            Command::DataEntry => 0x11,
            Command::SwReset => 0x12,
            Command::TemperatureSensorControl => 0x18,
            Command::MasterActivation => 0x20,
            Command::DisplayUpdateControl2 => 0x22,
            Command::WriteRamBw => 0x24,
            Command::WriteRamRed => 0x26,
            Command::VbdControl => 0x3C,
            Command::SetRamXStartEnd => 0x44,
            Command::SetRamYStartEnd => 0x45,
            Command::SetRamXAc => 0x4E,
            Command::SetRamYAc => 0x4F,
            Command::AutoWriteRed => 0x46,
            Command::AutoWriteBw => 0x47,
        }
    }

    /// The opcode byte, as executable code.
    pub fn address(self) -> (r: u8)
        ensures
            r == self.spec_address(),
    {
        match self {
            Command::DriverOutputControl => 0x01,
            Command::SoftStart => 0x0C,
            Command::DeepSleep => 0x10,
            Command::DataEntry => 0x11,
            Command::SwReset => 0x12,
            Command::TemperatureSensorControl => 0x18,
            Command::MasterActivation => 0x20,
            Command::DisplayUpdateControl2 => 0x22,
            Command::WriteRamBw => 0x24,
            Command::WriteRamRed => 0x26,
            Command::VbdControl => 0x3C,
            Command::SetRamXStartEnd => 0x44,
            Command::SetRamYStartEnd => 0x45,
            Command::SetRamXAc => 0x4E,
            Command::SetRamYAc => 0x4F,
            Command::AutoWriteRed => 0x46,
            Command::AutoWriteBw => 0x47,
        }
    }
}

} // verus!
