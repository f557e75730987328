//! Supported Elgato products, their USB identities, and LED colours.

use vstd::prelude::*;

verus! {

/// Elgato USB vendor ID.
pub const ELGATO_VID: u16 = 0x0FD9;

/// Elgato product this device represents.
#[derive(Debug, Clone, Copy, PartialEq, Eq, Hash, Structural)]
pub enum DeviceModel {
    Wave1,
    Wave3,
    WaveXlr,
    XlrDock,
}

/// Human-readable product name of each model.
pub open spec fn spec_model_name(m: DeviceModel) -> Seq<char> {
    match m {
        DeviceModel::Wave1 => "Elgato Wave:1"@,
        DeviceModel::Wave3 => "Elgato Wave:3"@,
        DeviceModel::WaveXlr => "Elgato Wave XLR"@,
        DeviceModel::XlrDock => "Elgato XLR Dock"@,
    }
}

/// USB product ID of each model on Elgato's vendor ID.
pub open spec fn spec_usb_pid(m: DeviceModel) -> u16 {
    match m {
        DeviceModel::Wave1 => 0x006D,
        DeviceModel::Wave3 => 0x0070,
        DeviceModel::WaveXlr => 0x007D,
        DeviceModel::XlrDock => 0x0081,
    }
}

impl DeviceModel {
    /// Human-readable product name for logs and UI.
    pub fn name(self) -> (r: &'static str)
        ensures
            r@ == spec_model_name(self),
    {
        match self {
            DeviceModel::Wave1 => "Elgato Wave:1",
            DeviceModel::Wave3 => "Elgato Wave:3",
            DeviceModel::WaveXlr => "Elgato Wave XLR",
            DeviceModel::XlrDock => "Elgato XLR Dock",
        }
    }

    /// USB product ID for this model on Elgato's VID `0x0FD9`.
    pub fn usb_pid(self) -> (pid: u16)
        ensures
            pid == spec_usb_pid(self),
    {
        match self {
            DeviceModel::Wave1 => 0x006D,
            DeviceModel::Wave3 => 0x0070,
            DeviceModel::WaveXlr => 0x007D,
            DeviceModel::XlrDock => 0x0081,
        }
    }
}

/// Different models have different USB product IDs.
pub proof fn lemma_usb_pids_distinct(a: DeviceModel, b: DeviceModel)
    requires
        a != b,
    ensures
        spec_usb_pid(a) != spec_usb_pid(b),
{
}

/// The Wave XLR's product ID is the one its control protocol targets.
pub proof fn lemma_wave_xlr_pid()
    ensures
        spec_usb_pid(DeviceModel::WaveXlr) == crate::wavexlr::WAVE_XLR_PID,
        spec_usb_pid(DeviceModel::Wave3) == crate::device::WAVE3_PID,
{
}

/// Every model has a non-empty product name.
pub proof fn lemma_model_names_nonempty(m: DeviceModel)
    ensures
        spec_model_name(m).len() > 0,
{
    reveal_strlit("Elgato Wave:1");
    reveal_strlit("Elgato Wave:3");
    reveal_strlit("Elgato Wave XLR");
    reveal_strlit("Elgato XLR Dock");
}

/// An 8-bit RGB colour used to drive LED rings.
#[derive(Debug, Clone, Copy, Default, PartialEq, Eq, Hash, Structural)]
pub struct Rgb {
    pub r: u8,
    pub g: u8,
    pub b: u8,
}

impl Rgb {
    pub fn new(r: u8, g: u8, b: u8) -> (c: Self)
        ensures
            c == (Rgb { r, g, b }),
    {
        Rgb { r, g, b }
    }
}

} // verus!
