//! Decisions of the capability probe: which devices are analyzer candidates
//! and which alternate settings carry the analyzer interface.

use vstd::prelude::*;
use crate::speed::Speed;

verus! {

/// Vendor identifier of the analyzer device.
pub const VID: u16 = 0x1d50;

/// Product identifier of the analyzer device.
pub const PID: u16 = 0x615b;

/// Interface class of the analyzer interface.
pub const CLASS: u8 = 0xff;

/// Interface subclass of the analyzer interface.
pub const SUBCLASS: u8 = 0x10;

/// The one protocol version this library supports, matched exactly.
pub const PROTOCOL: u8 = 0x00;

/// Address of the bulk IN endpoint that carries captured data.
pub const ENDPOINT: u8 = 0x81;

/// The interface and alternate setting that implement the analyzer
/// protocol on a usable device.
pub struct InterfaceSelection {
    pub interface_number: u8,
    pub alt_setting_number: u8,
}

/// Whether a Cynthion device is ready for use as an analyzer.
pub enum CynthionUsability {
    /// Device is usable via the given interface, at supported speeds.
    Usable(InterfaceSelection, Vec<Speed>),
    /// Device not usable, with a string explaining why.
    Unusable(String),
}

/// The verdict on one alternate setting during the probe.
#[derive(Copy, Clone, Debug, PartialEq, Eq, Structural)]
pub enum AltSettingVerdict {
    /// Not the analyzer's class/subclass signature; keep scanning.
    NotAnalyzer,
    /// Analyzer signature with the wrong protocol version; a hard
    /// compatibility failure that stops the scan.
    WrongProtocol,
    /// The analyzer interface at the supported protocol version.
    Analyzer,
}

/// Whether a device's vendor and product identifiers match the analyzer's.
pub fn is_analyzer_device(vendor_id: u16, product_id: u16) -> (r: bool)
    ensures
        r == (vendor_id == VID && product_id == PID),
{
    vendor_id == VID && product_id == PID
}

/// Judge one alternate setting: skip anything without the analyzer's
/// class/subclass signature, fail hard on a protocol version mismatch, and
/// accept an exact match.
pub fn check_alt_setting(class: u8, subclass: u8, protocol: u8) -> (r: AltSettingVerdict)
    ensures
        r == AltSettingVerdict::NotAnalyzer <==> (class != CLASS || subclass != SUBCLASS),
        r == AltSettingVerdict::WrongProtocol <==> (class == CLASS && subclass == SUBCLASS
            && protocol != PROTOCOL),
        r == AltSettingVerdict::Analyzer <==> (class == CLASS && subclass == SUBCLASS
            && protocol == PROTOCOL),
{
    if class != CLASS || subclass != SUBCLASS {
        AltSettingVerdict::NotAnalyzer
    } else if protocol != PROTOCOL {
        AltSettingVerdict::WrongProtocol
    } else {
        AltSettingVerdict::Analyzer
    }
}

/// An empty supported-speed list makes a device unusable for capture.
pub fn usable_speed_list(speeds: &Vec<Speed>) -> (r: bool)
    ensures
        r == (speeds@.len() > 0),
{
    speeds.len() > 0
}

} // verus!
