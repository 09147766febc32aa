//! Canonical per-device state and the small classification helpers the
//! presentation layer uses to render a record.

use vstd::prelude::*;

verus! {

/// Canonical per-address state of one radio device: stable identity key,
/// human-readable name (empty when unknown), the two independent link flags,
/// a signed dBm-like signal strength, and the opaque class-of-device bitmask.
#[derive(Debug)]
pub struct BluetoothDevice {
    pub address: u64,
    pub name: String,
    pub connected: bool,
    pub authenticated: bool,
    pub rssi: i32,
    pub cod: u32,
}

/// Mathematical value of a device record: the name as a character sequence,
/// every other field as the plain value it holds.
#[verifier::ext_equal]
pub ghost struct DeviceModel {
    pub address: u64,
    pub name: Seq<char>,
    pub connected: bool,
    pub authenticated: bool,
    pub rssi: i32,
    pub cod: u32,
}

impl View for BluetoothDevice {
    type V = DeviceModel;

    open spec fn view(&self) -> DeviceModel {
        DeviceModel {
            address: self.address,
            name: self.name@,
            connected: self.connected,
            authenticated: self.authenticated,
            rssi: self.rssi,
            cod: self.cod,
        }
    }
}

impl Clone for BluetoothDevice {
    /// A clone carries exactly the same model as the value it copies.
    fn clone(&self) -> (r: Self)
        ensures
            r@ == self@,
    {
        BluetoothDevice {
            address: self.address,
            name: self.name.clone(),
            connected: self.connected,
            authenticated: self.authenticated,
            rssi: self.rssi,
            cod: self.cod,
        }
    }
}

/// Coarse device kind derived from the class-of-device bitmask, used only to
/// pick an icon for a record.
#[derive(Debug, Clone, Copy, PartialEq, Eq, Structural)]
pub enum DeviceCategory {
    Audio,
    Imaging,
    Printer,
    Peripheral,
    Generic,
}

/// Which category a class-of-device bitmask falls under: the audio bit wins,
/// then imaging, printer and peripheral, and anything else is generic.
pub open spec fn category_of(cod: u32) -> DeviceCategory {
    if cod & 0x0020_0000 != 0 {
        DeviceCategory::Audio
    } else if cod & 0x0000_0400 != 0 {
        DeviceCategory::Imaging
    } else if cod & 0x0000_0200 != 0 {
        DeviceCategory::Printer
    } else if cod & 0x0000_0100 != 0 {
        DeviceCategory::Peripheral
    } else {
        DeviceCategory::Generic
    }
}

/// Classify a class-of-device bitmask.
pub fn device_category(cod: u32) -> (r: DeviceCategory)
    ensures
        r == category_of(cod),
{
    if cod & 0x0020_0000 != 0 {
        DeviceCategory::Audio
    } else if cod & 0x0000_0400 != 0 {
        DeviceCategory::Imaging
    } else if cod & 0x0000_0200 != 0 {
        DeviceCategory::Printer
    } else if cod & 0x0000_0100 != 0 {
        DeviceCategory::Peripheral
    } else {
        DeviceCategory::Generic
    }
}

/// Signal-strength bucket shown next to a device record.
#[derive(Debug, Clone, Copy, PartialEq, Eq, Structural)]
pub enum SignalQuality {
    Excellent,
    Good,
    Fair,
    Weak,
    Poor,
}

/// The bucket a dBm-like signal strength falls in.
pub open spec fn quality_of(rssi: i32) -> SignalQuality {
    if rssi >= -50 {
        SignalQuality::Excellent
    } else if rssi >= -60 {
        SignalQuality::Good
    } else if rssi >= -70 {
        SignalQuality::Fair
    } else if rssi >= -80 {
        SignalQuality::Weak
    } else {
        SignalQuality::Poor
    }
}

/// Bucket a signal strength for display.
pub fn signal_quality(rssi: i32) -> (r: SignalQuality)
    ensures
        r == quality_of(rssi),
{
    if rssi >= -50 {
        SignalQuality::Excellent
    } else if rssi >= -60 {
        SignalQuality::Good
    } else if rssi >= -70 {
        SignalQuality::Fair
    } else if rssi >= -80 {
        SignalQuality::Weak
    } else {
        SignalQuality::Poor
    }
}

/// Signal strength shifted into a 0..=100 display scale: `rssi + 100`,
/// clamped at both ends.
pub open spec fn level_of(rssi: i32) -> int {
    if rssi + 100 < 0 {
        0
    } else if rssi + 100 > 100 {
        100
    } else {
        rssi + 100
    }
}

/// Scale a signal strength to 0..=100 for a progress bar.
pub fn signal_level(rssi: i32) -> (r: u8)
    ensures
        r as int == level_of(rssi),
{
    if rssi < -100 {
        0
    } else if rssi > 0 {
        100
    } else {
        (rssi + 100) as u8
    }
}

} // verus!
