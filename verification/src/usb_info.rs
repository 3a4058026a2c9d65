//! USB identifiers of the Leap Motion / Ultraleap device family.

use vstd::prelude::*;

verus! {

/// The Leap Motion or Ultraleap USB vendor identifier.
///
/// 0x2936. Base 10: 10550.
pub const LEAP_USB_VID: u16 = 0x2936;

/// Leap Motion or Ultraleap VID as hex value in a string.
pub const LEAP_USB_VID_STR: &'static str = "2936";

/// `VID_2936`
pub const LEAP_USB_VID_STR_WITH_PREFIX: &'static str = "VID_2936";

/// An old but still sometimes observed Leap Motion USB vendor identifier.
///
/// 0xF182. Base 10: 61826.
pub const LEAP_USB_VID_OLD: u16 = 0xF182;

/// Old Leap Motion or Ultraleap VID as hex value in a string.
pub const LEAP_USB_VID_OLD_STR: &'static str = "F182";

/// `VID_F182`
pub const LEAP_USB_VID_OLD_STR_WITH_PREFIX: &'static str = "VID_F182";

/// The UVC product identifier for the Leap Motion Controller, aka LMC, aka Peripheral.
///
/// 0x0003.
pub const LEAP_USB_PID_PERIPHERAL: u16 = 0x0003;

/// Peripheral PID as hex value in a string.
pub const LEAP_USB_PID_PERIPHERAL_STR: &'static str = "0003";

/// The UVC product identifier for the Ultraleap SIR170, aka Rigel.
///
/// 0x1202. Base 10: 4610.
pub const LEAP_USB_PID_RIGEL: u16 = 0x1202;

/// The descriptive name that goes with a vendor or product identifier.
///
/// The current vendor identifier and the two product identifiers have a name
/// of their own; every other value, the old vendor identifier included, is
/// unknown.
pub open spec fn friendly_name(pid_or_vid: u16) -> Seq<char> {
    if pid_or_vid == LEAP_USB_VID {
        "Leap Motion (Ultraleap)"@
    } else if pid_or_vid == LEAP_USB_PID_PERIPHERAL {
        "Leap Motion Controller aka Peripheral"@
    } else if pid_or_vid == LEAP_USB_PID_RIGEL {
        "SIR 170 aka Rigel"@
    } else {
        "Unknown Vendor or Product ID"@
    }
}

/// Returns a descriptive name for the argument Ultraleap USB/UVC Vendor or Product ID.
pub fn friendly_name_from_usb_id(pid_or_vid: u16) -> (name: &'static str)
    ensures
        name@ == friendly_name(pid_or_vid),
{
    match pid_or_vid {
        LEAP_USB_VID => "Leap Motion (Ultraleap)",
        LEAP_USB_PID_PERIPHERAL => "Leap Motion Controller aka Peripheral",
        LEAP_USB_PID_RIGEL => "SIR 170 aka Rigel",
        _ => "Unknown Vendor or Product ID",
    }
}

} // verus!
