//! Words, numbers and colours that the screen shows.

use vstd::prelude::*;
use vstd::string::*;

use crate::bt::{DeviceKind, RadioState};
use crate::clock::{Span, NANOS_PER_SEC};
use crate::text::{decimal, decimal_text, signed_decimal, signed_decimal_text};

verus! {

/// A signal strength that is at least this many seconds old is shown with its age.
pub const AGE_SHOWN_FROM_SECS: u64 = 5;

/// Opacity of a bar that shows an old signal strength.
pub const DIM_ALPHA: u8 = 100;

/// The name of the major class in bits 8 to 12 of a class of device.
pub open spec fn class_name(cod: u32) -> Seq<char> {
    let major = cod as int / 0x100 % 0x20;
    if major == 1 {
        "Computer"@
    } else if major == 2 {
        "Phone"@
    } else if major == 3 {
        "LAN/Access Point"@
    } else if major == 4 {
        "Audio/Video"@
    } else if major == 5 {
        "Peripheral (Mouse/KB)"@
    } else if major == 6 {
        "Imaging (Printer)"@
    } else if major == 7 {
        "Wearable"@
    } else if major == 8 {
        "Toy"@
    } else if major == 9 {
        "Health"@
    } else {
        "Uncategorized"@
    }
}

/// Names the major class of a device.
pub fn cod_label(cod: u32) -> (s: &'static str)
    ensures
        s@ == class_name(cod),
{
    let major: u32 = (cod >> 8) & 0x1F;
    assert((cod >> 8) & 0x1F == cod / 0x100 % 0x20) by (bit_vector);
    match major {
        0x01 => "Computer",
        0x02 => "Phone",
        0x03 => "LAN/Access Point",
        0x04 => "Audio/Video",
        0x05 => "Peripheral (Mouse/KB)",
        0x06 => "Imaging (Printer)",
        0x07 => "Wearable",
        0x08 => "Toy",
        0x09 => "Health",
        _ => "Uncategorized",
    }
}

/// Only the major class counts: the other bits of a class of device change nothing.
pub proof fn lemma_class_name_by_major(a: u32, b: u32)
    requires
        a as int / 0x100 % 0x20 == b as int / 0x100 % 0x20,
    ensures
        class_name(a) == class_name(b),
{
}

/// How a device family is called.
pub open spec fn kind_text(k: DeviceKind) -> Seq<char> {
    match k {
        DeviceKind::Classic => "Classic"@,
        DeviceKind::Ble => "BLE"@,
    }
}

/// Names a device family.
pub fn kind_label(k: DeviceKind) -> (s: &'static str)
    ensures
        s@ == kind_text(k),
{
    match k {
        DeviceKind::Classic => "Classic",
        DeviceKind::Ble => "BLE",
    }
}

/// How a state of the radio is called.
pub open spec fn radio_text(r: RadioState) -> Seq<char> {
    match r {
        RadioState::On => "ON"@,
        RadioState::Off => "OFF"@,
        RadioState::Disabled => "無効"@,
        RadioState::Absent => "無し"@,
        RadioState::Unknown => "?"@,
    }
}

/// Names a state of the radio.
pub fn radio_label(r: RadioState) -> (s: &'static str)
    ensures
        s@ == radio_text(r),
{
    match r {
        RadioState::On => "ON",
        RadioState::Off => "OFF",
        RadioState::Disabled => "無効",
        RadioState::Absent => "無し",
        RadioState::Unknown => "?",
    }
}

/// An opaque colour.
#[derive(Copy, Clone, Debug, PartialEq, Eq, Structural)]
pub struct Rgb {
    pub r: u8,
    pub g: u8,
    pub b: u8,
}

/// A colour with opacity, whose channels are already multiplied by it.
#[derive(Copy, Clone, Debug, PartialEq, Eq, Structural)]
pub struct Rgba {
    pub r: u8,
    pub g: u8,
    pub b: u8,
    pub a: u8,
}

/// The colour of a state of the radio: green where it is on, red where it cannot be used, grey
/// where it is not known; light on a dark background and dark on a light one.
pub open spec fn radio_colour(r: RadioState, dark: bool) -> Rgb {
    match r {
        RadioState::On => if dark {
            Rgb { r: 120, g: 220, b: 140 }
        } else {
            Rgb { r: 30, g: 130, b: 60 }
        },
        RadioState::Unknown => if dark {
            Rgb { r: 200, g: 200, b: 200 }
        } else {
            Rgb { r: 80, g: 80, b: 80 }
        },
        _ => if dark {
            Rgb { r: 240, g: 130, b: 130 }
        } else {
            Rgb { r: 180, g: 40, b: 40 }
        },
    }
}

/// Names a state of the radio and gives the colour to show it in.
pub fn radio_label_colored(r: RadioState, dark: bool) -> (p: (&'static str, Rgb))
    ensures
        p.0@ == radio_text(r),
        p.1 == radio_colour(r, dark),
{
    let ok = if dark {
        Rgb { r: 120, g: 220, b: 140 }
    } else {
        Rgb { r: 30, g: 130, b: 60 }
    };
    let bad = if dark {
        Rgb { r: 240, g: 130, b: 130 }
    } else {
        Rgb { r: 180, g: 40, b: 40 }
    };
    let neutral = if dark {
        Rgb { r: 200, g: 200, b: 200 }
    } else {
        Rgb { r: 80, g: 80, b: 80 }
    };
    match r {
        RadioState::On => ("ON", ok),
        RadioState::Off => ("OFF", bad),
        RadioState::Disabled => ("無効", bad),
        RadioState::Absent => ("無し", bad),
        RadioState::Unknown => ("?", neutral),
    }
}

/// The whole seconds in an age, or none where there is no age.
pub open spec fn age_secs(age: Option<Span>) -> int {
    match age {
        Some(a) => a.nanos as int / NANOS_PER_SEC as int,
        None => 0,
    }
}

/// A signal strength in words, with its age in seconds once it is old enough.
pub open spec fn rssi_text(rssi: Option<i32>, age: Option<Span>) -> Seq<char> {
    match rssi {
        Some(v) => if age_secs(age) >= AGE_SHOWN_FROM_SECS {
            signed_decimal(v as int) + " dBm ("@ + decimal(age_secs(age) as nat) + "s 前)"@
        } else {
            signed_decimal(v as int) + " dBm"@
        },
        None => "-- dBm"@,
    }
}

/// Puts a signal strength into words.
pub fn rssi_text_with_age(rssi: Option<i32>, age: Option<Span>) -> (s: String)
    ensures
        s@ == rssi_text(rssi, age),
{
    match rssi {
        Some(v) => {
            let secs: u64 = match age {
                Some(a) => a.as_secs(),
                None => 0,
            };
            let mut s = signed_decimal_text(v);
            if secs >= AGE_SHOWN_FROM_SECS {
                s.append(" dBm (");
                s.append(decimal_text(secs).as_str());
                s.append("s 前)");
            } else {
                s.append(" dBm");
            }
            s
        },
        None => "-- dBm".to_owned(),
    }
}

/// How full the bar of a signal strength is, in hundredths: empty at -100 dBm and below, full at
/// 0 dBm and above.
pub open spec fn level(rssi: int) -> int {
    if rssi <= -100 {
        0
    } else if rssi >= 0 {
        100
    } else {
        rssi + 100
    }
}

/// Computes how full the bar of a signal strength is, in hundredths.
pub fn bar_level(rssi: i32) -> (n: u8)
    ensures
        n == level(rssi as int),
        n <= 100,
{
    if rssi <= -100 {
        0
    } else if rssi >= 0 {
        100
    } else {
        (rssi + 100) as u8
    }
}

/// A stronger signal never has an emptier bar.
pub proof fn lemma_level_monotonic(a: int, b: int)
    requires
        a <= b,
    ensures
        0 <= level(a) <= level(b) <= 100,
{
}

/// A colour channel times an opacity of `a` in 255, to the nearest integer.
pub open spec fn scaled(channel: u8, a: u8) -> int {
    (2 * channel * a + 255) / 510
}

/// What is known of the channels of a colour after they were multiplied by an opacity: those that
/// are small are scaled, and equal ones stay equal.
pub open spec fn channels_multiplied(colour: Rgb, a: u8, c: Seq<u8>) -> bool {
    &&& c.len() == 4
    &&& c[3] == a
    &&& a == 255 ==> c == seq![colour.r, colour.g, colour.b, a]
    &&& a == 0 ==> c == seq![0u8, 0u8, 0u8, 0u8]
    &&& colour.r <= 10 ==> c[0] == scaled(colour.r, a)
    &&& colour.g <= 10 ==> c[1] == scaled(colour.g, a)
    &&& colour.b <= 10 ==> c[2] == scaled(colour.b, a)
    &&& colour.r == colour.g ==> c[0] == c[1]
    &&& colour.g == colour.b ==> c[1] == c[2]
    &&& colour.r == colour.b ==> c[0] == c[2]
}

/// Calls `egui::Color32::from_rgba_unmultiplied` and takes the result apart with `to_array`. The
/// opacity comes back as it was given; full opacity keeps the channels and none makes them zero;
/// equal channels stay equal. A channel of at most 10 lies on the straight part of the colour
/// curve: it is divided by 3294.6, multiplied by the opacity, multiplied by 3294.6 and rounded. The
/// exact product is never nearer than 1/510 to the middle between two integers, which is far more
/// than the error of these operations. Any larger channel goes through floating-point powers,
/// whose precision the machine decides: nothing is said of its value.
#[verifier::external_body]
fn multiplied(colour: Rgb, a: u8) -> (c: [u8; 4])
    ensures
        channels_multiplied(colour, a, c@),
{
    egui::Color32::from_rgba_unmultiplied(colour.r, colour.g, colour.b, a).to_array()
}

/// The colour that a bar is filled with, given its channels multiplied by the opacity of an old
/// signal strength.
pub open spec fn fill_colour(colour: Rgb, dim: bool, translucent: Seq<u8>) -> Rgba {
    if dim {
        Rgba { r: translucent[0], g: translucent[1], b: translucent[2], a: translucent[3] }
    } else {
        Rgba { r: colour.r, g: colour.g, b: colour.b, a: 255 }
    }
}

/// Chooses between a colour and its translucent channels: those are for an old signal strength.
pub fn choose_fill(colour: Rgb, dim: bool, translucent: [u8; 4]) -> (c: Rgba)
    ensures
        c == fill_colour(colour, dim, translucent@),
{
    if dim {
        Rgba { r: translucent[0], g: translucent[1], b: translucent[2], a: translucent[3] }
    } else {
        Rgba { r: colour.r, g: colour.g, b: colour.b, a: 255 }
    }
}

/// Whether multiplying this colour by this opacity may give these channels.
pub closed spec fn may_come_of(colour: Rgb, a: u8, channels: [u8; 4]) -> bool {
    call_ensures(multiplied, (colour, a), channels)
}

/// What is known of the channels that multiplying a colour by an opacity may give.
pub proof fn lemma_multiplied_channels(colour: Rgb, a: u8, channels: [u8; 4])
    requires
        may_come_of(colour, a, channels),
    ensures
        channels_multiplied(colour, a, channels@),
{
}

/// The colour that a bar is filled with: the given one, or for an old signal strength the same one
/// made translucent.
pub fn bar_fill(colour: Rgb, dim: bool) -> (c: Rgba)
    ensures
        exists|translucent: [u8; 4]|
            {
                &&& #[trigger] may_come_of(colour, DIM_ALPHA, translucent)
                &&& c == fill_colour(colour, dim, translucent@)
            },
{
    let translucent = multiplied(colour, DIM_ALPHA);
    assert(may_come_of(colour, DIM_ALPHA, translucent));
    choose_fill(colour, dim, translucent)
}

} // verus!
