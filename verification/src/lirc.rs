//! Support for the transmitter device layer: feature-bit tests, the
//! duty-cycle range the device accepts, and the explicit, bounds-checked
//! serialisation of a waveform into the byte buffer a device write takes.

use vstd::prelude::*;

verus! {

/// Feature bit: the device can send pulses.
pub const LIRC_CAN_SEND_PULSE: u32 = 2;

/// Feature bit: the send carrier can be set.
pub const LIRC_CAN_SET_SEND_CARRIER: u32 = 0x100;

/// Feature bit: the send duty cycle can be set.
pub const LIRC_CAN_SET_SEND_DUTY_CYCLE: u32 = 0x200;

/// Feature bit: the transmitter mask can be set.
pub const LIRC_CAN_SET_TRANSMITTER_MASK: u32 = 0x400;

/// Whether a device with this feature word supports sending.
pub fn can_send(features: u32) -> (r: bool)
    ensures
        r == (features & LIRC_CAN_SEND_PULSE != 0),
{
    (features & LIRC_CAN_SEND_PULSE) != 0
}

/// Whether a device with this feature word supports setting the send
/// carrier.
pub fn can_set_send_carrier(features: u32) -> (r: bool)
    ensures
        r == (features & LIRC_CAN_SET_SEND_CARRIER != 0),
{
    (features & LIRC_CAN_SET_SEND_CARRIER) != 0
}

/// Whether a device with this feature word supports setting the send duty
/// cycle.
pub fn can_set_send_duty_cycle(features: u32) -> (r: bool)
    ensures
        r == (features & LIRC_CAN_SET_SEND_DUTY_CYCLE != 0),
{
    (features & LIRC_CAN_SET_SEND_DUTY_CYCLE) != 0
}

/// Whether a device with this feature word supports setting the
/// transmitter mask.
pub fn can_set_send_transmitter_mask(features: u32) -> (r: bool)
    ensures
        r == (features & LIRC_CAN_SET_TRANSMITTER_MASK != 0),
{
    (features & LIRC_CAN_SET_TRANSMITTER_MASK) != 0
}

/// Whether a duty-cycle percentage lies strictly between 1 and 100, as the
/// device interface demands.
pub fn duty_cycle_in_range(duty_cycle: u32) -> (r: bool)
    ensures
        r == (1 < duty_cycle < 100),
{
    duty_cycle > 1 && duty_cycle < 100
}

/// How many bytes a write of an `n`-entry waveform sends: the device takes
/// fixed four-byte records, and an even-length waveform has its final entry
/// trimmed, so the count is `(n - 1) * 4` for even `n` and `n * 4` for odd
/// `n`.
pub open spec fn send_byte_count(n: int) -> int {
    if n % 2 == 0 {
        (n - 1) * 4
    } else {
        n * 4
    }
}

/// The byte at position `idx` of a 32-bit magnitude laid out
/// least-significant first.
pub open spec fn byte_of(v: u32, idx: int) -> u8 {
    if idx == 0 {
        (v & 0xff) as u8
    } else if idx == 1 {
        ((v >> 8) & 0xff) as u8
    } else if idx == 2 {
        ((v >> 16) & 0xff) as u8
    } else {
        ((v >> 24) & 0xff) as u8
    }
}

/// Serialises the waveform for the device write: each magnitude as four
/// bytes, least-significant first, with an even-length waveform's final
/// entry trimmed — exactly `send_byte_count` bytes.
pub fn pack_waveform(data: &Vec<u32>) -> (r: Vec<u8>)
    requires
        data@.len() >= 1,
        4 * data@.len() <= usize::MAX,
    ensures
        r@.len() == send_byte_count(data@.len() as int),
        forall|k: int| 0 <= k < r@.len() ==> r@[k] == byte_of(data@[k / 4], k % 4),
{
    let words: usize = if data.len() % 2 == 0 {
        data.len() - 1
    } else {
        data.len()
    };
    let mut out: Vec<u8> = Vec::new();
    let mut i: usize = 0;
    while i < words
        invariant
            0 <= i <= words,
            words <= data@.len(),
            4 * data@.len() <= usize::MAX,
            out@.len() == 4 * i,
            forall|k: int| 0 <= k < out@.len() ==> out@[k] == byte_of(data@[k / 4], k % 4),
        decreases words - i,
    {
        let v = data[i];
        out.push((v & 0xff) as u8);
        out.push(((v >> 8) & 0xff) as u8);
        out.push(((v >> 16) & 0xff) as u8);
        out.push(((v >> 24) & 0xff) as u8);
        proof {
            let b: int = 4 * (i as int);
            assert(b / 4 == i as int && b % 4 == 0);
            assert((b + 1) / 4 == i as int && (b + 1) % 4 == 1);
            assert((b + 2) / 4 == i as int && (b + 2) % 4 == 2);
            assert((b + 3) / 4 == i as int && (b + 3) % 4 == 3);
        }
        i += 1;
    }
    out
}

} // verus!
