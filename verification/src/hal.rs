//! The sensor frame that the firmware sends over the serial link.
use vstd::prelude::*;

verus! {

/// A raw sensor reading captured on the device.
#[derive(Debug, Clone, Copy, PartialEq, Eq, Structural)]
pub struct SensorReading {
    /// Unique sensor identifier (0 to 255).
    pub sensor_id: u8,
    /// Raw ADC or digital reading; its meaning is sensor-specific.
    pub value_raw: u32,
    /// Milliseconds since firmware boot (wraps at `u32::MAX`).
    pub timestamp_ms: u32,
}

/// The `k`-th little-endian byte (0 = least significant) of a 32-bit value.
pub open spec fn le_byte(v: u32, k: int) -> u8 {
    if k == 0 {
        (v & 0xff) as u8
    } else if k == 1 {
        ((v >> 8) & 0xff) as u8
    } else if k == 2 {
        ((v >> 16) & 0xff) as u8
    } else {
        ((v >> 24) & 0xff) as u8
    }
}

/// The 9-byte wire frame of a reading: the sensor ID, then the value and the
/// timestamp, each as four little-endian bytes.
pub open spec fn frame_of(r: SensorReading) -> Seq<u8> {
    seq![r.sensor_id] + Seq::new(4, |k: int| le_byte(r.value_raw, k)) + Seq::new(
        4,
        |k: int| le_byte(r.timestamp_ms, k),
    )
}

/// The value that four little-endian bytes encode.
pub open spec fn le_value(b0: u8, b1: u8, b2: u8, b3: u8) -> int {
    b0 + 256 * b1 + 65536 * b2 + 16777216 * b3
}

fn le_bytes(v: u32) -> (r: [u8; 4])
    ensures
        r@ == Seq::new(4, |k: int| le_byte(v, k)),
        le_value(r@[0], r@[1], r@[2], r@[3]) == v,
{
    let b0 = #[verifier::truncate] ((v & 0xff) as u8);
    let b1 = #[verifier::truncate] (((v >> 8) & 0xff) as u8);
    let b2 = #[verifier::truncate] (((v >> 16) & 0xff) as u8);
    let b3 = #[verifier::truncate] (((v >> 24) & 0xff) as u8);
    assert(b0 + 256 * b1 + 65536 * b2 + 16777216 * b3 == v) by (bit_vector)
        requires
            b0 == (v & 0xff) as u8,
            b1 == ((v >> 8) & 0xff) as u8,
            b2 == ((v >> 16) & 0xff) as u8,
            b3 == ((v >> 24) & 0xff) as u8,
    ;
    let r = [b0, b1, b2, b3];
    assert(r@ =~= Seq::new(4, |k: int| le_byte(v, k)));
    r
}

impl SensorReading {
    /// Serialises the reading into its 9-byte little-endian frame:
    /// `[sensor_id][value_raw LE][timestamp_ms LE]`.
    ///
    /// The value and the timestamp can be read back from the frame.
    pub fn to_bytes(&self) -> (r: [u8; 9])
        ensures
            r@ == frame_of(*self),
            le_value(r@[1], r@[2], r@[3], r@[4]) == self.value_raw,
            le_value(r@[5], r@[6], r@[7], r@[8]) == self.timestamp_ms,
    {
        let v = le_bytes(self.value_raw);
        let t = le_bytes(self.timestamp_ms);
        let out = [self.sensor_id, v[0], v[1], v[2], v[3], t[0], t[1], t[2], t[3]];
        assert(out@ =~= frame_of(*self));
        out
    }
}

/// Writes a reading to the serial output. On the host there is no UART, so the
/// call does nothing; the firmware drives the peripheral itself.
pub fn write_reading(_reading: &SensorReading) {
}

} // verus!
