use vstd::prelude::*;

use crate::controller::le32;

verus! {

/// Length of one "Data Out" telemetry packet.
pub const PACKET_SIZE: usize = 324;

/// One value per wheel: front-left, front-right, rear-left, rear-right.
#[derive(Debug, Clone, Copy, PartialEq, Eq, Structural)]
pub struct Wheels {
    pub fl: u32,
    pub fr: u32,
    pub rl: u32,
    pub rr: u32,
}

/// The fields of a telemetry packet that the trigger logic reads.
///
/// Integer fields hold their values; the fields that the game sends as 32-bit floats hold
/// their IEEE-754 bit patterns (`f32::from_bits` gives the value back).
#[derive(Debug, Clone, Copy, PartialEq, Eq, Structural)]
pub struct TelemetryPacket {
    /// Non-zero while a race is running (offset 0).
    pub is_running: i32,
    /// Engine maximum rpm (offset 8).
    pub max_rpm_bits: u32,
    /// Engine rpm (offset 16).
    pub rpm_bits: u32,
    /// Longitudinal tire slip ratio (offset 84).
    pub tire_slip_ratio_bits: Wheels,
    /// Puddle depth under each wheel (offset 132).
    pub wheel_in_puddle_depth_bits: Wheels,
    /// Surface rumble under each wheel (offset 148).
    pub surface_rumble_bits: Wheels,
    /// Combined tire slip (offset 180).
    pub tire_combined_slip_bits: Wheels,
    /// 0 front-wheel, 1 rear-wheel, 2 all-wheel drive (offset 224).
    pub drive_train: i32,
    /// Speed in metres per second (offset 256).
    pub speed_bits: u32,
    /// Throttle pedal 0..=255 (offset 315).
    pub accel: u8,
    /// Brake pedal 0..=255 (offset 316).
    pub brake: u8,
    /// Handbrake 0..=255 (offset 318).
    pub handbrake: u8,
    /// Current gear (offset 319).
    pub gear: u8,
}

/// The little-endian `u32` stored at `off`.
pub open spec fn le_u32_at(s: Seq<u8>, off: int) -> u32 {
    (s[off] as int + s[off + 1] as int * 0x100 + s[off + 2] as int * 0x1_0000 + s[off + 3] as int
        * 0x100_0000) as u32
}

/// The little-endian `i32` stored at `off` (two's complement).
pub open spec fn le_i32_at(s: Seq<u8>, off: int) -> i32 {
    le_u32_at(s, off) as i32
}

/// Four consecutive little-endian `u32` values starting at `off`.
pub open spec fn wheels_at(s: Seq<u8>, off: int) -> Wheels {
    Wheels {
        fl: le_u32_at(s, off),
        fr: le_u32_at(s, off + 4),
        rl: le_u32_at(s, off + 8),
        rr: le_u32_at(s, off + 12),
    }
}

/// The packet that 324 bytes of telemetry describe.
pub open spec fn packet_of(s: Seq<u8>) -> TelemetryPacket {
    TelemetryPacket {
        is_running: le_i32_at(s, 0),
        max_rpm_bits: le_u32_at(s, 8),
        rpm_bits: le_u32_at(s, 16),
        tire_slip_ratio_bits: wheels_at(s, 84),
        wheel_in_puddle_depth_bits: wheels_at(s, 132),
        surface_rumble_bits: wheels_at(s, 148),
        tire_combined_slip_bits: wheels_at(s, 180),
        drive_train: le_i32_at(s, 224),
        speed_bits: le_u32_at(s, 256),
        accel: s[315],
        brake: s[316],
        handbrake: s[318],
        gear: s[319],
    }
}

/// The result of reading a datagram: a packet when it has exactly the packet length.
pub open spec fn decode_spec(s: Seq<u8>) -> Option<TelemetryPacket> {
    if s.len() == PACKET_SIZE {
        Some(packet_of(s))
    } else {
        None
    }
}

fn read_u32_le(buf: &[u8], off: usize) -> (x: u32)
    requires
        off + 4 <= buf.len(),
    ensures
        x == le_u32_at(buf@, off as int),
{
    let b0 = buf[off];
    let b1 = buf[off + 1];
    let b2 = buf[off + 2];
    let b3 = buf[off + 3];
    let x = (b0 as u32) | ((b1 as u32) << 8u32) | ((b2 as u32) << 16u32) | ((b3 as u32) << 24u32);
    assert(x == (b0 as int + b1 as int * 0x100 + b2 as int * 0x1_0000 + b3 as int * 0x100_0000)
        as u32) by (bit_vector)
        requires
            x == (b0 as u32) | ((b1 as u32) << 8u32) | ((b2 as u32) << 16u32) | ((b3 as u32)
                << 24u32),
    ;
    x
}

fn read_wheels(buf: &[u8], off: usize) -> (w: Wheels)
    requires
        off + 16 <= buf.len(),
    ensures
        w == wheels_at(buf@, off as int),
{
    Wheels {
        fl: read_u32_le(buf, off),
        fr: read_u32_le(buf, off + 4),
        rl: read_u32_le(buf, off + 8),
        rr: read_u32_le(buf, off + 12),
    }
}

/// Reads a telemetry datagram. Anything that is not exactly one packet long is dropped.
pub fn decode_packet(buf: &[u8]) -> (packet: Option<TelemetryPacket>)
    ensures
        packet == decode_spec(buf@),
{
    if buf.len() != PACKET_SIZE {
        return None;
    }
    Some(
        TelemetryPacket {
            is_running: read_u32_le(buf, 0) as i32,
            max_rpm_bits: read_u32_le(buf, 8),
            rpm_bits: read_u32_le(buf, 16),
            tire_slip_ratio_bits: read_wheels(buf, 84),
            wheel_in_puddle_depth_bits: read_wheels(buf, 132),
            surface_rumble_bits: read_wheels(buf, 148),
            tire_combined_slip_bits: read_wheels(buf, 180),
            drive_train: read_u32_le(buf, 224) as i32,
            speed_bits: read_u32_le(buf, 256),
            accel: buf[315],
            brake: buf[316],
            handbrake: buf[318],
            gear: buf[319],
        },
    )
}

/// The bytes of an idle packet: a running race and every other field zero.
pub open spec fn base_telemetry_bytes() -> Seq<u8> {
    Seq::new(324, |i: int| if i == 0 { 1u8 } else { 0u8 })
}

/// A packet of a running race with every other field zero, the starting point of test packets.
pub fn base_telemetry() -> (telemetry: [u8; 324])
    ensures
        telemetry@ == base_telemetry_bytes(),
{
    let mut telemetry = [0u8; 324];
    telemetry[0] = 1;
    telemetry[1] = 0;
    telemetry[2] = 0;
    telemetry[3] = 0;
    assert(telemetry@ =~= base_telemetry_bytes());
    telemetry
}

/// Law: an idle packet reads back as a running race with every other field zero.
pub proof fn lemma_base_telemetry_reads_back()
    ensures
        decode_spec(base_telemetry_bytes()) == Some(
            TelemetryPacket {
                is_running: 1,
                max_rpm_bits: 0,
                rpm_bits: 0,
                tire_slip_ratio_bits: Wheels { fl: 0, fr: 0, rl: 0, rr: 0 },
                wheel_in_puddle_depth_bits: Wheels { fl: 0, fr: 0, rl: 0, rr: 0 },
                surface_rumble_bits: Wheels { fl: 0, fr: 0, rl: 0, rr: 0 },
                tire_combined_slip_bits: Wheels { fl: 0, fr: 0, rl: 0, rr: 0 },
                drive_train: 0,
                speed_bits: 0,
                accel: 0,
                brake: 0,
                handbrake: 0,
                gear: 0,
            },
        ),
{
    let s = base_telemetry_bytes();
    assert(le_u32_at(s, 0) == 1);
    assert((1u32 as i32) == 1) by (bit_vector);
    assert((0u32 as i32) == 0) by (bit_vector);
}

/// Byte `j` (0..16) of four little-endian words laid out front-left, front-right, rear-left,
/// rear-right.
pub open spec fn wheels_byte(w: Wheels, j: int) -> u8 {
    let word = if j < 4 {
        w.fl
    } else if j < 8 {
        w.fr
    } else if j < 12 {
        w.rl
    } else {
        w.rr
    };
    le32(word)[j % 4]
}

/// The 324 bytes a game sends for a packet: each field little-endian at its offset in the
/// "Data Out" layout, every byte the packet does not describe zero.
pub open spec fn packet_bytes(p: TelemetryPacket) -> Seq<u8> {
    Seq::new(
        324,
        |i: int|
            if 0 <= i < 4 {
                le32(p.is_running as u32)[i]
            } else if 8 <= i < 12 {
                le32(p.max_rpm_bits)[i - 8]
            } else if 16 <= i < 20 {
                le32(p.rpm_bits)[i - 16]
            } else if 84 <= i < 100 {
                wheels_byte(p.tire_slip_ratio_bits, i - 84)
            } else if 132 <= i < 148 {
                wheels_byte(p.wheel_in_puddle_depth_bits, i - 132)
            } else if 148 <= i < 164 {
                wheels_byte(p.surface_rumble_bits, i - 148)
            } else if 180 <= i < 196 {
                wheels_byte(p.tire_combined_slip_bits, i - 180)
            } else if 224 <= i < 228 {
                le32(p.drive_train as u32)[i - 224]
            } else if 256 <= i < 260 {
                le32(p.speed_bits)[i - 256]
            } else if i == 315 {
                p.accel
            } else if i == 316 {
                p.brake
            } else if i == 318 {
                p.handbrake
            } else if i == 319 {
                p.gear
            } else {
                0u8
            },
    )
}

proof fn lemma_le32_reads_back(x: u32)
    ensures
        (le32(x)[0] as int + le32(x)[1] as int * 0x100 + le32(x)[2] as int * 0x1_0000 + le32(
            x,
        )[3] as int * 0x100_0000) as u32 == x,
{
    let b0 = (x & 0xff) as u8;
    let b1 = ((x >> 8u32) & 0xff) as u8;
    let b2 = ((x >> 16u32) & 0xff) as u8;
    let b3 = (x >> 24u32) as u8;
    assert(le32(x)[0] == b0 && le32(x)[1] == b1 && le32(x)[2] == b2 && le32(x)[3] == b3);
    assert((b0 as int + b1 as int * 0x100 + b2 as int * 0x1_0000 + b3 as int * 0x100_0000) as u32
        == x) by (bit_vector)
        requires
            b0 == (x & 0xff) as u8,
            b1 == ((x >> 8u32) & 0xff) as u8,
            b2 == ((x >> 16u32) & 0xff) as u8,
            b3 == (x >> 24u32) as u8,
    ;
}

proof fn lemma_i32_word(x: i32)
    ensures
        (x as u32) as i32 == x,
{
    assert((x as u32) as i32 == x) by (bit_vector);
}

proof fn lemma_word_reads_back(s: Seq<u8>, off: int, x: u32)
    requires
        0 <= off,
        off + 4 <= s.len(),
        s[off] == le32(x)[0],
        s[off + 1] == le32(x)[1],
        s[off + 2] == le32(x)[2],
        s[off + 3] == le32(x)[3],
    ensures
        le_u32_at(s, off) == x,
{
    lemma_le32_reads_back(x);
}

proof fn lemma_wheels_read_back(s: Seq<u8>, off: int, w: Wheels)
    requires
        0 <= off,
        off + 16 <= s.len(),
        forall|j: int| 0 <= j < 16 ==> #[trigger] s[off + j] == wheels_byte(w, j),
    ensures
        wheels_at(s, off) == w,
{
    assert(s[off + 0] == wheels_byte(w, 0));
    assert(s[off + 1] == wheels_byte(w, 1));
    assert(s[off + 2] == wheels_byte(w, 2));
    assert(s[off + 3] == wheels_byte(w, 3));
    lemma_word_reads_back(s, off, w.fl);
    assert(s[off + 4] == wheels_byte(w, 4));
    assert(s[off + 5] == wheels_byte(w, 5));
    assert(s[off + 6] == wheels_byte(w, 6));
    assert(s[off + 7] == wheels_byte(w, 7));
    lemma_word_reads_back(s, off + 4, w.fr);
    assert(s[off + 8] == wheels_byte(w, 8));
    assert(s[off + 9] == wheels_byte(w, 9));
    assert(s[off + 10] == wheels_byte(w, 10));
    assert(s[off + 11] == wheels_byte(w, 11));
    lemma_word_reads_back(s, off + 8, w.rl);
    assert(s[off + 12] == wheels_byte(w, 12));
    assert(s[off + 13] == wheels_byte(w, 13));
    assert(s[off + 14] == wheels_byte(w, 14));
    assert(s[off + 15] == wheels_byte(w, 15));
    lemma_word_reads_back(s, off + 12, w.rr);
}

/// Law: reading is the inverse of the packet layout. The bytes that carry a packet, each field
/// little-endian at its own offset (wheel by wheel for the per-wheel blocks), read back as that
/// packet.
pub proof fn lemma_packet_layout_reads_back(p: TelemetryPacket)
    ensures
        packet_bytes(p).len() == PACKET_SIZE,
        decode_spec(packet_bytes(p)) == Some(p),
{
    let s = packet_bytes(p);
    lemma_word_reads_back(s, 0, p.is_running as u32);
    lemma_i32_word(p.is_running);
    lemma_word_reads_back(s, 8, p.max_rpm_bits);
    lemma_word_reads_back(s, 16, p.rpm_bits);
    lemma_wheels_read_back(s, 84, p.tire_slip_ratio_bits);
    lemma_wheels_read_back(s, 132, p.wheel_in_puddle_depth_bits);
    lemma_wheels_read_back(s, 148, p.surface_rumble_bits);
    lemma_wheels_read_back(s, 180, p.tire_combined_slip_bits);
    lemma_word_reads_back(s, 224, p.drive_train as u32);
    lemma_i32_word(p.drive_train);
    lemma_word_reads_back(s, 256, p.speed_bits);
}

} // verus!
