//! The telemetry frames that the in-game mod writes.
//!
//! The mod rewrites one fixed-size little-endian record per frame. A reader
//! sees it as bytes; this module decodes them, tells new frames from old ones
//! and decides when telemetry has gone silent.
//!
//! Physical quantities travel as IEEE-754 single-precision numbers. A
//! [`Telemetry`] carries each of them as its 32-bit pattern.

use crate::text::{decimal, decimal_text, hex, hex_text};
use byteorder::{ByteOrder, LittleEndian};
use vstd::prelude::*;
use vstd::string::*;

verus! {

/// The first four bytes of a frame, read as a little-endian number.
pub const MAGIC: u32 = 0x46464245;

/// Header (magic, version, size, sequence: 12 bytes), time stamp, 21
/// single-precision numbers, flags and vehicle hash.
pub const FRAME_SIZE: usize = 108;

/// The same without a time stamp. A frame of this layout says so in its size
/// field.
pub const UNTIMED_FRAME_SIZE: usize = 104;

/// The lowest frame version. Later versions append fields behind the tail of
/// this one.
pub const FIRST_VERSION: u16 = 1;

/// Silence longer than this is stale telemetry.
pub const STALE_AFTER_NANOS: u128 = 500_000_000;

/// One decoded frame.
///
/// The fields between `sequence` and `flags` hold the bit patterns of
/// single-precision numbers.
#[derive(Debug, Clone, Copy, PartialEq, Eq, Structural)]
pub struct Telemetry {
    pub sequence: u32,
    pub timestamp: u32,
    pub steering_angle: u32,
    pub steering_target: u32,
    pub speed_mps: u32,
    pub lateral_accel: u32,
    pub longitudinal_accel: u32,
    pub yaw_rate: u32,
    pub pitch: u32,
    pub roll: u32,
    pub slip_front: u32,
    pub slip_rear: u32,
    pub susp_fl: u32,
    pub susp_fr: u32,
    pub susp_rl: u32,
    pub susp_rr: u32,
    pub ground_hardness: u32,
    pub ground_roughness: u32,
    pub rpm: u32,
    pub engine_load: u32,
    pub attached_mass: u32,
    pub total_mass: u32,
    pub collision: u32,
    pub flags: u32,
    pub vehicle_hash: u32,
    /// When the frame was decoded, in nanoseconds of the reader's clock.
    pub received_at: Option<u64>,
}

impl Telemetry {
    /// All numbers zero, never received.
    pub open spec fn blank() -> Telemetry {
        Telemetry {
            sequence: 0,
            timestamp: 0,
            steering_angle: 0,
            steering_target: 0,
            speed_mps: 0,
            lateral_accel: 0,
            longitudinal_accel: 0,
            yaw_rate: 0,
            pitch: 0,
            roll: 0,
            slip_front: 0,
            slip_rear: 0,
            susp_fl: 0,
            susp_fr: 0,
            susp_rl: 0,
            susp_rr: 0,
            ground_hardness: 0,
            ground_roughness: 0,
            rpm: 0,
            engine_load: 0,
            attached_mass: 0,
            total_mass: 0,
            collision: 0,
            flags: 0,
            vehicle_hash: 0,
            received_at: None,
        }
    }

    /// The player sits in a vehicle: flag bit 0.
    pub fn in_vehicle(&self) -> (yes: bool)
        ensures
            yes == (self.flags & 0x01 != 0),
    {
        self.flags & 0x01 != 0
    }

    /// The vehicle has power steering: flag bit 2.
    pub fn has_power_steering(&self) -> (yes: bool)
        ensures
            yes == (self.flags & 0x04 != 0),
    {
        self.flags & 0x04 != 0
    }

    /// The vehicle drives backwards: flag bit 3.
    pub fn reversing(&self) -> (yes: bool)
        ensures
            yes == (self.flags & 0x08 != 0),
    {
        self.flags & 0x08 != 0
    }

    /// No wheel touches the ground: flag bit 4.
    pub fn airborne(&self) -> (yes: bool)
        ensures
            yes == (self.flags & 0x10 != 0),
    {
        self.flags & 0x10 != 0
    }
}

impl Default for Telemetry {
    fn default() -> (t: Self)
        ensures
            t == Telemetry::blank(),
    {
        Telemetry {
            sequence: 0,
            timestamp: 0,
            steering_angle: 0,
            steering_target: 0,
            speed_mps: 0,
            lateral_accel: 0,
            longitudinal_accel: 0,
            yaw_rate: 0,
            pitch: 0,
            roll: 0,
            slip_front: 0,
            slip_rear: 0,
            susp_fl: 0,
            susp_fr: 0,
            susp_rl: 0,
            susp_rr: 0,
            ground_hardness: 0,
            ground_roughness: 0,
            rpm: 0,
            engine_load: 0,
            attached_mass: 0,
            total_mass: 0,
            collision: 0,
            flags: 0,
            vehicle_hash: 0,
            received_at: None,
        }
    }
}

// ---------------------------------------------------------------------------
// Little-endian numbers
// ---------------------------------------------------------------------------

/// The little-endian 16-bit number at position `at`.
pub open spec fn le16(b: Seq<u8>, at: int) -> u16 {
    (b[at] + 0x100 * b[at + 1]) as u16
}

/// The little-endian 32-bit number at position `at`.
pub open spec fn le32(b: Seq<u8>, at: int) -> u32 {
    (b[at] + 0x100 * b[at + 1] + 0x1_0000 * b[at + 2] + 0x100_0000 * b[at + 3]) as u32
}

/// Calls `byteorder::LittleEndian::read_u16`, which panics on fewer than two
/// bytes and otherwise reads the first two, the lower one first.
#[verifier::external_body]
fn read_u16(buf: &[u8], at: usize) -> (n: u16)
    requires
        at + 2 <= buf@.len(),
    ensures
        n == le16(buf@, at as int),
{
    LittleEndian::read_u16(&buf[at..])
}

/// Calls `byteorder::LittleEndian::read_u32`, which panics on fewer than four
/// bytes and otherwise reads the first four, the lowest one first.
#[verifier::external_body]
fn read_u32(buf: &[u8], at: usize) -> (n: u32)
    requires
        at + 4 <= buf@.len(),
    ensures
        n == le32(buf@, at as int),
{
    LittleEndian::read_u32(&buf[at..])
}

// ---------------------------------------------------------------------------
// Decoding
// ---------------------------------------------------------------------------

/// Why a byte string is not a frame.
#[derive(Debug, Clone, Copy, PartialEq, Eq, Structural)]
pub enum FrameError {
    /// Fewer bytes than the frame has; how many there are.
    TooShort(usize),
    /// The first four bytes are not [`MAGIC`]; what they are.
    BadMagic(u32),
    /// The version is below the first one; what it is.
    UnsupportedVersion(u16),
}

impl FrameError {
    /// The error in words.
    pub open spec fn message_text(self) -> Seq<char> {
        match self {
            FrameError::TooShort(len) => "frame too short: "@ + decimal(len as nat) + " bytes"@,
            FrameError::BadMagic(magic) => "bad magic 0x"@ + hex(magic as nat, 8, true)
                + " (expected 0x"@ + hex(MAGIC as nat, 8, true) + ")"@,
            FrameError::UnsupportedVersion(version) => "unsupported frame version "@ + decimal(
                version as nat,
            ),
        }
    }

    /// The error in words.
    pub fn message(&self) -> (out: String)
        ensures
            out@ == self.message_text(),
    {
        match *self {
            FrameError::TooShort(len) => "frame too short: ".to_owned().concat(
                decimal_text(len as u64).as_str(),
            ).concat(" bytes"),
            FrameError::BadMagic(magic) => "bad magic 0x".to_owned().concat(
                hex_text(magic as u64, 8, true).as_str(),
            ).concat(" (expected 0x").concat(hex_text(MAGIC as u64, 8, true).as_str()).concat(")"),
            FrameError::UnsupportedVersion(version) => "unsupported frame version ".to_owned().concat(
                decimal_text(version as u64).as_str(),
            ),
        }
    }
}

/// The fields of a frame whose measurements begin at position `at`.
pub open spec fn fields_from(b: Seq<u8>, at: int, timestamp: u32, received_at: u64) -> Telemetry {
    Telemetry {
        sequence: le32(b, 8),
        timestamp,
        steering_angle: le32(b, at),
        steering_target: le32(b, at + 4),
        speed_mps: le32(b, at + 8),
        lateral_accel: le32(b, at + 12),
        longitudinal_accel: le32(b, at + 16),
        yaw_rate: le32(b, at + 20),
        pitch: le32(b, at + 24),
        roll: le32(b, at + 28),
        slip_front: le32(b, at + 32),
        slip_rear: le32(b, at + 36),
        susp_fl: le32(b, at + 40),
        susp_fr: le32(b, at + 44),
        susp_rl: le32(b, at + 48),
        susp_rr: le32(b, at + 52),
        ground_hardness: le32(b, at + 56),
        ground_roughness: le32(b, at + 60),
        rpm: le32(b, at + 64),
        engine_load: le32(b, at + 68),
        attached_mass: le32(b, at + 72),
        total_mass: le32(b, at + 76),
        collision: le32(b, at + 80),
        flags: le32(b, at + 84),
        vehicle_hash: le32(b, at + 88),
        received_at: Some(received_at),
    }
}

/// The frame is of the layout without a time stamp: its size field says so.
pub open spec fn untimed(b: Seq<u8>) -> bool {
    le16(b, 6) == UNTIMED_FRAME_SIZE
}

/// How many bytes a frame has up to its tail.
pub open spec fn frame_len(b: Seq<u8>) -> nat {
    if untimed(b) {
        UNTIMED_FRAME_SIZE as nat
    } else {
        FRAME_SIZE as nat
    }
}

/// The fields of a frame, each at its place. Without a time stamp, the time is
/// zero and the measurements follow the sequence number.
pub open spec fn frame_fields(b: Seq<u8>, received_at: u64) -> Telemetry {
    if untimed(b) {
        fields_from(b, 12, 0, received_at)
    } else {
        fields_from(b, 16, le32(b, 12), received_at)
    }
}

/// What a byte string decodes to: after the magic number and the version, the
/// size field tells the layout. Bytes behind the tail are not looked at.
pub open spec fn decoded(b: Seq<u8>, received_at: u64) -> Result<Telemetry, FrameError> {
    if b.len() < UNTIMED_FRAME_SIZE {
        Err(FrameError::TooShort(b.len() as usize))
    } else if le32(b, 0) != MAGIC {
        Err(FrameError::BadMagic(le32(b, 0)))
    } else if le16(b, 4) < FIRST_VERSION {
        Err(FrameError::UnsupportedVersion(le16(b, 4)))
    } else if b.len() < frame_len(b) {
        Err(FrameError::TooShort(b.len() as usize))
    } else {
        Ok(frame_fields(b, received_at))
    }
}

fn read_fields(buf: &[u8], at: usize, timestamp: u32, received_at: u64) -> (t: Telemetry)
    requires
        12 <= at <= 16,
        at + 92 <= buf@.len(),
    ensures
        t == fields_from(buf@, at as int, timestamp, received_at),
{
    Telemetry {
        sequence: read_u32(buf, 8),
        timestamp,
        steering_angle: read_u32(buf, at),
        steering_target: read_u32(buf, at + 4),
        speed_mps: read_u32(buf, at + 8),
        lateral_accel: read_u32(buf, at + 12),
        longitudinal_accel: read_u32(buf, at + 16),
        yaw_rate: read_u32(buf, at + 20),
        pitch: read_u32(buf, at + 24),
        roll: read_u32(buf, at + 28),
        slip_front: read_u32(buf, at + 32),
        slip_rear: read_u32(buf, at + 36),
        susp_fl: read_u32(buf, at + 40),
        susp_fr: read_u32(buf, at + 44),
        susp_rl: read_u32(buf, at + 48),
        susp_rr: read_u32(buf, at + 52),
        ground_hardness: read_u32(buf, at + 56),
        ground_roughness: read_u32(buf, at + 60),
        rpm: read_u32(buf, at + 64),
        engine_load: read_u32(buf, at + 68),
        attached_mass: read_u32(buf, at + 72),
        total_mass: read_u32(buf, at + 76),
        collision: read_u32(buf, at + 80),
        flags: read_u32(buf, at + 84),
        vehicle_hash: read_u32(buf, at + 88),
        received_at: Some(received_at),
    }
}

/// Decodes a frame. A torn write shows as a short buffer or a bad magic
/// number.
pub fn parse_frame(buf: &[u8], received_at: u64) -> (out: Result<Telemetry, FrameError>)
    ensures
        out == decoded(buf@, received_at),
{
    if buf.len() < UNTIMED_FRAME_SIZE {
        return Err(FrameError::TooShort(buf.len()));
    }
    let magic: u32 = read_u32(buf, 0);
    if magic != MAGIC {
        return Err(FrameError::BadMagic(magic));
    }
    let version: u16 = read_u16(buf, 4);
    if version < FIRST_VERSION {
        return Err(FrameError::UnsupportedVersion(version));
    }
    if read_u16(buf, 6) as usize == UNTIMED_FRAME_SIZE {
        return Ok(read_fields(buf, 12, 0, received_at));
    }
    if buf.len() < FRAME_SIZE {
        return Err(FrameError::TooShort(buf.len()));
    }
    Ok(read_fields(buf, 16, read_u32(buf, 12), received_at))
}

// ---------------------------------------------------------------------------
// Polling
// ---------------------------------------------------------------------------

/// What one look at the file yields, given the sequence number seen last and
/// the bytes read now: a frame with another sequence number, or nothing.
pub open spec fn fresh_frame(last_seq: u32, read: Seq<u8>, now: u64) -> Option<Telemetry> {
    match decoded(read, now) {
        Ok(t) => if t.sequence == last_seq {
            None
        } else {
            Some(t)
        },
        Err(_) => None,
    }
}

/// Tells new frames from frames already seen.
pub struct TelemetryReader {
    path: String,
    last_seq: u32,
}

impl TelemetryReader {
    /// The characters of the watched path.
    pub closed spec fn path_text(self) -> Seq<char> {
        self.path@
    }

    /// The sequence number of the last frame handed out, or 0.
    pub closed spec fn seen(self) -> u32 {
        self.last_seq
    }

    /// A reader that has seen no frame yet.
    pub fn new(path: String) -> (reader: Self)
        ensures
            reader.path_text() == path@,
            reader.seen() == 0,
    {
        TelemetryReader { path, last_seq: 0 }
    }

    /// The file that the reader watches.
    pub fn path(&self) -> (path: &str)
        ensures
            path@ == self.path_text(),
    {
        self.path.as_str()
    }

    /// Takes the bytes that one read of the file gave (none where the file is
    /// missing). Yields the frame if its sequence number differs from the last
    /// one; torn and malformed frames yield nothing.
    pub fn poll(&mut self, read: &[u8], now: u64) -> (frame: Option<Telemetry>)
        ensures
            frame == fresh_frame(old(self).seen(), read@, now),
            final(self).seen() == (match frame {
                Some(t) => t.sequence,
                None => old(self).seen(),
            }),
            final(self).path_text() == old(self).path_text(),
    {
        match parse_frame(read, now) {
            Ok(t) => {
                if t.sequence == self.last_seq {
                    None
                } else {
                    self.last_seq = t.sequence;
                    Some(t)
                }
            },
            Err(_) => None,
        }
    }
}

/// Telemetry is stale when it never came, or when its last update lies more
/// than half a second back.
pub open spec fn stale(elapsed_nanos: Option<u128>) -> bool {
    match elapsed_nanos {
        Some(n) => n > STALE_AFTER_NANOS,
        None => true,
    }
}

/// Whether telemetry is stale, given the time since its last update.
pub fn is_stale(elapsed_nanos: Option<u128>) -> (yes: bool)
    ensures
        yes == stale(elapsed_nanos),
{
    match elapsed_nanos {
        Some(n) => n > STALE_AFTER_NANOS,
        None => true,
    }
}

// ---------------------------------------------------------------------------
// The wire format
// ---------------------------------------------------------------------------

/// Byte `k` of a 32-bit number, counted from the lowest.
pub open spec fn byte_of(n: u32, k: int) -> u8 {
    if k == 0 {
        (n as int % 0x100) as u8
    } else if k == 1 {
        (n as int / 0x100 % 0x100) as u8
    } else if k == 2 {
        (n as int / 0x1_0000 % 0x100) as u8
    } else {
        (n as int / 0x100_0000) as u8
    }
}

/// The 32-bit numbers of a frame in the order in which they follow the size
/// field.
#[verifier::opaque]
pub open spec fn frame_words(t: Telemetry) -> Seq<u32> {
    seq![
        t.sequence,
        t.timestamp,
        t.steering_angle,
        t.steering_target,
        t.speed_mps,
        t.lateral_accel,
        t.longitudinal_accel,
        t.yaw_rate,
        t.pitch,
        t.roll,
        t.slip_front,
        t.slip_rear,
        t.susp_fl,
        t.susp_fr,
        t.susp_rl,
        t.susp_rr,
        t.ground_hardness,
        t.ground_roughness,
        t.rpm,
        t.engine_load,
        t.attached_mass,
        t.total_mass,
        t.collision,
        t.flags,
        t.vehicle_hash,
    ]
}

/// The numbers that a writer puts into a frame with this size field: a frame
/// without a time stamp leaves that one out.
pub open spec fn words_of(size: u16, t: Telemetry) -> Seq<u32> {
    if size == UNTIMED_FRAME_SIZE {
        frame_words(t).remove(1)
    } else {
        frame_words(t)
    }
}

/// The bytes that a writer puts into the file for a frame: the magic number,
/// its version and size, then the numbers of the frame, all little-endian.
pub open spec fn wire(version: u16, size: u16, t: Telemetry) -> Seq<u8> {
    Seq::new(
        8 + 4 * words_of(size, t).len(),
        |i: int|
            if i < 4 {
                byte_of(MAGIC, i)
            } else if i < 6 {
                byte_of(version as u32, i - 4)
            } else if i < 8 {
                byte_of(size as u32, i - 6)
            } else {
                byte_of(words_of(size, t)[(i - 8) / 4], (i - 8) % 4)
            },
    )
}

/// What a frame with this size field carries of a frame: all of it, but for a
/// time stamp that is left out.
pub open spec fn carried(size: u16, t: Telemetry) -> Telemetry {
    if size == UNTIMED_FRAME_SIZE {
        Telemetry { timestamp: 0, ..t }
    } else {
        t
    }
}

proof fn lemma_bytes_make_the_number(n: u32)
    ensures
        byte_of(n, 0) + 0x100 * byte_of(n, 1) + 0x1_0000 * byte_of(n, 2) + 0x100_0000 * byte_of(n, 3)
            == n,
{
}

proof fn lemma_wire_byte(version: u16, size: u16, t: Telemetry, k: int, j: int)
    requires
        0 <= k < words_of(size, t).len(),
        0 <= j < 4,
    ensures
        wire(version, size, t)[8 + 4 * k + j] == byte_of(words_of(size, t)[k], j),
{
    let i = 8 + 4 * k + j;
    assert((i - 8) / 4 == k && (i - 8) % 4 == j);
}

#[verifier::rlimit(40)]
proof fn lemma_wire_word(version: u16, size: u16, t: Telemetry, k: int)
    requires
        0 <= k < words_of(size, t).len(),
    ensures
        le32(wire(version, size, t), 8 + 4 * k) == words_of(size, t)[k],
{
    lemma_wire_byte(version, size, t, k, 0);
    lemma_wire_byte(version, size, t, k, 1);
    lemma_wire_byte(version, size, t, k, 2);
    lemma_wire_byte(version, size, t, k, 3);
    lemma_bytes_make_the_number(words_of(size, t)[k]);
}

#[verifier::rlimit(40)]
proof fn lemma_wire_header(version: u16, size: u16, t: Telemetry)
    ensures
        le32(wire(version, size, t), 0) == MAGIC,
        le16(wire(version, size, t), 4) == version,
        le16(wire(version, size, t), 6) == size,
{
    let b = wire(version, size, t);
    assert(b[0] == byte_of(MAGIC, 0));
    assert(b[1] == byte_of(MAGIC, 1));
    assert(b[2] == byte_of(MAGIC, 2));
    assert(b[3] == byte_of(MAGIC, 3));
    assert(b[4] == byte_of(version as u32, 0));
    assert(b[5] == byte_of(version as u32, 1));
    assert(b[6] == byte_of(size as u32, 0));
    assert(b[7] == byte_of(size as u32, 1));
}

#[verifier::rlimit(40)]
proof fn lemma_fields_from_words(b: Seq<u8>, shift: int, t: Telemetry, now: u64)
    requires
        shift == 0 || shift == 1,
        le32(b, 8) == t.sequence,
        forall|k: int|
            2 <= k < 25 ==> le32(b, 8 + 4 * (k - shift)) == #[trigger] frame_words(t)[k],
    ensures
        fields_from(b, 16 - 4 * shift, t.timestamp, now) == (Telemetry {
            received_at: Some(now),
            ..t
        }),
{
    reveal(frame_words);
    let w = frame_words(t);
    assert(w[2] == t.steering_angle);
    assert(w[3] == t.steering_target && w[4] == t.speed_mps && w[5] == t.lateral_accel);
    assert(w[6] == t.longitudinal_accel && w[7] == t.yaw_rate && w[8] == t.pitch);
    assert(w[9] == t.roll && w[10] == t.slip_front && w[11] == t.slip_rear);
    assert(w[12] == t.susp_fl && w[13] == t.susp_fr && w[14] == t.susp_rl);
    assert(w[15] == t.susp_rr && w[16] == t.ground_hardness && w[17] == t.ground_roughness);
    assert(w[18] == t.rpm && w[19] == t.engine_load && w[20] == t.attached_mass);
    assert(w[21] == t.total_mass && w[22] == t.collision && w[23] == t.flags);
    assert(w[24] == t.vehicle_hash);
}

proof fn lemma_words(size: u16, t: Telemetry)
    ensures
        size != UNTIMED_FRAME_SIZE ==> words_of(size, t) == frame_words(carried(size, t)),
        size == UNTIMED_FRAME_SIZE ==> words_of(size, t) == frame_words(carried(size, t)).remove(1),
        frame_words(t).len() == 25,
        frame_words(t)[0] == t.sequence,
        frame_words(t)[1] == t.timestamp,
{
    reveal(frame_words);
    if size == UNTIMED_FRAME_SIZE {
        assert(frame_words(carried(size, t)) =~= frame_words(t).update(1, 0));
        assert(frame_words(t).update(1, 0).remove(1) =~= frame_words(t).remove(1));
    }
}

#[verifier::rlimit(40)]
proof fn lemma_fields(b: Seq<u8>, size: u16, t: Telemetry, now: u64)
    requires
        le16(b, 6) == size,
        forall|k: int|
            0 <= k < words_of(size, t).len() ==> le32(b, 8 + 4 * k) == #[trigger] words_of(
                size,
                t,
            )[k],
    ensures
        frame_fields(b, now) == (Telemetry { received_at: Some(now), ..carried(size, t) }),
{
    let c = carried(size, t);
    let words = words_of(size, t);
    let shift: int = if size == UNTIMED_FRAME_SIZE {
        1
    } else {
        0
    };
    lemma_words(size, t);
    lemma_words(0, c);
    assert(words[0] == frame_words(c)[0]);
    assert forall|k: int| 2 <= k < 25 implies le32(b, 8 + 4 * (k - shift))
        == #[trigger] frame_words(c)[k] by {
        assert(words[k - shift] == frame_words(c)[k]);
    }
    if shift == 0 {
        assert(words[1] == c.timestamp);
    }
    lemma_fields_from_words(b, shift, c, now);
}

/// A frame that was written is read back as it was: in both layouts, whatever
/// the version from the first one on, and whatever follows the tail. A time
/// stamp that the layout leaves out is read as zero.
#[verifier::rlimit(40)]
pub proof fn law_read_gives_back_what_was_written(
    version: u16,
    size: u16,
    t: Telemetry,
    behind_tail: Seq<u8>,
    now: u64,
)
    requires
        version >= FIRST_VERSION,
    ensures
        decoded(wire(version, size, t) + behind_tail, now) == Ok::<Telemetry, FrameError>(
            Telemetry { received_at: Some(now), ..carried(size, t) },
        ),
{
    let b = wire(version, size, t);
    lemma_wire_header(version, size, t);
    lemma_words(size, t);
    assert forall|k: int| 0 <= k < words_of(size, t).len() implies le32(b, 8 + 4 * k)
        == #[trigger] words_of(size, t)[k] by {
        lemma_wire_word(version, size, t, k);
    }
    lemma_fields(b, size, t, now);
    law_trailing_bytes_are_ignored(b, behind_tail, now);
}

/// All bytes of a frame are there.
pub open spec fn whole(b: Seq<u8>) -> bool {
    b.len() >= UNTIMED_FRAME_SIZE && b.len() >= frame_len(b)
}

/// Bytes behind the tail of a frame change nothing, so a longer frame of a
/// later version reads like one of today's.
pub proof fn law_trailing_bytes_are_ignored(frame: Seq<u8>, behind_tail: Seq<u8>, now: u64)
    requires
        whole(frame),
    ensures
        decoded(frame + behind_tail, now) == decoded(frame, now),
{
}

/// A frame is handed out once: looking at the same bytes again, at whatever
/// time, yields nothing.
pub proof fn law_no_frame_twice(last_seq: u32, read: Seq<u8>, now: u64, later: u64)
    requires
        fresh_frame(last_seq, read, now) is Some,
    ensures
        fresh_frame(fresh_frame(last_seq, read, now)->0.sequence, read, later) is None,
{
}

/// A torn write, which shows as fewer bytes than the frame has, yields nothing.
pub proof fn law_torn_write_yields_nothing(last_seq: u32, read: Seq<u8>, now: u64)
    requires
        !whole(read),
    ensures
        fresh_frame(last_seq, read, now) is None,
{
}

/// The four bytes from position `at` on are a number, the lowest byte first.
pub open spec fn reads(b: Seq<u8>, at: int, n: u32) -> bool {
    n == b[at] + 256 * b[at + 1] + 65536 * b[at + 2] + 16777216 * b[at + 3]
}

/// The measurements, flags and vehicle hash of a frame stand one after the
/// other from position `at` on.
pub open spec fn measured_from(b: Seq<u8>, at: int, t: Telemetry) -> bool {
    &&& reads(b, at, t.steering_angle)
    &&& reads(b, at + 4, t.steering_target)
    &&& reads(b, at + 8, t.speed_mps)
    &&& reads(b, at + 12, t.lateral_accel)
    &&& reads(b, at + 16, t.longitudinal_accel)
    &&& reads(b, at + 20, t.yaw_rate)
    &&& reads(b, at + 24, t.pitch)
    &&& reads(b, at + 28, t.roll)
    &&& reads(b, at + 32, t.slip_front)
    &&& reads(b, at + 36, t.slip_rear)
    &&& reads(b, at + 40, t.susp_fl)
    &&& reads(b, at + 44, t.susp_fr)
    &&& reads(b, at + 48, t.susp_rl)
    &&& reads(b, at + 52, t.susp_rr)
    &&& reads(b, at + 56, t.ground_hardness)
    &&& reads(b, at + 60, t.ground_roughness)
    &&& reads(b, at + 64, t.rpm)
    &&& reads(b, at + 68, t.engine_load)
    &&& reads(b, at + 72, t.attached_mass)
    &&& reads(b, at + 76, t.total_mass)
    &&& reads(b, at + 80, t.collision)
    &&& reads(b, at + 84, t.flags)
    &&& reads(b, at + 88, t.vehicle_hash)
}

/// The bytes begin with the letters `EBFF`.
pub open spec fn magical(b: Seq<u8>) -> bool {
    b[0] == 0x45 && b[1] == 0x42 && b[2] == 0x46 && b[3] == 0x46
}

#[verifier::rlimit(40)]
proof fn lemma_measured(b: Seq<u8>, at: int, timestamp: u32, now: u64)
    ensures
        measured_from(b, at, fields_from(b, at, timestamp, now)),
{
}

/// A frame is decoded exactly when it begins with the magic letters, has a
/// version other than zero, and is long enough: 104 bytes where the size field
/// says 104, else 108.
#[verifier::rlimit(40)]
pub proof fn law_whole_frames_are_decoded(
    buf: &[u8],
    now: u64,
    out: Result<Telemetry, FrameError>,
)
    requires
        call_ensures(parse_frame, (buf, now), out),
    ensures
        out is Ok <==> {
            let b = buf@;
            &&& b.len() >= 104
            &&& magical(b)
            &&& b[4] > 0 || b[5] > 0
            &&& (b[6] == 104 && b[7] == 0) || b.len() >= 108
        },
{
}

/// Every number of a decoded frame comes from its own place, and the time of
/// decoding is the one that was given. Where the size field says 104, there is
/// no time stamp and the measurements stand in its place.
#[verifier::rlimit(40)]
pub proof fn law_frames_are_read_byte_by_byte(
    buf: &[u8],
    now: u64,
    out: Result<Telemetry, FrameError>,
)
    requires
        call_ensures(parse_frame, (buf, now), out),
        out is Ok,
    ensures
        ({
            let b = buf@;
            let t = out->Ok_0;
            &&& reads(b, 8, t.sequence)
            &&& t.received_at == Some(now)
            &&& if b[6] == 104 && b[7] == 0 {
                t.timestamp == 0 && measured_from(b, 12, t)
            } else {
                reads(b, 12, t.timestamp) && measured_from(b, 16, t)
            }
        }),
{
    let b = buf@;
    lemma_measured(b, 12, 0, now);
    lemma_measured(b, 16, le32(b, 12), now);
}

/// Each way in which bytes are no frame has its error: first too few bytes for
/// any frame, then the letters, then the version, then too few for this frame.
#[verifier::rlimit(40)]
pub proof fn law_frame_errors_say_what_is_wrong(
    buf: &[u8],
    now: u64,
    out: Result<Telemetry, FrameError>,
)
    requires
        call_ensures(parse_frame, (buf, now), out),
        out is Err,
    ensures
        ({
            let b = buf@;
            match out->Err_0 {
                FrameError::TooShort(n) => n == b.len() && (n < 104 || (n < 108 && magical(b) && (
                b[4] > 0 || b[5] > 0))),
                FrameError::BadMagic(n) => b.len() >= 104 && !magical(b) && reads(b, 0, n),
                FrameError::UnsupportedVersion(n) => b.len() >= 104 && magical(b) && n == 0 && b[4]
                    == 0 && b[5] == 0,
            }
        }),
{
}

/// Polling hands out every frame whose number is not the one seen last,
/// whatever the distance between the two, exactly as the bytes decode, and then
/// has seen that number. Bytes that are no frame, or the frame seen last, yield
/// nothing and change nothing.
#[verifier::rlimit(40)]
pub proof fn law_polling_yields_every_new_frame(
    reader: &mut TelemetryReader,
    read: &[u8],
    now: u64,
    parsed: Result<Telemetry, FrameError>,
    frame: Option<Telemetry>,
)
    requires
        call_ensures(parse_frame, (read, now), parsed),
        call_ensures(TelemetryReader::poll, (reader, read, now), frame),
    ensures
        parsed matches Ok(t) ==> {
            &&& t.sequence != old(reader).seen() ==> frame == Some(t) && final(reader).seen()
                == t.sequence
            &&& t.sequence == old(reader).seen() ==> frame is None
        },
        parsed is Err ==> frame is None,
        frame is None ==> final(reader).seen() == old(reader).seen(),
        final(reader).path_text() == old(reader).path_text(),
{
}

/// A reader that has just been made hands out the first frame that it sees,
/// unless its number is zero.
pub proof fn law_a_new_reader_has_seen_nothing(path: String, reader: TelemetryReader, shown: &str)
    requires
        call_ensures(TelemetryReader::new, (path,), reader),
        call_ensures(TelemetryReader::path, (&reader,), shown),
    ensures
        reader.seen() == 0,
        shown@ == path@,
{
}

/// Telemetry is fresh exactly when it came at most half a second ago.
pub proof fn law_half_a_second_is_fresh(nanos: Option<u128>, yes: bool)
    requires
        call_ensures(is_stale, (nanos,), yes),
    ensures
        !yes <==> nanos is Some && nanos->0 <= 500_000_000,
{
}

/// Each flag is one binary digit of the flag number: the first, third, fourth
/// and fifth from the lowest.
pub proof fn law_flags_are_binary_digits(
    t: Telemetry,
    seated: bool,
    powered: bool,
    backwards: bool,
    flying: bool,
)
    requires
        call_ensures(Telemetry::in_vehicle, (&t,), seated),
        call_ensures(Telemetry::has_power_steering, (&t,), powered),
        call_ensures(Telemetry::reversing, (&t,), backwards),
        call_ensures(Telemetry::airborne, (&t,), flying),
    ensures
        seated <==> t.flags as int % 2 == 1,
        powered <==> t.flags as int / 4 % 2 == 1,
        backwards <==> t.flags as int / 8 % 2 == 1,
        flying <==> t.flags as int / 16 % 2 == 1,
{
    let n = t.flags;
    assert((n & 0x01 != 0) <==> n % 2 == 1) by (bit_vector);
    assert((n & 0x04 != 0) <==> n / 4 % 2 == 1) by (bit_vector);
    assert((n & 0x08 != 0) <==> n / 8 % 2 == 1) by (bit_vector);
    assert((n & 0x10 != 0) <==> n / 16 % 2 == 1) by (bit_vector);
}

/// The errors in words: a number of bytes in decimal, a magic number in eight
/// hexadecimal digits, a version in decimal.
pub proof fn law_frame_errors_in_words(e: FrameError, out: String)
    requires
        call_ensures(FrameError::message, (&e,), out),
    ensures
        match e {
            FrameError::TooShort(len) => out@ == "frame too short: "@ + decimal(len as nat)
                + " bytes"@,
            FrameError::BadMagic(magic) => out@ == "bad magic 0x"@ + hex(magic as nat, 8, true)
                + " (expected 0x"@ + hex(0x46464245, 8, true) + ")"@,
            FrameError::UnsupportedVersion(version) => out@ == "unsupported frame version "@
                + decimal(version as nat),
        },
{
}

/// A blank frame is all zero and was never received.
pub proof fn law_blank_frames_are_all_zero(t: Telemetry, k: int)
    requires
        call_ensures(<Telemetry as Default>::default, (), t),
    ensures
        frame_words(t).len() == 25,
        0 <= k < 25 ==> frame_words(t)[k] == 0,
        t.received_at is None,
{
    reveal(frame_words);
}

} // verus!
