//! Wire formats of the EtherDream protocol: the status record, the commands,
//! the point, the standard response and the advertisement datagram.
//!
//! Each format has a spec function that gives its bytes, and an executable
//! serializer that is proved to produce exactly those bytes.

use crate::wire::i16_from_le;
use crate::wire::i16_le;
use crate::wire::write_i16;
use crate::wire::write_u16;
use crate::wire::write_u32;
use crate::wire::u16_from_le;
use crate::wire::u16_le;
use crate::wire::u32_from_le;
use crate::wire::u32_le;
use vstd::prelude::*;

verus! {

/// Command byte of Ping, `?`.
pub const COMMAND_PING: u8 = 0x3f;

/// Command byte of Prepare, `p`.
pub const COMMAND_PREPARE: u8 = 0x70;

/// Command byte of Begin, `b`.
pub const COMMAND_BEGIN: u8 = 0x62;

/// Command byte of Data, `d`.
pub const COMMAND_DATA: u8 = 0x64;

/// Command byte of Version, `v`.
pub const COMMAND_VERSION: u8 = 0x76;

/// Command byte of Clear E-stop, `c`.
pub const COMMAND_CLEAR_ESTOP: u8 = 0x63;

/// Command byte of Stop, `s`.
pub const COMMAND_STOP: u8 = 0x73;

/// Command byte of Queue rate change.
pub const COMMAND_QUEUE_RATE_CHANGE: u8 = 0x74;

/// Command byte of Emergency stop.
pub const COMMAND_EMERGENCY_STOP: u8 = 0x00;

/// Second command byte that is read as Emergency stop.
pub const COMMAND_EMERGENCY_STOP_ALT: u8 = 0xff;

/// Playback state: no points are accepted, nothing is played.
pub const PLAYBACK_IDLE: u8 = 0;

/// Playback state: the buffer accepts points.
pub const PLAYBACK_PREPARED: u8 = 1;

/// Playback state: points are sent to the output.
pub const PLAYBACK_PLAYING: u8 = 2;

/// Size of a serialized point in bytes.
pub const POINT_SIZE: usize = 18;

/// Size of a serialized status record in bytes.
pub const STATUS_SIZE: usize = 20;

/// Size of a standard response in bytes.
pub const RESPONSE_SIZE: usize = 22;

/// Size of a version response in bytes.
pub const VERSION_SIZE: usize = 32;

/// Size of an advertisement datagram in bytes.
pub const BROADCAST_SIZE: usize = 36;

/// Size of the hardware address at the head of an advertisement datagram.
pub const MAC_SIZE: usize = 6;

/// The state that the DAC reports periodically and with every response.
#[derive(Clone, Copy, Debug, PartialEq, Eq, Structural)]
pub struct DacStatus {
    pub protocol: u8,
    /// 0: ready, 1: warmup, 2: cooldown, 3: emergency stop.
    pub light_engine_state: u8,
    /// 0: idle, 1: prepared, 2: playing.
    pub playback_state: u8,
    /// 0: network streaming, 1: SD card playback, 2: internal generator.
    pub source: u8,
    pub light_engine_flags: u16,
    pub playback_flags: u16,
    pub source_flags: u16,
    /// The number of points currently buffered.
    pub buffer_fullness: u16,
    /// The number of points per second for which the DAC is configured.
    pub point_rate: u32,
    /// The number of points that the DAC has played.
    pub point_count: u32,
}

impl DacStatus {
    /// The 20 bytes of the record: the four state bytes, then the four flag
    /// and fullness words, then the two counters, each little-endian.
    pub open spec fn serialized(self) -> Seq<u8> {
        seq![self.protocol, self.light_engine_state, self.playback_state, self.source] + u16_le(
            self.light_engine_flags,
        ) + u16_le(self.playback_flags) + u16_le(self.source_flags) + u16_le(self.buffer_fullness)
            + u32_le(self.point_rate) + u32_le(self.point_count)
    }

    /// The record with every field zero.
    pub open spec fn spec_empty() -> DacStatus {
        DacStatus {
            protocol: 0,
            light_engine_state: 0,
            playback_state: 0,
            source: 0,
            light_engine_flags: 0,
            playback_flags: 0,
            source_flags: 0,
            buffer_fullness: 0,
            point_rate: 0,
            point_count: 0,
        }
    }

    /// The status of a DAC that has just started or just accepted a client.
    pub fn empty() -> (status: DacStatus)
        ensures
            status == DacStatus::spec_empty(),
    {
        DacStatus {
            protocol: 0,
            light_engine_state: 0,
            playback_state: 0,
            source: 0,
            light_engine_flags: 0,
            playback_flags: 0,
            source_flags: 0,
            buffer_fullness: 0,
            point_rate: 0,
            point_count: 0,
        }
    }

    /// Serializes the record for the wire.
    pub fn serialize(&self) -> (bytes: Vec<u8>)
        ensures
            bytes@ == self.serialized(),
            bytes@.len() == STATUS_SIZE,
    {
        let mut v: Vec<u8> = Vec::new();
        v.push(self.protocol);
        v.push(self.light_engine_state);
        v.push(self.playback_state);
        v.push(self.source);
        write_u16(&mut v, self.light_engine_flags);
        write_u16(&mut v, self.playback_flags);
        write_u16(&mut v, self.source_flags);
        write_u16(&mut v, self.buffer_fullness);
        write_u32(&mut v, self.point_rate);
        write_u32(&mut v, self.point_count);
        v
    }
}

/// An all-zero status record serializes to twenty zero bytes.
pub proof fn lemma_empty_status_is_zero()
    ensures
        DacStatus::spec_empty().serialized() == Seq::new(20, |i: int| 0u8),
{
}

/// A serialized status has 20 bytes, and each field can be read back from its
/// place: the four state bytes at 0 to 3, the three flag words and the
/// fullness at 4, 6, 8 and 10, the point rate at 12 and the point count at 16.
pub proof fn lemma_status_layout(status: DacStatus)
    ensures
        status.serialized().len() == STATUS_SIZE,
        status.serialized()[0] == status.protocol,
        status.serialized()[1] == status.light_engine_state,
        status.serialized()[2] == status.playback_state,
        status.serialized()[3] == status.source,
        u16_from_le(status.serialized()[4], status.serialized()[5]) == status.light_engine_flags,
        u16_from_le(status.serialized()[6], status.serialized()[7]) == status.playback_flags,
        u16_from_le(status.serialized()[8], status.serialized()[9]) == status.source_flags,
        u16_from_le(status.serialized()[10], status.serialized()[11]) == status.buffer_fullness,
        u32_from_le(
            status.serialized()[12],
            status.serialized()[13],
            status.serialized()[14],
            status.serialized()[15],
        ) == status.point_rate,
        u32_from_le(
            status.serialized()[16],
            status.serialized()[17],
            status.serialized()[18],
            status.serialized()[19],
        ) == status.point_count,
{
}

/// The first `width` bytes of `text`, followed by zero bytes where `text` is
/// shorter than `width`.
pub open spec fn zero_padded(text: Seq<u8>, width: nat) -> Seq<u8> {
    Seq::new(
        width,
        |i: int|
            if i < text.len() {
                text[i]
            } else {
                0u8
            },
    )
}

/// Appends `text` to `out`, cut or padded with zero bytes to `width` bytes.
pub(crate) fn push_padded(out: &mut Vec<u8>, text: &[u8], width: usize)
    ensures
        final(out)@ == old(out)@ + zero_padded(text@, width as nat),
{
    let mut i: usize = 0;
    while i < width
        invariant
            i <= width,
            out@ == old(out)@ + zero_padded(text@, i as nat),
        decreases width - i,
    {
        let b: u8 = if i < text.len() {
            text[i]
        } else {
            0u8
        };
        out.push(b);
        i = i + 1;
    }
}

/// A command of the client, as identified by the first byte that it sends.
#[derive(Debug, PartialEq, Eq)]
pub enum Command {
    /// Begin playback.
    Begin {
        /// Unused.
        low_water_mark: u16,
        /// Points per second.
        point_rate: u32,
    },
    ClearEStop,
    EmergencyStop,
    Ping,
    /// Enter the prepared state.
    Prepare,
    QueueRateChange,
    Stop,
    /// Points for the buffer. The payload itself travels as a `DacFrame`.
    Data { num_points: u16, points: Vec<Point> },
    /// Request for the version string.
    Version,
    /// A command byte that stands for no command.
    Unknown { command: u8 },
}

impl Command {
    /// The byte that identifies the command on the wire.
    pub open spec fn spec_value(&self) -> u8 {
        self@.value()
    }

    /// Returns the byte that identifies the command on the wire. Emergency
    /// stop answers with `0x00`, also where it was sent as `0xff`.
    #[verifier::when_used_as_spec(spec_value)]
    pub fn value(&self) -> (v: u8)
        ensures
            v == self.spec_value(),
    {
        match *self {
            Command::Begin { .. } => COMMAND_BEGIN,
            Command::ClearEStop => COMMAND_CLEAR_ESTOP,
            Command::EmergencyStop => COMMAND_EMERGENCY_STOP,
            Command::Ping => COMMAND_PING,
            Command::Prepare => COMMAND_PREPARE,
            Command::QueueRateChange => COMMAND_QUEUE_RATE_CHANGE,
            Command::Stop => COMMAND_STOP,
            Command::Data { .. } => COMMAND_DATA,
            Command::Version => COMMAND_VERSION,
            Command::Unknown { command } => command,
        }
    }
}

/// A command as plain values.
pub enum CommandView {
    Begin { low_water_mark: u16, point_rate: u32 },
    ClearEStop,
    EmergencyStop,
    Ping,
    Prepare,
    QueueRateChange,
    Stop,
    Data { num_points: u16, points: Seq<Point> },
    Version,
    Unknown { command: u8 },
}

impl View for Command {
    type V = CommandView;

    open spec fn view(&self) -> CommandView {
        match *self {
            Command::Begin { low_water_mark, point_rate } => CommandView::Begin {
                low_water_mark,
                point_rate,
            },
            Command::ClearEStop => CommandView::ClearEStop,
            Command::EmergencyStop => CommandView::EmergencyStop,
            Command::Ping => CommandView::Ping,
            Command::Prepare => CommandView::Prepare,
            Command::QueueRateChange => CommandView::QueueRateChange,
            Command::Stop => CommandView::Stop,
            Command::Data { num_points, points } => CommandView::Data {
                num_points,
                points: points@,
            },
            Command::Version => CommandView::Version,
            Command::Unknown { command } => CommandView::Unknown { command },
        }
    }
}

impl CommandView {
    /// The byte that identifies the command on the wire.
    pub open spec fn value(self) -> u8 {
        match self {
            CommandView::Begin { .. } => COMMAND_BEGIN,
            CommandView::ClearEStop => COMMAND_CLEAR_ESTOP,
            CommandView::EmergencyStop => COMMAND_EMERGENCY_STOP,
            CommandView::Ping => COMMAND_PING,
            CommandView::Prepare => COMMAND_PREPARE,
            CommandView::QueueRateChange => COMMAND_QUEUE_RATE_CHANGE,
            CommandView::Stop => COMMAND_STOP,
            CommandView::Data { .. } => COMMAND_DATA,
            CommandView::Version => COMMAND_VERSION,
            CommandView::Unknown { command } => command,
        }
    }
}

/// A single sample: position, intensity, color and two auxiliary words.
#[derive(Clone, Copy, Debug, PartialEq, Eq, Structural)]
pub struct Point {
    pub control: u16,
    pub x: i16,
    pub y: i16,
    pub i: u16,
    pub r: u16,
    pub g: u16,
    pub b: u16,
    pub u1: u16,
    pub u2: u16,
}

impl Point {
    /// The 18 bytes of the point: its nine fields in order, each
    /// little-endian, the coordinates in two's complement.
    pub open spec fn serialized(self) -> Seq<u8> {
        u16_le(self.control) + i16_le(self.x) + i16_le(self.y) + u16_le(self.i) + u16_le(self.r)
            + u16_le(self.g) + u16_le(self.b) + u16_le(self.u1) + u16_le(self.u2)
    }

    /// The point that the 18 bytes of `bytes` from index `at` on encode.
    pub open spec fn decoded(bytes: Seq<u8>, at: int) -> Point {
        Point {
            control: u16_from_le(bytes[at], bytes[at + 1]),
            x: i16_from_le(bytes[at + 2], bytes[at + 3]),
            y: i16_from_le(bytes[at + 4], bytes[at + 5]),
            i: u16_from_le(bytes[at + 6], bytes[at + 7]),
            r: u16_from_le(bytes[at + 8], bytes[at + 9]),
            g: u16_from_le(bytes[at + 10], bytes[at + 11]),
            b: u16_from_le(bytes[at + 12], bytes[at + 13]),
            u1: u16_from_le(bytes[at + 14], bytes[at + 15]),
            u2: u16_from_le(bytes[at + 16], bytes[at + 17]),
        }
    }

    /// Serializes the point for the wire.
    pub fn serialize(&self) -> (bytes: Vec<u8>)
        ensures
            bytes@ == self.serialized(),
            bytes@.len() == POINT_SIZE,
    {
        let mut v: Vec<u8> = Vec::new();
        write_u16(&mut v, self.control);
        write_i16(&mut v, self.x);
        write_i16(&mut v, self.y);
        write_u16(&mut v, self.i);
        write_u16(&mut v, self.r);
        write_u16(&mut v, self.g);
        write_u16(&mut v, self.b);
        write_u16(&mut v, self.u1);
        write_u16(&mut v, self.u2);
        v
    }
}

/// A serialized point has 18 bytes, and decoding them gives the point back.
pub proof fn lemma_point_round_trip(p: Point)
    ensures
        p.serialized().len() == POINT_SIZE,
        Point::decoded(p.serialized(), 0) == p,
{
}

/// Decoding 18 bytes and serializing the point gives the 18 bytes back.
pub proof fn lemma_point_bytes_round_trip(bytes: Seq<u8>, at: int)
    requires
        0 <= at,
        at + 18 <= bytes.len(),
    ensures
        Point::decoded(bytes, at).serialized() == bytes.subrange(at, at + 18),
{
}

/// The points that a count and a payload give: point `k` is read from the 18
/// bytes at offset `18 * k`.
pub open spec fn decode_points(num_points: u16, point_data: Seq<u8>) -> Seq<Point> {
    Seq::new(num_points as nat, |k: int| Point::decoded(point_data, 18 * k))
}

/// The payload that carries `points`: their serializations, one after another.
pub open spec fn encode_points(points: Seq<Point>) -> Seq<u8>
    decreases points.len(),
{
    if points.len() == 0 {
        Seq::empty()
    } else {
        encode_points(points.drop_last()) + points.last().serialized()
    }
}

/// A payload of serialized points has 18 bytes for each point, and decoding
/// it gives the points back in their order.
pub proof fn lemma_points_round_trip(points: Seq<Point>)
    requires
        points.len() <= u16::MAX,
    ensures
        encode_points(points).len() == POINT_SIZE * points.len(),
        decode_points(points.len() as u16, encode_points(points)) == points,
    decreases points.len(),
{
    if points.len() > 0 {
        let front = points.drop_last();
        lemma_points_round_trip(front);
        let bytes = encode_points(points);
        let decoded = decode_points(points.len() as u16, bytes);
        assert forall|k: int| 0 <= k < points.len() implies decoded[k] == points[k] by {
            if k < front.len() {
                // The bytes of an earlier point are those that encode `front`.
                assert(decode_points(front.len() as u16, encode_points(front))[k] == front[k]);
            } else {
                // The last 18 bytes are the serialized last point.
                assert(Point::decoded(bytes, 18 * k) == Point::decoded(
                    points.last().serialized(),
                    0,
                ));
            }
        }
    }
}

/// The verdict that a standard response carries in its first byte.
#[derive(Clone, Copy, Debug, PartialEq, Eq, Structural)]
pub enum ResponseState {
    /// The command was accepted.
    Ack,
    /// The data did not fit into the buffer.
    BufferFull,
    /// The command byte or its parameters were invalid.
    InvalidCommand,
    /// An emergency-stop condition still exists.
    Stop,
}

impl ResponseState {
    /// The response code on the wire: `a`, `F`, `I` or `!`.
    pub open spec fn spec_code(&self) -> u8 {
        match *self {
            ResponseState::Ack => 0x61,
            ResponseState::BufferFull => 0x46,
            ResponseState::InvalidCommand => 0x49,
            ResponseState::Stop => 0x21,
        }
    }

    /// Returns the response code on the wire.
    #[verifier::when_used_as_spec(spec_code)]
    pub fn code(&self) -> (c: u8)
        ensures
            c == self.spec_code(),
    {
        match *self {
            ResponseState::Ack => 0x61,
            ResponseState::BufferFull => 0x46,
            ResponseState::InvalidCommand => 0x49,
            ResponseState::Stop => 0x21,
        }
    }
}

/// Whether `code` is one of the four response codes.
pub open spec fn is_response_code(code: u8) -> bool {
    code == 0x61 || code == 0x46 || code == 0x49 || code == 0x21
}

/// The 22 bytes of a standard response: the response code, the echoed command
/// byte and the serialized status.
pub open spec fn standard_response(response: ResponseState, command: u8, status: DacStatus) -> Seq<
    u8,
> {
    seq![response.spec_code(), command] + status.serialized()
}

/// A standard response has 22 bytes: a valid response code, the command byte
/// that it answers, and the serialized status.
pub proof fn lemma_standard_response_layout(
    response: ResponseState,
    command: u8,
    status: DacStatus,
)
    ensures
        standard_response(response, command, status).len() == RESPONSE_SIZE,
        is_response_code(standard_response(response, command, status)[0]),
        standard_response(response, command, status)[0] == response.spec_code(),
        standard_response(response, command, status)[1] == command,
        standard_response(response, command, status).subrange(2, 22) == status.serialized(),
        u16_from_le(
            standard_response(response, command, status)[12],
            standard_response(response, command, status)[13],
        ) == status.buffer_fullness,
{
}

/// The answer of the DAC to a command.
#[derive(Debug)]
pub struct DacResponse {
    response: ResponseState,
    /// Echo of the command that is answered.
    command: u8,
    /// State of the DAC when it answers.
    dac_status: DacStatus,
}

impl DacResponse {
    /// The verdict of the response.
    pub closed spec fn response(self) -> ResponseState {
        self.response
    }

    /// The command byte that the response echoes.
    pub closed spec fn command(self) -> u8 {
        self.command
    }

    /// The status that the response reports.
    pub closed spec fn dac_status(self) -> DacStatus {
        self.dac_status
    }

    /// The bytes of the response on the wire.
    pub open spec fn serialized(self) -> Seq<u8> {
        standard_response(self.response(), self.command(), self.dac_status())
    }

    pub fn new(response: ResponseState, command: u8, dac_status: DacStatus) -> (r: DacResponse)
        ensures
            r.response() == response,
            r.command() == command,
            r.dac_status() == dac_status,
    {
        DacResponse { response: response, command: command, dac_status: dac_status }
    }

    /// Serializes the response for the wire.
    pub fn serialize(&self) -> (bytes: Vec<u8>)
        ensures
            bytes@ == self.serialized(),
            bytes@.len() == RESPONSE_SIZE,
            is_response_code(bytes@[0]),
            bytes@[1] == self.command(),
            bytes@.subrange(2, 22) == self.dac_status().serialized(),
    {
        let mut vec: Vec<u8> = Vec::new();
        vec.push(self.response.code());
        vec.push(self.command);
        let mut status = self.dac_status.serialize();
        vec.append(&mut status);
        vec
    }
}

/// The version response: the version string in ASCII, padded with zero bytes
/// to 32 bytes.
pub open spec fn version_serialized() -> Seq<u8> {
    zero_padded(seq![0x76u8, 0x30u8, 0x2eu8, 0x30u8, 0x2eu8, 0x31u8], 32)
}

/// Returns the 32 bytes that answer a Version command. They carry no status.
pub fn version_response() -> (bytes: Vec<u8>)
    ensures
        bytes@ == version_serialized(),
        bytes@.len() == VERSION_SIZE,
{
    let mut text: Vec<u8> = Vec::new();
    text.push(0x76u8);
    text.push(0x30u8);
    text.push(0x2eu8);
    text.push(0x30u8);
    text.push(0x2eu8);
    text.push(0x31u8);
    let mut bytes: Vec<u8> = Vec::new();
    push_padded(&mut bytes, text.as_slice(), VERSION_SIZE);
    bytes
}

/// The datagram by which the DAC advertises itself on the network.
#[derive(Debug)]
pub struct Broadcast {
    /// Hardware address. The datagram carries its first six bytes, and zero
    /// bytes where it is shorter.
    pub mac_address: Vec<u8>,
    pub hw_revision: u16,
    pub sw_revision: u16,
    pub buffer_capacity: u16,
    pub max_point_rate: u32,
    pub status: DacStatus,
}

impl Broadcast {
    /// The 36 bytes of the datagram: six bytes of hardware address, the two
    /// revisions, the buffer capacity, the maximum point rate, and the status.
    pub open spec fn serialized(self) -> Seq<u8> {
        zero_padded(self.mac_address@, 6) + u16_le(self.hw_revision) + u16_le(self.sw_revision)
            + u16_le(self.buffer_capacity) + u32_le(self.max_point_rate)
            + self.status.serialized()
    }

    /// A datagram with no hardware address, zero in every field and an empty
    /// status.
    pub fn new() -> (b: Broadcast)
        ensures
            b.mac_address@ == Seq::<u8>::empty(),
            b.hw_revision == 0,
            b.sw_revision == 0,
            b.buffer_capacity == 0,
            b.max_point_rate == 0,
            b.status == DacStatus::spec_empty(),
    {
        Broadcast {
            mac_address: Vec::new(),
            hw_revision: 0u16,
            sw_revision: 0u16,
            buffer_capacity: 0u16,
            max_point_rate: 0u32,
            status: DacStatus::empty(),
        }
    }

    /// Serializes the datagram for the wire.
    pub fn serialize(&self) -> (bytes: Vec<u8>)
        ensures
            bytes@ == self.serialized(),
            bytes@.len() == BROADCAST_SIZE,
            bytes@.subrange(16, 36) == self.status.serialized(),
    {
        let mut vec: Vec<u8> = Vec::new();
        push_padded(&mut vec, self.mac_address.as_slice(), MAC_SIZE);
        write_u16(&mut vec, self.hw_revision);
        write_u16(&mut vec, self.sw_revision);
        write_u16(&mut vec, self.buffer_capacity);
        write_u32(&mut vec, self.max_point_rate);
        let mut status = self.status.serialize();
        vec.append(&mut status);
        vec
    }
}

/// An advertisement datagram has 36 bytes: the hardware address, the two
/// revisions, the buffer capacity and the maximum point rate fill the first
/// sixteen, and the last twenty are the serialized status.
pub proof fn lemma_broadcast_layout(b: Broadcast)
    ensures
        b.serialized().len() == BROADCAST_SIZE,
        b.serialized().subrange(0, 6) == zero_padded(b.mac_address@, 6),
        b.serialized().subrange(6, 8) == u16_le(b.hw_revision),
        b.serialized().subrange(8, 10) == u16_le(b.sw_revision),
        b.serialized().subrange(10, 12) == u16_le(b.buffer_capacity),
        b.serialized().subrange(12, 16) == u32_le(b.max_point_rate),
        b.serialized().subrange(16, 36) == b.status.serialized(),
        b.mac_address@.len() == MAC_SIZE ==> b.serialized().subrange(0, 6) == b.mac_address@,
{
}

} // verus!
