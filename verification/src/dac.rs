//! The protocol engine: the session that the DAC holds with one client.
//!
//! The engine does no input or output of its own. Whoever owns the socket
//! reports what happened on it as a `SessionEvent`, and the engine answers
//! with the `SessionAction` to perform next: the bytes to write, how much to
//! read on, or to close the connection. All decisions of the protocol are
//! taken here: how a command is recognized, how the payload of a Data command
//! is put together from several reads, what is handed to the pipeline and how
//! the reported status changes.

use crate::error::ClientError;
use crate::opts::RuntimeOpts;
use crate::pipeline::Pipeline;
use crate::pipeline::PipelineView;
use crate::protocol::decode_points;
use crate::protocol::is_response_code;
use crate::protocol::standard_response;
use crate::protocol::version_response;
use crate::protocol::version_serialized;
use crate::protocol::Command;
use crate::protocol::CommandView;
use crate::protocol::DacResponse;
use crate::protocol::DacStatus;
use crate::protocol::Point;
use crate::protocol::ResponseState;
use crate::protocol::COMMAND_BEGIN;
use crate::protocol::COMMAND_CLEAR_ESTOP;
use crate::protocol::COMMAND_DATA;
use crate::protocol::COMMAND_EMERGENCY_STOP;
use crate::protocol::COMMAND_EMERGENCY_STOP_ALT;
use crate::protocol::COMMAND_PING;
use crate::protocol::COMMAND_PREPARE;
use crate::protocol::COMMAND_QUEUE_RATE_CHANGE;
use crate::protocol::COMMAND_STOP;
use crate::protocol::COMMAND_VERSION;
use crate::protocol::PLAYBACK_IDLE;
use crate::protocol::PLAYBACK_PLAYING;
use crate::protocol::PLAYBACK_PREPARED;
use crate::protocol::POINT_SIZE;
use crate::protocol::RESPONSE_SIZE;
use crate::protocol::VERSION_SIZE;
use crate::wire::read_u16;
use crate::wire::read_u32;
use crate::wire::u16_from_le;
use crate::wire::u32_from_le;
use vstd::prelude::*;
use vstd::slice::slice_subrange;

verus! {

/// The largest number of bytes that one read takes from the client.
pub const READ_SIZE: usize = 2048;

/// Size of a Begin command: the command byte, a `u16` and a `u32`.
pub const BEGIN_SIZE: usize = 7;

/// Size of the header of a Data command: the command byte and a `u16`.
pub const DATA_HEADER_SIZE: usize = 3;

/// Size of a Queue rate change command: the command byte and a `u32`.
pub const QUEUE_RATE_CHANGE_SIZE: usize = 5;

/// The payload of one Data command, held unparsed.
#[derive(Debug, PartialEq, Eq)]
pub struct DacFrame {
    /// The number of points that the command announced.
    pub num_points: u16,
    /// The bytes received for them.
    pub point_data: Vec<u8>,
}

/// A frame as plain values.
pub struct FrameView {
    pub num_points: u16,
    pub point_data: Seq<u8>,
}

impl View for DacFrame {
    type V = FrameView;

    open spec fn view(&self) -> FrameView {
        FrameView { num_points: self.num_points, point_data: self.point_data@ }
    }
}

impl FrameView {
    /// Whether the payload has exactly 18 bytes for each announced point.
    pub open spec fn well_formed(self) -> bool {
        self.point_data.len() == POINT_SIZE * self.num_points
    }

    /// Whether the payload still lacks bytes of the announced points.
    pub open spec fn incomplete(self) -> bool {
        self.point_data.len() < POINT_SIZE * self.num_points
    }

    /// The number of bytes that the payload still lacks.
    pub open spec fn missing(self) -> nat {
        if self.incomplete() {
            (POINT_SIZE * self.num_points - self.point_data.len()) as nat
        } else {
            0
        }
    }

    /// The points that the frame carries.
    pub open spec fn points(self) -> Seq<Point> {
        decode_points(self.num_points, self.point_data)
    }

    /// The frame without the bytes that follow those of the announced points.
    pub open spec fn trimmed(self) -> FrameView {
        FrameView {
            num_points: self.num_points,
            point_data: self.point_data.take(POINT_SIZE * self.num_points),
        }
    }
}

/// The Begin command that `bytes` hold: the command byte `b`, the low water
/// mark and the point rate. Anything else, and anything shorter, is a parse
/// error.
pub open spec fn spec_parse_begin(bytes: Seq<u8>) -> Result<CommandView, ClientError> {
    if bytes.len() >= BEGIN_SIZE && bytes[0] == COMMAND_BEGIN {
        Ok(
            CommandView::Begin {
                low_water_mark: u16_from_le(bytes[1], bytes[2]),
                point_rate: u32_from_le(bytes[3], bytes[4], bytes[5], bytes[6]),
            },
        )
    } else {
        Err(ClientError::ParseError)
    }
}

/// The command that the first bytes of `chunk` hold. The first byte decides.
/// Begin, Data and Queue rate change are parse errors unless the bytes of
/// their fixed part are all there. A first byte that stands for no command
/// gives `Unknown`.
pub open spec fn spec_parse_command(chunk: Seq<u8>) -> Result<CommandView, ClientError> {
    if chunk.len() == 0 {
        Err(ClientError::ParseError)
    } else if chunk[0] == COMMAND_PING {
        Ok(CommandView::Ping)
    } else if chunk[0] == COMMAND_PREPARE {
        Ok(CommandView::Prepare)
    } else if chunk[0] == COMMAND_BEGIN {
        spec_parse_begin(chunk)
    } else if chunk[0] == COMMAND_DATA {
        if chunk.len() >= DATA_HEADER_SIZE {
            Ok(
                CommandView::Data {
                    num_points: u16_from_le(chunk[1], chunk[2]),
                    points: Seq::empty(),
                },
            )
        } else {
            Err(ClientError::ParseError)
        }
    } else if chunk[0] == COMMAND_VERSION {
        Ok(CommandView::Version)
    } else if chunk[0] == COMMAND_CLEAR_ESTOP {
        Ok(CommandView::ClearEStop)
    } else if chunk[0] == COMMAND_STOP {
        Ok(CommandView::Stop)
    } else if chunk[0] == COMMAND_QUEUE_RATE_CHANGE {
        if chunk.len() >= QUEUE_RATE_CHANGE_SIZE {
            Ok(CommandView::QueueRateChange)
        } else {
            Err(ClientError::ParseError)
        }
    } else if chunk[0] == COMMAND_EMERGENCY_STOP || chunk[0] == COMMAND_EMERGENCY_STOP_ALT {
        Ok(CommandView::EmergencyStop)
    } else {
        Ok(CommandView::Unknown { command: chunk[0] })
    }
}

/// The view of a parse result.
pub open spec fn parsed_view(result: Result<Command, ClientError>) -> Result<
    CommandView,
    ClientError,
> {
    match result {
        Ok(command) => Ok(command@),
        Err(e) => Err(e),
    }
}

/// Parses a Begin command. The bytes must start with the command byte of
/// Begin and hold the six bytes of its trailer; what follows them is ignored.
/// Anything else is a `ParseError`.
pub fn parse_begin(bytes: &[u8]) -> (result: Result<Command, ClientError>)
    ensures
        parsed_view(result) == spec_parse_begin(bytes@),
{
    if bytes.len() < BEGIN_SIZE {
        return Err(ClientError::ParseError);
    }
    if bytes[0] != COMMAND_BEGIN {
        return Err(ClientError::ParseError);
    }
    let lwm = read_u16(slice_subrange(bytes, 1, 3));
    let pr = read_u32(slice_subrange(bytes, 3, 7));
    Ok(Command::Begin { low_water_mark: lwm, point_rate: pr })
}

/// Recognizes the command at the start of what a read returned. The first
/// byte decides. A Begin, Data or Queue rate change command whose fixed part
/// is cut short is a `ParseError`, as is an empty read; a byte that stands for
/// no command gives `Unknown`. The payload of a Data command is not looked at.
pub fn parse_command(chunk: &[u8]) -> (result: Result<Command, ClientError>)
    ensures
        parsed_view(result) == spec_parse_command(chunk@),
{
    if chunk.len() == 0 {
        return Err(ClientError::ParseError);
    }
    let first: u8 = chunk[0];
    if first == COMMAND_PING {
        Ok(Command::Ping)
    } else if first == COMMAND_PREPARE {
        Ok(Command::Prepare)
    } else if first == COMMAND_BEGIN {
        parse_begin(chunk)
    } else if first == COMMAND_DATA {
        if chunk.len() >= DATA_HEADER_SIZE {
            let num_points = read_u16(slice_subrange(chunk, 1, 3));
            Ok(Command::Data { num_points: num_points, points: Vec::new() })
        } else {
            Err(ClientError::ParseError)
        }
    } else if first == COMMAND_VERSION {
        Ok(Command::Version)
    } else if first == COMMAND_CLEAR_ESTOP {
        Ok(Command::ClearEStop)
    } else if first == COMMAND_STOP {
        Ok(Command::Stop)
    } else if first == COMMAND_QUEUE_RATE_CHANGE {
        if chunk.len() >= QUEUE_RATE_CHANGE_SIZE {
            Ok(Command::QueueRateChange)
        } else {
            Err(ClientError::ParseError)
        }
    } else if first == COMMAND_EMERGENCY_STOP || first == COMMAND_EMERGENCY_STOP_ALT {
        Ok(Command::EmergencyStop)
    } else {
        Ok(Command::Unknown { command: first })
    }
}

/// The status with its fullness set to `queued` points, or to the largest
/// value that the field can hold where there are more.
pub open spec fn with_fullness(status: DacStatus, queued: nat) -> DacStatus {
    DacStatus {
        buffer_fullness: if queued > u16::MAX {
            u16::MAX
        } else {
            queued as u16
        },
        ..status
    }
}

/// The status after a command was accepted. Prepare leads from idle to
/// prepared and clears the point count. From prepared, the first Data leads
/// to playing, and so does Begin where points have been delivered before.
/// Stop leads to idle. Nothing else changes the status.
pub open spec fn next_status(status: DacStatus, command: CommandView, delivered: bool)
    -> DacStatus {
    match command {
        CommandView::Prepare => DacStatus {
            playback_state: if status.playback_state == PLAYBACK_IDLE {
                PLAYBACK_PREPARED
            } else {
                status.playback_state
            },
            point_count: 0,
            ..status
        },
        CommandView::Begin { .. } => DacStatus {
            playback_state: if status.playback_state == PLAYBACK_PREPARED && delivered {
                PLAYBACK_PLAYING
            } else {
                status.playback_state
            },
            ..status
        },
        CommandView::Data { .. } => DacStatus {
            playback_state: if status.playback_state == PLAYBACK_PREPARED {
                PLAYBACK_PLAYING
            } else {
                status.playback_state
            },
            ..status
        },
        CommandView::Stop => DacStatus { playback_state: PLAYBACK_IDLE, point_count: 0, ..status },
        _ => status,
    }
}

/// What a status must fulfil at any time: the playback state is idle,
/// prepared or playing, and no point counts as played unless the DAC plays.
pub open spec fn status_valid(status: DacStatus) -> bool {
    &&& status.playback_state <= PLAYBACK_PLAYING
    &&& status.playback_state != PLAYBACK_PLAYING ==> status.point_count == 0
}

/// The bytes that answer a command: the version string for Version, and for
/// every other command the standard response that acknowledges it.
pub open spec fn response_to(command: CommandView, status: DacStatus) -> Seq<u8> {
    if command is Version {
        version_serialized()
    } else {
        standard_response(ResponseState::Ack, command.value(), status)
    }
}

/// What happened on the connection.
#[derive(Debug)]
pub enum SessionEvent {
    /// A client has connected.
    Accepted,
    /// A read returned these bytes. No bytes at all mean that the client has
    /// closed the connection.
    Received { bytes: Vec<u8> },
    /// A read or a write failed or timed out.
    Failed,
}

/// What is to be done on the connection next.
#[derive(Debug)]
pub enum SessionAction {
    /// Write `bytes` to the client, then read the next command with a buffer
    /// of `READ_SIZE` bytes.
    Reply { bytes: Vec<u8> },
    /// The payload of a Data command is incomplete: read on, and take no more
    /// than `max_len` bytes, so that nothing of the next command is read.
    ReadMore { max_len: usize },
    /// Close the connection and wait for the next client.
    Close,
}

/// An event as plain values.
pub enum EventView {
    Accepted,
    Received { bytes: Seq<u8> },
    Failed,
}

/// An action as plain values.
pub enum ActionView {
    Reply { bytes: Seq<u8> },
    ReadMore { max_len: nat },
    Close,
}

impl View for SessionEvent {
    type V = EventView;

    open spec fn view(&self) -> EventView {
        match *self {
            SessionEvent::Accepted => EventView::Accepted,
            SessionEvent::Received { bytes } => EventView::Received { bytes: bytes@ },
            SessionEvent::Failed => EventView::Failed,
        }
    }
}

impl View for SessionAction {
    type V = ActionView;

    open spec fn view(&self) -> ActionView {
        match *self {
            SessionAction::Reply { bytes } => ActionView::Reply { bytes: bytes@ },
            SessionAction::ReadMore { max_len } => ActionView::ReadMore { max_len: max_len as nat },
            SessionAction::Close => ActionView::Close,
        }
    }
}

/// The DAC as seen by one client after the other.
#[derive(Debug)]
pub struct Dac {
    /// Runtime arguments supplied to the program.
    opts: RuntimeOpts,
    /// Runtime state of the virtual DAC.
    status: DacStatus,
    /// The Data command whose payload is still arriving, if there is one.
    partial: Option<DacFrame>,
    /// Whether a Data command of this session has delivered a point.
    delivered: bool,
    /// The number of frames that the pipeline has refused.
    dropped_frames: u64,
}

/// The engine as plain values.
pub struct DacView {
    pub opts: RuntimeOpts,
    pub status: DacStatus,
    /// The Data command whose payload is still arriving.
    pub pending: Option<FrameView>,
    /// Whether a Data command of this session with at least one point has
    /// been read whole.
    pub delivered: bool,
    /// The number of frames that the pipeline has refused. It stops counting
    /// at the largest value of `u64`.
    pub dropped_frames: u64,
}

/// What reading a command comes to, as plain values: a whole command, `None`
/// where the payload of a Data command is still incomplete, or the error that
/// ends the session.
pub type ReadView = Result<Option<CommandView>, ClientError>;

/// The view of what reading a command came to.
pub open spec fn read_view(result: Result<Option<Command>, ClientError>) -> ReadView {
    match result {
        Ok(Some(command)) => Ok(Some(command@)),
        Ok(None) => Ok(None),
        Err(e) => Err(e),
    }
}

impl DacView {
    /// The status is valid, and a pending payload is incomplete.
    pub open spec fn wf(self) -> bool {
        &&& status_valid(self.status)
        &&& self.pending matches Some(frame) ==> frame.incomplete()
    }

    /// The engine at the start of a session: the status is empty, no payload
    /// is pending and no point has been delivered.
    pub open spec fn reset(self) -> DacView {
        DacView { status: DacStatus::spec_empty(), pending: None, delivered: false, ..self }
    }

    /// The frame that is complete once `payload` has arrived, if it is. It
    /// holds the bytes of the announced points and none that follow them.
    pub open spec fn collected(self, num_points: u16, payload: Seq<u8>) -> Option<FrameView> {
        let frame = FrameView { num_points: num_points, point_data: payload };
        if frame.incomplete() {
            None
        } else {
            Some(frame.trimmed())
        }
    }

    /// The engine after `payload` has arrived for a Data command of
    /// `num_points` points. An incomplete payload is kept. A complete one
    /// leaves for the pipeline: a refusal there is counted, and the fullness
    /// of the status is set to the length of the pipeline's output queue.
    pub open spec fn collect(self, pipeline: PipelineView, num_points: u16, payload: Seq<u8>)
        -> DacView {
        let frame = FrameView { num_points: num_points, point_data: payload };
        if frame.incomplete() {
            DacView { pending: Some(frame), ..self }
        } else {
            DacView {
                pending: None,
                delivered: self.delivered || num_points > 0,
                status: with_fullness(self.status, pipeline.output.len()),
                dropped_frames: if pipeline.input_full() && self.dropped_frames < u64::MAX {
                    (self.dropped_frames + 1) as u64
                } else {
                    self.dropped_frames
                },
                ..self
            }
        }
    }

    /// The count of the Data command that `chunk` belongs to, if it belongs
    /// to one, and all that has arrived of its payload with `chunk`.
    pub open spec fn data_of(self, chunk: Seq<u8>) -> Option<FrameView> {
        if chunk.len() == 0 {
            None
        } else {
            match self.pending {
                Some(frame) => Some(
                    FrameView {
                        num_points: frame.num_points,
                        point_data: frame.point_data + chunk,
                    },
                ),
                None => match spec_parse_command(chunk) {
                    Ok(CommandView::Data { num_points, .. }) => Some(
                        FrameView {
                            num_points: num_points,
                            point_data: chunk.skip(DATA_HEADER_SIZE as int),
                        },
                    ),
                    _ => None,
                },
            }
        }
    }

    /// What reading `chunk` comes to. No bytes are a lost connection. While a
    /// payload is pending the bytes continue it; otherwise they start a
    /// command. A Data command is whole once its payload is complete. What
    /// follows a command in `chunk` is ignored.
    pub open spec fn read_result(self, chunk: Seq<u8>) -> ReadView {
        if chunk.len() == 0 {
            Err(ClientError::ConnectionError)
        } else {
            match self.data_of(chunk) {
                Some(frame) => if frame.incomplete() {
                    Ok(None)
                } else {
                    Ok(Some(CommandView::Data { num_points: frame.num_points, points: Seq::empty() }))
                },
                None => match spec_parse_command(chunk) {
                    Ok(command) => Ok(Some(command)),
                    Err(e) => Err(e),
                },
            }
        }
    }

    /// The engine after reading `chunk`.
    pub open spec fn read_command(self, pipeline: PipelineView, chunk: Seq<u8>) -> DacView {
        match self.data_of(chunk) {
            Some(frame) => self.collect(pipeline, frame.num_points, frame.point_data),
            None => self,
        }
    }

    /// The pipeline after the engine has read `chunk`: a frame that became
    /// complete has been offered to it, with exactly the bytes of its points.
    pub open spec fn read_pipeline(self, pipeline: PipelineView, chunk: Seq<u8>) -> PipelineView {
        match self.data_of(chunk) {
            Some(frame) => if frame.incomplete() {
                pipeline
            } else {
                pipeline.enqueue(frame.trimmed())
            },
            None => pipeline,
        }
    }

    /// The engine after an event. A new client and every end of a session
    /// reset it. A command that was read whole changes the status as
    /// `next_status` says, where the points of the command itself do not
    /// count as delivered before.
    pub open spec fn listen(self, pipeline: PipelineView, event: EventView) -> DacView {
        match event {
            EventView::Accepted => self.reset(),
            EventView::Failed => self.reset(),
            EventView::Received { bytes } => {
                let after = self.read_command(pipeline, bytes);
                match self.read_result(bytes) {
                    Ok(Some(command)) => if command is Unknown {
                        after.reset()
                    } else {
                        DacView {
                            status: next_status(after.status, command, self.delivered),
                            ..after
                        }
                    },
                    Ok(None) => after,
                    Err(_) => after.reset(),
                }
            },
        }
    }

    /// The action that answers an event. A new client gets the response to a
    /// Ping. A command that was read whole gets its response, built from the
    /// status after the command; an unknown one closes the session, as does
    /// any error. An incomplete payload asks for what is missing, by at most
    /// `READ_SIZE` bytes at a time.
    pub open spec fn action(self, pipeline: PipelineView, event: EventView) -> ActionView {
        match event {
            EventView::Accepted => ActionView::Reply {
                bytes: response_to(CommandView::Ping, DacStatus::spec_empty()),
            },
            EventView::Failed => ActionView::Close,
            EventView::Received { bytes } => match self.read_result(bytes) {
                Ok(Some(command)) => if command is Unknown {
                    ActionView::Close
                } else {
                    ActionView::Reply {
                        bytes: response_to(command, self.listen(pipeline, event).status),
                    }
                },
                Ok(None) => {
                    let missing = self.data_of(bytes).unwrap().missing();
                    ActionView::ReadMore {
                        max_len: if missing < READ_SIZE {
                            missing
                        } else {
                            READ_SIZE as nat
                        },
                    }
                },
                Err(_) => ActionView::Close,
            },
        }
    }
}

/// Every whole command but Version is answered by a standard response of 22
/// bytes that acknowledges it: the first byte is the code of an
/// acknowledgement, the second is the command's byte, and the rest is the
/// status. Version is answered by 32 bytes.
pub proof fn lemma_response_layout(command: CommandView, status: DacStatus)
    ensures
        command is Version ==> response_to(command, status).len() == VERSION_SIZE,
        !(command is Version) ==> {
            &&& response_to(command, status).len() == RESPONSE_SIZE
            &&& is_response_code(response_to(command, status)[0])
            &&& response_to(command, status)[0] == ResponseState::Ack.spec_code()
            &&& response_to(command, status)[1] == command.value()
            &&& response_to(command, status).subrange(2, 22) == status.serialized()
        },
{
}

/// Every command that is read whole and known gets exactly one response;
/// nothing else does. A response follows the new client's arrival as well.
pub proof fn lemma_one_response_per_command(dac: DacView, pipeline: PipelineView, chunk: Seq<u8>)
    ensures
        dac.action(pipeline, EventView::Received { bytes: chunk }) is Reply <==> (dac.read_result(
            chunk,
        ) matches Ok(Some(command)) && !(command is Unknown)),
        dac.action(pipeline, EventView::Accepted) is Reply,
{
}

/// A frame that the engine hands to the pipeline is well formed: it has
/// exactly 18 bytes for each point that its command announced. The engine
/// hands over at most one frame for each read, the frame of the Data command
/// that the read completed, and changes nothing else in the pipeline.
pub proof fn lemma_frames_well_formed(dac: DacView, pipeline: PipelineView, chunk: Seq<u8>)
    requires
        dac.wf(),
        pipeline.wf(),
    ensures
        dac.read_pipeline(pipeline, chunk).wf(),
        dac.read_pipeline(pipeline, chunk).output == pipeline.output,
        dac.read_pipeline(pipeline, chunk).frame_limit == pipeline.frame_limit,
        dac.read_pipeline(pipeline, chunk).point_limit == pipeline.point_limit,
        dac.read_pipeline(pipeline, chunk).input.len() <= pipeline.input.len() + 1,
        dac.read_pipeline(pipeline, chunk).input.take(pipeline.input.len() as int)
            == pipeline.input,
        forall|i: int|
            pipeline.input.len() <= i < dac.read_pipeline(pipeline, chunk).input.len()
                ==> (#[trigger] dac.read_pipeline(pipeline, chunk).input[i]).well_formed(),
        dac.read_pipeline(pipeline, chunk).input.len() > pipeline.input.len() ==> (
        dac.read_result(chunk) matches Ok(Some(CommandView::Data { num_points, .. }))
            && dac.read_pipeline(pipeline, chunk).input.last().num_points == num_points),
{
}

/// The fullness that the status reports never exceeds the capacity of the
/// pipeline's output queue: it is zero when a session starts, and an event
/// keeps it within the capacity, which the event leaves as it is. After a Data
/// command that was read whole the fullness is the length of the output queue
/// at that moment (or the largest value of the field, where the queue is
/// longer). A standard response carries the fullness of the status in its
/// bytes 12 and 13.
pub proof fn lemma_reported_fullness(dac: DacView, pipeline: PipelineView, event: EventView)
    requires
        dac.wf(),
        pipeline.wf(),
    ensures
        dac.reset().status.buffer_fullness == 0,
        dac.status.buffer_fullness <= pipeline.point_limit || event is Accepted || event is Failed
            ==> dac.listen(pipeline, event).status.buffer_fullness <= pipeline.point_limit,
        event matches EventView::Received { bytes } ==> {
            &&& dac.read_pipeline(pipeline, bytes).point_limit == pipeline.point_limit
            &&& dac.read_pipeline(pipeline, bytes).output == pipeline.output
            &&& dac.read_result(bytes) matches Ok(Some(CommandView::Data { .. }))
                ==> dac.listen(pipeline, event).status.buffer_fullness == with_fullness(
                dac.status,
                pipeline.output.len(),
            ).buffer_fullness
        },
        dac.action(pipeline, event) matches ActionView::Reply { bytes } ==> (bytes.len()
            == RESPONSE_SIZE ==> u16_from_le(bytes[12], bytes[13]) == dac.listen(
            pipeline,
            event,
        ).status.buffer_fullness),
{
}

/// The playback state moves from idle to prepared on Prepare only, from
/// prepared to playing on Data or on Begin after points were delivered only,
/// and to idle on Stop; no other command moves it. The point count is zero
/// unless the DAC plays, never decreases while it plays, and is zero after
/// Prepare.
pub proof fn lemma_playback_transitions(status: DacStatus, command: CommandView, delivered: bool)
    requires
        status_valid(status),
    ensures
        status_valid(next_status(status, command, delivered)),
        next_status(status, command, delivered).playback_state != status.playback_state ==> {
            ||| status.playback_state == PLAYBACK_IDLE && command is Prepare && next_status(
                status,
                command,
                delivered,
            ).playback_state == PLAYBACK_PREPARED
            ||| status.playback_state == PLAYBACK_PREPARED && (command is Data || (command is Begin
                && delivered)) && next_status(status, command, delivered).playback_state
                == PLAYBACK_PLAYING
            ||| command is Stop && next_status(status, command, delivered).playback_state
                == PLAYBACK_IDLE
        },
        !(command is Prepare) && status.playback_state == PLAYBACK_PLAYING && next_status(
            status,
            command,
            delivered,
        ).playback_state == PLAYBACK_PLAYING ==> next_status(
            status,
            command,
            delivered,
        ).point_count >= status.point_count,
        command is Prepare ==> next_status(status, command, delivered).point_count == 0,
{
}

impl View for Dac {
    type V = DacView;

    closed spec fn view(&self) -> DacView {
        DacView {
            opts: self.opts,
            status: self.status,
            pending: match self.partial {
                Some(frame) => Some(frame@),
                None => None,
            },
            delivered: self.delivered,
            dropped_frames: self.dropped_frames,
        }
    }
}

impl Dac {
    /// A DAC with an empty status that waits for its first client.
    pub fn new(opts: &RuntimeOpts) -> (dac: Dac)
        ensures
            dac@.wf(),
            dac@ == (DacView {
                opts: *opts,
                status: DacStatus::spec_empty(),
                pending: None,
                delivered: false,
                dropped_frames: 0,
            }),
    {
        Dac {
            opts: *opts,
            status: DacStatus::empty(),
            partial: None,
            delivered: false,
            dropped_frames: 0,
        }
    }

    /// The options that the DAC was made with.
    pub fn opts(&self) -> (opts: RuntimeOpts)
        ensures
            opts == self@.opts,
    {
        self.opts
    }

    /// The status that the DAC reports at this moment.
    pub fn status(&self) -> (status: DacStatus)
        ensures
            status == self@.status,
    {
        self.status
    }

    /// The number of frames that the pipeline has refused so far.
    pub fn dropped_frames(&self) -> (count: u64)
        ensures
            count == self@.dropped_frames,
    {
        self.dropped_frames
    }

    /// Returns the engine to the state in which it meets a client.
    fn reset(&mut self)
        ensures
            final(self)@ == old(self)@.reset(),
    {
        self.status = DacStatus::empty();
        self.partial = None;
        self.delivered = false;
    }

    /// Adds `payload` to the pending Data command. Returns the frame once its
    /// payload is complete, without the bytes that follow those of its
    /// points; until then the frame stays pending.
    fn read_point_data(&mut self, payload: &[u8]) -> (frame: Option<DacFrame>)
        requires
            old(self)@.pending is Some,
        ensures
            ({
                let before = old(self)@.pending.unwrap();
                let whole = old(self)@.collected(
                    before.num_points,
                    before.point_data + payload@,
                );
                &&& match frame {
                    Some(f) => whole == Some(f@) && final(self)@.pending is None,
                    None => whole is None && final(self)@.pending == Some(
                        FrameView {
                            num_points: before.num_points,
                            point_data: before.point_data + payload@,
                        },
                    ),
                }
                &&& final(self)@.status == old(self)@.status
                &&& final(self)@.opts == old(self)@.opts
                &&& final(self)@.delivered == old(self)@.delivered
                &&& final(self)@.dropped_frames == old(self)@.dropped_frames
            }),
    {
        let mut frame = match self.partial.take() {
            Some(frame) => frame,
            None => {
                return None;
            },
        };
        let ghost before = frame.point_data@;
        frame.point_data.extend_from_slice(payload);
        assert(frame.point_data@ == before + payload@);
        let needed: usize = POINT_SIZE * (frame.num_points as usize);
        if frame.point_data.len() < needed {
            self.partial = Some(frame);
            None
        } else {
            frame.point_data.truncate(needed);
            Some(frame)
        }
    }

    /// Reads a command from the bytes that a read returned.
    ///
    /// No bytes mean that the client is gone: `ConnectionError`. While the
    /// payload of a Data command is pending, the bytes are added to it.
    /// Otherwise the first byte decides the command, and a Begin, Data or
    /// Queue rate change command that lacks its fixed part is a `ParseError`. The payload of a
    /// Data command starts after its three header bytes. Once the payload has
    /// all its bytes, the frame is offered to the pipeline with exactly the
    /// bytes of its points, the fullness of the
    /// status is taken from the pipeline's output queue, and the command is
    /// returned; where the pipeline is full the frame is dropped and counted,
    /// and the command is returned all the same. Until then the result is
    /// `Ok(None)`. The playback state is left as it is: `listen` moves it.
    pub fn read_command(&mut self, pipeline: &mut Pipeline, chunk: &[u8]) -> (result: Result<
        Option<Command>,
        ClientError,
    >)
        ensures
            old(self)@.wf() ==> final(self)@.wf(),
            old(pipeline)@.wf() ==> final(pipeline)@.wf(),
            read_view(result) == old(self)@.read_result(chunk@),
            final(self)@ == old(self)@.read_command(old(pipeline)@, chunk@),
            final(pipeline)@ == old(self)@.read_pipeline(old(pipeline)@, chunk@),
    {
        if chunk.len() == 0 {
            return Err(ClientError::ConnectionError);
        }
        let frame = if self.partial.is_some() {
            self.read_point_data(chunk)
        } else {
            match parse_command(chunk) {
                Err(e) => {
                    return Err(e);
                },
                Ok(Command::Data { num_points, .. }) => {
                    self.partial = Some(DacFrame { num_points: num_points, point_data: Vec::new() });
                    let payload = slice_subrange(chunk, DATA_HEADER_SIZE, chunk.len());
                    self.read_point_data(payload)
                },
                Ok(command) => {
                    return Ok(Some(command));
                },
            }
        };
        match frame {
            None => Ok(None),
            Some(frame) => {
                let num_points = frame.num_points;
                match pipeline.enqueue(frame) {
                    Ok(_) => {},
                    Err(_) => {
                        if self.dropped_frames < u64::MAX {
                            self.dropped_frames = self.dropped_frames + 1;
                        }
                    },
                }
                if num_points > 0 {
                    self.delivered = true;
                }
                let queued = pipeline.size();
                self.status.buffer_fullness = if queued > 0xffff {
                    0xffffu16
                } else {
                    queued as u16
                };
                Ok(Some(Command::Data { num_points: num_points, points: Vec::new() }))
            },
        }
    }

    /// Returns the bytes that answer `command` at this moment: the version
    /// string for Version, else the acknowledgement with the current status.
    pub fn write(&self, command: &Command) -> (bytes: Vec<u8>)
        ensures
            bytes@ == response_to(command@, self@.status),
    {
        match command {
            Command::Version => version_response(),
            _ => DacResponse::new(ResponseState::Ack, command.value(), self.status).serialize(),
        }
    }

    /// Changes the status as the accepted command asks. `delivered` says
    /// whether points had been delivered before the command.
    fn apply(&mut self, command: &Command, delivered: bool)
        ensures
            final(self)@ == (DacView {
                status: next_status(old(self)@.status, command@, delivered),
                ..old(self)@
            }),
            status_valid(old(self)@.status) ==> status_valid(final(self)@.status),
    {
        match command {
            Command::Prepare => {
                if self.status.playback_state == PLAYBACK_IDLE {
                    self.status.playback_state = PLAYBACK_PREPARED;
                }
                self.status.point_count = 0;
            },
            Command::Begin { .. } => {
                if self.status.playback_state == PLAYBACK_PREPARED && delivered {
                    self.status.playback_state = PLAYBACK_PLAYING;
                }
            },
            Command::Data { .. } => {
                if self.status.playback_state == PLAYBACK_PREPARED {
                    self.status.playback_state = PLAYBACK_PLAYING;
                }
            },
            Command::Stop => {
                self.status.playback_state = PLAYBACK_IDLE;
                self.status.point_count = 0;
            },
            _ => {},
        }
    }

    /// One step of the session: takes what happened on the connection and
    /// says what to do next.
    ///
    /// A new client finds an empty status and is sent the response to a Ping.
    /// Bytes that were read are taken as `read_command` says: a whole command
    /// changes the status and is answered, an incomplete payload asks for
    /// more bytes, and an unknown command or an error ends the session. So
    /// does a failure on the connection. The end of a session empties the
    /// status and forgets a pending payload. A full pipeline never ends it.
    pub fn listen(&mut self, pipeline: &mut Pipeline, event: SessionEvent) -> (action:
        SessionAction)
        ensures
            old(self)@.wf() ==> final(self)@.wf(),
            old(pipeline)@.wf() ==> final(pipeline)@.wf(),
            action@ == old(self)@.action(old(pipeline)@, event@),
            final(self)@ == old(self)@.listen(old(pipeline)@, event@),
            final(pipeline)@ == (match event@ {
                EventView::Received { bytes } => old(self)@.read_pipeline(old(pipeline)@, bytes),
                _ => old(pipeline)@,
            }),
    {
        match event {
            SessionEvent::Accepted => {
                self.reset();
                SessionAction::Reply { bytes: self.write(&Command::Ping) }
            },
            SessionEvent::Failed => {
                self.reset();
                SessionAction::Close
            },
            SessionEvent::Received { bytes } => {
                let delivered = self.delivered;
                match self.read_command(pipeline, bytes.as_slice()) {
                    Err(_) => {
                        self.reset();
                        SessionAction::Close
                    },
                    Ok(None) => {
                        let missing = self.missing();
                        SessionAction::ReadMore {
                            max_len: if missing < READ_SIZE {
                                missing
                            } else {
                                READ_SIZE
                            },
                        }
                    },
                    Ok(Some(command)) => {
                        match command {
                            Command::Unknown { .. } => {
                                self.reset();
                                SessionAction::Close
                            },
                            _ => {
                                self.apply(&command, delivered);
                                SessionAction::Reply { bytes: self.write(&command) }
                            },
                        }
                    },
                }
            },
        }
    }

    /// The number of bytes that the pending payload still lacks, and zero
    /// where none is pending.
    fn missing(&self) -> (missing: usize)
        ensures
            missing == (match self@.pending {
                Some(frame) => frame.missing(),
                None => 0,
            }),
    {
        match &self.partial {
            Some(frame) => {
                let needed: usize = POINT_SIZE * (frame.num_points as usize);
                if frame.point_data.len() < needed {
                    needed - frame.point_data.len()
                } else {
                    0
                }
            },
            None => 0,
        }
    }
}

} // verus!
