//! The point pipeline: a bounded queue of raw frames, the decoder that turns
//! a frame into points, and a bounded queue of decoded points.
//!
//! The network side enqueues frames, a worker decodes them one per step, and
//! the consumer dequeues points. Both queues are first in, first out. A full
//! input queue rejects the new frame; a full output queue discards the rest of
//! the frame that is being appended, never an older point.

use crate::dac::DacFrame;
use crate::dac::FrameView;
use crate::error::ClientError;
use crate::error::EmulatorError;
use crate::protocol::encode_points;
use crate::protocol::lemma_points_round_trip;
use crate::protocol::Point;
use crate::protocol::POINT_SIZE;
use crate::wire::read_i16;
use crate::wire::read_u16;
use std::collections::VecDeque;
use vstd::prelude::*;
use vstd::slice::slice_subrange;

verus! {

/// Default capacity of the input queue, in frames.
pub const FRAME_LIMIT: usize = 10;

/// Default capacity of the output queue, in points.
pub const POINT_LIMIT: usize = 5000;

/// Reads the point that starts at byte `at` of `data`.
fn read_point(data: &[u8], at: usize) -> (p: Point)
    requires
        at + 18 <= data@.len(),
    ensures
        p == Point::decoded(data@, at as int),
{
    assert(data@.len() == data.len());
    Point {
        control: read_u16(slice_subrange(data, at, at + 2)),
        x: read_i16(slice_subrange(data, at + 2, at + 4)),
        y: read_i16(slice_subrange(data, at + 4, at + 6)),
        i: read_u16(slice_subrange(data, at + 6, at + 8)),
        r: read_u16(slice_subrange(data, at + 8, at + 10)),
        g: read_u16(slice_subrange(data, at + 10, at + 12)),
        b: read_u16(slice_subrange(data, at + 12, at + 14)),
        u1: read_u16(slice_subrange(data, at + 14, at + 16)),
        u2: read_u16(slice_subrange(data, at + 16, at + 18)),
    }
}

/// Parses the raw bytes of a frame into points.
///
/// A frame whose payload does not have exactly 18 bytes for each announced
/// point is malformed and yields `ParseError`; every other frame yields its
/// points in the order of the payload.
pub fn parse_points(dac_frame: DacFrame) -> (result: Result<Vec<Point>, ClientError>)
    ensures
        match result {
            Ok(points) => dac_frame@.well_formed() && points@ == dac_frame@.points(),
            Err(e) => !dac_frame@.well_formed() && e == ClientError::ParseError,
        },
{
    let n: usize = dac_frame.num_points as usize;
    let data = dac_frame.point_data.as_slice();
    if data.len() != POINT_SIZE * n {
        return Err(ClientError::ParseError);
    }
    let mut points: Vec<Point> = Vec::new();
    let mut k: usize = 0;
    while k < n
        invariant
            k <= n,
            n == dac_frame.num_points,
            data@ == dac_frame.point_data@,
            data@.len() == 18 * n,
            points@ == Seq::new(k as nat, |j: int| Point::decoded(data@, 18 * j)),
        decreases n - k,
    {
        let p = read_point(data, POINT_SIZE * k);
        points.push(p);
        k = k + 1;
    }
    Ok(points)
}

/// What one step of the pipeline worker did.
#[derive(Clone, Copy, Debug, PartialEq, Eq, Structural)]
pub enum WorkerStep {
    /// The input queue was empty and nothing changed. The worker waits before
    /// its next step.
    Idle,
    /// The oldest frame was decoded. `appended` of its points went to the
    /// output queue; the remaining `discarded` points found the queue full.
    Decoded { appended: usize, discarded: usize },
    /// The oldest frame was malformed and has been discarded.
    Malformed,
}

/// Two bounded queues with a decoder between them.
#[derive(Debug)]
pub struct Pipeline {
    input: VecDeque<DacFrame>,
    output: VecDeque<Point>,
    frame_limit: usize,
    point_limit: usize,
}

/// A pipeline as plain values: the content of the two queues, oldest first,
/// and their capacities.
pub struct PipelineView {
    pub input: Seq<FrameView>,
    pub output: Seq<Point>,
    pub frame_limit: nat,
    pub point_limit: nat,
}

impl PipelineView {
    /// Neither queue holds more than its capacity.
    pub open spec fn wf(self) -> bool {
        &&& self.input.len() <= self.frame_limit
        &&& self.output.len() <= self.point_limit
    }

    /// Whether one more frame would bring the input queue over its capacity.
    pub open spec fn input_full(self) -> bool {
        self.input.len() + 1 > self.frame_limit
    }

    /// The pipeline after a frame was offered: appended, or rejected where the
    /// input queue is full.
    pub open spec fn enqueue(self, frame: FrameView) -> PipelineView {
        if self.input_full() {
            self
        } else {
            PipelineView { input: self.input.push(frame), ..self }
        }
    }

    /// The number of points that a request for `num_points` gets.
    pub open spec fn available(self, num_points: nat) -> nat {
        if num_points <= self.output.len() {
            num_points
        } else {
            self.output.len()
        }
    }

    /// The points that a request for `num_points` gets: the oldest ones.
    pub open spec fn dequeued(self, num_points: nat) -> Seq<Point> {
        self.output.take(self.available(num_points) as int)
    }

    /// The pipeline after a request for `num_points` was served.
    pub open spec fn dequeue(self, num_points: nat) -> PipelineView {
        PipelineView { output: self.output.skip(self.available(num_points) as int), ..self }
    }

    /// The number of points that the output queue can still take.
    pub open spec fn room(self) -> nat {
        if self.output.len() <= self.point_limit {
            (self.point_limit - self.output.len()) as nat
        } else {
            0
        }
    }

    /// The number of points of the oldest frame that the output queue takes.
    pub open spec fn accepted(self) -> nat {
        if self.input[0].num_points <= self.room() {
            self.input[0].num_points as nat
        } else {
            self.room()
        }
    }

    /// What the worker's next step reports.
    pub open spec fn step(self) -> WorkerStep {
        if self.input.len() == 0 {
            WorkerStep::Idle
        } else if !self.input[0].well_formed() {
            WorkerStep::Malformed
        } else {
            WorkerStep::Decoded {
                appended: self.accepted() as usize,
                discarded: (self.input[0].num_points - self.accepted()) as usize,
            }
        }
    }

    /// The pipeline after the worker's next step: the oldest frame has left
    /// the input queue, and those of its points that fit stand at the end of
    /// the output queue.
    pub open spec fn process(self) -> PipelineView {
        if self.input.len() == 0 {
            self
        } else if !self.input[0].well_formed() {
            PipelineView { input: self.input.skip(1), ..self }
        } else {
            PipelineView {
                input: self.input.skip(1),
                output: self.output + self.input[0].points().take(self.accepted() as int),
                ..self
            }
        }
    }
}

/// One step of the worker takes the oldest frame and appends at most as many
/// points as the frame announced, fewer only where the output queue is full.
/// The points that waited before stay at the front, in their order, and both
/// queues stay within their capacities.
pub proof fn lemma_process_appends_at_most_frame(p: PipelineView)
    requires
        p.wf(),
        p.input.len() > 0,
    ensures
        p.process().wf(),
        p.process().input == p.input.skip(1),
        p.process().output.len() <= p.output.len() + p.input[0].num_points,
        p.process().output.len() < p.output.len() + p.input[0].num_points
            ==> p.process().output.len() == p.output.len() || p.process().output.len()
            == p.point_limit,
        p.process().output.take(p.output.len() as int) == p.output,
{
}

/// Frames are decoded in the order of their arrival, and points keep the
/// order of their frame: after two steps of the worker the points that waited
/// before come first, then those of the older frame, then those of the newer
/// one. What the output queue cannot take is cut from the end.
pub proof fn lemma_arrival_order(p: PipelineView)
    requires
        p.wf(),
        p.input.len() >= 2,
        p.input[0].well_formed(),
        p.input[1].well_formed(),
    ensures
        p.process().input[0] == p.input[1],
        p.process().process().input == p.input.skip(2),
        p.process().process().output == p.output + p.input[0].points().take(
            p.accepted() as int,
        ) + p.input[1].points().take(p.process().accepted() as int),
        p.process().process().output == (p.output + p.input[0].points()
            + p.input[1].points()).take(p.process().process().output.len() as int),
{
}

/// A frame made of serialized points comes out of the pipeline as the same
/// points: once it is enqueued where the input queue is empty and has room,
/// the worker's next step appends exactly these points, provided that the
/// output queue has room for all of them, and a request for them returns
/// them where nothing else waited.
pub proof fn lemma_pipeline_round_trip(p: PipelineView, points: Seq<Point>)
    requires
        p.wf(),
        p.input.len() == 0,
        p.frame_limit >= 1,
        points.len() <= u16::MAX,
        p.output.len() + points.len() <= p.point_limit,
    ensures
        ({
            let frame = FrameView {
                num_points: points.len() as u16,
                point_data: encode_points(points),
            };
            let q = p.enqueue(frame).process();
            &&& q.output == p.output + points
            &&& p.output.len() == 0 ==> q.dequeued(points.len()) == points
        }),
{
    lemma_points_round_trip(points);
}

impl View for Pipeline {
    type V = PipelineView;

    closed spec fn view(&self) -> PipelineView {
        PipelineView {
            input: self.input@.map_values(|f: DacFrame| f@),
            output: self.output@,
            frame_limit: self.frame_limit as nat,
            point_limit: self.point_limit as nat,
        }
    }
}

impl Pipeline {
    /// An empty pipeline with the default capacities.
    pub fn new() -> (p: Pipeline)
        ensures
            p@.wf(),
            p@.input == Seq::<FrameView>::empty(),
            p@.output == Seq::<Point>::empty(),
            p@.frame_limit == FRAME_LIMIT,
            p@.point_limit == POINT_LIMIT,
    {
        Pipeline::with_limits(FRAME_LIMIT, POINT_LIMIT)
    }

    /// An empty pipeline with the given capacities.
    pub fn with_limits(frame_limit: usize, point_limit: usize) -> (p: Pipeline)
        ensures
            p@.wf(),
            p@.input == Seq::<FrameView>::empty(),
            p@.output == Seq::<Point>::empty(),
            p@.frame_limit == frame_limit,
            p@.point_limit == point_limit,
    {
        Pipeline {
            input: VecDeque::new(),
            output: VecDeque::new(),
            frame_limit: frame_limit,
            point_limit: point_limit,
        }
    }

    /// The number of frames that wait in the input queue.
    pub fn input_len(&self) -> (len: usize)
        ensures
            len == self@.input.len(),
    {
        self.input.len()
    }

    /// The number of points that wait in the output queue. This is the
    /// fullness that the DAC reports to its client.
    pub fn size(&self) -> (len: usize)
        ensures
            len == self@.output.len(),
    {
        self.output.len()
    }

    /// Enqueues a frame from the network side.
    ///
    /// The frame is appended unless the queue would then hold more than its
    /// capacity. In that case the queue stays as it is, the frame is dropped
    /// and the result is `PipelineFull`; there is no other error.
    pub fn enqueue(&mut self, frame: DacFrame) -> (result: Result<(), EmulatorError>)
        ensures
            old(self)@.wf() ==> final(self)@.wf(),
            final(self)@ == old(self)@.enqueue(frame@),
            result is Err <==> old(self)@.input_full(),
            result matches Err(e) ==> e is PipelineFull,
    {
        if self.input.len() >= self.frame_limit {
            return Err(EmulatorError::PipelineFull);
        }
        self.input.push_back(frame);
        assert(self.input@.map_values(|f: DacFrame| f@) == old(self).input@.map_values(
            |f: DacFrame| f@,
        ).push(frame@));
        Ok(())
    }

    /// Dequeues points for the consumer.
    ///
    /// Returns the `num_points` oldest points in order, or all of them where
    /// fewer wait, and removes them from the queue. It never waits for more.
    pub fn dequeue(&mut self, num_points: usize) -> (points: Vec<Point>)
        ensures
            old(self)@.wf() ==> final(self)@.wf(),
            points@ == old(self)@.dequeued(num_points as nat),
            final(self)@ == old(self)@.dequeue(num_points as nat),
    {
        let mut buf: Vec<Point> = Vec::new();
        while buf.len() < num_points
            invariant
                buf@.len() <= num_points,
                buf@.len() <= old(self).output@.len(),
                buf@ == old(self).output@.take(buf@.len() as int),
                self.output@ == old(self).output@.skip(buf@.len() as int),
                self.input@ == old(self).input@,
                self.frame_limit == old(self).frame_limit,
                self.point_limit == old(self).point_limit,
            decreases num_points - buf.len(),
        {
            match self.output.pop_front() {
                None => {
                    return buf;
                },
                Some(point) => {
                    buf.push(point);
                },
            }
        }
        buf
    }

    /// One step of the worker that stands between the two queues.
    ///
    /// Takes the oldest frame from the input queue. Where there is none, the
    /// step is `Idle`. A malformed frame is discarded. Otherwise the points of
    /// the frame are appended to the output queue in their order for as long
    /// as the queue has room; those that find it full are discarded. Points
    /// that were in the queue before stay where they are.
    pub fn process(&mut self) -> (step: WorkerStep)
        ensures
            old(self)@.wf() ==> final(self)@.wf(),
            step == old(self)@.step(),
            final(self)@ == old(self)@.process(),
    {
        let frame = match self.input.pop_front() {
            None => {
                return WorkerStep::Idle;
            },
            Some(frame) => frame,
        };
        assert(self.input@.map_values(|f: DacFrame| f@) == old(self).input@.map_values(
            |f: DacFrame| f@,
        ).skip(1));
        let points = match parse_points(frame) {
            Err(_) => {
                return WorkerStep::Malformed;
            },
            Ok(points) => points,
        };
        let mut k: usize = 0;
        while k < points.len() && self.output.len() < self.point_limit
            invariant
                k <= points@.len(),
                old(self).output@.len() + k == self.output@.len(),
                k == 0 || self.output@.len() <= self.point_limit,
                self.output@ == old(self).output@ + points@.take(k as int),
                self.input@ == old(self).input@.skip(1),
                self.frame_limit == old(self).frame_limit,
                self.point_limit == old(self).point_limit,
            decreases points@.len() - k,
        {
            self.output.push_back(points[k]);
            k = k + 1;
        }
        WorkerStep::Decoded { appended: k, discarded: points.len() - k }
    }
}

} // verus!
