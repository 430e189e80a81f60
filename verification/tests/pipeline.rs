use etherdream_emulator::dac::DacFrame;
use etherdream_emulator::error::ClientError;
use etherdream_emulator::error::EmulatorError;
use etherdream_emulator::pipeline::parse_points;
use etherdream_emulator::pipeline::Pipeline;
use etherdream_emulator::pipeline::WorkerStep;
use etherdream_emulator::pipeline::FRAME_LIMIT;
use etherdream_emulator::pipeline::POINT_LIMIT;
use etherdream_emulator::protocol::Point;

fn point(n: u16) -> Point {
    Point {
        control: n,
        x: -(n as i16),
        y: n as i16,
        i: n.wrapping_mul(3),
        r: n.wrapping_add(100),
        g: n.wrapping_add(200),
        b: n.wrapping_add(300),
        u1: 0xffff - n,
        u2: n ^ 0x5555,
    }
}

fn frame_of(points: &[Point]) -> DacFrame {
    let mut data = Vec::new();
    for p in points {
        data.extend(p.serialize());
    }
    DacFrame { num_points: points.len() as u16, point_data: data }
}

fn points_from(start: u16, count: u16) -> Vec<Point> {
    (start..start + count).map(point).collect()
}

#[test]
fn default_limits() {
    assert_eq!(FRAME_LIMIT, 10);
    assert_eq!(POINT_LIMIT, 5000);
    let pipeline = Pipeline::new();
    assert_eq!(pipeline.input_len(), 0);
    assert_eq!(pipeline.size(), 0);
}

#[test]
fn parse_points_reads_fields_in_order() {
    let frame = DacFrame {
        num_points: 1,
        point_data: vec![
            0x02, 0x01, 0x04, 0x03, 0x06, 0x05, 0x08, 0x07, 0x0a, 0x09, 0x0c, 0x0b, 0x0e, 0x0d,
            0x10, 0x0f, 0x12, 0x11,
        ],
    };
    assert_eq!(
        parse_points(frame),
        Ok(vec![Point {
            control: 0x0102,
            x: 0x0304,
            y: 0x0506,
            i: 0x0708,
            r: 0x090a,
            g: 0x0b0c,
            b: 0x0d0e,
            u1: 0x0f10,
            u2: 0x1112,
        }])
    );
}

#[test]
fn parse_points_reads_signed_coordinates() {
    let frame = DacFrame {
        num_points: 2,
        point_data: vec![
            0, 0, 0xff, 0xff, 0x00, 0x80, 0, 0, 0, 0, 0, 0, 0, 0, 0, 0, 0, 0, //
            0, 0, 0xff, 0x7f, 0xfe, 0xff, 0, 0, 0, 0, 0, 0, 0, 0, 0, 0, 0, 0,
        ],
    };
    let points = parse_points(frame).unwrap();
    assert_eq!(points.len(), 2);
    assert_eq!((points[0].x, points[0].y), (-1, -32768));
    assert_eq!((points[1].x, points[1].y), (32767, -2));
}

#[test]
fn parse_points_of_empty_frame() {
    let frame = DacFrame { num_points: 0, point_data: Vec::new() };
    assert_eq!(parse_points(frame), Ok(Vec::new()));
}

#[test]
fn parse_points_rejects_short_payload() {
    let frame = DacFrame { num_points: 2, point_data: vec![0u8; 35] };
    assert_eq!(parse_points(frame), Err(ClientError::ParseError));
}

#[test]
fn parse_points_rejects_long_payload() {
    let frame = DacFrame { num_points: 2, point_data: vec![0u8; 37] };
    assert_eq!(parse_points(frame), Err(ClientError::ParseError));
    let frame = DacFrame { num_points: 0, point_data: vec![0u8; 1] };
    assert_eq!(parse_points(frame), Err(ClientError::ParseError));
}

#[test]
fn point_round_trip_through_serialization() {
    for p in [
        point(0),
        point(1),
        point(1234),
        point(32767),
        Point { control: 65535, x: -32768, y: 32767, i: 65535, r: 0, g: 65535, b: 1, u1: 2, u2: 3 },
    ] {
        let frame = DacFrame { num_points: 1, point_data: p.serialize() };
        assert_eq!(parse_points(frame), Ok(vec![p]));
    }
}

#[test]
fn point_round_trip_through_pipeline() {
    let sent = points_from(1, 25);
    let mut pipeline = Pipeline::new();
    assert!(pipeline.enqueue(frame_of(&sent)).is_ok());
    assert_eq!(pipeline.process(), WorkerStep::Decoded { appended: 25, discarded: 0 });
    assert_eq!(pipeline.dequeue(25), sent);
}

#[test]
fn enqueue_accepts_up_to_the_limit() {
    let mut pipeline = Pipeline::new();
    for n in 0..10 {
        assert_eq!(pipeline.input_len(), n);
        assert!(pipeline.enqueue(frame_of(&points_from(n as u16, 1))).is_ok());
    }
    assert_eq!(pipeline.input_len(), 10);
}

#[test]
fn eleventh_frame_is_refused_and_first_ten_are_intact() {
    let mut pipeline = Pipeline::with_limits(10, 5000);
    for n in 0..10u16 {
        assert!(pipeline.enqueue(frame_of(&points_from(n * 10, 2))).is_ok());
    }
    let result = pipeline.enqueue(frame_of(&points_from(1000, 2)));
    assert!(matches!(result, Err(EmulatorError::PipelineFull)));
    assert_eq!(pipeline.input_len(), 10);
    assert_eq!(pipeline.size(), 0);
    for n in 0..10u16 {
        assert_eq!(pipeline.process(), WorkerStep::Decoded { appended: 2, discarded: 0 });
        assert_eq!(pipeline.dequeue(2), points_from(n * 10, 2));
    }
    assert_eq!(pipeline.process(), WorkerStep::Idle);
}

#[test]
fn enqueue_is_full_exactly_at_the_limit() {
    for limit in 0..4usize {
        let mut pipeline = Pipeline::with_limits(limit, 100);
        for n in 0..6usize {
            let before = pipeline.input_len();
            let result = pipeline.enqueue(frame_of(&[]));
            assert_eq!(result.is_err(), before + 1 > limit);
            assert_eq!(result.is_err(), n >= limit);
            assert_eq!(pipeline.input_len(), if n >= limit { limit } else { n + 1 });
        }
    }
}

#[test]
fn enqueue_has_room_again_after_a_step() {
    let mut pipeline = Pipeline::with_limits(1, 100);
    assert!(pipeline.enqueue(frame_of(&points_from(0, 1))).is_ok());
    assert!(pipeline.enqueue(frame_of(&points_from(1, 1))).is_err());
    assert_eq!(pipeline.process(), WorkerStep::Decoded { appended: 1, discarded: 0 });
    assert!(pipeline.enqueue(frame_of(&points_from(2, 1))).is_ok());
    assert_eq!(pipeline.process(), WorkerStep::Decoded { appended: 1, discarded: 0 });
    assert_eq!(pipeline.dequeue(10), vec![point(0), point(2)]);
}

#[test]
fn process_on_empty_input_is_idle() {
    let mut pipeline = Pipeline::new();
    assert_eq!(pipeline.process(), WorkerStep::Idle);
    assert_eq!(pipeline.input_len(), 0);
    assert_eq!(pipeline.size(), 0);
}

#[test]
fn process_decodes_frames_in_arrival_order() {
    let mut pipeline = Pipeline::new();
    assert!(pipeline.enqueue(frame_of(&points_from(0, 3))).is_ok());
    assert!(pipeline.enqueue(frame_of(&points_from(100, 2))).is_ok());
    assert_eq!(pipeline.process(), WorkerStep::Decoded { appended: 3, discarded: 0 });
    assert_eq!(pipeline.input_len(), 1);
    assert_eq!(pipeline.size(), 3);
    assert_eq!(pipeline.process(), WorkerStep::Decoded { appended: 2, discarded: 0 });
    assert_eq!(pipeline.size(), 5);
    assert_eq!(
        pipeline.dequeue(5),
        vec![point(0), point(1), point(2), point(100), point(101)]
    );
}

#[test]
fn process_discards_malformed_frame_and_goes_on() {
    let mut pipeline = Pipeline::new();
    assert!(pipeline.enqueue(DacFrame { num_points: 3, point_data: vec![0u8; 50] }).is_ok());
    assert!(pipeline.enqueue(frame_of(&points_from(7, 1))).is_ok());
    assert_eq!(pipeline.process(), WorkerStep::Malformed);
    assert_eq!(pipeline.input_len(), 1);
    assert_eq!(pipeline.size(), 0);
    assert_eq!(pipeline.process(), WorkerStep::Decoded { appended: 1, discarded: 0 });
    assert_eq!(pipeline.dequeue(1), vec![point(7)]);
}

#[test]
fn process_discards_the_tail_of_a_frame_when_output_is_full() {
    let mut pipeline = Pipeline::with_limits(10, 5);
    assert!(pipeline.enqueue(frame_of(&points_from(0, 3))).is_ok());
    assert!(pipeline.enqueue(frame_of(&points_from(10, 4))).is_ok());
    assert!(pipeline.enqueue(frame_of(&points_from(20, 2))).is_ok());
    assert_eq!(pipeline.process(), WorkerStep::Decoded { appended: 3, discarded: 0 });
    assert_eq!(pipeline.process(), WorkerStep::Decoded { appended: 2, discarded: 2 });
    assert_eq!(pipeline.size(), 5);
    assert_eq!(pipeline.process(), WorkerStep::Decoded { appended: 0, discarded: 2 });
    assert_eq!(pipeline.size(), 5);
    assert_eq!(pipeline.input_len(), 0);
    assert_eq!(
        pipeline.dequeue(100),
        vec![point(0), point(1), point(2), point(10), point(11)]
    );
}

#[test]
fn process_appends_at_most_the_announced_points() {
    let mut pipeline = Pipeline::new();
    for count in [0u16, 1, 7, 40] {
        let before = pipeline.size();
        assert!(pipeline.enqueue(frame_of(&points_from(0, count))).is_ok());
        pipeline.process();
        assert!(pipeline.size() <= before + count as usize);
        assert_eq!(pipeline.size(), before + count as usize);
    }
}

#[test]
fn output_never_exceeds_default_point_limit() {
    let mut pipeline = Pipeline::new();
    for round in 0..6u16 {
        assert!(pipeline.enqueue(frame_of(&points_from(round, 1000))).is_ok());
        let step = pipeline.process();
        if round < 5 {
            assert_eq!(step, WorkerStep::Decoded { appended: 1000, discarded: 0 });
        } else {
            assert_eq!(step, WorkerStep::Decoded { appended: 0, discarded: 1000 });
        }
        assert!(pipeline.size() <= POINT_LIMIT);
    }
    assert_eq!(pipeline.size(), 5000);
}

#[test]
fn dequeue_returns_fewer_when_fewer_wait() {
    let mut pipeline = Pipeline::new();
    assert_eq!(pipeline.dequeue(10), Vec::new());
    assert!(pipeline.enqueue(frame_of(&points_from(0, 2))).is_ok());
    pipeline.process();
    assert_eq!(pipeline.dequeue(10), vec![point(0), point(1)]);
    assert_eq!(pipeline.size(), 0);
    assert_eq!(pipeline.dequeue(10), Vec::new());
}

#[test]
fn dequeue_takes_from_the_front_and_keeps_the_rest() {
    let mut pipeline = Pipeline::new();
    assert!(pipeline.enqueue(frame_of(&points_from(0, 5))).is_ok());
    pipeline.process();
    assert_eq!(pipeline.dequeue(0), Vec::new());
    assert_eq!(pipeline.size(), 5);
    assert_eq!(pipeline.dequeue(2), vec![point(0), point(1)]);
    assert_eq!(pipeline.size(), 3);
    assert_eq!(pipeline.dequeue(3), vec![point(2), point(3), point(4)]);
    assert_eq!(pipeline.size(), 0);
}

#[test]
fn zero_capacity_pipeline_takes_nothing() {
    let mut pipeline = Pipeline::with_limits(0, 0);
    assert!(matches!(
        pipeline.enqueue(frame_of(&points_from(0, 1))),
        Err(EmulatorError::PipelineFull)
    ));
    assert_eq!(pipeline.process(), WorkerStep::Idle);
    let mut pipeline = Pipeline::with_limits(1, 0);
    assert!(pipeline.enqueue(frame_of(&points_from(0, 1))).is_ok());
    assert_eq!(pipeline.process(), WorkerStep::Decoded { appended: 0, discarded: 1 });
    assert_eq!(pipeline.dequeue(1), Vec::new());
}
