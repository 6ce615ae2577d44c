use camrig::camera::{
    classify, Access, Action, BufferDescriptor, Camera, CameraError, Format, Reply, Request, Sharing, Signal,
    Stage, Verdict, EAGAIN, EINTR,
};
use camrig::codes::V4L2_PIX_FMT_MJPEG;
use camrig::frame::FrameBuffer;

const FORMAT: Format = Format { width: 1280, height: 720, stride: 0, size: 1_843_200 };
const BUFFER: BufferDescriptor = BufferDescriptor { index: 0, length: 1_843_200, offset: 4096 };

fn created() -> Camera {
    Camera::new(FrameBuffer::new(640, 480).unwrap())
}

fn streaming() -> Camera {
    let mut camera = created();
    assert_eq!(camera.step(Signal::Poll), Action::Call(Request::QueryCapability));
    camera.step(Signal::Reply(Reply::Done));
    camera.step(Signal::Reply(Reply::Format(FORMAT)));
    camera.step(Signal::Reply(Reply::Done));
    camera.step(Signal::Reply(Reply::Buffer(BUFFER)));
    camera.step(Signal::Reply(Reply::Done));
    camera.step(Signal::Reply(Reply::Done));
    assert_eq!(camera.step(Signal::Reply(Reply::Done)), Action::Live);
    camera
}

fn reach(stage: Stage) -> Camera {
    let mut camera = created();
    let replies = [
        Reply::Done,
        Reply::Format(FORMAT),
        Reply::Done,
        Reply::Buffer(BUFFER),
        Reply::Done,
        Reply::Done,
        Reply::Done,
    ];
    camera.step(Signal::Poll);
    for reply in replies {
        if camera.stage() == stage {
            break;
        }
        camera.step(Signal::Reply(reply));
    }
    assert_eq!(camera.stage(), stage);
    camera
}

#[test]
fn classify_return_values() {
    assert_eq!(classify(0, 0), Verdict::Settled(Reply::Done));
    assert_eq!(classify(0, EINTR), Verdict::Settled(Reply::Done));
    assert_eq!(classify(5, EAGAIN), Verdict::Settled(Reply::Done));
    assert_eq!(classify(-2, EINTR), Verdict::Settled(Reply::Done));
    assert_eq!(classify(-1, 4), Verdict::Retry);
    assert_eq!(classify(-1, 11), Verdict::Settled(Reply::WouldBlock));
    assert_eq!(classify(-1, 5), Verdict::Settled(Reply::Failed { code: 5 }));
    assert_eq!(classify(-1, 0), Verdict::Settled(Reply::Failed { code: 0 }));
    assert_eq!(classify(-1, -1), Verdict::Settled(Reply::Failed { code: -1 }));
}

#[test]
fn request_codes() {
    assert_eq!(Request::QueryCapability.code(), 0x4068_5600);
    assert_eq!(Request::SetFormat { pixelformat: 0, width: 0, height: 0 }.code(), 0xc0d0_5605);
    assert_eq!(Request::RequestBuffers { count: 1 }.code(), 0xc014_5608);
    assert_eq!(Request::QueryBuffer { index: 0 }.code(), 0xc058_5609);
    assert_eq!(Request::Enqueue { index: 0 }.code(), 0xc058_560f);
    assert_eq!(Request::Dequeue { index: 0 }.code(), 0xc058_5611);
    assert_eq!(Request::StreamOn.code(), 0x8004_5612);
    assert_eq!(Request::StreamOff.code(), 0x8004_5613);
}

#[test]
fn reply_failure_codes() {
    assert_eq!(Reply::Done.failure(), None);
    assert_eq!(Reply::Format(FORMAT).failure(), None);
    assert_eq!(Reply::Buffer(BUFFER).failure(), None);
    assert_eq!(Reply::WouldBlock.failure(), Some(11));
    assert_eq!(Reply::Failed { code: 22 }.failure(), Some(22));
}

#[test]
fn new_camera_has_asked_nothing() {
    let camera = created();
    assert_eq!(camera.stage(), Stage::Created);
    assert_eq!(camera.format(), Format { width: 0, height: 0, stride: 0, size: 0 });
    assert_eq!(camera.buffer(), BufferDescriptor { index: 0, length: 0, offset: 0 });
    assert!(!camera.is_queued());
    assert!(!camera.is_mapped());
    assert!(!camera.wake_outstanding());
    assert_eq!(camera.frame().width(), 640);
    assert_eq!(camera.frame().height(), 480);
}

#[test]
fn initialisation_runs_the_seven_steps_in_order() {
    let mut camera = created();
    assert_eq!(camera.step(Signal::Poll), Action::Call(Request::QueryCapability));
    assert_eq!(camera.stage(), Stage::QueryingCapability);
    assert_eq!(
        camera.step(Signal::Reply(Reply::Done)),
        Action::Call(Request::SetFormat { pixelformat: V4L2_PIX_FMT_MJPEG, width: 0, height: 0 })
    );
    assert_eq!(camera.stage(), Stage::SettingFormat);
    assert_eq!(
        camera.step(Signal::Reply(Reply::Format(FORMAT))),
        Action::Call(Request::RequestBuffers { count: 1 })
    );
    assert_eq!(camera.format(), FORMAT);
    assert_eq!(
        camera.step(Signal::Reply(Reply::Done)),
        Action::Call(Request::QueryBuffer { index: 0 })
    );
    let buffer = BufferDescriptor { index: 3, length: 4096, offset: 8192 };
    assert_eq!(
        camera.step(Signal::Reply(Reply::Buffer(buffer))),
        Action::MapBuffer {
            length: 4096,
            offset: 8192,
            access: Access::ReadWrite,
            sharing: Sharing::Shared
        }
    );
    assert_eq!(camera.buffer(), buffer);
    assert!(!camera.is_mapped());
    assert_eq!(
        camera.step(Signal::Reply(Reply::Done)),
        Action::Call(Request::Enqueue { index: 3 })
    );
    assert!(camera.is_mapped());
    assert!(!camera.is_queued());
    assert_eq!(camera.step(Signal::Reply(Reply::Done)), Action::Call(Request::StreamOn));
    assert!(camera.is_queued());
    assert_eq!(camera.step(Signal::Reply(Reply::Done)), Action::Live);
    assert_eq!(camera.stage(), Stage::Streaming);
    assert_eq!(camera.format(), FORMAT);
    assert_eq!(camera.buffer(), buffer);
}

#[test]
fn rejected_capability_query_asks_nothing_more() {
    let mut camera = reach(Stage::QueryingCapability);
    assert_eq!(
        camera.step(Signal::Reply(Reply::Failed { code: 25 })),
        Action::Fail(CameraError::DeviceUnavailable)
    );
    assert_eq!(camera.stage(), Stage::Failed);
    for signal in [
        Signal::Poll,
        Signal::Reply(Reply::Done),
        Signal::Reply(Reply::Format(FORMAT)),
        Signal::Reply(Reply::Buffer(BUFFER)),
        Signal::Woken,
        Signal::Poll,
    ] {
        assert_eq!(camera.step(signal), Action::Ignored);
        assert_eq!(camera.stage(), Stage::Failed);
    }
    assert_eq!(camera.step(Signal::Teardown), Action::Close);
    assert_eq!(camera.step(Signal::Reply(Reply::Done)), Action::Released);
    assert_eq!(camera.stage(), Stage::Closed);
}

#[test]
fn each_step_fails_with_its_own_error() {
    let cases = [
        (Stage::QueryingCapability, CameraError::DeviceUnavailable),
        (Stage::SettingFormat, CameraError::FormatRejected),
        (Stage::RequestingBuffers, CameraError::BufferRequestFailed),
        (Stage::QueryingBuffer, CameraError::BufferRequestFailed),
        (Stage::Mapping, CameraError::MappingFailed),
        (Stage::Enqueueing, CameraError::IoFailure { code: 22 }),
        (Stage::StartingStream, CameraError::IoFailure { code: 22 }),
    ];
    for (stage, error) in cases {
        let mut camera = reach(stage);
        assert_eq!(camera.step(Signal::Reply(Reply::Failed { code: 22 })), Action::Fail(error));
        assert_eq!(camera.stage(), Stage::Failed);
    }
    let mut camera = reach(Stage::Enqueueing);
    assert_eq!(
        camera.step(Signal::Reply(Reply::WouldBlock)),
        Action::Fail(CameraError::IoFailure { code: 11 })
    );
}

#[test]
fn replies_of_the_wrong_kind_are_ignored() {
    let mut camera = reach(Stage::SettingFormat);
    assert_eq!(camera.step(Signal::Reply(Reply::Done)), Action::Ignored);
    assert_eq!(camera.step(Signal::Reply(Reply::Buffer(BUFFER))), Action::Ignored);
    assert_eq!(camera.stage(), Stage::SettingFormat);
    let mut camera = reach(Stage::QueryingBuffer);
    assert_eq!(camera.step(Signal::Reply(Reply::Done)), Action::Ignored);
    assert_eq!(camera.step(Signal::Poll), Action::Ignored);
    assert_eq!(camera.stage(), Stage::QueryingBuffer);
    let mut camera = created();
    assert_eq!(camera.step(Signal::Reply(Reply::Done)), Action::Ignored);
    assert_eq!(camera.step(Signal::Woken), Action::Ignored);
    assert_eq!(camera.stage(), Stage::Created);
}

#[test]
fn frame_cycle_requeues_once_per_frame() {
    let mut camera = streaming();
    let mut enqueues = 0;
    let mut frames = 0;
    for _ in 0..5 {
        assert!(camera.is_queued());
        assert_eq!(camera.step(Signal::Poll), Action::Call(Request::Dequeue { index: 0 }));
        let action = camera.step(Signal::Reply(Reply::Done));
        assert_eq!(action, Action::Call(Request::Enqueue { index: 0 }));
        enqueues += 1;
        assert!(!camera.is_queued());
        assert_eq!(camera.stage(), Stage::Requeueing);
        assert_eq!(camera.step(Signal::Poll), Action::Ignored);
        assert_eq!(camera.step(Signal::Reply(Reply::Done)), Action::FrameReady);
        frames += 1;
        assert_eq!(enqueues, frames);
        assert!(camera.is_queued());
        assert_eq!(camera.stage(), Stage::Streaming);
    }
}

#[test]
fn waiting_registers_one_wake_token() {
    let mut camera = streaming();
    camera.step(Signal::Poll);
    assert_eq!(camera.step(Signal::Reply(Reply::WouldBlock)), Action::RegisterWake);
    assert!(camera.wake_outstanding());
    assert_eq!(camera.stage(), Stage::Streaming);
    camera.step(Signal::Poll);
    assert_eq!(camera.step(Signal::Reply(Reply::WouldBlock)), Action::Pending);
    assert!(camera.wake_outstanding());
    assert_eq!(camera.step(Signal::Woken), Action::Rest);
    assert!(!camera.wake_outstanding());
    assert_eq!(camera.step(Signal::Woken), Action::Ignored);
    camera.step(Signal::Poll);
    assert_eq!(camera.step(Signal::Reply(Reply::WouldBlock)), Action::RegisterWake);
    assert!(camera.wake_outstanding());
}

#[test]
fn failed_dequeue_closes_and_is_an_io_failure() {
    let mut camera = streaming();
    camera.step(Signal::Poll);
    assert_eq!(
        camera.step(Signal::Reply(Reply::Failed { code: 19 })),
        Action::UnmapBuffer { length: 1_843_200 }
    );
    assert_eq!(camera.step(Signal::Poll), Action::Ignored);
    assert_eq!(camera.step(Signal::Reply(Reply::Done)), Action::Close);
    assert_eq!(
        camera.step(Signal::Reply(Reply::Failed { code: 9 })),
        Action::Fail(CameraError::IoFailure { code: 19 })
    );
    assert_eq!(camera.stage(), Stage::Closed);
    assert_eq!(camera.step(Signal::Teardown), Action::Ignored);
    assert_eq!(camera.step(Signal::Poll), Action::Ignored);
}

#[test]
fn failed_requeue_closes_and_is_an_io_failure() {
    let mut camera = streaming();
    camera.step(Signal::Poll);
    camera.step(Signal::Reply(Reply::Done));
    assert_eq!(
        camera.step(Signal::Reply(Reply::Failed { code: 5 })),
        Action::UnmapBuffer { length: 1_843_200 }
    );
    assert!(!camera.is_queued());
    assert_eq!(camera.step(Signal::Reply(Reply::Done)), Action::Close);
    assert_eq!(
        camera.step(Signal::Reply(Reply::Done)),
        Action::Fail(CameraError::IoFailure { code: 5 })
    );
    assert_eq!(camera.stage(), Stage::Closed);
}

#[test]
fn failed_setup_is_released_by_teardown() {
    let mut camera = reach(Stage::StartingStream);
    assert_eq!(
        camera.step(Signal::Reply(Reply::Failed { code: 16 })),
        Action::Fail(CameraError::IoFailure { code: 16 })
    );
    assert_eq!(camera.stage(), Stage::Failed);
    assert_eq!(camera.step(Signal::Teardown), Action::UnmapBuffer { length: 1_843_200 });
    assert_eq!(camera.step(Signal::Reply(Reply::Done)), Action::Close);
    assert_eq!(camera.step(Signal::Reply(Reply::Done)), Action::Released);
    assert_eq!(camera.stage(), Stage::Closed);
}

#[test]
fn teardown_closes_exactly_once() {
    let mut camera = streaming();
    let mut closes = 0;
    let mut action = camera.step(Signal::Teardown);
    assert_eq!(action, Action::Call(Request::StreamOff));
    loop {
        match action {
            Action::Close => closes += 1,
            Action::Released => break,
            Action::Call(Request::StreamOff) | Action::UnmapBuffer { length: 1_843_200 } => {}
            other => panic!("{:?}", other),
        }
        action = camera.step(Signal::Reply(Reply::Done));
    }
    assert_eq!(closes, 1);
    assert_eq!(camera.stage(), Stage::Closed);
    assert!(!camera.is_mapped());
    assert!(!camera.is_queued());
    for signal in [Signal::Teardown, Signal::Poll, Signal::Reply(Reply::Done), Signal::Woken] {
        assert_eq!(camera.step(signal), Action::Ignored);
        assert_eq!(camera.stage(), Stage::Closed);
    }
}

#[test]
fn teardown_reports_the_first_failure() {
    let mut camera = streaming();
    camera.step(Signal::Teardown);
    assert_eq!(
        camera.step(Signal::Reply(Reply::Failed { code: 9 })),
        Action::UnmapBuffer { length: 1_843_200 }
    );
    assert_eq!(camera.step(Signal::Reply(Reply::Failed { code: 22 })), Action::Close);
    assert_eq!(
        camera.step(Signal::Reply(Reply::Done)),
        Action::Fail(CameraError::IoFailure { code: 9 })
    );
    assert_eq!(camera.stage(), Stage::Closed);

    let mut camera = streaming();
    camera.step(Signal::Teardown);
    camera.step(Signal::Reply(Reply::Done));
    camera.step(Signal::Reply(Reply::Done));
    assert_eq!(
        camera.step(Signal::Reply(Reply::Failed { code: 4 })),
        Action::Fail(CameraError::IoFailure { code: 4 })
    );
}

#[test]
fn teardown_before_mapping_only_closes() {
    let mut camera = reach(Stage::RequestingBuffers);
    assert_eq!(camera.step(Signal::Teardown), Action::Close);
    assert_eq!(camera.step(Signal::Teardown), Action::Ignored);
    assert_eq!(camera.step(Signal::Reply(Reply::Done)), Action::Released);
}
