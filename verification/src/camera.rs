//! The capture device: negotiation with the driver, the cycle of its single
//! buffer, and its release.
//!
//! A [`Camera`] makes no system call. Each call of [`Camera::step`] takes a
//! signal from the host program and answers with the one action the host is
//! to perform next; the host reports the result of that action with the
//! next signal.

use vstd::prelude::*;
use crate::frame::{FrameBuffer, raster_height, raster_width};
use crate::codes::{
    V4L2_PIX_FMT_MJPEG, VIDIOC_DQBUF, VIDIOC_QBUF, VIDIOC_QUERYBUF, VIDIOC_QUERYCAP,
    VIDIOC_REQBUFS, VIDIOC_STREAMOFF, VIDIOC_STREAMON, VIDIOC_S_FMT,
};

verus! {

/// Error number of a call that a signal interrupted.
pub const EINTR: i32 = 4;

/// Error number of a call that would have had to wait.
pub const EAGAIN: i32 = 11;

/// Why a capture device could not be set up or used.
#[derive(Clone, Copy, Debug, PartialEq, Eq, Structural)]
pub enum CameraError {
    /// The capability query was refused: no usable capture device.
    DeviceUnavailable,
    /// The driver refused the requested encoding.
    FormatRejected,
    /// The driver gave no buffer, or would not describe it.
    BufferRequestFailed,
    /// The buffer could not be mapped into the process.
    MappingFailed,
    /// Another call failed with the given error number.
    IoFailure { code: i32 },
}

/// What the driver settled on when the format was negotiated.
#[derive(Clone, Copy, Debug, PartialEq, Eq, Structural)]
pub struct Format {
    pub width: u32,
    pub height: u32,
    pub stride: u32,
    pub size: u32,
}

/// The kernel's description of the one capture buffer.
#[derive(Clone, Copy, Debug, PartialEq, Eq, Structural)]
pub struct BufferDescriptor {
    pub index: u32,
    pub length: u32,
    pub offset: u32,
}

/// A control call, with the values that its payload carries.
#[derive(Clone, Copy, Debug, PartialEq, Eq, Structural)]
pub enum Request {
    QueryCapability,
    /// Ask for an encoding; a width and height of zero leave the
    /// dimensions to the driver.
    SetFormat { pixelformat: u32, width: u32, height: u32 },
    /// Ask for `count` capture buffers that are shared by mapping.
    RequestBuffers { count: u32 },
    QueryBuffer { index: u32 },
    Enqueue { index: u32 },
    Dequeue { index: u32 },
    StreamOn,
    StreamOff,
}

/// What the host reports of the action it was given.
#[derive(Clone, Copy, Debug, PartialEq, Eq, Structural)]
pub enum Reply {
    /// The action succeeded and brought nothing back.
    Done,
    /// The format call succeeded with this result.
    Format(Format),
    /// The buffer query succeeded with this result.
    Buffer(BufferDescriptor),
    /// The call would have had to wait.
    WouldBlock,
    /// The action failed with this error number.
    Failed { code: i32 },
}

/// What the host tells the capture device.
#[derive(Clone, Copy, Debug, PartialEq, Eq, Structural)]
pub enum Signal {
    /// The scheduler polls the device.
    Poll,
    /// The wake token that was registered has fired.
    Woken,
    /// The result of the action handed out last.
    Reply(Reply),
    /// The device is to be released.
    Teardown,
}

/// What the process may do with a mapped region.
#[derive(Clone, Copy, Debug, PartialEq, Eq, Structural)]
pub enum Access {
    ReadOnly,
    ReadWrite,
}

/// Who sees what is written to a mapped region.
#[derive(Clone, Copy, Debug, PartialEq, Eq, Structural)]
pub enum Sharing {
    /// The process alone.
    Private,
    /// The driver too.
    Shared,
}

/// What the host is to do next.
#[derive(Clone, Copy, Debug, PartialEq, Eq, Structural)]
pub enum Action {
    /// Make this control call, again while it is interrupted, and report
    /// the result.
    Call(Request),
    /// Map `length` bytes at `offset` of the device with the given access
    /// and sharing, and report the result.
    MapBuffer { length: u32, offset: u32, access: Access, sharing: Sharing },
    /// Unmap the region of `length` bytes and report the result.
    UnmapBuffer { length: u32 },
    /// Close the descriptor and report the result.
    Close,
    /// Register one wake token for the descriptor and return "pending".
    RegisterWake,
    /// Return "pending"; the token registered earlier is still outstanding.
    Pending,
    /// The device is set up and streaming.
    Live,
    /// The buffer holds a completed frame and is queued again.
    FrameReady,
    /// Nothing to do until the next poll.
    Rest,
    /// The device is released.
    Released,
    /// The device has failed with this error. While it was being set up,
    /// nothing more is asked of the driver; once it was streaming, the
    /// buffer has been unmapped and the descriptor closed before this.
    Fail(CameraError),
    /// The signal does not fit the state; nothing has changed.
    Ignored,
}

/// Where a capture device stands. A stage named after an action waits for
/// the reply to it.
#[derive(Clone, Copy, Debug, PartialEq, Eq, Structural)]
pub enum Stage {
    Created,
    QueryingCapability,
    SettingFormat,
    RequestingBuffers,
    QueryingBuffer,
    Mapping,
    Enqueueing,
    StartingStream,
    Streaming,
    Dequeueing,
    Requeueing,
    Failed,
    StoppingStream,
    Unmapping,
    Closing,
    Closed,
}

/// What to do with the return value of a system call.
#[derive(Clone, Copy, Debug, PartialEq, Eq, Structural)]
pub enum Verdict {
    /// The call was interrupted: make it again.
    Retry,
    /// The call is over, with this reply.
    Settled(Reply),
}

/// The mathematical state of a capture device.
pub struct CameraView {
    pub stage: Stage,
    pub format: Format,
    pub buffer: BufferDescriptor,
    /// The driver holds the buffer.
    pub queued: bool,
    /// The buffer is mapped into the process.
    pub mapped: bool,
    /// A wake token is registered and has not fired.
    pub wake_outstanding: bool,
    /// Error number of the call that ended the stream, or of the first
    /// step of the release that failed.
    pub fault: Option<i32>,
    /// Width of the raster that the frames are meant for.
    pub frame_width: u32,
    /// Height of the raster that the frames are meant for.
    pub frame_height: u32,
}

/// A capture device.
pub struct Camera {
    frame: FrameBuffer,
    stage: Stage,
    format: Format,
    buffer: BufferDescriptor,
    queued: bool,
    mapped: bool,
    wake_outstanding: bool,
    fault: Option<i32>,
}

/// The verdict on a call that returned `ret` and left `errno`: `-1` marks a
/// failure, which is a retry when the call was interrupted and a wait when
/// it would have blocked.
pub open spec fn verdict_of(ret: i32, errno: i32) -> Verdict {
    if ret != -1 {
        Verdict::Settled(Reply::Done)
    } else if errno == EINTR {
        Verdict::Retry
    } else if errno == EAGAIN {
        Verdict::Settled(Reply::WouldBlock)
    } else {
        Verdict::Settled(Reply::Failed { code: errno })
    }
}

/// The control-call code of a request.
pub open spec fn code_of_request(request: Request) -> u32 {
    match request {
        Request::QueryCapability => VIDIOC_QUERYCAP,
        Request::SetFormat { .. } => VIDIOC_S_FMT,
        Request::RequestBuffers { .. } => VIDIOC_REQBUFS,
        Request::QueryBuffer { .. } => VIDIOC_QUERYBUF,
        Request::Enqueue { .. } => VIDIOC_QBUF,
        Request::Dequeue { .. } => VIDIOC_DQBUF,
        Request::StreamOn => VIDIOC_STREAMON,
        Request::StreamOff => VIDIOC_STREAMOFF,
    }
}

/// The error number that a reply reports, if it reports a failure.
pub open spec fn failure_of(reply: Reply) -> Option<i32> {
    match reply {
        Reply::WouldBlock => Some(EAGAIN),
        Reply::Failed { code } => Some(code),
        _ => None,
    }
}

/// The state of a device that nothing has been asked of yet, with a raster
/// of the given size.
pub open spec fn fresh(frame_width: u32, frame_height: u32) -> CameraView {
    CameraView {
        stage: Stage::Created,
        format: Format { width: 0, height: 0, stride: 0, size: 0 },
        buffer: BufferDescriptor { index: 0, length: 0, offset: 0 },
        queued: false,
        mapped: false,
        wake_outstanding: false,
        fault: None,
        frame_width,
        frame_height,
    }
}

/// The state after a failure, and the action that reports it.
pub open spec fn broken(v: CameraView, error: CameraError) -> (CameraView, Action) {
    (CameraView { stage: Stage::Failed, ..v }, Action::Fail(error))
}

/// The next step of a release once streaming is off or has failed: unmap
/// what is mapped, else close. The driver holds the buffer no longer.
pub open spec fn release(v: CameraView) -> (CameraView, Action) {
    if v.mapped {
        (
            CameraView { stage: Stage::Unmapping, queued: false, ..v },
            Action::UnmapBuffer { length: v.buffer.length },
        )
    } else {
        (CameraView { stage: Stage::Closing, queued: false, ..v }, Action::Close)
    }
}

/// The fault to remember after a step of the release: the first one.
pub open spec fn first_fault(fault: Option<i32>, reply: Reply) -> Option<i32> {
    if fault is Some {
        fault
    } else {
        failure_of(reply)
    }
}

/// The state after a reply, and the action that follows it.
pub open spec fn next_on_reply(v: CameraView, reply: Reply) -> (CameraView, Action) {
    let failure = failure_of(reply);
    match v.stage {
        Stage::QueryingCapability => match reply {
            Reply::Done => (
                CameraView { stage: Stage::SettingFormat, ..v },
                Action::Call(
                    Request::SetFormat { pixelformat: V4L2_PIX_FMT_MJPEG, width: 0, height: 0 },
                ),
            ),
            Reply::WouldBlock | Reply::Failed { .. } => broken(v, CameraError::DeviceUnavailable),
            _ => (v, Action::Ignored),
        },
        Stage::SettingFormat => match reply {
            Reply::Format(format) => (
                CameraView { stage: Stage::RequestingBuffers, format, ..v },
                Action::Call(Request::RequestBuffers { count: 1 }),
            ),
            Reply::WouldBlock | Reply::Failed { .. } => broken(v, CameraError::FormatRejected),
            _ => (v, Action::Ignored),
        },
        Stage::RequestingBuffers => match reply {
            Reply::Done => (
                CameraView { stage: Stage::QueryingBuffer, ..v },
                Action::Call(Request::QueryBuffer { index: 0 }),
            ),
            Reply::WouldBlock | Reply::Failed { .. } => broken(
                v,
                CameraError::BufferRequestFailed,
            ),
            _ => (v, Action::Ignored),
        },
        Stage::QueryingBuffer => match reply {
            Reply::Buffer(buffer) => (
                CameraView { stage: Stage::Mapping, buffer, ..v },
                Action::MapBuffer {
                    length: buffer.length,
                    offset: buffer.offset,
                    access: Access::ReadWrite,
                    sharing: Sharing::Shared,
                },
            ),
            Reply::WouldBlock | Reply::Failed { .. } => broken(
                v,
                CameraError::BufferRequestFailed,
            ),
            _ => (v, Action::Ignored),
        },
        Stage::Mapping => match reply {
            Reply::Done => (
                CameraView { stage: Stage::Enqueueing, mapped: true, ..v },
                Action::Call(Request::Enqueue { index: v.buffer.index }),
            ),
            Reply::WouldBlock | Reply::Failed { .. } => broken(v, CameraError::MappingFailed),
            _ => (v, Action::Ignored),
        },
        Stage::Enqueueing => match reply {
            Reply::Done => (
                CameraView { stage: Stage::StartingStream, queued: true, ..v },
                Action::Call(Request::StreamOn),
            ),
            Reply::WouldBlock | Reply::Failed { .. } => broken(
                v,
                CameraError::IoFailure { code: failure.unwrap() },
            ),
            _ => (v, Action::Ignored),
        },
        Stage::StartingStream => match reply {
            Reply::Done => (CameraView { stage: Stage::Streaming, ..v }, Action::Live),
            Reply::WouldBlock | Reply::Failed { .. } => broken(
                v,
                CameraError::IoFailure { code: failure.unwrap() },
            ),
            _ => (v, Action::Ignored),
        },
        Stage::Dequeueing => match reply {
            Reply::Done => (
                CameraView { stage: Stage::Requeueing, queued: false, ..v },
                Action::Call(Request::Enqueue { index: v.buffer.index }),
            ),
            Reply::WouldBlock => if v.wake_outstanding {
                (CameraView { stage: Stage::Streaming, ..v }, Action::Pending)
            } else {
                (
                    CameraView { stage: Stage::Streaming, wake_outstanding: true, ..v },
                    Action::RegisterWake,
                )
            },
            Reply::Failed { code } => release(CameraView { fault: Some(code), ..v }),
            _ => (v, Action::Ignored),
        },
        Stage::Requeueing => match reply {
            Reply::Done => (
                CameraView { stage: Stage::Streaming, queued: true, ..v },
                Action::FrameReady,
            ),
            Reply::WouldBlock | Reply::Failed { .. } => release(
                CameraView { fault: failure, ..v },
            ),
            _ => (v, Action::Ignored),
        },
        Stage::StoppingStream => match reply {
            Reply::Done | Reply::WouldBlock | Reply::Failed { .. } => release(
                CameraView { fault: first_fault(v.fault, reply), ..v },
            ),
            _ => (v, Action::Ignored),
        },
        Stage::Unmapping => match reply {
            Reply::Done | Reply::WouldBlock | Reply::Failed { .. } => (
                CameraView {
                    stage: Stage::Closing,
                    mapped: false,
                    fault: first_fault(v.fault, reply),
                    ..v
                },
                Action::Close,
            ),
            _ => (v, Action::Ignored),
        },
        Stage::Closing => match reply {
            Reply::Done | Reply::WouldBlock | Reply::Failed { .. } => {
                let fault = first_fault(v.fault, reply);
                (
                    CameraView { stage: Stage::Closed, fault, ..v },
                    match fault {
                        Some(code) => Action::Fail(CameraError::IoFailure { code }),
                        None => Action::Released,
                    },
                )
            },
            _ => (v, Action::Ignored),
        },
        _ => (v, Action::Ignored),
    }
}

/// The state after a signal, and the action that answers it.
pub open spec fn next(v: CameraView, signal: Signal) -> (CameraView, Action) {
    match signal {
        Signal::Poll => match v.stage {
            Stage::Created => (
                CameraView { stage: Stage::QueryingCapability, ..v },
                Action::Call(Request::QueryCapability),
            ),
            Stage::Streaming => (
                CameraView { stage: Stage::Dequeueing, ..v },
                Action::Call(Request::Dequeue { index: v.buffer.index }),
            ),
            _ => (v, Action::Ignored),
        },
        Signal::Woken => if v.wake_outstanding {
            (CameraView { wake_outstanding: false, ..v }, Action::Rest)
        } else {
            (v, Action::Ignored)
        },
        Signal::Reply(reply) => next_on_reply(v, reply),
        Signal::Teardown => match v.stage {
            Stage::StartingStream | Stage::Streaming | Stage::Dequeueing | Stage::Requeueing => (
                CameraView { stage: Stage::StoppingStream, ..v },
                Action::Call(Request::StreamOff),
            ),
            Stage::StoppingStream | Stage::Unmapping | Stage::Closing | Stage::Closed => (
                v,
                Action::Ignored,
            ),
            _ => release(v),
        },
    }
}

/// What holds of every state that a device reaches.
pub open spec fn consistent(v: CameraView) -> bool {
    &&& (v.stage == Stage::StartingStream || v.stage == Stage::Streaming || v.stage
        == Stage::Dequeueing) ==> v.queued && v.mapped
    &&& (v.stage == Stage::Enqueueing || v.stage == Stage::Requeueing) ==> !v.queued && v.mapped
    &&& (v.stage == Stage::Created || v.stage == Stage::QueryingCapability || v.stage
        == Stage::SettingFormat || v.stage == Stage::RequestingBuffers || v.stage
        == Stage::QueryingBuffer || v.stage == Stage::Mapping) ==> !v.queued && !v.mapped
    &&& (v.stage == Stage::Unmapping) ==> !v.queued && v.mapped
    &&& (v.stage == Stage::Closing || v.stage == Stage::Closed) ==> !v.queued && !v.mapped
    &&& v.queued ==> v.mapped
    &&& v.wake_outstanding ==> v.stage == Stage::Streaming || v.stage == Stage::Dequeueing
        || v.stage == Stage::Requeueing || v.stage == Stage::Failed || v.stage
        == Stage::StoppingStream || v.stage == Stage::Unmapping || v.stage == Stage::Closing
        || v.stage == Stage::Closed
    &&& v.fault is Some ==> v.stage == Stage::Unmapping || v.stage == Stage::Closing || v.stage
        == Stage::Closed
}

/// Decides what to do with the return value of a system call.
pub fn classify(ret: i32, errno: i32) -> (verdict: Verdict)
    ensures
        verdict == verdict_of(ret, errno),
{
    if ret != -1 {
        Verdict::Settled(Reply::Done)
    } else if errno == EINTR {
        Verdict::Retry
    } else if errno == EAGAIN {
        Verdict::Settled(Reply::WouldBlock)
    } else {
        Verdict::Settled(Reply::Failed { code: errno })
    }
}

impl Request {
    /// The control-call code under which the driver knows this request.
    pub fn code(&self) -> (code: u32)
        ensures
            code == code_of_request(*self),
    {
        match self {
            Request::QueryCapability => VIDIOC_QUERYCAP,
            Request::SetFormat { .. } => VIDIOC_S_FMT,
            Request::RequestBuffers { .. } => VIDIOC_REQBUFS,
            Request::QueryBuffer { .. } => VIDIOC_QUERYBUF,
            Request::Enqueue { .. } => VIDIOC_QBUF,
            Request::Dequeue { .. } => VIDIOC_DQBUF,
            Request::StreamOn => VIDIOC_STREAMON,
            Request::StreamOff => VIDIOC_STREAMOFF,
        }
    }
}

impl Reply {
    /// The error number of a reply that reports a failure.
    pub fn failure(&self) -> (code: Option<i32>)
        ensures
            code == failure_of(*self),
    {
        match self {
            Reply::WouldBlock => Some(EAGAIN),
            Reply::Failed { code } => Some(*code),
            _ => None,
        }
    }
}

impl View for Camera {
    type V = CameraView;

    closed spec fn view(&self) -> CameraView {
        CameraView {
            stage: self.stage,
            format: self.format,
            buffer: self.buffer,
            queued: self.queued,
            mapped: self.mapped,
            wake_outstanding: self.wake_outstanding,
            fault: self.fault,
            frame_width: raster_width(self.frame),
            frame_height: raster_height(self.frame),
        }
    }
}

impl Camera {
    /// A device on a descriptor that was just opened, with the raster that
    /// its frames are meant for; nothing has been asked of the driver.
    pub fn new(frame: FrameBuffer) -> (camera: Camera)
        ensures
            camera@ == fresh(raster_width(frame), raster_height(frame)),
            consistent(camera@),
    {
        Camera {
            frame,
            stage: Stage::Created,
            format: Format { width: 0, height: 0, stride: 0, size: 0 },
            buffer: BufferDescriptor { index: 0, length: 0, offset: 0 },
            queued: false,
            mapped: false,
            wake_outstanding: false,
            fault: None,
        }
    }

    fn fail(&mut self, error: CameraError) -> (action: Action)
        ensures
            (final(self)@, action) == broken(old(self)@, error),
    {
        self.stage = Stage::Failed;
        Action::Fail(error)
    }

    fn release(&mut self) -> (action: Action)
        ensures
            (final(self)@, action) == release(old(self)@),
    {
        self.queued = false;
        if self.mapped {
            self.stage = Stage::Unmapping;
            Action::UnmapBuffer { length: self.buffer.length }
        } else {
            self.stage = Stage::Closing;
            Action::Close
        }
    }

    fn note_fault(&mut self, reply: Reply)
        ensures
            final(self)@ == (CameraView {
                fault: first_fault(old(self)@.fault, reply),
                ..old(self)@
            }),
    {
        if self.fault.is_none() {
            self.fault = reply.failure();
        }
    }

    fn on_reply(&mut self, reply: Reply) -> (action: Action)
        ensures
            (final(self)@, action) == next_on_reply(old(self)@, reply),
    {
        let failure = reply.failure();
        let answers = match reply {
            Reply::Done | Reply::WouldBlock | Reply::Failed { .. } => true,
            _ => false,
        };
        match self.stage {
            Stage::QueryingCapability => match reply {
                Reply::Done => {
                    self.stage = Stage::SettingFormat;
                    Action::Call(
                        Request::SetFormat {
                            pixelformat: V4L2_PIX_FMT_MJPEG,
                            width: 0,
                            height: 0,
                        },
                    )
                },
                Reply::WouldBlock | Reply::Failed { .. } => self.fail(
                    CameraError::DeviceUnavailable,
                ),
                _ => Action::Ignored,
            },
            Stage::SettingFormat => match reply {
                Reply::Format(format) => {
                    self.stage = Stage::RequestingBuffers;
                    self.format = format;
                    Action::Call(Request::RequestBuffers { count: 1 })
                },
                Reply::WouldBlock | Reply::Failed { .. } => self.fail(CameraError::FormatRejected),
                _ => Action::Ignored,
            },
            Stage::RequestingBuffers => match reply {
                Reply::Done => {
                    self.stage = Stage::QueryingBuffer;
                    Action::Call(Request::QueryBuffer { index: 0 })
                },
                Reply::WouldBlock | Reply::Failed { .. } => self.fail(
                    CameraError::BufferRequestFailed,
                ),
                _ => Action::Ignored,
            },
            Stage::QueryingBuffer => match reply {
                Reply::Buffer(buffer) => {
                    self.stage = Stage::Mapping;
                    self.buffer = buffer;
                    Action::MapBuffer {
                        length: buffer.length,
                        offset: buffer.offset,
                        access: Access::ReadWrite,
                        sharing: Sharing::Shared,
                    }
                },
                Reply::WouldBlock | Reply::Failed { .. } => self.fail(
                    CameraError::BufferRequestFailed,
                ),
                _ => Action::Ignored,
            },
            Stage::Mapping => match reply {
                Reply::Done => {
                    self.stage = Stage::Enqueueing;
                    self.mapped = true;
                    Action::Call(Request::Enqueue { index: self.buffer.index })
                },
                Reply::WouldBlock | Reply::Failed { .. } => self.fail(CameraError::MappingFailed),
                _ => Action::Ignored,
            },
            Stage::Enqueueing => match (reply, failure) {
                (Reply::Done, _) => {
                    self.stage = Stage::StartingStream;
                    self.queued = true;
                    Action::Call(Request::StreamOn)
                },
                (_, Some(code)) => self.fail(CameraError::IoFailure { code }),
                _ => Action::Ignored,
            },
            Stage::StartingStream => match (reply, failure) {
                (Reply::Done, _) => {
                    self.stage = Stage::Streaming;
                    Action::Live
                },
                (_, Some(code)) => self.fail(CameraError::IoFailure { code }),
                _ => Action::Ignored,
            },
            Stage::Dequeueing => match reply {
                Reply::Done => {
                    self.stage = Stage::Requeueing;
                    self.queued = false;
                    Action::Call(Request::Enqueue { index: self.buffer.index })
                },
                Reply::WouldBlock => {
                    self.stage = Stage::Streaming;
                    if self.wake_outstanding {
                        Action::Pending
                    } else {
                        self.wake_outstanding = true;
                        Action::RegisterWake
                    }
                },
                Reply::Failed { code } => {
                    self.fault = Some(code);
                    self.release()
                },
                _ => Action::Ignored,
            },
            Stage::Requeueing => match (reply, failure) {
                (Reply::Done, _) => {
                    self.stage = Stage::Streaming;
                    self.queued = true;
                    Action::FrameReady
                },
                (_, Some(code)) => {
                    self.fault = Some(code);
                    self.release()
                },
                _ => Action::Ignored,
            },
            Stage::StoppingStream => if answers {
                self.note_fault(reply);
                self.release()
            } else {
                Action::Ignored
            },
            Stage::Unmapping => if answers {
                self.stage = Stage::Closing;
                self.mapped = false;
                self.note_fault(reply);
                Action::Close
            } else {
                Action::Ignored
            },
            Stage::Closing => if answers {
                self.stage = Stage::Closed;
                self.note_fault(reply);
                match self.fault {
                    Some(code) => Action::Fail(CameraError::IoFailure { code }),
                    None => Action::Released,
                }
            } else {
                Action::Ignored
            },
            _ => Action::Ignored,
        }
    }

    /// Takes a signal from the host and answers with the action to perform
    /// next. The new state and the action are those that [`next`] gives;
    /// a consistent state stays consistent.
    pub fn step(&mut self, signal: Signal) -> (action: Action)
        ensures
            (final(self)@, action) == next(old(self)@, signal),
            consistent(old(self)@) ==> consistent(final(self)@),
    {
        proof {
            lemma_next_consistent(self@, signal);
        }
        match signal {
            Signal::Poll => match self.stage {
                Stage::Created => {
                    self.stage = Stage::QueryingCapability;
                    Action::Call(Request::QueryCapability)
                },
                Stage::Streaming => {
                    self.stage = Stage::Dequeueing;
                    Action::Call(Request::Dequeue { index: self.buffer.index })
                },
                _ => Action::Ignored,
            },
            Signal::Woken => if self.wake_outstanding {
                self.wake_outstanding = false;
                Action::Rest
            } else {
                Action::Ignored
            },
            Signal::Reply(reply) => self.on_reply(reply),
            Signal::Teardown => match self.stage {
                Stage::StartingStream | Stage::Streaming | Stage::Dequeueing | Stage::Requeueing => {
                    self.stage = Stage::StoppingStream;
                    Action::Call(Request::StreamOff)
                },
                Stage::StoppingStream | Stage::Unmapping | Stage::Closing | Stage::Closed => {
                    Action::Ignored
                },
                _ => self.release(),
            },
        }
    }

    /// Where the device stands.
    pub fn stage(&self) -> (stage: Stage)
        ensures
            stage == self@.stage,
    {
        self.stage
    }

    /// What the driver settled on; all zero before the format is negotiated.
    pub fn format(&self) -> (format: Format)
        ensures
            format == self@.format,
    {
        self.format
    }

    /// The buffer as the driver described it; all zero before the query.
    pub fn buffer(&self) -> (buffer: BufferDescriptor)
        ensures
            buffer == self@.buffer,
    {
        self.buffer
    }

    /// The raster that the frames are meant for.
    pub fn frame(&self) -> (frame: &FrameBuffer)
        ensures
            raster_width(*frame) == self@.frame_width,
            raster_height(*frame) == self@.frame_height,
    {
        &self.frame
    }

    /// Whether the driver holds the buffer.
    pub fn is_queued(&self) -> (queued: bool)
        ensures
            queued == self@.queued,
    {
        self.queued
    }

    /// Whether the buffer is mapped into the process.
    pub fn is_mapped(&self) -> (mapped: bool)
        ensures
            mapped == self@.mapped,
    {
        self.mapped
    }

    /// Whether a wake token is registered and has not fired.
    pub fn wake_outstanding(&self) -> (outstanding: bool)
        ensures
            outstanding == self@.wake_outstanding,
    {
        self.wake_outstanding
    }
}

/// Whether the action is a control call or a mapping: something asked of
/// the driver that is no part of giving the descriptor up.
pub open spec fn asks_driver(action: Action) -> bool {
    action is Call || action is MapBuffer
}

/// Whether the reply ends the action it answers, well or badly.
pub open spec fn answers(reply: Reply) -> bool {
    reply is Done || reply is WouldBlock || reply is Failed
}

/// The state after a run of signals, taken one after the other.
pub open spec fn state_after(v: CameraView, signals: Seq<Signal>) -> CameraView
    decreases signals.len(),
{
    if signals.len() == 0 {
        v
    } else {
        next(state_after(v, signals.drop_last()), signals.last()).0
    }
}

/// The action that answers the last of a run of signals.
pub open spec fn last_action(v: CameraView, signals: Seq<Signal>) -> Action
    recommends
        signals.len() > 0,
{
    next(state_after(v, signals.drop_last()), signals.last()).1
}

/// How many signals of the run were answered with an enqueue.
pub open spec fn enqueues(v: CameraView, signals: Seq<Signal>) -> nat
    decreases signals.len(),
{
    if signals.len() == 0 {
        0
    } else {
        let before = enqueues(v, signals.drop_last());
        match last_action(v, signals) {
            Action::Call(Request::Enqueue { .. }) => before + 1,
            _ => before,
        }
    }
}

/// How many signals of the run were answered with a completed frame.
pub open spec fn frames(v: CameraView, signals: Seq<Signal>) -> nat
    decreases signals.len(),
{
    if signals.len() == 0 {
        0
    } else {
        let before = frames(v, signals.drop_last());
        if last_action(v, signals) == Action::FrameReady {
            before + 1
        } else {
            before
        }
    }
}

/// How many signals of the run were answered with the closing of the
/// descriptor.
pub open spec fn closes(v: CameraView, signals: Seq<Signal>) -> nat
    decreases signals.len(),
{
    if signals.len() == 0 {
        0
    } else {
        let before = closes(v, signals.drop_last());
        if last_action(v, signals) == Action::Close {
            before + 1
        } else {
            before
        }
    }
}

/// How many signals of the run were answered with the registration of a
/// wake token.
pub open spec fn registrations(v: CameraView, signals: Seq<Signal>) -> nat
    decreases signals.len(),
{
    if signals.len() == 0 {
        0
    } else {
        let before = registrations(v, signals.drop_last());
        if last_action(v, signals) == Action::RegisterWake {
            before + 1
        } else {
            before
        }
    }
}

/// How many signals of the run report that the wake token has fired while
/// one was outstanding.
pub open spec fn wakes(v: CameraView, signals: Seq<Signal>) -> nat
    decreases signals.len(),
{
    if signals.len() == 0 {
        0
    } else {
        let before = wakes(v, signals.drop_last());
        if last_action(v, signals) == Action::Rest {
            before + 1
        } else {
            before
        }
    }
}

/// Every step leads from a consistent state to a consistent state.
pub proof fn lemma_next_consistent(v: CameraView, signal: Signal)
    ensures
        consistent(v) ==> consistent(next(v, signal).0),
{
}

/// Setting a device up: the capability query, the format, the buffer
/// request, the buffer query, the mapping of what the query described, the
/// first enqueue and the start of the stream follow each other in this
/// order, each on the success of the one before. The device then streams
/// with the format and the buffer that the driver reported, the buffer
/// mapped and with the driver.
pub proof fn lemma_setup_order(v: CameraView, format: Format, buffer: BufferDescriptor)
    requires
        consistent(v),
        v.stage == Stage::Created,
    ensures
        ({
            let s1 = next(v, Signal::Poll);
            let s2 = next(s1.0, Signal::Reply(Reply::Done));
            let s3 = next(s2.0, Signal::Reply(Reply::Format(format)));
            let s4 = next(s3.0, Signal::Reply(Reply::Done));
            let s5 = next(s4.0, Signal::Reply(Reply::Buffer(buffer)));
            let s6 = next(s5.0, Signal::Reply(Reply::Done));
            let s7 = next(s6.0, Signal::Reply(Reply::Done));
            let s8 = next(s7.0, Signal::Reply(Reply::Done));
            &&& s1.1 == Action::Call(Request::QueryCapability)
            &&& s2.1 == Action::Call(
                Request::SetFormat { pixelformat: V4L2_PIX_FMT_MJPEG, width: 0, height: 0 },
            )
            &&& s3.1 == Action::Call(Request::RequestBuffers { count: 1 })
            &&& s4.1 == Action::Call(Request::QueryBuffer { index: 0 })
            &&& s5.1 == Action::MapBuffer {
                length: buffer.length,
                offset: buffer.offset,
                access: Access::ReadWrite,
                sharing: Sharing::Shared,
            }
            &&& s6.1 == Action::Call(Request::Enqueue { index: buffer.index })
            &&& s7.1 == Action::Call(Request::StreamOn)
            &&& s8.1 == Action::Live
            &&& s8.0 == CameraView {
                stage: Stage::Streaming,
                format,
                buffer,
                queued: true,
                mapped: true,
                ..v
            }
        }),
{
}

/// A completed frame is signalled only in answer to the enqueue that
/// follows a dequeue, and leaves the buffer with the driver. An enqueue is
/// asked for only when the buffer was just mapped or just dequeued, names
/// the index that the buffer query gave, and finds the buffer with the
/// process; while that enqueue is under way no other is asked for.
pub proof fn lemma_buffer_cycle(v: CameraView, signal: Signal)
    requires
        consistent(v),
    ensures
        next(v, signal).1 == Action::FrameReady ==> v.stage == Stage::Requeueing && signal
            == Signal::Reply(Reply::Done) && next(v, signal).0.stage == Stage::Streaming && next(
            v,
            signal,
        ).0.queued,
        next(v, signal).1 matches Action::Call(Request::Enqueue { index }) ==> index
            == v.buffer.index && signal == Signal::Reply(Reply::Done) && !next(v, signal).0.queued
            && ((v.stage == Stage::Dequeueing && v.queued && next(v, signal).0.stage
            == Stage::Requeueing) || (v.stage == Stage::Mapping && next(v, signal).0.stage
            == Stage::Enqueueing)),
        v.stage == Stage::Requeueing || v.stage == Stage::Enqueueing ==> !(next(v, signal).1 matches Action::Call(
            Request::Enqueue { .. },
        )),
        !v.queued && next(v, signal).0.queued ==> (v.stage == Stage::Requeueing || v.stage
            == Stage::Enqueueing) && signal == Signal::Reply(Reply::Done),
        v.stage != Stage::QueryingBuffer ==> next(v, signal).0.buffer == v.buffer,
{
}

/// From a streaming device on, every completed frame has had exactly one
/// enqueue of its own: after any run of signals the enqueues asked for are
/// as many as the frames signalled, or one more while the last enqueue has
/// not yet been answered well.
pub proof fn lemma_one_enqueue_per_frame(v: CameraView, signals: Seq<Signal>)
    requires
        consistent(v),
        v.stage == Stage::Streaming,
    ensures
        consistent(state_after(v, signals)),
        frames(v, signals) <= enqueues(v, signals) <= frames(v, signals) + 1,
        state_after(v, signals).stage == Stage::Streaming || state_after(v, signals).stage
            == Stage::Dequeueing ==> enqueues(v, signals) == frames(v, signals),
        state_after(v, signals).stage == Stage::Requeueing ==> enqueues(v, signals) == frames(
            v,
            signals,
        ) + 1,
        state_after(v, signals).stage != Stage::Created && state_after(v, signals).stage
            != Stage::QueryingCapability && state_after(v, signals).stage != Stage::SettingFormat
            && state_after(v, signals).stage != Stage::RequestingBuffers && state_after(
            v,
            signals,
        ).stage != Stage::QueryingBuffer && state_after(v, signals).stage != Stage::Mapping
            && state_after(v, signals).stage != Stage::Enqueueing && state_after(v, signals).stage
            != Stage::StartingStream,
    decreases signals.len(),
{
    if signals.len() > 0 {
        lemma_one_enqueue_per_frame(v, signals.drop_last());
        lemma_next_consistent(state_after(v, signals.drop_last()), signals.last());
    }
}

/// A refused capability query fails the device as unavailable, and nothing
/// is asked of the driver after it, whatever signals follow.
pub proof fn lemma_rejected_capability(v: CameraView, reply: Reply, signals: Seq<Signal>)
    requires
        v.stage == Stage::QueryingCapability,
        !v.mapped,
        failure_of(reply) is Some,
    ensures
        next(v, Signal::Reply(reply)).1 == Action::Fail(CameraError::DeviceUnavailable),
        next(v, Signal::Reply(reply)).0.stage == Stage::Failed,
        signals.len() > 0 ==> !asks_driver(
            last_action(next(v, Signal::Reply(reply)).0, signals),
        ),
        !asks_driver(Action::Fail(CameraError::DeviceUnavailable)),
{
    let failed = next(v, Signal::Reply(reply)).0;
    lemma_given_up_stays(failed, signals);
    if signals.len() > 0 {
        lemma_given_up_stays(failed, signals.drop_last());
    }
}

/// Whether the device has failed or is being released with nothing mapped.
pub open spec fn given_up(v: CameraView) -> bool {
    !v.mapped && (v.stage == Stage::Failed || v.stage == Stage::Closing || v.stage
        == Stage::Closed)
}

/// A device that has given up stays so, and asks nothing of the driver.
pub proof fn lemma_given_up_stays(v: CameraView, signals: Seq<Signal>)
    requires
        given_up(v),
    ensures
        given_up(state_after(v, signals)),
        signals.len() > 0 ==> !asks_driver(last_action(v, signals)),
    decreases signals.len(),
{
    if signals.len() > 0 {
        lemma_given_up_stays(v, signals.drop_last());
    }
}

/// A wake token is registered only when none is outstanding, and only in
/// answer to a dequeue that would have had to wait. While one is
/// outstanding no signal but its firing ends that, and none registers
/// another. Whenever the device answers "pending", one is outstanding.
pub proof fn lemma_single_wake(v: CameraView, signal: Signal)
    ensures
        next(v, signal).1 == Action::RegisterWake ==> !v.wake_outstanding && next(
            v,
            signal,
        ).0.wake_outstanding && v.stage == Stage::Dequeueing && signal == Signal::Reply(
            Reply::WouldBlock,
        ),
        v.wake_outstanding && signal != Signal::Woken ==> next(v, signal).0.wake_outstanding
            && next(v, signal).1 != Action::RegisterWake,
        v.wake_outstanding && signal == Signal::Woken ==> !next(v, signal).0.wake_outstanding
            && next(v, signal).1 == Action::Rest,
        next(v, signal).1 == Action::Pending || next(v, signal).1 == Action::RegisterWake ==> next(
            v,
            signal,
        ).0.wake_outstanding && next(v, signal).0.stage == Stage::Streaming,
{
}

/// Over any run of signals, the wake tokens registered are as many as
/// those that fired, or one more while one is outstanding: never two at a
/// time.
pub proof fn lemma_wake_count(v: CameraView, signals: Seq<Signal>)
    requires
        !v.wake_outstanding,
    ensures
        registrations(v, signals) == wakes(v, signals) + (if state_after(
            v,
            signals,
        ).wake_outstanding {
            1nat
        } else {
            0nat
        }),
    decreases signals.len(),
{
    if signals.len() > 0 {
        lemma_wake_count(v, signals.drop_last());
        lemma_single_wake(state_after(v, signals.drop_last()), signals.last());
    }
}

/// The release of a streaming device: streaming is switched off, the
/// buffer is unmapped with the length it was mapped with, the descriptor is
/// closed, each step following the reply to the one before whatever that
/// reply says. The device ends closed, and reports success exactly when all
/// three steps succeeded, else the error number of the first that failed.
pub proof fn lemma_release_order(v: CameraView, first: Reply, second: Reply, third: Reply)
    requires
        consistent(v),
        v.stage == Stage::Streaming,
        answers(first),
        answers(second),
        answers(third),
    ensures
        ({
            let s1 = next(v, Signal::Teardown);
            let s2 = next(s1.0, Signal::Reply(first));
            let s3 = next(s2.0, Signal::Reply(second));
            let s4 = next(s3.0, Signal::Reply(third));
            &&& s1.1 == Action::Call(Request::StreamOff)
            &&& s2.1 == Action::UnmapBuffer { length: v.buffer.length }
            &&& s3.1 == Action::Close
            &&& s4.0.stage == Stage::Closed
            &&& !s4.0.mapped
            &&& !s4.0.queued
            &&& s4.1 == match first_fault(first_fault(failure_of(first), second), third) {
                Some(code) => Action::Fail(CameraError::IoFailure { code }),
                None => Action::Released,
            }
        }),
{
}

/// A dequeue that fails for another reason than having to wait ends the
/// device: the buffer is unmapped, the descriptor is closed, and then the
/// failure is reported with the error number of the dequeue, whatever the
/// two steps of the release reply.
pub proof fn lemma_failed_dequeue_closes(v: CameraView, code: i32, second: Reply, third: Reply)
    requires
        consistent(v),
        v.stage == Stage::Dequeueing,
        answers(second),
        answers(third),
    ensures
        ({
            let s1 = next(v, Signal::Reply(Reply::Failed { code }));
            let s2 = next(s1.0, Signal::Reply(second));
            let s3 = next(s2.0, Signal::Reply(third));
            &&& s1.1 == Action::UnmapBuffer { length: v.buffer.length }
            &&& s2.1 == Action::Close
            &&& s3.1 == Action::Fail(CameraError::IoFailure { code })
            &&& s3.0.stage == Stage::Closed
        }),
{
}

/// A closed device stays closed: it asks for no call, no mapping and no
/// second closing, whatever it is told.
pub proof fn lemma_closed_is_final(v: CameraView, signal: Signal)
    requires
        v.stage == Stage::Closed,
    ensures
        next(v, signal).0.stage == Stage::Closed,
        next(v, signal).1 == Action::Ignored || next(v, signal).1 == Action::Rest,
{
}

/// The descriptor is closed at most once: over any run of signals from a
/// consistent state that is not yet closing, one closing is asked for if
/// the device has reached the closing or the closed stage, and none
/// otherwise.
pub proof fn lemma_closed_once(v: CameraView, signals: Seq<Signal>)
    requires
        consistent(v),
        v.stage != Stage::Closing,
        v.stage != Stage::Closed,
    ensures
        closes(v, signals) == (if state_after(v, signals).stage == Stage::Closing || state_after(
            v,
            signals,
        ).stage == Stage::Closed {
            1nat
        } else {
            0nat
        }),
    decreases signals.len(),
{
    if signals.len() > 0 {
        lemma_closed_once(v, signals.drop_last());
    }
}


} // verus!
