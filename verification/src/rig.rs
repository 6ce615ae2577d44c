//! The watcher of the device directory: which nodes are open, which to
//! open next, and what a change record does to that.
//!
//! Like the capture device, a [`Rig`] makes no system call: each call of
//! [`Rig::step`] takes a signal from the host program and answers with the
//! one action to perform next.

use vstd::prelude::*;
use crate::camera::{Camera, CameraError, CameraView, Stage, fresh};
use crate::frame::{DEFAULT_HEIGHT, DEFAULT_WIDTH, FrameBuffer};
use crate::notice::{ADDED, ByteOrder, REMOVED, notice_of, parse_record, reports_removal};
use crate::watch::{WatchedSet, copy_bytes, device_path, is_video_name, path_of, video_name};

verus! {

/// What a rig reports to its owner.
pub enum Event {
    /// A camera was found, set up and is streaming.
    Connect(Box<Camera>),
}

/// Where a rig stands. A stage named after an action waits for its result.
#[derive(Clone, Copy, Debug, PartialEq, Eq, Structural)]
pub enum RigStage {
    Idle,
    Reading,
    Listing,
    Opening,
    Initialising,
    Closed,
}

/// What the host tells the rig.
pub enum RigSignal {
    /// The scheduler polls the rig.
    Poll,
    /// The wake token that was registered has fired.
    Woken,
    /// A change record was read; these are its bytes.
    Record(Vec<u8>),
    /// No change record is waiting.
    NoRecord,
    /// The names in the device directory, in the order of the listing.
    Entries(Vec<Vec<u8>>),
    /// The node was opened.
    Opened,
    /// The node may not be opened by this user.
    Denied,
    /// The node could not be opened for another reason.
    Unopenable,
    /// The camera on the node that was opened has been set up.
    Ready(Camera),
    /// The camera on the node that was opened could not be set up.
    Broken(CameraError),
    /// The rig is to be released.
    Teardown,
}

/// How a node is opened.
#[derive(Clone, Copy, Debug, PartialEq, Eq, Structural)]
pub struct OpenMode {
    pub read: bool,
    pub append: bool,
    /// Calls on the descriptor return at once where they would have to
    /// wait.
    pub nonblocking: bool,
}

/// What the host is to do next.
pub enum RigAction {
    /// Read one change record of the watch on the device directory without
    /// waiting, and report it or its lack.
    ReadRecord,
    /// List the device directory and report the names.
    ListDirectory,
    /// Open the node at this path in this mode, and report the result.
    Open { path: Vec<u8>, mode: OpenMode },
    /// Set this camera, new and with a raster of the default size, up on
    /// the descriptor just opened, and report the result.
    Initialise(Camera),
    /// Hand this event to the owner.
    Yield(Event),
    /// The camera handed in is not wanted: it is not streaming, or none was
    /// asked for. Nothing has changed.
    Refuse(Camera),
    /// Register one wake token for the notification descriptor and return
    /// "pending".
    RegisterWake,
    /// Return "pending"; the token registered earlier is still outstanding.
    Pending,
    /// Nothing to do until the next poll.
    Rest,
    /// Close the notification descriptor.
    Close,
    /// Setting the camera up has failed with this error.
    Fail(CameraError),
    /// The signal does not fit the state; nothing has changed.
    Ignored,
}

/// The mathematical value of a signal.
pub enum RigSignalView {
    Poll,
    Woken,
    Record(Seq<u8>),
    NoRecord,
    Entries(Seq<Seq<u8>>),
    Opened,
    Denied,
    Unopenable,
    Ready(CameraView),
    Broken(CameraError),
    Teardown,
}

/// The mathematical value of an action.
pub enum RigActionView {
    ReadRecord,
    ListDirectory,
    Open { path: Seq<u8>, mode: OpenMode },
    Initialise(CameraView),
    Yield(CameraView),
    Refuse(CameraView),
    RegisterWake,
    Pending,
    Rest,
    Close,
    Fail(CameraError),
    Ignored,
}

/// The mathematical state of a rig.
pub struct RigView {
    pub stage: RigStage,
    /// The names of the nodes that are open.
    pub connected: Set<Seq<u8>>,
    /// The directory as it was last listed.
    pub listing: Seq<Seq<u8>>,
    /// How far the listing has been gone through.
    pub cursor: int,
    /// Whether no node of the last scan was denied.
    pub all_open: bool,
    /// A wake token is registered and has not fired.
    pub wake_outstanding: bool,
    /// The byte order of the change records.
    pub order: ByteOrder,
}

/// All cameras that are connected to the system.
pub struct Rig {
    stage: RigStage,
    connected: WatchedSet,
    listing: Vec<Vec<u8>>,
    cursor: usize,
    all_open: bool,
    wake_outstanding: bool,
    order: ByteOrder,
}

/// The byte strings that a vector of names holds.
pub open spec fn names_of(names: Seq<Vec<u8>>) -> Seq<Seq<u8>> {
    Seq::new(names.len(), |i: int| names[i]@)
}

impl View for RigSignal {
    type V = RigSignalView;

    open spec fn view(&self) -> RigSignalView {
        match *self {
            RigSignal::Poll => RigSignalView::Poll,
            RigSignal::Woken => RigSignalView::Woken,
            RigSignal::Record(bytes) => RigSignalView::Record(bytes@),
            RigSignal::NoRecord => RigSignalView::NoRecord,
            RigSignal::Entries(names) => RigSignalView::Entries(names_of(names@)),
            RigSignal::Opened => RigSignalView::Opened,
            RigSignal::Denied => RigSignalView::Denied,
            RigSignal::Unopenable => RigSignalView::Unopenable,
            RigSignal::Ready(camera) => RigSignalView::Ready(camera@),
            RigSignal::Broken(error) => RigSignalView::Broken(error),
            RigSignal::Teardown => RigSignalView::Teardown,
        }
    }
}

impl View for RigAction {
    type V = RigActionView;

    open spec fn view(&self) -> RigActionView {
        match *self {
            RigAction::ReadRecord => RigActionView::ReadRecord,
            RigAction::ListDirectory => RigActionView::ListDirectory,
            RigAction::Open { path, mode } => RigActionView::Open { path: path@, mode },
            RigAction::Initialise(camera) => RigActionView::Initialise(camera@),
            RigAction::Yield(Event::Connect(camera)) => RigActionView::Yield(camera@),
            RigAction::Refuse(camera) => RigActionView::Refuse(camera@),
            RigAction::RegisterWake => RigActionView::RegisterWake,
            RigAction::Pending => RigActionView::Pending,
            RigAction::Rest => RigActionView::Rest,
            RigAction::Close => RigActionView::Close,
            RigAction::Fail(error) => RigActionView::Fail(error),
            RigAction::Ignored => RigActionView::Ignored,
        }
    }
}

impl View for Rig {
    type V = RigView;

    closed spec fn view(&self) -> RigView {
        RigView {
            stage: self.stage,
            connected: self.connected@,
            listing: names_of(self.listing@),
            cursor: self.cursor as int,
            all_open: self.all_open,
            wake_outstanding: self.wake_outstanding,
            order: self.order,
        }
    }
}

/// The mode in which a device node is opened: for reading and appending,
/// without waiting.
pub open spec fn node_mode() -> OpenMode {
    OpenMode { read: true, append: true, nonblocking: true }
}

/// The state of a rig that has not been polled yet.
pub open spec fn rig_fresh(order: ByteOrder) -> RigView {
    RigView {
        stage: RigStage::Idle,
        connected: Set::empty(),
        listing: Seq::empty(),
        cursor: 0,
        all_open: true,
        wake_outstanding: false,
        order,
    }
}

/// The cursor lies within the listing, and on the entry at hand while a
/// node is being opened or set up.
pub open spec fn coherent(v: RigView) -> bool {
    &&& 0 <= v.cursor <= v.listing.len()
    &&& (v.stage == RigStage::Opening || v.stage == RigStage::Initialising) ==> v.cursor
        < v.listing.len()
}

/// The first position from `from` on whose entry is a video node that is
/// not open, or the length of the listing if there is none.
pub open spec fn candidate(connected: Set<Seq<u8>>, listing: Seq<Seq<u8>>, from: int) -> int
    decreases listing.len() - from,
{
    if from >= listing.len() {
        listing.len() as int
    } else if is_video_name(listing[from]) && !connected.contains(listing[from]) {
        from
    } else {
        candidate(connected, listing, from + 1)
    }
}

/// The open names after a change record: a record that reports the removal
/// of a video node takes that node's name out; any other changes nothing.
pub open spec fn after_record(connected: Set<Seq<u8>>, bytes: Seq<u8>, order: ByteOrder) -> Set<
    Seq<u8>,
> {
    match notice_of(bytes, order) {
        Some(notice) => if reports_removal(notice.mask) && is_video_name(notice.name) {
            connected.remove(notice.name)
        } else {
            connected
        },
        None => connected,
    }
}

/// The rig has nothing to do: it answers "pending", and registers a wake
/// token unless one is outstanding.
pub open spec fn settle(v: RigView) -> (RigView, RigActionView) {
    if v.wake_outstanding {
        (RigView { stage: RigStage::Idle, ..v }, RigActionView::Pending)
    } else {
        (
            RigView { stage: RigStage::Idle, wake_outstanding: true, ..v },
            RigActionView::RegisterWake,
        )
    }
}

/// The scan goes on from `from`: the next video node that is not open is
/// to be opened; if there is none, the rig settles.
pub open spec fn scan_from(v: RigView, from: int) -> (RigView, RigActionView) {
    let at = candidate(v.connected, v.listing, from);
    if at < v.listing.len() {
        (
            RigView { stage: RigStage::Opening, cursor: at, ..v },
            RigActionView::Open { path: device_path(v.listing[at]), mode: node_mode() },
        )
    } else {
        settle(RigView { cursor: v.listing.len() as int, ..v })
    }
}

/// The state after a signal, and the action that answers it.
pub open spec fn rig_next(v: RigView, signal: RigSignalView) -> (RigView, RigActionView) {
    match signal {
        RigSignalView::Poll => if v.stage == RigStage::Idle {
            (RigView { stage: RigStage::Reading, ..v }, RigActionView::ReadRecord)
        } else {
            (v, RigActionView::Ignored)
        },
        RigSignalView::Woken => if v.wake_outstanding {
            (RigView { wake_outstanding: false, ..v }, RigActionView::Rest)
        } else {
            (v, RigActionView::Ignored)
        },
        RigSignalView::Record(bytes) => if v.stage == RigStage::Reading {
            (
                RigView { connected: after_record(v.connected, bytes, v.order), ..v },
                RigActionView::ReadRecord,
            )
        } else {
            (v, RigActionView::Ignored)
        },
        RigSignalView::NoRecord => if v.stage == RigStage::Reading {
            (
                RigView { stage: RigStage::Listing, all_open: true, ..v },
                RigActionView::ListDirectory,
            )
        } else {
            (v, RigActionView::Ignored)
        },
        RigSignalView::Entries(names) => if v.stage == RigStage::Listing {
            scan_from(RigView { listing: names, cursor: 0, ..v }, 0)
        } else {
            (v, RigActionView::Ignored)
        },
        RigSignalView::Opened => if v.stage == RigStage::Opening {
            (
                RigView {
                    stage: RigStage::Initialising,
                    connected: v.connected.insert(v.listing[v.cursor]),
                    ..v
                },
                RigActionView::Initialise(fresh(DEFAULT_WIDTH, DEFAULT_HEIGHT)),
            )
        } else {
            (v, RigActionView::Ignored)
        },
        RigSignalView::Denied => if v.stage == RigStage::Opening {
            scan_from(RigView { all_open: false, ..v }, v.cursor + 1)
        } else {
            (v, RigActionView::Ignored)
        },
        RigSignalView::Unopenable => if v.stage == RigStage::Opening {
            scan_from(v, v.cursor + 1)
        } else {
            (v, RigActionView::Ignored)
        },
        RigSignalView::Ready(camera) => if v.stage == RigStage::Initialising && camera.stage
            == Stage::Streaming {
            (RigView { stage: RigStage::Idle, ..v }, RigActionView::Yield(camera))
        } else {
            (v, RigActionView::Refuse(camera))
        },
        RigSignalView::Broken(error) => if v.stage == RigStage::Initialising {
            (
                RigView {
                    stage: RigStage::Idle,
                    connected: v.connected.remove(v.listing[v.cursor]),
                    ..v
                },
                RigActionView::Fail(error),
            )
        } else {
            (v, RigActionView::Ignored)
        },
        RigSignalView::Teardown => if v.stage == RigStage::Closed {
            (v, RigActionView::Ignored)
        } else {
            (RigView { stage: RigStage::Closed, ..v }, RigActionView::Close)
        },
    }
}

/// The mask of the changes that a rig is to be told of: entries that come
/// and entries that go.
pub fn watch_mask() -> (mask: u32)
    ensures
        mask == ADDED + REMOVED,
{
    ADDED + REMOVED
}

impl Rig {
    /// The set of open names keeps each once, and the state is coherent.
    pub closed spec fn wf(&self) -> bool {
        self.connected.wf() && coherent(self@)
    }

    /// A rig that watches for change records in the given byte order and
    /// has no node open.
    pub fn new(order: ByteOrder) -> (rig: Rig)
        ensures
            rig.wf(),
            rig@ == rig_fresh(order),
    {
        let rig = Rig {
            stage: RigStage::Idle,
            connected: WatchedSet::new(),
            listing: Vec::new(),
            cursor: 0,
            all_open: true,
            wake_outstanding: false,
            order,
        };
        assert(names_of(rig.listing@) =~= Seq::<Seq<u8>>::empty());
        rig
    }

    fn settle(&mut self) -> (action: RigAction)
        ensures
            (final(self)@, action@) == settle(old(self)@),
            final(self).connected == old(self).connected,
    {
        self.stage = RigStage::Idle;
        if self.wake_outstanding {
            RigAction::Pending
        } else {
            self.wake_outstanding = true;
            RigAction::RegisterWake
        }
    }

    fn scan_from(&mut self, from: usize) -> (action: RigAction)
        requires
            from <= old(self).listing@.len(),
            old(self).connected.wf(),
        ensures
            (final(self)@, action@) == scan_from(old(self)@, from as int),
            final(self).wf(),
    {
        let ghost names = names_of(self.listing@);
        let mut i: usize = from;
        while i < self.listing.len()
            invariant
                from <= i <= self.listing@.len(),
                *self == *old(self),
                names == names_of(self.listing@),
                names.len() == self.listing@.len(),
                self.connected.wf(),
                candidate(self.connected@, names, from as int) == candidate(
                    self.connected@,
                    names,
                    i as int,
                ),
            decreases self.listing@.len() - i,
        {
            let name = self.listing[i].as_slice();
            assert(name@ == names[i as int]);
            if video_name(name) && !self.connected.contains(name) {
                let path = path_of(name);
                self.stage = RigStage::Opening;
                self.cursor = i;
                return RigAction::Open {
                    path,
                    mode: OpenMode { read: true, append: true, nonblocking: true },
                };
            }
            i += 1;
        }
        self.cursor = self.listing.len();
        self.settle()
    }

    fn on_record(&mut self, bytes: &[u8])
        requires
            old(self).wf(),
        ensures
            final(self).wf(),
            final(self)@ == (RigView {
                connected: after_record(old(self)@.connected, bytes@, old(self)@.order),
                ..old(self)@
            }),
    {
        match parse_record(bytes, self.order) {
            Some(notice) => {
                if notice.is_removal() && video_name(notice.name.as_slice()) {
                    self.connected.remove(notice.name.as_slice());
                }
            },
            None => {},
        }
    }

    /// Takes a signal from the host and answers with the action to perform
    /// next. The new state and the action are those that [`rig_next`]
    /// gives.
    pub fn step(&mut self, signal: RigSignal) -> (action: RigAction)
        requires
            old(self).wf(),
        ensures
            final(self).wf(),
            (final(self)@, action@) == rig_next(old(self)@, signal@),
    {
        assert(names_of(self.listing@).len() == self.listing.len());
        match signal {
            RigSignal::Poll => if self.stage == RigStage::Idle {
                self.stage = RigStage::Reading;
                RigAction::ReadRecord
            } else {
                RigAction::Ignored
            },
            RigSignal::Woken => if self.wake_outstanding {
                self.wake_outstanding = false;
                RigAction::Rest
            } else {
                RigAction::Ignored
            },
            RigSignal::Record(bytes) => if self.stage == RigStage::Reading {
                self.on_record(bytes.as_slice());
                RigAction::ReadRecord
            } else {
                RigAction::Ignored
            },
            RigSignal::NoRecord => if self.stage == RigStage::Reading {
                self.stage = RigStage::Listing;
                self.all_open = true;
                RigAction::ListDirectory
            } else {
                RigAction::Ignored
            },
            RigSignal::Entries(names) => if self.stage == RigStage::Listing {
                self.listing = names;
                self.cursor = 0;
                self.scan_from(0)
            } else {
                RigAction::Ignored
            },
            RigSignal::Opened => if self.stage == RigStage::Opening {
                let name = copy_bytes(self.listing[self.cursor].as_slice());
                self.connected.insert(name);
                self.stage = RigStage::Initialising;
                RigAction::Initialise(Camera::new(FrameBuffer::standard()))
            } else {
                RigAction::Ignored
            },
            RigSignal::Denied => if self.stage == RigStage::Opening {
                let from: usize = self.cursor + 1;
                self.all_open = false;
                self.scan_from(from)
            } else {
                RigAction::Ignored
            },
            RigSignal::Unopenable => if self.stage == RigStage::Opening {
                let from: usize = self.cursor + 1;
                self.scan_from(from)
            } else {
                RigAction::Ignored
            },
            RigSignal::Ready(camera) => if self.stage == RigStage::Initialising && camera.stage()
                == Stage::Streaming {
                self.stage = RigStage::Idle;
                RigAction::Yield(Event::Connect(Box::new(camera)))
            } else {
                RigAction::Refuse(camera)
            },
            RigSignal::Broken(error) => if self.stage == RigStage::Initialising {
                let name = copy_bytes(self.listing[self.cursor].as_slice());
                self.connected.remove(name.as_slice());
                self.stage = RigStage::Idle;
                RigAction::Fail(error)
            } else {
                RigAction::Ignored
            },
            RigSignal::Teardown => if self.stage == RigStage::Closed {
                RigAction::Ignored
            } else {
                self.stage = RigStage::Closed;
                RigAction::Close
            },
        }
    }

    /// Where the rig stands.
    pub fn stage(&self) -> (stage: RigStage)
        ensures
            stage == self@.stage,
    {
        self.stage
    }

    /// Whether the node of this name is open.
    pub fn is_connected(&self, name: &[u8]) -> (connected: bool)
        ensures
            connected == self@.connected.contains(name@),
    {
        self.connected.contains(name)
    }

    /// Whether no node of the last scan was denied to this user.
    pub fn all_open(&self) -> (all_open: bool)
        ensures
            all_open == self@.all_open,
    {
        self.all_open
    }

    /// Whether a wake token is registered and has not fired.
    pub fn wake_outstanding(&self) -> (outstanding: bool)
        ensures
            outstanding == self@.wake_outstanding,
    {
        self.wake_outstanding
    }
}

/// The candidate lies between the start and the end of the listing; short
/// of the end it is a video node that is not open, and no entry before it
/// is one.
pub proof fn lemma_candidate(connected: Set<Seq<u8>>, listing: Seq<Seq<u8>>, from: int)
    requires
        0 <= from <= listing.len(),
    ensures
        from <= candidate(connected, listing, from) <= listing.len(),
        candidate(connected, listing, from) < listing.len() ==> is_video_name(
            listing[candidate(connected, listing, from)],
        ) && !connected.contains(listing[candidate(connected, listing, from)]),
        forall|i: int|
            from <= i < candidate(connected, listing, from) ==> !(is_video_name(
                #[trigger] listing[i],
            ) && !connected.contains(listing[i])),
    decreases listing.len() - from,
{
    if from < listing.len() && !(is_video_name(listing[from]) && !connected.contains(
        listing[from],
    )) {
        lemma_candidate(connected, listing, from + 1);
    }
}

/// A directory whose video nodes are all open, as they are after a scan
/// that opened each of them and no removal since, gives nothing to do:
/// scanning it opens no node, yields no camera and leaves the open names as
/// they were; the rig answers "pending".
pub proof fn lemma_rescan_finds_nothing(v: RigView, listing: Seq<Seq<u8>>)
    requires
        v.stage == RigStage::Listing,
        forall|i: int|
            0 <= i < listing.len() && is_video_name(#[trigger] listing[i]) ==> v.connected.contains(
                listing[i],
            ),
    ensures
        rig_next(v, RigSignalView::Entries(listing)).0.connected == v.connected,
        rig_next(v, RigSignalView::Entries(listing)).0.stage == RigStage::Idle,
        rig_next(v, RigSignalView::Entries(listing)).1 == RigActionView::Pending || rig_next(
            v,
            RigSignalView::Entries(listing),
        ).1 == RigActionView::RegisterWake,
{
    lemma_candidate(v.connected, listing, 0);
}

/// A node is opened only if it is a video node that is not open, and once
/// it is opened its name is among the open names, so that no later scan
/// offers it again.
pub proof fn lemma_open_once(v: RigView, signal: RigSignalView)
    requires
        coherent(v),
    ensures
        rig_next(v, signal).1 matches RigActionView::Open { path, mode } ==> {
            let after = rig_next(v, signal).0;
            &&& mode == node_mode()
            &&& after.stage == RigStage::Opening
            &&& 0 <= after.cursor < after.listing.len()
            &&& path == device_path(after.listing[after.cursor])
            &&& is_video_name(after.listing[after.cursor])
            &&& !after.connected.contains(after.listing[after.cursor])
            &&& after.connected == v.connected
        },
        v.stage == RigStage::Opening && signal == RigSignalView::Opened ==> rig_next(
            v,
            signal,
        ).0.connected.contains(v.listing[v.cursor]) && candidate(
            rig_next(v, signal).0.connected,
            v.listing,
            v.cursor,
        ) != v.cursor,
        coherent(rig_next(v, signal).0),
{
    match signal {
        RigSignalView::Entries(names) => {
            lemma_candidate(v.connected, names, 0);
        },
        RigSignalView::Denied | RigSignalView::Unopenable => {
            if v.stage == RigStage::Opening {
                lemma_candidate(v.connected, v.listing, v.cursor + 1);
            }
        },
        RigSignalView::Opened => {
            if v.stage == RigStage::Opening {
                lemma_candidate(v.connected.insert(v.listing[v.cursor]), v.listing, v.cursor);
            }
        },
        _ => {},
    }
}

/// The open names change in three ways only: a node that was opened comes
/// in, a node whose camera could not be set up goes out, and a change
/// record takes out what it reports removed. Any other signal leaves them
/// as they are.
pub proof fn lemma_connected_changes(v: RigView, signal: RigSignalView)
    ensures
        rig_next(v, signal).0.connected == (match signal {
            RigSignalView::Opened => if v.stage == RigStage::Opening {
                v.connected.insert(v.listing[v.cursor])
            } else {
                v.connected
            },
            RigSignalView::Broken(_) => if v.stage == RigStage::Initialising {
                v.connected.remove(v.listing[v.cursor])
            } else {
                v.connected
            },
            RigSignalView::Record(bytes) => if v.stage == RigStage::Reading {
                after_record(v.connected, bytes, v.order)
            } else {
                v.connected
            },
            _ => v.connected,
        }),
{
}

/// A change record touches no name but its own: every other name is open
/// after it exactly if it was open before. Its own name goes out exactly if
/// the record reports a removal and the name is that of a video node.
pub proof fn lemma_record_spares_others(
    connected: Set<Seq<u8>>,
    bytes: Seq<u8>,
    order: ByteOrder,
    name: Seq<u8>,
)
    ensures
        notice_of(bytes, order) is None ==> after_record(connected, bytes, order) == connected,
        notice_of(bytes, order) matches Some(notice) ==> {
            &&& name != notice.name ==> after_record(connected, bytes, order).contains(name)
                == connected.contains(name)
            &&& after_record(connected, bytes, order).contains(notice.name) == (connected.contains(
                notice.name,
            ) && !(reports_removal(notice.mask) && is_video_name(notice.name)))
        },
{
}

/// A wake token is registered only when none is outstanding. While one is
/// outstanding no signal but its firing ends that, and none registers
/// another. Whenever the rig answers "pending", one is outstanding.
pub proof fn lemma_rig_single_wake(v: RigView, signal: RigSignalView)
    ensures
        rig_next(v, signal).1 == RigActionView::RegisterWake ==> !v.wake_outstanding && rig_next(
            v,
            signal,
        ).0.wake_outstanding,
        v.wake_outstanding && signal != RigSignalView::Woken ==> rig_next(
            v,
            signal,
        ).0.wake_outstanding && rig_next(v, signal).1 != RigActionView::RegisterWake,
        v.wake_outstanding && signal == RigSignalView::Woken ==> !rig_next(
            v,
            signal,
        ).0.wake_outstanding,
        rig_next(v, signal).1 == RigActionView::Pending || rig_next(v, signal).1
            == RigActionView::RegisterWake ==> rig_next(v, signal).0.wake_outstanding && rig_next(
            v,
            signal,
        ).0.stage == RigStage::Idle,
{
}

/// A camera is handed to the owner only when it is streaming, and it is the
/// camera whose setting up was just reported.
pub proof fn lemma_yield_is_live(v: RigView, signal: RigSignalView)
    ensures
        rig_next(v, signal).1 matches RigActionView::Yield(camera) ==> camera.stage
            == Stage::Streaming && signal == RigSignalView::Ready(camera) && v.stage
            == RigStage::Initialising,
{
}

/// The state after a run of signals, taken one after the other.
pub open spec fn rig_state_after(v: RigView, signals: Seq<RigSignalView>) -> RigView
    decreases signals.len(),
{
    if signals.len() == 0 {
        v
    } else {
        rig_next(rig_state_after(v, signals.drop_last()), signals.last()).0
    }
}

/// The action that answers the last of a run of signals.
pub open spec fn rig_last_action(v: RigView, signals: Seq<RigSignalView>) -> RigActionView
    recommends
        signals.len() > 0,
{
    rig_next(rig_state_after(v, signals.drop_last()), signals.last()).1
}

/// Whether a signal can take a name out of the open names: a change record
/// or the failure of a camera.
pub open spec fn may_remove(signal: RigSignalView) -> bool {
    signal is Record || signal is Broken
}

/// How many signals of the run were answered with the registration of a
/// wake token.
pub open spec fn rig_registrations(v: RigView, signals: Seq<RigSignalView>) -> nat
    decreases signals.len(),
{
    if signals.len() == 0 {
        0
    } else {
        let before = rig_registrations(v, signals.drop_last());
        if rig_last_action(v, signals) == RigActionView::RegisterWake {
            before + 1
        } else {
            before
        }
    }
}

/// How many signals of the run report that the wake token has fired while
/// one was outstanding.
pub open spec fn rig_wakes(v: RigView, signals: Seq<RigSignalView>) -> nat
    decreases signals.len(),
{
    if signals.len() == 0 {
        0
    } else {
        let before = rig_wakes(v, signals.drop_last());
        if rig_last_action(v, signals) == RigActionView::Rest {
            before + 1
        } else {
            before
        }
    }
}

/// Two names with the same path are the same name.
pub proof fn lemma_path_names_one(a: Seq<u8>, b: Seq<u8>)
    requires
        device_path(a) == device_path(b),
    ensures
        a == b,
{
    assert(device_path(a).subrange(5, device_path(a).len() as int) =~= a);
    assert(device_path(b).subrange(5, device_path(b).len() as int) =~= b);
}

/// A node that is open is not opened again: over any run of signals that
/// holds no change record and no failure of a camera, however often the
/// directory is scanned, its name stays among the open names and no action
/// asks to open its path.
pub proof fn lemma_no_second_open(v: RigView, signals: Seq<RigSignalView>, name: Seq<u8>)
    requires
        coherent(v),
        v.connected.contains(name),
        forall|i: int| 0 <= i < signals.len() ==> !may_remove(#[trigger] signals[i]),
    ensures
        coherent(rig_state_after(v, signals)),
        rig_state_after(v, signals).connected.contains(name),
        signals.len() > 0 ==> !(rig_last_action(v, signals) matches RigActionView::Open {
            path,
            ..
        } && path == device_path(name)),
    decreases signals.len(),
{
    if signals.len() > 0 {
        let front = signals.drop_last();
        assert forall|i: int| 0 <= i < front.len() implies !may_remove(#[trigger] front[i]) by {
            assert(front[i] == signals[i]);
        }
        lemma_no_second_open(v, front, name);
        let before = rig_state_after(v, front);
        assert(!may_remove(signals[signals.len() - 1]));
        lemma_open_once(before, signals.last());
        lemma_connected_changes(before, signals.last());
        if rig_next(before, signals.last()).1 is Open {
            let after = rig_next(before, signals.last()).0;
            if device_path(after.listing[after.cursor]) == device_path(name) {
                lemma_path_names_one(after.listing[after.cursor], name);
            }
        }
    }
}

/// Over any run of signals, the wake tokens registered are as many as
/// those that fired, or one more while one is outstanding: never two at a
/// time.
pub proof fn lemma_rig_wake_count(v: RigView, signals: Seq<RigSignalView>)
    requires
        !v.wake_outstanding,
    ensures
        rig_registrations(v, signals) == rig_wakes(v, signals) + (if rig_state_after(
            v,
            signals,
        ).wake_outstanding {
            1nat
        } else {
            0nat
        }),
    decreases signals.len(),
{
    if signals.len() > 0 {
        lemma_rig_wake_count(v, signals.drop_last());
        lemma_rig_single_wake(rig_state_after(v, signals.drop_last()), signals.last());
    }
}

} // verus!
