//! The events of a device-notification listener and the decisions of its
//! hidden window: which messages become events, when the message loop ends,
//! how the event stream ends, and how a listener is closed.

use vstd::prelude::*;
use crate::registry::{OsError, PortMeta};

verus! {

/// Sent to a window that is asked to close.
pub const WM_CLOSE: u32 = 0x0010;
/// Sent to a window as it is destroyed.
pub const WM_DESTROY: u32 = 0x0002;
/// A device-change broadcast.
pub const WM_DEVICECHANGE: u32 = 0x0219;
/// The first message number free for an application; a listener reads it as a rescan request.
pub const WM_USER: u32 = 0x0400;
/// The device-change kind of an arrival.
pub const DBT_DEVICEARRIVAL: u32 = 0x8000;
/// The device-change kind of a completed removal.
pub const DBT_DEVICEREMOVECOMPLETE: u32 = 0x8004;

/// A device arrived at or left a port.
#[derive(Debug)]
pub enum PlugEvent {
    Arrival(String, PortMeta),
    RemoveComplete(String),
}

/// Why a listener could not be reached or closed.
#[derive(Clone, Copy, Debug, PartialEq, Eq, Structural)]
pub enum ListenError {
    Os(OsError),
    /// No running listener has that name.
    NotFound,
    /// The listener was closed before.
    AlreadyClosed,
}

/// The id of a device-interface class.
#[derive(Clone, Copy, Debug)]
pub struct Guid {
    pub data1: u32,
    pub data2: u16,
    pub data3: u16,
    pub data4: [u8; 8],
}

/// Whether `g` is the class `wceusbs` returns.
pub open spec fn is_wceusbs(g: Guid) -> bool {
    g.data1 == 0x25dbce51 && g.data2 == 0x6c8f && g.data3 == 0x4a72 && g.data4@ == seq![0x8au8, 0x6du8, 0xb5u8, 0x4cu8, 0x2bu8, 0x4fu8, 0xc8u8, 0x35u8]
}

/// Windows CE USB ActiveSync devices.
pub fn wceusbs() -> (r: Guid)
    ensures
        is_wceusbs(r),
{
    Guid { data1: 0x25dbce51, data2: 0x6c8f, data3: 0x4a72, data4: [0x8a, 0x6d, 0xb5, 0x4c, 0x2b, 0x4f, 0xc8, 0x35] }
}

/// Whether `g` is the class `usbdevice` returns.
pub open spec fn is_usbdevice(g: Guid) -> bool {
    g.data1 == 0x88BAE032 && g.data2 == 0x5A81 && g.data3 == 0x49f0 && g.data4@ == seq![0xBCu8, 0x3Du8, 0xA4u8, 0xFFu8, 0x13u8, 0x82u8, 0x16u8, 0xD6u8]
}

/// USB devices.
pub fn usbdevice() -> (r: Guid)
    ensures
        is_usbdevice(r),
{
    Guid { data1: 0x88BAE032, data2: 0x5A81, data3: 0x49f0, data4: [0xBC, 0x3D, 0xA4, 0xFF, 0x13, 0x82, 0x16, 0xD6] }
}

/// Whether `g` is the class `ports` returns.
pub open spec fn is_ports(g: Guid) -> bool {
    g.data1 == 0x4d36e978 && g.data2 == 0xe325 && g.data3 == 0x11ce && g.data4@ == seq![0xbfu8, 0xc1u8, 0x08u8, 0x00u8, 0x2bu8, 0xe1u8, 0x03u8, 0x18u8]
}

/// Serial and parallel ports.
pub fn ports() -> (r: Guid)
    ensures
        is_ports(r),
{
    Guid { data1: 0x4d36e978, data2: 0xe325, data3: 0x11ce, data4: [0xbf, 0xc1, 0x08, 0x00, 0x2b, 0xe1, 0x03, 0x18] }
}

/// The device-interface classes that a listener registers for.
#[derive(Debug)]
pub struct Registry {
    pub classes: Vec<Guid>,
}

impl Registry {
    /// No classes yet.
    pub fn new() -> (r: Registry)
        ensures
            r.classes@ == Seq::<Guid>::empty(),
    {
        Registry::with_capacity(4)
    }

    /// No classes yet, with room for `capacity` of them.
    pub fn with_capacity(capacity: usize) -> (r: Registry)
        ensures
            r.classes@ == Seq::<Guid>::empty(),
    {
        Registry { classes: Vec::with_capacity(capacity) }
    }

    /// Adds the classes through which USB serial ports announce themselves.
    pub fn with_serial_port(self) -> (r: Registry)
        ensures
            r.classes@.len() == self.classes@.len() + 3,
            r.classes@.take(self.classes@.len() as int) == self.classes@,
            is_wceusbs(r.classes@[self.classes@.len() as int]),
            is_usbdevice(r.classes@[self.classes@.len() as int + 1]),
            is_ports(r.classes@[self.classes@.len() as int + 2]),
    {
        let r = self.with(wceusbs()).with(usbdevice()).with(ports());
        assert(r.classes@.take(self.classes@.len() as int) =~= self.classes@);
        r
    }

    /// Adds one class.
    pub fn with(self, guid: Guid) -> (r: Registry)
        ensures
            r.classes@ == self.classes@.push(guid),
    {
        let mut classes = self.classes;
        classes.push(guid);
        Registry { classes }
    }
}

/// One arrival per entry of a snapshot, in the snapshot's order.
pub open spec fn seeded(snapshot: Seq<(String, PortMeta)>) -> Seq<PlugEvent> {
    Seq::new(snapshot.len(), |i: int| PlugEvent::Arrival(snapshot[i].0, snapshot[i].1))
}

/// One arrival per entry of a snapshot, in the snapshot's order: what a
/// listener queues before any live event, and again on each rescan.
pub fn seed_events(snapshot: Vec<(String, PortMeta)>) -> (r: Vec<PlugEvent>)
    ensures
        r@ == seeded(snapshot@),
{
    let mut rest = snapshot;
    let mut r: Vec<PlugEvent> = Vec::new();
    while rest.len() > 0
        invariant
            r@.len() + rest@.len() == snapshot@.len(),
            rest@ == snapshot@.subrange(r@.len() as int, snapshot@.len() as int),
            forall|i: int| 0 <= i < r@.len() ==> r@[i] == PlugEvent::Arrival(snapshot@[i].0, snapshot@[i].1),
        decreases rest@.len(),
    {
        let ghost k = r@.len();
        let (port, meta) = rest.remove(0);
        r.push(PlugEvent::Arrival(port, meta));
        assert(rest@ =~= snapshot@.subrange(r@.len() as int, snapshot@.len() as int));
        assert(snapshot@[k as int] == (port, meta));
    }
    assert(r@ =~= seeded(snapshot@));
    r
}

/// Seeding: a listener's queue starts with the seeded arrivals of its snapshot
/// and only ever appends, so whatever live events follow, the first items read
/// are exactly one arrival per snapshot entry, with its metadata; and seeding
/// (at start or on a rescan) queues no removal.
pub proof fn lemma_seeds_first(snapshot: Seq<(String, PortMeta)>, live: Seq<PlugEvent>)
    ensures
        (seeded(snapshot) + live).take(snapshot.len() as int) == seeded(snapshot),
        forall|i: int| 0 <= i < snapshot.len() ==> (seeded(snapshot) + live)[i]
            == PlugEvent::Arrival(snapshot[i].0, snapshot[i].1),
        forall|i: int| 0 <= i < snapshot.len() ==> !(#[trigger] seeded(snapshot)[i] is RemoveComplete),
{
    assert((seeded(snapshot) + live).take(snapshot.len() as int) =~= seeded(snapshot));
}

/// What the hidden window does with one message.
#[derive(Debug)]
pub enum WindowAction {
    /// Queue this event.
    Queue(PlugEvent),
    /// Look the port up in the registry and queue its arrival, or the error.
    LookUp(String),
    /// Take a fresh snapshot and queue one arrival per connected port.
    Rescan,
    /// Queue the end of the stream.
    Finish,
    /// Leave the message to the default window procedure.
    Default,
}

/// Decides what the hidden window does with message `msg`. `kind` is the
/// device-change kind of a `WM_DEVICECHANGE` message, and `port` the port name
/// that its broadcast carries, if it is about a port.
pub fn on_message(msg: u32, kind: u32, port: Option<String>) -> (r: WindowAction)
    ensures
        msg == WM_DEVICECHANGE && kind == DBT_DEVICEREMOVECOMPLETE && port is Some
            ==> r == WindowAction::Queue(PlugEvent::RemoveComplete(port->0)),
        msg == WM_DEVICECHANGE && kind == DBT_DEVICEARRIVAL && port is Some
            ==> r == WindowAction::LookUp(port->0),
        msg == WM_DEVICECHANGE && !(port is Some && (kind == DBT_DEVICEREMOVECOMPLETE || kind == DBT_DEVICEARRIVAL))
            ==> r is Default,
        msg == WM_DESTROY ==> r is Finish,
        msg == WM_USER ==> r is Rescan,
        msg != WM_DEVICECHANGE && msg != WM_DESTROY && msg != WM_USER ==> r is Default,
{
    if msg == WM_DEVICECHANGE {
        match port {
            Some(p) => {
                if kind == DBT_DEVICEREMOVECOMPLETE {
                    WindowAction::Queue(PlugEvent::RemoveComplete(p))
                } else if kind == DBT_DEVICEARRIVAL {
                    WindowAction::LookUp(p)
                } else {
                    WindowAction::Default
                }
            },
            None => WindowAction::Default,
        }
    } else if msg == WM_DESTROY {
        WindowAction::Finish
    } else if msg == WM_USER {
        WindowAction::Rescan
    } else {
        WindowAction::Default
    }
}

/// What the message loop does after one `GetMessageW` call.
#[derive(Clone, Copy, Debug, PartialEq, Eq, Structural)]
pub enum LoopStep {
    /// Dispatch the message and wait for the next one.
    Dispatch,
    /// Dispatch the message, then stop: the window was asked to close.
    DispatchAndStop,
    /// Stop: the queue received `WM_QUIT`.
    Stop,
    /// Stop with the last OS error.
    Fail,
}

/// Decides the message loop's next move from what `GetMessageW` returned
/// (`0` on `WM_QUIT`, `-1` on failure) and the message it read.
pub fn loop_step(got: i32, msg: u32) -> (r: LoopStep)
    ensures
        r == (if got == 0 {
            LoopStep::Stop
        } else if got == -1 {
            LoopStep::Fail
        } else if msg == WM_CLOSE {
            LoopStep::DispatchAndStop
        } else {
            LoopStep::Dispatch
        }),
{
    if got == 0 {
        LoopStep::Stop
    } else if got == -1 {
        LoopStep::Fail
    } else if msg == WM_CLOSE {
        LoopStep::DispatchAndStop
    } else {
        LoopStep::Dispatch
    }
}

/// A message to post to a window.
#[derive(Clone, Copy, Debug, PartialEq, Eq, Structural)]
pub struct Post {
    pub window: isize,
    pub msg: u32,
}

/// Asks a running listener to re-emit its snapshot. `window` is the handle that
/// a lookup of the listener's name found, `0` when it found none.
pub fn rescan(window: isize) -> (r: Result<Post, ListenError>)
    ensures
        window == 0 ==> r == Err::<Post, ListenError>(ListenError::NotFound),
        window != 0 ==> r == Ok::<Post, ListenError>(Post { window, msg: WM_USER }),
{
    if window == 0 {
        Err(ListenError::NotFound)
    } else {
        Ok(Post { window, msg: WM_USER })
    }
}

/// Where a listener stands in its shutdown.
#[derive(Clone, Copy, Debug, PartialEq, Eq, Structural)]
pub enum ListenerState {
    /// Its thread runs.
    Running,
    /// A close has begun: the caller owes the join of the thread.
    Closing,
    /// The thread has been joined.
    Closed,
}

/// What beginning a close gives in a state. The close message goes to `window`,
/// the handle that a lookup of the listener's name found (`0` for none).
pub open spec fn close_result(state: ListenerState, window: isize) -> Result<Option<Post>, ListenError> {
    match state {
        ListenerState::Running => Ok(if window == 0 {
            None
        } else {
            Some(Post { window, msg: WM_CLOSE })
        }),
        _ => Err(ListenError::AlreadyClosed),
    }
}

/// How a close ends: the failure to post the close message comes first, then
/// the failure of the thread.
pub open spec fn finish_result(posted: Result<(), OsError>, joined: Result<(), OsError>) -> Result<(), ListenError> {
    match posted {
        Err(e) => Err(ListenError::Os(e)),
        Ok(()) => match joined {
            Err(e) => Err(ListenError::Os(e)),
            Ok(()) => Ok(()),
        },
    }
}

/// The lifecycle of a listener. A close is two steps: `close` decides whether
/// there is anything to close and what to post, and `finish` records the join,
/// which it takes as an argument: the one way out of `Closing` is through the
/// join, whether the post succeeded or not.
#[derive(Debug)]
pub struct Lifecycle {
    state: ListenerState,
}

impl Lifecycle {
    /// Where the listener stands.
    pub closed spec fn state(&self) -> ListenerState {
        self.state
    }

    /// A running listener.
    pub fn new() -> (r: Lifecycle)
        ensures
            r.state() == ListenerState::Running,
    {
        Lifecycle { state: ListenerState::Running }
    }

    /// Where the listener stands.
    pub fn current(&self) -> (r: ListenerState)
        ensures
            r == self.state(),
    {
        self.state
    }

    /// Begins closing the listener. The first call gives the close message to
    /// post (none when no window was found) and leaves the join of the thread
    /// owed; every later call reports `AlreadyClosed` and asks for nothing.
    pub fn close(&mut self, window: isize) -> (r: Result<Option<Post>, ListenError>)
        ensures
            r == close_result(old(self).state(), window),
            final(self).state() == (if old(self).state() == ListenerState::Running {
                ListenerState::Closing
            } else {
                old(self).state()
            }),
    {
        match self.state {
            ListenerState::Running => {
                self.state = ListenerState::Closing;
                if window == 0 {
                    Ok(None)
                } else {
                    Ok(Some(Post { window, msg: WM_CLOSE }))
                }
            },
            _ => Err(ListenError::AlreadyClosed),
        }
    }

    /// Ends a close, once the thread has been joined: `posted` is how posting
    /// the close message went, `joined` how the thread ended.
    pub fn finish(&mut self, posted: Result<(), OsError>, joined: Result<(), OsError>) -> (r: Result<(), ListenError>)
        requires
            old(self).state() == ListenerState::Closing,
        ensures
            final(self).state() == ListenerState::Closed,
            r == finish_result(posted, joined),
    {
        self.state = ListenerState::Closed;
        match posted {
            Err(e) => Err(ListenError::Os(e)),
            Ok(()) => match joined {
                Err(e) => Err(ListenError::Os(e)),
                Ok(()) => Ok(()),
            },
        }
    }
}

/// Closing is idempotent: the first close of a running listener asks for the
/// close message and owes the join, and every later close, whether the first
/// is still owed its join or has finished, only reports `AlreadyClosed`.
pub proof fn lemma_close_idempotent(first: Lifecycle, later: Lifecycle, window: isize)
    requires
        first.state() == ListenerState::Running,
        later.state() != ListenerState::Running,
    ensures
        close_result(first.state(), window) is Ok,
        window != 0 ==> close_result(first.state(), window) == Ok::<Option<Post>, ListenError>(
            Some(Post { window, msg: WM_CLOSE }),
        ),
        close_result(later.state(), window) == Err::<Option<Post>, ListenError>(ListenError::AlreadyClosed),
{
}

/// What the consumer side of an event queue gives on one poll.
#[derive(Debug)]
pub enum QueuePoll<T> {
    /// The queue is empty: park the waker and wait.
    Pending,
    /// The next item.
    Item(T),
    /// The stream has ended.
    End,
}

/// The consumer side of a listener's event queue; once it has seen the end of
/// the stream it gives nothing more.
#[derive(Debug)]
pub struct QueueReader {
    ended: bool,
}

impl QueueReader {
    /// Whether the end of the stream has been seen.
    pub closed spec fn has_ended(&self) -> bool {
        self.ended
    }

    /// A reader that has not seen the end.
    pub fn new() -> (r: QueueReader)
        ensures
            !r.has_ended(),
    {
        QueueReader { ended: false }
    }

    /// Turns what a pop of the queue gave (`None` when it was empty,
    /// `Some(None)` for the end-of-stream sentinel) into the result of a poll.
    pub fn poll<T>(&mut self, popped: Option<Option<T>>) -> (r: QueuePoll<T>)
        ensures
            old(self).has_ended() ==> r is End && final(self).has_ended(),
            !old(self).has_ended() ==> match popped {
                None => r is Pending && !final(self).has_ended(),
                Some(None) => r is End && final(self).has_ended(),
                Some(Some(x)) => r == QueuePoll::Item(x) && !final(self).has_ended(),
            },
    {
        if self.ended {
            QueuePoll::End
        } else {
            match popped {
                None => QueuePoll::Pending,
                Some(None) => {
                    self.ended = true;
                    QueuePoll::End
                },
                Some(Some(x)) => QueuePoll::Item(x),
            }
        }
    }
}

} // verus!
