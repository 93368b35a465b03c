//! The session bridge: what the relay loop does with each thing that happens.
//!
//! The loop itself waits on three sources (the control queue, the remote
//! channel and the local pseudo-terminal) and performs I/O. Everything it
//! decides is here: [`Bridge::handle`] takes one event and returns the I/O
//! operations to perform, in order. What a whole run of the loop does to the
//! two byte streams is stated in [`crate::run`].

use vstd::prelude::*;
use crate::channel::{ChannelSetup, SetupStep};
use crate::error::Error;
use crate::posix::IoOutcome;
use crate::remote_pane::RemotePaneMsg;
use crate::session::SessionState;

verus! {

/// How many bytes one read from the pseudo-terminal asks for.
pub const READ_BUFFER_SIZE: usize = 512;

/// One of the three sources the relay loop waits on.
#[derive(Clone, Copy, Debug, PartialEq, Eq, Structural)]
pub enum Source {
    /// The queue of control messages.
    Control,
    /// The remote channel.
    Remote,
    /// The local pseudo-terminal.
    Pty,
}

/// The source that is served when several are ready at once.
pub open spec fn first_ready_spec(control: bool, remote: bool, pty: bool) -> Option<Source> {
    if control {
        Some(Source::Control)
    } else if remote {
        Some(Source::Remote)
    } else if pty {
        Some(Source::Pty)
    } else {
        None
    }
}

/// Picks the source to serve in one turn of the loop: control messages come
/// before remote data, remote data before local input. `None` when nothing is
/// ready.
pub fn first_ready(control: bool, remote: bool, pty: bool) -> (source: Option<Source>)
    ensures
        source == first_ready_spec(control, remote, pty),
{
    if control {
        Some(Source::Control)
    } else if remote {
        Some(Source::Remote)
    } else if pty {
        Some(Source::Pty)
    } else {
        None
    }
}

/// The unsigned dimension that a signed one stands for on the wire: the same
/// 32 bits, so a negative value counts from 2^32 down.
pub open spec fn dimension_spec(value: i32) -> u32 {
    if value >= 0 {
        value as u32
    } else {
        (value + 0x1_0000_0000) as u32
    }
}

/// Converts a dimension of a control message to the one sent to the remote.
pub fn dimension(value: i32) -> (d: u32)
    ensures
        d == dimension_spec(value),
{
    if value >= 0 {
        value as u32
    } else {
        let widened: i64 = value as i64 + 0x1_0000_0000i64;
        widened as u32
    }
}

/// Something that happened and that the relay loop has to react to.
#[derive(Debug, PartialEq, Eq)]
pub enum BridgeEvent {
    /// A control message arrived.
    Control(RemotePaneMsg),
    /// The remote channel delivered a data frame with this payload.
    RemoteData(Vec<u8>),
    /// The remote channel delivered a message that carries no data.
    RemoteOther,
    /// The remote channel is closed: it will deliver nothing more.
    RemoteClosed,
    /// A read from the pseudo-terminal returned these bytes; none at all is
    /// the end of the local input.
    PtyRead(Vec<u8>),
    /// A read from the pseudo-terminal would have blocked.
    PtyWouldBlock,
    /// A read or write failed for another reason, with this OS error code.
    IoFailed(i32),
    /// The disconnect of the transport has completed, with or without error.
    Disconnected,
}

/// The mathematical value of a [`BridgeEvent`].
pub enum EventView {
    Control(RemotePaneMsg),
    RemoteData(Seq<u8>),
    RemoteOther,
    RemoteClosed,
    PtyRead(Seq<u8>),
    PtyWouldBlock,
    IoFailed(i32),
    Disconnected,
}

impl View for BridgeEvent {
    type V = EventView;

    open spec fn view(&self) -> EventView {
        match self {
            BridgeEvent::Control(msg) => EventView::Control(*msg),
            BridgeEvent::RemoteData(data) => EventView::RemoteData(data@),
            BridgeEvent::RemoteOther => EventView::RemoteOther,
            BridgeEvent::RemoteClosed => EventView::RemoteClosed,
            BridgeEvent::PtyRead(data) => EventView::PtyRead(data@),
            BridgeEvent::PtyWouldBlock => EventView::PtyWouldBlock,
            BridgeEvent::IoFailed(code) => EventView::IoFailed(*code),
            BridgeEvent::Disconnected => EventView::Disconnected,
        }
    }
}

/// The part of a buffer that a read of `count` bytes has filled. A read
/// never fills more than the buffer holds.
pub open spec fn filled(buffer: Seq<u8>, count: usize) -> Seq<u8> {
    if count <= buffer.len() {
        buffer.take(count as int)
    } else {
        buffer
    }
}

/// The event that a read from the pseudo-terminal into `buffer` stands for.
pub open spec fn read_event_spec(outcome: IoOutcome, buffer: Seq<u8>) -> EventView {
    match outcome {
        IoOutcome::Done(count) => EventView::PtyRead(filled(buffer, count)),
        IoOutcome::WouldBlock => EventView::PtyWouldBlock,
        IoOutcome::Failed(code) => EventView::IoFailed(code),
    }
}

/// Makes the event of a read from the pseudo-terminal: the bytes that were
/// read, which are none at the end of the input, or the reason why none were.
pub fn read_event(outcome: IoOutcome, buffer: &[u8]) -> (event: BridgeEvent)
    ensures
        event@ == read_event_spec(outcome, buffer@),
{
    match outcome {
        IoOutcome::Done(count) => {
            let end = if count <= buffer.len() {
                count
            } else {
                buffer.len()
            };
            let mut data: Vec<u8> = Vec::new();
            let mut i: usize = 0;
            while i < end
                invariant
                    i <= end <= buffer.len(),
                    data@ == buffer@.take(i as int),
                decreases end - i,
            {
                data.push(buffer[i]);
                i += 1;
                assert(data@ =~= buffer@.take(i as int));
            }
            assert(data@ =~= filled(buffer@, count));
            BridgeEvent::PtyRead(data)
        },
        IoOutcome::WouldBlock => BridgeEvent::PtyWouldBlock,
        IoOutcome::Failed(code) => BridgeEvent::IoFailed(code),
    }
}

/// One I/O operation that the relay loop performs.
#[derive(Debug, PartialEq, Eq)]
pub enum Effect {
    /// Send a window-change request with this geometry on the remote channel.
    /// A failure is reported and otherwise ignored.
    WindowChange { columns: u32, rows: u32 },
    /// Write these bytes to the pseudo-terminal.
    WritePty(Vec<u8>),
    /// Send these bytes as one data frame on the remote channel.
    SendData(Vec<u8>),
    /// Close the remote channel. A failure is reported and otherwise ignored.
    CloseChannel,
    /// Disconnect the transport, then report `Disconnected`. A failure is
    /// reported and otherwise ignored.
    Disconnect,
}

/// The mathematical value of an [`Effect`].
pub enum EffectView {
    WindowChange { columns: u32, rows: u32 },
    WritePty(Seq<u8>),
    SendData(Seq<u8>),
    CloseChannel,
    Disconnect,
}

impl View for Effect {
    type V = EffectView;

    open spec fn view(&self) -> EffectView {
        match self {
            Effect::WindowChange { columns, rows } => EffectView::WindowChange {
                columns: *columns,
                rows: *rows,
            },
            Effect::WritePty(data) => EffectView::WritePty(data@),
            Effect::SendData(data) => EffectView::SendData(data@),
            Effect::CloseChannel => EffectView::CloseChannel,
            Effect::Disconnect => EffectView::Disconnect,
        }
    }
}

/// The values of a list of effects, in the same order.
pub open spec fn effect_views(effects: Seq<Effect>) -> Seq<EffectView> {
    effects.map_values(|e: Effect| e@)
}

/// The graceful shutdown: close the channel, then disconnect the transport.
pub open spec fn graceful_shutdown() -> Seq<EffectView> {
    seq![EffectView::CloseChannel, EffectView::Disconnect]
}

/// Whether an event ends the relay when it arrives in the `Active` state.
pub open spec fn ends_relay(event: EventView) -> bool {
    match event {
        EventView::Control(RemotePaneMsg::Close) => true,
        EventView::RemoteClosed => true,
        EventView::PtyRead(data) => data.len() == 0,
        EventView::IoFailed(_) => true,
        _ => false,
    }
}

/// The I/O operations that an event calls for, in the order in which they
/// are performed. Outside the `Active` state there are none.
pub open spec fn reaction(state: SessionState, event: EventView) -> Seq<EffectView> {
    if state != SessionState::Active {
        Seq::empty()
    } else {
        match event {
            EventView::Control(RemotePaneMsg::Close) => graceful_shutdown(),
            EventView::Control(RemotePaneMsg::SizeChanged(columns, rows)) => seq![
                EffectView::WindowChange {
                    columns: dimension_spec(columns),
                    rows: dimension_spec(rows),
                },
            ],
            EventView::RemoteData(data) => seq![EffectView::WritePty(data)],
            EventView::RemoteOther => Seq::empty(),
            EventView::RemoteClosed => seq![EffectView::Disconnect],
            EventView::PtyRead(data) => if data.len() == 0 {
                graceful_shutdown()
            } else {
                seq![EffectView::SendData(data)]
            },
            EventView::PtyWouldBlock => Seq::empty(),
            EventView::IoFailed(_) => graceful_shutdown(),
            EventView::Disconnected => Seq::empty(),
        }
    }
}

/// The state after an event. The relay ends with the first event that ends
/// it; the completion of the disconnect counts once a shutdown has started,
/// and closes the session.
pub open spec fn successor(state: SessionState, event: EventView) -> SessionState {
    match state {
        SessionState::Active => if ends_relay(event) {
            SessionState::Closing
        } else {
            SessionState::Active
        },
        SessionState::Closing => if event is Disconnected {
            SessionState::Closed
        } else {
            SessionState::Closing
        },
        _ => state,
    }
}

/// The failure that the bridge records for an event: the first relay error
/// of its active time, and nothing else.
pub open spec fn recorded_failure(
    state: SessionState,
    failure: Option<Error>,
    event: EventView,
) -> Option<Error> {
    match event {
        EventView::IoFailed(code) => if state == SessionState::Active {
            Some(Error::RelayIo(code))
        } else {
            failure
        },
        _ => failure,
    }
}

/// What a [`Bridge`] stands for.
pub struct BridgeView {
    /// Where the session stands.
    pub state: SessionState,
    /// The relay error that ended the session, if one did.
    pub failure: Option<Error>,
}

/// The decisions of one session's relay loop.
pub struct Bridge {
    state: SessionState,
    failure: Option<Error>,
}

impl View for Bridge {
    type V = BridgeView;

    closed spec fn view(&self) -> BridgeView {
        BridgeView { state: self.state, failure: self.failure }
    }
}

impl Bridge {
    /// The bridge of a session whose channel is set up and whose shell runs.
    /// There is none for a setup that is not ready, so nothing is relayed
    /// before the shell runs or after the setup has failed.
    pub fn begin(setup: &ChannelSetup) -> (bridge: Option<Bridge>)
        ensures
            bridge.is_some() <==> setup@.step is Ready,
            bridge matches Some(b) ==> b@ == (BridgeView {
                state: SessionState::Active,
                failure: None,
            }),
    {
        match setup.step() {
            SetupStep::Ready => Some(Bridge { state: SessionState::Active, failure: None }),
            _ => None,
        }
    }

    /// Where the session stands.
    pub fn state(&self) -> (state: SessionState)
        ensures
            state == self@.state,
    {
        self.state
    }

    /// The relay error that ended the session, if one did.
    pub fn failure(&self) -> (failure: Option<Error>)
        ensures
            failure == self@.failure,
    {
        self.failure
    }

    /// Whether the loop has to go on waiting for events.
    pub fn is_relaying(&self) -> (relaying: bool)
        ensures
            relaying == (self@.state == SessionState::Active),
    {
        self.state.is_active()
    }

    /// Reacts to one event: returns the I/O operations to perform, in order,
    /// and moves to the next state.
    ///
    /// While the session is active, a resize is forwarded, data is relayed
    /// verbatim in either direction, and a `Close`, the end of the remote
    /// channel, the end of the local input or an I/O failure start the
    /// shutdown. Once the shutdown has started nothing is performed any more.
    pub fn handle(&mut self, event: BridgeEvent) -> (effects: Vec<Effect>)
        ensures
            effect_views(effects@) == reaction(old(self)@.state, event@),
            final(self)@.state == successor(old(self)@.state, event@),
            old(self)@.state.reaches(final(self)@.state),
            final(self)@.failure == recorded_failure(
                old(self)@.state,
                old(self)@.failure,
                event@,
            ),
    {
        let mut effects: Vec<Effect> = Vec::new();
        match self.state {
            SessionState::Active => {
                match event {
                    BridgeEvent::Control(RemotePaneMsg::Close) => {
                        effects.push(Effect::CloseChannel);
                        effects.push(Effect::Disconnect);
                        self.state = SessionState::Closing;
                    },
                    BridgeEvent::Control(RemotePaneMsg::SizeChanged(columns, rows)) => {
                        effects.push(
                            Effect::WindowChange {
                                columns: dimension(columns),
                                rows: dimension(rows),
                            },
                        );
                    },
                    BridgeEvent::RemoteData(data) => {
                        effects.push(Effect::WritePty(data));
                    },
                    BridgeEvent::RemoteOther => {},
                    BridgeEvent::RemoteClosed => {
                        effects.push(Effect::Disconnect);
                        self.state = SessionState::Closing;
                    },
                    BridgeEvent::PtyRead(data) => {
                        if data.len() == 0 {
                            effects.push(Effect::CloseChannel);
                            effects.push(Effect::Disconnect);
                            self.state = SessionState::Closing;
                        } else {
                            effects.push(Effect::SendData(data));
                        }
                    },
                    BridgeEvent::PtyWouldBlock => {},
                    BridgeEvent::IoFailed(code) => {
                        effects.push(Effect::CloseChannel);
                        effects.push(Effect::Disconnect);
                        self.state = SessionState::Closing;
                        self.failure = Some(Error::RelayIo(code));
                    },
                    BridgeEvent::Disconnected => {},
                }
            },
            SessionState::Closing => {
                match event {
                    BridgeEvent::Disconnected => {
                        self.state = SessionState::Closed;
                    },
                    _ => {},
                }
            },
            _ => {},
        }
        assert(effect_views(effects@) =~= reaction(old(self)@.state, event@));
        effects
    }
}

} // verus!
