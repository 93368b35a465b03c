//! Whole runs of the relay loop: what a sequence of events does to the two
//! byte streams and to the remote window, proved from the single step of
//! [`crate::bridge`].

use vstd::prelude::*;
use crate::bridge::{
    dimension_spec, effect_views, ends_relay, reaction, recorded_failure, successor, Bridge,
    BridgeEvent, Effect, EffectView, EventView,
};
use crate::error::Error;
use crate::remote_pane::RemotePaneMsg;
use crate::session::SessionState;

verus! {

/// The values of a list of events, in the same order.
pub open spec fn event_views(events: Seq<BridgeEvent>) -> Seq<EventView> {
    events.map_values(|e: BridgeEvent| e@)
}

/// Every I/O operation of a run that starts in `state` and handles `events`
/// one after the other, in the order in which they are performed.
pub open spec fn run(state: SessionState, events: Seq<EventView>) -> Seq<EffectView>
    decreases events.len(),
{
    if events.len() == 0 {
        Seq::empty()
    } else {
        reaction(state, events[0]) + run(successor(state, events[0]), events.drop_first())
    }
}

/// The state at the end of such a run.
pub open spec fn state_after(state: SessionState, events: Seq<EventView>) -> SessionState
    decreases events.len(),
{
    if events.len() == 0 {
        state
    } else {
        state_after(successor(state, events[0]), events.drop_first())
    }
}

/// The failure on record at the end of such a run, where `failure` is the one
/// on record at its start.
pub open spec fn failure_after(
    state: SessionState,
    failure: Option<Error>,
    events: Seq<EventView>,
) -> Option<Error>
    decreases events.len(),
{
    if events.len() == 0 {
        failure
    } else {
        failure_after(
            successor(state, events[0]),
            recorded_failure(state, failure, events[0]),
            events.drop_first(),
        )
    }
}

/// The events that arrive before the first one that ends the relay.
pub open spec fn relayed(events: Seq<EventView>) -> Seq<EventView>
    decreases events.len(),
{
    if events.len() == 0 || ends_relay(events[0]) {
        Seq::empty()
    } else {
        seq![events[0]] + relayed(events.drop_first())
    }
}

/// The bytes that the events read from the pseudo-terminal, in order.
pub open spec fn pty_input(events: Seq<EventView>) -> Seq<u8>
    decreases events.len(),
{
    if events.len() == 0 {
        Seq::empty()
    } else {
        let rest = pty_input(events.drop_first());
        match events[0] {
            EventView::PtyRead(data) => data + rest,
            _ => rest,
        }
    }
}

/// The payloads of the data frames that the events deliver, in order.
pub open spec fn remote_input(events: Seq<EventView>) -> Seq<u8>
    decreases events.len(),
{
    if events.len() == 0 {
        Seq::empty()
    } else {
        let rest = remote_input(events.drop_first());
        match events[0] {
            EventView::RemoteData(data) => data + rest,
            _ => rest,
        }
    }
}

/// The geometries (columns, rows) of the resize messages among the events,
/// in order.
pub open spec fn resizes(events: Seq<EventView>) -> Seq<(u32, u32)>
    decreases events.len(),
{
    if events.len() == 0 {
        Seq::empty()
    } else {
        let rest = resizes(events.drop_first());
        match events[0] {
            EventView::Control(RemotePaneMsg::SizeChanged(columns, rows)) => seq![
                (dimension_spec(columns), dimension_spec(rows)),
            ] + rest,
            _ => rest,
        }
    }
}

/// The bytes that the effects send on the remote channel, in order.
pub open spec fn sent_bytes(effects: Seq<EffectView>) -> Seq<u8>
    decreases effects.len(),
{
    if effects.len() == 0 {
        Seq::empty()
    } else {
        let rest = sent_bytes(effects.drop_first());
        match effects[0] {
            EffectView::SendData(data) => data + rest,
            _ => rest,
        }
    }
}

/// The bytes that the effects write to the pseudo-terminal, in order.
pub open spec fn written_bytes(effects: Seq<EffectView>) -> Seq<u8>
    decreases effects.len(),
{
    if effects.len() == 0 {
        Seq::empty()
    } else {
        let rest = written_bytes(effects.drop_first());
        match effects[0] {
            EffectView::WritePty(data) => data + rest,
            _ => rest,
        }
    }
}

/// The geometries (columns, rows) of the window-change requests among the
/// effects, in order.
pub open spec fn window_changes(effects: Seq<EffectView>) -> Seq<(u32, u32)>
    decreases effects.len(),
{
    if effects.len() == 0 {
        Seq::empty()
    } else {
        let rest = window_changes(effects.drop_first());
        match effects[0] {
            EffectView::WindowChange { columns, rows } => seq![(columns, rows)] + rest,
            _ => rest,
        }
    }
}

proof fn lemma_sent_bytes_concat(a: Seq<EffectView>, b: Seq<EffectView>)
    ensures
        sent_bytes(a + b) == sent_bytes(a) + sent_bytes(b),
    decreases a.len(),
{
    if a.len() == 0 {
        assert(a + b =~= b);
        assert(sent_bytes(a) + sent_bytes(b) =~= sent_bytes(b));
    } else {
        assert((a + b).drop_first() =~= a.drop_first() + b);
        lemma_sent_bytes_concat(a.drop_first(), b);
        assert(sent_bytes(a + b) =~= sent_bytes(a) + sent_bytes(b));
    }
}

proof fn lemma_written_bytes_concat(a: Seq<EffectView>, b: Seq<EffectView>)
    ensures
        written_bytes(a + b) == written_bytes(a) + written_bytes(b),
    decreases a.len(),
{
    if a.len() == 0 {
        assert(a + b =~= b);
        assert(written_bytes(a) + written_bytes(b) =~= written_bytes(b));
    } else {
        assert((a + b).drop_first() =~= a.drop_first() + b);
        lemma_written_bytes_concat(a.drop_first(), b);
        assert(written_bytes(a + b) =~= written_bytes(a) + written_bytes(b));
    }
}

proof fn lemma_window_changes_concat(a: Seq<EffectView>, b: Seq<EffectView>)
    ensures
        window_changes(a + b) == window_changes(a) + window_changes(b),
    decreases a.len(),
{
    if a.len() == 0 {
        assert(a + b =~= b);
        assert(window_changes(a) + window_changes(b) =~= window_changes(b));
    } else {
        assert((a + b).drop_first() =~= a.drop_first() + b);
        lemma_window_changes_concat(a.drop_first(), b);
        assert(window_changes(a + b) =~= window_changes(a) + window_changes(b));
    }
}

/// What one reaction of the active bridge sends, writes and requests. The
/// three projections of effects unfold over the one or two effects of a
/// reaction.
proof fn lemma_reaction_projections(event: EventView)
    ensures
        sent_bytes(reaction(SessionState::Active, event)) == (match event {
            EventView::PtyRead(data) => data,
            _ => Seq::empty(),
        }),
        written_bytes(reaction(SessionState::Active, event)) == (match event {
            EventView::RemoteData(data) => data,
            _ => Seq::empty(),
        }),
        window_changes(reaction(SessionState::Active, event)) == (match event {
            EventView::Control(RemotePaneMsg::SizeChanged(columns, rows)) => seq![
                (dimension_spec(columns), dimension_spec(rows)),
            ],
            _ => Seq::empty(),
        }),
{
    let r = reaction(SessionState::Active, event);
    reveal_with_fuel(sent_bytes, 3);
    reveal_with_fuel(written_bytes, 3);
    reveal_with_fuel(window_changes, 3);
    if r.len() == 1 {
        assert(r.drop_first() =~= Seq::empty());
    } else if r.len() == 2 {
        assert(r.drop_first().drop_first() =~= Seq::empty());
    }
    assert(sent_bytes(r) =~= (match event {
        EventView::PtyRead(data) => data,
        _ => Seq::empty(),
    }));
    assert(written_bytes(r) =~= (match event {
        EventView::RemoteData(data) => data,
        _ => Seq::empty(),
    }));
    assert(window_changes(r) =~= (match event {
        EventView::Control(RemotePaneMsg::SizeChanged(columns, rows)) => seq![
            (dimension_spec(columns), dimension_spec(rows)),
        ],
        _ => Seq::empty(),
    }));
}

/// Once the relay has ended nothing is performed any more: a run that starts
/// outside the `Active` state has no I/O operation at all, whatever arrives.
pub proof fn lemma_no_io_after_end(state: SessionState, events: Seq<EventView>)
    requires
        state != SessionState::Active,
    ensures
        run(state, events) == Seq::<EffectView>::empty(),
        state_after(state, events) != SessionState::Active,
    decreases events.len(),
{
    if events.len() > 0 {
        lemma_no_io_after_end(successor(state, events[0]), events.drop_first());
        assert(run(state, events) =~= Seq::<EffectView>::empty());
    }
}

/// The relay ends exactly once. The I/O operations of a run from the
/// `Active` state are those of the events that arrive before the first one
/// that ends the relay, followed by the shutdown that this event calls for,
/// and nothing after it.
pub proof fn lemma_run_ends_once(events: Seq<EventView>)
    ensures
        relayed(events).len() <= events.len(),
        relayed(events) == events.take(relayed(events).len() as int),
        relayed(events).len() < events.len() ==> ends_relay(events[relayed(events).len() as int]),
        run(SessionState::Active, events) == run(SessionState::Active, relayed(events)) + (
        if relayed(events).len() < events.len() {
            reaction(SessionState::Active, events[relayed(events).len() as int])
        } else {
            Seq::empty()
        }),
        state_after(SessionState::Active, relayed(events)) == SessionState::Active,
        relayed(events).len() == events.len() <==> state_after(SessionState::Active, events)
            == SessionState::Active,
    decreases events.len(),
{
    let active = SessionState::Active;
    if events.len() == 0 {
        assert(relayed(events) =~= events.take(0));
        assert(run(active, events) =~= run(active, relayed(events)) + Seq::empty());
    } else if ends_relay(events[0]) {
        assert(relayed(events) =~= events.take(0));
        lemma_no_io_after_end(SessionState::Closing, events.drop_first());
        assert(run(active, events) =~= run(active, relayed(events)) + reaction(
            active,
            events[0],
        ));
    } else {
        let rest = events.drop_first();
        lemma_run_ends_once(rest);
        let live = relayed(events);
        let live_rest = relayed(rest);
        assert(live.drop_first() =~= live_rest);
        assert(live =~= events.take(live.len() as int));
        let tail = if live_rest.len() < rest.len() {
            reaction(active, rest[live_rest.len() as int])
        } else {
            Seq::empty()
        };
        assert(run(active, events) =~= run(active, live) + tail);
    }
}

/// Local input reaches the remote in order and without loss: the bytes that a
/// run sends on the remote channel are exactly the bytes read from the
/// pseudo-terminal before the relay ended, in the order in which they were
/// read.
pub proof fn lemma_pty_input_is_sent(events: Seq<EventView>)
    ensures
        sent_bytes(run(SessionState::Active, events)) == pty_input(relayed(events)),
    decreases events.len(),
{
    let active = SessionState::Active;
    if events.len() > 0 {
        let rest = events.drop_first();
        lemma_sent_bytes_concat(reaction(active, events[0]), run(successor(active, events[0]), rest));
        lemma_reaction_projections(events[0]);
        if ends_relay(events[0]) {
            lemma_no_io_after_end(SessionState::Closing, rest);
            assert(sent_bytes(run(active, events)) =~= pty_input(relayed(events)));
        } else {
            lemma_pty_input_is_sent(rest);
            assert(relayed(events).drop_first() =~= relayed(rest));
            assert(sent_bytes(run(active, events)) =~= pty_input(relayed(events)));
        }
    }
}

/// Remote output reaches the pseudo-terminal verbatim and in order: the bytes
/// that a run writes to the pseudo-terminal are exactly the payloads of the
/// data frames delivered before the relay ended, in delivery order.
pub proof fn lemma_remote_input_is_written(events: Seq<EventView>)
    ensures
        written_bytes(run(SessionState::Active, events)) == remote_input(relayed(events)),
    decreases events.len(),
{
    let active = SessionState::Active;
    if events.len() > 0 {
        let rest = events.drop_first();
        lemma_written_bytes_concat(
            reaction(active, events[0]),
            run(successor(active, events[0]), rest),
        );
        lemma_reaction_projections(events[0]);
        if ends_relay(events[0]) {
            lemma_no_io_after_end(SessionState::Closing, rest);
            assert(written_bytes(run(active, events)) =~= remote_input(relayed(events)));
        } else {
            lemma_remote_input_is_written(rest);
            assert(relayed(events).drop_first() =~= relayed(rest));
            assert(written_bytes(run(active, events)) =~= remote_input(relayed(events)));
        }
    }
}

/// The resize messages of a prefix of the events are a prefix of the resize
/// messages of all of them.
proof fn lemma_resizes_of_prefix(events: Seq<EventView>, n: int)
    requires
        0 <= n <= events.len(),
    ensures
        resizes(events.take(n)).is_prefix_of(resizes(events)),
    decreases events.len(),
{
    if n == 0 {
        assert(events.take(0) =~= Seq::empty());
    } else {
        let rest = events.drop_first();
        lemma_resizes_of_prefix(rest, n - 1);
        assert(events.take(n).drop_first() =~= rest.take(n - 1));
        assert(events.take(n)[0] == events[0]);
        let a = resizes(rest.take(n - 1));
        let b = resizes(rest);
        assert(a.is_prefix_of(b));
        match events[0] {
            EventView::Control(RemotePaneMsg::SizeChanged(columns, rows)) => {
                let head = seq![(dimension_spec(columns), dimension_spec(rows))];
                assert((head + a).is_prefix_of(head + b)) by {
                    assert((head + b).subrange(0, (head + a).len() as int) =~= head + a);
                }
            },
            _ => {},
        }
    }
}

/// Resizes are forwarded one for one and in order: the window-change
/// requests of a run are the geometries of the resize messages that arrived
/// before the relay ended, each with the dimensions of its message. A burst
/// of resize messages therefore gives at most as many requests, which are a
/// prefix of the burst.
pub proof fn lemma_resizes_are_forwarded(events: Seq<EventView>)
    ensures
        window_changes(run(SessionState::Active, events)) == resizes(relayed(events)),
        window_changes(run(SessionState::Active, events)).is_prefix_of(resizes(events)),
        window_changes(run(SessionState::Active, events)).len() <= resizes(events).len(),
        state_after(SessionState::Active, events) == SessionState::Active ==> window_changes(
            run(SessionState::Active, events),
        ) == resizes(events),
    decreases events.len(),
{
    let active = SessionState::Active;
    lemma_window_changes_of_run(events);
    lemma_run_ends_once(events);
    lemma_resizes_of_prefix(events, relayed(events).len() as int);
    if state_after(active, events) == active {
        assert(events.take(events.len() as int) =~= events);
    }
}

proof fn lemma_window_changes_of_run(events: Seq<EventView>)
    ensures
        window_changes(run(SessionState::Active, events)) == resizes(relayed(events)),
    decreases events.len(),
{
    let active = SessionState::Active;
    if events.len() > 0 {
        let rest = events.drop_first();
        lemma_window_changes_concat(
            reaction(active, events[0]),
            run(successor(active, events[0]), rest),
        );
        lemma_reaction_projections(events[0]);
        if ends_relay(events[0]) {
            lemma_no_io_after_end(SessionState::Closing, rest);
            assert(window_changes(run(active, events)) =~= resizes(relayed(events)));
        } else {
            lemma_window_changes_of_run(rest);
            assert(relayed(events).drop_first() =~= relayed(rest));
            assert(window_changes(run(active, events)) =~= resizes(relayed(events)));
        }
    }
}

/// Shutdown is idempotent. A `Close` that arrives while the session is
/// active closes the channel, disconnects the transport and ends the relay
/// at once; a `Close` that arrives after the relay has ended does nothing
/// and changes nothing.
pub proof fn lemma_close_is_idempotent(state: SessionState)
    ensures
        reaction(SessionState::Active, EventView::Control(RemotePaneMsg::Close)) == seq![
            EffectView::CloseChannel,
            EffectView::Disconnect,
        ],
        successor(SessionState::Active, EventView::Control(RemotePaneMsg::Close))
            == SessionState::Closing,
        state != SessionState::Active ==> reaction(state, EventView::Control(RemotePaneMsg::Close))
            == Seq::<EffectView>::empty(),
        state != SessionState::Active ==> successor(state, EventView::Control(RemotePaneMsg::Close))
            == state,
{
}

impl Bridge {
    /// Handles a list of events one after the other and returns every I/O
    /// operation that they call for, in order.
    pub fn replay(&mut self, events: Vec<BridgeEvent>) -> (effects: Vec<Effect>)
        ensures
            effect_views(effects@) == run(old(self)@.state, event_views(events@)),
            final(self)@.state == state_after(old(self)@.state, event_views(events@)),
            final(self)@.failure == failure_after(
                old(self)@.state,
                old(self)@.failure,
                event_views(events@),
            ),
    {
        let mut effects: Vec<Effect> = Vec::new();
        let ghost start = self@.state;
        let ghost start_failure = self@.failure;
        let ghost all = event_views(events@);
        proof {
            assert(all.skip(0) =~= all);
            assert(effect_views(effects@) + run(start, all) =~= run(start, all));
        }
        for event in it: events
            invariant
                it.seq() == events@,
                all == event_views(events@),
                effect_views(effects@) + run(self@.state, all.skip(it.index() as int)) == run(
                    start,
                    all,
                ),
                state_after(self@.state, all.skip(it.index() as int)) == state_after(start, all),
                failure_after(self@.state, self@.failure, all.skip(it.index() as int))
                    == failure_after(start, start_failure, all),
        {
            let ghost before = self@.state;
            let ghost done = effects@;
            let ghost pending = all.skip(it.index() as int);
            let mut step = self.handle(event);
            proof {
                assert(pending[0] == event@);
                assert(pending.drop_first() =~= all.skip(it.index() + 1));
            }
            effects.append(&mut step);
            proof {
                assert(effect_views(effects@) =~= effect_views(done) + reaction(before, event@));
                assert(effect_views(effects@) + run(self@.state, all.skip(it.index() + 1))
                    =~= effect_views(done) + run(before, pending));
            }
        }
        proof {
            assert(all.skip(events@.len() as int) =~= Seq::empty());
            assert(effect_views(effects@) + Seq::<EffectView>::empty() =~= effect_views(effects@));
        }
        effects
    }
}

} // verus!
