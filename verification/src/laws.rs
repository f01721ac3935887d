//! Laws of the session machine that span whole event sequences: one shell per
//! connection, and the inertness of a closed channel.

use crate::protocol::Event;
use crate::protocol::spec_response;
use crate::protocol::spec_run;
use crate::protocol::spec_step;
use crate::session::Action;
use crate::session::DisconnectReason;
use crate::session::SessionModel;
use crate::session::fresh_session;
use vstd::prelude::*;

verus! {

/// True of an event that reports a successful spawn onto `channel` — the
/// only event that ever puts a channel into the writer set.
pub open spec fn spawns_into(event: Event, channel: u64) -> bool {
    event matches Event::ShellSpawned { channel: c } && c == channel
}

/// True of the one action that asks for a process to be spawned.
pub open spec fn is_spawn(action: Action) -> bool {
    action is SpawnShell
}

/// How many events of the sequence are answered by asking for a spawn, when
/// the session starts in state `m`.
pub open spec fn spawn_count(m: SessionModel, events: Seq<Event>) -> nat
    decreases events.len(),
{
    if events.len() == 0 {
        0
    } else {
        (if is_spawn(spec_response(m, events[0])) {
            1nat
        } else {
            0nat
        }) + spawn_count(spec_step(m, events[0]), events.subrange(1, events.len() as int))
    }
}

/// Once the shell of a connection has been requested, that fact survives
/// every later event.
pub proof fn lemma_shell_flag_persists(m: SessionModel, events: Seq<Event>)
    requires
        m.shell_requested,
    ensures
        spec_run(m, events).shell_requested,
    decreases events.len(),
{
    if events.len() > 0 {
        lemma_shell_flag_persists(
            spec_step(m, events[0]),
            events.subrange(1, events.len() as int),
        );
    }
}

/// Law: a session that has already seen its shell request never asks for
/// another spawn, and any other session asks for at most one, whatever the
/// client sends.
pub proof fn lemma_spawn_at_most_once(m: SessionModel, events: Seq<Event>)
    ensures
        spawn_count(m, events) <= (if m.shell_requested {
            0nat
        } else {
            1nat
        }),
    decreases events.len(),
{
    if events.len() > 0 {
        let m1 = spec_step(m, events[0]);
        lemma_spawn_at_most_once(m1, events.subrange(1, events.len() as int));
        if m.shell_requested {
            assert(m1.shell_requested);
            assert(!is_spawn(spec_response(m, events[0])));
        }
    }
}

/// Law: exactly one shell per connection — over any sequence of events, a
/// fresh connection is answered with at most one spawn.
pub proof fn lemma_one_shell_per_connection(events: Seq<Event>)
    ensures
        spawn_count(fresh_session(), events) <= 1,
{
    lemma_spawn_at_most_once(fresh_session(), events);
}

/// Law: after a successful first shell request — however many events come in
/// between — a second shell request is answered with a disconnect naming the
/// duplicate shell request, spawns nothing, and changes no state.
pub proof fn lemma_duplicate_shell_disconnects(m: SessionModel, events: Seq<Event>, channel: u64)
    requires
        m.shell_requested,
    ensures
        spec_response(spec_run(m, events), Event::ShellRequest { channel }) == (Action::Disconnect {
            reason: DisconnectReason::DuplicateShellRequest,
        }),
        spec_step(spec_run(m, events), Event::ShellRequest { channel }) == spec_run(m, events),
{
    lemma_shell_flag_persists(m, events);
}

/// A channel outside the writer set stays outside it across any events that
/// do not report a new spawn onto that same channel.
pub proof fn lemma_absent_writer_stays_absent(m: SessionModel, channel: u64, events: Seq<Event>)
    requires
        !m.writers.contains(channel),
        forall|i: int| 0 <= i < events.len() ==> !spawns_into(events[i], channel),
    ensures
        !spec_run(m, events).writers.contains(channel),
    decreases events.len(),
{
    if events.len() > 0 {
        let m1 = spec_step(m, events[0]);
        assert(!spawns_into(events[0], channel));
        assert(!m1.writers.contains(channel));
        let rest = events.subrange(1, events.len() as int);
        assert forall|i: int| 0 <= i < rest.len() implies !spawns_into(rest[i], channel) by {
            assert(rest[i] == events[i + 1]);
        }
        lemma_absent_writer_stays_absent(m1, channel, rest);
    }
}

/// Law: after a channel close, the channel is out of the writer set at once
/// and stays out across any later events that do not report a new spawn onto
/// it; data and window-change events for that channel are then answered with
/// no action at all — they touch no PTY.
pub proof fn lemma_closed_channel_stays_inert(
    m: SessionModel,
    channel: u64,
    events: Seq<Event>,
    payload: Vec<u8>,
    col_width: u32,
    row_height: u32,
)
    requires
        forall|i: int| 0 <= i < events.len() ==> !spawns_into(events[i], channel),
    ensures
        ({
            let closed = spec_step(m, Event::ChannelClose { channel });
            let later = spec_run(closed, events);
            &&& !closed.writers.contains(channel)
            &&& !later.writers.contains(channel)
            &&& spec_response(later, Event::DataReceived { channel, payload }) == Action::Ignore
            &&& spec_response(later, Event::WindowChange { channel, col_width, row_height })
                == Action::Ignore
        }),
{
    let closed = spec_step(m, Event::ChannelClose { channel });
    lemma_absent_writer_stays_absent(closed, channel, events);
}

} // verus!
