//! What the service loop does over many events: what a whole pass amounts to,
//! and what holds however the loop is driven.

use vstd::prelude::*;

use crate::desktop::Desktop;
use crate::service::{
    cleared, closed_down, decided, environment, forced_stop, gone_on, launch_for, launching,
    let_go, looked_after, noted, other_slot, preceded, served, settled, slot_for, stop_begun,
    stopped, user_changed, Action, AfterStop, Event, Launch, Phase, Service, Slot,
    Supervisor, Waited,
};

verus! {

// ---- Runs ----------------------------------------------------------------

/// The supervisor after the events, and all the actions that it handed out.
pub open spec fn run(start: Supervisor, events: Seq<Event>) -> (Supervisor, Seq<Action>)
    decreases events.len(),
{
    if events.len() == 0 {
        (start, seq![])
    } else {
        let (next, actions) = start.after(events[0]);
        let (end, rest) = run(next, events.skip(1));
        (end, actions + rest)
    }
}

/// Whether each event answers what was asked last.
pub open spec fn is_dialogue(start: Supervisor, events: Seq<Event>) -> bool
    decreases events.len(),
{
    events.len() == 0 || (start.awaits(events[0]) && is_dialogue(
        start.after(events[0]).0,
        events.skip(1),
    ))
}

/// The action that asks for what the phase awaits.
pub open spec fn question(phase: Phase) -> Action {
    match phase {
        Phase::Boot => Action::ReadClock,
        Phase::Poll => Action::AskRunning,
        Phase::Look => Action::QueryDesktop,
        Phase::Check(_) => Action::QueryStatus,
        Phase::Stopping(slot, _) => Action::TryWait(slot),
        Phase::Decide(_) => Action::QueryStatus,
        Phase::Restarted(_, _) => Action::ReadClock,
        Phase::Reap(desktop, _) => Action::TryWait(slot_for(desktop)),
        Phase::Launching(slot) => Action::Start(slot, Launch::RunMe),
        Phase::Done => Action::Exit,
    }
}

/// Whether the two actions ask for the same answer.
pub open spec fn asks_alike(a: Action, b: Action) -> bool {
    match (a, b) {
        (Action::Start(x, _), Action::Start(y, _)) => x == y,
        _ => a == b,
    }
}

/// Whether the reply's batch ends in the question that its phase waits to have
/// answered.
pub open spec fn ends_in_question(reply: (Supervisor, Seq<Action>)) -> bool {
    &&& reply.1.len() > 0
    &&& asks_alike(reply.1.last(), question(reply.0.phase))
}

proof fn preceded_ends_in_question(actions: Seq<Action>, reply: (Supervisor, Seq<Action>))
    requires
        ends_in_question(reply),
    ensures
        ends_in_question(preceded(actions, reply)),
{
    assert((actions + reply.1).last() == reply.1.last());
}

proof fn served_ends_in_question(service: Service, desktop: Desktop)
    ensures
        ends_in_question(served(service, desktop)),
{
    assert(ends_in_question(cleared(service)));
    preceded_ends_in_question(forced_stop(service), cleared(service));
}

/// A batch ends in the question that the new phase waits to have answered.
pub proof fn batch_ends_in_question(supervisor: Supervisor, event: Event)
    requires
        supervisor.awaits(event),
    ensures
        ends_in_question(supervisor.after(event)),
{
    let service = supervisor.service;
    match (supervisor.phase, event) {
        (Phase::Poll, Event::Running(running)) => {
            if !running {
                assert(closed_down(service).1.last() == Action::Exit);
            }
        },
        (Phase::Look, Event::Session(desktop)) => {
            served_ends_in_question(service, desktop);
        },
        (Phase::Check(desktop), Event::Status { cm, now }) => {
            served_ends_in_question(service, desktop);
        },
        (Phase::Stopping(slot, then_do), Event::Looked(waited)) => {
            let actions = let_go(slot, waited);
            let reply = gone_on(service.with(slot, false), then_do);
            assert(ends_in_question(reply));
            preceded_ends_in_question(actions, reply);
        },
        (Phase::Decide(desktop), Event::Status { cm, now }) => {
            let reply = looked_after(service, desktop, cm, now);
            assert(ends_in_question(reply));
            preceded_ends_in_question(environment(service, desktop), reply);
        },
        (Phase::Reap(desktop, cm), Event::Looked(waited)) => {
            let slot = slot_for(desktop);
            let known = Service { cm0: cm, ..service };
            let reply = launching(known.with(slot, false), desktop);
            assert(ends_in_question(reply));
            preceded_ends_in_question(seq![Action::Discard(slot)], reply);
        },
        _ => {},
    }
}

/// However the loop is driven, at most one of the two slots holds a server.
pub proof fn at_most_one_server(start: Supervisor, events: Seq<Event>)
    requires
        start.wf(),
        is_dialogue(start, events),
    ensures
        run(start, events).0.wf(),
        !(run(start, events).0.service.server && run(start, events).0.service.user_server),
    decreases events.len(),
{
    if events.len() > 0 {
        at_most_one_server(start.after(events[0]).0, events.skip(1));
    }
}

/// Whether the action at `i` addresses a slot in the state that it needs: a
/// process that is killed, looked at, waited for or dropped is there; a server is
/// started into two empty slots, right after every server of the system has been
/// killed and given the service's interval to go.
pub open spec fn action_fits(
    service: Service,
    reply: (Supervisor, Seq<Action>),
    i: int,
) -> bool {
    match reply.1[i] {
        Action::Kill(slot) => service.holds(slot),
        Action::Wait(slot) => service.holds(slot),
        Action::Discard(slot) => service.holds(slot),
        Action::TryWait(slot) => service.holds(slot),
        Action::Start(_, _) => {
            &&& !reply.0.service.server
            &&& !reply.0.service.user_server
            &&& i >= 2
            &&& reply.1[i - 2] == Action::StopStrayServers
            &&& reply.1[i - 1] == Action::Sleep(service.interval)
        },
        _ => true,
    }
}

/// Whether every action of the reply fits the slots.
pub open spec fn batch_fits(service: Service, reply: (Supervisor, Seq<Action>)) -> bool {
    forall|i: int| 0 <= i < reply.1.len() ==> #[trigger] action_fits(service, reply, i)
}

proof fn preceded_fits(
    service: Service,
    actions: Seq<Action>,
    reply: (Supervisor, Seq<Action>),
)
    requires
        batch_fits(service, reply),
        batch_fits(service, (reply.0, actions)),
    ensures
        batch_fits(service, preceded(actions, reply)),
{
    let whole = preceded(actions, reply);
    assert forall|i: int| 0 <= i < whole.1.len() implies #[trigger] action_fits(
        service,
        whole,
        i,
    ) by {
        if i < actions.len() {
            assert(action_fits(service, (reply.0, actions), i));
        } else {
            assert(action_fits(service, reply, i - actions.len()));
        }
    }
}

proof fn served_fits(service: Service, desktop: Desktop)
    ensures
        batch_fits(service, served(service, desktop)),
{
    assert(batch_fits(service, cleared(service)));
    assert(batch_fits(service, (cleared(service).0, forced_stop(service))));
    preceded_fits(service, forced_stop(service), cleared(service));
}

/// No action addresses an empty slot, and a server is started only into empty
/// ones, after every other server of the system has been killed.
pub proof fn actions_fit_slots(supervisor: Supervisor, event: Event)
    requires
        supervisor.wf(),
        supervisor.awaits(event),
    ensures
        batch_fits(supervisor.service, supervisor.after(event)),
{
    let service = supervisor.service;
    match (supervisor.phase, event) {
        (Phase::Poll, Event::Running(running)) => {
            if !running {
                let (next, actions) = closed_down(service);
                assert forall|i: int| 0 <= i < actions.len() implies #[trigger] action_fits(
                    service,
                    (next, actions),
                    i,
                ) by {
                    assert(actions[i] matches Action::Kill(slot) ==> service.holds(slot));
                }
            }
        },
        (Phase::Look, Event::Session(desktop)) => {
            served_fits(service, desktop);
        },
        (Phase::Check(desktop), Event::Status { cm, now }) => {
            served_fits(service, desktop);
        },
        (Phase::Stopping(slot, then_do), Event::Looked(waited)) => {
            let actions = let_go(slot, waited);
            let reply = gone_on(service.with(slot, false), then_do);
            assert(batch_fits(service, reply));
            assert(batch_fits(service, (reply.0, actions)));
            preceded_fits(service, actions, reply);
        },
        (Phase::Decide(desktop), Event::Status { cm, now }) => {
            decided_fits(service, desktop, cm, now);
        },
        (Phase::Reap(desktop, cm), Event::Looked(waited)) => {
            let slot = slot_for(desktop);
            let known = Service { cm0: cm, ..service };
            let reply = launching(known.with(slot, false), desktop);
            launching_fits(service, known.with(slot, false), desktop);
            assert(batch_fits(service, (reply.0, seq![Action::Discard(slot)])));
            preceded_fits(service, seq![Action::Discard(slot)], reply);
        },
        _ => {},
    }
}

proof fn launching_fits(before: Service, service: Service, desktop: Desktop)
    requires
        !service.server,
        !service.user_server,
        service.interval == before.interval,
    ensures
        batch_fits(before, launching(service, desktop)),
{
    let (next, actions) = launching(service, desktop);
    assert(actions == seq![
        Action::StopStrayServers,
        Action::Sleep(service.interval),
        Action::Start(slot_for(desktop), launch_for(desktop)),
    ]);
}

proof fn decided_fits(service: Service, desktop: Desktop, cm: bool, now: u128)
    requires
        !service.holds(other_slot(slot_for(desktop))),
    ensures
        batch_fits(service, decided(service, desktop, cm, now)),
{
    let reply = looked_after(service, desktop, cm, now);
    let first = environment(service, desktop);
    if !service.holds(slot_for(desktop)) {
        launching_fits(service, Service { cm0: cm, ..noted(service, desktop) }, desktop);
    }
    assert(batch_fits(service, reply));
    assert(batch_fits(service, (reply.0, first)));
    preceded_fits(service, first, reply);
}

/// The user that is remembered changes only when a session of a new, known user
/// is looked after; the time of the last restart changes only when the loop begins
/// and when a server has been killed to be started anew; the interval never
/// changes.
pub proof fn memory_changes(supervisor: Supervisor, event: Event)
    requires
        supervisor.awaits(event),
    ensures
        ({
            let before = supervisor.service;
            let after = supervisor.after(event).0.service;
            &&& after.uid == before.uid || (supervisor.phase matches Phase::Decide(desktop)
                && user_changed(before.uid@, desktop) && after.uid == desktop.uid)
            &&& after.last_restart == before.last_restart || ((supervisor.phase is Boot
                || supervisor.phase is Restarted) && (event matches Event::Now(now)
                && after.last_restart == now))
            &&& after.interval == before.interval
        }),
{
}

/// Once a user is known, one always is.
pub proof fn known_user_stays_known(start: Supervisor, events: Seq<Event>)
    requires
        is_dialogue(start, events),
        start.service.uid@.len() > 0,
    ensures
        run(start, events).0.service.uid@.len() > 0,
    decreases events.len(),
{
    if events.len() > 0 {
        memory_changes(start, events[0]);
        known_user_stays_known(start.after(events[0]).0, events.skip(1));
    }
}

/// A change of user is acted on once: after a decision over a session, the next
/// decision over a session of the same user leaves the remembered user and the
/// environment alone, whichever way the session is served.
pub proof fn user_change_is_acted_on_once(
    service: Service,
    desktop: Desktop,
    cm: bool,
    now: u128,
    later: Service,
    again: Desktop,
    later_cm: bool,
    later_now: u128,
)
    requires
        later.uid@ == decided(service, desktop, cm, now).0.service.uid@,
        again.uid@ == desktop.uid@,
    ensures
        decided(later, again, later_cm, later_now).0.service.uid == later.uid,
        forall|i: int|
            0 <= i < decided(later, again, later_cm, later_now).1.len() ==> !(
            #[trigger] decided(later, again, later_cm, later_now).1[i] is SetX11Env),
{
    assert(!user_changed(later.uid@, again));
    let first = environment(later, again);
    let (next, rest) = looked_after(later, again, later_cm, later_now);
    assert(first + rest == rest);
    assert forall|i: int| 0 <= i < rest.len() implies !(#[trigger] rest[i] is SetX11Env) by {}
}

/// Stopping twice is stopping once: a slot that has been emptied stays as it is,
/// and stopping it again goes on at once, with no action of its own.
pub proof fn stopping_again_does_nothing(
    service: Service,
    slot: Slot,
    first_then: AfterStop,
    waited: Waited,
    then_do: AfterStop,
)
    ensures
        ({
            let rest = stopped(service, slot, first_then, waited).0.service;
            &&& !rest.holds(slot)
            &&& rest.with(slot, false) == rest
            &&& stop_begun(rest, slot, then_do) == gone_on(rest, then_do)
            &&& stop_begun(rest, slot, AfterStop::Rest) == settled(rest)
        }),
{
}

} // verus!
