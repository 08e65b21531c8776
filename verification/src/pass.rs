//! One pass of the service loop, from the question whether to go on to the
//! same question again.

use vstd::prelude::*;

use crate::desktop::Desktop;
use crate::service::{
    environment, forced_stop, launch_for, noted, other_slot, restart_due, served, serves_nobody,
    serves_user, serves_x11, slot_for, stopping, user_changed, Action, AfterStop, Event, Phase,
    Service, Slot, Supervisor, Waited, KILL_PAUSE, NANOS_PER_SEC, QUIET_PAUSE,
};
use crate::supervision::{is_dialogue, run};

verus! {

/// The answers that a pass may ask for, whether or not it comes to do so.
pub struct Answers {
    /// The active session.
    pub desktop: Desktop,
    /// Whether a connection is open, and the time, where the session's user is
    /// the one that was served last.
    pub early_cm: bool,
    pub early_now: u128,
    /// What became of the process that had to go.
    pub stopped: Waited,
    /// Whether a connection is open, and the time, once the session's server is
    /// looked after.
    pub cm: bool,
    pub now: u128,
    /// The time after the session's server was killed.
    pub clock: u128,
    /// What became of the session's server.
    pub looked: Waited,
    /// Whether a server was started.
    pub started: bool,
}

/// Whether the pass does more than pause: the session's user is a new one, or
/// a restart is due.
pub open spec fn needs_look(service: Service, answers: Answers) -> bool {
    &&& answers.desktop.sid@.len() > 0
    &&& user_changed(service.uid@, answers.desktop) || restart_due(
        service,
        answers.early_cm,
        answers.early_now,
    )
}

/// Whether a session of this kind gets a server.
pub open spec fn gets_server(desktop: Desktop) -> bool {
    serves_x11(desktop) || serves_user(desktop)
}

/// Whether the session's server is killed to be started anew.
pub open spec fn restarts(service: Service, answers: Answers) -> bool {
    &&& service.holds(slot_for(answers.desktop))
    &&& user_changed(service.uid@, answers.desktop) || restart_due(
        service,
        answers.cm,
        answers.now,
    )
}

/// Whether a server is started: there is none, or it has exited.
pub open spec fn starts(service: Service, answers: Answers) -> bool {
    !service.holds(slot_for(answers.desktop)) || answers.looked == Waited::Exited
}

/// The items if the condition holds, otherwise none.
pub open spec fn only_if<T>(condition: bool, items: Seq<T>) -> Seq<T> {
    if condition {
        items
    } else {
        seq![]
    }
}

/// A process is killed, given a moment, waited for where it is still there,
/// and dropped.
pub open spec fn stop_actions(slot: Slot, waited: Waited) -> Seq<Action> {
    seq![Action::Kill(slot), Action::Sleep(KILL_PAUSE), Action::TryWait(slot)]
        + only_if(waited == Waited::Running, seq![Action::Wait(slot)])
        + seq![Action::Discard(slot)]
}

/// The pass pauses and begins anew.
pub open spec fn pause_actions(millis: u64) -> Seq<Action> {
    seq![Action::Sleep(millis), Action::AskRunning]
}

/// What is done for a session that gets a server: the other slot is emptied,
/// and the server in the session's own slot is looked after.
pub open spec fn server_actions(service: Service, answers: Answers) -> Seq<Action> {
    let other = other_slot(slot_for(answers.desktop));
    only_if(service.holds(other), stop_actions(other, answers.stopped))
        + seq![Action::QueryStatus] + upkeep_actions(service, answers)
        + pause_actions(service.interval)
}

/// How the session's server is looked after: a new user's display is put into
/// the environment, a server of another user or one that is due is killed, and
/// where there is none, or none any more, one is started.
pub open spec fn upkeep_actions(service: Service, answers: Answers) -> Seq<Action> {
    let desktop = answers.desktop;
    let slot = slot_for(desktop);
    let held = service.holds(slot);
    environment(service, desktop) + only_if(
        restarts(service, answers),
        seq![Action::Kill(slot), Action::Sleep(KILL_PAUSE), Action::ReadClock],
    ) + only_if(held, seq![Action::TryWait(slot)]) + only_if(
        held && answers.looked == Waited::Exited,
        seq![Action::Discard(slot)],
    ) + only_if(
        starts(service, answers),
        forced_stop(service).push(Action::Start(slot, launch_for(desktop))),
    )
}

/// What is done for a session that nobody owns: every server goes.
pub open spec fn nobody_actions(service: Service, answers: Answers) -> Seq<Action> {
    forced_stop(service) + only_if(
        service.user_server,
        stop_actions(Slot::UserServer, answers.stopped),
    ) + only_if(service.server, stop_actions(Slot::Server, answers.stopped)) + pause_actions(
        service.interval,
    )
}

/// All the actions of a pass, in order.
pub open spec fn pass_actions(service: Service, answers: Answers) -> Seq<Action> {
    let desktop = answers.desktop;
    seq![Action::QueryDesktop] + only_if(
        desktop.sid@.len() > 0 && !user_changed(service.uid@, desktop),
        seq![Action::QueryStatus],
    ) + if !needs_look(service, answers) {
        pause_actions(QUIET_PAUSE)
    } else if gets_server(desktop) {
        server_actions(service, answers)
    } else if serves_nobody(desktop) {
        nobody_actions(service, answers)
    } else {
        pause_actions(service.interval)
    }
}

/// What the service remembers after looking after a session that gets a
/// server.
pub open spec fn server_outcome(service: Service, answers: Answers) -> Service {
    let desktop = answers.desktop;
    let slot = slot_for(desktop);
    Service {
        uid: noted(service, desktop).uid,
        cm0: answers.cm,
        last_restart: if restarts(service, answers) {
            answers.clock
        } else {
            service.last_restart
        },
        ..service
    }.with(other_slot(slot), false).with(slot, !starts(service, answers) || answers.started)
}

/// What the service remembers after a pass.
pub open spec fn pass_outcome(service: Service, answers: Answers) -> Service {
    if !needs_look(service, answers) {
        service
    } else if gets_server(answers.desktop) {
        server_outcome(service, answers)
    } else if serves_nobody(answers.desktop) {
        Service { server: false, user_server: false, ..service }
    } else {
        service
    }
}

/// The answers that a session with a server asks for, in order.
pub open spec fn server_events(service: Service, answers: Answers) -> Seq<Event> {
    let slot = slot_for(answers.desktop);
    only_if(service.holds(other_slot(slot)), seq![Event::Looked(answers.stopped)])
        + decide_events(service, answers)
}

/// The answers that are asked for once the other slot is empty.
pub open spec fn decide_events(service: Service, answers: Answers) -> Seq<Event> {
    let slot = slot_for(answers.desktop);
    seq![Event::Status { cm: answers.cm, now: answers.now }] + only_if(
        restarts(service, answers),
        seq![Event::Now(answers.clock)],
    ) + only_if(service.holds(slot), seq![Event::Looked(answers.looked)]) + only_if(
        starts(service, answers),
        seq![Event::Launched(answers.started)],
    )
}

/// The answers that a pass asks for, in order.
pub open spec fn pass_events(service: Service, answers: Answers) -> Seq<Event> {
    let desktop = answers.desktop;
    seq![Event::Running(true), Event::Session(desktop)] + only_if(
        desktop.sid@.len() > 0 && !user_changed(service.uid@, desktop),
        seq![Event::Status { cm: answers.early_cm, now: answers.early_now }],
    ) + only_if(
        needs_look(service, answers),
        if gets_server(desktop) {
            server_events(service, answers)
        } else {
            only_if(
                serves_nobody(desktop) && (service.server || service.user_server),
                seq![Event::Looked(answers.stopped)],
            )
        },
    )
}

proof fn run_one(start: Supervisor, event: Event, rest: Seq<Event>)
    ensures
        run(start, seq![event] + rest) == (
            run(start.after(event).0, rest).0,
            start.after(event).1 + run(start.after(event).0, rest).1,
        ),
        is_dialogue(start, seq![event] + rest) == (start.awaits(event) && is_dialogue(
            start.after(event).0,
            rest,
        )),
{
    let events = seq![event] + rest;
    assert(events[0] == event);
    assert(events.skip(1) == rest);
}

proof fn run_none(start: Supervisor)
    ensures
        run(start, seq![]) == (start, Seq::<Action>::empty()),
        is_dialogue(start, seq![]),
{
}

proof fn launching_run(service: Service, slot: Slot, started: bool)
    ensures
        run(
            Supervisor { service, phase: Phase::Launching(slot) },
            seq![Event::Launched(started)],
        ) == (
            Supervisor { service: service.with(slot, started), phase: Phase::Poll },
            pause_actions(service.interval),
        ),
        is_dialogue(
            Supervisor { service, phase: Phase::Launching(slot) },
            seq![Event::Launched(started)],
        ),
{
    let start = Supervisor { service, phase: Phase::Launching(slot) };
    let event = Event::Launched(started);
    run_one(start, event, seq![]);
    run_none(start.after(event).0);
    assert(seq![event] + Seq::<Event>::empty() == seq![event]);
    assert(service.with(slot, started).interval == service.interval);
}

proof fn reap_run(service: Service, cm: bool, answers: Answers)
    ensures
        ({
            let slot = slot_for(answers.desktop);
            let exited = answers.looked == Waited::Exited;
            let known = Service { cm0: cm, ..service };
            run(
                Supervisor { service, phase: Phase::Reap(answers.desktop, cm) },
                seq![Event::Looked(answers.looked)] + only_if(
                    exited,
                    seq![Event::Launched(answers.started)],
                ),
            ) == (
                Supervisor {
                    service: if exited {
                        known.with(slot, answers.started)
                    } else {
                        known
                    },
                    phase: Phase::Poll,
                },
                only_if(
                    exited,
                    seq![Action::Discard(slot)] + forced_stop(service).push(
                        Action::Start(slot, launch_for(answers.desktop)),
                    ),
                ) + pause_actions(service.interval),
            )
        }),
        is_dialogue(
            Supervisor { service, phase: Phase::Reap(answers.desktop, cm) },
            seq![Event::Looked(answers.looked)] + only_if(
                answers.looked == Waited::Exited,
                seq![Event::Launched(answers.started)],
            ),
        ),
{
    let slot = slot_for(answers.desktop);
    let exited = answers.looked == Waited::Exited;
    let known = Service { cm0: cm, ..service };
    let start = Supervisor { service, phase: Phase::Reap(answers.desktop, cm) };
    let event = Event::Looked(answers.looked);
    let rest = only_if(exited, seq![Event::Launched(answers.started)]);
    run_one(start, event, rest);
    if exited {
        launching_run(known.with(slot, false), slot, answers.started);
        assert(known.with(slot, false).with(slot, answers.started) == known.with(
            slot,
            answers.started,
        ));
        assert(start.after(event).1 == seq![Action::Discard(slot)] + forced_stop(service).push(
            Action::Start(slot, launch_for(answers.desktop)),
        ));
    } else {
        run_none(start.after(event).0);
        assert(rest == Seq::<Event>::empty());
        assert(start.after(event).1 + Seq::<Action>::empty() == pause_actions(service.interval));
        assert(Seq::<Action>::empty() + pause_actions(service.interval) == pause_actions(
            service.interval,
        ));
    }
}

/// What [`decide_run`] states, for its proof in three cases.
spec fn decides(service: Service, answers: Answers) -> bool {
    let start = Supervisor { service, phase: Phase::Decide(answers.desktop) };
    &&& run(start, decide_events(service, answers)) == (
        Supervisor { service: server_outcome(service, answers), phase: Phase::Poll },
        upkeep_actions(service, answers) + pause_actions(service.interval),
    )
    &&& is_dialogue(start, decide_events(service, answers))
}

proof fn decide_run_without_server(service: Service, answers: Answers)
    requires
        !service.server,
        !service.user_server,
    ensures
        decides(service, answers),
{
    let desktop = answers.desktop;
    let slot = slot_for(desktop);
    let known = Service { cm0: answers.cm, ..noted(service, desktop) };
    let start = Supervisor { service, phase: Phase::Decide(desktop) };
    let event = Event::Status { cm: answers.cm, now: answers.now };
    let start_actions = forced_stop(service).push(Action::Start(slot, launch_for(desktop)));
    let rest = seq![Event::Launched(answers.started)];
    assert(decide_events(service, answers) == seq![event] + rest);
    run_one(start, event, rest);
    launching_run(known, slot, answers.started);
    assert(start.after(event).1 == environment(service, desktop) + start_actions);
    assert(upkeep_actions(service, answers) == environment(service, desktop) + start_actions);
    assert(known.with(slot, answers.started) == server_outcome(service, answers));
}

proof fn decide_run_with_restart(service: Service, answers: Answers)
    requires
        !service.holds(other_slot(slot_for(answers.desktop))),
        restarts(service, answers),
    ensures
        decides(service, answers),
{
    let desktop = answers.desktop;
    let slot = slot_for(desktop);
    let exited = answers.looked == Waited::Exited;
    let known = noted(service, desktop);
    let start = Supervisor { service, phase: Phase::Decide(desktop) };
    let event = Event::Status { cm: answers.cm, now: answers.now };
    let clock = Event::Now(answers.clock);
    let looked = seq![Event::Looked(answers.looked)] + only_if(
        exited,
        seq![Event::Launched(answers.started)],
    );
    let kill = seq![Action::Kill(slot), Action::Sleep(KILL_PAUSE), Action::ReadClock];
    let killed = Supervisor { service: known, phase: Phase::Restarted(desktop, answers.cm) };
    let stamped = Service { last_restart: answers.clock, ..known };
    let reaping = Supervisor { service: stamped, phase: Phase::Reap(desktop, answers.cm) };
    assert(decide_events(service, answers) == seq![event] + (seq![clock] + looked));
    run_one(start, event, seq![clock] + looked);
    assert(start.after(event) == (killed, environment(service, desktop) + kill));
    run_one(killed, clock, looked);
    reap_run(stamped, answers.cm, answers);
    assert(forced_stop(stamped) == forced_stop(service));
    let (end, actions) = run(reaping, looked);
    assert(end.service == server_outcome(service, answers));
    assert(environment(service, desktop) + kill + (seq![Action::TryWait(slot)] + actions)
        == upkeep_actions(service, answers) + pause_actions(service.interval));
}

proof fn decide_run_as_is(service: Service, answers: Answers)
    requires
        !service.holds(other_slot(slot_for(answers.desktop))),
        service.holds(slot_for(answers.desktop)),
        !restarts(service, answers),
    ensures
        decides(service, answers),
{
    let desktop = answers.desktop;
    let slot = slot_for(desktop);
    let exited = answers.looked == Waited::Exited;
    let start = Supervisor { service, phase: Phase::Decide(desktop) };
    let event = Event::Status { cm: answers.cm, now: answers.now };
    let looked = seq![Event::Looked(answers.looked)] + only_if(
        exited,
        seq![Event::Launched(answers.started)],
    );
    let reaping = Supervisor { service, phase: Phase::Reap(desktop, answers.cm) };
    assert(decide_events(service, answers) == seq![event] + looked);
    run_one(start, event, looked);
    assert(start.after(event) == (reaping, seq![Action::TryWait(slot)]));
    reap_run(service, answers.cm, answers);
    let (end, actions) = run(reaping, looked);
    assert(end.service == server_outcome(service, answers));
    assert(seq![Action::TryWait(slot)] + actions == upkeep_actions(service, answers)
        + pause_actions(service.interval));
}

proof fn decide_run(service: Service, answers: Answers)
    requires
        !service.holds(other_slot(slot_for(answers.desktop))),
    ensures
        decides(service, answers),
{
    if !service.holds(slot_for(answers.desktop)) {
        decide_run_without_server(service, answers);
    } else if restarts(service, answers) {
        decide_run_with_restart(service, answers);
    } else {
        decide_run_as_is(service, answers);
    }
}

proof fn other_slot_is_not_read(service: Service, answers: Answers)
    ensures
        ({
            let rest = service.with(other_slot(slot_for(answers.desktop)), false);
            &&& decide_events(rest, answers) == decide_events(service, answers)
            &&& server_outcome(rest, answers) == server_outcome(service, answers)
            &&& upkeep_actions(rest, answers) == upkeep_actions(service, answers)
            &&& rest.interval == service.interval
        }),
{
    let rest = service.with(other_slot(slot_for(answers.desktop)), false);
    assert(restarts(rest, answers) == restarts(service, answers));
    assert(starts(rest, answers) == starts(service, answers));
    assert(forced_stop(rest) == forced_stop(service));
}

proof fn regroup(a: Seq<Action>, b: Seq<Action>, c: Seq<Action>, d: Seq<Action>)
    ensures
        a + b + c + d == a + (b + (c + d)),
{
    assert(a + b + c + d == a + (b + (c + d)));
}

proof fn stop_other_run(service: Service, answers: Answers)
    requires
        service.holds(other_slot(slot_for(answers.desktop))),
    ensures
        ({
            let other = other_slot(slot_for(answers.desktop));
            let looked = Event::Looked(answers.stopped);
            let (stop, kill) = stopping(
                service,
                other,
                AfterStop::Serve(answers.desktop),
            );
            let (next, dropped) = stop.after(looked);
            &&& next == Supervisor {
                service: service.with(other, false),
                phase: Phase::Decide(answers.desktop),
            }
            &&& kill + dropped == stop_actions(other, answers.stopped) + seq![Action::QueryStatus]
        }),
{
}

proof fn server_run(start: Supervisor, event: Event, service: Service, answers: Answers)
    requires
        start.after(event) == served(service, answers.desktop),
        gets_server(answers.desktop),
        start.awaits(event),
    ensures
        is_dialogue(start, seq![event] + server_events(service, answers)),
        run(start, seq![event] + server_events(service, answers)) == (
            Supervisor { service: server_outcome(service, answers), phase: Phase::Poll },
            server_actions(service, answers),
        ),
{
    let other = other_slot(slot_for(answers.desktop));
    let rest = service.with(other, false);
    let (next, first) = start.after(event);
    let upkeep = upkeep_actions(service, answers);
    let pause = pause_actions(service.interval);
    let events = decide_events(service, answers);
    run_one(start, event, server_events(service, answers));
    decide_run(rest, answers);
    other_slot_is_not_read(service, answers);
    if service.holds(other) {
        let looked = Event::Looked(answers.stopped);
        assert(server_events(service, answers) == seq![looked] + events);
        run_one(next, looked, events);
        stop_other_run(service, answers);
        regroup(first, next.after(looked).1, upkeep, pause);
    } else {
        assert(rest == service);
        assert(Seq::<Event>::empty() + events == events);
        regroup(Seq::<Action>::empty(), seq![Action::QueryStatus], upkeep, pause);
        let all = seq![Action::QueryStatus] + (upkeep + pause);
        assert(Seq::<Action>::empty() + all == all);
    }
}

proof fn nobody_run(start: Supervisor, event: Event, service: Service, answers: Answers)
    requires
        start.after(event) == served(service, answers.desktop),
        serves_nobody(answers.desktop),
        !(service.server && service.user_server),
        start.awaits(event),
    ensures
        is_dialogue(
            start,
            seq![event] + only_if(
                service.server || service.user_server,
                seq![Event::Looked(answers.stopped)],
            ),
        ),
        run(
            start,
            seq![event] + only_if(
                service.server || service.user_server,
                seq![Event::Looked(answers.stopped)],
            ),
        ) == (
            Supervisor {
                service: Service { server: false, user_server: false, ..service },
                phase: Phase::Poll,
            },
            nobody_actions(service, answers),
        ),
{
    let looked = Event::Looked(answers.stopped);
    let rest = only_if(service.server || service.user_server, seq![looked]);
    let next = start.after(event).0;
    run_one(start, event, rest);
    if service.server || service.user_server {
        let end = next.after(looked).0;
        assert(rest == seq![looked] + Seq::<Event>::empty());
        run_one(next, looked, seq![]);
        run_none(end);
        assert(start.after(event).1 + (next.after(looked).1 + Seq::<Action>::empty())
            == nobody_actions(service, answers));
    } else {
        run_none(next);
        assert(start.after(event).1 + Seq::<Action>::empty() == nobody_actions(service, answers));
    }
}

/// A pass does exactly what [`pass_actions`] lists, asks for exactly the
/// answers in [`pass_events`], and leaves the service as [`pass_outcome`] says.
pub proof fn pass_runs(service: Service, answers: Answers)
    requires
        !(service.server && service.user_server),
    ensures
        is_dialogue(
            Supervisor { service, phase: Phase::Poll },
            pass_events(service, answers),
        ),
        run(
            Supervisor { service, phase: Phase::Poll },
            pass_events(service, answers),
        ) == (
            Supervisor { service: pass_outcome(service, answers), phase: Phase::Poll },
            pass_actions(service, answers),
        ),
{
    let desktop = answers.desktop;
    let start = Supervisor { service, phase: Phase::Poll };
    let looking = Supervisor { service, phase: Phase::Look };
    let checking = Supervisor { service, phase: Phase::Check(desktop) };
    let session = Event::Session(desktop);
    let status = Event::Status { cm: answers.early_cm, now: answers.early_now };
    let checked = desktop.sid@.len() > 0 && !user_changed(service.uid@, desktop);
    let work = if gets_server(desktop) {
        server_events(service, answers)
    } else {
        only_if(
            serves_nobody(desktop) && (service.server || service.user_server),
            seq![Event::Looked(answers.stopped)],
        )
    };
    let work_actions = if gets_server(desktop) {
        server_actions(service, answers)
    } else if serves_nobody(desktop) {
        nobody_actions(service, answers)
    } else {
        pause_actions(service.interval)
    };
    let rest = only_if(needs_look(service, answers), work);
    let (last, last_event) = if checked {
        (checking, status)
    } else {
        (looking, session)
    };
    let tail = seq![last_event] + rest;
    // From the last question before the work on.
    assert(run(last, tail) == (
        Supervisor { service: pass_outcome(service, answers), phase: Phase::Poll },
        if needs_look(service, answers) {
            work_actions
        } else {
            pause_actions(QUIET_PAUSE)
        },
    ) && is_dialogue(last, tail)) by {
        if needs_look(service, answers) {
            assert(rest == work);
            if gets_server(desktop) {
                server_run(last, last_event, service, answers);
            } else if serves_nobody(desktop) {
                nobody_run(last, last_event, service, answers);
            } else {
                run_one(last, last_event, seq![]);
                run_none(last.after(last_event).0);
                assert(work == Seq::<Event>::empty());
                assert(work_actions + Seq::<Action>::empty() == work_actions);
            }
        } else {
            run_one(last, last_event, seq![]);
            run_none(last.after(last_event).0);
            assert(rest == Seq::<Event>::empty());
            assert(pause_actions(QUIET_PAUSE) + Seq::<Action>::empty() == pause_actions(
                QUIET_PAUSE,
            ));
        }
    }
    let actions = run(last, tail).1;
    if checked {
        assert(pass_events(service, answers) == seq![Event::Running(true)] + (seq![session]
            + tail));
        run_one(start, Event::Running(true), seq![session] + tail);
        run_one(looking, session, tail);
        assert(pass_actions(service, answers) == seq![Action::QueryDesktop] + (
        seq![Action::QueryStatus] + actions));
    } else {
        assert(pass_events(service, answers) == seq![Event::Running(true)] + tail);
        run_one(start, Event::Running(true), tail);
        assert(pass_actions(service, answers) == seq![Action::QueryDesktop] + actions);
    }
}

/// While the session's user stays the same and a connection is open, a pass
/// only asks and pauses: it kills nothing, starts nothing and changes nothing, not
/// even the environment.
pub proof fn open_connection_is_left_alone(service: Service, answers: Answers)
    requires
        !user_changed(service.uid@, answers.desktop),
        answers.early_cm,
    ensures
        pass_outcome(service, answers) == service,
        forall|i: int|
            0 <= i < pass_actions(service, answers).len() ==> {
                ||| #[trigger] pass_actions(service, answers)[i] is QueryDesktop
                ||| pass_actions(service, answers)[i] is QueryStatus
                ||| pass_actions(service, answers)[i] is Sleep
                ||| pass_actions(service, answers)[i] is AskRunning
            },
{
}

/// Without a session a pass only pauses.
pub proof fn no_session_no_work(service: Service, answers: Answers)
    requires
        answers.desktop.sid@.len() == 0,
    ensures
        pass_outcome(service, answers) == service,
        pass_actions(service, answers) == seq![
            Action::QueryDesktop,
            Action::Sleep(QUIET_PAUSE),
            Action::AskRunning,
        ],
{
}

/// A user whose session was looked after is the one that is remembered, so
/// the next pass over the same session does not take the user for a new one.
pub proof fn served_user_is_remembered(service: Service, answers: Answers)
    requires
        needs_look(service, answers),
        gets_server(answers.desktop),
    ensures
        !user_changed(pass_outcome(service, answers).uid@, answers.desktop),
{
}

/// After a pass over a session that gets a server, the other slot is empty.
pub proof fn served_session_owns_the_only_server(service: Service, answers: Answers)
    requires
        needs_look(service, answers),
        gets_server(answers.desktop),
    ensures
        !pass_outcome(service, answers).holds(other_slot(slot_for(answers.desktop))),
{
}

/// A server is restarted for its age only when no connection is open and more
/// than a minute has passed, and once an hour is over it is restarted whenever
/// no connection is open.
pub proof fn restart_times(service: Service, cm: bool, now: u128)
    ensures
        restart_due(service, cm, now) ==> !cm && now - service.last_restart >= 61
            * NANOS_PER_SEC,
        !cm && now - service.last_restart >= 3601 * NANOS_PER_SEC ==> restart_due(
            service,
            cm,
            now,
        ),
        !cm && service.cm0 && now - service.last_restart >= 61 * NANOS_PER_SEC ==> restart_due(
            service,
            cm,
            now,
        ),
        restart_due(service, cm, now) && !service.cm0 ==> now - service.last_restart >= 3601
            * NANOS_PER_SEC,
{
}

/// When the loop is told to end, every server that is still held is killed, and
/// none is held any more.
pub proof fn end_kills_servers(service: Service, slot: Slot)
    ensures
        ({
            let (end, actions) = Supervisor { service, phase: Phase::Poll }.after(
                Event::Running(false),
            );
            &&& service.holds(slot) ==> actions.contains(Action::Kill(slot))
            &&& !end.service.holds(slot)
            &&& end.phase is Done
            &&& actions.last() is Exit
        }),
{
    let (end, actions) = Supervisor { service, phase: Phase::Poll }.after(Event::Running(false));
    if service.holds(slot) {
        if slot == Slot::UserServer {
            assert(actions[0] == Action::Kill(slot));
        } else if service.user_server {
            assert(actions[1] == Action::Kill(slot));
        } else {
            assert(actions[0] == Action::Kill(slot));
        }
    }
}

} // verus!
