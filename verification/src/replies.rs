//! What the supervisor answers to each event, read off the session's and the
//! service's own fields, in whatever state it waits.

use vstd::prelude::*;

use crate::desktop::Desktop;
use crate::service::{
    decided, Action, AfterStop, Event, Launch, Phase, Service, Slot, Supervisor, Waited,
};

verus! {

/// Whether the supervisor answers the event with these actions, and then remembers
/// `next` and waits in `phase`.
pub open spec fn answers(
    supervisor: Supervisor,
    event: Event,
    next: Service,
    phase: Phase,
    actions: Seq<Action>,
) -> bool {
    &&& supervisor.awaits(event)
    &&& supervisor.after(event).0 == (Supervisor { service: next, phase })
    &&& supervisor.after(event).1 =~= actions
}

/// Without a session the pass ends after half a second; for a user who stays, or is
/// not known, the status is asked for first.
pub proof fn session_is_looked_at(service: Service, desktop: Desktop)
    ensures
        desktop.sid@.len() == 0 ==> answers(
            Supervisor { service, phase: Phase::Look },
            Event::Session(desktop),
            service,
            Phase::Poll,
            seq![Action::Sleep(500), Action::AskRunning],
        ),
        desktop.sid@.len() > 0 && (desktop.uid@ == service.uid@ || desktop.uid@.len() == 0)
            ==> answers(
            Supervisor { service, phase: Phase::Look },
            Event::Session(desktop),
            service,
            Phase::Check(desktop),
            seq![Action::QueryStatus],
        ),
{
}

/// While no restart is due, the pass ends after half a second.
pub proof fn nothing_is_due(service: Service, desktop: Desktop, cm: bool, now: u128)
    requires
        cm || (now - service.last_restart < 3601_000_000_000 && (!service.cm0
            || now - service.last_restart < 61_000_000_000)),
    ensures
        answers(
            Supervisor { service, phase: Phase::Check(desktop) },
            Event::Status { cm, now },
            service,
            Phase::Poll,
            seq![Action::Sleep(500), Action::AskRunning],
        ),
{
}

/// A session whose server is due is taken up as that of a new user is: the two differ
/// in nothing but what was asked before.
pub proof fn due_session_is_taken_up_as_a_new_one(
    service: Service,
    other_uid: String,
    desktop: Desktop,
    now: u128,
)
    requires
        desktop.sid@.len() > 0,
        desktop.uid@.len() > 0,
        desktop.uid@ != other_uid@,
        (service.cm0 && now - service.last_restart >= 61_000_000_000)
            || now - service.last_restart >= 3601_000_000_000,
    ensures
        ({
            let due = Supervisor { service, phase: Phase::Check(desktop) }.after(
                Event::Status { cm: false, now },
            );
            let known = Service { uid: other_uid, ..service };
            let new = Supervisor { service: known, phase: Phase::Look }.after(
                Event::Session(desktop),
            );
            &&& due.1 =~= new.1
            &&& due.0.phase == new.0.phase
            &&& due.0.service == service
            &&& new.0.service == known
        }),
{
}

/// When a restart is due, a session on X11 or of root is taken up whatever its
/// identifiers: the server of a user goes first, and otherwise the status decides.
pub proof fn due_x11_session_is_taken_up(service: Service, desktop: Desktop, now: u128)
    requires
        (service.cm0 && now - service.last_restart >= 61_000_000_000)
            || now - service.last_restart >= 3601_000_000_000,
        !desktop.wayland || desktop.username@ == "root"@,
    ensures
        service.user_server ==> answers(
            Supervisor { service, phase: Phase::Check(desktop) },
            Event::Status { cm: false, now },
            service,
            Phase::Stopping(Slot::UserServer, AfterStop::Serve(desktop)),
            seq![
                Action::Kill(Slot::UserServer),
                Action::Sleep(30),
                Action::TryWait(Slot::UserServer),
            ],
        ),
        !service.user_server ==> answers(
            Supervisor { service, phase: Phase::Check(desktop) },
            Event::Status { cm: false, now },
            service,
            Phase::Decide(desktop),
            seq![
                Action::QueryStatus,
            ],
        ),
{
}

/// When a restart is due, a user's session on Wayland is taken up whatever its
/// identifiers: the service's own server goes first, and otherwise the status decides.
pub proof fn due_user_session_is_taken_up(service: Service, desktop: Desktop, now: u128)
    requires
        (service.cm0 && now - service.last_restart >= 61_000_000_000)
            || now - service.last_restart >= 3601_000_000_000,
        desktop.wayland,
        desktop.username@.len() > 0,
        desktop.username@ != "root"@,
        desktop.username@ != "gdm"@,
    ensures
        service.server ==> answers(
            Supervisor { service, phase: Phase::Check(desktop) },
            Event::Status { cm: false, now },
            service,
            Phase::Stopping(Slot::Server, AfterStop::Serve(desktop)),
            seq![
                Action::Kill(Slot::Server),
                Action::Sleep(30),
                Action::TryWait(Slot::Server),
            ],
        ),
        !service.server ==> answers(
            Supervisor { service, phase: Phase::Check(desktop) },
            Event::Status { cm: false, now },
            service,
            Phase::Decide(desktop),
            seq![
                Action::QueryStatus,
            ],
        ),
{
}

/// When a restart is due, the greeter's session on Wayland is left alone.
pub proof fn due_greeter_session_is_not_taken_up(service: Service, desktop: Desktop, now: u128)
    requires
        (service.cm0 && now - service.last_restart >= 61_000_000_000)
            || now - service.last_restart >= 3601_000_000_000,
        desktop.wayland,
        desktop.username@ == "gdm"@,
    ensures
        answers(
            Supervisor { service, phase: Phase::Check(desktop) },
            Event::Status { cm: false, now },
            service,
            Phase::Poll,
            seq![
                Action::Sleep(service.interval),
                Action::AskRunning,
            ],
        ),
{
    reveal_strlit("root");
    reveal_strlit("gdm");
    assert("root"@.len() == 4 && "gdm"@.len() == 3);
}

/// When a restart is due and nobody owns the session on Wayland, stray servers are
/// killed, and then the one that is held.
pub proof fn due_ownerless_session_ends_servers(service: Service, desktop: Desktop, now: u128)
    requires
        (service.cm0 && now - service.last_restart >= 61_000_000_000)
            || now - service.last_restart >= 3601_000_000_000,
        desktop.wayland,
        desktop.username@.len() == 0,
    ensures
        service.user_server ==> answers(
            Supervisor { service, phase: Phase::Check(desktop) },
            Event::Status { cm: false, now },
            service,
            Phase::Stopping(Slot::UserServer, AfterStop::StopServer),
            seq![
                Action::StopStrayServers,
                Action::Sleep(service.interval),
                Action::Kill(Slot::UserServer),
                Action::Sleep(30),
                Action::TryWait(Slot::UserServer),
            ],
        ),
        !service.user_server && service.server ==> answers(
            Supervisor { service, phase: Phase::Check(desktop) },
            Event::Status { cm: false, now },
            service,
            Phase::Stopping(Slot::Server, AfterStop::Rest),
            seq![
                Action::StopStrayServers,
                Action::Sleep(service.interval),
                Action::Kill(Slot::Server),
                Action::Sleep(30),
                Action::TryWait(Slot::Server),
            ],
        ),
        !service.user_server && !service.server ==> answers(
            Supervisor { service, phase: Phase::Check(desktop) },
            Event::Status { cm: false, now },
            service,
            Phase::Poll,
            seq![
                Action::StopStrayServers,
                Action::Sleep(service.interval),
                Action::Sleep(service.interval),
                Action::AskRunning,
            ],
        ),
{
    reveal_strlit("root");
    reveal_strlit("gdm");
    assert("root"@.len() == 4 && "gdm"@.len() == 3);
}

/// A session that needs a look and is served by the service itself: the server of a
/// user goes first, and otherwise the status decides.
pub proof fn x11_session_is_taken_up(service: Service, desktop: Desktop)
    requires
        desktop.sid@.len() > 0,
        desktop.uid@.len() > 0,
        desktop.uid@ != service.uid@,
        !desktop.wayland || desktop.username@ == "root"@,
    ensures
        service.user_server ==> answers(
            Supervisor { service, phase: Phase::Look },
            Event::Session(desktop),
            service,
            Phase::Stopping(Slot::UserServer, AfterStop::Serve(desktop)),
            seq![
                Action::Kill(Slot::UserServer),
                Action::Sleep(30),
                Action::TryWait(Slot::UserServer),
            ],
        ),
        !service.user_server ==> answers(
            Supervisor { service, phase: Phase::Look },
            Event::Session(desktop),
            service,
            Phase::Decide(desktop),
            seq![Action::QueryStatus],
        ),
{
}

/// A session that needs a look and is served by a server of its user: the service's
/// own server goes first, and otherwise the status decides.
pub proof fn user_session_is_taken_up(service: Service, desktop: Desktop)
    requires
        desktop.sid@.len() > 0,
        desktop.uid@.len() > 0,
        desktop.uid@ != service.uid@,
        desktop.wayland,
        desktop.username@.len() > 0,
        desktop.username@ != "root"@,
        desktop.username@ != "gdm"@,
    ensures
        service.server ==> answers(
            Supervisor { service, phase: Phase::Look },
            Event::Session(desktop),
            service,
            Phase::Stopping(Slot::Server, AfterStop::Serve(desktop)),
            seq![Action::Kill(Slot::Server), Action::Sleep(30), Action::TryWait(Slot::Server)],
        ),
        !service.server ==> answers(
            Supervisor { service, phase: Phase::Look },
            Event::Session(desktop),
            service,
            Phase::Decide(desktop),
            seq![Action::QueryStatus],
        ),
{
}

/// A server that made way for the session's is waited for where it is still there and
/// let go of; its slot is then empty, the other is left alone, and the status decides.
pub proof fn other_server_has_made_way(
    service: Service,
    slot: Slot,
    desktop: Desktop,
    waited: Waited,
)
    ensures
        answers(
            Supervisor { service, phase: Phase::Stopping(slot, AfterStop::Serve(desktop)) },
            Event::Looked(waited),
            match slot {
                Slot::Server => Service { server: false, ..service },
                Slot::UserServer => Service { user_server: false, ..service },
            },
            Phase::Decide(desktop),
            match waited {
                Waited::Running => seq![
                    Action::Wait(slot),
                    Action::Discard(slot),
                    Action::QueryStatus,
                ],
                _ => seq![Action::Discard(slot), Action::QueryStatus],
            },
        ),
{
}

/// The service's own server, once killed for a session that nobody owns, is waited for
/// where it is still there and let go of, and the pass ends.
pub proof fn last_server_has_gone(service: Service, waited: Waited)
    ensures
        answers(
            Supervisor { service, phase: Phase::Stopping(Slot::Server, AfterStop::Rest) },
            Event::Looked(waited),
            Service { server: false, ..service },
            Phase::Poll,
            match waited {
                Waited::Running => seq![
                    Action::Wait(Slot::Server),
                    Action::Discard(Slot::Server),
                    Action::Sleep(service.interval),
                    Action::AskRunning,
                ],
                _ => seq![
                    Action::Discard(Slot::Server),
                    Action::Sleep(service.interval),
                    Action::AskRunning,
                ],
            },
        ),
{
}

/// The server of a user, once killed for a session that nobody owns, is waited for
/// where it is still there and let go of; with no other server the pass ends.
pub proof fn user_server_has_gone(service: Service, waited: Waited)
    requires
        !service.server,
    ensures
        answers(
            Supervisor { service, phase: Phase::Stopping(Slot::UserServer, AfterStop::StopServer) },
            Event::Looked(waited),
            Service { user_server: false, ..service },
            Phase::Poll,
            match waited {
                Waited::Running => seq![
                    Action::Wait(Slot::UserServer),
                    Action::Discard(Slot::UserServer),
                    Action::Sleep(service.interval),
                    Action::AskRunning,
                ],
                _ => seq![
                    Action::Discard(Slot::UserServer),
                    Action::Sleep(service.interval),
                    Action::AskRunning,
                ],
            },
        ),
{
}

/// The status that is asked for last decides over the session's server, whatever was
/// known of it before.
pub proof fn status_decides(service: Service, desktop: Desktop, cm: bool, now: u128)
    ensures
        ({
            let waiting = Supervisor { service, phase: Phase::Decide(desktop) };
            let status = Event::Status { cm, now };
            &&& waiting.awaits(status)
            &&& waiting.after(status) == decided(service, desktop, cm, now)
        }),
{
}

/// The time at which a server was killed to be started anew is remembered, and that
/// server is looked at.
pub proof fn restart_is_timed(service: Service, desktop: Desktop, cm: bool, now: u128)
    ensures
        answers(
            Supervisor { service, phase: Phase::Restarted(desktop, cm) },
            Event::Now(now),
            Service { last_restart: now, ..service },
            Phase::Reap(desktop, cm),
            seq![
                Action::TryWait(
                    if !desktop.wayland || desktop.username@ == "root"@ {
                        Slot::Server
                    } else {
                        Slot::UserServer
                    },
                ),
            ],
        ),
{
}

/// A server that is still there, or could not be looked at, is kept, and the pass ends.
pub proof fn server_that_is_there_is_kept(
    service: Service,
    desktop: Desktop,
    cm: bool,
    waited: Waited,
)
    requires
        waited != Waited::Exited,
    ensures
        answers(
            Supervisor { service, phase: Phase::Reap(desktop, cm) },
            Event::Looked(waited),
            Service { cm0: cm, ..service },
            Phase::Poll,
            seq![Action::Sleep(service.interval), Action::AskRunning],
        ),
{
}

/// A server of the service's own that has exited is let go of and started anew, after
/// every stray one has been killed.
pub proof fn exited_x11_server_is_started_anew(service: Service, desktop: Desktop, cm: bool)
    requires
        !desktop.wayland || desktop.username@ == "root"@,
    ensures
        answers(
            Supervisor { service, phase: Phase::Reap(desktop, cm) },
            Event::Looked(Waited::Exited),
            Service { cm0: cm, server: false, ..service },
            Phase::Launching(Slot::Server),
            seq![
                Action::Discard(Slot::Server),
                Action::StopStrayServers,
                Action::Sleep(service.interval),
                Action::Start(Slot::Server, Launch::RunMe),
            ],
        ),
{
}

/// A server of the session's user that has exited is let go of and started anew, after
/// every stray one has been killed.
pub proof fn exited_user_server_is_started_anew(service: Service, desktop: Desktop, cm: bool)
    requires
        desktop.wayland,
        desktop.username@ != "root"@,
    ensures
        answers(
            Supervisor { service, phase: Phase::Reap(desktop, cm) },
            Event::Looked(Waited::Exited),
            Service { cm0: cm, user_server: false, ..service },
            Phase::Launching(Slot::UserServer),
            seq![
                Action::Discard(Slot::UserServer),
                Action::StopStrayServers,
                Action::Sleep(service.interval),
                Action::Start(
                    Slot::UserServer,
                    Launch::RunAsUser { uid: desktop.uid, username: desktop.username },
                ),
            ],
        ),
{
}

/// Whether a server was started into a slot is what is remembered of that slot, and of
/// that slot alone; the pass then ends.
pub proof fn launch_is_noted(service: Service, slot: Slot, started: bool)
    ensures
        answers(
            Supervisor { service, phase: Phase::Launching(slot) },
            Event::Launched(started),
            match slot {
                Slot::Server => Service { server: started, ..service },
                Slot::UserServer => Service { user_server: started, ..service },
            },
            Phase::Poll,
            seq![Action::Sleep(service.interval), Action::AskRunning],
        ),
{
}

} // verus!
