//! What a pass of the service loop does for each kind of session, read off the
//! session's own fields and the clock.

use vstd::prelude::*;

use crate::desktop::Desktop;
use crate::pass::{pass_events, pass_runs, Answers};
use crate::service::{
    Action, Event, Launch, Phase, Service, Slot, Supervisor, Waited,
};
use crate::supervision::{is_dialogue, run};

verus! {

/// Answers in which nothing is asked for but the session.
spec fn quiet(desktop: Desktop) -> Answers {
    Answers {
        desktop,
        early_cm: false,
        early_now: 0,
        stopped: Waited::Exited,
        cm: false,
        now: 0,
        clock: 0,
        looked: Waited::Exited,
        started: false,
    }
}

/// A pass from `service` on asks for just these events, and ends with `end`
/// remembered, having done `actions`.
pub open spec fn passes(
    service: Service,
    events: Seq<Event>,
    end: Service,
    actions: Seq<Action>,
) -> bool {
    &&& Supervisor { service, phase: Phase::Poll }.wf()
    &&& is_dialogue(Supervisor { service, phase: Phase::Poll }, events)
    &&& run(Supervisor { service, phase: Phase::Poll }, events).0 == (Supervisor {
        service: end,
        phase: Phase::Poll,
    })
    &&& run(Supervisor { service, phase: Phase::Poll }, events).1 =~= actions
}

// ---- Sessions that the service serves itself -----------------------------

/// On X11, and for root, a new user's session is served by the service itself,
/// whoever the user is: its display and authority file go into the environment, every
/// stray server is killed, and a server is started as the service.
pub proof fn new_x11_session_gets_a_server(
    service: Service,
    desktop: Desktop,
    cm: bool,
    now: u128,
    started: bool,
)
    requires
        !service.server,
        !service.user_server,
        desktop.sid@.len() > 0,
        desktop.uid@.len() > 0,
        desktop.uid@ != service.uid@,
        !desktop.wayland || desktop.username@ == "root"@,
    ensures
        passes(
            service,
            seq![
                Event::Running(true),
                Event::Session(desktop),
                Event::Status { cm, now },
                Event::Launched(started),
            ],
            Service { uid: desktop.uid, server: started, cm0: cm, ..service },
            seq![
                Action::QueryDesktop,
                Action::QueryStatus,
                Action::SetX11Env { display: desktop.display, xauth: desktop.xauth },
                Action::StopStrayServers,
                Action::Sleep(service.interval),
                Action::Start(Slot::Server, Launch::RunMe),
                Action::Sleep(service.interval),
                Action::AskRunning,
            ],
        ),
{
    let answers = Answers { cm, now, started, ..quiet(desktop) };
    pass_runs(service, answers);
    assert(pass_events(service, answers) == seq![
        Event::Running(true),
        Event::Session(desktop),
        Event::Status { cm, now },
        Event::Launched(started),
    ]);
}

/// The server that served another user is killed, connections or not, and once it
/// has exited one is started for the new user on X11.
pub proof fn new_x11_user_replaces_the_server(
    service: Service,
    desktop: Desktop,
    cm: bool,
    now: u128,
    clock: u128,
    started: bool,
)
    requires
        service.server,
        !service.user_server,
        desktop.sid@.len() > 0,
        desktop.uid@.len() > 0,
        desktop.uid@ != service.uid@,
        !desktop.wayland || desktop.username@ == "root"@,
    ensures
        passes(
            service,
            seq![
                Event::Running(true),
                Event::Session(desktop),
                Event::Status { cm, now },
                Event::Now(clock),
                Event::Looked(Waited::Exited),
                Event::Launched(started),
            ],
            Service {
                uid: desktop.uid,
                server: started,
                cm0: cm,
                last_restart: clock,
                ..service
            },
            seq![
                Action::QueryDesktop,
                Action::QueryStatus,
                Action::SetX11Env { display: desktop.display, xauth: desktop.xauth },
                Action::Kill(Slot::Server),
                Action::Sleep(30),
                Action::ReadClock,
                Action::TryWait(Slot::Server),
                Action::Discard(Slot::Server),
                Action::StopStrayServers,
                Action::Sleep(service.interval),
                Action::Start(Slot::Server, Launch::RunMe),
                Action::Sleep(service.interval),
                Action::AskRunning,
            ],
        ),
{
    let answers = Answers { cm, now, clock, started, ..quiet(desktop) };
    pass_runs(service, answers);
    assert(pass_events(service, answers) == seq![
        Event::Running(true),
        Event::Session(desktop),
        Event::Status { cm, now },
        Event::Now(clock),
        Event::Looked(Waited::Exited),
        Event::Launched(started),
    ]);
}

/// The server that served another user is killed; while it has not exited, none is
/// started in its place.
pub proof fn lingering_x11_server_of_another_user_is_kept(
    service: Service,
    desktop: Desktop,
    cm: bool,
    now: u128,
    clock: u128,
    looked: Waited,
)
    requires
        service.server,
        !service.user_server,
        desktop.sid@.len() > 0,
        desktop.uid@.len() > 0,
        desktop.uid@ != service.uid@,
        !desktop.wayland || desktop.username@ == "root"@,
        looked != Waited::Exited,
    ensures
        passes(
            service,
            seq![
                Event::Running(true),
                Event::Session(desktop),
                Event::Status { cm, now },
                Event::Now(clock),
                Event::Looked(looked),
            ],
            Service { uid: desktop.uid, cm0: cm, last_restart: clock, ..service },
            seq![
                Action::QueryDesktop,
                Action::QueryStatus,
                Action::SetX11Env { display: desktop.display, xauth: desktop.xauth },
                Action::Kill(Slot::Server),
                Action::Sleep(30),
                Action::ReadClock,
                Action::TryWait(Slot::Server),
                Action::Sleep(service.interval),
                Action::AskRunning,
            ],
        ),
{
    let answers = Answers { cm, now, clock, looked, ..quiet(desktop) };
    pass_runs(service, answers);
    assert(pass_events(service, answers) == seq![
        Event::Running(true),
        Event::Session(desktop),
        Event::Status { cm, now },
        Event::Now(clock),
        Event::Looked(looked),
    ]);
}

/// A server that ran as a user makes way for the service's own when a new
/// user appears: it is killed, waited for where it is still there, let go of, and only
/// then is the new one started.
pub proof fn new_x11_session_takes_over(
    service: Service,
    desktop: Desktop,
    stopped: Waited,
    cm: bool,
    now: u128,
    started: bool,
)
    requires
        !service.server,
        service.user_server,
        desktop.sid@.len() > 0,
        desktop.uid@.len() > 0,
        desktop.uid@ != service.uid@,
        !desktop.wayland || desktop.username@ == "root"@,
    ensures
        passes(
            service,
            seq![
                Event::Running(true),
                Event::Session(desktop),
                Event::Looked(stopped),
                Event::Status { cm, now },
                Event::Launched(started),
            ],
            Service { uid: desktop.uid, server: started, user_server: false, cm0: cm, ..service },
            seq![
                Action::QueryDesktop,
                Action::Kill(Slot::UserServer),
                Action::Sleep(30),
                Action::TryWait(Slot::UserServer),
            ] + (if stopped == Waited::Running {
                seq![Action::Wait(Slot::UserServer)]
            } else {
                seq![]
            }) + seq![
                Action::Discard(Slot::UserServer),
                Action::QueryStatus,
                Action::SetX11Env { display: desktop.display, xauth: desktop.xauth },
                Action::StopStrayServers,
                Action::Sleep(service.interval),
                Action::Start(Slot::Server, Launch::RunMe),
                Action::Sleep(service.interval),
                Action::AskRunning,
            ],
        ),
{
    let answers = Answers { stopped, cm, now, started, ..quiet(desktop) };
    pass_runs(service, answers);
    assert(pass_events(service, answers) == seq![
        Event::Running(true),
        Event::Session(desktop),
        Event::Looked(stopped),
        Event::Status { cm, now },
        Event::Launched(started),
    ]);
}

/// A server that ran as a user makes way for the service's own also
/// where the user stays, when a restart is due.
pub proof fn x11_session_takes_over_when_due(
    service: Service,
    desktop: Desktop,
    early_now: u128,
    stopped: Waited,
    cm: bool,
    now: u128,
    started: bool,
)
    requires
        !service.server,
        service.user_server,
        desktop.sid@.len() > 0,
        desktop.uid@ == service.uid@ || desktop.uid@.len() == 0,
        !desktop.wayland || desktop.username@ == "root"@,
        (service.cm0 && early_now - service.last_restart >= 61_000_000_000)
            || early_now - service.last_restart >= 3601_000_000_000,
    ensures
        passes(
            service,
            seq![
                Event::Running(true),
                Event::Session(desktop),
                Event::Status { cm: false, now: early_now },
                Event::Looked(stopped),
                Event::Status { cm, now },
                Event::Launched(started),
            ],
            Service { server: started, user_server: false, cm0: cm, ..service },
            seq![
                Action::QueryDesktop,
                Action::QueryStatus,
                Action::Kill(Slot::UserServer),
                Action::Sleep(30),
                Action::TryWait(Slot::UserServer),
            ] + (if stopped == Waited::Running {
                seq![Action::Wait(Slot::UserServer)]
            } else {
                seq![]
            }) + seq![
                Action::Discard(Slot::UserServer),
                Action::QueryStatus,
                Action::StopStrayServers,
                Action::Sleep(service.interval),
                Action::Start(Slot::Server, Launch::RunMe),
                Action::Sleep(service.interval),
                Action::AskRunning,
            ],
        ),
{
    let answers = Answers { early_now, stopped, cm, now, started, ..quiet(desktop) };
    pass_runs(service, answers);
    assert(pass_events(service, answers) == seq![
        Event::Running(true),
        Event::Session(desktop),
        Event::Status { cm: false, now: early_now },
        Event::Looked(stopped),
        Event::Status { cm, now },
        Event::Launched(started),
    ]);
}

/// Where a user who stays has no server, one is started when a restart would be due.
pub proof fn missing_x11_server_is_started_when_due(
    service: Service,
    desktop: Desktop,
    early_now: u128,
    cm: bool,
    now: u128,
    started: bool,
)
    requires
        !service.server,
        !service.user_server,
        desktop.sid@.len() > 0,
        desktop.uid@ == service.uid@ || desktop.uid@.len() == 0,
        !desktop.wayland || desktop.username@ == "root"@,
        (service.cm0 && early_now - service.last_restart >= 61_000_000_000)
            || early_now - service.last_restart >= 3601_000_000_000,
    ensures
        passes(
            service,
            seq![
                Event::Running(true),
                Event::Session(desktop),
                Event::Status { cm: false, now: early_now },
                Event::Status { cm, now },
                Event::Launched(started),
            ],
            Service { server: started, cm0: cm, ..service },
            seq![
                Action::QueryDesktop,
                Action::QueryStatus,
                Action::QueryStatus,
                Action::StopStrayServers,
                Action::Sleep(service.interval),
                Action::Start(Slot::Server, Launch::RunMe),
                Action::Sleep(service.interval),
                Action::AskRunning,
            ],
        ),
{
    let answers = Answers { early_now, cm, now, started, ..quiet(desktop) };
    pass_runs(service, answers);
    assert(pass_events(service, answers) == seq![
        Event::Running(true),
        Event::Session(desktop),
        Event::Status { cm: false, now: early_now },
        Event::Status { cm, now },
        Event::Launched(started),
    ]);
}

/// The server of a user who stays is restarted once no connection is open and an
/// hour has gone by, or a minute where one was open before: it is killed, and when it
/// has exited it is started anew. The environment is left alone.
pub proof fn x11_server_is_restarted_when_due(
    service: Service,
    desktop: Desktop,
    early_now: u128,
    now: u128,
    clock: u128,
    started: bool,
)
    requires
        service.server,
        !service.user_server,
        desktop.sid@.len() > 0,
        desktop.uid@ == service.uid@ || desktop.uid@.len() == 0,
        !desktop.wayland || desktop.username@ == "root"@,
        (service.cm0 && early_now - service.last_restart >= 61_000_000_000)
            || early_now - service.last_restart >= 3601_000_000_000,
        (service.cm0 && now - service.last_restart >= 61_000_000_000)
            || now - service.last_restart >= 3601_000_000_000,
    ensures
        passes(
            service,
            seq![
                Event::Running(true),
                Event::Session(desktop),
                Event::Status { cm: false, now: early_now },
                Event::Status { cm: false, now },
                Event::Now(clock),
                Event::Looked(Waited::Exited),
                Event::Launched(started),
            ],
            Service { server: started, cm0: false, last_restart: clock, ..service },
            seq![
                Action::QueryDesktop,
                Action::QueryStatus,
                Action::QueryStatus,
                Action::Kill(Slot::Server),
                Action::Sleep(30),
                Action::ReadClock,
                Action::TryWait(Slot::Server),
                Action::Discard(Slot::Server),
                Action::StopStrayServers,
                Action::Sleep(service.interval),
                Action::Start(Slot::Server, Launch::RunMe),
                Action::Sleep(service.interval),
                Action::AskRunning,
            ],
        ),
{
    let answers = Answers { early_now, now, clock, started, ..quiet(desktop) };
    pass_runs(service, answers);
    assert(pass_events(service, answers) == seq![
        Event::Running(true),
        Event::Session(desktop),
        Event::Status { cm: false, now: early_now },
        Event::Status { cm: false, now },
        Event::Now(clock),
        Event::Looked(Waited::Exited),
        Event::Launched(started),
    ]);
}

/// A server that is due and has been killed stays in its place while it has not exited.
pub proof fn lingering_x11_server_is_kept_when_due(
    service: Service,
    desktop: Desktop,
    early_now: u128,
    now: u128,
    clock: u128,
    looked: Waited,
)
    requires
        service.server,
        !service.user_server,
        desktop.sid@.len() > 0,
        desktop.uid@ == service.uid@ || desktop.uid@.len() == 0,
        !desktop.wayland || desktop.username@ == "root"@,
        (service.cm0 && early_now - service.last_restart >= 61_000_000_000)
            || early_now - service.last_restart >= 3601_000_000_000,
        (service.cm0 && now - service.last_restart >= 61_000_000_000)
            || now - service.last_restart >= 3601_000_000_000,
        looked != Waited::Exited,
    ensures
        passes(
            service,
            seq![
                Event::Running(true),
                Event::Session(desktop),
                Event::Status { cm: false, now: early_now },
                Event::Status { cm: false, now },
                Event::Now(clock),
                Event::Looked(looked),
            ],
            Service { cm0: false, last_restart: clock, ..service },
            seq![
                Action::QueryDesktop,
                Action::QueryStatus,
                Action::QueryStatus,
                Action::Kill(Slot::Server),
                Action::Sleep(30),
                Action::ReadClock,
                Action::TryWait(Slot::Server),
                Action::Sleep(service.interval),
                Action::AskRunning,
            ],
        ),
{
    let answers = Answers { early_now, now, clock, looked, ..quiet(desktop) };
    pass_runs(service, answers);
    assert(pass_events(service, answers) == seq![
        Event::Running(true),
        Event::Session(desktop),
        Event::Status { cm: false, now: early_now },
        Event::Status { cm: false, now },
        Event::Now(clock),
        Event::Looked(looked),
    ]);
}

/// A server that is no longer due when it is looked at again, as where a connection
/// has opened meanwhile, is not killed.
pub proof fn x11_server_with_a_late_connection_is_kept(
    service: Service,
    desktop: Desktop,
    early_now: u128,
    cm: bool,
    now: u128,
    looked: Waited,
)
    requires
        service.server,
        !service.user_server,
        desktop.sid@.len() > 0,
        desktop.uid@ == service.uid@ || desktop.uid@.len() == 0,
        !desktop.wayland || desktop.username@ == "root"@,
        (service.cm0 && early_now - service.last_restart >= 61_000_000_000)
            || early_now - service.last_restart >= 3601_000_000_000,
        cm || (now - service.last_restart < 3601_000_000_000 && (!service.cm0
            || now - service.last_restart < 61_000_000_000)),
        looked != Waited::Exited,
    ensures
        passes(
            service,
            seq![
                Event::Running(true),
                Event::Session(desktop),
                Event::Status { cm: false, now: early_now },
                Event::Status { cm, now },
                Event::Looked(looked),
            ],
            Service { cm0: cm, ..service },
            seq![
                Action::QueryDesktop,
                Action::QueryStatus,
                Action::QueryStatus,
                Action::TryWait(Slot::Server),
                Action::Sleep(service.interval),
                Action::AskRunning,
            ],
        ),
{
    let answers = Answers { early_now, cm, now, looked, ..quiet(desktop) };
    pass_runs(service, answers);
    assert(pass_events(service, answers) == seq![
        Event::Running(true),
        Event::Session(desktop),
        Event::Status { cm: false, now: early_now },
        Event::Status { cm, now },
        Event::Looked(looked),
    ]);
}

/// A server that is no longer due but turns out to have exited is started anew.
pub proof fn exited_x11_server_is_replaced(
    service: Service,
    desktop: Desktop,
    early_now: u128,
    cm: bool,
    now: u128,
    started: bool,
)
    requires
        service.server,
        !service.user_server,
        desktop.sid@.len() > 0,
        desktop.uid@ == service.uid@ || desktop.uid@.len() == 0,
        !desktop.wayland || desktop.username@ == "root"@,
        (service.cm0 && early_now - service.last_restart >= 61_000_000_000)
            || early_now - service.last_restart >= 3601_000_000_000,
        cm || (now - service.last_restart < 3601_000_000_000 && (!service.cm0
            || now - service.last_restart < 61_000_000_000)),
    ensures
        passes(
            service,
            seq![
                Event::Running(true),
                Event::Session(desktop),
                Event::Status { cm: false, now: early_now },
                Event::Status { cm, now },
                Event::Looked(Waited::Exited),
                Event::Launched(started),
            ],
            Service { server: started, cm0: cm, ..service },
            seq![
                Action::QueryDesktop,
                Action::QueryStatus,
                Action::QueryStatus,
                Action::TryWait(Slot::Server),
                Action::Discard(Slot::Server),
                Action::StopStrayServers,
                Action::Sleep(service.interval),
                Action::Start(Slot::Server, Launch::RunMe),
                Action::Sleep(service.interval),
                Action::AskRunning,
            ],
        ),
{
    let answers = Answers { early_now, cm, now, started, ..quiet(desktop) };
    pass_runs(service, answers);
    assert(pass_events(service, answers) == seq![
        Event::Running(true),
        Event::Session(desktop),
        Event::Status { cm: false, now: early_now },
        Event::Status { cm, now },
        Event::Looked(Waited::Exited),
        Event::Launched(started),
    ]);
}

// ---- Sessions that a server of their user serves -------------------------

/// On Wayland a new user's session is served by a server that runs as that user: every
/// stray server is killed, and a server is started with the user's identifier and name.
pub proof fn new_wayland_session_gets_a_server(
    service: Service,
    desktop: Desktop,
    cm: bool,
    now: u128,
    started: bool,
)
    requires
        !service.server,
        !service.user_server,
        desktop.sid@.len() > 0,
        desktop.uid@.len() > 0,
        desktop.uid@ != service.uid@,
        desktop.wayland,
        desktop.username@.len() > 0,
        desktop.username@ != "root"@,
        desktop.username@ != "gdm"@,
    ensures
        passes(
            service,
            seq![
                Event::Running(true),
                Event::Session(desktop),
                Event::Status { cm, now },
                Event::Launched(started),
            ],
            Service { uid: desktop.uid, user_server: started, cm0: cm, ..service },
            seq![
                Action::QueryDesktop,
                Action::QueryStatus,
                Action::StopStrayServers,
                Action::Sleep(service.interval),
                Action::Start(
                    Slot::UserServer,
                    Launch::RunAsUser { uid: desktop.uid, username: desktop.username },
                ),
                Action::Sleep(service.interval),
                Action::AskRunning,
            ],
        ),
{
    let answers = Answers { cm, now, started, ..quiet(desktop) };
    pass_runs(service, answers);
    assert(pass_events(service, answers) == seq![
        Event::Running(true),
        Event::Session(desktop),
        Event::Status { cm, now },
        Event::Launched(started),
    ]);
}

/// The server that served another user is killed, connections or not, and once it
/// has exited one is started for the new user on Wayland.
pub proof fn new_wayland_user_replaces_the_server(
    service: Service,
    desktop: Desktop,
    cm: bool,
    now: u128,
    clock: u128,
    started: bool,
)
    requires
        !service.server,
        service.user_server,
        desktop.sid@.len() > 0,
        desktop.uid@.len() > 0,
        desktop.uid@ != service.uid@,
        desktop.wayland,
        desktop.username@.len() > 0,
        desktop.username@ != "root"@,
        desktop.username@ != "gdm"@,
    ensures
        passes(
            service,
            seq![
                Event::Running(true),
                Event::Session(desktop),
                Event::Status { cm, now },
                Event::Now(clock),
                Event::Looked(Waited::Exited),
                Event::Launched(started),
            ],
            Service {
                uid: desktop.uid,
                user_server: started,
                cm0: cm,
                last_restart: clock,
                ..service
            },
            seq![
                Action::QueryDesktop,
                Action::QueryStatus,
                Action::Kill(Slot::UserServer),
                Action::Sleep(30),
                Action::ReadClock,
                Action::TryWait(Slot::UserServer),
                Action::Discard(Slot::UserServer),
                Action::StopStrayServers,
                Action::Sleep(service.interval),
                Action::Start(
                    Slot::UserServer,
                    Launch::RunAsUser { uid: desktop.uid, username: desktop.username },
                ),
                Action::Sleep(service.interval),
                Action::AskRunning,
            ],
        ),
{
    let answers = Answers { cm, now, clock, started, ..quiet(desktop) };
    pass_runs(service, answers);
    assert(pass_events(service, answers) == seq![
        Event::Running(true),
        Event::Session(desktop),
        Event::Status { cm, now },
        Event::Now(clock),
        Event::Looked(Waited::Exited),
        Event::Launched(started),
    ]);
}

/// The server that served another user is killed; while it has not exited, none is
/// started in its place.
pub proof fn lingering_wayland_server_of_another_user_is_kept(
    service: Service,
    desktop: Desktop,
    cm: bool,
    now: u128,
    clock: u128,
    looked: Waited,
)
    requires
        !service.server,
        service.user_server,
        desktop.sid@.len() > 0,
        desktop.uid@.len() > 0,
        desktop.uid@ != service.uid@,
        desktop.wayland,
        desktop.username@.len() > 0,
        desktop.username@ != "root"@,
        desktop.username@ != "gdm"@,
        looked != Waited::Exited,
    ensures
        passes(
            service,
            seq![
                Event::Running(true),
                Event::Session(desktop),
                Event::Status { cm, now },
                Event::Now(clock),
                Event::Looked(looked),
            ],
            Service { uid: desktop.uid, cm0: cm, last_restart: clock, ..service },
            seq![
                Action::QueryDesktop,
                Action::QueryStatus,
                Action::Kill(Slot::UserServer),
                Action::Sleep(30),
                Action::ReadClock,
                Action::TryWait(Slot::UserServer),
                Action::Sleep(service.interval),
                Action::AskRunning,
            ],
        ),
{
    let answers = Answers { cm, now, clock, looked, ..quiet(desktop) };
    pass_runs(service, answers);
    assert(pass_events(service, answers) == seq![
        Event::Running(true),
        Event::Session(desktop),
        Event::Status { cm, now },
        Event::Now(clock),
        Event::Looked(looked),
    ]);
}

/// The service's own server makes way for one of the user when a new
/// user appears: it is killed, waited for where it is still there, let go of, and only
/// then is the new one started.
pub proof fn new_wayland_session_takes_over(
    service: Service,
    desktop: Desktop,
    stopped: Waited,
    cm: bool,
    now: u128,
    started: bool,
)
    requires
        service.server,
        !service.user_server,
        desktop.sid@.len() > 0,
        desktop.uid@.len() > 0,
        desktop.uid@ != service.uid@,
        desktop.wayland,
        desktop.username@.len() > 0,
        desktop.username@ != "root"@,
        desktop.username@ != "gdm"@,
    ensures
        passes(
            service,
            seq![
                Event::Running(true),
                Event::Session(desktop),
                Event::Looked(stopped),
                Event::Status { cm, now },
                Event::Launched(started),
            ],
            Service { uid: desktop.uid, server: false, user_server: started, cm0: cm, ..service },
            seq![
                Action::QueryDesktop,
                Action::Kill(Slot::Server),
                Action::Sleep(30),
                Action::TryWait(Slot::Server),
            ] + (if stopped == Waited::Running {
                seq![Action::Wait(Slot::Server)]
            } else {
                seq![]
            }) + seq![
                Action::Discard(Slot::Server),
                Action::QueryStatus,
                Action::StopStrayServers,
                Action::Sleep(service.interval),
                Action::Start(
                    Slot::UserServer,
                    Launch::RunAsUser { uid: desktop.uid, username: desktop.username },
                ),
                Action::Sleep(service.interval),
                Action::AskRunning,
            ],
        ),
{
    let answers = Answers { stopped, cm, now, started, ..quiet(desktop) };
    pass_runs(service, answers);
    assert(pass_events(service, answers) == seq![
        Event::Running(true),
        Event::Session(desktop),
        Event::Looked(stopped),
        Event::Status { cm, now },
        Event::Launched(started),
    ]);
}

/// The service's own server makes way for one of the user also
/// where the user stays, when a restart is due.
pub proof fn wayland_session_takes_over_when_due(
    service: Service,
    desktop: Desktop,
    early_now: u128,
    stopped: Waited,
    cm: bool,
    now: u128,
    started: bool,
)
    requires
        service.server,
        !service.user_server,
        desktop.sid@.len() > 0,
        desktop.uid@ == service.uid@ || desktop.uid@.len() == 0,
        desktop.wayland,
        desktop.username@.len() > 0,
        desktop.username@ != "root"@,
        desktop.username@ != "gdm"@,
        (service.cm0 && early_now - service.last_restart >= 61_000_000_000)
            || early_now - service.last_restart >= 3601_000_000_000,
    ensures
        passes(
            service,
            seq![
                Event::Running(true),
                Event::Session(desktop),
                Event::Status { cm: false, now: early_now },
                Event::Looked(stopped),
                Event::Status { cm, now },
                Event::Launched(started),
            ],
            Service { server: false, user_server: started, cm0: cm, ..service },
            seq![
                Action::QueryDesktop,
                Action::QueryStatus,
                Action::Kill(Slot::Server),
                Action::Sleep(30),
                Action::TryWait(Slot::Server),
            ] + (if stopped == Waited::Running {
                seq![Action::Wait(Slot::Server)]
            } else {
                seq![]
            }) + seq![
                Action::Discard(Slot::Server),
                Action::QueryStatus,
                Action::StopStrayServers,
                Action::Sleep(service.interval),
                Action::Start(
                    Slot::UserServer,
                    Launch::RunAsUser { uid: desktop.uid, username: desktop.username },
                ),
                Action::Sleep(service.interval),
                Action::AskRunning,
            ],
        ),
{
    let answers = Answers { early_now, stopped, cm, now, started, ..quiet(desktop) };
    pass_runs(service, answers);
    assert(pass_events(service, answers) == seq![
        Event::Running(true),
        Event::Session(desktop),
        Event::Status { cm: false, now: early_now },
        Event::Looked(stopped),
        Event::Status { cm, now },
        Event::Launched(started),
    ]);
}

/// Where a user who stays has no server, one is started when a restart would be due.
pub proof fn missing_wayland_server_is_started_when_due(
    service: Service,
    desktop: Desktop,
    early_now: u128,
    cm: bool,
    now: u128,
    started: bool,
)
    requires
        !service.server,
        !service.user_server,
        desktop.sid@.len() > 0,
        desktop.uid@ == service.uid@ || desktop.uid@.len() == 0,
        desktop.wayland,
        desktop.username@.len() > 0,
        desktop.username@ != "root"@,
        desktop.username@ != "gdm"@,
        (service.cm0 && early_now - service.last_restart >= 61_000_000_000)
            || early_now - service.last_restart >= 3601_000_000_000,
    ensures
        passes(
            service,
            seq![
                Event::Running(true),
                Event::Session(desktop),
                Event::Status { cm: false, now: early_now },
                Event::Status { cm, now },
                Event::Launched(started),
            ],
            Service { user_server: started, cm0: cm, ..service },
            seq![
                Action::QueryDesktop,
                Action::QueryStatus,
                Action::QueryStatus,
                Action::StopStrayServers,
                Action::Sleep(service.interval),
                Action::Start(
                    Slot::UserServer,
                    Launch::RunAsUser { uid: desktop.uid, username: desktop.username },
                ),
                Action::Sleep(service.interval),
                Action::AskRunning,
            ],
        ),
{
    let answers = Answers { early_now, cm, now, started, ..quiet(desktop) };
    pass_runs(service, answers);
    assert(pass_events(service, answers) == seq![
        Event::Running(true),
        Event::Session(desktop),
        Event::Status { cm: false, now: early_now },
        Event::Status { cm, now },
        Event::Launched(started),
    ]);
}

/// The server of a user who stays is restarted once no connection is open and an
/// hour has gone by, or a minute where one was open before: it is killed, and when it
/// has exited it is started anew. The environment is left alone.
pub proof fn wayland_server_is_restarted_when_due(
    service: Service,
    desktop: Desktop,
    early_now: u128,
    now: u128,
    clock: u128,
    started: bool,
)
    requires
        !service.server,
        service.user_server,
        desktop.sid@.len() > 0,
        desktop.uid@ == service.uid@ || desktop.uid@.len() == 0,
        desktop.wayland,
        desktop.username@.len() > 0,
        desktop.username@ != "root"@,
        desktop.username@ != "gdm"@,
        (service.cm0 && early_now - service.last_restart >= 61_000_000_000)
            || early_now - service.last_restart >= 3601_000_000_000,
        (service.cm0 && now - service.last_restart >= 61_000_000_000)
            || now - service.last_restart >= 3601_000_000_000,
    ensures
        passes(
            service,
            seq![
                Event::Running(true),
                Event::Session(desktop),
                Event::Status { cm: false, now: early_now },
                Event::Status { cm: false, now },
                Event::Now(clock),
                Event::Looked(Waited::Exited),
                Event::Launched(started),
            ],
            Service { user_server: started, cm0: false, last_restart: clock, ..service },
            seq![
                Action::QueryDesktop,
                Action::QueryStatus,
                Action::QueryStatus,
                Action::Kill(Slot::UserServer),
                Action::Sleep(30),
                Action::ReadClock,
                Action::TryWait(Slot::UserServer),
                Action::Discard(Slot::UserServer),
                Action::StopStrayServers,
                Action::Sleep(service.interval),
                Action::Start(
                    Slot::UserServer,
                    Launch::RunAsUser { uid: desktop.uid, username: desktop.username },
                ),
                Action::Sleep(service.interval),
                Action::AskRunning,
            ],
        ),
{
    let answers = Answers { early_now, now, clock, started, ..quiet(desktop) };
    pass_runs(service, answers);
    assert(pass_events(service, answers) == seq![
        Event::Running(true),
        Event::Session(desktop),
        Event::Status { cm: false, now: early_now },
        Event::Status { cm: false, now },
        Event::Now(clock),
        Event::Looked(Waited::Exited),
        Event::Launched(started),
    ]);
}

/// A server that is due and has been killed stays in its place while it has not exited.
pub proof fn lingering_wayland_server_is_kept_when_due(
    service: Service,
    desktop: Desktop,
    early_now: u128,
    now: u128,
    clock: u128,
    looked: Waited,
)
    requires
        !service.server,
        service.user_server,
        desktop.sid@.len() > 0,
        desktop.uid@ == service.uid@ || desktop.uid@.len() == 0,
        desktop.wayland,
        desktop.username@.len() > 0,
        desktop.username@ != "root"@,
        desktop.username@ != "gdm"@,
        (service.cm0 && early_now - service.last_restart >= 61_000_000_000)
            || early_now - service.last_restart >= 3601_000_000_000,
        (service.cm0 && now - service.last_restart >= 61_000_000_000)
            || now - service.last_restart >= 3601_000_000_000,
        looked != Waited::Exited,
    ensures
        passes(
            service,
            seq![
                Event::Running(true),
                Event::Session(desktop),
                Event::Status { cm: false, now: early_now },
                Event::Status { cm: false, now },
                Event::Now(clock),
                Event::Looked(looked),
            ],
            Service { cm0: false, last_restart: clock, ..service },
            seq![
                Action::QueryDesktop,
                Action::QueryStatus,
                Action::QueryStatus,
                Action::Kill(Slot::UserServer),
                Action::Sleep(30),
                Action::ReadClock,
                Action::TryWait(Slot::UserServer),
                Action::Sleep(service.interval),
                Action::AskRunning,
            ],
        ),
{
    let answers = Answers { early_now, now, clock, looked, ..quiet(desktop) };
    pass_runs(service, answers);
    assert(pass_events(service, answers) == seq![
        Event::Running(true),
        Event::Session(desktop),
        Event::Status { cm: false, now: early_now },
        Event::Status { cm: false, now },
        Event::Now(clock),
        Event::Looked(looked),
    ]);
}

/// A server that is no longer due when it is looked at again, as where a connection
/// has opened meanwhile, is not killed.
pub proof fn wayland_server_with_a_late_connection_is_kept(
    service: Service,
    desktop: Desktop,
    early_now: u128,
    cm: bool,
    now: u128,
    looked: Waited,
)
    requires
        !service.server,
        service.user_server,
        desktop.sid@.len() > 0,
        desktop.uid@ == service.uid@ || desktop.uid@.len() == 0,
        desktop.wayland,
        desktop.username@.len() > 0,
        desktop.username@ != "root"@,
        desktop.username@ != "gdm"@,
        (service.cm0 && early_now - service.last_restart >= 61_000_000_000)
            || early_now - service.last_restart >= 3601_000_000_000,
        cm || (now - service.last_restart < 3601_000_000_000 && (!service.cm0
            || now - service.last_restart < 61_000_000_000)),
        looked != Waited::Exited,
    ensures
        passes(
            service,
            seq![
                Event::Running(true),
                Event::Session(desktop),
                Event::Status { cm: false, now: early_now },
                Event::Status { cm, now },
                Event::Looked(looked),
            ],
            Service { cm0: cm, ..service },
            seq![
                Action::QueryDesktop,
                Action::QueryStatus,
                Action::QueryStatus,
                Action::TryWait(Slot::UserServer),
                Action::Sleep(service.interval),
                Action::AskRunning,
            ],
        ),
{
    let answers = Answers { early_now, cm, now, looked, ..quiet(desktop) };
    pass_runs(service, answers);
    assert(pass_events(service, answers) == seq![
        Event::Running(true),
        Event::Session(desktop),
        Event::Status { cm: false, now: early_now },
        Event::Status { cm, now },
        Event::Looked(looked),
    ]);
}

/// A server that is no longer due but turns out to have exited is started anew.
pub proof fn exited_wayland_server_is_replaced(
    service: Service,
    desktop: Desktop,
    early_now: u128,
    cm: bool,
    now: u128,
    started: bool,
)
    requires
        !service.server,
        service.user_server,
        desktop.sid@.len() > 0,
        desktop.uid@ == service.uid@ || desktop.uid@.len() == 0,
        desktop.wayland,
        desktop.username@.len() > 0,
        desktop.username@ != "root"@,
        desktop.username@ != "gdm"@,
        (service.cm0 && early_now - service.last_restart >= 61_000_000_000)
            || early_now - service.last_restart >= 3601_000_000_000,
        cm || (now - service.last_restart < 3601_000_000_000 && (!service.cm0
            || now - service.last_restart < 61_000_000_000)),
    ensures
        passes(
            service,
            seq![
                Event::Running(true),
                Event::Session(desktop),
                Event::Status { cm: false, now: early_now },
                Event::Status { cm, now },
                Event::Looked(Waited::Exited),
                Event::Launched(started),
            ],
            Service { user_server: started, cm0: cm, ..service },
            seq![
                Action::QueryDesktop,
                Action::QueryStatus,
                Action::QueryStatus,
                Action::TryWait(Slot::UserServer),
                Action::Discard(Slot::UserServer),
                Action::StopStrayServers,
                Action::Sleep(service.interval),
                Action::Start(
                    Slot::UserServer,
                    Launch::RunAsUser { uid: desktop.uid, username: desktop.username },
                ),
                Action::Sleep(service.interval),
                Action::AskRunning,
            ],
        ),
{
    let answers = Answers { early_now, cm, now, started, ..quiet(desktop) };
    pass_runs(service, answers);
    assert(pass_events(service, answers) == seq![
        Event::Running(true),
        Event::Session(desktop),
        Event::Status { cm: false, now: early_now },
        Event::Status { cm, now },
        Event::Looked(Waited::Exited),
        Event::Launched(started),
    ]);
}

// ---- Sessions that get no server -----------------------------------------

/// The greeter's session on Wayland changes nothing: no server is started or killed,
/// and its user is not remembered.
pub proof fn new_greeter_session_is_left_alone(
    service: Service,
    desktop: Desktop,
)
    requires
        !(service.server && service.user_server),
        desktop.wayland,
        desktop.username@ == "gdm"@,
        desktop.sid@.len() > 0,
        desktop.uid@.len() > 0,
        desktop.uid@ != service.uid@,
    ensures
        passes(
            service,
            seq![
                Event::Running(true),
                Event::Session(desktop),
            ],
            service,
            seq![
                Action::QueryDesktop,
                Action::Sleep(service.interval),
                Action::AskRunning,
            ],
        ),
{
    let answers = quiet(desktop);
    names_differ();
    pass_runs(service, answers);
    assert(pass_events(service, answers) == seq![
        Event::Running(true),
        Event::Session(desktop),
    ]);
}

/// The greeter's session on Wayland changes nothing either when a restart is due.
pub proof fn greeter_session_is_left_alone_when_due(
    service: Service,
    desktop: Desktop,
    early_now: u128,
)
    requires
        !(service.server && service.user_server),
        desktop.wayland,
        desktop.username@ == "gdm"@,
        desktop.sid@.len() > 0,
        desktop.uid@ == service.uid@ || desktop.uid@.len() == 0,
        (service.cm0 && early_now - service.last_restart >= 61_000_000_000)
            || early_now - service.last_restart >= 3601_000_000_000,
    ensures
        passes(
            service,
            seq![
                Event::Running(true),
                Event::Session(desktop),
                Event::Status { cm: false, now: early_now },
            ],
            service,
            seq![
                Action::QueryDesktop,
                Action::QueryStatus,
                Action::Sleep(service.interval),
                Action::AskRunning,
            ],
        ),
{
    let answers = Answers { early_now, ..quiet(desktop) };
    names_differ();
    pass_runs(service, answers);
    assert(pass_events(service, answers) == seq![
        Event::Running(true),
        Event::Session(desktop),
        Event::Status { cm: false, now: early_now },
    ]);
}

/// On Wayland a session that nobody owns gets no server, and stray ones are killed.
pub proof fn new_ownerless_session_gets_no_server(
    service: Service,
    desktop: Desktop,
)
    requires
        !service.server,
        !service.user_server,
        desktop.sid@.len() > 0,
        desktop.uid@.len() > 0,
        desktop.uid@ != service.uid@,
        desktop.wayland,
        desktop.username@.len() == 0,
    ensures
        passes(
            service,
            seq![
                Event::Running(true),
                Event::Session(desktop),
            ],
            service,
            seq![
                Action::QueryDesktop,
                Action::StopStrayServers,
                Action::Sleep(service.interval),
                Action::Sleep(service.interval),
                Action::AskRunning,
            ],
        ),
{
    let answers = quiet(desktop);
    names_differ();
    pass_runs(service, answers);
    assert(pass_events(service, answers) == seq![
        Event::Running(true),
        Event::Session(desktop),
    ]);
}

/// On Wayland a session that nobody owns costs the service's own server its
/// process: it is killed, waited for where it is still there, and let go of.
pub proof fn new_ownerless_session_stops_the_server(
    service: Service,
    desktop: Desktop,
    stopped: Waited,
)
    requires
        service.server,
        !service.user_server,
        desktop.sid@.len() > 0,
        desktop.uid@.len() > 0,
        desktop.uid@ != service.uid@,
        desktop.wayland,
        desktop.username@.len() == 0,
    ensures
        passes(
            service,
            seq![
                Event::Running(true),
                Event::Session(desktop),
                Event::Looked(stopped),
            ],
            Service { server: false, ..service },
            seq![
                Action::QueryDesktop,
                Action::StopStrayServers,
                Action::Sleep(service.interval),
                Action::Kill(Slot::Server),
                Action::Sleep(30),
                Action::TryWait(Slot::Server),
            ] + (if stopped == Waited::Running {
                seq![Action::Wait(Slot::Server)]
            } else {
                seq![]
            }) + seq![
                Action::Discard(Slot::Server),
                Action::Sleep(service.interval),
                Action::AskRunning,
            ],
        ),
{
    let answers = Answers { stopped, ..quiet(desktop) };
    names_differ();
    pass_runs(service, answers);
    assert(pass_events(service, answers) == seq![
        Event::Running(true),
        Event::Session(desktop),
        Event::Looked(stopped),
    ]);
}

/// On Wayland a session that nobody owns costs the server of a user its
/// process: it is killed, waited for where it is still there, and let go of.
pub proof fn new_ownerless_session_stops_the_user_server(
    service: Service,
    desktop: Desktop,
    stopped: Waited,
)
    requires
        !service.server,
        service.user_server,
        desktop.sid@.len() > 0,
        desktop.uid@.len() > 0,
        desktop.uid@ != service.uid@,
        desktop.wayland,
        desktop.username@.len() == 0,
    ensures
        passes(
            service,
            seq![
                Event::Running(true),
                Event::Session(desktop),
                Event::Looked(stopped),
            ],
            Service { user_server: false, ..service },
            seq![
                Action::QueryDesktop,
                Action::StopStrayServers,
                Action::Sleep(service.interval),
                Action::Kill(Slot::UserServer),
                Action::Sleep(30),
                Action::TryWait(Slot::UserServer),
            ] + (if stopped == Waited::Running {
                seq![Action::Wait(Slot::UserServer)]
            } else {
                seq![]
            }) + seq![
                Action::Discard(Slot::UserServer),
                Action::Sleep(service.interval),
                Action::AskRunning,
            ],
        ),
{
    let answers = Answers { stopped, ..quiet(desktop) };
    names_differ();
    pass_runs(service, answers);
    assert(pass_events(service, answers) == seq![
        Event::Running(true),
        Event::Session(desktop),
        Event::Looked(stopped),
    ]);
}

/// On Wayland a session that nobody owns gets no server, and stray ones are killed,
/// also where its user is no new one and a restart is due.
pub proof fn ownerless_session_gets_no_server_when_due(
    service: Service,
    desktop: Desktop,
    early_now: u128,
)
    requires
        !service.server,
        !service.user_server,
        desktop.sid@.len() > 0,
        desktop.uid@ == service.uid@ || desktop.uid@.len() == 0,
        (service.cm0 && early_now - service.last_restart >= 61_000_000_000)
            || early_now - service.last_restart >= 3601_000_000_000,
        desktop.wayland,
        desktop.username@.len() == 0,
    ensures
        passes(
            service,
            seq![
                Event::Running(true),
                Event::Session(desktop),
                Event::Status { cm: false, now: early_now },
            ],
            service,
            seq![
                Action::QueryDesktop,
                Action::QueryStatus,
                Action::StopStrayServers,
                Action::Sleep(service.interval),
                Action::Sleep(service.interval),
                Action::AskRunning,
            ],
        ),
{
    let answers = Answers { early_now, ..quiet(desktop) };
    names_differ();
    pass_runs(service, answers);
    assert(pass_events(service, answers) == seq![
        Event::Running(true),
        Event::Session(desktop),
        Event::Status { cm: false, now: early_now },
    ]);
}

/// On Wayland a session that nobody owns costs the service's own server its
/// process: it is killed, waited for where it is still there, and let go of, also
/// where its user is no new one and a restart is due.
pub proof fn ownerless_session_stops_the_server_when_due(
    service: Service,
    desktop: Desktop,
    early_now: u128,
    stopped: Waited,
)
    requires
        service.server,
        !service.user_server,
        desktop.sid@.len() > 0,
        desktop.uid@ == service.uid@ || desktop.uid@.len() == 0,
        (service.cm0 && early_now - service.last_restart >= 61_000_000_000)
            || early_now - service.last_restart >= 3601_000_000_000,
        desktop.wayland,
        desktop.username@.len() == 0,
    ensures
        passes(
            service,
            seq![
                Event::Running(true),
                Event::Session(desktop),
                Event::Status { cm: false, now: early_now },
                Event::Looked(stopped),
            ],
            Service { server: false, ..service },
            seq![
                Action::QueryDesktop,
                Action::QueryStatus,
                Action::StopStrayServers,
                Action::Sleep(service.interval),
                Action::Kill(Slot::Server),
                Action::Sleep(30),
                Action::TryWait(Slot::Server),
            ] + (if stopped == Waited::Running {
                seq![Action::Wait(Slot::Server)]
            } else {
                seq![]
            }) + seq![
                Action::Discard(Slot::Server),
                Action::Sleep(service.interval),
                Action::AskRunning,
            ],
        ),
{
    let answers = Answers { early_now, stopped, ..quiet(desktop) };
    names_differ();
    pass_runs(service, answers);
    assert(pass_events(service, answers) == seq![
        Event::Running(true),
        Event::Session(desktop),
        Event::Status { cm: false, now: early_now },
        Event::Looked(stopped),
    ]);
}

/// On Wayland a session that nobody owns costs the server of a user its
/// process: it is killed, waited for where it is still there, and let go of, also
/// where its user is no new one and a restart is due.
pub proof fn ownerless_session_stops_the_user_server_when_due(
    service: Service,
    desktop: Desktop,
    early_now: u128,
    stopped: Waited,
)
    requires
        !service.server,
        service.user_server,
        desktop.sid@.len() > 0,
        desktop.uid@ == service.uid@ || desktop.uid@.len() == 0,
        (service.cm0 && early_now - service.last_restart >= 61_000_000_000)
            || early_now - service.last_restart >= 3601_000_000_000,
        desktop.wayland,
        desktop.username@.len() == 0,
    ensures
        passes(
            service,
            seq![
                Event::Running(true),
                Event::Session(desktop),
                Event::Status { cm: false, now: early_now },
                Event::Looked(stopped),
            ],
            Service { user_server: false, ..service },
            seq![
                Action::QueryDesktop,
                Action::QueryStatus,
                Action::StopStrayServers,
                Action::Sleep(service.interval),
                Action::Kill(Slot::UserServer),
                Action::Sleep(30),
                Action::TryWait(Slot::UserServer),
            ] + (if stopped == Waited::Running {
                seq![Action::Wait(Slot::UserServer)]
            } else {
                seq![]
            }) + seq![
                Action::Discard(Slot::UserServer),
                Action::Sleep(service.interval),
                Action::AskRunning,
            ],
        ),
{
    let answers = Answers { early_now, stopped, ..quiet(desktop) };
    names_differ();
    pass_runs(service, answers);
    assert(pass_events(service, answers) == seq![
        Event::Running(true),
        Event::Session(desktop),
        Event::Status { cm: false, now: early_now },
        Event::Looked(stopped),
    ]);
}

/// Without a session a pass pauses for half a second and changes nothing.
pub proof fn no_session_only_pauses(
    service: Service,
    desktop: Desktop,
)
    requires
        !(service.server && service.user_server),
        desktop.sid@.len() == 0,
    ensures
        passes(
            service,
            seq![
                Event::Running(true),
                Event::Session(desktop),
            ],
            service,
            seq![
                Action::QueryDesktop,
                Action::Sleep(500),
                Action::AskRunning,
            ],
        ),
{
    let answers = quiet(desktop);
    pass_runs(service, answers);
    assert(pass_events(service, answers) == seq![
        Event::Running(true),
        Event::Session(desktop),
    ]);
}

/// While the user stays, or is not known, and no restart is due, a pass pauses for half
/// a second and changes nothing, whatever the session is.
pub proof fn user_who_stays_is_left_alone(
    service: Service,
    desktop: Desktop,
    cm: bool,
    now: u128,
)
    requires
        !(service.server && service.user_server),
        desktop.sid@.len() > 0,
        desktop.uid@ == service.uid@ || desktop.uid@.len() == 0,
        cm || (now - service.last_restart < 3601_000_000_000 && (!service.cm0
            || now - service.last_restart < 61_000_000_000)),
    ensures
        passes(
            service,
            seq![
                Event::Running(true),
                Event::Session(desktop),
                Event::Status { cm, now },
            ],
            service,
            seq![
                Action::QueryDesktop,
                Action::QueryStatus,
                Action::Sleep(500),
                Action::AskRunning,
            ],
        ),
{
    let answers = Answers { early_cm: cm, early_now: now, ..quiet(desktop) };
    pass_runs(service, answers);
    assert(pass_events(service, answers) == seq![
        Event::Running(true),
        Event::Session(desktop),
        Event::Status { cm, now },
    ]);
}

/// When the loop is told to end, the server of a user is killed first, then the
/// service's own, and the loop is left; nothing else is done.
pub proof fn end_of_the_loop(service: Service)
    ensures
        run(Supervisor { service, phase: Phase::Poll }, seq![Event::Running(false)]).0 == (
        Supervisor {
            service: Service { server: false, user_server: false, ..service },
            phase: Phase::Done,
        }),
        run(Supervisor { service, phase: Phase::Poll }, seq![Event::Running(false)]).1 == (
        if service.user_server {
            seq![Action::Kill(Slot::UserServer)]
        } else {
            seq![]
        }) + (if service.server {
            seq![Action::Kill(Slot::Server)]
        } else {
            seq![]
        }) + seq![Action::Exit],
{
    reveal_with_fuel(run, 2);
    let events = seq![Event::Running(false)];
    assert(events.skip(1) == Seq::<Event>::empty());
}

/// The loop begins at the time that it is told, without changing anything else, by
/// asking whether it is to go on.
pub proof fn start_of_the_loop(service: Service, now: u128)
    ensures
        run(Supervisor { service, phase: Phase::Boot }, seq![Event::Now(now)]).0 == (Supervisor {
            service: Service { last_restart: now, ..service },
            phase: Phase::Poll,
        }),
        run(Supervisor { service, phase: Phase::Boot }, seq![Event::Now(now)]).1 == seq![
            Action::AskRunning,
        ],
{
    reveal_with_fuel(run, 2);
    let events = seq![Event::Now(now)];
    assert(events.skip(1) == Seq::<Event>::empty());
}

proof fn names_differ()
    ensures
        "gdm"@ != "root"@,
        "root"@.len() > 0,
        "gdm"@.len() > 0,
{
    reveal_strlit("gdm");
    reveal_strlit("root");
    assert("gdm"@.len() == 3);
    assert("root"@.len() == 4);
}

} // verus!
