//! The service loop: it looks at the active desktop session again and again and
//! keeps one server process running for it.
//!
//! [`Supervisor::step`] is the whole loop, one answer at a time. It hands out a
//! batch of actions; the caller performs them in order, and the last one asks
//! for the event that the next call takes.

use vstd::prelude::*;

use crate::desktop::Desktop;
use crate::text::same;

verus! {

/// The pause after a pass that found nothing to do, in milliseconds.
pub const QUIET_PAUSE: u64 = 500;

/// The pause between killing a server and looking whether it has gone, in
/// milliseconds.
pub const KILL_PAUSE: u64 = 30;

/// After so many seconds a server that just lost its last connection is
/// restarted.
pub const IDLE_RESTART_SECS: u128 = 60;

/// After so many seconds a server without a connection is restarted.
pub const RESTART_SECS: u128 = 3600;

/// Nanoseconds in a second.
pub const NANOS_PER_SEC: u128 = 1_000_000_000;

/// The two places that hold a server process.
#[derive(Debug, Clone, Copy, PartialEq, Eq, Structural)]
pub enum Slot {
    /// The server that the service starts as itself.
    Server,
    /// The server that the service starts for the session's user.
    UserServer,
}

/// How a server is started.
#[derive(Debug)]
pub enum Launch {
    /// As the service itself.
    RunMe,
    /// As the user with this identifier and this name.
    RunAsUser { uid: String, username: String },
}

/// What became of a process that was looked at without waiting for it.
#[derive(Debug, Clone, Copy, PartialEq, Eq, Structural)]
pub enum Waited {
    /// It has exited.
    Exited,
    /// It is still there.
    Running,
    /// Looking failed.
    Failed,
}

/// One thing for the caller to do.
#[derive(Debug)]
pub enum Action {
    /// Kill every server process of this system, supervised or not.
    StopStrayServers,
    /// Start the threads that serve virtual input devices.
    StartInputService,
    /// From now on an interrupt ends the loop.
    InstallInterruptHandler,
    /// Sleep for so many milliseconds.
    Sleep(u64),
    /// Put the session's X display and authority file into the environment.
    SetX11Env { display: String, xauth: String },
    /// Kill the process in the slot.
    Kill(Slot),
    /// Wait until the process in the slot has exited.
    Wait(Slot),
    /// Drop the process in the slot.
    Discard(Slot),
    /// Leave the loop.
    Exit,
    /// Tell whether the loop is to go on: [`Event::Running`].
    AskRunning,
    /// Look at the session: [`Event::Session`].
    QueryDesktop,
    /// Tell whether a connection is open, and the time: [`Event::Status`].
    QueryStatus,
    /// Tell the time: [`Event::Now`].
    ReadClock,
    /// Look at the process in the slot without waiting: [`Event::Looked`].
    TryWait(Slot),
    /// Start a server into the slot: [`Event::Launched`].
    Start(Slot, Launch),
}

/// What the caller hands back. Times are nanoseconds on one monotonic clock.
#[derive(Debug)]
pub enum Event {
    /// Whether the loop is to go on.
    Running(bool),
    /// The active session.
    Session(Desktop),
    /// Whether a connection is open, and the time right after that was found out.
    Status { cm: bool, now: u128 },
    /// The time.
    Now(u128),
    /// What became of the process.
    Looked(Waited),
    /// Whether a server was started.
    Launched(bool),
}

/// What the service remembers from one pass to the next.
#[derive(Debug)]
pub struct Service {
    /// The user whose session was served last.
    pub uid: String,
    /// Whether [`Slot::Server`] holds a process.
    pub server: bool,
    /// Whether [`Slot::UserServer`] holds a process.
    pub user_server: bool,
    /// Whether a connection was open when a server was last looked after.
    pub cm0: bool,
    /// When a server was last killed to be started anew; at first, when the
    /// loop began.
    pub last_restart: u128,
    /// The pause that ends a pass, in milliseconds.
    pub interval: u64,
}

/// What happens once a slot has been emptied.
#[derive(Debug)]
pub enum AfterStop {
    /// A server is looked after for this session.
    Serve(Desktop),
    /// [`Slot::Server`] is emptied too.
    StopServer,
    /// The pass ends.
    Rest,
}

/// What the supervisor has asked for and not yet been told.
#[derive(Debug)]
pub enum Phase {
    /// The time at which the loop begins.
    Boot,
    /// Whether to go on.
    Poll,
    /// The session.
    Look,
    /// The status by which it is decided whether the session needs a look.
    Check(Desktop),
    /// Whether the process that was killed has exited.
    Stopping(Slot, AfterStop),
    /// The status by which it is decided whether the server is restarted.
    Decide(Desktop),
    /// The time at which the server was killed to be started anew.
    Restarted(Desktop, bool),
    /// Whether the server has exited.
    Reap(Desktop, bool),
    /// Whether the server was started.
    Launching(Slot),
    /// Nothing: the loop is over.
    Done,
}

/// The service loop between two events.
#[derive(Debug)]
pub struct Supervisor {
    pub service: Service,
    pub phase: Phase,
}

/// A supervisor and the actions that it wants next.
pub type Reply = (Supervisor, Vec<Action>);

// ---- What a pass decides -------------------------------------------------

/// Whether the session belongs to a known user other than `uid`.
pub open spec fn user_changed(uid: Seq<char>, desktop: Desktop) -> bool {
    desktop.uid@ != uid && desktop.uid@.len() > 0
}

/// Whole seconds from `since` to `now`; none where `now` lies before.
pub open spec fn secs_between(since: u128, now: u128) -> int {
    if since <= now {
        (now - since) / NANOS_PER_SEC as int
    } else {
        0
    }
}

/// Whether a server is old enough to be restarted: never while a connection
/// is open; after a minute where the last one has just closed; after an hour
/// in any case.
pub open spec fn restart_due(service: Service, cm: bool, now: u128) -> bool {
    let age = secs_between(service.last_restart, now);
    !cm && ((service.cm0 && age > IDLE_RESTART_SECS) || age > RESTART_SECS)
}

/// Whether the session is served by the service itself, on X11.
pub open spec fn serves_x11(desktop: Desktop) -> bool {
    desktop.username@ == "root"@ || !desktop.wayland
}

/// Whether the session is served by a server of its user.
pub open spec fn serves_user(desktop: Desktop) -> bool {
    &&& !serves_x11(desktop)
    &&& desktop.username@.len() > 0
    &&& desktop.username@ != "gdm"@
}

/// Whether the session is a Wayland session that nobody owns.
pub open spec fn serves_nobody(desktop: Desktop) -> bool {
    !serves_x11(desktop) && desktop.username@.len() == 0
}

/// The slot whose server serves the session.
pub open spec fn slot_for(desktop: Desktop) -> Slot {
    if serves_x11(desktop) {
        Slot::Server
    } else {
        Slot::UserServer
    }
}

/// The slot that `slot` is not.
pub open spec fn other_slot(slot: Slot) -> Slot {
    match slot {
        Slot::Server => Slot::UserServer,
        Slot::UserServer => Slot::Server,
    }
}

/// How the session's server is started.
pub open spec fn launch_for(desktop: Desktop) -> Launch {
    if serves_x11(desktop) {
        Launch::RunMe
    } else {
        Launch::RunAsUser { uid: desktop.uid, username: desktop.username }
    }
}

impl Service {
    /// Whether the slot holds a process.
    pub open spec fn holds(self, slot: Slot) -> bool {
        match slot {
            Slot::Server => self.server,
            Slot::UserServer => self.user_server,
        }
    }

    /// The service once the slot holds a process, or none.
    pub open spec fn with(self, slot: Slot, held: bool) -> Service {
        match slot {
            Slot::Server => Service { server: held, ..self },
            Slot::UserServer => Service { user_server: held, ..self },
        }
    }
}

// ---- The replies ---------------------------------------------------------

/// The pass is over: pause for the service's interval and start the next.
pub open spec fn settled(service: Service) -> (Supervisor, Seq<Action>) {
    (
        Supervisor { service, phase: Phase::Poll },
        seq![Action::Sleep(service.interval), Action::AskRunning],
    )
}

/// The pass found nothing to do: pause briefly and start the next.
pub open spec fn paused(service: Service) -> (Supervisor, Seq<Action>) {
    (
        Supervisor { service, phase: Phase::Poll },
        seq![Action::Sleep(QUIET_PAUSE), Action::AskRunning],
    )
}

/// Kill the process in the slot and see whether it goes.
pub open spec fn stopping(service: Service, slot: Slot, then_do: AfterStop) -> (Supervisor, Seq<Action>) {
    (
        Supervisor { service, phase: Phase::Stopping(slot, then_do) },
        seq![Action::Kill(slot), Action::Sleep(KILL_PAUSE), Action::TryWait(slot)],
    )
}

/// Look after the session's server.
pub open spec fn deciding(service: Service, desktop: Desktop) -> (Supervisor, Seq<Action>) {
    (Supervisor { service, phase: Phase::Decide(desktop) }, seq![Action::QueryStatus])
}

/// Empty [`Slot::Server`] and end the pass.
pub open spec fn cleared_server(service: Service) -> (Supervisor, Seq<Action>) {
    if service.server {
        stopping(service, Slot::Server, AfterStop::Rest)
    } else {
        settled(service)
    }
}

/// What follows once a slot is empty.
pub open spec fn gone_on(service: Service, then_do: AfterStop) -> (Supervisor, Seq<Action>) {
    match then_do {
        AfterStop::Serve(desktop) => deciding(service, desktop),
        AfterStop::StopServer => cleared_server(service),
        AfterStop::Rest => settled(service),
    }
}

/// Empty the slot, if it holds a process, and go on.
pub open spec fn stop_begun(service: Service, slot: Slot, then_do: AfterStop) -> (
    Supervisor,
    Seq<Action>,
) {
    if service.holds(slot) {
        stopping(service, slot, then_do)
    } else {
        gone_on(service, then_do)
    }
}

/// Wait for a killed process that is still there, and let go of it.
pub open spec fn let_go(slot: Slot, waited: Waited) -> Seq<Action> {
    if waited == Waited::Running {
        seq![Action::Wait(slot), Action::Discard(slot)]
    } else {
        seq![Action::Discard(slot)]
    }
}

/// Empty both slots and end the pass.
pub open spec fn cleared(service: Service) -> (Supervisor, Seq<Action>) {
    stop_begun(service, Slot::UserServer, AfterStop::StopServer)
}

/// `actions` first, then those of `reply`.
pub open spec fn preceded(
    actions: Seq<Action>,
    reply: (Supervisor, Seq<Action>),
) -> (Supervisor, Seq<Action>) {
    (reply.0, actions + reply.1)
}

/// Kill every server of this system and give it the service's interval to go.
pub open spec fn forced_stop(service: Service) -> Seq<Action> {
    seq![Action::StopStrayServers, Action::Sleep(service.interval)]
}

/// The session needs a look: the server in the other slot goes first.
pub open spec fn served(service: Service, desktop: Desktop) -> (Supervisor, Seq<Action>) {
    if serves_x11(desktop) || serves_user(desktop) {
        stop_begun(service, other_slot(slot_for(desktop)), AfterStop::Serve(desktop))
    } else if serves_nobody(desktop) {
        preceded(forced_stop(service), cleared(service))
    } else {
        settled(service)
    }
}

/// Start the session's server, after every other server has been killed.
pub open spec fn launching(service: Service, desktop: Desktop) -> (Supervisor, Seq<Action>) {
    (
        Supervisor { service, phase: Phase::Launching(slot_for(desktop)) },
        forced_stop(service).push(Action::Start(slot_for(desktop), launch_for(desktop))),
    )
}

/// The loop is over: kill what is still there.
pub open spec fn closed_down(service: Service) -> (Supervisor, Seq<Action>) {
    (
        Supervisor {
            service: Service { server: false, user_server: false, ..service },
            phase: Phase::Done,
        },
        (if service.user_server { seq![Action::Kill(Slot::UserServer)] } else { seq![] })
            + (if service.server { seq![Action::Kill(Slot::Server)] } else { seq![] })
            + seq![Action::Exit],
    )
}

/// A process that was killed was looked at: wait for one that is still there,
/// let go of it, and go on.
pub open spec fn stopped(service: Service, slot: Slot, then_do: AfterStop, waited: Waited) -> (
    Supervisor,
    Seq<Action>,
) {
    preceded(let_go(slot, waited), gone_on(service.with(slot, false), then_do))
}

/// The service once the session's user has been noted.
pub open spec fn noted(service: Service, desktop: Desktop) -> Service {
    if user_changed(service.uid@, desktop) {
        Service { uid: desktop.uid, ..service }
    } else {
        service
    }
}

/// Put a new user's display into the environment.
pub open spec fn environment(service: Service, desktop: Desktop) -> Seq<Action> {
    if user_changed(service.uid@, desktop) && serves_x11(desktop) {
        seq![Action::SetX11Env { display: desktop.display, xauth: desktop.xauth }]
    } else {
        seq![]
    }
}

/// Start a server where there is none; kill the server of another user or one
/// that is due; otherwise look whether the server has exited.
pub open spec fn looked_after(service: Service, desktop: Desktop, cm: bool, now: u128) -> (
    Supervisor,
    Seq<Action>,
) {
    let slot = slot_for(desktop);
    let known = noted(service, desktop);
    if !service.holds(slot) {
        launching(Service { cm0: cm, ..known }, desktop)
    } else if user_changed(service.uid@, desktop) || restart_due(service, cm, now) {
        (
            Supervisor { service: known, phase: Phase::Restarted(desktop, cm) },
            seq![Action::Kill(slot), Action::Sleep(KILL_PAUSE), Action::ReadClock],
        )
    } else {
        (
            Supervisor { service: known, phase: Phase::Reap(desktop, cm) },
            seq![Action::TryWait(slot)],
        )
    }
}

/// The status that decides over the session's server has come.
pub open spec fn decided(service: Service, desktop: Desktop, cm: bool, now: u128) -> (
    Supervisor,
    Seq<Action>,
) {
    preceded(environment(service, desktop), looked_after(service, desktop, cm, now))
}

/// The session's server was looked at: one that has exited is started anew.
pub open spec fn reaped(service: Service, desktop: Desktop, cm: bool, waited: Waited) -> (
    Supervisor,
    Seq<Action>,
) {
    let slot = slot_for(desktop);
    let known = Service { cm0: cm, ..service };
    if waited == Waited::Exited {
        preceded(seq![Action::Discard(slot)], launching(known.with(slot, false), desktop))
    } else {
        settled(known)
    }
}

impl Supervisor {
    /// Whether the event answers what the supervisor asked last.
    pub open spec fn awaits(self, event: Event) -> bool {
        match self.phase {
            Phase::Boot => event is Now,
            Phase::Poll => event is Running,
            Phase::Look => event is Session,
            Phase::Check(_) => event is Status,
            Phase::Stopping(_, _) => event is Looked,
            Phase::Decide(_) => event is Status,
            Phase::Restarted(_, _) => event is Now,
            Phase::Reap(_, _) => event is Looked,
            Phase::Launching(_) => event is Launched,
            Phase::Done => false,
        }
    }

    /// What the supervisor does with the event that it awaits.
    pub open spec fn after(self, event: Event) -> (Supervisor, Seq<Action>) {
        let service = self.service;
        match (self.phase, event) {
            (Phase::Boot, Event::Now(now)) => (
                Supervisor {
                    service: Service { last_restart: now, ..service },
                    phase: Phase::Poll,
                },
                seq![Action::AskRunning],
            ),
            (Phase::Poll, Event::Running(running)) => if running {
                (Supervisor { service, phase: Phase::Look }, seq![Action::QueryDesktop])
            } else {
                closed_down(service)
            },
            (Phase::Look, Event::Session(desktop)) => if desktop.sid@.len() == 0 {
                paused(service)
            } else if user_changed(service.uid@, desktop) {
                served(service, desktop)
            } else {
                (Supervisor { service, phase: Phase::Check(desktop) }, seq![Action::QueryStatus])
            },
            (Phase::Check(desktop), Event::Status { cm, now }) => if restart_due(service, cm, now) {
                served(service, desktop)
            } else {
                paused(service)
            },
            (Phase::Stopping(slot, then_do), Event::Looked(waited)) => stopped(
                service,
                slot,
                then_do,
                waited,
            ),
            (Phase::Decide(desktop), Event::Status { cm, now }) => decided(
                service,
                desktop,
                cm,
                now,
            ),
            (Phase::Restarted(desktop, cm), Event::Now(now)) => (
                Supervisor {
                    service: Service { last_restart: now, ..service },
                    phase: Phase::Reap(desktop, cm),
                },
                seq![Action::TryWait(slot_for(desktop))],
            ),
            (Phase::Reap(desktop, cm), Event::Looked(waited)) => reaped(
                service,
                desktop,
                cm,
                waited,
            ),
            (Phase::Launching(slot), Event::Launched(started)) => settled(
                service.with(slot, started),
            ),
            _ => (self, seq![]),
        }
    }

    /// At most one slot holds a process, and the phase fits what they hold:
    /// a process that is being looked at is there; while a session is being
    /// looked after, the other slot is empty; a server is started into an
    /// empty slot.
    pub open spec fn wf(self) -> bool {
        let service = self.service;
        &&& !(service.server && service.user_server)
        &&& match self.phase {
            Phase::Stopping(slot, then_do) => {
                &&& service.holds(slot)
                &&& then_do matches AfterStop::Serve(desktop) ==> {
                    &&& serves_x11(desktop) || serves_user(desktop)
                    &&& slot == other_slot(slot_for(desktop))
                }
                &&& then_do is StopServer ==> slot == Slot::UserServer
                &&& then_do is Rest ==> slot == Slot::Server
            },
            Phase::Decide(desktop) => {
                &&& serves_x11(desktop) || serves_user(desktop)
                &&& !service.holds(other_slot(slot_for(desktop)))
            },
            Phase::Restarted(desktop, _) => {
                &&& serves_x11(desktop) || serves_user(desktop)
                &&& service.holds(slot_for(desktop))
            },
            Phase::Reap(desktop, _) => {
                &&& serves_x11(desktop) || serves_user(desktop)
                &&& service.holds(slot_for(desktop))
            },
            Phase::Launching(_) => !service.server && !service.user_server,
            Phase::Done => !service.server && !service.user_server,
            _ => true,
        }
    }
}

// ---- The loop ------------------------------------------------------------

/// Whether the session belongs to a known user other than `uid`.
fn is_user_changed(uid: &String, desktop: &Desktop) -> (r: bool)
    ensures
        r == user_changed(uid@, *desktop),
{
    desktop.uid != *uid && !desktop.uid.as_str().is_empty()
}

/// Whether a server is old enough to be restarted.
fn is_restart_due(service: &Service, cm: bool, now: u128) -> (r: bool)
    ensures
        r == restart_due(*service, cm, now),
{
    let age: u128 = if service.last_restart <= now {
        (now - service.last_restart) / NANOS_PER_SEC
    } else {
        0
    };
    !cm && ((service.cm0 && age > IDLE_RESTART_SECS) || age > RESTART_SECS)
}

/// Whether the session is served by the service itself, on X11.
fn is_served_on_x11(desktop: &Desktop) -> (r: bool)
    ensures
        r == serves_x11(*desktop),
{
    same(desktop.username.as_str(), "root") || !desktop.is_wayland()
}

/// The slot whose server serves the session.
fn session_slot(desktop: &Desktop) -> (r: Slot)
    ensures
        r == slot_for(*desktop),
{
    if is_served_on_x11(desktop) {
        Slot::Server
    } else {
        Slot::UserServer
    }
}

/// The slot that `slot` is not.
fn opposite(slot: Slot) -> (r: Slot)
    ensures
        r == other_slot(slot),
{
    match slot {
        Slot::Server => Slot::UserServer,
        Slot::UserServer => Slot::Server,
    }
}

impl Service {
    /// Whether the slot holds a process.
    fn is_held(&self, slot: Slot) -> (r: bool)
        ensures
            r == self.holds(slot),
    {
        match slot {
            Slot::Server => self.server,
            Slot::UserServer => self.user_server,
        }
    }

    /// From now on the slot holds a process, or none.
    fn set_held(&mut self, slot: Slot, held: bool)
        ensures
            *final(self) == old(self).with(slot, held),
    {
        match slot {
            Slot::Server => {
                self.server = held;
            },
            Slot::UserServer => {
                self.user_server = held;
            },
        }
    }
}

/// How the session's server is started: as the service itself for a session
/// on X11, as the session's user otherwise.
pub fn try_start_server_(desktop: &Desktop) -> (r: Launch)
    ensures
        r == launch_for(*desktop),
        !desktop.wayland || desktop.username@ == "root"@ ==> r == Launch::RunMe,
        desktop.wayland && desktop.username@ != "root"@ ==> r == (Launch::RunAsUser {
            uid: desktop.uid,
            username: desktop.username,
        }),
{
    if is_served_on_x11(desktop) {
        Launch::RunMe
    } else {
        Launch::RunAsUser { uid: desktop.uid.clone(), username: desktop.username.clone() }
    }
}

/// The pass is over: pause for the service's interval and start the next.
fn settle(service: Service) -> (r: Reply)
    ensures
        (r.0, r.1@) == settled(service),
{
    let actions = vec![Action::Sleep(service.interval), Action::AskRunning];
    (Supervisor { service, phase: Phase::Poll }, actions)
}

/// The pass found nothing to do: pause briefly and start the next.
fn pause(service: Service) -> (r: Reply)
    ensures
        (r.0, r.1@) == paused(service),
{
    let actions = vec![Action::Sleep(QUIET_PAUSE), Action::AskRunning];
    (Supervisor { service, phase: Phase::Poll }, actions)
}

/// Look after the session's server.
fn decide(service: Service, desktop: Desktop) -> (r: Reply)
    ensures
        (r.0, r.1@) == deciding(service, desktop),
{
    (Supervisor { service, phase: Phase::Decide(desktop) }, vec![Action::QueryStatus])
}

/// `actions` first, then those of `reply`.
fn precede(actions: Vec<Action>, reply: Reply) -> (r: Reply)
    ensures
        (r.0, r.1@) == preceded(actions@, (reply.0, reply.1@)),
{
    let mut all = actions;
    let (supervisor, mut rest) = reply;
    all.append(&mut rest);
    (supervisor, all)
}

/// Kill the process in the slot and see whether it goes.
fn kill_server(service: Service, slot: Slot, then_do: AfterStop) -> (r: Reply)
    ensures
        (r.0, r.1@) == stopping(service, slot, then_do),
{
    let actions = vec![Action::Kill(slot), Action::Sleep(KILL_PAUSE), Action::TryWait(slot)];
    (Supervisor { service, phase: Phase::Stopping(slot, then_do) }, actions)
}

/// Empty [`Slot::Server`] and end the pass.
fn clear_server(service: Service) -> (r: Reply)
    ensures
        (r.0, r.1@) == cleared_server(service),
{
    if service.server {
        kill_server(service, Slot::Server, AfterStop::Rest)
    } else {
        settle(service)
    }
}

/// What follows once a slot is empty.
fn go_on(service: Service, then_do: AfterStop) -> (r: Reply)
    ensures
        (r.0, r.1@) == gone_on(service, then_do),
{
    match then_do {
        AfterStop::Serve(desktop) => decide(service, desktop),
        AfterStop::StopServer => clear_server(service),
        AfterStop::Rest => settle(service),
    }
}

/// Empty the slot, if it holds a process, and go on. Nothing is done to an empty
/// slot.
pub fn stop_server(service: Service, slot: Slot, then_do: AfterStop) -> (r: Reply)
    ensures
        (r.0, r.1@) == stop_begun(service, slot, then_do),
        r.0.service == service,
        ({
            let held = match slot {
                Slot::Server => service.server,
                Slot::UserServer => service.user_server,
            };
            let killed = seq![Action::Kill(slot), Action::Sleep(30), Action::TryWait(slot)];
            let rest = seq![Action::Sleep(service.interval), Action::AskRunning];
            &&& held ==> r.0.phase == Phase::Stopping(slot, then_do) && r.1@ == killed
            &&& !held ==> match then_do {
                AfterStop::Serve(desktop) => {
                    r.0.phase == Phase::Decide(desktop) && r.1@ == seq![Action::QueryStatus]
                },
                AfterStop::StopServer => if service.server {
                    &&& r.0.phase == Phase::Stopping(Slot::Server, AfterStop::Rest)
                    &&& r.1@ == seq![
                        Action::Kill(Slot::Server),
                        Action::Sleep(30),
                        Action::TryWait(Slot::Server),
                    ]
                } else {
                    r.0.phase == Phase::Poll && r.1@ == rest
                },
                AfterStop::Rest => r.0.phase == Phase::Poll && r.1@ == rest,
            }
        }),
{
    if service.is_held(slot) {
        kill_server(service, slot, then_do)
    } else {
        go_on(service, then_do)
    }
}

/// Kill every server of this system and give it the service's interval to go.
fn force_stop_server(service: &Service) -> (r: Vec<Action>)
    ensures
        r@ == forced_stop(*service),
{
    vec![Action::StopStrayServers, Action::Sleep(service.interval)]
}

/// The session needs a look: the server in the other slot goes first.
fn serve(service: Service, desktop: Desktop) -> (r: Reply)
    ensures
        (r.0, r.1@) == served(service, desktop),
{
    proof {
        reveal_strlit("root");
        reveal_strlit("gdm");
    }
    let x11 = is_served_on_x11(&desktop);
    let owned = !desktop.username.as_str().is_empty();
    if x11 || (owned && !same(desktop.username.as_str(), "gdm")) {
        let other = opposite(session_slot(&desktop));
        stop_server(service, other, AfterStop::Serve(desktop))
    } else if !owned {
        let actions = force_stop_server(&service);
        precede(actions, stop_server(service, Slot::UserServer, AfterStop::StopServer))
    } else {
        settle(service)
    }
}

/// Start the session's server, after every other server has been killed.
fn start_server(service: Service, desktop: &Desktop) -> (r: Reply)
    ensures
        (r.0, r.1@) == launching(service, *desktop),
{
    let slot = session_slot(desktop);
    let mut actions = force_stop_server(&service);
    actions.push(Action::Start(slot, try_start_server_(desktop)));
    (Supervisor { service, phase: Phase::Launching(slot) }, actions)
}

/// The loop is over: kill what is still there.
fn close_down(service: Service) -> (r: Reply)
    ensures
        (r.0, r.1@) == closed_down(service),
{
    let mut service = service;
    let mut actions: Vec<Action> = Vec::new();
    if service.user_server {
        actions.push(Action::Kill(Slot::UserServer));
    }
    if service.server {
        actions.push(Action::Kill(Slot::Server));
    }
    actions.push(Action::Exit);
    service.user_server = false;
    service.server = false;
    (Supervisor { service, phase: Phase::Done }, actions)
}

/// A process that was killed was looked at: wait for one that is still there,
/// let go of it, and go on.
fn server_stopped(service: Service, slot: Slot, then_do: AfterStop, waited: Waited) -> (r: Reply)
    ensures
        (r.0, r.1@) == stopped(service, slot, then_do, waited),
{
    let mut rest = service;
    rest.set_held(slot, false);
    let actions = match waited {
        Waited::Running => vec![Action::Wait(slot), Action::Discard(slot)],
        _ => vec![Action::Discard(slot)],
    };
    precede(actions, go_on(rest, then_do))
}

/// The status that decides over the session's server has come: a new user is
/// noted; a server of the old one, or one that is due, is killed; where there
/// is none, one is started.
pub fn should_start_server(service: Service, desktop: Desktop, cm: bool, now: u128) -> (r: Reply)
    ensures
        (r.0, r.1@) == decided(service, desktop, cm, now),
        ({
            let x11 = !desktop.wayland || desktop.username@ == "root"@;
            let slot = if x11 { Slot::Server } else { Slot::UserServer };
            let held = if x11 { service.server } else { service.user_server };
            let new = desktop.uid@.len() > 0 && desktop.uid@ != service.uid@;
            let age = now - service.last_restart;
            let due = !cm && (age >= 3601_000_000_000 || (service.cm0 && age >= 61_000_000_000));
            let uid = if new { desktop.uid } else { service.uid };
            let cm0 = if held { service.cm0 } else { cm };
            let set = Action::SetX11Env { display: desktop.display, xauth: desktop.xauth };
            let launch = if x11 {
                Launch::RunMe
            } else {
                Launch::RunAsUser { uid: desktop.uid, username: desktop.username }
            };
            &&& r.0.service == (Service { uid, cm0, ..service })
            &&& r.0.phase == if !held {
                Phase::Launching(slot)
            } else if new || due {
                Phase::Restarted(desktop, cm)
            } else {
                Phase::Reap(desktop, cm)
            }
            &&& r.1@ == (if new && x11 { seq![set] } else { seq![] }) + if !held {
                seq![
                    Action::StopStrayServers,
                    Action::Sleep(service.interval),
                    Action::Start(slot, launch),
                ]
            } else if new || due {
                seq![Action::Kill(slot), Action::Sleep(30), Action::ReadClock]
            } else {
                seq![Action::TryWait(slot)]
            }
        }),
{
    let slot = session_slot(&desktop);
    let changed = is_user_changed(&service.uid, &desktop);
    let due = is_restart_due(&service, cm, now);
    let mut known = service;
    let mut environment: Vec<Action> = Vec::new();
    if changed {
        known.uid = desktop.uid.clone();
        if is_served_on_x11(&desktop) {
            environment.push(
                Action::SetX11Env {
                    display: desktop.display.clone(),
                    xauth: desktop.xauth.clone(),
                },
            );
        }
    }
    let reply = if !known.is_held(slot) {
        known.cm0 = cm;
        start_server(known, &desktop)
    } else if changed || due {
        let actions = vec![Action::Kill(slot), Action::Sleep(KILL_PAUSE), Action::ReadClock];
        (Supervisor { service: known, phase: Phase::Restarted(desktop, cm) }, actions)
    } else {
        (Supervisor { service: known, phase: Phase::Reap(desktop, cm) }, vec![Action::TryWait(slot)])
    };
    precede(environment, reply)
}

/// The session's server was looked at: one that has exited is started anew.
fn server_looked_at(service: Service, desktop: Desktop, cm: bool, waited: Waited) -> (r: Reply)
    ensures
        (r.0, r.1@) == reaped(service, desktop, cm, waited),
{
    let mut known = service;
    known.cm0 = cm;
    match waited {
        Waited::Exited => {
            let slot = session_slot(&desktop);
            known.set_held(slot, false);
            precede(vec![Action::Discard(slot)], start_server(known, &desktop))
        },
        _ => settle(known),
    }
}

/// The loop begins: no user, no server and no connection is known. The first
/// actions clear the system of servers, start the input service and ask for the
/// time.
pub fn start_os_service(interval: u64) -> (r: Reply)
    ensures
        r.0.wf(),
        r.0.phase == Phase::Boot,
        r.0.service.uid@.len() == 0,
        !r.0.service.server,
        !r.0.service.user_server,
        !r.0.service.cm0,
        r.0.service.last_restart == 0,
        r.0.service.interval == interval,
        r.1@ == seq![
            Action::StopStrayServers,
            Action::StartInputService,
            Action::InstallInterruptHandler,
            Action::ReadClock,
        ],
{
    let service = Service {
        uid: String::new(),
        server: false,
        user_server: false,
        cm0: false,
        last_restart: 0,
        interval,
    };
    let actions = vec![
        Action::StopStrayServers,
        Action::StartInputService,
        Action::InstallInterruptHandler,
        Action::ReadClock,
    ];
    (Supervisor { service, phase: Phase::Boot }, actions)
}

impl Supervisor {
    /// Whether the event answers what the supervisor asked last.
    pub fn expects(&self, event: &Event) -> (r: bool)
        ensures
            r == self.awaits(*event),
            r == match *event {
                Event::Running(_) => self.phase is Poll,
                Event::Session(_) => self.phase is Look,
                Event::Status { .. } => self.phase is Check || self.phase is Decide,
                Event::Now(_) => self.phase is Boot || self.phase is Restarted,
                Event::Looked(_) => self.phase is Stopping || self.phase is Reap,
                Event::Launched(_) => self.phase is Launching,
            },
    {
        match (&self.phase, event) {
            (Phase::Boot, Event::Now(_)) => true,
            (Phase::Poll, Event::Running(_)) => true,
            (Phase::Look, Event::Session(_)) => true,
            (Phase::Check(_), Event::Status { .. }) => true,
            (Phase::Stopping(_, _), Event::Looked(_)) => true,
            (Phase::Decide(_), Event::Status { .. }) => true,
            (Phase::Restarted(_, _), Event::Now(_)) => true,
            (Phase::Reap(_, _), Event::Looked(_)) => true,
            (Phase::Launching(_), Event::Launched(_)) => true,
            _ => false,
        }
    }

    /// Takes the event that answers the last action of the last batch, and
    /// hands out the next batch.
    pub fn step(self, event: Event) -> (r: Reply)
        requires
            self.wf(),
            self.awaits(event),
        ensures
            r.0.wf(),
            (r.0, r.1@) == self.after(event),
    {
        let Supervisor { service, phase } = self;
        match (phase, event) {
            (Phase::Boot, Event::Now(now)) => {
                let mut service = service;
                service.last_restart = now;
                (Supervisor { service, phase: Phase::Poll }, vec![Action::AskRunning])
            },
            (Phase::Poll, Event::Running(running)) => if running {
                (Supervisor { service, phase: Phase::Look }, vec![Action::QueryDesktop])
            } else {
                close_down(service)
            },
            (Phase::Look, Event::Session(desktop)) => if desktop.sid.as_str().is_empty() {
                pause(service)
            } else if is_user_changed(&service.uid, &desktop) {
                serve(service, desktop)
            } else {
                (Supervisor { service, phase: Phase::Check(desktop) }, vec![Action::QueryStatus])
            },
            (Phase::Check(desktop), Event::Status { cm, now }) => if is_restart_due(
                &service,
                cm,
                now,
            ) {
                serve(service, desktop)
            } else {
                pause(service)
            },
            (Phase::Stopping(slot, then_do), Event::Looked(waited)) => {
                server_stopped(service, slot, then_do, waited)
            },
            (Phase::Decide(desktop), Event::Status { cm, now }) => {
                should_start_server(service, desktop, cm, now)
            },
            (Phase::Restarted(desktop, cm), Event::Now(now)) => {
                let mut service = service;
                service.last_restart = now;
                let slot = session_slot(&desktop);
                (
                    Supervisor { service, phase: Phase::Reap(desktop, cm) },
                    vec![Action::TryWait(slot)],
                )
            },
            (Phase::Reap(desktop, cm), Event::Looked(waited)) => {
                server_looked_at(service, desktop, cm, waited)
            },
            (Phase::Launching(slot), Event::Launched(started)) => {
                let mut service = service;
                service.set_held(slot, started);
                settle(service)
            },
            (phase, _) => (Supervisor { service, phase }, Vec::new()),
        }
    }
}

} // verus!
