use linux_platform::desktop::Desktop;
use linux_platform::service::{
    should_start_server, start_os_service, stop_server, try_start_server_, Action, AfterStop,
    Event, Launch, Phase, Slot, Supervisor, Waited,
};

const SECOND: u128 = 1_000_000_000;

fn desktop(uid: &str, username: &str, wayland: bool) -> Desktop {
    Desktop {
        sid: "2".to_owned(),
        username: username.to_owned(),
        uid: uid.to_owned(),
        wayland,
        display: ":0".to_owned(),
        xauth: "/run/xauth".to_owned(),
    }
}

fn names(actions: &Vec<Action>) -> Vec<String> {
    actions.iter().map(|action| format!("{:?}", action)).collect()
}

/// The loop at the start of its first pass, begun at time zero.
fn begun() -> Supervisor {
    let (supervisor, _) = start_os_service(300);
    let (supervisor, actions) = supervisor.step(Event::Now(0));
    assert_eq!(names(&actions), vec!["AskRunning"]);
    supervisor
}

/// Feeds the events and gathers the actions.
fn drive(supervisor: Supervisor, events: Vec<Event>) -> (Supervisor, Vec<String>) {
    let mut supervisor = supervisor;
    let mut all = Vec::new();
    for event in events {
        assert!(supervisor.expects(&event));
        let (next, actions) = supervisor.step(event);
        all.extend(names(&actions));
        supervisor = next;
    }
    (supervisor, all)
}

fn x11_started() -> Supervisor {
    let (supervisor, _) = drive(
        begun(),
        vec![
            Event::Running(true),
            Event::Session(desktop("1000", "ann", false)),
            Event::Status { cm: false, now: 0 },
            Event::Launched(true),
        ],
    );
    assert!(supervisor.service.server);
    supervisor
}

#[test]
fn begins_with_the_clock() {
    let (supervisor, actions) = start_os_service(300);
    assert_eq!(
        names(&actions),
        vec!["StopStrayServers", "StartInputService", "InstallInterruptHandler", "ReadClock"]
    );
    assert!(matches!(supervisor.phase, Phase::Boot));
    assert!(!supervisor.expects(&Event::Running(true)));
    let (supervisor, _) = supervisor.step(Event::Now(7));
    assert_eq!(supervisor.service.last_restart, 7);
    assert_eq!(supervisor.service.uid, "");
}

#[test]
fn no_session_pauses_briefly() {
    let session = Desktop { sid: "".to_owned(), ..desktop("1000", "ann", false) };
    let (supervisor, actions) = drive(begun(), vec![Event::Running(true), Event::Session(session)]);
    assert_eq!(actions, vec!["QueryDesktop", "Sleep(500)", "AskRunning"]);
    assert_eq!(supervisor.service.uid, "");
}

#[test]
fn new_x11_user_gets_a_server() {
    let (supervisor, actions) = drive(
        begun(),
        vec![
            Event::Running(true),
            Event::Session(desktop("1000", "ann", false)),
            Event::Status { cm: true, now: 0 },
            Event::Launched(true),
        ],
    );
    assert_eq!(
        actions,
        vec![
            "QueryDesktop",
            "QueryStatus",
            "SetX11Env { display: \":0\", xauth: \"/run/xauth\" }",
            "StopStrayServers",
            "Sleep(300)",
            "Start(Server, RunMe)",
            "Sleep(300)",
            "AskRunning",
        ]
    );
    assert_eq!(supervisor.service.uid, "1000");
    assert!(supervisor.service.server);
    assert!(!supervisor.service.user_server);
    assert!(supervisor.service.cm0);
}

#[test]
fn failed_start_leaves_the_slot_empty() {
    let (supervisor, _) = drive(
        begun(),
        vec![
            Event::Running(true),
            Event::Session(desktop("1000", "ann", false)),
            Event::Status { cm: false, now: 0 },
            Event::Launched(false),
        ],
    );
    assert!(!supervisor.service.server);
    assert_eq!(supervisor.service.uid, "1000");
}

#[test]
fn same_user_within_the_hour_is_left_alone() {
    let (supervisor, actions) = drive(
        x11_started(),
        vec![
            Event::Running(true),
            Event::Session(desktop("1000", "ann", false)),
            Event::Status { cm: false, now: 3600 * SECOND + SECOND - 1 },
        ],
    );
    assert_eq!(actions, vec!["QueryDesktop", "QueryStatus", "Sleep(500)", "AskRunning"]);
    assert!(supervisor.service.server);
}

#[test]
fn server_is_restarted_after_an_hour() {
    let (supervisor, actions) = drive(
        x11_started(),
        vec![
            Event::Running(true),
            Event::Session(desktop("1000", "ann", false)),
            Event::Status { cm: false, now: 3601 * SECOND },
            Event::Status { cm: false, now: 3601 * SECOND },
            Event::Now(3602 * SECOND),
            Event::Looked(Waited::Exited),
            Event::Launched(true),
        ],
    );
    assert_eq!(
        actions,
        vec![
            "QueryDesktop",
            "QueryStatus",
            "QueryStatus",
            "Kill(Server)",
            "Sleep(30)",
            "ReadClock",
            "TryWait(Server)",
            "Discard(Server)",
            "StopStrayServers",
            "Sleep(300)",
            "Start(Server, RunMe)",
            "Sleep(300)",
            "AskRunning",
        ]
    );
    assert_eq!(supervisor.service.last_restart, 3602 * SECOND);
    assert!(supervisor.service.server);
}

#[test]
fn closed_connections_restart_after_a_minute() {
    let mut supervisor = x11_started();
    supervisor.service.cm0 = true;
    let (supervisor, actions) = drive(
        supervisor,
        vec![
            Event::Running(true),
            Event::Session(desktop("1000", "ann", false)),
            Event::Status { cm: false, now: 61 * SECOND - 1 },
        ],
    );
    assert_eq!(actions[2], "Sleep(500)");
    let (supervisor, actions) = drive(
        supervisor,
        vec![
            Event::Running(true),
            Event::Session(desktop("1000", "ann", false)),
            Event::Status { cm: false, now: 61 * SECOND },
            Event::Status { cm: true, now: 61 * SECOND },
            Event::Looked(Waited::Running),
        ],
    );
    // A connection opened in between: the server stays.
    assert_eq!(
        actions,
        vec![
            "QueryDesktop",
            "QueryStatus",
            "QueryStatus",
            "TryWait(Server)",
            "Sleep(300)",
            "AskRunning"
        ]
    );
    assert!(supervisor.service.cm0);
}

#[test]
fn open_connection_is_never_interrupted() {
    let (_, actions) = drive(
        x11_started(),
        vec![
            Event::Running(true),
            Event::Session(desktop("1000", "ann", false)),
            Event::Status { cm: true, now: 1_000_000 * SECOND },
        ],
    );
    assert_eq!(actions, vec!["QueryDesktop", "QueryStatus", "Sleep(500)", "AskRunning"]);
}

#[test]
fn clock_that_runs_backwards_counts_as_no_time() {
    let mut supervisor = x11_started();
    supervisor.service.last_restart = 9000 * SECOND;
    let (_, actions) = drive(
        supervisor,
        vec![
            Event::Running(true),
            Event::Session(desktop("1000", "ann", false)),
            Event::Status { cm: false, now: 0 },
        ],
    );
    assert_eq!(actions[2], "Sleep(500)");
}

#[test]
fn wayland_user_takes_over_from_x11() {
    let (supervisor, actions) = drive(
        x11_started(),
        vec![
            Event::Running(true),
            Event::Session(desktop("1001", "bob", true)),
            Event::Looked(Waited::Running),
            Event::Status { cm: false, now: SECOND },
            Event::Launched(true),
        ],
    );
    assert_eq!(
        actions,
        vec![
            "QueryDesktop",
            "Kill(Server)",
            "Sleep(30)",
            "TryWait(Server)",
            "Wait(Server)",
            "Discard(Server)",
            "QueryStatus",
            "StopStrayServers",
            "Sleep(300)",
            "Start(UserServer, RunAsUser { uid: \"1001\", username: \"bob\" })",
            "Sleep(300)",
            "AskRunning",
        ]
    );
    assert!(!supervisor.service.server);
    assert!(supervisor.service.user_server);
    assert_eq!(supervisor.service.uid, "1001");
}

#[test]
fn root_on_wayland_is_served_as_x11() {
    assert!(matches!(try_start_server_(&desktop("0", "root", true)), Launch::RunMe));
    assert!(matches!(try_start_server_(&desktop("7", "bob", true)), Launch::RunAsUser { .. }));
    assert!(matches!(try_start_server_(&desktop("7", "bob", false)), Launch::RunMe));
}

#[test]
fn greeter_session_is_left_alone() {
    let (supervisor, actions) = drive(
        x11_started(),
        vec![Event::Running(true), Event::Session(desktop("120", "gdm", true))],
    );
    assert_eq!(actions, vec!["QueryDesktop", "Sleep(300)", "AskRunning"]);
    assert_eq!(supervisor.service.uid, "1000");
    assert!(supervisor.service.server);
}

#[test]
fn session_of_nobody_stops_every_server() {
    let (supervisor, actions) = drive(
        x11_started(),
        vec![
            Event::Running(true),
            Event::Session(desktop("55", "", true)),
            Event::Looked(Waited::Failed),
        ],
    );
    assert_eq!(
        actions,
        vec![
            "QueryDesktop",
            "StopStrayServers",
            "Sleep(300)",
            "Kill(Server)",
            "Sleep(30)",
            "TryWait(Server)",
            "Discard(Server)",
            "Sleep(300)",
            "AskRunning",
        ]
    );
    assert!(!supervisor.service.server);
    assert_eq!(supervisor.service.uid, "1000");
}

#[test]
fn empty_uid_is_no_new_user() {
    let (supervisor, actions) = drive(
        x11_started(),
        vec![
            Event::Running(true),
            Event::Session(desktop("", "ann", false)),
            Event::Status { cm: false, now: SECOND },
        ],
    );
    assert_eq!(actions[2], "Sleep(500)");
    assert_eq!(supervisor.service.uid, "1000");
}

#[test]
fn end_kills_what_is_held() {
    let (supervisor, actions) = drive(x11_started(), vec![Event::Running(false)]);
    assert_eq!(actions, vec!["Kill(Server)", "Exit"]);
    assert!(!supervisor.service.server);
    assert!(matches!(supervisor.phase, Phase::Done));
    assert!(!supervisor.expects(&Event::Running(true)));
    let (_, actions) = drive(begun(), vec![Event::Running(false)]);
    assert_eq!(actions, vec!["Exit"]);
}

#[test]
fn change_of_user_is_acted_on_once() {
    let decide = |supervisor: Supervisor, wayland| {
        let session = desktop("1001", "bob", wayland);
        should_start_server(supervisor.service, session, true, SECOND)
    };
    let (supervisor, actions) = decide(x11_started(), false);
    assert_eq!(
        names(&actions),
        vec![
            "SetX11Env { display: \":0\", xauth: \"/run/xauth\" }",
            "Kill(Server)",
            "Sleep(30)",
            "ReadClock"
        ]
    );
    assert_eq!(supervisor.service.uid, "1001");
    let (supervisor, actions) = decide(supervisor, false);
    assert_eq!(names(&actions), vec!["TryWait(Server)"]);
    let (supervisor, actions) = decide(supervisor, true);
    assert_eq!(names(&actions)[0], "StopStrayServers");
    assert_eq!(supervisor.service.uid, "1001");
}

#[test]
fn stopping_an_empty_slot_does_nothing() {
    let (supervisor, actions) =
        stop_server(x11_started().service, Slot::Server, AfterStop::Rest);
    assert_eq!(names(&actions), vec!["Kill(Server)", "Sleep(30)", "TryWait(Server)"]);
    let (supervisor, actions) = supervisor.step(Event::Looked(Waited::Exited));
    assert_eq!(names(&actions), vec!["Discard(Server)", "Sleep(300)", "AskRunning"]);
    let (supervisor, actions) = stop_server(supervisor.service, Slot::Server, AfterStop::Rest);
    assert_eq!(names(&actions), vec!["Sleep(300)", "AskRunning"]);
    assert!(!supervisor.service.server);
    let session = desktop("1000", "ann", true);
    let (_, actions) = stop_server(supervisor.service, Slot::Server, AfterStop::Serve(session));
    assert_eq!(names(&actions), vec!["QueryStatus"]);
}
