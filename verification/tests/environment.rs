use linux_platform::environment::{
    after_try, get_env, get_env_command, get_env_tries, get_env_var, Lookup,
};

#[test]
fn variable_or_nothing() {
    assert_eq!(get_env_var(Some("x".to_owned())), "x");
    assert_eq!(get_env_var(None), "");
}

#[test]
fn command_for_another_process() {
    assert_eq!(
        get_env_command("DISPLAY", "1000", "gnome-session"),
        "ps -u 1000 -f | grep 'gnome-session' | tail -1 | awk '{print $2}' | xargs -I__ cat \
         /proc/__/environ 2>/dev/null | tr '\\0' '\\n' | grep '^DISPLAY=' | tail -1 | sed \
         's/DISPLAY=//g'"
    );
}

#[test]
fn output_is_trimmed_at_its_end() {
    assert_eq!(get_env(Some(" :0 \n\u{a0}\u{2003}\t")), " :0");
    assert_eq!(get_env(Some(" \r\n")), "");
    assert_eq!(get_env(Some("\u{200b}")), "\u{200b}");
    assert_eq!(get_env(None), "");
}

/// The result and the pauses of a lookup whose tries find the values.
fn look_up(n: usize, values: &[&str]) -> (String, usize, Vec<u64>) {
    let mut step = get_env_tries(n);
    let mut tries = 0;
    let mut pauses = Vec::new();
    loop {
        match step {
            Lookup::Done(value) => return (value, tries, pauses),
            Lookup::Query(left) => {
                assert!(left > 0);
                let (pause, next) = after_try(left, values[tries].to_owned());
                tries += 1;
                pauses.extend(pause);
                step = next;
            }
        }
    }
}

#[test]
fn first_value_wins() {
    assert_eq!(look_up(5, &["", "", ":0", ":1"]), (":0".to_owned(), 3, vec![300, 300]));
    assert_eq!(look_up(1, &[":0"]), (":0".to_owned(), 1, vec![]));
}

#[test]
fn tries_run_out() {
    assert_eq!(look_up(2, &["", "", ":0"]), ("".to_owned(), 2, vec![300, 300]));
    assert_eq!(look_up(0, &[]), ("".to_owned(), 0, vec![]));
}
