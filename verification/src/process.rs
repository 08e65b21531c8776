//! Processes: what is started, with which arguments, and what is read off the
//! list of those that run.

use vstd::prelude::*;
use vstd::utf8::{decode_utf8, valid_utf8};

use crate::desktop::Desktop;
use crate::text::{
    contains, from_utf8_lossy, has_part, line_is_found_anywhere, lines, lines_hold_no_line_feed,
    lines_of, lossy_chars, stands_at, texts, unended_line_is_kept, without_return,
};

verus! {

/// The argument that makes the program a server.
pub const SERVER_ARG: &'static str = "--server";

/// The command that kills every server process of the system.
pub const STOP_SERVERS: &'static str =
    r##"ps -ef | grep -E 'rustdesk +--server' | awk '{printf("kill -9 %d\n", $2)}' | bash"##;

/// The command that prints something on openSUSE only.
pub const OPENSUSE_QUERY: &'static str = "cat /etc/os-release | grep opensuse";

/// The file that, where it is installed, is run to ask for permission.
pub const POLKIT_FILE: &'static str = "/usr/share/rustdesk/files/polkit";

/// Whether a line of the process list shows the program running as a connection
/// manager.
pub open spec fn lists_cm(list: Seq<char>, exe: Seq<char>) -> bool {
    exists|i: int|
        0 <= i < lines_of(list).len() && has_part(#[trigger] lines_of(list)[i], exe + " --cm"@)
}

/// Whether a line of the process list shows the program running as a connection
/// manager.
pub fn is_cm_listed(list: &str, exe: &str) -> (r: bool)
    ensures
        r == lists_cm(list@, exe@),
        r ==> exists|i: int|
            0 <= i < lines_of(list@).len() && has_part(
                #[trigger] lines_of(list@)[i],
                exe@ + " --cm"@,
            ),
        !r ==> forall|i: int|
            0 <= i < lines_of(list@).len() ==> !has_part(
                #[trigger] lines_of(list@)[i],
                exe@ + " --cm"@,
            ),
{
    let mut wanted = exe.to_owned();
    wanted.append(" --cm");
    let rows = lines(list);
    assert(texts(rows@).len() == rows@.len());
    let mut i: usize = 0;
    while i < rows.len()
        invariant
            i <= rows@.len(),
            texts(rows@) == lines_of(list@),
            rows@.len() == lines_of(list@).len(),
            wanted@ == exe@ + " --cm"@,
            forall|j: int| 0 <= j < i ==> !has_part(#[trigger] lines_of(list@)[j], exe@ + " --cm"@),
        decreases rows@.len() - i,
    {
        assert(lines_of(list@)[i as int] == rows@[i as int]@);
        if contains(rows[i].as_str(), wanted.as_str()) {
            return true;
        }
        i = i + 1;
    }
    false
}

/// Whether a connection manager of this program runs, by what the process list
/// printed; none does where it could not be had. What is printed in UTF-8 is read
/// as it stands.
pub fn get_cm(output: Option<&[u8]>, exe: &str) -> (r: bool)
    ensures
        r == match output {
            Some(bytes) => lists_cm(lossy_chars(bytes@), exe@),
            None => false,
        },
        output matches Some(bytes) ==> valid_utf8(bytes@) ==> r == lists_cm(
            decode_utf8(bytes@),
            exe@,
        ),
{
    match output {
        Some(bytes) => is_cm_listed(from_utf8_lossy(bytes).as_str(), exe),
        None => false,
    }
}

/// Whether this is openSUSE, by what [`OPENSUSE_QUERY`] printed.
pub fn is_opensuse(output: Option<&str>) -> (r: bool)
    ensures
        r == match output {
            Some(output) => output@.len() > 0,
            None => false,
        },
{
    match output {
        Some(output) => !output.is_empty(),
        None => false,
    }
}

/// The arguments for `sudo` that run the program as the user, with the
/// arguments `arg` of its own.
pub open spec fn sudo_args(
    arg: Seq<Seq<char>>,
    uid: Seq<char>,
    username: Seq<char>,
    exe: Seq<char>,
    opensuse: bool,
) -> Seq<Seq<char>> {
    (if opensuse {
        seq!["-E"@]
    } else {
        seq![]
    }) + seq!["XDG_RUNTIME_DIR=/run/user/"@ + uid, "-u"@, username, exe] + arg
}

/// The arguments for `sudo` that run the program as the user, or, where none is
/// given, as the user of the active session. openSUSE needs its environment
/// kept.
pub fn run_as_user(
    arg: &Vec<String>,
    user: Option<(String, String)>,
    active: &Desktop,
    exe: &str,
    opensuse: bool,
) -> (r: Vec<String>)
    ensures
        texts(r@) == match user {
            Some((uid, username)) => sudo_args(texts(arg@), uid@, username@, exe@, opensuse),
            None => sudo_args(texts(arg@), active.uid@, active.username@, exe@, opensuse),
        },
        ({
            let (uid, username) = match user {
                Some((uid, username)) => (uid@, username@),
                None => (active.uid@, active.username@),
            };
            let runtime = "XDG_RUNTIME_DIR=/run/user/"@ + uid;
            &&& opensuse ==> texts(r@) == seq!["-E"@, runtime, "-u"@, username, exe@] + texts(arg@)
            &&& !opensuse ==> texts(r@) == seq![runtime, "-u"@, username, exe@] + texts(arg@)
        }),
{
    let (uid, username) = match user {
        Some(id_name) => id_name,
        None => (active.uid.clone(), active.username.clone()),
    };
    let mut xdg = "XDG_RUNTIME_DIR=/run/user/".to_owned();
    xdg.append(uid.as_str());
    let mut args: Vec<String> = Vec::new();
    if opensuse {
        args.push("-E".to_owned());
    }
    args.push(xdg);
    args.push("-u".to_owned());
    args.push(username);
    args.push(exe.to_owned());
    let ghost head = texts(args@);
    let ghost none = texts(arg@).take(0);
    assert(head + none == head);
    let mut i: usize = 0;
    while i < arg.len()
        invariant
            i <= arg@.len(),
            texts(args@) == head + texts(arg@).take(i as int),
        decreases arg@.len() - i,
    {
        let ghost before = args@;
        args.push(arg[i].clone());
        assert(texts(args@) == texts(before).push(texts(arg@)[i as int]));
        assert(texts(arg@).take(i + 1) == texts(arg@).take(i as int).push(texts(arg@)[i as int]));
        i = i + 1;
    }
    assert(texts(arg@).take(i as int) == texts(arg@));
    args
}

/// What `pkexec` is asked to run: the installed file, or else `echo`.
pub fn super_user_probe(installed: bool) -> (r: &'static str)
    ensures
        r@ == (if installed {
            POLKIT_FILE@
        } else {
            "echo"@
        }),
        installed ==> r@ == "/usr/share/rustdesk/files/polkit"@,
        !installed ==> r@ == "echo"@,
{
    if installed {
        POLKIT_FILE
    } else {
        "echo"
    }
}

/// Whether permission was given: `pkexec` succeeded, with the exit code zero.
pub fn check_super_user_permission(success: bool, code: Option<i32>) -> (r: bool)
    ensures
        r == (success && code == Some(0i32)),
{
    match code {
        Some(code) => success && code == 0,
        None => false,
    }
}

/// The program is found within one line only: one whose path holds a line feed is
/// never found.
pub proof fn cm_is_found_within_a_line(list: Seq<char>, exe: Seq<char>)
    requires
        exe.contains('\n'),
    ensures
        !lists_cm(list, exe),
{
    let wanted = exe + " --cm"@;
    lines_hold_no_line_feed(list);
    assert forall|i: int| 0 <= i < lines_of(list).len() implies !has_part(
        #[trigger] lines_of(list)[i],
        wanted,
    ) by {
        let line = lines_of(list)[i];
        if has_part(line, wanted) {
            let at = choose|at: int| #[trigger] stands_at(line, wanted, at);
            let j = choose|j: int| 0 <= j < exe.len() && exe[j] == '\n';
            assert(line.subrange(at, at + wanted.len())[j] == wanted[j]);
            assert(line[at + j] == '\n');
        }
    }
}

/// A line that shows the program as a connection manager is found wherever it stands
/// in the list, and whatever stands on the other lines.
pub proof fn cm_is_found_on_any_line(
    before: Seq<char>,
    line: Seq<char>,
    after: Seq<char>,
    exe: Seq<char>,
)
    requires
        !line.contains('\n'),
        has_part(line, exe + " --cm"@),
    ensures
        lists_cm(before + seq!['\n'] + line + seq!['\n'] + after, exe),
        lists_cm(line + seq!['\n'] + after, exe),
        lists_cm(before + seq!['\n'] + line, exe),
        lists_cm(line, exe),
{
    let wanted = exe + " --cm"@;
    reveal_strlit(" --cm");
    assert(wanted.last() == 'm');
    let row = without_return(line);
    let at = choose|at: int| #[trigger] stands_at(line, wanted, at);
    assert(line.subrange(at, at + wanted.len())[wanted.len() - 1] == 'm');
    assert(row.subrange(at, at + wanted.len()) == line.subrange(at, at + wanted.len()));
    assert(stands_at(row, wanted, at));
    line_is_found_anywhere(before, line, after);
    let text = before + seq!['\n'] + line + seq!['\n'] + after;
    let i = lines_of(text).index_of(row);
    assert(has_part(lines_of(text)[i], wanted));
    let short = line + seq!['\n'] + after;
    let j = lines_of(short).index_of(row);
    assert(has_part(lines_of(short)[j], wanted));
    unended_line_is_kept(before, line);
    let unended = lines_of(before + seq!['\n'] + line);
    assert(has_part(unended[unended.len() - 1], wanted));
    assert(has_part(lines_of(line)[0], wanted));
}

/// Keeping the environment is all that openSUSE changes, and the program's own
/// arguments come last, as they were given.
pub proof fn sudo_args_shape(
    arg: Seq<Seq<char>>,
    uid: Seq<char>,
    username: Seq<char>,
    exe: Seq<char>,
)
    ensures
        sudo_args(arg, uid, username, exe, true) == seq!["-E"@] + sudo_args(
            arg,
            uid,
            username,
            exe,
            false,
        ),
        arg.is_suffix_of(sudo_args(arg, uid, username, exe, true)),
        arg.is_suffix_of(sudo_args(arg, uid, username, exe, false)),
{
    let head = seq!["XDG_RUNTIME_DIR=/run/user/"@ + uid, "-u"@, username, exe];
    assert(sudo_args(arg, uid, username, exe, false) == head + arg);
    assert(sudo_args(arg, uid, username, exe, true) == seq!["-E"@] + (head + arg));
}

} // verus!
