//! The desktop session and the user who owns it.

use vstd::prelude::*;
use vstd::utf8::encode_utf8;

use crate::text::{
    contains, has_part, part_is_found_anywhere, part_is_kept, parts, same, split, texts,
};

verus! {

/// Where the display manager is configured, first place.
pub const GDM3_CONF: &'static str = "/etc/gdm3/custom.conf";

/// Where the display manager is configured, second place.
pub const GDM_CONF: &'static str = "/etc/gdm/custom.conf";

/// The file that names the default display manager.
pub const DEFAULT_DISPLAY_MANAGER: &'static str = "/etc/X11/default-display-manager";

/// What is known of the active desktop session.
#[derive(Debug)]
pub struct Desktop {
    /// The session's identifier, empty where there is no session.
    pub sid: String,
    /// The user's name, empty where nobody is known to own the session.
    pub username: String,
    /// The user's numeric identifier, in decimal.
    pub uid: String,
    /// Whether the session runs on Wayland.
    pub wayland: bool,
    /// The X display.
    pub display: String,
    /// The X authority file.
    pub xauth: String,
}

impl Desktop {
    /// Whether the session runs on Wayland.
    pub fn is_wayland(&self) -> (r: bool)
        ensures
            r == self.wayland,
    {
        self.wayland
    }
}

impl Default for Desktop {
    /// No session.
    fn default() -> (r: Desktop)
        ensures
            r.sid@.len() == 0,
            r.username@.len() == 0,
            r.uid@.len() == 0,
            !r.wayland,
            r.display@.len() == 0,
            r.xauth@.len() == 0,
    {
        Desktop {
            sid: String::new(),
            username: String::new(),
            uid: String::new(),
            wayland: false,
            display: String::new(),
            xauth: String::new(),
        }
    }
}

/// The identifier and the name of the session's user.
pub fn get_active_user_id_name(desktop: &Desktop) -> (r: (String, String))
    ensures
        r.0@ == desktop.uid@,
        r.1@ == desktop.username@,
{
    (desktop.uid.clone(), desktop.username.clone())
}

/// The identifier of the session's user.
pub fn get_active_userid(desktop: &Desktop) -> (r: String)
    ensures
        r@ == desktop.uid@,
{
    desktop.uid.clone()
}

/// The name of the session's user.
pub fn get_active_username(desktop: &Desktop) -> (r: String)
    ensures
        r@ == desktop.username@,
{
    desktop.username.clone()
}

/// Whether the session counts as one before login: its user's identifier takes
/// four bytes or more to write, or its user is root.
pub fn is_prelogin(userid: &str, username: &str) -> (r: bool)
    ensures
        r == (encode_utf8(userid@).len() >= 4 || username@ == "root"@),
{
    userid.as_bytes().len() >= 4 || same(username, "root")
}

/// Whether the user is root.
pub fn is_root(username: &str) -> (r: bool)
    ensures
        r == (username@ == "root"@),
{
    same(username, "root")
}

/// Whether the display manager's configuration leaves Wayland on: turning it off
/// is commented out, or it is turned on.
pub open spec fn enables_wayland(conf: Seq<char>) -> bool {
    has_part(conf, "#WaylandEnable=false"@) || has_part(conf, "WaylandEnable=true"@)
}

fn is_wayland_enabled(conf: &str) -> (r: bool)
    ensures
        r == enables_wayland(conf@),
{
    contains(conf, "#WaylandEnable=false") || contains(conf, "WaylandEnable=true")
}

/// Whether the login screen runs on Wayland, by the first of the two
/// configurations that could be read.
pub fn is_login_wayland(gdm3: Option<&str>, gdm: Option<&str>) -> (r: bool)
    ensures
        r == match (gdm3, gdm) {
            (Some(conf), _) => enables_wayland(conf@),
            (None, Some(conf)) => enables_wayland(conf@),
            (None, None) => false,
        },
        gdm3 matches Some(conf) ==> r == (has_part(conf@, "#WaylandEnable=false"@) || has_part(
            conf@,
            "WaylandEnable=true"@,
        )),
        gdm3 is None ==> (gdm matches Some(conf) ==> r == (has_part(
            conf@,
            "#WaylandEnable=false"@,
        ) || has_part(conf@, "WaylandEnable=true"@))),
        gdm3 is None && gdm is None ==> !r,
{
    match (gdm3, gdm) {
        (Some(conf), _) => is_wayland_enabled(conf),
        (None, Some(conf)) => is_wayland_enabled(conf),
        (None, None) => false,
    }
}

/// Whether the session runs on Wayland and has not been modified since.
pub fn current_is_wayland(desktop: &Desktop, unmodified: bool) -> (r: bool)
    ensures
        r == (desktop.wayland && unmodified),
{
    desktop.is_wayland() && unmodified
}

/// Whether `part` is what follows the last separator of `text`; all of it where
/// there is none.
pub open spec fn is_last_part(text: Seq<char>, separator: char, part: Seq<char>) -> bool {
    &&& !part.contains(separator)
    &&& part =~= text || (part.len() < text.len() && text[text.len() - part.len() - 1] == separator
        && text.skip(text.len() - part.len()) =~= part)
}

proof fn last_of_parts(text: Seq<char>, separator: char)
    ensures
        parts(text, separator).len() > 0,
        is_last_part(text, separator, parts(text, separator).last()),
    decreases text.len(),
{
    if text.contains(separator) {
        text.index_of_first_ensures(separator);
        let end = text.index_of_first(separator).unwrap();
        let rest = text.skip(end + 1);
        last_of_parts(rest, separator);
        let part = parts(rest, separator).last();
        assert(parts(text, separator).last() == part);
        assert(text.skip(text.len() - part.len()) == rest.skip(rest.len() - part.len()));
        assert(rest.skip(0) == rest);
    }
}

/// The default display manager, by the contents of the file that names its
/// program: what follows the last slash. `gdm3` where the file could not be read.
pub fn _get_display_manager(contents: Option<&str>) -> (r: String)
    ensures
        match contents {
            Some(path) => is_last_part(path@, '/', r@),
            None => r@ == "gdm3"@,
        },
        contents matches Some(path) ==> {
            &&& !r@.contains('/')
            &&& path@ == r@ || exists|directory: Seq<char>|
                path@ == #[trigger] (directory + seq!['/'] + r@)
        },
{
    match contents {
        Some(path) => {
            let pieces = split(path, '/');
            proof {
                last_of_parts(path@, '/');
                assert(texts(pieces@).len() == pieces@.len());
                assert(texts(pieces@).last() == pieces@.last()@);
                let last = pieces@.last()@;
                if path@ != last {
                    let directory = path@.take(path@.len() - last.len() - 1);
                    assert(path@ == directory + seq!['/'] + path@.skip(path@.len() - last.len()));
                    assert(path@ == directory + seq!['/'] + last);
                }
            }
            pieces[pieces.len() - 1].clone()
        },
        None => "gdm3".to_owned(),
    }
}

/// Where the user's home directory is looked for; nowhere for a user without a
/// name.
pub open spec fn home_of(username: Seq<char>) -> Option<Seq<char>> {
    if username.len() == 0 {
        None
    } else {
        Some("/home/"@ + username)
    }
}

/// Where the user's home directory is looked for.
pub fn active_user_home_candidate(username: &str) -> (r: Option<String>)
    ensures
        match r {
            Some(home) => home_of(username@) == Some(home@),
            None => home_of(username@) is None,
        },
        r is None <==> username@.len() == 0,
        r matches Some(home) ==> home@ == "/home/"@ + username@,
{
    if username.is_empty() {
        None
    } else {
        let mut home = "/home/".to_owned();
        home.append(username);
        Some(home)
    }
}

/// The user's home directory: where it is looked for, if it exists there.
pub fn get_active_user_home(username: &str, present: bool) -> (r: Option<String>)
    ensures
        match r {
            Some(home) => present && home_of(username@) == Some(home@),
            None => !present || home_of(username@) is None,
        },
        r is Some <==> present && username@.len() > 0,
        r matches Some(home) ==> home@ == "/home/"@ + username@,
{
    if present {
        active_user_home_candidate(username)
    } else {
        None
    }
}

/// A configuration leaves Wayland on exactly if one of the two settings stands in it,
/// at whatever place.
pub proof fn two_settings_leave_wayland_on(conf: Seq<char>)
    ensures
        enables_wayland(conf) <==> (has_part(conf, "#WaylandEnable=false"@) || has_part(
            conf,
            "WaylandEnable=true"@,
        )),
{
}

/// Text before or after a configuration that leaves Wayland on does not turn it off.
pub proof fn surrounding_text_keeps_wayland_on(
    before: Seq<char>,
    conf: Seq<char>,
    after: Seq<char>,
)
    requires
        has_part(conf, "#WaylandEnable=false"@) || has_part(conf, "WaylandEnable=true"@),
    ensures
        enables_wayland(before + conf + after),
{
    if has_part(conf, "#WaylandEnable=false"@) {
        part_is_kept(before, conf, after, "#WaylandEnable=false"@);
    } else {
        part_is_kept(before, conf, after, "WaylandEnable=true"@);
    }
}

/// The two settings count wherever they stand, alone or in a text.
pub proof fn wayland_settings_count_anywhere(before: Seq<char>, after: Seq<char>)
    ensures
        enables_wayland(before + "#WaylandEnable=false"@ + after),
        enables_wayland(before + "WaylandEnable=true"@ + after),
{
    part_is_found_anywhere(before, "#WaylandEnable=false"@, after);
    part_is_found_anywhere(before, "WaylandEnable=true"@, after);
}

/// What follows the last separator does not depend on what stands before it.
pub proof fn directory_does_not_matter(directory: Seq<char>, separator: char, name: Seq<char>)
    requires
        !name.contains(separator),
    ensures
        is_last_part(directory + seq![separator] + name, separator, name),
        is_last_part(name, separator, name),
{
    let path = directory + seq![separator] + name;
    assert(path.skip(path.len() - name.len()) == name);
}

/// What follows the last separator is one thing only.
pub proof fn last_part_is_unique(text: Seq<char>, separator: char, a: Seq<char>, b: Seq<char>)
    requires
        is_last_part(text, separator, a),
        is_last_part(text, separator, b),
    ensures
        a == b,
{
    if a.len() < b.len() {
        assert(b[b.len() - a.len() - 1] == separator);
    } else if b.len() < a.len() {
        assert(a[a.len() - b.len() - 1] == separator);
    }
}

} // verus!
