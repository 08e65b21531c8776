//! Variables of this process's environment and of other processes'.

use vstd::prelude::*;

use crate::text::{is_trimmed, is_white, trim_end};

verus! {

/// The pause after a lookup that found nothing, in milliseconds.
pub const RETRY_PAUSE: u64 = 300;

/// The variable's value, empty where it is not set.
pub fn get_env_var(value: Option<String>) -> (r: String)
    ensures
        match value {
            Some(value) => r@ == value@,
            None => r@.len() == 0,
        },
{
    match value {
        Some(value) => value,
        None => String::new(),
    }
}

/// The command that prints the variable's value in the environment of the user's
/// last process of that name.
pub open spec fn env_command(name: Seq<char>, uid: Seq<char>, process: Seq<char>) -> Seq<char> {
    "ps -u "@ + uid + " -f | grep '"@ + process
        + "' | tail -1 | awk '{print $2}' | xargs -I__ cat /proc/__/environ 2>/dev/null | tr '\\0' '\\n' | grep '^"@
        + name + "=' | tail -1 | sed 's/"@ + name + "=//g'"@
}

/// The command that prints the variable's value in the environment of the user's
/// last process of that name.
pub fn get_env_command(name: &str, uid: &str, process: &str) -> (r: String)
    ensures
        r@ == env_command(name@, uid@, process@),
        r@ == "ps -u "@ + uid@ + " -f | grep '"@ + process@
            + "' | tail -1 | awk '{print $2}' | xargs -I__ cat /proc/__/environ 2>/dev/null | tr '\\0' '\\n' | grep '^"@
            + name@ + "=' | tail -1 | sed 's/"@ + name@ + "=//g'"@,
{
    let mut command = "ps -u ".to_owned();
    command.append(uid);
    command.append(" -f | grep '");
    command.append(process);
    command.append(
        "' | tail -1 | awk '{print $2}' | xargs -I__ cat /proc/__/environ 2>/dev/null | tr '\\0' '\\n' | grep '^",
    );
    command.append(name);
    command.append("=' | tail -1 | sed 's/");
    command.append(name);
    command.append("=//g'");
    command
}

/// The variable's value, by what the command printed; empty where it could not
/// be run.
pub fn get_env(output: Option<&str>) -> (r: String)
    ensures
        match output {
            Some(output) => is_trimmed(output@, r@),
            None => r@.len() == 0,
        },
        output matches Some(output) ==> {
            &&& r@.is_prefix_of(output@)
            &&& r@.len() > 0 ==> !is_white(r@.last())
            &&& forall|i: int| r@.len() <= i < output@.len() ==> is_white(#[trigger] output@[i])
        },
{
    match output {
        Some(output) => trim_end(output),
        None => String::new(),
    }
}

/// A lookup that is tried again while it finds nothing.
#[derive(Debug)]
pub enum Lookup {
    /// Look the variable up; so many tries are left, this one counted.
    Query(usize),
    /// This is the result.
    Done(String),
}

/// A lookup in plain values.
pub enum LookupState {
    Query(nat),
    Done(Seq<char>),
}

impl View for Lookup {
    type V = LookupState;

    open spec fn view(&self) -> LookupState {
        match *self {
            Lookup::Query(left) => LookupState::Query(left as nat),
            Lookup::Done(value) => LookupState::Done(value@),
        }
    }
}

/// A lookup with `n` tries left. Without any it has come to nothing.
pub open spec fn lookup_of(n: nat) -> LookupState {
    if n > 0 {
        LookupState::Query(n)
    } else {
        LookupState::Done(Seq::empty())
    }
}

/// What follows a try that found `value`: a pause, if any, and the next step. A
/// value ends the lookup; without one, the next try follows after a pause.
pub open spec fn tried(left: nat, value: Seq<char>) -> (Option<u64>, LookupState) {
    if value.len() > 0 {
        (None, LookupState::Done(value))
    } else {
        (Some(RETRY_PAUSE), lookup_of((left - 1) as nat))
    }
}

/// A lookup of the variable in at most `n` tries.
pub fn get_env_tries(n: usize) -> (r: Lookup)
    ensures
        r@ == lookup_of(n as nat),
        match r {
            Lookup::Query(left) => n > 0 && left == n,
            Lookup::Done(value) => n == 0 && value@.len() == 0,
        },
{
    if n > 0 {
        Lookup::Query(n)
    } else {
        Lookup::Done(String::new())
    }
}

/// What follows a try that found `value`: a pause in milliseconds, if any, and
/// the next step.
pub fn after_try(left: usize, value: String) -> (r: (Option<u64>, Lookup))
    requires
        left > 0,
    ensures
        (r.0, r.1@) == tried(left as nat, value@),
        value@.len() > 0 ==> r.0 is None && (r.1 matches Lookup::Done(found) && found@ == value@),
        value@.len() == 0 ==> r.0 == Some(300u64) && match r.1 {
            Lookup::Query(rest) => left > 1 && rest == left - 1,
            Lookup::Done(nothing) => left == 1 && nothing@.len() == 0,
        },
{
    if !value.as_str().is_empty() {
        (None, Lookup::Done(value))
    } else {
        (Some(RETRY_PAUSE), get_env_tries(left - 1))
    }
}

/// What a lookup comes to where its tries find `values`: the result, the number
/// of tries, and the number of pauses.
pub open spec fn looked_up(state: LookupState, values: Seq<Seq<char>>) -> (Seq<char>, nat, nat)
    decreases
            match state {
                LookupState::Query(left) => left,
                LookupState::Done(_) => 0,
            },
{
    match state {
        LookupState::Done(value) => (value, 0, 0),
        LookupState::Query(left) => if left == 0 {
            (Seq::empty(), 0, 0)
        } else {
            let (pause, next) = tried(left, values[0]);
            let (value, tries, pauses) = looked_up(next, values.skip(1));
            (
                value,
                tries + 1,
                if pause is Some {
                    pauses + 1
                } else {
                    pauses
                },
            )
        },
    }
}

/// The first value that is not empty is the result, and nothing is looked up
/// after it.
pub proof fn first_value_ends_lookup(n: nat, values: Seq<Seq<char>>, i: int)
    requires
        0 <= i < n,
        i < values.len(),
        values[i].len() > 0,
        forall|j: int| 0 <= j < i ==> (#[trigger] values[j]).len() == 0,
    ensures
        looked_up(lookup_of(n), values) == (values[i], (i + 1) as nat, i as nat),
    decreases n,
{
    let rest = values.skip(1);
    if i > 0 {
        assert(values[0].len() == 0);
        assert(rest[i - 1] == values[i]);
        assert forall|j: int| 0 <= j < i - 1 implies (#[trigger] rest[j]).len() == 0 by {
            assert(rest[j] == values[j + 1]);
        }
        first_value_ends_lookup((n - 1) as nat, rest, i - 1);
    } else {
        assert(looked_up(LookupState::Done(values[0]), rest) == (values[0], 0nat, 0nat));
    }
}

/// Where no try finds anything, every try is made and followed by a pause, and
/// the result is empty.
pub proof fn lookup_without_value(n: nat, values: Seq<Seq<char>>)
    requires
        n <= values.len(),
        forall|j: int| 0 <= j < n ==> (#[trigger] values[j]).len() == 0,
    ensures
        looked_up(lookup_of(n), values) == (Seq::<char>::empty(), n, n),
    decreases n,
{
    if n > 0 {
        let rest = values.skip(1);
        assert(values[0].len() == 0);
        assert forall|j: int| 0 <= j < n - 1 implies (#[trigger] rest[j]).len() == 0 by {
            assert(rest[j] == values[j + 1]);
        }
        lookup_without_value((n - 1) as nat, rest);
    }
}

/// White space after a value that does not end in any is what is trimmed off.
pub proof fn white_space_is_trimmed_off(value: Seq<char>, white: Seq<char>)
    requires
        value.len() > 0 ==> !is_white(value.last()),
        forall|i: int| 0 <= i < white.len() ==> is_white(#[trigger] white[i]),
    ensures
        is_trimmed(value + white, value),
{
    assert((value + white).take(value.len() as int) == value);
    assert forall|i: int| value.len() <= i < value.len() + white.len() implies is_white(
        #[trigger] (value + white)[i],
    ) by {
        assert((value + white)[i] == white[i - value.len()]);
    }
}

/// A trimmed value is one thing only.
pub proof fn trimmed_is_unique(text: Seq<char>, a: Seq<char>, b: Seq<char>)
    requires
        is_trimmed(text, a),
        is_trimmed(text, b),
    ensures
        a == b,
{
    if a.len() < b.len() {
        assert(b.last() == text[b.len() - 1]);
    } else if b.len() < a.len() {
        assert(a.last() == text[a.len() - 1]);
    }
}

} // verus!
