//! Regular expressions: what a match captured, in plain values.

use vstd::prelude::*;

use regex::Regex;

use crate::text::same;

verus! {

/// A group of a regular expression in one match.
#[derive(Debug)]
pub struct Group {
    /// The group's name, if it has one.
    pub name: Option<String>,
    /// What the group matched, if it took part in the match.
    pub text: Option<String>,
}

/// One match of a regular expression: its groups in the order of their opening
/// parentheses, the whole match first.
#[derive(Debug)]
pub struct Captures {
    pub groups: Vec<Group>,
}

/// The characters of an optional string.
pub open spec fn chars_of(text: Option<String>) -> Option<Seq<char>> {
    match text {
        Some(text) => Some(text@),
        None => None,
    }
}

impl View for Group {
    type V = (Option<Seq<char>>, Option<Seq<char>>);

    open spec fn view(&self) -> (Option<Seq<char>>, Option<Seq<char>>) {
        (chars_of(self.name), chars_of(self.text))
    }
}

impl View for Captures {
    type V = Seq<(Option<Seq<char>>, Option<Seq<char>>)>;

    open spec fn view(&self) -> Seq<(Option<Seq<char>>, Option<Seq<char>>)> {
        Seq::new(self.groups@.len(), |i: int| self.groups@[i]@)
    }
}

/// The matches in plain values.
pub open spec fn matches_of(all: Seq<Captures>) -> Seq<
    Seq<(Option<Seq<char>>, Option<Seq<char>>)>,
> {
    Seq::new(all.len(), |i: int| all[i]@)
}

/// What the group of this name matched: nothing where there is no such group or
/// where it took no part in the match.
pub open spec fn named_text(
    groups: Seq<(Option<Seq<char>>, Option<Seq<char>>)>,
    name: Seq<char>,
) -> Option<Seq<char>>
    decreases groups.len(),
{
    if groups.len() == 0 {
        None
    } else if groups[0].0 == Some(name) {
        groups[0].1
    } else {
        named_text(groups.skip(1), name)
    }
}

impl Captures {
    /// What the group of this name matched.
    pub fn name(&self, name: &str) -> (r: Option<&str>)
        ensures
            match r {
                Some(text) => named_text(self@, name@) == Some(text@),
                None => named_text(self@, name@) is None,
            },
            ({
                let groups = self.groups@;
                ||| r is None && forall|j: int|
                    0 <= j < groups.len() ==> (#[trigger] groups[j]).name is None
                        || groups[j].name.unwrap()@ != name@
                ||| exists|i: int|
                    {
                        &&& 0 <= i < groups.len()
                        &&& (#[trigger] groups[i]).name matches Some(this) && this@ == name@
                        &&& forall|j: int|
                            0 <= j < i ==> (#[trigger] groups[j]).name is None
                                || groups[j].name.unwrap()@ != name@
                        &&& match groups[i].text {
                            Some(text) => r matches Some(part) && part@ == text@,
                            None => r is None,
                        }
                    }
            }),
    {
        let mut i: usize = 0;
        assert(self@.skip(0) == self@);
        while i < self.groups.len()
            invariant
                i <= self.groups@.len(),
                named_text(self@, name@) == named_text(self@.skip(i as int), name@),
                forall|j: int|
                    0 <= j < i ==> (#[trigger] self.groups@[j]).name is None
                        || self.groups@[j].name.unwrap()@ != name@,
            decreases self.groups@.len() - i,
        {
            let group = &self.groups[i];
            assert(self@.skip(i as int)[0] == group@);
            assert(self@.skip(i as int).skip(1) == self@.skip(i + 1));
            if let Some(this) = &group.name {
                if same(this.as_str(), name) {
                    return match &group.text {
                        Some(text) => Some(text.as_str()),
                        None => None,
                    };
                }
            }
            i = i + 1;
        }
        None
    }
}

/// What a group of some name matched is what the first group of that name matched,
/// whatever groups come before or after.
pub proof fn first_group_of_a_name_counts(
    groups: Seq<(Option<Seq<char>>, Option<Seq<char>>)>,
    name: Seq<char>,
    i: int,
)
    requires
        0 <= i < groups.len(),
        groups[i].0 == Some(name),
        forall|j: int| 0 <= j < i ==> (#[trigger] groups[j]).0 != Some(name),
    ensures
        named_text(groups, name) == groups[i].1,
    decreases i,
{
    if i > 0 {
        assert(groups[0].0 != Some(name));
        let rest = groups.skip(1);
        assert forall|j: int| 0 <= j < i - 1 implies (#[trigger] rest[j]).0 != Some(name) by {
            assert(rest[j] == groups[j + 1]);
        }
        first_group_of_a_name_counts(rest, name, i - 1);
    }
}

/// Where no group has the name, nothing is found under it.
pub proof fn no_group_no_text(
    groups: Seq<(Option<Seq<char>>, Option<Seq<char>>)>,
    name: Seq<char>,
)
    requires
        forall|j: int| 0 <= j < groups.len() ==> (#[trigger] groups[j]).0 != Some(name),
    ensures
        named_text(groups, name) is None,
    decreases groups.len(),
{
    if groups.len() > 0 {
        assert(groups[0].0 != Some(name));
        let rest = groups.skip(1);
        assert forall|j: int| 0 <= j < rest.len() implies (#[trigger] rest[j]).0 != Some(name) by {
            assert(rest[j] == groups[j + 1]);
        }
        no_group_no_text(rest, name);
    }
}

/// The text of the error with which `regex::Regex::new` refuses the pattern, if it
/// does: where it is not well formed, or does not compile within the size that the
/// crate allows by default.
pub uninterp spec fn regex_refusal(pattern: Seq<char>) -> Option<Seq<char>>;

/// Whether the pattern compiles.
pub open spec fn regex_accepts(pattern: Seq<char>) -> bool {
    regex_refusal(pattern) is None
}

/// The groups of the match that `regex::Regex::captures` finds in the text.
pub uninterp spec fn regex_captures(pattern: Seq<char>, text: Seq<char>) -> Option<
    Seq<(Option<Seq<char>>, Option<Seq<char>>)>,
>;

/// The groups of the matches that `regex::Regex::captures_iter` finds in the
/// text, in order.
pub uninterp spec fn regex_captures_iter(pattern: Seq<char>, text: Seq<char>) -> Seq<
    Seq<(Option<Seq<char>>, Option<Seq<char>>)>,
>;

/// `regex::Regex::new`: whether the pattern compiles, and the text of the
/// `regex::Error` where it does not. On one target both depend on the pattern
/// alone; from one target to another the size of what a pattern compiles to may
/// differ.
#[verifier::external_body]
pub(crate) fn compile(pattern: &str) -> (r: Result<(), String>)
    ensures
        match r {
            Ok(()) => regex_refusal(pattern@) is None,
            Err(text) => regex_refusal(pattern@) == Some(text@),
        },
{
    Regex::new(pattern).map(|_| ()).map_err(|error| error.to_string())
}

/// `regex::Regex::captures` on the compiled pattern: the groups of its first
/// match in the text, named as the pattern names them. They depend on the pattern
/// and the text alone.
#[verifier::external_body]
pub(crate) fn captures(pattern: &str, text: &str) -> (r: Option<Captures>)
    requires
        regex_accepts(pattern@),
    ensures
        match r {
            Some(found) => regex_captures(pattern@, text@) == Some(found@),
            None => regex_captures(pattern@, text@) is None,
        },
{
    let re = Regex::new(pattern).unwrap();
    re.captures(text).map(|found| {
        let groups = re.capture_names().zip(found.iter()).map(|(name, part)| Group {
            name: name.map(str::to_owned),
            text: part.map(|part| part.as_str().to_owned()),
        });
        Captures { groups: groups.collect() }
    })
}

/// `regex::Regex::captures_iter` on the compiled pattern: the groups of its
/// successive matches in the text, named as the pattern names them. They depend on
/// the pattern and the text alone.
#[verifier::external_body]
pub(crate) fn captures_iter(pattern: &str, text: &str) -> (r: Vec<Captures>)
    requires
        regex_accepts(pattern@),
    ensures
        matches_of(r@) == regex_captures_iter(pattern@, text@),
{
    let re = Regex::new(pattern).unwrap();
    re.captures_iter(text).map(|found| {
        let groups = re.capture_names().zip(found.iter()).map(|(name, part)| Group {
            name: name.map(str::to_owned),
            text: part.map(|part| part.as_str().to_owned()),
        });
        Captures { groups: groups.collect() }
    }).collect()
}

} // verus!
