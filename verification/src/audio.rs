//! Sources of the sound server.

use vstd::prelude::*;

use crate::text::{contains, has_part, same};

verus! {

/// The sample rate of recorded sound, in hertz.
pub const PA_SAMPLE_RATE: u32 = 48000;

/// A source as the sound server describes it.
#[derive(Debug)]
pub struct Device {
    pub name: Option<String>,
    pub description: Option<String>,
}

/// A source's name and its description.
pub type Source = (String, String);

/// The characters of an optional string, none where it is missing.
pub open spec fn chars_or_none(text: Option<String>) -> Seq<char> {
    match text {
        Some(text) => text@,
        None => Seq::empty(),
    }
}

/// Whether the source is that of the device, with empty strings for what is
/// missing.
pub open spec fn is_source_of(source: Source, device: Device) -> bool {
    &&& source.0@ == chars_or_none(device.name)
    &&& source.1@ == chars_or_none(device.description)
}

/// The name of the first source that `wanted` holds of, empty where there is
/// none.
pub open spec fn first_name(sources: Seq<Source>, wanted: spec_fn(Source) -> bool) -> Seq<char>
    decreases sources.len(),
{
    if sources.len() == 0 {
        Seq::empty()
    } else if wanted(sources[0]) {
        sources[0].0@
    } else {
        first_name(sources.skip(1), wanted)
    }
}

/// A source that records what is played.
pub open spec fn is_monitor() -> spec_fn(Source) -> bool {
    |source: Source| has_part(source.0@, "monitor"@)
}

/// A source with this description.
pub open spec fn is_described(description: Seq<char>) -> spec_fn(Source) -> bool {
    |source: Source| source.1@ == description
}

/// The string, or the empty one where it is missing.
fn or_empty(text: Option<String>) -> (r: String)
    ensures
        r@ == chars_or_none(text),
{
    match text {
        Some(text) => text,
        None => String::new(),
    }
}

/// The device's name and description.
fn source_of(device: Device) -> (r: Source)
    ensures
        is_source_of(r, device),
{
    (or_empty(device.name), or_empty(device.description))
}

/// The sources that the sound server lists, in its order; none where it could
/// not be asked.
pub fn get_pa_sources(devices: Option<Vec<Device>>) -> (r: Vec<Source>)
    ensures
        match devices {
            Some(devices) => {
                &&& r@.len() == devices@.len()
                &&& forall|i: int|
                    0 <= i < r@.len() ==> is_source_of(#[trigger] r@[i], devices@[i])
            },
            None => r@.len() == 0,
        },
        devices matches Some(devices) ==> forall|i: int|
            0 <= i < devices@.len() ==> {
                &&& (#[trigger] r@[i]).0@ == match devices@[i].name {
                    Some(name) => name@,
                    None => ""@,
                }
                &&& r@[i].1@ == match devices@[i].description {
                    Some(description) => description@,
                    None => ""@,
                }
            },
{
    proof {
        reveal_strlit("");
        assert(""@ == Seq::<char>::empty());
    }
    let mut out: Vec<Source> = Vec::new();
    if let Some(devices) = devices {
        let ghost all = devices@;
        for device in iter: devices
            invariant
                iter.seq() == all,
                out@.len() == iter.index(),
                forall|i: int|
                    0 <= i < out@.len() ==> is_source_of(#[trigger] out@[i], all[i]),
        {
            out.push(source_of(device));
        }
    }
    out
}

/// The source that the sound server records from by default; none where it could
/// not be asked.
pub fn get_default_pa_source(device: Option<Device>) -> (r: Option<Source>)
    ensures
        match device {
            Some(device) => r matches Some(source) && is_source_of(source, device),
            None => r is None,
        },
        r is Some <==> device is Some,
        r matches Some(source) ==> {
            &&& source.0@ == match device->0.name {
                Some(name) => name@,
                None => ""@,
            }
            &&& source.1@ == match device->0.description {
                Some(description) => description@,
                None => ""@,
            }
        },
{
    proof {
        reveal_strlit("");
        assert(""@ == Seq::<char>::empty());
    }
    match device {
        Some(device) => Some(source_of(device)),
        None => None,
    }
}

/// The name of the first source that records what is played, empty where there
/// is none.
pub fn get_pa_monitor(sources: &Vec<Source>) -> (r: String)
    ensures
        r@ == first_name(sources@, is_monitor()),
        ({
            ||| r@.len() == 0 && forall|j: int|
                0 <= j < sources@.len() ==> !has_part((#[trigger] sources@[j]).0@, "monitor"@)
            ||| exists|i: int|
                {
                    &&& 0 <= i < sources@.len()
                    &&& has_part((#[trigger] sources@[i]).0@, "monitor"@)
                    &&& forall|j: int| 0 <= j < i ==> !has_part((#[trigger] sources@[j]).0@, "monitor"@)
                    &&& r@ == sources@[i].0@
                }
        }),
{
    let mut i: usize = 0;
    assert(sources@.skip(0) == sources@);
    while i < sources.len()
        invariant
            i <= sources@.len(),
            first_name(sources@, is_monitor()) == first_name(
                sources@.skip(i as int),
                is_monitor(),
            ),
            forall|j: int| 0 <= j < i ==> !has_part((#[trigger] sources@[j]).0@, "monitor"@),
        decreases sources@.len() - i,
    {
        let source = &sources[i];
        assert(sources@.skip(i as int)[0] == *source);
        assert(sources@.skip(i as int).skip(1) == sources@.skip(i + 1));
        if contains(source.0.as_str(), "monitor") {
            return source.0.clone();
        }
        i = i + 1;
    }
    String::new()
}

/// The name of the first source with this description, empty where there is
/// none.
pub fn get_pa_source_name(desc: &str, sources: &Vec<Source>) -> (r: String)
    ensures
        r@ == first_name(sources@, is_described(desc@)),
        ({
            ||| r@.len() == 0 && forall|j: int|
                0 <= j < sources@.len() ==> (#[trigger] sources@[j]).1@ != desc@
            ||| exists|i: int|
                {
                    &&& 0 <= i < sources@.len()
                    &&& (#[trigger] sources@[i]).1@ == desc@
                    &&& forall|j: int| 0 <= j < i ==> (#[trigger] sources@[j]).1@ != desc@
                    &&& r@ == sources@[i].0@
                }
        }),
{
    let mut i: usize = 0;
    assert(sources@.skip(0) == sources@);
    while i < sources.len()
        invariant
            i <= sources@.len(),
            first_name(sources@, is_described(desc@)) == first_name(
                sources@.skip(i as int),
                is_described(desc@),
            ),
            forall|j: int| 0 <= j < i ==> (#[trigger] sources@[j]).1@ != desc@,
        decreases sources@.len() - i,
    {
        let source = &sources[i];
        assert(sources@.skip(i as int)[0] == *source);
        assert(sources@.skip(i as int).skip(1) == sources@.skip(i + 1));
        if same(source.1.as_str(), desc) {
            return source.0.clone();
        }
        i = i + 1;
    }
    String::new()
}

/// A name that is found belongs to a source that was wanted, and no earlier one
/// was.
pub proof fn first_name_is_the_first(
    sources: Seq<Source>,
    wanted: spec_fn(Source) -> bool,
    i: int,
)
    requires
        0 <= i < sources.len(),
        wanted(sources[i]),
        forall|j: int| 0 <= j < i ==> !wanted(#[trigger] sources[j]),
    ensures
        first_name(sources, wanted) == sources[i].0@,
    decreases sources.len(),
{
    if i > 0 {
        assert(!wanted(sources[0]));
        let rest = sources.skip(1);
        assert(rest[i - 1] == sources[i]);
        assert forall|j: int| 0 <= j < i - 1 implies !wanted(#[trigger] rest[j]) by {
            assert(rest[j] == sources[j + 1]);
        }
        first_name_is_the_first(rest, wanted, i - 1);
    }
}

/// Where no source is wanted, the name is empty.
pub proof fn no_name_without_source(sources: Seq<Source>, wanted: spec_fn(Source) -> bool)
    requires
        forall|j: int| 0 <= j < sources.len() ==> !wanted(#[trigger] sources[j]),
    ensures
        first_name(sources, wanted).len() == 0,
    decreases sources.len(),
{
    if sources.len() > 0 {
        let rest = sources.skip(1);
        assert forall|j: int| 0 <= j < rest.len() implies !wanted(#[trigger] rest[j]) by {
            assert(rest[j] == sources[j + 1]);
        }
        no_name_without_source(rest, wanted);
    }
}

/// The source that is found is the first one with just this description: neither one
/// whose description merely holds it, nor a later one.
pub proof fn exact_description_is_found(sources: Seq<Source>, desc: Seq<char>, i: int)
    requires
        0 <= i < sources.len(),
        sources[i].1@ == desc,
        forall|j: int| 0 <= j < i ==> (#[trigger] sources[j]).1@ != desc,
    ensures
        first_name(sources, is_described(desc)) == sources[i].0@,
{
    first_name_is_the_first(sources, is_described(desc), i);
}

/// Where no source has just this description, none is found.
pub proof fn other_descriptions_are_not_found(sources: Seq<Source>, desc: Seq<char>)
    requires
        forall|j: int| 0 <= j < sources.len() ==> (#[trigger] sources[j]).1@ != desc,
    ensures
        first_name(sources, is_described(desc)).len() == 0,
{
    no_name_without_source(sources, is_described(desc));
}

/// A source with another description changes nothing for this one, and its name
/// changes nothing at all.
pub proof fn source_of_another_description_is_passed_over(
    source: Source,
    sources: Seq<Source>,
    desc: Seq<char>,
)
    requires
        source.1@ != desc,
    ensures
        first_name(seq![source] + sources, is_described(desc)) == first_name(
            sources,
            is_described(desc),
        ),
{
    assert((seq![source] + sources).skip(1) == sources);
}

/// The monitor that is found is the first source whose name holds `monitor`.
pub proof fn first_monitor_is_found(sources: Seq<Source>, i: int)
    requires
        0 <= i < sources.len(),
        has_part(sources[i].0@, "monitor"@),
        forall|j: int| 0 <= j < i ==> !has_part((#[trigger] sources[j]).0@, "monitor"@),
    ensures
        first_name(sources, is_monitor()) == sources[i].0@,
{
    first_name_is_the_first(sources, is_monitor(), i);
}

/// Where no name holds `monitor`, no monitor is found.
pub proof fn no_monitor_is_found(sources: Seq<Source>)
    requires
        forall|j: int| 0 <= j < sources.len() ==> !has_part(
            (#[trigger] sources[j]).0@,
            "monitor"@,
        ),
    ensures
        first_name(sources, is_monitor()).len() == 0,
{
    no_name_without_source(sources, is_monitor());
}

} // verus!
