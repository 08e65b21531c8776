//! Screen resolutions, as `xrandr` reports them.

use vstd::prelude::*;

use crate::pattern::{
    captures, captures_iter, compile, matches_of, named_text, regex_accepts, regex_captures,
    regex_captures_iter, regex_refusal, Captures,
};
use crate::text::{decimal, decimal_of, integer_of, parse_i32, texts};

verus! {

/// The command that prints what `xrandr` knows, with single spaces.
pub const XRANDR_QUERY: &'static str = "xrandr --query | tr -s ' '";

/// What follows an output's name in the line of a connected output.
pub const CONNECTED_PATTERN: &'static str =
    r"\s+connected.+?(?P<width>\d+)x(?P<height>\d+)\+(?P<x>\d+)\+(?P<y>\d+).*?\n";

/// The lines that list an output's modes.
pub const MODES_PATTERN: &'static str = r"(?P<resolutions>(\s*\d+x\d+\s+\d+.*\n)+)";

/// One line that lists a mode: its size and its rates.
pub const MODE_PATTERN: &'static str =
    r"\s*(?P<width>\d+)x(?P<height>\d+)\s+(?P<rates>(\d+\.\d+[* ]*)+)\s*\n";

/// The size of a screen in pixels.
#[derive(Debug, Clone, Copy, PartialEq, Eq, Structural)]
pub struct Resolution {
    pub width: i32,
    pub height: i32,
}

/// Why there is no current resolution.
#[derive(Debug)]
pub enum ResolutionError {
    /// The output's name makes no pattern; this is why, in words.
    Pattern(String),
    /// No connected output of this name has a readable size.
    NotFound(String),
}

// ---- What is read --------------------------------------------------------

/// The pattern of the line of a connected output.
pub open spec fn connected_pattern(name: Seq<char>) -> Seq<char> {
    name + CONNECTED_PATTERN@
}

/// The size that a match's groups `width` and `height` give, where both are
/// there and fit 32 bits.
pub open spec fn size_in(groups: Seq<(Option<Seq<char>>, Option<Seq<char>>)>) -> Option<
    (i32, i32),
> {
    match (named_text(groups, "width"@), named_text(groups, "height"@)) {
        (Some(width), Some(height)) => match (integer_of(width), integer_of(height)) {
            (Some(width), Some(height)) => Some((width, height)),
            _ => None,
        },
        _ => None,
    }
}

/// The sizes of the matches that have one, each where it is first met.
pub open spec fn sizes_in(rows: Seq<Seq<(Option<Seq<char>>, Option<Seq<char>>)>>) -> Seq<
    Resolution,
>
    decreases rows.len(),
{
    if rows.len() == 0 {
        seq![]
    } else {
        let before = sizes_in(rows.drop_last());
        match size_in(rows.last()) {
            Some((width, height)) => if before.contains(Resolution { width, height }) {
                before
            } else {
                before.push(Resolution { width, height })
            },
            None => before,
        }
    }
}

/// The resolutions that the report lists for the output.
pub open spec fn resolutions_in(name: Seq<char>, report: Seq<char>) -> Seq<Resolution> {
    let pattern = connected_pattern(name) + MODES_PATTERN@;
    if !regex_accepts(pattern) {
        seq![]
    } else {
        match regex_captures(pattern, report) {
            Some(groups) => match named_text(groups, "resolutions"@) {
                Some(modes) => sizes_in(regex_captures_iter(MODE_PATTERN@, modes)),
                None => seq![],
            },
            None => seq![],
        }
    }
}

/// The resolution that a match for the output's line gives, or that it gives
/// none.
pub open spec fn is_resolution_of(
    r: Result<Resolution, ResolutionError>,
    name: Seq<char>,
    found: Option<Seq<(Option<Seq<char>>, Option<Seq<char>>)>>,
) -> bool {
    let size = match found {
        Some(groups) => size_in(groups),
        None => None,
    };
    match size {
        Some((width, height)) => r == Ok::<Resolution, ResolutionError>(
            Resolution { width, height },
        ),
        None => r matches Err(ResolutionError::NotFound(missing)) && missing@ == name,
    }
}

// ---- Reading -------------------------------------------------------------

/// The size that a match's groups `width` and `height` give.
pub fn get_width_height_from_captures(caps: &Captures) -> (r: Option<(i32, i32)>)
    ensures
        r == size_in(caps@),
        match r {
            Some((width, height)) => {
                &&& named_text(caps@, "width"@) matches Some(text) && integer_of(text) == Some(width)
                &&& named_text(caps@, "height"@) matches Some(text) && integer_of(text) == Some(
                    height,
                )
            },
            None => {
                ||| named_text(caps@, "width"@) is None
                ||| named_text(caps@, "height"@) is None
                ||| integer_of(named_text(caps@, "width"@).unwrap()) is None
                ||| integer_of(named_text(caps@, "height"@).unwrap()) is None
            },
        },
{
    match (caps.name("width"), caps.name("height")) {
        (Some(width), Some(height)) => {
            match (parse_i32(width), parse_i32(height)) {
                (Some(width), Some(height)) => Some((width, height)),
                _ => None,
            }
        },
        _ => None,
    }
}

/// The pattern of the line of a connected output.
pub fn get_xrandr_conn_pat(name: &str) -> (r: String)
    ensures
        r@ == connected_pattern(name@),
        r@ == name@
            + r"\s+connected.+?(?P<width>\d+)x(?P<height>\d+)\+(?P<x>\d+)\+(?P<y>\d+).*?\n"@,
{
    let mut pattern = name.to_owned();
    pattern.append(CONNECTED_PATTERN);
    pattern
}

/// Whether the resolution is among those listed.
fn is_listed(list: &Vec<Resolution>, resolution: Resolution) -> (r: bool)
    ensures
        r == list@.contains(resolution),
{
    let mut i: usize = 0;
    while i < list.len()
        invariant
            i <= list@.len(),
            forall|j: int| 0 <= j < i ==> list@[j] != resolution,
        decreases list@.len() - i,
    {
        if list[i] == resolution {
            return true;
        }
        i = i + 1;
    }
    false
}

/// The sizes of the matches that have one, each where it is first met.
pub fn list_resolutions(rows: &Vec<Captures>) -> (r: Vec<Resolution>)
    ensures
        r@ == sizes_in(matches_of(rows@)),
{
    let mut list: Vec<Resolution> = Vec::new();
    let mut i: usize = 0;
    while i < rows.len()
        invariant
            i <= rows@.len(),
            list@ == sizes_in(matches_of(rows@).take(i as int)),
        decreases rows@.len() - i,
    {
        let ghost upto = matches_of(rows@).take(i + 1);
        assert(upto.drop_last() == matches_of(rows@).take(i as int));
        assert(upto.last() == rows@[i as int]@);
        if let Some((width, height)) = get_width_height_from_captures(&rows[i]) {
            let resolution = Resolution { width, height };
            if !is_listed(&list, resolution) {
                list.push(resolution);
            }
        }
        i = i + 1;
    }
    assert(matches_of(rows@).take(i as int) == matches_of(rows@));
    list
}

/// The command whose report [`resolutions`] reads; none where the output's name
/// makes no pattern, so that a report would not be read.
pub fn resolutions_query(name: &str) -> (r: Option<&'static str>)
    ensures
        match r {
            Some(command) => regex_accepts(connected_pattern(name@) + MODES_PATTERN@) && command@
                == XRANDR_QUERY@,
            None => !regex_accepts(connected_pattern(name@) + MODES_PATTERN@),
        },
        r is Some <==> regex_refusal(
            name@
                + r"\s+connected.+?(?P<width>\d+)x(?P<height>\d+)\+(?P<x>\d+)\+(?P<y>\d+).*?\n"@
                + r"(?P<resolutions>(\s*\d+x\d+\s+\d+.*\n)+)"@,
        ) is None,
        r matches Some(command) ==> command@ == "xrandr --query | tr -s ' '"@,
{
    let mut pattern = get_xrandr_conn_pat(name);
    pattern.append(MODES_PATTERN);
    if compile(pattern.as_str()).is_ok() {
        Some(XRANDR_QUERY)
    } else {
        None
    }
}

/// The resolutions that the report lists for the output, each once.
pub fn resolutions(name: &str, report: &str) -> (r: Vec<Resolution>)
    requires
        regex_accepts(MODE_PATTERN@),
    ensures
        r@ == resolutions_in(name@, report@),
        r@.no_duplicates(),
        ({
            let pattern = name@
                + r"\s+connected.+?(?P<width>\d+)x(?P<height>\d+)\+(?P<x>\d+)\+(?P<y>\d+).*?\n"@
                + r"(?P<resolutions>(\s*\d+x\d+\s+\d+.*\n)+)"@;
            &&& regex_refusal(pattern) is Some ==> r@.len() == 0
            &&& regex_refusal(pattern) is None ==> match regex_captures(pattern, report@) {
                Some(groups) => match named_text(groups, "resolutions"@) {
                    Some(modes) => {
                        let rows = regex_captures_iter(
                            r"\s*(?P<width>\d+)x(?P<height>\d+)\s+(?P<rates>(\d+\.\d+[* ]*)+)\s*\n"@,
                            modes,
                        );
                        &&& r@ == sizes_in(rows)
                        &&& forall|size: Resolution| #[trigger]
                            r@.contains(size) ==> exists|i: int|
                                0 <= i < rows.len() && {
                                    &&& named_text(#[trigger] rows[i], "width"@) matches Some(text)
                                        && integer_of(text) == Some(size.width)
                                    &&& named_text(rows[i], "height"@) matches Some(text)
                                        && integer_of(text) == Some(size.height)
                                }
                        &&& forall|size: Resolution, i: int|
                            0 <= i < rows.len() && {
                                &&& named_text(#[trigger] rows[i], "width"@) matches Some(text)
                                    && integer_of(text) == Some(size.width)
                                &&& named_text(rows[i], "height"@) matches Some(text)
                                    && integer_of(text) == Some(size.height)
                            } ==> #[trigger] r@.contains(size)
                    },
                    None => r@.len() == 0,
                },
                None => r@.len() == 0,
            }
        }),
{
    proof {
        no_resolution_twice(name@, report@);
        resolutions_are_those_of_the_block(name@, report@);
    }
    let mut pattern = get_xrandr_conn_pat(name);
    pattern.append(MODES_PATTERN);
    if compile(pattern.as_str()).is_ok() {
        if let Some(found) = captures(pattern.as_str(), report) {
            if let Some(modes) = found.name("resolutions") {
                return list_resolutions(&captures_iter(MODE_PATTERN, modes));
            }
        }
    }
    Vec::new()
}

/// The resolutions that the report lists for the output, each once, or nothing
/// where a line that lists a mode has no usable pattern.
pub fn try_resolutions(name: &str, report: &str) -> (r: Option<Vec<Resolution>>)
    ensures
        match r {
            Some(list) => regex_accepts(MODE_PATTERN@) && list@ == resolutions_in(name@, report@),
            None => !regex_accepts(MODE_PATTERN@),
        },
{
    if compile(MODE_PATTERN).is_ok() {
        Some(resolutions(name, report))
    } else {
        None
    }
}

/// The resolution that a match for the output's line gives.
pub fn resolution_of(name: &str, found: Option<&Captures>) -> (r: Result<
    Resolution,
    ResolutionError,
>)
    ensures
        is_resolution_of(
            r,
            name@,
            match found {
                Some(caps) => Some(caps@),
                None => None,
            },
        ),
        match r {
            Ok(size) => found matches Some(caps) && {
                &&& named_text(caps@, "width"@) matches Some(text) && integer_of(text) == Some(
                    size.width,
                )
                &&& named_text(caps@, "height"@) matches Some(text) && integer_of(text) == Some(
                    size.height,
                )
            },
            Err(ResolutionError::NotFound(missing)) => missing@ == name@ && (found matches Some(
                caps,
            ) ==> {
                ||| named_text(caps@, "width"@) is None
                ||| named_text(caps@, "height"@) is None
                ||| integer_of(named_text(caps@, "width"@).unwrap()) is None
                ||| integer_of(named_text(caps@, "height"@).unwrap()) is None
            }),
            Err(ResolutionError::Pattern(_)) => false,
        },
{
    if let Some(caps) = found {
        if let Some((width, height)) = get_width_height_from_captures(caps) {
            return Ok(Resolution { width, height });
        }
    }
    Err(ResolutionError::NotFound(name.to_owned()))
}

/// The resolution at which the report shows the output connected.
pub fn current_resolution(name: &str, report: &str) -> (r: Result<Resolution, ResolutionError>)
    ensures
        match regex_refusal(connected_pattern(name@)) {
            Some(text) => r matches Err(ResolutionError::Pattern(error)) && error@ == text,
            None => is_resolution_of(
                r,
                name@,
                regex_captures(connected_pattern(name@), report@),
            ),
        },
        ({
            let pattern = name@
                + r"\s+connected.+?(?P<width>\d+)x(?P<height>\d+)\+(?P<x>\d+)\+(?P<y>\d+).*?\n"@;
            let found = regex_captures(pattern, report@);
            match r {
                Ok(size) => regex_refusal(pattern) is None && (found matches Some(groups) && {
                    &&& named_text(groups, "width"@) matches Some(text) && integer_of(text) == Some(
                        size.width,
                    )
                    &&& named_text(groups, "height"@) matches Some(text) && integer_of(text)
                        == Some(size.height)
                }),
                Err(ResolutionError::Pattern(error)) => regex_refusal(pattern) == Some(error@),
                Err(ResolutionError::NotFound(missing)) => {
                    &&& missing@ == name@
                    &&& regex_refusal(pattern) is None
                    &&& found matches Some(groups) ==> {
                        ||| named_text(groups, "width"@) is None
                        ||| named_text(groups, "height"@) is None
                        ||| integer_of(named_text(groups, "width"@).unwrap()) is None
                        ||| integer_of(named_text(groups, "height"@).unwrap()) is None
                    }
                },
            }
        }),
{
    let pattern = get_xrandr_conn_pat(name);
    match compile(pattern.as_str()) {
        Ok(()) => resolution_of(name, captures(pattern.as_str(), report).as_ref()),
        Err(error) => Err(ResolutionError::Pattern(error)),
    }
}

impl ResolutionError {
    /// The error in words.
    pub fn message(&self) -> (r: String)
        ensures
            r@ == match self {
                ResolutionError::NotFound(name) => "Failed to find current resolution for "@ + name@,
                ResolutionError::Pattern(text) => text@,
            },
    {
        match self {
            ResolutionError::NotFound(name) => {
                let mut text = "Failed to find current resolution for ".to_owned();
                text.append(name.as_str());
                text
            },
            ResolutionError::Pattern(text) => text.clone(),
        }
    }
}

/// The arguments that make `xrandr` give the output this size.
pub fn change_resolution(name: &str, width: usize, height: usize) -> (r: Vec<String>)
    ensures
        texts(r@) == seq![
            "--output"@,
            name@,
            "--mode"@,
            decimal_of(width as nat) + "x"@ + decimal_of(height as nat),
        ],
{
    let mut mode = decimal(width as u64);
    mode.append("x");
    mode.append(decimal(height as u64).as_str());
    vec!["--output".to_owned(), name.to_owned(), "--mode".to_owned(), mode]
}

// ---- What holds of every report ------------------------------------------

/// No resolution is listed twice.
pub proof fn no_size_twice(rows: Seq<Seq<(Option<Seq<char>>, Option<Seq<char>>)>>)
    ensures
        sizes_in(rows).no_duplicates(),
    decreases rows.len(),
{
    if rows.len() > 0 {
        no_size_twice(rows.drop_last());
    }
}

/// Where no report is asked for, no resolution would be found in any.
pub proof fn no_query_no_resolution(name: Seq<char>, report: Seq<char>)
    requires
        !regex_accepts(connected_pattern(name) + MODES_PATTERN@),
    ensures
        resolutions_in(name, report).len() == 0,
{
}

/// No resolution is reported twice for an output.
pub proof fn no_resolution_twice(name: Seq<char>, report: Seq<char>)
    ensures
        resolutions_in(name, report).no_duplicates(),
{
    let pattern = connected_pattern(name) + MODES_PATTERN@;
    if let Some(groups) = regex_captures(pattern, report) {
        if let Some(modes) = named_text(groups, "resolutions"@) {
            no_size_twice(regex_captures_iter(MODE_PATTERN@, modes));
        }
    }
}

/// A resolution is listed exactly if some match has that size.
pub proof fn sizes_are_those_matched(
    rows: Seq<Seq<(Option<Seq<char>>, Option<Seq<char>>)>>,
    resolution: Resolution,
)
    ensures
        sizes_in(rows).contains(resolution) <==> exists|i: int|
            0 <= i < rows.len() && #[trigger] size_in(rows[i]) == Some(
                (resolution.width, resolution.height),
            ),
    decreases rows.len(),
{
    let wanted = Some((resolution.width, resolution.height));
    if rows.len() > 0 {
        let init = rows.drop_last();
        sizes_are_those_matched(init, resolution);
        let before = sizes_in(init);
        let all = sizes_in(rows);
        assert(all == before || (all == before.push(all.last()) && size_in(rows.last()) == Some(
            (all.last().width, all.last().height),
        )));
        if all.contains(resolution) {
            if before.contains(resolution) {
                let i = choose|i: int| 0 <= i < init.len() && #[trigger] size_in(init[i]) == wanted;
                assert(size_in(rows[i]) == wanted);
            } else {
                assert(size_in(rows[rows.len() - 1]) == wanted);
            }
        }
        if exists|i: int| 0 <= i < rows.len() && #[trigger] size_in(rows[i]) == wanted {
            let i = choose|i: int| 0 <= i < rows.len() && #[trigger] size_in(rows[i]) == wanted;
            if i < init.len() {
                assert(size_in(init[i]) == wanted);
                assert(before.contains(resolution));
                let j = before.index_of(resolution);
                assert(all[j] == resolution);
            } else if !before.contains(resolution) {
                assert(all[all.len() - 1] == resolution);
            }
        }
    }
}

/// A match has a size exactly if both its groups `width` and `height` are there and
/// write numbers, and the size is then made of these two.
pub proof fn size_is_made_of_both_groups(
    groups: Seq<(Option<Seq<char>>, Option<Seq<char>>)>,
    width: i32,
    height: i32,
)
    ensures
        size_in(groups) == Some((width, height)) <==> {
            &&& named_text(groups, "width"@) matches Some(text) && integer_of(text) == Some(width)
            &&& named_text(groups, "height"@) matches Some(text) && integer_of(text) == Some(height)
        },
{
}

/// A resolution is reported exactly if, within the lines that were captured as the
/// named output's own, some line lists a mode of that width and height; the list is
/// the one made of these lines. Without such lines none is reported.
pub proof fn resolutions_are_those_of_the_block(name: Seq<char>, report: Seq<char>)
    ensures
        ({
            let pattern = name
                + r"\s+connected.+?(?P<width>\d+)x(?P<height>\d+)\+(?P<x>\d+)\+(?P<y>\d+).*?\n"@
                + r"(?P<resolutions>(\s*\d+x\d+\s+\d+.*\n)+)"@;
            &&& regex_refusal(pattern) is Some ==> resolutions_in(name, report).len() == 0
            &&& regex_refusal(pattern) is None ==> match regex_captures(pattern, report) {
                Some(groups) => match named_text(groups, "resolutions"@) {
                    Some(modes) => {
                        let rows = regex_captures_iter(
                            r"\s*(?P<width>\d+)x(?P<height>\d+)\s+(?P<rates>(\d+\.\d+[* ]*)+)\s*\n"@,
                            modes,
                        );
                        &&& resolutions_in(name, report) == sizes_in(rows)
                        &&& forall|size: Resolution| #[trigger]
                            resolutions_in(name, report).contains(size) ==> exists|i: int|
                                0 <= i < rows.len() && {
                                    &&& named_text(#[trigger] rows[i], "width"@) matches Some(text)
                                        && integer_of(text) == Some(size.width)
                                    &&& named_text(rows[i], "height"@) matches Some(text)
                                        && integer_of(text) == Some(size.height)
                                }
                        &&& forall|size: Resolution, i: int|
                            0 <= i < rows.len() && {
                                &&& named_text(#[trigger] rows[i], "width"@) matches Some(text)
                                    && integer_of(text) == Some(size.width)
                                &&& named_text(rows[i], "height"@) matches Some(text)
                                    && integer_of(text) == Some(size.height)
                            } ==> #[trigger] resolutions_in(name, report).contains(size)
                    },
                    None => resolutions_in(name, report).len() == 0,
                },
                None => resolutions_in(name, report).len() == 0,
            }
        }),
{
    let pattern = connected_pattern(name) + MODES_PATTERN@;
    if let Some(groups) = regex_captures(pattern, report) {
        if let Some(modes) = named_text(groups, "resolutions"@) {
            let rows = regex_captures_iter(
                r"\s*(?P<width>\d+)x(?P<height>\d+)\s+(?P<rates>(\d+\.\d+[* ]*)+)\s*\n"@,
                modes,
            );
            assert forall|size: Resolution| #[trigger] sizes_in(rows).contains(size) implies exists|
                i: int,
            |
                0 <= i < rows.len() && {
                    &&& named_text(#[trigger] rows[i], "width"@) matches Some(text) && integer_of(
                        text,
                    ) == Some(size.width)
                    &&& named_text(rows[i], "height"@) matches Some(text) && integer_of(text)
                        == Some(size.height)
                } by {
                sizes_are_those_matched(rows, size);
                let i = choose|i: int|
                    0 <= i < rows.len() && #[trigger] size_in(rows[i]) == Some(
                        (size.width, size.height),
                    );
                size_is_made_of_both_groups(rows[i], size.width, size.height);
            }
            assert forall|size: Resolution, i: int|
                0 <= i < rows.len() && {
                    &&& named_text(#[trigger] rows[i], "width"@) matches Some(text) && integer_of(
                        text,
                    ) == Some(size.width)
                    &&& named_text(rows[i], "height"@) matches Some(text) && integer_of(text)
                        == Some(size.height)
                } implies #[trigger] sizes_in(rows).contains(size) by {
                sizes_are_those_matched(rows, size);
                size_is_made_of_both_groups(rows[i], size.width, size.height);
            }
        }
    }
}

/// Two reports in which the same lines were captured as the named output's own list
/// the same resolutions in the same order, whatever they hold besides.
pub proof fn other_outputs_do_not_matter(name: Seq<char>, a: Seq<char>, b: Seq<char>)
    requires
        ({
            let pattern = name
                + r"\s+connected.+?(?P<width>\d+)x(?P<height>\d+)\+(?P<x>\d+)\+(?P<y>\d+).*?\n"@
                + r"(?P<resolutions>(\s*\d+x\d+\s+\d+.*\n)+)"@;
            &&& regex_captures(pattern, a) matches Some(in_a)
            &&& regex_captures(pattern, b) matches Some(in_b)
            &&& named_text(in_a, "resolutions"@) == named_text(in_b, "resolutions"@)
        }),
    ensures
        resolutions_in(name, a) == resolutions_in(name, b),
{
}

/// Reading more matches adds to the list and changes nothing of it: resolutions
/// stand in the order in which they are first met.
pub proof fn list_grows_with_matches(
    rows: Seq<Seq<(Option<Seq<char>>, Option<Seq<char>>)>>,
    more: Seq<Seq<(Option<Seq<char>>, Option<Seq<char>>)>>,
)
    ensures
        sizes_in(rows).is_prefix_of(sizes_in(rows + more)),
    decreases more.len(),
{
    if more.len() == 0 {
        assert(rows + more == rows);
    } else {
        list_grows_with_matches(rows, more.drop_last());
        assert((rows + more).drop_last() == rows + more.drop_last());
    }
}

} // verus!
