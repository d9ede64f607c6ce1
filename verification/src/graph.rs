//! Which quantity the monitor graphs.
use vstd::prelude::*;

use crate::text::chars_eq;
use crate::text::chars_of;

verus! {

/// The quantity shown in the graph under the monitor's table.
#[derive(PartialEq, Eq, Structural, Clone, Copy, Debug)]
pub enum GraphType {
    Hidden,
    Frequency,
    Usage,
    Temperature,
    Unknown,
}

impl Default for GraphType {
    fn default() -> (g: GraphType)
        ensures
            g == GraphType::Hidden,
    {
        GraphType::Hidden
    }
}

/// The name under which a graph type is shown.
pub open spec fn graph_type_name(g: GraphType) -> Seq<char> {
    match g {
        GraphType::Hidden => "hidden"@,
        GraphType::Frequency => "frequency"@,
        GraphType::Usage => "usage"@,
        GraphType::Temperature => "temperature"@,
        GraphType::Unknown => "unknown"@,
    }
}

impl GraphType {
    /// The text of the graph type (its `Display`).
    pub fn name(&self) -> (s: &'static str)
        ensures
            s@ == graph_type_name(*self),
    {
        match self {
            GraphType::Hidden => "hidden",
            GraphType::Frequency => "frequency",
            GraphType::Usage => "usage",
            GraphType::Temperature => "temperature",
            GraphType::Unknown => "unknown",
        }
    }
}

/// The graph type that an already lower-cased option value selects.
pub open spec fn graph_type_of(s: Seq<char>) -> GraphType {
    if s == "hidden"@ {
        GraphType::Hidden
    } else if s == "freq"@ {
        GraphType::Frequency
    } else if s == "usage"@ {
        GraphType::Usage
    } else if s == "temp"@ {
        GraphType::Temperature
    } else {
        GraphType::Unknown
    }
}

/// What `str::to_lowercase` gives for a string (Unicode lower case).
pub uninterp spec fn lowercase(s: Seq<char>) -> Seq<char>;

/// `str::to_lowercase`: its result is named `lowercase` of the argument.
#[verifier::external_body]
pub(crate) fn to_lowercase(s: &str) -> (r: String)
    ensures
        r@ == lowercase(s@),
{
    s.to_lowercase()
}

/// The graph type selected by a lower-case option value.
pub fn graph_type_from_lowercase(s: &str) -> (g: GraphType)
    ensures
        g == graph_type_of(s@),
{
    let v = chars_of(s);
    if chars_eq(&v, &chars_of("hidden")) {
        GraphType::Hidden
    } else if chars_eq(&v, &chars_of("freq")) {
        GraphType::Frequency
    } else if chars_eq(&v, &chars_of("usage")) {
        GraphType::Usage
    } else if chars_eq(&v, &chars_of("temp")) {
        GraphType::Temperature
    } else {
        GraphType::Unknown
    }
}

/// Parses the `--graph` option: the value is lower-cased, then `hidden`,
/// `freq`, `usage` and `temp` select a graph and anything else is
/// `Unknown`.
pub fn get_graph_type(graph_type: &str) -> (g: GraphType)
    ensures
        g == graph_type_of(lowercase(graph_type@)),
{
    let lower = to_lowercase(graph_type);
    graph_type_from_lowercase(lower.as_str())
}

/// No two graph types share a name: the kind of graph shown under the
/// monitor names the quantity graphed.
pub proof fn law_graph_type_names_distinct(a: GraphType, b: GraphType)
    ensures
        graph_type_name(a) == graph_type_name(b) ==> a == b,
{
    reveal_strlit("hidden");
    reveal_strlit("frequency");
    reveal_strlit("usage");
    reveal_strlit("temperature");
    reveal_strlit("unknown");
    assert("hidden"@.len() == 6);
    assert("frequency"@.len() == 9);
    assert("usage"@.len() == 5);
    assert("temperature"@.len() == 11);
    assert("unknown"@.len() == 7);
}

/// The option value that selects a graph is the beginning of the name it
/// is shown under: `freq` for `frequency`, `temp` for `temperature`, and
/// `hidden` and `usage` in full.
pub proof fn law_graph_option_names_shown(g: GraphType)
    requires
        g != GraphType::Unknown,
    ensures
        exists|option: Seq<char>|
            graph_type_of(option) == g && graph_type_name(g).subrange(0, option.len() as int)
                == option,
{
    reveal_strlit("hidden");
    reveal_strlit("freq");
    reveal_strlit("frequency");
    reveal_strlit("usage");
    reveal_strlit("temp");
    reveal_strlit("temperature");
    reveal_strlit("unknown");
    assert("hidden"@.len() == 6);
    assert("freq"@.len() == 4);
    assert("usage"@.len() == 5);
    assert("temp"@.len() == 4);
    match g {
        GraphType::Hidden => {
            assert("hidden"@.subrange(0, 6) =~= "hidden"@);
            assert(graph_type_of("hidden"@) == g);
        },
        GraphType::Frequency => {
            assert("frequency"@.subrange(0, 4) =~= "freq"@);
            assert("freq"@[0] != "hidden"@[0]);
            assert(graph_type_of("freq"@) == g);
        },
        GraphType::Usage => {
            assert("usage"@.subrange(0, 5) =~= "usage"@);
            assert(graph_type_of("usage"@) == g);
        },
        GraphType::Temperature => {
            assert("temperature"@.subrange(0, 4) =~= "temp"@);
            assert("temp"@[0] != "freq"@[0]);
            assert(graph_type_of("temp"@) == g);
        },
        GraphType::Unknown => {},
    }
}

} // verus!
