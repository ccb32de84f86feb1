//! Message texts the library composes around computed values.
use vstd::prelude::*;
use vstd::string::StringExecFns;

verus! {

/// The daily statistics message around a rendered graph.
pub open spec fn spec_stats_for_today(graph: Seq<char>) -> Seq<char> {
    "Caught your answer!\n\nHere is how today looks so far:\n"@ + graph
        + "\n\nYou can ask for the current stats any time with /get_stat."@
}

/// Wrap a rendered graph in the daily statistics message.
pub fn stats_for_today(graph: &str) -> (r: String)
    ensures
        r@ == spec_stats_for_today(graph@),
{
    let mut s = String::from_str("Caught your answer!\n\nHere is how today looks so far:\n");
    s.append(graph);
    s.append("\n\nYou can ask for the current stats any time with /get_stat.");
    s
}

} // verus!
