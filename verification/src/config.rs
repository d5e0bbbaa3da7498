use crate::json::opt_text_view;
use crate::text::{ascii_lowered, same, to_ascii_lowercase, trim, trimmed};
use vstd::prelude::*;

verus! {

/// The levels of reasoning effort.
pub open spec fn effort_levels() -> Seq<Seq<char>> {
    seq!["low"@, "medium"@, "high"@, "xhigh"@]
}

/// The level that a text names, whatever the case of its letters and the white space
/// around it.
pub open spec fn effort_level(value: Seq<char>) -> Option<Seq<char>> {
    let level = ascii_lowered(trimmed(value));
    if effort_levels().contains(level) {
        Some(level)
    } else {
        None
    }
}

/// The level of reasoning effort that a text names. A text that names none is dropped, so
/// that it does not reach a backend.
pub fn parse_reasoning_effort(value: &str) -> (r: Option<String>)
    ensures
        opt_text_view(r) == effort_level(value@),
{
    let level = to_ascii_lowercase(trim(value).as_str());
    let known = same(level.as_str(), "low") || same(level.as_str(), "medium") || same(
        level.as_str(),
        "high",
    ) || same(level.as_str(), "xhigh");
    proof {
        let levels = effort_levels();
        assert(levels[0] == "low"@ && levels[1] == "medium"@ && levels[2] == "high"@ && levels[3]
            == "xhigh"@);
        assert(known == levels.contains(level@));
    }
    if known {
        Some(level)
    } else {
        None
    }
}

} // verus!
