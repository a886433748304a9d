//! The list of themes as it is shown: one line for each theme, and a mark
//! behind the name of the theme that is active.

use vstd::prelude::*;
use crate::request::{add_line, no_lines};
use crate::text::same_text;

verus! {

/// What stands behind the name of the active theme.
pub open spec fn mark() -> Seq<char> {
    " (*)"@
}

/// The line that shows the theme `name` when `current` is the active theme.
pub open spec fn line_for(name: Seq<char>, current: Seq<char>) -> Seq<char> {
    if name == current {
        name + mark()
    } else {
        name
    }
}

/// The lines that show `themes`, in their order, when `current` is the active theme.
pub open spec fn listing(themes: Seq<Seq<char>>, current: Seq<char>) -> Seq<Seq<char>> {
    themes.map_values(|name: Seq<char>| line_for(name, current))
}

/// Each theme has its line, at its own place in the list. The line of a
/// theme is marked exactly if the theme is the active one, wherever it
/// stands, and a marked line is not the name of the theme, so that the mark
/// always shows.
pub proof fn lemma_listing_marks_active(themes: Seq<Seq<char>>, current: Seq<char>, at: int)
    requires
        0 <= at < themes.len(),
    ensures
        listing(themes, current).len() == themes.len(),
        themes[at] == current ==> listing(themes, current)[at] == themes[at] + mark(),
        themes[at] != current ==> listing(themes, current)[at] == themes[at],
        themes[at] + mark() != themes[at],
{
    reveal_strlit(" (*)");
    assert((themes[at] + mark()).len() == themes[at].len() + 4);
}

/// The line that shows the theme `name` when `current` is the active theme.
pub fn theme_line(name: &str, current: &str) -> (line: String)
    ensures
        line@ == line_for(name@, current@),
{
    let mut line = name.to_owned();
    if same_text(name, current) {
        line.append(" (*)");
    }
    line
}

/// The lines that show `themes`, in their order, when `current` is the
/// active theme: each theme's name, and a mark behind that of the active one.
pub fn list_lines(themes: &Vec<String>, current: &str) -> (lines: Vec<String>)
    ensures
        lines.deep_view() == listing(themes.deep_view(), current@),
{
    let mut lines = no_lines();
    let mut at: usize = 0;
    while at < themes.len()
        invariant
            at <= themes.len(),
            lines.deep_view() == listing(themes.deep_view().take(at as int), current@),
        decreases themes.len() - at,
    {
        add_line(&mut lines, theme_line(themes[at].as_str(), current));
        proof {
            let all = themes.deep_view();
            assert(listing(all.take(at + 1), current@) =~= listing(
                all.take(at as int),
                current@,
            ).push(line_for(all[at as int], current@)));
        }
        at = at + 1;
    }
    proof {
        assert(themes.deep_view().take(at as int) =~= themes.deep_view());
    }
    lines
}

} // verus!
