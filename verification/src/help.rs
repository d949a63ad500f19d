//! The key-binding reference shown by the help overlay, as data, and the
//! number of lines it takes.

use vstd::prelude::*;

verus! {

/// One section of the reference: a title and its (keys, description) rows.
pub type HelpSection = (&'static str, Vec<(&'static str, &'static str)>);

/// The reference: each section's title and its (keys, description) rows.
pub open spec fn help_table() -> Seq<(Seq<char>, Seq<(Seq<char>, Seq<char>)>)> {
    seq![
        ("menu"@, seq![
            ("1 / 2 / 3"@, "select mode  (time · words · quote)"@),
            ("← / →"@, "change option value"@),
            ("enter"@, "start test  (or open custom input)"@),
            ("l"@, "open language picker"@),
            ("t"@, "open theme picker"@),
            ("[ / ]"@, "change word pool size"@),
            ("p"@, "toggle punctuation"@),
            ("n"@, "toggle numbers"@),
            ("s"@, "settings  (sound, volume, …)"@),
            ("h"@, "history"@),
            ("?"@, "this help"@),
            ("q  /  ctrl+c"@, "quit"@),
        ]),
        ("test"@, seq![
            ("tab"@, "restart test (new words)"@),
            ("esc"@, "back to menu"@),
            ("backspace"@, "delete last character"@),
            ("ctrl+backspace"@, "delete whole word"@),
        ]),
        ("result"@, seq![
            ("r"@, "repeat same words"@),
            ("enter / tab"@, "new test (new words)"@),
            ("esc"@, "back to menu"@),
        ]),
        ("history"@, seq![
            ("↑ / ↓"@, "move selection"@),
            ("pgup / pgdn"@, "move by a page"@),
            ("home / end"@, "first / last result"@),
            ("esc"@, "back to menu"@),
        ]),
        ("language picker"@, seq![
            ("↑ / ↓"@, "navigate languages"@),
            ("← / →"@, "change word pool size"@),
            ("enter"@, "confirm selection"@),
            ("esc"@, "cancel"@),
        ]),
        ("theme picker"@, seq![
            ("↑ / ↓"@, "preview themes live"@),
            ("type"@, "search by name"@),
            ("enter"@, "keep theme"@),
            ("esc"@, "cancel  (restore previous)"@),
        ]),
    ]
}

/// Lines the sections take when each is a title line followed by its rows.
pub open spec fn section_lines(t: Seq<(Seq<char>, Seq<(Seq<char>, Seq<char>)>)>) -> int
    decreases t.len(),
{
    if t.len() == 0 {
        0
    } else {
        section_lines(t.drop_last()) + t.last().1.len() + 1
    }
}

/// Lines of the rendered reference: every section's title and rows, with one
/// blank line between consecutive sections.
pub open spec fn help_line_total(t: Seq<(Seq<char>, Seq<(Seq<char>, Seq<char>)>)>) -> int {
    section_lines(t) + if t.len() > 0 {
        t.len() - 1
    } else {
        0
    }
}

/// Whether `s` holds the sections of `t`, in order.
pub open spec fn holds_table(s: Seq<HelpSection>, t: Seq<(Seq<char>, Seq<(Seq<char>, Seq<char>)>)>) -> bool {
    &&& s.len() == t.len()
    &&& forall|i: int|
        0 <= i < s.len() ==> {
            &&& (#[trigger] s[i]).0@ == t[i].0
            &&& s[i].1@.len() == t[i].1.len()
            &&& forall|j: int|
                0 <= j < s[i].1@.len() ==> (#[trigger] s[i].1@[j]).0@ == t[i].1[j].0
                    && s[i].1@[j].1@ == t[i].1[j].1
        }
}

fn section(title: &'static str, rows: Vec<(&'static str, &'static str)>) -> (s: HelpSection)
    ensures
        s.0 == title,
        s.1@ == rows@,
{
    (title, rows)
}

/// The reference, section by section.
pub fn help_sections() -> (v: Vec<HelpSection>)
    ensures
        holds_table(v@, help_table()),
{
    let v = vec![
        section("menu", vec![
            ("1 / 2 / 3", "select mode  (time · words · quote)"),
            ("← / →", "change option value"),
            ("enter", "start test  (or open custom input)"),
            ("l", "open language picker"),
            ("t", "open theme picker"),
            ("[ / ]", "change word pool size"),
            ("p", "toggle punctuation"),
            ("n", "toggle numbers"),
            ("s", "settings  (sound, volume, …)"),
            ("h", "history"),
            ("?", "this help"),
            ("q  /  ctrl+c", "quit"),
        ]),
        section("test", vec![
            ("tab", "restart test (new words)"),
            ("esc", "back to menu"),
            ("backspace", "delete last character"),
            ("ctrl+backspace", "delete whole word"),
        ]),
        section("result", vec![
            ("r", "repeat same words"),
            ("enter / tab", "new test (new words)"),
            ("esc", "back to menu"),
        ]),
        section("history", vec![
            ("↑ / ↓", "move selection"),
            ("pgup / pgdn", "move by a page"),
            ("home / end", "first / last result"),
            ("esc", "back to menu"),
        ]),
        section("language picker", vec![
            ("↑ / ↓", "navigate languages"),
            ("← / →", "change word pool size"),
            ("enter", "confirm selection"),
            ("esc", "cancel"),
        ]),
        section("theme picker", vec![
            ("↑ / ↓", "preview themes live"),
            ("type", "search by name"),
            ("enter", "keep theme"),
            ("esc", "cancel  (restore previous)"),
        ]),
    ];
    v
}

/// Lines the reference takes: each section's title and rows, and one blank
/// line between consecutive sections.
pub fn line_count() -> (n: usize)
    ensures
        n == help_line_total(help_table()),
{
    let sections = help_sections();
    let k = sections.len();
    let mut total: usize = 0;
    for i in 0..k
        invariant
            k == sections@.len(),
            holds_table(sections@, help_table()),
            total == section_lines(help_table().take(i as int)),
            total <= 100 * i,
    {
        assert(help_table().take(i + 1).drop_last() =~= help_table().take(i as int));
        assert(sections@[i as int].1@.len() <= 12);
        total = total + sections[i].1.len() + 1;
    }
    assert(help_table().take(k as int) =~= help_table());
    if k > 0 {
        total + (k - 1)
    } else {
        total
    }
}

} // verus!
