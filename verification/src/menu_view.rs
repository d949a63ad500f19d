//! What the menu screen and the pickers show, worked out independently of
//! how they are drawn.

use crate::app::{
    opt_view, time_presets, word_presets, App, TIME_OPTION_COUNT, WORD_OPTION_COUNT,
};
use crate::modes::{Difficulty, Mode, QuoteFilter};
use crate::text::{decimal, decimal_string};
use crate::words::{describes, lang_at, language_table, languages, spec_lang_index};
use vstd::prelude::*;

verus! {

/// The custom slot of the option row: whether it is highlighted, and its
/// text.
pub struct CustomSlot {
    pub selected: bool,
    pub text: String,
}

/// What the option row under the mode tabs shows.
pub enum OptionRow {
    /// Labels with the highlighted one (an index past the end highlights
    /// none), and the custom slot for timed and word tests.
    Labels { labels: Vec<String>, selected: usize, custom: Option<CustomSlot> },
    /// A quote test for a language without quotes.
    NoQuotes,
}

/// The menu as shown: the mode tabs (text, active), the option row,
/// whether the custom field is open, the language line, the pool sizes of
/// the language with the chosen one, and the toggles.
pub struct MenuView {
    pub tabs: Vec<(String, bool)>,
    pub options: OptionRow,
    pub typing_custom: bool,
    pub language: &'static str,
    pub language_pos: String,
    pub sizes: Vec<&'static str>,
    pub size_selected: usize,
    pub punctuation: bool,
    pub numbers: bool,
    pub difficulty: Option<&'static str>,
    pub theme: String,
}

/// The text of the mode tabs: `1·time` (with the duration, e.g.
/// `1·time·30s`, when it is the mode), `2·words` (with the count when it is
/// the mode), and `3·quote`.
pub open spec fn tab_text(mode: Mode, i: int) -> Seq<char> {
    if i == 0 {
        "1·"@ + match mode {
            Mode::Time(n) => "time·"@ + decimal(n as nat) + "s"@,
            _ => "time"@,
        }
    } else if i == 1 {
        "2·"@ + match mode {
            Mode::Words(n) => "words·"@ + decimal(n as nat),
            _ => "words"@,
        }
    } else {
        "3·quote"@
    }
}

/// Whether tab `i` is the active mode.
pub open spec fn tab_active(mode: Mode, i: int) -> bool {
    if i == 0 {
        mode is Time
    } else if i == 1 {
        mode is Words
    } else {
        mode is Quote
    }
}

/// The label of a quote length filter.
pub open spec fn filter_label(f: QuoteFilter) -> Seq<char> {
    match f {
        QuoteFilter::All => "all"@,
        QuoteFilter::Short => "short"@,
        QuoteFilter::Medium => "medium"@,
        QuoteFilter::Long => "long"@,
        QuoteFilter::Thicc => "thicc"@,
    }
}

/// The text of the custom slot: while highlighted and being typed into,
/// `custom: ` with the digits, a block cursor and the unit; otherwise
/// `custom`.
pub open spec fn custom_text(selected: bool, input: Option<Seq<char>>, unit: Seq<char>) -> Seq<char> {
    if selected && input is Some {
        "custom: "@ + input->0 + "▌"@ + unit
    } else {
        "custom"@
    }
}

/// Whether `r` is the option row of `a`'s menu: the preset durations with
/// `s` (or the preset word counts) with the highlighted slot and the custom
/// slot; in a quote test the length filters with the chosen one, or the
/// note that the language has no quotes.
pub open spec fn shows_options<H>(a: App<H>, r: OptionRow) -> bool {
    match a.menu.mode {
        Mode::Time(_) => r matches OptionRow::Labels { labels, selected, custom } && {
            &&& labels@.len() == time_presets().len()
            &&& forall|i: int|
                0 <= i < labels@.len() ==> (#[trigger] labels@[i])@ == decimal(time_presets()[i] as nat)
                    + "s"@
            &&& selected == a.menu.time_idx
            &&& custom matches Some(c) && c.selected == (a.menu.time_idx == TIME_OPTION_COUNT)
                && c.text@ == custom_text(c.selected, opt_view(a.menu.custom_input), "s"@)
        },
        Mode::Words(_) => r matches OptionRow::Labels { labels, selected, custom } && {
            &&& labels@.len() == word_presets().len()
            &&& forall|i: int|
                0 <= i < labels@.len() ==> (#[trigger] labels@[i])@ == decimal(word_presets()[i] as nat)
            &&& selected == a.menu.word_idx
            &&& custom matches Some(c) && c.selected == (a.menu.word_idx == WORD_OPTION_COUNT)
                && c.text@ == custom_text(c.selected, opt_view(a.menu.custom_input), ""@)
        },
        Mode::Quote => if language_table()[spec_lang_index(a.settings.lang_idx as int)].2 {
            r matches OptionRow::Labels { labels, selected, custom } && {
                &&& labels@.len() == QuoteFilter::count()
                &&& forall|i: int|
                    0 <= i < labels@.len() ==> (#[trigger] labels@[i])@ == filter_label(QuoteFilter::at(i))
                &&& selected == a.settings.quote_filter.ord()
                &&& custom is None
            }
        } else {
            r is NoQuotes
        },
    }
}

/// Whether `v` is what `a`'s menu shows: the tabs and option row as above;
/// whether the custom field is open; the language's name and its position
/// (`n/48`); its pool sizes with the chosen one; the punctuation and
/// numbers toggles; the difficulty when it is not normal; and `◆` with the
/// theme's name.
pub open spec fn shows_menu<H>(a: App<H>, v: MenuView) -> bool {
    let e = language_table()[spec_lang_index(a.settings.lang_idx as int)];
    &&& v.tabs@.len() == 3
    &&& forall|i: int|
        0 <= i < 3 ==> (#[trigger] v.tabs@[i]).0@ == tab_text(a.menu.mode, i) && v.tabs@[i].1
            == tab_active(a.menu.mode, i)
    &&& shows_options(a, v.options)
    &&& v.typing_custom == (a.menu.custom_input is Some)
    &&& v.language@ == e.0
    &&& v.language_pos@ == decimal((a.settings.lang_idx + 1) as nat) + "/"@ + decimal(
        language_table().len(),
    )
    &&& v.sizes@.len() == e.1.len()
    &&& forall|i: int| 0 <= i < v.sizes@.len() ==> (#[trigger] v.sizes@[i])@ == e.1[i]
    &&& v.size_selected == a.settings.size_idx
    &&& v.punctuation == a.settings.punctuation
    &&& v.numbers == a.settings.numbers
    &&& (v.difficulty is None <==> a.settings.difficulty == Difficulty::Normal)
    &&& (v.difficulty matches Some(d) ==> d@ == match a.settings.difficulty {
        Difficulty::Expert => "expert"@,
        _ => "master"@,
    })
    &&& v.theme@ == "◆ "@ + a.settings.theme_name@
}

fn concat(a: &str, b: &str) -> (s: String)
    ensures
        s@ == a@ + b@,
{
    let mut s = String::from_str(a);
    s.append(b);
    s
}

fn tab(mode: Mode, i: usize) -> (t: (String, bool))
    requires
        i < 3,
    ensures
        t.0@ == tab_text(mode, i as int),
        t.1 == tab_active(mode, i as int),
{
    if i == 0 {
        match mode {
            Mode::Time(n) => {
                let mut s = String::from_str("1·");
                s.append("time·");
                s.append(decimal_string(n).as_str());
                s.append("s");
                (s, true)
            },
            _ => (concat("1·", "time"), false),
        }
    } else if i == 1 {
        match mode {
            Mode::Words(n) => {
                let mut s = String::from_str("2·");
                s.append("words·");
                s.append(decimal_string(n as u64).as_str());
                (s, true)
            },
            _ => (concat("2·", "words"), false),
        }
    } else {
        (String::from_str("3·quote"), mode == Mode::Quote)
    }
}

fn custom_slot(selected: bool, input: &Option<String>, unit: &str) -> (c: CustomSlot)
    ensures
        c.selected == selected,
        c.text@ == custom_text(selected, opt_view(*input), unit@),
{
    let text = match input {
        Some(s) => if selected {
            let mut t = String::from_str("custom: ");
            t.append(s.as_str());
            t.append("▌");
            t.append(unit);
            t
        } else {
            String::from_str("custom")
        },
        None => String::from_str("custom"),
    };
    CustomSlot { selected, text }
}

impl<H> App<H> {
    fn option_row(&self) -> (r: OptionRow)
        ensures
            shows_options(*self, r),
    {
        match self.menu.mode {
            Mode::Time(_) => {
                let opts = crate::app::time_options();
                let mut labels: Vec<String> = Vec::new();
                for i in 0..opts.len()
                    invariant
                        opts@ == time_presets(),
                        labels@.len() == i,
                        forall|j: int|
                            0 <= j < i ==> (#[trigger] labels@[j])@ == decimal(time_presets()[j] as nat) + "s"@,
                {
                    let mut s = decimal_string(opts[i]);
                    s.append("s");
                    labels.push(s);
                }
                let custom = custom_slot(self.menu.time_idx == TIME_OPTION_COUNT, &self.menu.custom_input, "s");
                let r = OptionRow::Labels { labels, selected: self.menu.time_idx, custom: Some(custom) };
                assert(shows_options(*self, r));
                r
            },
            Mode::Words(_) => {
                let opts = crate::app::word_options();
                let mut labels: Vec<String> = Vec::new();
                for i in 0..opts.len()
                    invariant
                        opts@ == word_presets(),
                        labels@.len() == i,
                        forall|j: int|
                            0 <= j < i ==> (#[trigger] labels@[j])@ == decimal(word_presets()[j] as nat),
                {
                    labels.push(decimal_string(opts[i] as u64));
                }
                let custom = custom_slot(self.menu.word_idx == WORD_OPTION_COUNT, &self.menu.custom_input, "");
                let r = OptionRow::Labels { labels, selected: self.menu.word_idx, custom: Some(custom) };
                assert(shows_options(*self, r));
                r
            },
            Mode::Quote => {
                if lang_at(self.settings.lang_idx).has_quotes {
                    let filters = QuoteFilter::all();
                    let mut labels: Vec<String> = Vec::new();
                    for i in 0..filters.len()
                        invariant
                            filters@.len() == QuoteFilter::count(),
                            forall|j: int| 0 <= j < QuoteFilter::count() ==> (#[trigger] filters@[j]).ord() == j,
                            labels@.len() == i,
                            forall|j: int|
                                0 <= j < i ==> (#[trigger] labels@[j])@ == filter_label(QuoteFilter::at(j)),
                    {
                        assert(filters@[i as int] == QuoteFilter::at(i as int));
                        labels.push(String::from_str(filters[i].label()));
                    }
                    let selected: usize = match self.settings.quote_filter {
                        QuoteFilter::All => 0,
                        QuoteFilter::Short => 1,
                        QuoteFilter::Medium => 2,
                        QuoteFilter::Long => 3,
                        QuoteFilter::Thicc => 4,
                    };
                    let r = OptionRow::Labels { labels, selected, custom: None };
                    assert(shows_options(*self, r));
                    r
                } else {
                    OptionRow::NoQuotes
                }
            },
        }
    }

    /// What the menu shows; see [`shows_menu`].
    pub fn menu_view(&self) -> (v: MenuView)
        requires
            self.settings.lang_idx < usize::MAX,
        ensures
            shows_menu(*self, v),
    {
        let mut tabs: Vec<(String, bool)> = Vec::new();
        for i in 0..3
            invariant
                tabs@.len() == i,
                forall|j: int|
                    0 <= j < i ==> (#[trigger] tabs@[j]).0@ == tab_text(self.menu.mode, j) && tabs@[j].1
                        == tab_active(self.menu.mode, j),
        {
            tabs.push(tab(self.menu.mode, i));
        }
        let lang = lang_at(self.settings.lang_idx);
        let mut pos = decimal_string(self.settings.lang_idx as u64 + 1);
        pos.append("/");
        pos.append(decimal_string(languages().len() as u64).as_str());
        let mut sizes: Vec<&'static str> = Vec::new();
        for i in 0..lang.sizes.len()
            invariant
                sizes@.len() == i,
                forall|j: int| 0 <= j < i ==> (#[trigger] sizes@[j])@ == lang.sizes@[j].label@,
        {
            sizes.push(lang.sizes[i].label);
        }
        let difficulty = match self.settings.difficulty {
            Difficulty::Normal => None,
            d => Some(d.label()),
        };
        let mut theme = String::from_str("◆ ");
        theme.append(self.settings.theme_name.as_str());
        MenuView {
            tabs,
            options: self.option_row(),
            typing_custom: self.menu.custom_input.is_some(),
            language: lang.name,
            language_pos: pos,
            sizes,
            size_selected: self.settings.size_idx,
            punctuation: self.settings.punctuation,
            numbers: self.settings.numbers,
            difficulty,
            theme,
        }
    }
}

/// The rows a picker shows: the positions `scroll..scroll + visible` of its
/// filtered list (those that exist), each with whether it is the
/// highlighted one.
pub open spec fn window(len: int, cursor: usize, scroll: usize, visible: usize) -> Seq<(usize, bool)> {
    let start = if (scroll as int) < len {
        scroll as int
    } else {
        len
    };
    let end = if scroll + visible < len {
        scroll + visible
    } else {
        len
    };
    Seq::new(
        if end > start {
            (end - start) as nat
        } else {
            0
        },
        |k: int| ((start + k) as usize, start + k == cursor),
    )
}

/// The rows of a picker over a filtered list of `len` entries; see
/// [`window`].
pub fn picker_window(len: usize, cursor: usize, scroll: usize, visible: usize) -> (v: Vec<(usize, bool)>)
    ensures
        v@ == window(len as int, cursor, scroll, visible),
{
    let start = if scroll < len {
        scroll
    } else {
        len
    };
    let end = if len - start > visible {
        start + visible
    } else {
        len
    };
    let ghost w = window(len as int, cursor, scroll, visible);
    let mut v: Vec<(usize, bool)> = Vec::new();
    let mut i = start;
    while i < end
        invariant
            start <= i <= end,
            end <= len,
            w == window(len as int, cursor, scroll, visible),
            w.len() == end - start,
            start == (if (scroll as int) < len {
                scroll as int
            } else {
                len as int
            }),
            v@ == w.take(i - start),
        decreases end - i,
    {
        v.push((i, i == cursor));
        assert(w[i - start] == (i, i == cursor));
        assert(w.take(i + 1 - start) =~= w.take(i - start).push(w[i - start]));
        i = i + 1;
    }
    assert(w.take(end - start) =~= w);
    v
}

} // verus!
