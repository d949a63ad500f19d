//! Test modes and the small settings enums that cycle through their variants
//! in declaration order.

use crate::text::{decimal, decimal_string};
use vstd::prelude::*;

verus! {

/// What ends a test: a timer, a word count, or the end of a quote.
#[derive(Clone, Copy, PartialEq, Eq, Structural, Debug)]
pub enum Mode {
    Time(u64),
    Words(usize),
    Quote,
}

impl Mode {
    /// How the mode reads in results and history: `time 30s`, `words 25`,
    /// `quote`.
    pub open spec fn spec_label(self) -> Seq<char> {
        match self {
            Mode::Time(s) => "time "@ + decimal(s as nat) + "s"@,
            Mode::Words(n) => "words "@ + decimal(n as nat),
            Mode::Quote => "quote"@,
        }
    }

    /// How the mode reads in results and history (see [`Self::spec_label`]).
    pub fn label(&self) -> (s: String)
        ensures
            s@ == self.spec_label(),
    {
        match self {
            Mode::Time(secs) => {
                let mut s = String::from_str("time ");
                s.append(decimal_string(*secs).as_str());
                s.append("s");
                s
            },
            Mode::Words(n) => {
                let mut s = String::from_str("words ");
                s.append(decimal_string(*n as u64).as_str());
                s
            },
            Mode::Quote => String::from_str("quote"),
        }
    }
}

/// Shape of the terminal cursor while typing.
#[derive(Clone, Copy, PartialEq, Eq, Structural, Debug)]
pub enum CursorShape {
    Bar,
    Block,
    Underline,
}

/// Which quotes are drawn from, by their length in characters.
#[derive(Clone, Copy, PartialEq, Eq, Structural, Debug)]
pub enum QuoteFilter {
    All,
    Short,
    Medium,
    Long,
    Thicc,
}

/// How strictly mistakes are punished.
#[derive(Clone, Copy, PartialEq, Eq, Structural, Debug)]
pub enum Difficulty {
    Normal,
    Expert,
    Master,
}

impl CursorShape {
    /// Number of variants.
    pub open spec fn count() -> int {
        3
    }

    /// Position of the variant in declaration order.
    pub open spec fn ord(self) -> int {
        match self {
            CursorShape::Bar => 0,
            CursorShape::Block => 1,
            CursorShape::Underline => 2,
        }
    }

    /// The variant at position `i` modulo the variant count.
    pub open spec fn at(i: int) -> CursorShape {
        let j = i % 3;
        if j == 0 {
            CursorShape::Bar
        } else if j == 1 {
            CursorShape::Block
        } else {
            CursorShape::Underline
        }
    }

    /// Every variant in declaration order.
    pub fn all() -> (v: Vec<CursorShape>)
        ensures
            v@.len() == Self::count(),
            forall|i: int| 0 <= i < Self::count() ==> (#[trigger] v@[i]).ord() == i,
    {
        vec![CursorShape::Bar, CursorShape::Block, CursorShape::Underline]
    }

    pub fn label(self) -> (s: &'static str)
        ensures
            s@ == (match self {
                CursorShape::Bar => "bar"@,
                CursorShape::Block => "block"@,
                CursorShape::Underline => "underline"@,
            }),
    {
        match self {
            CursorShape::Bar => "bar",
            CursorShape::Block => "block",
            CursorShape::Underline => "underline",
        }
    }

    /// The following variant, wrapping from the last to the first.
    pub fn next(self) -> (r: CursorShape)
        ensures
            r == CursorShape::at(self.ord() + 1),
    {
        match self {
            CursorShape::Bar => CursorShape::Block,
            CursorShape::Block => CursorShape::Underline,
            CursorShape::Underline => CursorShape::Bar,
        }
    }

    /// The preceding variant, wrapping from the first to the last.
    pub fn prev(self) -> (r: CursorShape)
        ensures
            r == CursorShape::at(self.ord() + Self::count() - 1),
    {
        match self {
            CursorShape::Bar => CursorShape::Underline,
            CursorShape::Block => CursorShape::Bar,
            CursorShape::Underline => CursorShape::Block,
        }
    }
}

impl Default for CursorShape {
    fn default() -> (r: CursorShape)
        ensures
            r == CursorShape::Bar,
    {
        CursorShape::Bar
    }
}

impl QuoteFilter {
    pub open spec fn count() -> int {
        5
    }

    pub open spec fn ord(self) -> int {
        match self {
            QuoteFilter::All => 0,
            QuoteFilter::Short => 1,
            QuoteFilter::Medium => 2,
            QuoteFilter::Long => 3,
            QuoteFilter::Thicc => 4,
        }
    }

    pub open spec fn at(i: int) -> QuoteFilter {
        let j = i % 5;
        if j == 0 {
            QuoteFilter::All
        } else if j == 1 {
            QuoteFilter::Short
        } else if j == 2 {
            QuoteFilter::Medium
        } else if j == 3 {
            QuoteFilter::Long
        } else {
            QuoteFilter::Thicc
        }
    }

    pub fn all() -> (v: Vec<QuoteFilter>)
        ensures
            v@.len() == Self::count(),
            forall|i: int| 0 <= i < Self::count() ==> (#[trigger] v@[i]).ord() == i,
    {
        vec![
            QuoteFilter::All,
            QuoteFilter::Short,
            QuoteFilter::Medium,
            QuoteFilter::Long,
            QuoteFilter::Thicc,
        ]
    }

    pub fn label(self) -> (s: &'static str)
        ensures
            s@ == (match self {
                QuoteFilter::All => "all"@,
                QuoteFilter::Short => "short"@,
                QuoteFilter::Medium => "medium"@,
                QuoteFilter::Long => "long"@,
                QuoteFilter::Thicc => "thicc"@,
            }),
    {
        match self {
            QuoteFilter::All => "all",
            QuoteFilter::Short => "short",
            QuoteFilter::Medium => "medium",
            QuoteFilter::Long => "long",
            QuoteFilter::Thicc => "thicc",
        }
    }

    pub fn next(self) -> (r: QuoteFilter)
        ensures
            r == QuoteFilter::at(self.ord() + 1),
    {
        match self {
            QuoteFilter::All => QuoteFilter::Short,
            QuoteFilter::Short => QuoteFilter::Medium,
            QuoteFilter::Medium => QuoteFilter::Long,
            QuoteFilter::Long => QuoteFilter::Thicc,
            QuoteFilter::Thicc => QuoteFilter::All,
        }
    }

    pub fn prev(self) -> (r: QuoteFilter)
        ensures
            r == QuoteFilter::at(self.ord() + Self::count() - 1),
    {
        match self {
            QuoteFilter::All => QuoteFilter::Thicc,
            QuoteFilter::Short => QuoteFilter::All,
            QuoteFilter::Medium => QuoteFilter::Short,
            QuoteFilter::Long => QuoteFilter::Medium,
            QuoteFilter::Thicc => QuoteFilter::Long,
        }
    }

    /// Length buckets: short is at most 100 characters, medium 101 to 300,
    /// long 301 to 600, thicc 601 and up.
    pub open spec fn spec_matches(self, len: u64) -> bool {
        match self {
            QuoteFilter::All => true,
            QuoteFilter::Short => len <= 100,
            QuoteFilter::Medium => 101 <= len <= 300,
            QuoteFilter::Long => 301 <= len <= 600,
            QuoteFilter::Thicc => len >= 601,
        }
    }

    /// Whether a quote of `len` characters falls in this filter's bucket.
    pub fn matches(self, len: u64) -> (b: bool)
        ensures
            b == self.spec_matches(len),
    {
        match self {
            QuoteFilter::All => true,
            QuoteFilter::Short => len <= 100,
            QuoteFilter::Medium => 101 <= len && len <= 300,
            QuoteFilter::Long => 301 <= len && len <= 600,
            QuoteFilter::Thicc => len >= 601,
        }
    }
}

impl Default for QuoteFilter {
    fn default() -> (r: QuoteFilter)
        ensures
            r == QuoteFilter::All,
    {
        QuoteFilter::All
    }
}

impl Difficulty {
    pub open spec fn count() -> int {
        3
    }

    pub open spec fn ord(self) -> int {
        match self {
            Difficulty::Normal => 0,
            Difficulty::Expert => 1,
            Difficulty::Master => 2,
        }
    }

    pub open spec fn at(i: int) -> Difficulty {
        let j = i % 3;
        if j == 0 {
            Difficulty::Normal
        } else if j == 1 {
            Difficulty::Expert
        } else {
            Difficulty::Master
        }
    }

    pub fn all() -> (v: Vec<Difficulty>)
        ensures
            v@.len() == Self::count(),
            forall|i: int| 0 <= i < Self::count() ==> (#[trigger] v@[i]).ord() == i,
    {
        vec![Difficulty::Normal, Difficulty::Expert, Difficulty::Master]
    }

    pub fn label(self) -> (s: &'static str)
        ensures
            s@ == (match self {
                Difficulty::Normal => "normal"@,
                Difficulty::Expert => "expert"@,
                Difficulty::Master => "master"@,
            }),
    {
        match self {
            Difficulty::Normal => "normal",
            Difficulty::Expert => "expert",
            Difficulty::Master => "master",
        }
    }

    pub fn next(self) -> (r: Difficulty)
        ensures
            r == Difficulty::at(self.ord() + 1),
    {
        match self {
            Difficulty::Normal => Difficulty::Expert,
            Difficulty::Expert => Difficulty::Master,
            Difficulty::Master => Difficulty::Normal,
        }
    }

    pub fn prev(self) -> (r: Difficulty)
        ensures
            r == Difficulty::at(self.ord() + Self::count() - 1),
    {
        match self {
            Difficulty::Normal => Difficulty::Master,
            Difficulty::Expert => Difficulty::Normal,
            Difficulty::Master => Difficulty::Expert,
        }
    }
}

impl Default for Difficulty {
    fn default() -> (r: Difficulty)
        ensures
            r == Difficulty::Normal,
    {
        Difficulty::Normal
    }
}

/// Theme used when a persisted theme name no longer resolves.
pub const DEFAULT_THEME: &'static str = "serika";

/// User-adjustable options that shape a test.
#[derive(Clone, Debug, PartialEq)]
pub struct Settings {
    pub punctuation: bool,
    pub numbers: bool,
    pub lang_idx: usize,
    pub size_idx: usize,
    pub cursor_shape: CursorShape,
    pub difficulty: Difficulty,
    pub quote_filter: QuoteFilter,
    pub theme_name: String,
}

/// `Settings` with the theme name taken as its characters.
pub struct SettingsView {
    pub punctuation: bool,
    pub numbers: bool,
    pub lang_idx: usize,
    pub size_idx: usize,
    pub cursor_shape: CursorShape,
    pub difficulty: Difficulty,
    pub quote_filter: QuoteFilter,
    pub theme_name: Seq<char>,
}

impl View for Settings {
    type V = SettingsView;

    open spec fn view(&self) -> SettingsView {
        SettingsView {
            punctuation: self.punctuation,
            numbers: self.numbers,
            lang_idx: self.lang_idx,
            size_idx: self.size_idx,
            cursor_shape: self.cursor_shape,
            difficulty: self.difficulty,
            quote_filter: self.quote_filter,
            theme_name: self.theme_name@,
        }
    }
}

impl Settings {
    /// A copy with the same field values.
    pub fn duplicate(&self) -> (r: Settings)
        ensures
            r@ == self@,
    {
        Settings {
            punctuation: self.punctuation,
            numbers: self.numbers,
            lang_idx: self.lang_idx,
            size_idx: self.size_idx,
            cursor_shape: self.cursor_shape,
            difficulty: self.difficulty,
            quote_filter: self.quote_filter,
            theme_name: self.theme_name.clone(),
        }
    }

    /// Field-by-field equality, the theme compared by name.
    pub fn same_as(&self, other: &Settings) -> (b: bool)
        ensures
            b == (self@ == other@),
    {
        self.punctuation == other.punctuation && self.numbers == other.numbers && self.lang_idx
            == other.lang_idx && self.size_idx == other.size_idx && self.cursor_shape
            == other.cursor_shape && self.difficulty == other.difficulty && self.quote_filter
            == other.quote_filter && self.theme_name == other.theme_name
    }
}

impl Default for Settings {
    fn default() -> (s: Settings)
        ensures
            !s.punctuation,
            !s.numbers,
            s.lang_idx == 0,
            s.size_idx == 0,
            s.cursor_shape == CursorShape::Bar,
            s.difficulty == Difficulty::Normal,
            s.quote_filter == QuoteFilter::All,
            s.theme_name@ == DEFAULT_THEME@,
    {
        Settings {
            punctuation: false,
            numbers: false,
            lang_idx: 0,
            size_idx: 0,
            cursor_shape: CursorShape::Bar,
            difficulty: Difficulty::Normal,
            quote_filter: QuoteFilter::All,
            theme_name: String::from_str(DEFAULT_THEME),
        }
    }
}

/// Stepping forward then back (or back then forward) through the cursor
/// shapes returns to the starting shape, and stepping forward once per
/// variant walks the whole list back to the start.
pub proof fn cursor_shape_cycle_law(s: CursorShape)
    ensures
        CursorShape::at(CursorShape::at(s.ord() + 1).ord() + 2) == s,
        CursorShape::at(CursorShape::at(s.ord() + 2).ord() + 1) == s,
        CursorShape::at(s.ord() + 3) == s,
        forall|i: int| 0 <= i < 3 ==> #[trigger] CursorShape::at(i).ord() == i,
{
}

/// Stepping forward then back (or back then forward) through the quote
/// filters returns to the starting filter, and a full cycle is the identity.
pub proof fn quote_filter_cycle_law(q: QuoteFilter)
    ensures
        QuoteFilter::at(QuoteFilter::at(q.ord() + 1).ord() + 4) == q,
        QuoteFilter::at(QuoteFilter::at(q.ord() + 4).ord() + 1) == q,
        QuoteFilter::at(q.ord() + 5) == q,
        forall|i: int| 0 <= i < 5 ==> #[trigger] QuoteFilter::at(i).ord() == i,
{
}

/// Stepping forward then back (or back then forward) through the
/// difficulties returns to the starting difficulty, and a full cycle is the
/// identity.
pub proof fn difficulty_cycle_law(d: Difficulty)
    ensures
        Difficulty::at(Difficulty::at(d.ord() + 1).ord() + 2) == d,
        Difficulty::at(Difficulty::at(d.ord() + 2).ord() + 1) == d,
        Difficulty::at(d.ord() + 3) == d,
        forall|i: int| 0 <= i < 3 ==> #[trigger] Difficulty::at(i).ord() == i,
{
}

/// Every quote length falls in exactly one of the four length buckets, and
/// the `All` filter accepts every length.
pub proof fn quote_buckets_partition_lengths(len: u64)
    ensures
        QuoteFilter::All.spec_matches(len),
        QuoteFilter::Short.spec_matches(len) || QuoteFilter::Medium.spec_matches(len)
            || QuoteFilter::Long.spec_matches(len) || QuoteFilter::Thicc.spec_matches(len),
        !(QuoteFilter::Short.spec_matches(len) && QuoteFilter::Medium.spec_matches(len)),
        !(QuoteFilter::Short.spec_matches(len) && QuoteFilter::Long.spec_matches(len)),
        !(QuoteFilter::Short.spec_matches(len) && QuoteFilter::Thicc.spec_matches(len)),
        !(QuoteFilter::Medium.spec_matches(len) && QuoteFilter::Long.spec_matches(len)),
        !(QuoteFilter::Medium.spec_matches(len) && QuoteFilter::Thicc.spec_matches(len)),
        !(QuoteFilter::Long.spec_matches(len) && QuoteFilter::Thicc.spec_matches(len)),
{
}

} // verus!
