//! Word-list and quote data: the table of languages and their word-pool
//! sizes, and quotes with their lengths. The word lists and quotes
//! themselves are read by the caller; this module only names and selects
//! them.

use crate::text::{chars_of, contains_chars, lowercase, occurs_in, to_lowercase};
use vstd::prelude::*;

verus! {

/// One word-pool size of a language, by its label (`default`, `1k`, ...).
#[derive(Clone, Copy, Debug)]
pub struct LangSize {
    pub label: &'static str,
}

/// A language: its name, its word-pool sizes (the implicit `default` size
/// first), and whether quotes exist for it.
#[derive(Clone, Debug)]
pub struct LangDef {
    pub name: &'static str,
    pub sizes: Vec<LangSize>,
    pub has_quotes: bool,
}

/// The language table: name, size labels, and whether quotes exist.
pub open spec fn language_table() -> Seq<(Seq<char>, Seq<Seq<char>>, bool)> {
    seq![
        ("english"@, seq!["default"@, "1k"@, "5k"@, "10k"@], true),
        ("spanish"@, seq!["default"@, "1k"@, "10k"@], true),
        ("french"@, seq!["default"@, "1k"@, "10k"@], true),
        ("german"@, seq!["default"@, "1k"@, "10k"@], true),
        ("portuguese"@, seq!["default"@, "1k"@, "5k"@], true),
        ("italian"@, seq!["default"@, "1k"@], true),
        ("dutch"@, seq!["default"@, "1k"@, "10k"@], true),
        ("polish"@, seq!["default"@, "5k"@, "10k"@], true),
        ("russian"@, seq!["default"@, "1k"@, "5k"@, "10k"@], true),
        ("turkish"@, seq!["default"@, "1k"@, "5k"@], true),
        ("swedish"@, seq!["default"@, "1k"@], true),
        ("norwegian"@, seq!["default"@, "1k"@, "5k"@, "10k"@], true),
        ("danish"@, seq!["default"@, "1k"@, "10k"@], true),
        ("czech"@, seq!["default"@, "1k"@, "10k"@], true),
        ("romanian"@, seq!["default"@, "1k"@, "5k"@, "10k"@], true),
        ("hungarian"@, seq!["default"@, "1k"@], true),
        ("korean"@, seq!["default"@, "1k"@, "5k"@], true),
        ("japanese"@, seq!["default"@], false),
        ("catalan"@, seq!["default"@, "1k"@], false),
        ("finnish"@, seq!["default"@, "1k"@, "10k"@], true),
        ("greek"@, seq!["default"@, "1k"@, "10k"@], false),
        ("latin"@, seq!["default"@], true),
        ("ukrainian"@, seq!["default"@, "1k"@, "10k"@], true),
        ("vietnamese"@, seq!["default"@, "1k"@, "5k"@], true),
        ("albanian"@, seq!["default"@, "1k"@], true),
        ("bosnian"@, seq!["default"@], false),
        ("afrikaans"@, seq!["default"@, "1k"@, "10k"@], true),
        ("azerbaijani"@, seq!["default"@, "1k"@], true),
        ("belarusian"@, seq!["default"@, "1k"@, "5k"@, "10k"@], true),
        ("bulgarian"@, seq!["default"@, "1k"@], true),
        ("croatian"@, seq!["default"@, "1k"@], false),
        ("esperanto"@, seq!["default"@, "1k"@, "10k"@], true),
        ("estonian"@, seq!["default"@, "1k"@, "5k"@, "10k"@], true),
        ("filipino"@, seq!["default"@, "1k"@], true),
        ("icelandic"@, seq!["default"@, "1k"@], true),
        ("indonesian"@, seq!["default"@, "1k"@, "10k"@], true),
        ("irish"@, seq!["default"@, "1k"@], true),
        ("kazakh"@, seq!["default"@, "1k"@], true),
        ("latvian"@, seq!["default"@, "1k"@], false),
        ("lithuanian"@, seq!["default"@, "1k"@], true),
        ("macedonian"@, seq!["default"@, "1k"@, "10k"@], false),
        ("malay"@, seq!["default"@, "1k"@], false),
        ("maltese"@, seq!["default"@, "1k"@], false),
        ("mongolian"@, seq!["default"@, "10k"@], true),
        ("serbian"@, seq!["default"@, "10k"@], true),
        ("slovak"@, seq!["default"@, "1k"@, "10k"@], true),
        ("slovenian"@, seq!["default"@, "1k"@, "5k"@], false),
        ("welsh"@, seq!["default"@, "1k"@], false)
    ]
}

/// `l` is entry `e` of the language table.
pub open spec fn describes(l: LangDef, e: (Seq<char>, Seq<Seq<char>>, bool)) -> bool {
    &&& l.name@ == e.0
    &&& l.sizes@.len() == e.1.len()
    &&& forall|j: int| 0 <= j < e.1.len() ==> (#[trigger] l.sizes@[j]).label@ == e.1[j]
    &&& l.has_quotes == e.2
}

/// Every language, in menu order.
pub fn languages() -> (v: Vec<LangDef>)
    ensures
        v@.len() == language_table().len(),
        forall|i: int| 0 <= i < v@.len() ==> describes(#[trigger] v@[i], language_table()[i]),
{
    let v = vec![
        LangDef { name: "english", sizes: vec![LangSize { label: "default" }, LangSize { label: "1k" }, LangSize { label: "5k" }, LangSize { label: "10k" }], has_quotes: true },
        LangDef { name: "spanish", sizes: vec![LangSize { label: "default" }, LangSize { label: "1k" }, LangSize { label: "10k" }], has_quotes: true },
        LangDef { name: "french", sizes: vec![LangSize { label: "default" }, LangSize { label: "1k" }, LangSize { label: "10k" }], has_quotes: true },
        LangDef { name: "german", sizes: vec![LangSize { label: "default" }, LangSize { label: "1k" }, LangSize { label: "10k" }], has_quotes: true },
        LangDef { name: "portuguese", sizes: vec![LangSize { label: "default" }, LangSize { label: "1k" }, LangSize { label: "5k" }], has_quotes: true },
        LangDef { name: "italian", sizes: vec![LangSize { label: "default" }, LangSize { label: "1k" }], has_quotes: true },
        LangDef { name: "dutch", sizes: vec![LangSize { label: "default" }, LangSize { label: "1k" }, LangSize { label: "10k" }], has_quotes: true },
        LangDef { name: "polish", sizes: vec![LangSize { label: "default" }, LangSize { label: "5k" }, LangSize { label: "10k" }], has_quotes: true },
        LangDef { name: "russian", sizes: vec![LangSize { label: "default" }, LangSize { label: "1k" }, LangSize { label: "5k" }, LangSize { label: "10k" }], has_quotes: true },
        LangDef { name: "turkish", sizes: vec![LangSize { label: "default" }, LangSize { label: "1k" }, LangSize { label: "5k" }], has_quotes: true },
        LangDef { name: "swedish", sizes: vec![LangSize { label: "default" }, LangSize { label: "1k" }], has_quotes: true },
        LangDef { name: "norwegian", sizes: vec![LangSize { label: "default" }, LangSize { label: "1k" }, LangSize { label: "5k" }, LangSize { label: "10k" }], has_quotes: true },
        LangDef { name: "danish", sizes: vec![LangSize { label: "default" }, LangSize { label: "1k" }, LangSize { label: "10k" }], has_quotes: true },
        LangDef { name: "czech", sizes: vec![LangSize { label: "default" }, LangSize { label: "1k" }, LangSize { label: "10k" }], has_quotes: true },
        LangDef { name: "romanian", sizes: vec![LangSize { label: "default" }, LangSize { label: "1k" }, LangSize { label: "5k" }, LangSize { label: "10k" }], has_quotes: true },
        LangDef { name: "hungarian", sizes: vec![LangSize { label: "default" }, LangSize { label: "1k" }], has_quotes: true },
        LangDef { name: "korean", sizes: vec![LangSize { label: "default" }, LangSize { label: "1k" }, LangSize { label: "5k" }], has_quotes: true },
        LangDef { name: "japanese", sizes: vec![LangSize { label: "default" }], has_quotes: false },
        LangDef { name: "catalan", sizes: vec![LangSize { label: "default" }, LangSize { label: "1k" }], has_quotes: false },
        LangDef { name: "finnish", sizes: vec![LangSize { label: "default" }, LangSize { label: "1k" }, LangSize { label: "10k" }], has_quotes: true },
        LangDef { name: "greek", sizes: vec![LangSize { label: "default" }, LangSize { label: "1k" }, LangSize { label: "10k" }], has_quotes: false },
        LangDef { name: "latin", sizes: vec![LangSize { label: "default" }], has_quotes: true },
        LangDef { name: "ukrainian", sizes: vec![LangSize { label: "default" }, LangSize { label: "1k" }, LangSize { label: "10k" }], has_quotes: true },
        LangDef { name: "vietnamese", sizes: vec![LangSize { label: "default" }, LangSize { label: "1k" }, LangSize { label: "5k" }], has_quotes: true },
        LangDef { name: "albanian", sizes: vec![LangSize { label: "default" }, LangSize { label: "1k" }], has_quotes: true },
        LangDef { name: "bosnian", sizes: vec![LangSize { label: "default" }], has_quotes: false },
        LangDef { name: "afrikaans", sizes: vec![LangSize { label: "default" }, LangSize { label: "1k" }, LangSize { label: "10k" }], has_quotes: true },
        LangDef { name: "azerbaijani", sizes: vec![LangSize { label: "default" }, LangSize { label: "1k" }], has_quotes: true },
        LangDef { name: "belarusian", sizes: vec![LangSize { label: "default" }, LangSize { label: "1k" }, LangSize { label: "5k" }, LangSize { label: "10k" }], has_quotes: true },
        LangDef { name: "bulgarian", sizes: vec![LangSize { label: "default" }, LangSize { label: "1k" }], has_quotes: true },
        LangDef { name: "croatian", sizes: vec![LangSize { label: "default" }, LangSize { label: "1k" }], has_quotes: false },
        LangDef { name: "esperanto", sizes: vec![LangSize { label: "default" }, LangSize { label: "1k" }, LangSize { label: "10k" }], has_quotes: true },
        LangDef { name: "estonian", sizes: vec![LangSize { label: "default" }, LangSize { label: "1k" }, LangSize { label: "5k" }, LangSize { label: "10k" }], has_quotes: true },
        LangDef { name: "filipino", sizes: vec![LangSize { label: "default" }, LangSize { label: "1k" }], has_quotes: true },
        LangDef { name: "icelandic", sizes: vec![LangSize { label: "default" }, LangSize { label: "1k" }], has_quotes: true },
        LangDef { name: "indonesian", sizes: vec![LangSize { label: "default" }, LangSize { label: "1k" }, LangSize { label: "10k" }], has_quotes: true },
        LangDef { name: "irish", sizes: vec![LangSize { label: "default" }, LangSize { label: "1k" }], has_quotes: true },
        LangDef { name: "kazakh", sizes: vec![LangSize { label: "default" }, LangSize { label: "1k" }], has_quotes: true },
        LangDef { name: "latvian", sizes: vec![LangSize { label: "default" }, LangSize { label: "1k" }], has_quotes: false },
        LangDef { name: "lithuanian", sizes: vec![LangSize { label: "default" }, LangSize { label: "1k" }], has_quotes: true },
        LangDef { name: "macedonian", sizes: vec![LangSize { label: "default" }, LangSize { label: "1k" }, LangSize { label: "10k" }], has_quotes: false },
        LangDef { name: "malay", sizes: vec![LangSize { label: "default" }, LangSize { label: "1k" }], has_quotes: false },
        LangDef { name: "maltese", sizes: vec![LangSize { label: "default" }, LangSize { label: "1k" }], has_quotes: false },
        LangDef { name: "mongolian", sizes: vec![LangSize { label: "default" }, LangSize { label: "10k" }], has_quotes: true },
        LangDef { name: "serbian", sizes: vec![LangSize { label: "default" }, LangSize { label: "10k" }], has_quotes: true },
        LangDef { name: "slovak", sizes: vec![LangSize { label: "default" }, LangSize { label: "1k" }, LangSize { label: "10k" }], has_quotes: true },
        LangDef { name: "slovenian", sizes: vec![LangSize { label: "default" }, LangSize { label: "1k" }, LangSize { label: "5k" }], has_quotes: false },
        LangDef { name: "welsh", sizes: vec![LangSize { label: "default" }, LangSize { label: "1k" }], has_quotes: false },
    ];
    assert(v@.len() == language_table().len());
    v
}

impl LangDef {
    /// A copy with the same name, sizes and quote flag.
    pub fn duplicate(&self) -> (r: LangDef)
        ensures
            r.name@ == self.name@,
            r.sizes@ == self.sizes@,
            r.has_quotes == self.has_quotes,
    {
        let mut sizes: Vec<LangSize> = Vec::new();
        let n = self.sizes.len();
        for j in 0..n
            invariant
                n == self.sizes@.len(),
                sizes@ == self.sizes@.take(j as int),
        {
            sizes.push(self.sizes[j]);
            assert(self.sizes@.take(j + 1) =~= self.sizes@.take(j as int).push(self.sizes@[j as int]));
        }
        assert(self.sizes@.take(n as int) =~= self.sizes@);
        LangDef { name: self.name, sizes, has_quotes: self.has_quotes }
    }
}

/// The language at `idx`, or the first language when `idx` is out of range.
pub open spec fn spec_lang_index(idx: int) -> int {
    if 0 <= idx < language_table().len() {
        idx
    } else {
        0
    }
}

/// The language at `idx`, falling back to the first one.
pub fn lang_at(idx: usize) -> (l: LangDef)
    ensures
        describes(l, language_table()[spec_lang_index(idx as int)]),
{
    let mut langs = languages();
    let i = if idx < langs.len() {
        idx
    } else {
        0
    };
    langs.swap_remove(i)
}

/// Name of the language at `idx`, falling back to the first one.
pub fn lang_name(idx: usize) -> (name: &'static str)
    ensures
        name@ == language_table()[spec_lang_index(idx as int)].0,
{
    lang_at(idx).name
}

/// Which word list to load for a language and size choice: an unknown
/// language falls back to the first, and an unknown size to the language's
/// first (`default`) size.
pub fn word_list_key(lang_idx: usize, size_idx: usize) -> (r: (usize, usize))
    ensures
        r.0 == spec_lang_index(lang_idx as int),
        r.1 == (if size_idx < language_table()[r.0 as int].1.len() {
            size_idx
        } else {
            0
        }),
{
    let l = lang_at(lang_idx);
    let li = if lang_idx < languages().len() {
        lang_idx
    } else {
        0
    };
    let si = if size_idx < l.sizes.len() {
        size_idx
    } else {
        0
    };
    (li, si)
}

/// Whether language `i`'s name holds `search`, ignoring case.
pub open spec fn language_matches(i: int, search: Seq<char>) -> bool {
    occurs_in(lowercase(search), lowercase(language_table()[i].0))
}

/// Positions below `n` of the languages whose name holds `search`
/// (ignoring case), in table order.
pub open spec fn languages_matching_below(n: int, search: Seq<char>) -> Seq<int>
    decreases n,
{
    if n <= 0 {
        seq![]
    } else if language_matches(n - 1, search) {
        languages_matching_below(n - 1, search).push(n - 1)
    } else {
        languages_matching_below(n - 1, search)
    }
}

/// Positions of the languages whose name holds `search` (ignoring case), in
/// table order.
pub open spec fn matching_languages(search: Seq<char>) -> Seq<int> {
    languages_matching_below(language_table().len() as int, search)
}

/// The positions the filtered list holds.
pub open spec fn positions<T>(r: Seq<(usize, T)>) -> Seq<int> {
    r.map_values(|p: (usize, T)| p.0 as int)
}

/// The languages whose name holds `search` (ignoring case), with their
/// positions in the table, in table order.
pub fn filtered_languages(search: &str) -> (r: Vec<(usize, LangDef)>)
    ensures
        positions(r@) == matching_languages(search@),
        forall|k: int, m: int| 0 <= k < m < r@.len() ==> r@[k].0 < r@[m].0,
        forall|k: int|
            0 <= k < r@.len() ==> {
                &&& (#[trigger] r@[k]).0 < language_table().len()
                &&& language_matches(r@[k].0 as int, search@)
                &&& describes(r@[k].1, language_table()[r@[k].0 as int])
            },
        forall|i: int|
            0 <= i < language_table().len() && language_matches(i, search@) ==> exists|k: int|
                0 <= k < r@.len() && #[trigger] r@[k].0 == i,
{
    let needle = chars_of(to_lowercase(search).as_str());
    let langs = languages();
    let n = langs.len();
    let mut out: Vec<(usize, LangDef)> = Vec::new();
    for i in 0..n
        invariant
            n == langs@.len(),
            n == language_table().len(),
            needle@ == lowercase(search@),
            forall|j: int| 0 <= j < n ==> describes(#[trigger] langs@[j], language_table()[j]),
            positions(out@) == languages_matching_below(i as int, search@),
            forall|k: int, m: int| 0 <= k < m < out@.len() ==> out@[k].0 < out@[m].0,
            forall|k: int|
                0 <= k < out@.len() ==> {
                    &&& (#[trigger] out@[k]).0 < i
                    &&& language_matches(out@[k].0 as int, search@)
                    &&& describes(out@[k].1, language_table()[out@[k].0 as int])
                },
            forall|j: int|
                0 <= j < i && language_matches(j, search@) ==> exists|k: int|
                    0 <= k < out@.len() && #[trigger] out@[k].0 == j,
    {
        let name = chars_of(to_lowercase(langs[i].name).as_str());
        if contains_chars(&name, &needle) {
            let ghost before = out@;
            out.push((i, langs[i].duplicate()));
            proof {
                assert(positions(out@) =~= positions(before).push(i as int));
                assert(out@[out@.len() - 1].0 == i);
                assert forall|j: int|
                    0 <= j < i + 1 && language_matches(j, search@) implies exists|k: int|
                    0 <= k < out@.len() && #[trigger] out@[k].0 == j by {
                    if j < i {
                        let k = choose|k: int| 0 <= k < before.len() && #[trigger] before[k].0 == j;
                        assert(out@[k].0 == j);
                    }
                }
            }
        }
    }
    out
}

/// Quotes with every missing (zero) length filled in from the text's
/// character count, so the length filter can sort them.
pub fn fill_quote_lengths(quotes: Vec<QuoteEntry>) -> (r: Vec<QuoteEntry>)
    ensures
        r@.len() == quotes@.len(),
        forall|i: int|
            0 <= i < r@.len() ==> {
                &&& (#[trigger] r@[i]).text@ == quotes@[i].text@
                &&& r@[i].source@ == quotes@[i].source@
                &&& r@[i].length == if quotes@[i].length == 0 {
                    quotes@[i].text@.len() as int
                } else {
                    quotes@[i].length as int
                }
            },
{
    let mut out: Vec<QuoteEntry> = Vec::new();
    let n = quotes.len();
    for i in 0..n
        invariant
            n == quotes@.len(),
            out@.len() == i,
            forall|j: int|
                0 <= j < i ==> {
                    &&& (#[trigger] out@[j]).text@ == quotes@[j].text@
                    &&& out@[j].source@ == quotes@[j].source@
                    &&& out@[j].length == if quotes@[j].length == 0 {
                        quotes@[j].text@.len() as int
                    } else {
                        quotes@[j].length as int
                    }
                },
    {
        let mut q = quotes[i].duplicate();
        if q.length == 0 {
            q.length = q.text.as_str().unicode_len() as u64;
        }
        out.push(q);
    }
    out
}

/// A quote to type, with its source and length in characters.
#[derive(Clone, Debug)]
pub struct QuoteEntry {
    pub text: String,
    pub source: String,
    pub length: u64,
}

impl QuoteEntry {
    /// A copy with the same text, source and length.
    pub fn duplicate(&self) -> (r: QuoteEntry)
        ensures
            r.text@ == self.text@,
            r.source@ == self.source@,
            r.length == self.length,
    {
        QuoteEntry { text: self.text.clone(), source: self.source.clone(), length: self.length }
    }
}

/// Whether `r` holds the quotes `q` with each missing (zero) length filled
/// in from its text's character count.
pub open spec fn quotes_filled(r: Seq<QuoteEntry>, q: Seq<QuoteEntry>) -> bool {
    &&& r.len() == q.len()
    &&& forall|i: int|
        0 <= i < r.len() ==> {
            &&& (#[trigger] r[i]).text@ == q[i].text@
            &&& r[i].source@ == q[i].source@
            &&& r[i].length == if q[i].length == 0 {
                q[i].text@.len() as int
            } else {
                q[i].length as int
            }
        }
}

/// Copies of `v`'s strings.
pub fn copy_strings(v: &Vec<String>) -> (r: Vec<String>)
    ensures
        r@ == v@,
{
    let n = v.len();
    let mut r: Vec<String> = Vec::new();
    for i in 0..n
        invariant
            n == v@.len(),
            r@ == v@.take(i as int),
    {
        r.push(v[i].clone());
        assert(r@ =~= v@.take(i + 1));
    }
    assert(v@.take(n as int) =~= v@);
    r
}

fn copy_quotes(v: &Vec<QuoteEntry>) -> (r: Vec<QuoteEntry>)
    ensures
        r@.len() == v@.len(),
        forall|i: int|
            0 <= i < r@.len() ==> (#[trigger] r@[i]).text@ == v@[i].text@ && r@[i].source@
                == v@[i].source@ && r@[i].length == v@[i].length,
{
    let n = v.len();
    let mut r: Vec<QuoteEntry> = Vec::new();
    for i in 0..n
        invariant
            n == v@.len(),
            r@.len() == i,
            forall|j: int|
                0 <= j < i ==> (#[trigger] r@[j]).text@ == v@[j].text@ && r@[j].source@
                    == v@[j].source@ && r@[j].length == v@[j].length,
    {
        r.push(v[i].duplicate());
    }
    r
}

/// The word lists and quotes behind the language table: `words[l][s]` is
/// language `l`'s list of size `s`, and `quotes[l]` its quotes, both in
/// table order.
pub struct WordData {
    pub words: Vec<Vec<Vec<String>>>,
    pub quotes: Vec<Vec<QuoteEntry>>,
}

impl WordData {
    /// The word list a test in language `lang_idx` with pool size
    /// `size_idx` draws from: an unknown language falls back to the first,
    /// an unknown size to the language's first, and a list that was not
    /// supplied is empty.
    pub open spec fn pool(&self, lang_idx: int, size_idx: int) -> Seq<String> {
        let li = spec_lang_index(lang_idx);
        let si = if 0 <= size_idx < language_table()[li].1.len() {
            size_idx
        } else {
            0
        };
        if li < self.words@.len() && si < self.words@[li]@.len() {
            self.words@[li]@[si]@
        } else {
            seq![]
        }
    }

    /// The quotes of language `lang_idx` (the first language when unknown),
    /// before their lengths are filled in; none for a language without
    /// quotes or whose quotes were not supplied.
    pub open spec fn raw_quotes(&self, lang_idx: int) -> Seq<QuoteEntry> {
        let li = spec_lang_index(lang_idx);
        if language_table()[li].2 && li < self.quotes@.len() {
            self.quotes@[li]@
        } else {
            seq![]
        }
    }

    /// The words a test in `lang_idx` with pool size `size_idx` draws from.
    pub fn load_words(&self, lang_idx: usize, size_idx: usize) -> (r: Vec<String>)
        ensures
            r@ == self.pool(lang_idx as int, size_idx as int),
    {
        let (li, si) = word_list_key(lang_idx, size_idx);
        if li < self.words.len() && si < self.words[li].len() {
            copy_strings(&self.words[li][si])
        } else {
            Vec::new()
        }
    }

    /// The quotes of language `lang_idx`, every missing length filled in
    /// from its text.
    pub fn load_quotes_for(&self, lang_idx: usize) -> (r: Vec<QuoteEntry>)
        ensures
            quotes_filled(r@, self.raw_quotes(lang_idx as int)),
    {
        let l = lang_at(lang_idx);
        let li = if lang_idx < languages().len() {
            lang_idx
        } else {
            0
        };
        if l.has_quotes && li < self.quotes.len() {
            fill_quote_lengths(copy_quotes(&self.quotes[li]))
        } else {
            Vec::new()
        }
    }
}

} // verus!
