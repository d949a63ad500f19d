//! Colour palettes: the built-in themes, user themes from `#rrggbb` hex
//! strings, and lookup by name.

use crate::text::{chars_of, contains_chars, lowercase, occurs_in, to_lowercase, trim, trimmed};
use crate::words::positions;
use vstd::prelude::*;

verus! {

/// A 24-bit colour.
#[derive(Clone, Copy, PartialEq, Eq, Structural, Debug)]
pub struct Rgb(pub u8, pub u8, pub u8);

/// A named palette.
#[derive(Clone, Debug)]
pub struct Theme {
    pub name: String,
    pub bg: Rgb,
    pub correct: Rgb,
    pub wrong: Rgb,
    pub pending: Rgb,
    pub accent: Rgb,
    pub dim: Rgb,
    pub wrong_bg: Rgb,
    pub gauge_bg: Rgb,
    pub fg: Rgb,
    pub sub: Rgb,
}

/// The colours of a theme, in field order: bg, correct, wrong, pending,
/// accent, dim, wrong_bg, gauge_bg, fg, sub.
pub open spec fn colours(t: Theme) -> Seq<Rgb> {
    seq![t.bg, t.correct, t.wrong, t.pending, t.accent, t.dim, t.wrong_bg, t.gauge_bg, t.fg, t.sub]
}

fn theme(name: &str, c: [Rgb; 10]) -> (t: Theme)
    ensures
        t.name@ == name@,
        colours(t) == c@,
{
    let t = Theme {
        name: String::from_str(name),
        bg: c[0],
        correct: c[1],
        wrong: c[2],
        pending: c[3],
        accent: c[4],
        dim: c[5],
        wrong_bg: c[6],
        gauge_bg: c[7],
        fg: c[8],
        sub: c[9],
    };
    assert(colours(t) =~= c@);
    t
}

/// Names of the built-in themes, in order; the first is the default.
pub open spec fn builtin_names() -> Seq<Seq<char>> {
    seq!["serika"@, "mono"@, "matrix"@, "rose"@, "serika_dark"@, "dracula"@, "nord"@, "gruvbox_dark"@, "catppuccin"@, "tokyonight"@, "rose_pine"@, "solarized_dark"@, "github_dark"@, "oled"@, "8008"@, "aurora"@, "botanical"@, "carbon"@, "horizon"@, "ishtar"@, "laser"@, "olive"@, "terminal"@, "vesper"@, "vaporwave"@, "monokai"@]
}

/// Colours of the built-in themes, in the order of [`builtin_names`], each
/// listed as [`colours`] lists a theme's.
pub open spec fn builtin_colours() -> Seq<Seq<Rgb>> {
    seq![
        seq![Rgb(28, 28, 30), Rgb(210, 200, 170), Rgb(202, 71, 71), Rgb(88, 88, 93), Rgb(226, 183, 20), Rgb(72, 72, 77), Rgb(60, 15, 15), Rgb(48, 48, 52), Rgb(200, 200, 205), Rgb(140, 140, 145)],
        seq![Rgb(24, 24, 24), Rgb(230, 230, 230), Rgb(190, 90, 90), Rgb(96, 96, 96), Rgb(235, 235, 235), Rgb(70, 70, 70), Rgb(55, 20, 20), Rgb(50, 50, 50), Rgb(210, 210, 210), Rgb(150, 150, 150)],
        seq![Rgb(10, 16, 10), Rgb(120, 220, 120), Rgb(220, 90, 70), Rgb(60, 100, 60), Rgb(80, 240, 120), Rgb(40, 70, 40), Rgb(45, 15, 12), Rgb(24, 44, 24), Rgb(170, 230, 170), Rgb(90, 150, 90)],
        seq![Rgb(26, 20, 28), Rgb(230, 200, 220), Rgb(220, 90, 110), Rgb(100, 80, 100), Rgb(232, 120, 180), Rgb(78, 62, 78), Rgb(60, 18, 30), Rgb(52, 40, 52), Rgb(220, 200, 215), Rgb(160, 130, 155)],
        seq![Rgb(50, 52, 55), Rgb(209, 208, 197), Rgb(202, 71, 84), Rgb(100, 102, 105), Rgb(226, 183, 20), Rgb(74, 76, 79), Rgb(58, 20, 20), Rgb(42, 44, 46), Rgb(209, 208, 197), Rgb(154, 156, 158)],
        seq![Rgb(40, 42, 54), Rgb(248, 248, 242), Rgb(255, 85, 85), Rgb(98, 114, 164), Rgb(189, 147, 249), Rgb(68, 71, 90), Rgb(74, 37, 48), Rgb(56, 58, 74), Rgb(248, 248, 242), Rgb(154, 165, 196)],
        seq![Rgb(46, 52, 64), Rgb(216, 222, 233), Rgb(191, 97, 106), Rgb(76, 86, 106), Rgb(136, 192, 208), Rgb(67, 76, 94), Rgb(59, 42, 46), Rgb(59, 66, 82), Rgb(216, 222, 233), Rgb(129, 137, 155)],
        seq![Rgb(40, 40, 40), Rgb(235, 219, 178), Rgb(251, 73, 52), Rgb(102, 92, 84), Rgb(250, 189, 47), Rgb(80, 73, 69), Rgb(58, 36, 34), Rgb(60, 56, 54), Rgb(235, 219, 178), Rgb(168, 153, 132)],
        seq![Rgb(30, 30, 46), Rgb(205, 214, 244), Rgb(243, 139, 168), Rgb(108, 112, 134), Rgb(203, 166, 247), Rgb(69, 71, 90), Rgb(58, 37, 48), Rgb(49, 50, 68), Rgb(205, 214, 244), Rgb(147, 153, 178)],
        seq![Rgb(26, 27, 38), Rgb(192, 202, 245), Rgb(247, 118, 142), Rgb(86, 95, 137), Rgb(122, 162, 247), Rgb(59, 66, 97), Rgb(58, 37, 48), Rgb(41, 46, 66), Rgb(192, 202, 245), Rgb(121, 130, 169)],
        seq![Rgb(25, 23, 36), Rgb(224, 222, 244), Rgb(235, 111, 146), Rgb(110, 106, 134), Rgb(235, 188, 186), Rgb(64, 61, 82), Rgb(58, 37, 48), Rgb(38, 35, 58), Rgb(224, 222, 244), Rgb(144, 140, 170)],
        seq![Rgb(0, 43, 54), Rgb(147, 161, 161), Rgb(220, 50, 47), Rgb(88, 110, 117), Rgb(38, 139, 210), Rgb(10, 74, 90), Rgb(58, 26, 26), Rgb(7, 54, 66), Rgb(147, 161, 161), Rgb(101, 123, 131)],
        seq![Rgb(13, 17, 23), Rgb(201, 209, 217), Rgb(248, 81, 73), Rgb(72, 79, 88), Rgb(88, 166, 255), Rgb(48, 54, 61), Rgb(58, 29, 29), Rgb(33, 38, 45), Rgb(201, 209, 217), Rgb(139, 148, 158)],
        seq![Rgb(0, 0, 0), Rgb(230, 230, 230), Rgb(255, 85, 85), Rgb(102, 102, 102), Rgb(255, 176, 0), Rgb(51, 51, 51), Rgb(51, 0, 0), Rgb(26, 26, 26), Rgb(230, 230, 230), Rgb(153, 153, 153)],
        seq![Rgb(51, 58, 69), Rgb(233, 236, 240), Rgb(218, 51, 51), Rgb(147, 158, 174), Rgb(244, 76, 127), Rgb(46, 52, 61), Rgb(65, 15, 15), Rgb(67, 74, 85), Rgb(233, 236, 240), Rgb(184, 191, 202)],
        seq![Rgb(1, 25, 38), Rgb(255, 255, 255), Rgb(185, 77, 161), Rgb(36, 92, 105), Rgb(0, 233, 128), Rgb(0, 12, 19), Rgb(56, 23, 48), Rgb(17, 41, 54), Rgb(255, 255, 255), Rgb(112, 149, 157)],
        seq![Rgb(123, 156, 152), Rgb(234, 241, 243), Rgb(246, 201, 180), Rgb(73, 87, 85), Rgb(234, 241, 243), Rgb(114, 144, 141), Rgb(74, 60, 54), Rgb(139, 172, 168), Rgb(234, 241, 243), Rgb(136, 145, 144)],
        seq![Rgb(49, 49, 49), Rgb(245, 230, 200), Rgb(231, 45, 45), Rgb(97, 97, 97), Rgb(246, 110, 13), Rgb(43, 43, 43), Rgb(69, 14, 14), Rgb(65, 65, 65), Rgb(245, 230, 200), Rgb(152, 152, 152)],
        seq![Rgb(28, 30, 38), Rgb(187, 187, 187), Rgb(213, 81, 112), Rgb(219, 136, 111), Rgb(196, 168, 138), Rgb(23, 24, 31), Rgb(64, 24, 34), Rgb(44, 46, 54), Rgb(187, 187, 187), Rgb(231, 177, 161)],
        seq![Rgb(32, 32, 32), Rgb(250, 225, 195), Rgb(187, 30, 16), Rgb(132, 120, 105), Rgb(145, 23, 12), Rgb(39, 39, 39), Rgb(56, 9, 5), Rgb(48, 48, 48), Rgb(250, 225, 195), Rgb(175, 167, 157)],
        seq![Rgb(34, 27, 68), Rgb(219, 231, 232), Rgb(168, 212, 0), Rgb(184, 35, 86), Rgb(0, 158, 175), Rgb(30, 23, 59), Rgb(50, 64, 0), Rgb(50, 43, 84), Rgb(219, 231, 232), Rgb(208, 112, 145)],
        seq![Rgb(233, 229, 204), Rgb(55, 55, 49), Rgb(207, 47, 47), Rgb(183, 179, 158), Rgb(146, 148, 111), Rgb(212, 207, 188), Rgb(224, 165, 149), Rgb(217, 213, 188), Rgb(55, 55, 49), Rgb(118, 116, 102)],
        seq![Rgb(25, 26, 27), Rgb(231, 234, 224), Rgb(166, 23, 23), Rgb(72, 73, 75), Rgb(121, 166, 23), Rgb(20, 21, 22), Rgb(50, 7, 7), Rgb(41, 42, 43), Rgb(231, 234, 224), Rgb(136, 136, 138)],
        seq![Rgb(16, 16, 16), Rgb(255, 255, 255), Rgb(255, 128, 128), Rgb(160, 160, 160), Rgb(255, 199, 153), Rgb(28, 28, 28), Rgb(77, 38, 38), Rgb(32, 32, 32), Rgb(255, 255, 255), Rgb(193, 193, 193)],
        seq![Rgb(164, 167, 234), Rgb(241, 235, 241), Rgb(87, 60, 169), Rgb(124, 127, 175), Rgb(227, 104, 218), Rgb(152, 155, 217), Rgb(133, 124, 208), Rgb(180, 183, 250), Rgb(241, 235, 241), Rgb(169, 171, 203)],
        seq![Rgb(39, 40, 34), Rgb(226, 226, 220), Rgb(249, 38, 114), Rgb(230, 219, 116), Rgb(166, 226, 46), Rgb(31, 32, 27), Rgb(75, 11, 34), Rgb(55, 56, 50), Rgb(226, 226, 220), Rgb(238, 231, 164)],
    ]
}

impl Theme {
    /// A copy with the same name and colours.
    pub fn duplicate(&self) -> (r: Theme)
        ensures
            r.name@ == self.name@,
            colours(r) == colours(*self),
    {
        Theme {
            name: self.name.clone(),
            bg: self.bg,
            correct: self.correct,
            wrong: self.wrong,
            pending: self.pending,
            accent: self.accent,
            dim: self.dim,
            wrong_bg: self.wrong_bg,
            gauge_bg: self.gauge_bg,
            fg: self.fg,
            sub: self.sub,
        }
    }
}

/// The built-in themes.
pub fn builtin_themes() -> (v: Vec<Theme>)
    ensures
        v@.len() == builtin_names().len(),
        forall|i: int| 0 <= i < v@.len() ==> (#[trigger] v@[i]).name@ == builtin_names()[i],
        forall|i: int| 0 <= i < v@.len() ==> colours(#[trigger] v@[i]) == builtin_colours()[i],
{
    let v = vec![
        theme("serika", [Rgb(28, 28, 30), Rgb(210, 200, 170), Rgb(202, 71, 71), Rgb(88, 88, 93), Rgb(226, 183, 20), Rgb(72, 72, 77), Rgb(60, 15, 15), Rgb(48, 48, 52), Rgb(200, 200, 205), Rgb(140, 140, 145)]),
        theme("mono", [Rgb(24, 24, 24), Rgb(230, 230, 230), Rgb(190, 90, 90), Rgb(96, 96, 96), Rgb(235, 235, 235), Rgb(70, 70, 70), Rgb(55, 20, 20), Rgb(50, 50, 50), Rgb(210, 210, 210), Rgb(150, 150, 150)]),
        theme("matrix", [Rgb(10, 16, 10), Rgb(120, 220, 120), Rgb(220, 90, 70), Rgb(60, 100, 60), Rgb(80, 240, 120), Rgb(40, 70, 40), Rgb(45, 15, 12), Rgb(24, 44, 24), Rgb(170, 230, 170), Rgb(90, 150, 90)]),
        theme("rose", [Rgb(26, 20, 28), Rgb(230, 200, 220), Rgb(220, 90, 110), Rgb(100, 80, 100), Rgb(232, 120, 180), Rgb(78, 62, 78), Rgb(60, 18, 30), Rgb(52, 40, 52), Rgb(220, 200, 215), Rgb(160, 130, 155)]),
        theme("serika_dark", [Rgb(50, 52, 55), Rgb(209, 208, 197), Rgb(202, 71, 84), Rgb(100, 102, 105), Rgb(226, 183, 20), Rgb(74, 76, 79), Rgb(58, 20, 20), Rgb(42, 44, 46), Rgb(209, 208, 197), Rgb(154, 156, 158)]),
        theme("dracula", [Rgb(40, 42, 54), Rgb(248, 248, 242), Rgb(255, 85, 85), Rgb(98, 114, 164), Rgb(189, 147, 249), Rgb(68, 71, 90), Rgb(74, 37, 48), Rgb(56, 58, 74), Rgb(248, 248, 242), Rgb(154, 165, 196)]),
        theme("nord", [Rgb(46, 52, 64), Rgb(216, 222, 233), Rgb(191, 97, 106), Rgb(76, 86, 106), Rgb(136, 192, 208), Rgb(67, 76, 94), Rgb(59, 42, 46), Rgb(59, 66, 82), Rgb(216, 222, 233), Rgb(129, 137, 155)]),
        theme("gruvbox_dark", [Rgb(40, 40, 40), Rgb(235, 219, 178), Rgb(251, 73, 52), Rgb(102, 92, 84), Rgb(250, 189, 47), Rgb(80, 73, 69), Rgb(58, 36, 34), Rgb(60, 56, 54), Rgb(235, 219, 178), Rgb(168, 153, 132)]),
        theme("catppuccin", [Rgb(30, 30, 46), Rgb(205, 214, 244), Rgb(243, 139, 168), Rgb(108, 112, 134), Rgb(203, 166, 247), Rgb(69, 71, 90), Rgb(58, 37, 48), Rgb(49, 50, 68), Rgb(205, 214, 244), Rgb(147, 153, 178)]),
        theme("tokyonight", [Rgb(26, 27, 38), Rgb(192, 202, 245), Rgb(247, 118, 142), Rgb(86, 95, 137), Rgb(122, 162, 247), Rgb(59, 66, 97), Rgb(58, 37, 48), Rgb(41, 46, 66), Rgb(192, 202, 245), Rgb(121, 130, 169)]),
        theme("rose_pine", [Rgb(25, 23, 36), Rgb(224, 222, 244), Rgb(235, 111, 146), Rgb(110, 106, 134), Rgb(235, 188, 186), Rgb(64, 61, 82), Rgb(58, 37, 48), Rgb(38, 35, 58), Rgb(224, 222, 244), Rgb(144, 140, 170)]),
        theme("solarized_dark", [Rgb(0, 43, 54), Rgb(147, 161, 161), Rgb(220, 50, 47), Rgb(88, 110, 117), Rgb(38, 139, 210), Rgb(10, 74, 90), Rgb(58, 26, 26), Rgb(7, 54, 66), Rgb(147, 161, 161), Rgb(101, 123, 131)]),
        theme("github_dark", [Rgb(13, 17, 23), Rgb(201, 209, 217), Rgb(248, 81, 73), Rgb(72, 79, 88), Rgb(88, 166, 255), Rgb(48, 54, 61), Rgb(58, 29, 29), Rgb(33, 38, 45), Rgb(201, 209, 217), Rgb(139, 148, 158)]),
        theme("oled", [Rgb(0, 0, 0), Rgb(230, 230, 230), Rgb(255, 85, 85), Rgb(102, 102, 102), Rgb(255, 176, 0), Rgb(51, 51, 51), Rgb(51, 0, 0), Rgb(26, 26, 26), Rgb(230, 230, 230), Rgb(153, 153, 153)]),
        theme("8008", [Rgb(51, 58, 69), Rgb(233, 236, 240), Rgb(218, 51, 51), Rgb(147, 158, 174), Rgb(244, 76, 127), Rgb(46, 52, 61), Rgb(65, 15, 15), Rgb(67, 74, 85), Rgb(233, 236, 240), Rgb(184, 191, 202)]),
        theme("aurora", [Rgb(1, 25, 38), Rgb(255, 255, 255), Rgb(185, 77, 161), Rgb(36, 92, 105), Rgb(0, 233, 128), Rgb(0, 12, 19), Rgb(56, 23, 48), Rgb(17, 41, 54), Rgb(255, 255, 255), Rgb(112, 149, 157)]),
        theme("botanical", [Rgb(123, 156, 152), Rgb(234, 241, 243), Rgb(246, 201, 180), Rgb(73, 87, 85), Rgb(234, 241, 243), Rgb(114, 144, 141), Rgb(74, 60, 54), Rgb(139, 172, 168), Rgb(234, 241, 243), Rgb(136, 145, 144)]),
        theme("carbon", [Rgb(49, 49, 49), Rgb(245, 230, 200), Rgb(231, 45, 45), Rgb(97, 97, 97), Rgb(246, 110, 13), Rgb(43, 43, 43), Rgb(69, 14, 14), Rgb(65, 65, 65), Rgb(245, 230, 200), Rgb(152, 152, 152)]),
        theme("horizon", [Rgb(28, 30, 38), Rgb(187, 187, 187), Rgb(213, 81, 112), Rgb(219, 136, 111), Rgb(196, 168, 138), Rgb(23, 24, 31), Rgb(64, 24, 34), Rgb(44, 46, 54), Rgb(187, 187, 187), Rgb(231, 177, 161)]),
        theme("ishtar", [Rgb(32, 32, 32), Rgb(250, 225, 195), Rgb(187, 30, 16), Rgb(132, 120, 105), Rgb(145, 23, 12), Rgb(39, 39, 39), Rgb(56, 9, 5), Rgb(48, 48, 48), Rgb(250, 225, 195), Rgb(175, 167, 157)]),
        theme("laser", [Rgb(34, 27, 68), Rgb(219, 231, 232), Rgb(168, 212, 0), Rgb(184, 35, 86), Rgb(0, 158, 175), Rgb(30, 23, 59), Rgb(50, 64, 0), Rgb(50, 43, 84), Rgb(219, 231, 232), Rgb(208, 112, 145)]),
        theme("olive", [Rgb(233, 229, 204), Rgb(55, 55, 49), Rgb(207, 47, 47), Rgb(183, 179, 158), Rgb(146, 148, 111), Rgb(212, 207, 188), Rgb(224, 165, 149), Rgb(217, 213, 188), Rgb(55, 55, 49), Rgb(118, 116, 102)]),
        theme("terminal", [Rgb(25, 26, 27), Rgb(231, 234, 224), Rgb(166, 23, 23), Rgb(72, 73, 75), Rgb(121, 166, 23), Rgb(20, 21, 22), Rgb(50, 7, 7), Rgb(41, 42, 43), Rgb(231, 234, 224), Rgb(136, 136, 138)]),
        theme("vesper", [Rgb(16, 16, 16), Rgb(255, 255, 255), Rgb(255, 128, 128), Rgb(160, 160, 160), Rgb(255, 199, 153), Rgb(28, 28, 28), Rgb(77, 38, 38), Rgb(32, 32, 32), Rgb(255, 255, 255), Rgb(193, 193, 193)]),
        theme("vaporwave", [Rgb(164, 167, 234), Rgb(241, 235, 241), Rgb(87, 60, 169), Rgb(124, 127, 175), Rgb(227, 104, 218), Rgb(152, 155, 217), Rgb(133, 124, 208), Rgb(180, 183, 250), Rgb(241, 235, 241), Rgb(169, 171, 203)]),
        theme("monokai", [Rgb(39, 40, 34), Rgb(226, 226, 220), Rgb(249, 38, 114), Rgb(230, 219, 116), Rgb(166, 226, 46), Rgb(31, 32, 27), Rgb(75, 11, 34), Rgb(55, 56, 50), Rgb(226, 226, 220), Rgb(238, 231, 164)]),
    ];
    v
}

/// Value of a hexadecimal digit.
pub open spec fn hex_val(c: char) -> Option<u8> {
    if '0' <= c <= '9' {
        Some((c as u32 - '0' as u32) as u8)
    } else if 'a' <= c <= 'f' {
        Some((c as u32 - 'a' as u32 + 10) as u8)
    } else if 'A' <= c <= 'F' {
        Some((c as u32 - 'A' as u32 + 10) as u8)
    } else {
        None
    }
}

/// A two-character hex byte as `u8::from_str_radix(_, 16)` reads it: two
/// digits, or a `+` sign and one digit.
pub open spec fn hex_byte(a: char, b: char) -> Option<u8> {
    if a == '+' {
        hex_val(b)
    } else {
        match (hex_val(a), hex_val(b)) {
            (Some(x), Some(y)) => Some((x * 16 + y) as u8),
            _ => None,
        }
    }
}

/// `s` without its leading `#` characters.
pub open spec fn strip_hashes(s: Seq<char>) -> Seq<char>
    decreases s.len(),
{
    if s.len() > 0 && s[0] == '#' {
        strip_hashes(s.drop_first())
    } else {
        s
    }
}

/// A `#rrggbb` colour: surrounding whitespace and any leading `#` are
/// dropped, and what is left must be six ASCII characters forming three
/// hex bytes.
pub open spec fn spec_parse_hex(s: Seq<char>) -> Option<Rgb> {
    let t = strip_hashes(trimmed(s));
    if t.len() != 6 || exists|i: int| 0 <= i < 6 && #[trigger] t[i] > '\u{7f}' {
        None
    } else {
        match (hex_byte(t[0], t[1]), hex_byte(t[2], t[3]), hex_byte(t[4], t[5])) {
            (Some(r), Some(g), Some(b)) => Some(Rgb(r, g, b)),
            _ => None,
        }
    }
}

fn hex_digit(c: char) -> (v: Option<u8>)
    ensures
        v == hex_val(c),
{
    if '0' <= c && c <= '9' {
        Some((c as u32 - '0' as u32) as u8)
    } else if 'a' <= c && c <= 'f' {
        Some((c as u32 - 'a' as u32 + 10) as u8)
    } else if 'A' <= c && c <= 'F' {
        Some((c as u32 - 'A' as u32 + 10) as u8)
    } else {
        None
    }
}

fn parse_byte(a: char, b: char) -> (v: Option<u8>)
    ensures
        v == hex_byte(a, b),
{
    if a == '+' {
        return hex_digit(b);
    }
    match (hex_digit(a), hex_digit(b)) {
        (Some(x), Some(y)) => Some(x * 16 + y),
        _ => None,
    }
}

/// Parses a `#rrggbb` colour (see [`spec_parse_hex`]).
pub fn parse_hex(s: &str) -> (r: Option<Rgb>)
    ensures
        r == spec_parse_hex(s@),
{
    let cs = chars_of(trim(s));
    let n = cs.len();
    let mut start: usize = 0;
    assert(cs@.subrange(0, n as int) =~= cs@);
    while start < n && cs[start] == '#'
        invariant
            n == cs@.len(),
            start <= n,
            strip_hashes(trimmed(s@)) == strip_hashes(cs@.subrange(start as int, n as int)),
        decreases n - start,
    {
        assert(cs@.subrange(start as int, n as int).drop_first() =~= cs@.subrange(start + 1, n as int));
        start = start + 1;
    }
    assert(strip_hashes(cs@.subrange(start as int, n as int)) == cs@.subrange(start as int, n as int));
    let ghost t = cs@.subrange(start as int, n as int);
    if n - start != 6 {
        return None;
    }
    let mut i: usize = 0;
    while i < 6
        invariant
            n == cs@.len(),
            start + 6 == n,
            t == cs@.subrange(start as int, n as int),
            strip_hashes(trimmed(s@)) == t,
            i <= 6,
            forall|j: int| 0 <= j < i ==> t[j] <= '\u{7f}',
        decreases 6 - i,
    {
        if cs[start + i] > '\u{7f}' {
            assert(t[i as int] == cs@[start + i]);
            return None;
        }
        i = i + 1;
    }
    assert(t[0] == cs@[start as int] && t[1] == cs@[start + 1] && t[2] == cs@[start + 2]);
    assert(t[3] == cs@[start + 3] && t[4] == cs@[start + 4] && t[5] == cs@[start + 5]);
    let r = parse_byte(cs[start], cs[start + 1]);
    let g = parse_byte(cs[start + 2], cs[start + 3]);
    let b = parse_byte(cs[start + 4], cs[start + 5]);
    match (r, g, b) {
        (Some(r), Some(g), Some(b)) => Some(Rgb(r, g, b)),
        _ => None,
    }
}

/// A user theme as written in a theme file: a name and `#rrggbb` colours.
pub struct ThemeFile {
    pub name: String,
    pub bg: String,
    pub correct: String,
    pub wrong: String,
    pub pending: String,
    pub accent: String,
    pub dim: String,
    pub wrong_bg: String,
    pub gauge_bg: String,
    pub fg: String,
    pub sub: String,
}

/// `c` is the colour the hex string `s` denotes.
pub open spec fn colour_of(c: Rgb, s: Seq<char>) -> bool {
    spec_parse_hex(s) == Some(c)
}

/// Whether every colour of a theme file parses.
pub open spec fn all_colours_parse(f: ThemeFile) -> bool {
    &&& spec_parse_hex(f.bg@) is Some
    &&& spec_parse_hex(f.correct@) is Some
    &&& spec_parse_hex(f.wrong@) is Some
    &&& spec_parse_hex(f.pending@) is Some
    &&& spec_parse_hex(f.accent@) is Some
    &&& spec_parse_hex(f.dim@) is Some
    &&& spec_parse_hex(f.wrong_bg@) is Some
    &&& spec_parse_hex(f.gauge_bg@) is Some
    &&& spec_parse_hex(f.fg@) is Some
    &&& spec_parse_hex(f.sub@) is Some
}

impl ThemeFile {
    /// The theme the file describes, or `None` when any colour fails to
    /// parse.
    pub fn into_theme(self) -> (r: Option<Theme>)
        ensures
            r is Some <==> all_colours_parse(self),
            r matches Some(t) ==> {
                &&& t.name@ == self.name@
                &&& colour_of(t.bg, self.bg@)
                &&& colour_of(t.correct, self.correct@)
                &&& colour_of(t.wrong, self.wrong@)
                &&& colour_of(t.pending, self.pending@)
                &&& colour_of(t.accent, self.accent@)
                &&& colour_of(t.dim, self.dim@)
                &&& colour_of(t.wrong_bg, self.wrong_bg@)
                &&& colour_of(t.gauge_bg, self.gauge_bg@)
                &&& colour_of(t.fg, self.fg@)
                &&& colour_of(t.sub, self.sub@)
            },
    {
    let bg = parse_hex(self.bg.as_str())?;
    let correct = parse_hex(self.correct.as_str())?;
    let wrong = parse_hex(self.wrong.as_str())?;
    let pending = parse_hex(self.pending.as_str())?;
    let accent = parse_hex(self.accent.as_str())?;
    let dim = parse_hex(self.dim.as_str())?;
    let wrong_bg = parse_hex(self.wrong_bg.as_str())?;
    let gauge_bg = parse_hex(self.gauge_bg.as_str())?;
    let fg = parse_hex(self.fg.as_str())?;
    let sub = parse_hex(self.sub.as_str())?;
        Some(Theme { name: self.name, bg: bg, correct: correct, wrong: wrong, pending: pending, accent: accent, dim: dim, wrong_bg: wrong_bg, gauge_bg: gauge_bg, fg: fg, sub: sub })
    }
}

/// All themes: the built-ins, in their order, followed by the user's own
/// themes ordered by name.
pub fn all_themes(user: Vec<Theme>) -> (v: Vec<Theme>)
    ensures
        v@.len() == builtin_names().len() + user@.len(),
        forall|i: int| 0 <= i < builtin_names().len() ==> (#[trigger] v@[i]).name@ == builtin_names()[i],
        forall|i: int| 0 <= i < builtin_names().len() ==> colours(#[trigger] v@[i]) == builtin_colours()[i],
        sorted_by_name(v@.skip(builtin_names().len() as int)),
        v@.skip(builtin_names().len() as int).to_multiset() == user@.to_multiset(),
{
    let mut v = builtin_themes();
    let ghost b = v@;
    let mut sorted = sort_by_name(user);
    let ghost s = sorted@;
    v.append(&mut sorted);
    proof {
        assert(v@.skip(builtin_names().len() as int) =~= s);
        s.to_multiset_ensures();
        user@.to_multiset_ensures();
        assert(forall|i: int| 0 <= i < builtin_names().len() ==> v@[i] == b[i]);
    }
    v
}

/// The theme named `name` among `themes` (the first such), or the first
/// built-in theme, with its name and colours, when none is.
pub fn theme_by_name(themes: &Vec<Theme>, name: &str) -> (t: Theme)
    ensures
        (exists|i: int| 0 <= i < themes@.len() && (#[trigger] themes@[i]).name@ == name@) ==> exists|i: int|
            0 <= i < themes@.len() && themes@[i].name@ == name@ && (forall|j: int|
                0 <= j < i ==> themes@[j].name@ != name@) && t.name@ == themes@[i].name@ && colours(t)
                == colours(themes@[i]),
        (forall|i: int| 0 <= i < themes@.len() ==> (#[trigger] themes@[i]).name@ != name@) ==> t.name@
            == builtin_names()[0] && colours(t) == builtin_colours()[0],
{
    let n = themes.len();
    let wanted = String::from_str(name);
    for i in 0..n
        invariant
            n == themes@.len(),
            wanted@ == name@,
            forall|j: int| 0 <= j < i ==> (#[trigger] themes@[j]).name@ != name@,
    {
        if themes[i].name == wanted {
            return themes[i].duplicate();
        }
    }
    let mut b = builtin_themes();
    b.swap_remove(0)
}

/// Whether theme `t`'s name holds `search`, ignoring case.
pub open spec fn theme_matches(t: Theme, search: Seq<char>) -> bool {
    occurs_in(lowercase(search), lowercase(t.name@))
}

/// Positions below `n` of the themes whose name holds `search` (ignoring
/// case), in order.
pub open spec fn themes_matching_below(themes: Seq<Theme>, n: int, search: Seq<char>) -> Seq<int>
    decreases n,
{
    if n <= 0 {
        seq![]
    } else if theme_matches(themes[n - 1], search) {
        themes_matching_below(themes, n - 1, search).push(n - 1)
    } else {
        themes_matching_below(themes, n - 1, search)
    }
}

/// Positions of the themes whose name holds `search` (ignoring case), in
/// order.
pub open spec fn matching_themes(themes: Seq<Theme>, search: Seq<char>) -> Seq<int> {
    themes_matching_below(themes, themes.len() as int, search)
}

/// The themes whose name holds `search` (ignoring case), with their
/// positions, in order.
pub fn filtered_themes(themes: &Vec<Theme>, search: &str) -> (r: Vec<(usize, Theme)>)
    ensures
        positions(r@) == matching_themes(themes@, search@),
        forall|k: int, m: int| 0 <= k < m < r@.len() ==> r@[k].0 < r@[m].0,
        forall|k: int|
            0 <= k < r@.len() ==> {
                &&& (#[trigger] r@[k]).0 < themes@.len()
                &&& theme_matches(themes@[r@[k].0 as int], search@)
                &&& r@[k].1.name@ == themes@[r@[k].0 as int].name@
                &&& colours(r@[k].1) == colours(themes@[r@[k].0 as int])
            },
        forall|i: int|
            0 <= i < themes@.len() && theme_matches(themes@[i], search@) ==> exists|k: int|
                0 <= k < r@.len() && #[trigger] r@[k].0 == i,
{
    let needle = chars_of(to_lowercase(search).as_str());
    let n = themes.len();
    let mut out: Vec<(usize, Theme)> = Vec::new();
    for i in 0..n
        invariant
            n == themes@.len(),
            needle@ == lowercase(search@),
            positions(out@) == themes_matching_below(themes@, i as int, search@),
            forall|k: int, m: int| 0 <= k < m < out@.len() ==> out@[k].0 < out@[m].0,
            forall|k: int|
                0 <= k < out@.len() ==> {
                    &&& (#[trigger] out@[k]).0 < i
                    &&& theme_matches(themes@[out@[k].0 as int], search@)
                    &&& out@[k].1.name@ == themes@[out@[k].0 as int].name@
                    &&& colours(out@[k].1) == colours(themes@[out@[k].0 as int])
                },
            forall|j: int|
                0 <= j < i && theme_matches(themes@[j], search@) ==> exists|k: int|
                    0 <= k < out@.len() && #[trigger] out@[k].0 == j,
    {
        let name = chars_of(to_lowercase(themes[i].name.as_str()).as_str());
        if contains_chars(&name, &needle) {
            let ghost before = out@;
            out.push((i, themes[i].duplicate()));
            proof {
                assert(positions(out@) =~= positions(before).push(i as int));
                assert(out@[out@.len() - 1].0 == i);
                assert forall|j: int|
                    0 <= j < i + 1 && theme_matches(themes@[j], search@) implies exists|k: int|
                    0 <= k < out@.len() && #[trigger] out@[k].0 == j by {
                    if j < i {
                        let k = choose|k: int| 0 <= k < before.len() && #[trigger] before[k].0 == j;
                        assert(out@[k].0 == j);
                    }
                }
            }
        }
    }
    out
}

/// Whether `a` comes before `b` in the order of strings: character by
/// character by code point, a proper prefix first.
pub open spec fn name_lt(a: Seq<char>, b: Seq<char>) -> bool
    decreases a.len(),
{
    if a.len() == 0 {
        b.len() > 0
    } else if b.len() == 0 {
        false
    } else if a[0] != b[0] {
        (a[0] as u32) < (b[0] as u32)
    } else {
        name_lt(a.drop_first(), b.drop_first())
    }
}

/// The order of strings is transitive.
pub proof fn lemma_name_lt_transitive(a: Seq<char>, b: Seq<char>, c: Seq<char>)
    requires
        name_lt(a, b),
        name_lt(b, c),
    ensures
        name_lt(a, c),
    decreases a.len(),
{
    if a.len() > 0 && b.len() > 0 && c.len() > 0 && a[0] == b[0] && b[0] == c[0] {
        lemma_name_lt_transitive(a.drop_first(), b.drop_first(), c.drop_first());
    }
}

/// No string comes before itself.
pub proof fn lemma_name_lt_irreflexive(a: Seq<char>)
    ensures
        !name_lt(a, a),
    decreases a.len(),
{
    if a.len() > 0 {
        lemma_name_lt_irreflexive(a.drop_first());
    }
}

/// Whether the themes are in order of their names.
pub open spec fn sorted_by_name(s: Seq<Theme>) -> bool {
    forall|i: int, j: int| 0 <= i < j < s.len() ==> !name_lt(s[j].name@, s[i].name@)
}

fn precedes(a: &Vec<char>, b: &Vec<char>) -> (r: bool)
    ensures
        r == name_lt(a@, b@),
{
    let n = a.len();
    let m = b.len();
    let mut i: usize = 0;
    assert(a@.skip(0) =~= a@);
    assert(b@.skip(0) =~= b@);
    while i < n && i < m && a[i] == b[i]
        invariant
            n == a@.len(),
            m == b@.len(),
            i <= n,
            i <= m,
            name_lt(a@, b@) == name_lt(a@.skip(i as int), b@.skip(i as int)),
        decreases n - i,
    {
        assert(a@.skip(i as int).drop_first() =~= a@.skip(i + 1));
        assert(b@.skip(i as int).drop_first() =~= b@.skip(i + 1));
        i = i + 1;
    }
    if i == n {
        i < m
    } else if i == m {
        false
    } else {
        (a[i] as u32) < (b[i] as u32)
    }
}

/// The themes ordered by name (equal names keep no particular order among
/// themselves).
pub fn sort_by_name(themes: Vec<Theme>) -> (r: Vec<Theme>)
    ensures
        sorted_by_name(r@),
        r@.to_multiset() == themes@.to_multiset(),
{
    broadcast use vstd::seq_lib::to_multiset_insert, vstd::seq_lib::to_multiset_remove, vstd::seq_lib::to_multiset_len, vstd::multiset::group_multiset_axioms, vstd::multiset::group_multiset_properties;

    let mut rest = themes;
    let mut out: Vec<Theme> = Vec::new();
    assert(out@.to_multiset().len() == 0);
    assert(out@.to_multiset() =~= vstd::multiset::Multiset::empty());
    while rest.len() > 0
        invariant
            sorted_by_name(out@),
            out@.to_multiset().add(rest@.to_multiset()) == themes@.to_multiset(),
        decreases rest@.len(),
    {
        let ghost before_rest = rest@;
        let ghost before_out = out@;
        let t = rest.remove(0);
        let key = chars_of(t.name.as_str());
        let mut p: usize = 0;
        while p < out.len()
            invariant
                p <= out@.len(),
                key@ == t.name@,
                forall|k: int| 0 <= k < p ==> !name_lt(t.name@, #[trigger] out@[k].name@),
            ensures
                p <= out@.len(),
                forall|k: int| 0 <= k < p ==> !name_lt(t.name@, #[trigger] out@[k].name@),
                p < out@.len() ==> name_lt(t.name@, out@[p as int].name@),
            decreases out@.len() - p,
        {
            if precedes(&key, &chars_of(out[p].name.as_str())) {
                break;
            }
            p = p + 1;
        }
        let ghost old_out = out@;
        out.insert(p, t);
        proof {
            assert(out@ == old_out.insert(p as int, t));
            assert forall|i: int, j: int| 0 <= i < j < out@.len() implies !name_lt(
                out@[j].name@,
                out@[i].name@,
            ) by {
                if j == p as int {
                    assert(out@[i] == old_out[i]);
                    assert(out@[j] == t);
                } else if i == p as int {
                    assert(out@[i] == t);
                    assert(out@[j] == old_out[j - 1]);
                    if name_lt(out@[j].name@, t.name@) {
                        lemma_name_lt_transitive(out@[j].name@, t.name@, old_out[p as int].name@);
                        if j - 1 == p as int {
                            lemma_name_lt_irreflexive(old_out[p as int].name@);
                        }
                    }
                } else {
                    let oi = if i < p { i } else { i - 1 };
                    let oj = if j < p { j } else { j - 1 };
                    assert(out@[i] == old_out[oi]);
                    assert(out@[j] == old_out[oj]);
                }
            }
            assert(rest@ == before_rest.remove(0));
            assert(before_rest.to_multiset().count(t) > 0) by {
                assert(before_rest[0] == t);
                assert(before_rest.contains(t));
                before_rest.to_multiset_ensures();
            }
            assert(old_out == before_out);
            vstd::seq_lib::to_multiset_insert(old_out, p as int, t);
            vstd::seq_lib::to_multiset_remove(before_rest, 0);
            assert(out@.to_multiset() == before_out.to_multiset().insert(t));
            assert(rest@.to_multiset() == before_rest.to_multiset().remove(before_rest[0]));
            assert(out@.to_multiset().add(rest@.to_multiset()) =~= before_out.to_multiset().add(
                before_rest.to_multiset(),
            ));
        }
    }
    assert(rest@.to_multiset().len() == 0);
    assert(rest@.to_multiset() =~= vstd::multiset::Multiset::empty());
    out
}

} // verus!
