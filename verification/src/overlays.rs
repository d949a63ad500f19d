//! The history list and the help text: moving through them and leaving.

use crate::app::{focus_cursor, focused_scroll, App, Screen};
use crate::input::{Key, KeyPress};
use vstd::prelude::*;

verus! {

/// `a + b`, but no more than `cap`.
pub open spec fn capped_add(a: int, b: int, cap: int) -> int {
    if a + b <= cap {
        a + b
    } else {
        cap
    }
}

/// `a - b`, but no less than zero.
pub open spec fn floored_sub(a: int, b: int) -> int {
    if a >= b {
        a - b
    } else {
        0
    }
}

/// Where a key moves the history selection from `cursor`, with `last` the
/// last entry and `page` rows showing: one step, a page, or to either end;
/// `None` for keys that do not move it.
pub open spec fn history_target(cursor: usize, last: usize, page: usize, k: Key) -> Option<usize> {
    match k {
        Key::Up => Some(floored_sub(cursor as int, 1) as usize),
        Key::Down => Some(
            if cursor < last {
                (cursor + 1) as usize
            } else {
                last
            },
        ),
        Key::PageUp => Some(floored_sub(cursor as int, page as int) as usize),
        Key::PageDown => Some(
            if cursor < last {
                capped_add(cursor as int, page as int, last as int) as usize
            } else {
                last
            },
        ),
        Key::Home => Some(0),
        Key::End => Some(last),
        _ => None,
    }
}

/// What a key does on the history screen: Esc or `q` resets the list and
/// goes back to the menu; the movement keys move the selection within the
/// list, and the view follows it (at least one row is taken to show).
pub open spec fn history_after<H>(o: App<H>, k: KeyPress) -> App<H> {
    let visible = if o.spec_history_visible_rows() >= 1 {
        o.spec_history_visible_rows() as usize
    } else {
        1
    };
    let last = floored_sub(o.history@.len() as int, 1) as usize;
    match k.code {
        Key::Esc | Key::Char('q') | Key::Char('Q') => App {
            history_scroll: 0,
            history_cursor: 0,
            screen: Screen::Menu,
            ..o
        },
        _ => match history_target(o.history_cursor, last, visible, k.code) {
            Some(to) => App {
                history_cursor: to,
                history_scroll: focused_scroll(o.history_scroll, to, visible),
                ..o
            },
            None => o,
        },
    }
}

/// What a key does on the help screen: Esc, `q` or `?` goes back to the
/// menu with the text scrolled to the top; the movement keys scroll by a
/// line, a page, or to either end, never past the last screenful.
pub open spec fn help_after<H>(o: App<H>, k: KeyPress) -> App<H> {
    let max = o.spec_help_max_scroll();
    let page = o.spec_help_visible_rows();
    let s = o.help_scroll as int;
    match k.code {
        Key::Esc | Key::Char('q') | Key::Char('Q') | Key::Char('?') => App {
            help_scroll: 0,
            screen: Screen::Menu,
            ..o
        },
        Key::Up => App { help_scroll: floored_sub(s, 1) as usize, ..o },
        Key::Down => App {
            help_scroll: (if s < max {
                capped_add(s, 1, max)
            } else {
                max
            }) as usize,
            ..o
        },
        Key::PageUp => App { help_scroll: floored_sub(s, page) as usize, ..o },
        Key::PageDown => App {
            help_scroll: (if s < max {
                capped_add(s, page, max)
            } else {
                max
            }) as usize,
            ..o
        },
        Key::Home => App { help_scroll: 0, ..o },
        Key::End => App { help_scroll: max as usize, ..o },
        _ => o,
    }
}

impl<H> App<H> {
    /// Handles a key on the history screen; see [`history_after`].
    pub fn handle_history(&mut self, key: KeyPress)
        ensures
            *final(self) == history_after(*old(self), key),
    {
        let rows = self.history_visible_rows();
        let visible = if rows < 1 {
            1
        } else {
            rows
        };
        let last = self.history.len().saturating_sub(1);
        let cursor = self.history_cursor;
        let to = match key.code {
            Key::Esc | Key::Char('q') | Key::Char('Q') => {
                self.history_scroll = 0;
                self.history_cursor = 0;
                self.screen = Screen::Menu;
                return;
            },
            Key::Up => cursor.saturating_sub(1),
            Key::Down => if cursor < last {
                cursor + 1
            } else {
                last
            },
            Key::PageUp => cursor.saturating_sub(visible),
            Key::PageDown => if cursor < last {
                if last - cursor >= visible {
                    cursor + visible
                } else {
                    last
                }
            } else {
                last
            },
            Key::Home => 0,
            Key::End => last,
            _ => {
                return;
            },
        };
        focus_cursor(&mut self.history_cursor, &mut self.history_scroll, to, visible);
    }

    /// Handles a key on the help screen; see [`help_after`].
    pub fn handle_help(&mut self, key: KeyPress)
        ensures
            *final(self) == help_after(*old(self), key),
    {
        let max = self.help_max_scroll();
        let page = self.help_visible_rows();
        let s = self.help_scroll;
        match key.code {
            Key::Esc | Key::Char('q') | Key::Char('Q') | Key::Char('?') => {
                self.help_scroll = 0;
                self.screen = Screen::Menu;
            },
            Key::Up => self.help_scroll = s.saturating_sub(1),
            Key::Down => self.help_scroll = if s < max {
                s + 1
            } else {
                max
            },
            Key::PageUp => self.help_scroll = s.saturating_sub(page),
            Key::PageDown => self.help_scroll = if s < max {
                if max - s >= page {
                    s + page
                } else {
                    max
                }
            } else {
                max
            },
            Key::Home => self.help_scroll = 0,
            Key::End => self.help_scroll = max,
            _ => {},
        }
    }

    /// Takes a freshly read history, keeping the list's first visible row
    /// no further down than its last entry.
    pub fn replace_history(&mut self, history: Vec<H>)
        ensures
            *final(self) == (App {
                history: final(self).history,
                history_scroll: if old(self).history_scroll <= floored_sub(history@.len() as int, 1) {
                    old(self).history_scroll
                } else {
                    floored_sub(history@.len() as int, 1) as usize
                },
                ..*old(self)
            }),
            final(self).history@ == history@,
    {
        let last = history.len().saturating_sub(1);
        self.history = history;
        if self.history_scroll > last {
            self.history_scroll = last;
        }
    }
}

/// The history selection never leaves the list: starting from any
/// selection, every key leaves it on an entry (or at zero when the list is
/// empty), and the first visible row never goes below it.
pub proof fn history_cursor_stays_in_list<H>(o: App<H>, k: KeyPress)
    requires
        o.history_cursor < o.history@.len() || o.history_cursor == 0,
    ensures
        history_after(o, k).history_cursor < o.history@.len() || history_after(o, k).history_cursor
            == 0,
        history_after(o, k).history_scroll <= history_after(o, k).history_cursor
            || history_after(o, k) == o,
{
}

/// The help text never scrolls past its last screenful: from any position
/// within range, every key leaves the scroll within `0..=max`.
pub proof fn help_scroll_stays_in_range<H>(o: App<H>, k: KeyPress)
    requires
        o.help_scroll <= o.spec_help_max_scroll(),
    ensures
        help_after(o, k).help_scroll <= o.spec_help_max_scroll(),
{
}

} // verus!
