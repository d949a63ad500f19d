//! Result history: the newest-first list kept to a fixed length, and the
//! "how long ago" labels shown beside each result.

use crate::modes::Mode;
use crate::text::{decimal, decimal_string};
use crate::words::{lang_name, language_table, spec_lang_index};
use vstd::prelude::*;

verus! {

/// Most results kept.
pub const HISTORY_LIMIT: usize = 50;

/// Prepends `entry`, keeping the list newest-first and at most
/// [`HISTORY_LIMIT`] long.
pub fn push_capped<T>(history: &mut Vec<T>, entry: T)
    ensures
        final(history)@ == (seq![entry] + old(history)@).take(
            if old(history)@.len() + 1 <= HISTORY_LIMIT {
                (old(history)@.len() + 1) as int
            } else {
                HISTORY_LIMIT as int
            },
        ),
{
    history.insert(0, entry);
    history.truncate(HISTORY_LIMIT);
    proof {
        assert(old(history)@.insert(0, entry) =~= seq![entry] + old(history)@);
    }
}

/// How long ago a result `diff` seconds old was, in the largest unit that
/// fits: under a minute is "just now", then minutes, hours, days, weeks,
/// months (30 days) and years (365 days), each rounded down.
pub open spec fn ago_label(diff: nat) -> Seq<char> {
    if diff < 60 {
        "just now"@
    } else if diff < 3600 {
        decimal(diff / 60) + "m ago"@
    } else if diff < 86400 {
        decimal(diff / 3600) + "h ago"@
    } else if diff < 86400 * 7 {
        decimal(diff / 86400) + "d ago"@
    } else if diff < 86400 * 30 {
        decimal(diff / (86400 * 7)) + "w ago"@
    } else if diff < 86400 * 365 {
        decimal(diff / (86400 * 30)) + "mo ago"@
    } else {
        decimal(diff / (86400 * 365)) + "y ago"@
    }
}

fn count_with_suffix(n: u64, suffix: &str) -> (s: String)
    ensures
        s@ == decimal(n as nat) + suffix@,
{
    let mut s = decimal_string(n);
    s.append(suffix);
    s
}

/// Label for a result recorded at `timestamp` (Unix seconds) as seen at
/// `now`; a timestamp in the future counts as just now.
pub fn time_ago(timestamp: u64, now: u64) -> (s: String)
    ensures
        s@ == ago_label((if now >= timestamp {
            now - timestamp
        } else {
            0
        }) as nat),
{
    let diff = now.saturating_sub(timestamp);
    if diff < 60 {
        String::from_str("just now")
    } else if diff < 3600 {
        count_with_suffix(diff / 60, "m ago")
    } else if diff < 86400 {
        count_with_suffix(diff / 3600, "h ago")
    } else if diff < 86400 * 7 {
        count_with_suffix(diff / 86400, "d ago")
    } else if diff < 86400 * 30 {
        count_with_suffix(diff / (86400 * 7), "w ago")
    } else if diff < 86400 * 365 {
        count_with_suffix(diff / (86400 * 30), "mo ago")
    } else {
        count_with_suffix(diff / (86400 * 365), "y ago")
    }
}

/// The key personal bests are kept under: the mode as it reads in results,
/// an underscore, and the language's name (e.g. `time 30s_english`).
pub fn result_key(mode: Mode, lang_idx: usize) -> (k: String)
    ensures
        k@ == mode.spec_label() + "_"@ + language_table()[spec_lang_index(lang_idx as int)].0,
{
    let mut k = mode.label();
    k.append("_");
    k.append(lang_name(lang_idx));
    k
}

} // verus!
