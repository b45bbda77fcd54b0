//! Helpers shared by the screens: relative navigation in a list and the
//! shortcut alphabet.

use vstd::prelude::*;
use vstd::string::*;
use crate::strings::{decimal, decimal_digits};
use crate::notifications::{stored_body, Color, Notification, NotificationHandler};
use crate::ui::{danger, danger_color};

verus! {

/// Whether `position` is the first place in `items` at which `predicate`
/// answered yes, having answered no at every place before it.
pub open spec fn first_match<T, F: Fn(&T) -> bool>(
    items: Seq<T>,
    predicate: F,
    position: int,
) -> bool {
    &&& 0 <= position < items.len()
    &&& predicate.ensures((&items[position],), true)
    &&& forall|j: int| 0 <= j < position ==> #[trigger] predicate.ensures((&items[j],), false)
}

/// Whether `predicate` answered no at every place of `items`.
pub open spec fn no_match<T, F: Fn(&T) -> bool>(items: Seq<T>, predicate: F) -> bool {
    forall|j: int| 0 <= j < items.len() ==> #[trigger] predicate.ensures((&items[j],), false)
}

/// The place after a match at `found`, held at the last place; the last place
/// where nothing matched.
pub open spec fn slot_after(found: Option<int>, len: int) -> int {
    match found {
        Some(p) => if p < len - 1 { p + 1 } else { len - 1 },
        None => len - 1,
    }
}

/// The place before a match at `found`, held at the first place; the first
/// place where nothing matched.
pub open spec fn slot_before(found: Option<int>, len: int) -> int {
    match found {
        Some(p) => if p > 0 { p - 1 } else { 0 },
        None => 0,
    }
}

/// The first place of `vec` at which `predicate` answers yes.
pub fn find_position<T, F: Fn(&T) -> bool>(vec: &Vec<T>, predicate: &F) -> (found: Option<usize>)
    requires
        forall|i: int| 0 <= i < vec@.len() ==> #[trigger] predicate.requires((&vec@[i],)),
    ensures
        match found {
            Some(p) => first_match(vec@, *predicate, p as int),
            None => no_match(vec@, *predicate),
        },
{
    let mut i: usize = 0;
    while i < vec.len()
        invariant
            i <= vec@.len(),
            forall|k: int| 0 <= k < vec@.len() ==> #[trigger] predicate.requires((&vec@[k],)),
            forall|j: int| 0 <= j < i ==> #[trigger] predicate.ensures((&vec@[j],), false),
        decreases vec@.len() - i,
    {
        if predicate(&vec[i]) {
            return Some(i);
        }
        i += 1;
    }
    None
}

/// The element that follows the first one matching `predicate`. The last
/// element answers both for a match in the last place and for no match.
pub fn get_next<T, F: Fn(&T) -> bool>(vec: &Vec<T>, predicate: F) -> (item: &T)
    requires
        vec@.len() > 0,
        forall|i: int| 0 <= i < vec@.len() ==> #[trigger] predicate.requires((&vec@[i],)),
    ensures
        (exists|p: int|
            first_match(vec@, predicate, p) && *item == vec@[slot_after(
                Some(p),
                vec@.len() as int,
            )]) || (no_match(vec@, predicate) && *item == vec@[slot_after(
            None,
            vec@.len() as int,
        )]),
{
    let last: usize = vec.len() - 1;
    match find_position(vec, &predicate) {
        Some(position) => {
            if position < last {
                &vec[position + 1]
            } else {
                &vec[last]
            }
        },
        None => &vec[last],
    }
}

/// The element that precedes the first one matching `predicate`. The first
/// element answers both for a match in the first place and for no match.
pub fn get_last<T, F: Fn(&T) -> bool>(vec: &Vec<T>, predicate: F) -> (item: &T)
    requires
        vec@.len() > 0,
        forall|i: int| 0 <= i < vec@.len() ==> #[trigger] predicate.requires((&vec@[i],)),
    ensures
        (exists|p: int|
            first_match(vec@, predicate, p) && *item == vec@[slot_before(
                Some(p),
                vec@.len() as int,
            )]) || (no_match(vec@, predicate) && *item == vec@[slot_before(
            None,
            vec@.len() as int,
        )]),
{
    match find_position(vec, &predicate) {
        Some(position) => {
            if position > 0 {
                &vec[position - 1]
            } else {
                &vec[0]
            }
        },
        None => &vec[0],
    }
}

/// The milliseconds that a report of a failed operation stays visible.
pub const ERROR_TTL: u64 = 5000;

/// Whether `made` is the report of a failure that `text` words, made at
/// `now`: titled "Error Occurred", white on the danger colour, visible for
/// five seconds, its body `text` wrapped.
pub open spec fn is_error_report(made: Notification, text: String, now: u64) -> bool {
    &&& made.title@ == "Error Occurred"@
    &&& stored_body(Some(text), made.text)
    &&& made.color == (Color::White, danger_color())
    &&& made.duration == ERROR_TTL
    &&& made.added_time == now
}

/// Hands on what a finished operation gave, or reports its failure. A
/// success is returned and the queue is left alone; a failure is worded by
/// `error_mapper`, pushed to the queue as one notification, and `None` comes
/// back: the caller has nothing more to report.
pub fn run_or_notify<R, E, M: Fn(&E) -> String>(
    queue: &mut NotificationHandler,
    outcome: Result<R, E>,
    error_mapper: M,
    now: u64,
) -> (value: Option<R>)
    requires
        outcome is Err ==> error_mapper.requires((&outcome->Err_0,)),
    ensures
        match outcome {
            Ok(given) => value == Some(given) && final(queue)@ == old(queue)@,
            Err(error) => {
                &&& value is None
                &&& final(queue)@.len() == old(queue)@.len() + 1
                &&& final(queue)@.drop_last() == old(queue)@
                &&& exists|text: String|
                    error_mapper.ensures((&error,), text) && is_error_report(
                        final(queue)@.last(),
                        text,
                        now,
                    )
            },
        },
{
    match outcome {
        Err(error) => {
            let text = error_mapper(&error);
            queue.push(
                String::from_str("Error Occurred"),
                Some(text),
                (Color::White, danger()),
                ERROR_TTL,
                now,
            );
            assert(is_error_report(queue@.last(), text, now));
            None
        },
        Ok(value) => Some(value),
    }
}

/// Seconds in a minute.
pub const MINUTE: u64 = 60;

/// Seconds in an hour.
pub const HOUR: u64 = 3600;

/// Seconds in a day.
pub const DAY: u64 = 86400;

/// Seconds in a week.
pub const WEEK: u64 = 604800;

/// Weeks that count as a month.
pub const WEEKS_PER_MONTH: u64 = 4;

/// Weeks that count as a year.
pub const WEEKS_PER_YEAR: u64 = 52;

/// How long ago something happened, in words, given the seconds that have
/// passed. The largest unit that has passed at least once is named; one of it
/// is spelled out, more are counted. Less than a second, or a time in the
/// future, is "now".
pub open spec fn elapsed_text(seconds: int) -> Seq<char> {
    if seconds < 1 {
        "now"@
    } else {
        let weeks = seconds / WEEK as int;
        if weeks >= WEEKS_PER_YEAR {
            let years = weeks / WEEKS_PER_YEAR as int;
            if years > 1 {
                decimal_digits(years as nat) + " years ago"@
            } else {
                "a year ago"@
            }
        } else if weeks >= WEEKS_PER_MONTH {
            let months = weeks / WEEKS_PER_MONTH as int;
            if months > 1 {
                decimal_digits(months as nat) + " months ago"@
            } else {
                "a month ago"@
            }
        } else if weeks >= 1 {
            if weeks > 1 {
                decimal_digits(weeks as nat) + " weeks ago"@
            } else {
                "a week ago"@
            }
        } else if seconds / DAY as int >= 1 {
            if seconds / DAY as int > 1 {
                decimal_digits((seconds / DAY as int) as nat) + " days ago"@
            } else {
                "a day ago"@
            }
        } else if seconds / HOUR as int >= 1 {
            if seconds / HOUR as int > 1 {
                decimal_digits((seconds / HOUR as int) as nat) + " hours ago"@
            } else {
                "an hour ago"@
            }
        } else if seconds / MINUTE as int >= 1 {
            if seconds / MINUTE as int > 1 {
                decimal_digits((seconds / MINUTE as int) as nat) + " minutes ago"@
            } else {
                "a minute ago"@
            }
        } else if seconds > 1 {
            decimal_digits(seconds as nat) + " seconds age"@
        } else {
            "a second ago"@
        }
    }
}

/// `count`, a space-led unit and all, where `count` is more than one; the
/// spelled-out form otherwise.
fn counted(count: u64, many: &str, one: &str) -> (text: String)
    ensures
        text@ == if count > 1 {
            decimal_digits(count as nat) + many@
        } else {
            one@
        },
{
    if count > 1 {
        let mut text = decimal(count);
        text.append(many);
        text
    } else {
        String::from_str(one)
    }
}

/// Words for how long before `now` the time `then` was, both in seconds since
/// the epoch.
pub fn format_elapsed(now: i64, then: i64) -> (text: String)
    ensures
        text@ == elapsed_text(now - then),
{
    if now <= then {
        return String::from_str("now");
    }
    let seconds: u64 = (now as i128 - then as i128) as u64;
    elapsed_words(seconds)
}

/// Words for the time that `elapsed_seconds` seconds ago was.
pub fn format_elapsed_time(elapsed_seconds: i64) -> (text: String)
    ensures
        text@ == elapsed_text(elapsed_seconds as int),
{
    if elapsed_seconds < 1 {
        return String::from_str("now");
    }
    elapsed_words(elapsed_seconds as u64)
}

/// Words for the time that `seconds` seconds ago was.
pub fn elapsed_words(seconds: u64) -> (text: String)
    ensures
        text@ == elapsed_text(seconds as int),
{
    if seconds < 1 {
        return String::from_str("now");
    }
    let weeks: u64 = seconds / WEEK;
    if weeks >= WEEKS_PER_YEAR {
        counted(weeks / WEEKS_PER_YEAR, " years ago", "a year ago")
    } else if weeks >= WEEKS_PER_MONTH {
        counted(weeks / WEEKS_PER_MONTH, " months ago", "a month ago")
    } else if weeks >= 1 {
        counted(weeks, " weeks ago", "a week ago")
    } else if seconds / DAY >= 1 {
        counted(seconds / DAY, " days ago", "a day ago")
    } else if seconds / HOUR >= 1 {
        counted(seconds / HOUR, " hours ago", "an hour ago")
    } else if seconds / MINUTE >= 1 {
        counted(seconds / MINUTE, " minutes ago", "a minute ago")
    } else {
        counted(seconds, " seconds age", "a second ago")
    }
}

/// How many list entries have a shortcut: the digits, then the small
/// letters.
pub const SHORTCUTS: usize = 36;

/// The place in the shortcut alphabet of `c`: 0 to 9 for the digits, 10 to 35
/// for the small letters.
pub open spec fn shortcut_place(c: char) -> Option<int> {
    let code = c as int;
    if 48 <= code <= 57 {
        Some(code - 48)
    } else if 97 <= code <= 122 {
        Some(code - 97 + 10)
    } else {
        None
    }
}

/// The place in the shortcut alphabet of `c`, if it has one.
pub fn shortcut_index(c: char) -> (place: Option<usize>)
    ensures
        match place {
            Some(p) => p < SHORTCUTS && shortcut_place(c) == Some(p as int),
            None => shortcut_place(c) is None,
        },
{
    let code: u32 = c as u32;
    if 48 <= code && code <= 57 {
        Some((code - 48) as usize)
    } else if 97 <= code && code <= 122 {
        Some((code - 97 + 10) as usize)
    } else {
        None
    }
}

/// The shortcut of the list entry at `index`, if it has one.
pub fn shortcut_char(index: usize) -> (key: Option<char>)
    ensures
        match key {
            Some(c) => index < SHORTCUTS && shortcut_place(c) == Some(index as int),
            None => index >= SHORTCUTS,
        },
{
    if index < 10 {
        Some((48u8 + index as u8) as char)
    } else if index < 36 {
        Some((97u8 + (index - 10) as u8) as char)
    } else {
        None
    }
}

} // verus!
