//! What the screens show of the state, as plain values for the renderer.

use vstd::prelude::*;
use vstd::string::*;
use crate::chip::ChipState;
use crate::log_text::{line_texts, split_lines, text_lines};
use crate::model::{Profile, SearchEntry};
use crate::notifications::Notification;
use crate::search::{pages_for, SearchState, PAGE_SIZE};
use crate::strings::{chars_of, decimal, decimal_digits};
use crate::text_input::TextState;
use crate::utils::{elapsed_text, shortcut_char, shortcut_place, SHORTCUTS};

verus! {

/// The least width of the notification column.
pub const NOTIFICATION_MIN_WIDTH: usize = 30;

/// The larger of two numbers.
pub open spec fn larger(a: int, b: int) -> int {
    if a >= b {
        a
    } else {
        b
    }
}

/// The width of the widest of `lines`, and `least` at least.
pub open spec fn widest(lines: Seq<Seq<char>>, least: int) -> int
    decreases lines.len(),
{
    if lines.len() == 0 {
        least
    } else {
        larger(widest(lines.drop_last(), least), lines.last().len() as int)
    }
}

/// The lines of the body of a notification.
pub open spec fn body_lines(n: Notification) -> Seq<Seq<char>> {
    match n.text {
        Some(text) => text_lines(text@),
        None => Seq::<Seq<char>>::empty(),
    }
}

/// The width that the notifications of `list` need: that of the widest title
/// or body line, and the least width at least.
pub open spec fn needed_width(list: Seq<Notification>) -> int
    decreases list.len(),
{
    if list.len() == 0 {
        NOTIFICATION_MIN_WIDTH as int
    } else {
        widest(
            body_lines(list.last()),
            larger(needed_width(list.drop_last()), list.last().title@.len() as int),
        )
    }
}

/// The rows that the notifications of `list` need: three for each, and one
/// more for each line of its body.
pub open spec fn needed_height(list: Seq<Notification>) -> int
    decreases list.len(),
{
    if list.len() == 0 {
        0
    } else {
        needed_height(list.drop_last()) + 3 + body_lines(list.last()).len()
    }
}

/// `n` as a screen measure: itself where it fits, the largest measure else.
pub open spec fn clamped(n: int) -> u16 {
    if n <= u16::MAX {
        n as u16
    } else {
        u16::MAX
    }
}

/// Columns and rows of the area that shows the notifications of `list`: the
/// needed width and one column of margin on each side, and the needed height.
pub fn notification_area(list: &Vec<Notification>) -> (area: (u16, u16))
    ensures
        area.0 == clamped(needed_width(list@) + 2),
        area.1 == clamped(needed_height(list@)),
{
    let mut width: usize = NOTIFICATION_MIN_WIDTH;
    let mut height: u16 = 0;
    let mut i: usize = 0;
    while i < list.len()
        invariant
            i <= list@.len(),
            width == needed_width(list@.subrange(0, i as int)),
            height == clamped(needed_height(list@.subrange(0, i as int))),
            needed_height(list@.subrange(0, i as int)) >= 0,
        decreases list@.len() - i,
    {
        let item = &list[i];
        proof {
            let upto = list@.subrange(0, i + 1);
            assert(upto.drop_last() =~= list@.subrange(0, i as int));
        }
        height = if height <= u16::MAX - 3 {
            height + 3
        } else {
            u16::MAX
        };
        let title = item.title.as_str().unicode_len();
        if title > width {
            width = title;
        }
        match &item.text {
            Some(text) => {
                let lines = split_lines(&chars_of(text.as_str()));
                let ghost base = width as int;
                let ghost rows = needed_height(list@.subrange(0, i as int)) + 3;
                let mut j: usize = 0;
                while j < lines.len()
                    invariant
                        j <= lines@.len(),
                        width == widest(line_texts(lines@).subrange(0, j as int), base),
                        height == clamped(rows + j),
                        rows >= 0,
                    decreases lines@.len() - j,
                {
                    proof {
                        let upto = line_texts(lines@).subrange(0, j + 1);
                        assert(upto.drop_last() =~= line_texts(lines@).subrange(0, j as int));
                    }
                    height = if height < u16::MAX {
                        height + 1
                    } else {
                        u16::MAX
                    };
                    let len: usize = lines[j].len();
                    if len > width {
                        width = len;
                    }
                    j += 1;
                }
                proof {
                    assert(line_texts(lines@).subrange(0, lines@.len() as int) =~= line_texts(
                        lines@,
                    ));
                }
            },
            None => {},
        }
        i += 1;
    }
    proof {
        assert(list@.subrange(0, list@.len() as int) =~= list@);
    }
    let columns: u16 = if width <= 65533 {
        (width + 2) as u16
    } else {
        u16::MAX
    };
    (columns, height)
}

/// The pages that the page label of a search counts: those that `total`
/// results fill, and one where there are no results.
pub open spec fn label_pages(total: u32) -> int {
    if total > 0 {
        pages_for(total as nat)
    } else {
        1
    }
}

/// The page label of a search: the page shown and the number of pages.
pub open spec fn page_label_text(page: u32, total: u32) -> Seq<char> {
    "["@ + decimal_digits((page + 1) as nat) + "/"@ + decimal_digits(label_pages(total) as nat)
        + "]"@
}

/// The page label of a search.
pub fn page_label(state: &SearchState) -> (label: String)
    ensures
        label@ == page_label_text(state.page, state.total),
{
    let pages: u64 = if state.total > 0 {
        (state.total as u64 + PAGE_SIZE - 1) / PAGE_SIZE
    } else {
        1
    };
    let mut label = String::from_str("[");
    label.append(decimal(state.page as u64 + 1).as_str());
    label.append("/");
    label.append(decimal(pages).as_str());
    label.append("]");
    label
}

/// The version that `installed` names for `project`: that of the first pair
/// of the project.
pub open spec fn version_of(installed: Seq<(String, String)>, project: Seq<char>) -> Option<
    Seq<char>,
>
    decreases installed.len(),
{
    if installed.len() == 0 {
        None
    } else if installed[0].0@ == project {
        Some(installed[0].1@)
    } else {
        version_of(installed.drop_first(), project)
    }
}

/// The installed version of the project of `entry`, if it is installed.
pub fn installed_version(state: &SearchState, entry: &SearchEntry) -> (version: Option<String>)
    ensures
        match version {
            Some(v) => version_of(state.installed@, entry.project_id@) == Some(v@),
            None => version_of(state.installed@, entry.project_id@) is None,
        },
{
    let mut i: usize = 0;
    assert(state.installed@.subrange(0, state.installed@.len() as int) =~= state.installed@);
    while i < state.installed.len()
        invariant
            i <= state.installed@.len(),
            version_of(state.installed@, entry.project_id@) == version_of(
                state.installed@.subrange(i as int, state.installed@.len() as int),
                entry.project_id@,
            ),
        decreases state.installed@.len() - i,
    {
        proof {
            let rest = state.installed@.subrange(i as int, state.installed@.len() as int);
            assert(rest.drop_first() =~= state.installed@.subrange(
                i + 1,
                state.installed@.len() as int,
            ));
        }
        if state.installed[i].0 == entry.project_id {
            return Some(state.installed[i].1.clone());
        }
        i += 1;
    }
    None
}

/// The line that names the versions of an instance: the game's version and
/// the loader, and the loader's version in brackets where it is known.
pub open spec fn version_line(profile: Profile) -> Seq<char> {
    match profile.loader_version {
        Some(version) => profile.game_version@ + " "@ + profile.loader.name() + " ("@ + version@
            + ")"@,
        None => profile.game_version@ + " "@ + profile.loader.name(),
    }
}

/// The line that names the versions of an instance.
pub fn version_text(profile: &Profile) -> (line: String)
    ensures
        line@ == version_line(*profile),
{
    let mut line = profile.game_version.clone();
    line.append(" ");
    line.append(profile.loader.as_str());
    match &profile.loader_version {
        Some(version) => {
            line.append(" (");
            line.append(version.as_str());
            line.append(")");
        },
        None => {},
    }
    line
}

/// The label of the list entry `name` whose shortcut is `key`.
pub open spec fn entry_label(key: char, name: Seq<char>) -> Seq<char> {
    " "@ + seq![key] + ". "@ + name
}

/// The label of the entry `name` at place `index` of a list: its shortcut,
/// then the name. A place beyond the shortcuts has no label.
pub fn list_label(index: usize, name: &str) -> (label: Option<String>)
    ensures
        match label {
            Some(text) => index < SHORTCUTS && exists|key: char|
                #![trigger entry_label(key, name@)]
                shortcut_place(key) == Some(index as int) && text@ == entry_label(key, name@),
            None => index >= SHORTCUTS,
        },
{
    match shortcut_char(index) {
        Some(key) => {
            let mut label = String::from_str(" ");
            label.push(key);
            label.append(". ");
            label.append(name);
            assert(label@ =~= entry_label(key, name@));
            Some(label)
        },
        None => None,
    }
}

/// When a search hit was last changed, in words, at the time `now` in
/// seconds since the epoch.
pub open spec fn modified_text(entry: SearchEntry, now: i64) -> Seq<char> {
    elapsed_text(now - entry.date_modified)
}

/// What the result list shows of a hit beyond its fields.
pub trait SearchEntryExt {
    /// When the hit was last changed, in words, at the time `now`.
    spec fn modified(&self, now: i64) -> Seq<char>;

    fn get_modified_display(&self, now: i64) -> (text: String)
        ensures
            text@ == self.modified(now),
    ;
}

impl SearchEntryExt for SearchEntry {
    open spec fn modified(&self, now: i64) -> Seq<char> {
        modified_text(*self, now)
    }

    fn get_modified_display(&self, now: i64) -> (text: String) {
        crate::utils::format_elapsed(now, self.date_modified)
    }
}

/// The text field widget: what it shows of a [`TextState`].
pub struct TextInput();

impl TextInput {
    /// Whether the caret shows: in the selected field, in the visible half
    /// of the blink cycle.
    pub fn caret_shown(selected: bool, state: &TextState) -> (shown: bool)
        ensures
            shown == (selected && state.blink()),
    {
        selected && state.is_blinking()
    }
}

/// The chip row widget: what it shows of a [`ChipState`].
pub struct ChoiceChip();

impl ChoiceChip {
    /// Whether the chip at `index` is the selected one.
    pub fn is_selected<T: Clone>(state: &ChipState<T>, index: usize) -> (hit: bool)
        ensures
            hit == (state.index() == Some(index)),
    {
        match state.selected() {
            Some(chosen) => chosen == index,
            None => false,
        }
    }
}

} // verus!
