//! Moving around the store with the buttons: the grid selection, the
//! sidebar cursor and the settings list.

use vstd::prelude::*;
use crate::input::{AppCommand, InputCommand};
use crate::i18n::Language;

verus! {

/// Which pane of the catalog the buttons drive.
#[derive(Clone, Copy, Debug, PartialEq, Eq, Structural)]
pub enum FocusPane {
    Grid,
    Sidebar,
}

impl Default for FocusPane {
    fn default() -> (r: FocusPane)
        ensures
            r == FocusPane::Grid,
    {
        FocusPane::Grid
    }
}

/// `v` limited to `[lo, hi]`.
pub open spec fn clamp(v: int, lo: int, hi: int) -> int {
    if v < lo { lo } else if v > hi { hi } else { v }
}

/// `base + delta` limited to `[0, last]`, computed without overflow.
fn clamped_step(base: usize, delta: isize, last: usize) -> (r: usize)
    ensures
        r == clamp(base + delta, 0, last as int),
{
    if delta >= 0 {
        let d = delta as usize;
        if base >= last || d >= last - base { last } else { base + d }
    } else {
        let magnitude: usize = ((-(delta + 1)) as usize) + 1;
        let down = if magnitude >= base { 0 } else { base - magnitude };
        if down > last { last } else { down }
    }
}

/// A grid selection: which tile is selected, and whether the selection shows.
#[derive(Debug, Clone, Copy, PartialEq, Eq, Structural)]
pub struct Selection {
    pub selected: usize,
    pub active: bool,
}

/// The selection after moving by `delta` tiles over a grid of `len` tiles,
/// and whether anything moved: an empty grid does not move; a hidden
/// selection appears on the first tile; a shown one moves, stopping at the
/// ends.
pub open spec fn moved_selection(s: Selection, len: nat, delta: int) -> (Selection, bool) {
    if len == 0 {
        (s, false)
    } else if !s.active {
        (Selection { selected: 0, active: true }, true)
    } else {
        let target = clamp(s.selected + delta, 0, len - 1);
        if target == s.selected {
            (s, false)
        } else {
            (Selection { selected: target as usize, active: true }, true)
        }
    }
}

/// Moves the grid selection.
pub fn move_selection(s: Selection, len: usize, delta: isize) -> (r: (Selection, bool))
    ensures
        r == moved_selection(s, len as nat, delta as int),
{
    if len == 0 {
        return (s, false);
    }
    if !s.active {
        return (Selection { selected: 0, active: true }, true);
    }
    let target = clamped_step(s.selected, delta, len - 1);
    if target == s.selected {
        (s, false)
    } else {
        (Selection { selected: target, active: true }, true)
    }
}

/// After a move the selection is on a tile of the grid (when there is one).
pub proof fn a_moved_selection_stays_on_the_grid(s: Selection, len: nat, delta: int)
    requires
        len > 0,
        s.active ==> s.selected < len,
    ensures
        moved_selection(s, len, delta).0.selected < len,
        moved_selection(s, len, delta).0.active,
{
}

/// How many tiles a direction moves over a grid of `columns` columns.
pub open spec fn grid_step(direction: InputCommand, columns: int) -> int {
    match direction {
        InputCommand::MoveLeft => -1,
        InputCommand::MoveRight => 1,
        InputCommand::MoveUp => -columns,
        InputCommand::MoveDown => columns,
        _ => 0,
    }
}

/// The tile step of a direction.
pub fn grid_delta(direction: InputCommand, columns: usize) -> (r: isize)
    requires
        columns <= isize::MAX,
    ensures
        r == grid_step(direction, columns as int),
{
    match direction {
        InputCommand::MoveLeft => -1,
        InputCommand::MoveRight => 1,
        InputCommand::MoveUp => -(columns as isize),
        InputCommand::MoveDown => columns as isize,
        _ => 0,
    }
}

/// Whether moving left leaves the grid for the sidebar: the selection is
/// hidden or in the first column.
pub fn at_left_edge(s: Selection, columns: usize) -> (r: bool)
    requires
        columns > 0,
    ensures
        r == (!s.active || s.selected % columns == 0),
{
    !s.active || s.selected % columns == 0
}

/// The sidebar cursor after moving by `delta` over `len` rows, whether it
/// moved, and the row to apply: an empty sidebar does nothing; otherwise the
/// sidebar takes the focus and the row under the cursor applies, unless the
/// cursor was already there with the focus.
pub open spec fn moved_cursor(cursor: usize, focused: bool, len: nat, delta: int) -> (usize, bool) {
    if len == 0 {
        (cursor, false)
    } else {
        let next = clamp(cursor + delta, 0, len - 1);
        if next == cursor && focused { (cursor, false) } else { (next as usize, true) }
    }
}

/// Moves the sidebar cursor.
pub fn move_sidebar_cursor(cursor: usize, focused: bool, len: usize, delta: isize) -> (r: (usize, bool))
    ensures
        r == moved_cursor(cursor, focused, len as nat, delta as int),
{
    if len == 0 {
        return (cursor, false);
    }
    let next = clamped_step(cursor, delta, len - 1);
    if next == cursor && focused {
        (cursor, false)
    } else {
        (next, true)
    }
}

/// The last row of the settings list.
pub const SETTINGS_LAST_ROW: usize = 8;

/// The settings row after moving up or down (other directions keep it).
pub fn move_settings_row(selected: usize, direction: InputCommand) -> (r: usize)
    ensures
        r == match direction {
            InputCommand::MoveUp => if selected == 0 { 0 } else { (selected - 1) as usize },
            InputCommand::MoveDown => if selected >= SETTINGS_LAST_ROW { SETTINGS_LAST_ROW } else { (selected + 1) as usize },
            _ => selected,
        },
{
    match direction {
        InputCommand::MoveUp => if selected == 0 { 0 } else { selected - 1 },
        InputCommand::MoveDown => if selected >= SETTINGS_LAST_ROW { SETTINGS_LAST_ROW } else { selected + 1 },
        _ => selected,
    }
}

/// What confirming a settings row does: the first rows choose a language,
/// then the cache actions and the notification toggle.
pub open spec fn settings_row_command(row: usize) -> Option<AppCommand> {
    if row == 0 {
        Some(AppCommand::SetLanguage(Language::English))
    } else if row == 1 {
        Some(AppCommand::SetLanguage(Language::Spanish))
    } else if row == 5 {
        Some(AppCommand::ClearIconCache)
    } else if row == 6 {
        Some(AppCommand::ClearCatalogCache)
    } else if row == 7 {
        Some(AppCommand::PurgeAllCache)
    } else if row == 8 {
        Some(AppCommand::ToggleInstallNotifications)
    } else {
        None
    }
}

/// The command of a confirmed settings row.
pub fn confirm_settings_row(row: usize) -> (r: Option<AppCommand>)
    ensures
        r == settings_row_command(row),
{
    let languages = Language::all();
    if row < languages.len() {
        Some(AppCommand::SetLanguage(languages[row]))
    } else if row == 5 {
        Some(AppCommand::ClearIconCache)
    } else if row == 6 {
        Some(AppCommand::ClearCatalogCache)
    } else if row == 7 {
        Some(AppCommand::PurgeAllCache)
    } else if row == 8 {
        Some(AppCommand::ToggleInstallNotifications)
    } else {
        None
    }
}

} // verus!
