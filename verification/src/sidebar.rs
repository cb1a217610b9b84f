//! The catalog sidebar: which rows it lists, which row is highlighted, and
//! the commands a row stands for.

use vstd::prelude::*;
use crate::data::{Category, SortOrder};
use crate::input::AppCommand;

verus! {

/// One row of the sidebar.
#[derive(Clone, Copy, Debug, PartialEq, Eq, Structural)]
pub enum SidebarSlot {
    All,
    Category(Category),
    Featured,
    Downloads,
    Recent,
    Favorites,
}

/// The rows for the given category counts: "all", one per category in order,
/// then the four shortcuts.
pub open spec fn slots_for(category_counts: Seq<(Category, usize)>) -> Seq<SidebarSlot> {
    seq![SidebarSlot::All]
        + category_counts.map_values(|c: (Category, usize)| SidebarSlot::Category(c.0))
        + seq![SidebarSlot::Featured, SidebarSlot::Downloads, SidebarSlot::Recent, SidebarSlot::Favorites]
}

/// The sidebar rows.
pub fn sidebar_slots(category_counts: &[(Category, usize)]) -> (r: Vec<SidebarSlot>)
    ensures
        r@ == slots_for(category_counts@),
{
    let mut slots: Vec<SidebarSlot> = Vec::new();
    slots.push(SidebarSlot::All);
    let mut i: usize = 0;
    while i < category_counts.len()
        invariant
            i <= category_counts@.len(),
            slots@ == seq![SidebarSlot::All] + category_counts@.take(i as int).map_values(
                |c: (Category, usize)| SidebarSlot::Category(c.0),
            ),
        decreases category_counts.len() - i,
    {
        let (category, _) = category_counts[i];
        slots.push(SidebarSlot::Category(category));
        assert(category_counts@.take(i + 1).map_values(|c: (Category, usize)| SidebarSlot::Category(c.0))
            =~= category_counts@.take(i as int).map_values(|c: (Category, usize)| SidebarSlot::Category(c.0))
            .push(SidebarSlot::Category(category)));
        i += 1;
    }
    assert(category_counts@.take(i as int) =~= category_counts@);
    slots.push(SidebarSlot::Featured);
    slots.push(SidebarSlot::Downloads);
    slots.push(SidebarSlot::Recent);
    slots.push(SidebarSlot::Favorites);
    slots
}

/// The row that reflects the current filters: favourites first, then the
/// chosen category, then the rows that stand for a sort order.
pub open spec fn target_slot(selected: Option<Category>, favorites_filter: bool, sort_order: SortOrder) -> SidebarSlot {
    if favorites_filter {
        SidebarSlot::Favorites
    } else if selected is Some {
        SidebarSlot::Category(selected->0)
    } else {
        match sort_order {
            SortOrder::Rating => SidebarSlot::Featured,
            SortOrder::Downloads => SidebarSlot::Downloads,
            _ => SidebarSlot::All,
        }
    }
}

/// The index of the highlighted row: the first row equal to the target, or 0.
pub fn active_sidebar_index(
    slots: &[SidebarSlot],
    selected: Option<Category>,
    favorites_filter: bool,
    sort_order: SortOrder,
) -> (r: usize)
    ensures
        (exists|i: int| 0 <= i < slots@.len() && slots@[i] == target_slot(selected, favorites_filter, sort_order)) ==> {
            &&& r < slots@.len()
            &&& slots@[r as int] == target_slot(selected, favorites_filter, sort_order)
            &&& forall|j: int| 0 <= j < r ==> slots@[j] != target_slot(selected, favorites_filter, sort_order)
        },
        !(exists|i: int| 0 <= i < slots@.len() && slots@[i] == target_slot(selected, favorites_filter, sort_order))
            ==> r == 0,
{
    let target = if favorites_filter {
        SidebarSlot::Favorites
    } else if let Some(cat) = selected {
        SidebarSlot::Category(cat)
    } else {
        match sort_order {
            SortOrder::Rating => SidebarSlot::Featured,
            SortOrder::Downloads => SidebarSlot::Downloads,
            _ => SidebarSlot::All,
        }
    };
    let mut i: usize = 0;
    while i < slots.len()
        invariant
            i <= slots@.len(),
            target == target_slot(selected, favorites_filter, sort_order),
            forall|j: int| 0 <= j < i ==> slots@[j] != target,
        decreases slots.len() - i,
    {
        if slots[i] == target {
            return i;
        }
        i += 1;
    }
    0
}

/// The commands a sidebar row issues.
pub open spec fn slot_commands(slot: SidebarSlot) -> Seq<AppCommand> {
    match slot {
        SidebarSlot::All => seq![AppCommand::SetFavoritesFilter(false), AppCommand::SetCategoryFilter(None)],
        SidebarSlot::Category(c) => seq![AppCommand::SetFavoritesFilter(false), AppCommand::SetCategoryFilter(Some(c))],
        SidebarSlot::Featured => seq![AppCommand::SetFavoritesFilter(false), AppCommand::SetSortOrder(SortOrder::Rating)],
        SidebarSlot::Downloads => seq![AppCommand::SetFavoritesFilter(false), AppCommand::SetSortOrder(SortOrder::Downloads)],
        SidebarSlot::Recent => seq![AppCommand::SetFavoritesFilter(false), AppCommand::SetSortOrder(SortOrder::Recent)],
        SidebarSlot::Favorites => seq![AppCommand::SetFavoritesFilter(true)],
    }
}

/// Appends the commands of a sidebar row.
pub fn apply_sidebar_slot(slot: SidebarSlot, commands: &mut Vec<AppCommand>)
    ensures
        final(commands)@ == old(commands)@ + slot_commands(slot),
{
    match slot {
        SidebarSlot::All => {
            commands.push(AppCommand::SetFavoritesFilter(false));
            commands.push(AppCommand::SetCategoryFilter(None));
        },
        SidebarSlot::Category(category) => {
            commands.push(AppCommand::SetFavoritesFilter(false));
            commands.push(AppCommand::SetCategoryFilter(Some(category)));
        },
        SidebarSlot::Featured => {
            commands.push(AppCommand::SetFavoritesFilter(false));
            commands.push(AppCommand::SetSortOrder(SortOrder::Rating));
        },
        SidebarSlot::Downloads => {
            commands.push(AppCommand::SetFavoritesFilter(false));
            commands.push(AppCommand::SetSortOrder(SortOrder::Downloads));
        },
        SidebarSlot::Recent => {
            commands.push(AppCommand::SetFavoritesFilter(false));
            commands.push(AppCommand::SetSortOrder(SortOrder::Recent));
        },
        SidebarSlot::Favorites => {
            commands.push(AppCommand::SetFavoritesFilter(true));
        },
    }
    assert(commands@ =~= old(commands)@ + slot_commands(slot));
}

/// Row `k + 1` is the `k`-th counted category, and there are five rows more
/// than categories.
pub proof fn sidebar_lists_each_counted_category(category_counts: Seq<(Category, usize)>, k: int)
    requires
        0 <= k < category_counts.len(),
    ensures
        slots_for(category_counts)[k + 1] == SidebarSlot::Category(category_counts[k].0),
        slots_for(category_counts).len() == category_counts.len() + 5,
{
}

} // verus!
