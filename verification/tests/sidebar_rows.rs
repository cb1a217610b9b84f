use vitaforge::chrome_icons::ChromeIcon;
use vitaforge::data::{Category, SortOrder};
use vitaforge::input::{AppCommand, ContentTypeGroup, StoreTab};
use vitaforge::sidebar::{active_sidebar_index, apply_sidebar_slot, sidebar_slots, SidebarSlot};

#[test]
fn rows_are_all_then_categories_then_shortcuts() {
    let slots = sidebar_slots(&[(Category::Port, 3), (Category::Emulator, 1)]);
    assert_eq!(
        slots,
        vec![
            SidebarSlot::All,
            SidebarSlot::Category(Category::Port),
            SidebarSlot::Category(Category::Emulator),
            SidebarSlot::Featured,
            SidebarSlot::Downloads,
            SidebarSlot::Recent,
            SidebarSlot::Favorites,
        ]
    );
}

#[test]
fn the_highlight_follows_the_filters() {
    let slots = sidebar_slots(&[(Category::Port, 3)]);
    assert_eq!(active_sidebar_index(&slots, None, true, SortOrder::Name), 5);
    assert_eq!(active_sidebar_index(&slots, Some(Category::Port), false, SortOrder::Rating), 1);
    assert_eq!(active_sidebar_index(&slots, None, false, SortOrder::Rating), 2);
    assert_eq!(active_sidebar_index(&slots, None, false, SortOrder::Downloads), 3);
    assert_eq!(active_sidebar_index(&slots, None, false, SortOrder::Recent), 0);
    assert_eq!(active_sidebar_index(&slots, Some(Category::Plugin), false, SortOrder::Recent), 0);
}

#[test]
fn rows_issue_their_commands() {
    let mut commands = Vec::new();
    apply_sidebar_slot(SidebarSlot::Category(Category::Tool), &mut commands);
    apply_sidebar_slot(SidebarSlot::Favorites, &mut commands);
    apply_sidebar_slot(SidebarSlot::Featured, &mut commands);
    assert_eq!(
        commands,
        vec![
            AppCommand::SetFavoritesFilter(false),
            AppCommand::SetCategoryFilter(Some(Category::Tool)),
            AppCommand::SetFavoritesFilter(true),
            AppCommand::SetFavoritesFilter(false),
            AppCommand::SetSortOrder(SortOrder::Rating),
        ]
    );
}

#[test]
fn every_chrome_icon_has_its_own_atlas_cell() {
    let all = ChromeIcon::all();
    assert_eq!(all.len(), 18);
    for (i, icon) in all.iter().enumerate() {
        assert_eq!(icon.atlas_index(), i);
        assert!(!icon.asset_name().is_empty());
    }
    assert_eq!(ChromeIcon::for_category(Category::Tool), ChromeIcon::Apps);
    assert_eq!(ChromeIcon::for_group(ContentTypeGroup::Plugins), ChromeIcon::Plugins);
    assert_eq!(ChromeIcon::for_store_tab(StoreTab::Library), ChromeIcon::Library);
    assert_eq!(ChromeIcon::Ps1.asset_name(), "disc-3");
}
