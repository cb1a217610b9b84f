use vitaforge::audio::Sfx;
use vitaforge::controller::{
    handle_command, tick, DetailModel, Effect, InstallStatus, Screen, StoreEvent, StoreModel,
};
use vitaforge::data::{Category, SortDirection, SortOrder};
use vitaforge::i18n::Language;
use vitaforge::input::{AppCommand, ContentTypeGroup, InputCommand, StoreTab};
use vitaforge::navigation::{FocusPane, Selection};

fn loaded(grid_len: usize) -> StoreModel {
    let mut m = StoreModel::new(Language::English, true);
    assert_eq!(m.screen, Screen::Loading);
    let e = tick(&mut m, StoreEvent::CatalogFetched);
    assert_eq!(e, vec![Effect::LoadCatalog { from_cache: false, precache: true }, Effect::RescanInstalled]);
    assert_eq!(m.screen, Screen::Catalog);
    tick(&mut m, StoreEvent::GridRefreshed { len: grid_len, kept: None });
    tick(&mut m, StoreEvent::SidebarSynced { cursor: 0, len: 4 });
    m
}

fn detail(entry: usize, has_data: bool) -> DetailModel {
    DetailModel {
        entry,
        screenshots: 2,
        has_data,
        lightbox: None,
        data_prompt: false,
        comment_entry_requested: false,
        user_liked: false,
        likes_count: 7,
        user_rating: None,
        ratings_count: 3,
        comments_count: 0,
    }
}

fn opened(has_data: bool) -> StoreModel {
    let mut m = loaded(10);
    let e = handle_command(&mut m, AppCommand::SelectApp { index: 4 });
    assert_eq!(e, vec![Effect::OpenApp(4)]);
    let e = tick(&mut m, StoreEvent::EntryOpened { detail: detail(42, has_data), position: Some(4) });
    assert_eq!(e, vec![Effect::FetchComments, Effect::FetchSocial, Effect::Play(Sfx::IntoDetail)]);
    m
}

#[test]
fn a_loaded_catalog_starts_on_recent_with_the_first_tile() {
    let m = loaded(3);
    assert_eq!(m.catalog.sort_order, SortOrder::Recent);
    assert_eq!(m.catalog.sort_direction, SortDirection::Desc);
    assert_eq!(m.catalog.content_group, ContentTypeGroup::Home);
    assert_eq!(m.catalog.selection, Selection { selected: 0, active: true });
    let mut empty = loaded(0);
    assert_eq!(empty.catalog.selection, Selection { selected: 0, active: false });
    let e = tick(&mut empty, StoreEvent::CatalogFetchFailed);
    assert!(e.is_empty());
}

#[test]
fn a_failed_fetch_falls_back_to_the_cache() {
    let mut m = StoreModel::new(Language::Spanish, false);
    let e = tick(&mut m, StoreEvent::CatalogFetchFailed);
    assert_eq!(e, vec![Effect::LoadCatalog { from_cache: true, precache: false }, Effect::RescanInstalled]);
    assert_eq!(m.screen, Screen::Catalog);
}

#[test]
fn a_sort_change_saves_the_sort_and_selects_the_first_tile() {
    let mut m = loaded(12);
    handle_command(&mut m, AppCommand::Input(InputCommand::MoveRight));
    handle_command(&mut m, AppCommand::Input(InputCommand::MoveDown));
    assert_eq!(m.catalog.selection, Selection { selected: 7, active: true });
    let e = handle_command(&mut m, AppCommand::SetSortOrder(SortOrder::Name));
    assert_eq!(
        e,
        vec![
            Effect::Resort,
            Effect::SaveSort(SortOrder::Name, SortDirection::Asc),
            Effect::SyncSidebarCursor,
            Effect::Play(Sfx::Activation)
        ]
    );
    tick(&mut m, StoreEvent::GridRefreshed { len: 12, kept: None });
    assert_eq!(m.catalog.selection, Selection { selected: 0, active: true });
    let e = handle_command(&mut m, AppCommand::SetSortOrder(SortOrder::Name));
    assert_eq!(e[1], Effect::SaveSort(SortOrder::Name, SortDirection::Desc));
    let e = handle_command(&mut m, AppCommand::FlipSortDirection);
    assert_eq!(e[1], Effect::SaveSort(SortOrder::Name, SortDirection::Asc));
}

#[test]
fn back_clears_filters_before_anything_else_in_the_catalog() {
    let mut m = loaded(5);
    let e = handle_command(&mut m, AppCommand::SetCategoryFilter(Some(Category::Emulator)));
    assert_eq!(e, vec![Effect::RefreshGrid, Effect::SyncSidebarCursor, Effect::Play(Sfx::TabTransition)]);
    handle_command(&mut m, AppCommand::SetSearchQuery("retro".to_owned()));
    let e = handle_command(&mut m, AppCommand::Input(InputCommand::Back));
    assert_eq!(e, vec![Effect::RefreshGrid, Effect::SyncSidebarCursor]);
    assert_eq!(m.catalog.category_filter, None);
    assert_eq!(m.catalog.search_query, None);
    assert!(handle_command(&mut m, AppCommand::Input(InputCommand::Back)).is_empty());
}

#[test]
fn back_closes_the_screenshot_then_the_prompt_then_the_detail() {
    let mut m = opened(true);
    handle_command(&mut m, AppCommand::OpenScreenshot(1));
    assert!(matches!(m.screen, Screen::Detail(d) if d.lightbox == Some(1)));
    assert!(handle_command(&mut m, AppCommand::OpenScreenshot(5)).is_empty());
    handle_command(&mut m, AppCommand::Input(InputCommand::Back));
    assert!(matches!(m.screen, Screen::Detail(d) if d.lightbox.is_none()));
    handle_command(&mut m, AppCommand::InstallCurrent);
    assert!(matches!(m.screen, Screen::Detail(d) if d.data_prompt));
    let e = handle_command(&mut m, AppCommand::Input(InputCommand::Back));
    assert_eq!(e, vec![Effect::Play(Sfx::HideModal)]);
    let e = handle_command(&mut m, AppCommand::Input(InputCommand::Back));
    assert_eq!(e, vec![Effect::CopySocialBack, Effect::RefreshGridKeepingSelection, Effect::Play(Sfx::OutOfDetail)]);
    assert_eq!(m.screen, Screen::Catalog);
    assert_eq!(m.catalog.selection, Selection { selected: 4, active: true });
    assert!(m.needs_installed_rescan);
    let e = tick(&mut m, StoreEvent::Frame);
    assert_eq!(e, vec![Effect::RescanInstalled]);
    tick(&mut m, StoreEvent::InstalledScanned { outdated: 2 });
    assert!(!m.needs_installed_rescan);
}

#[test]
fn installing_asks_about_game_data_first() {
    let mut m = opened(true);
    let e = handle_command(&mut m, AppCommand::InstallCurrent);
    assert_eq!(e, vec![Effect::Play(Sfx::ShowModal)]);
    let e = handle_command(&mut m, AppCommand::Input(InputCommand::Confirm));
    assert_eq!(e, vec![Effect::StartInstall, Effect::Play(Sfx::Launch), Effect::NotifyInstallStarted]);
    assert_eq!(m.install, Some(InstallStatus::Working { cancellable: false }));
    assert!(handle_command(&mut m, AppCommand::CancelInstall).is_empty());
    assert!(handle_command(&mut m, AppCommand::Input(InputCommand::Back)).is_empty());
    tick(&mut m, StoreEvent::InstallProgressed(InstallStatus::Working { cancellable: true }));
    assert_eq!(handle_command(&mut m, AppCommand::CancelInstall), vec![Effect::CancelInstall]);
    let e = tick(&mut m, StoreEvent::InstallProgressed(InstallStatus::Done));
    assert_eq!(e, vec![Effect::MarkInstalled, Effect::NotifyInstallFinished, Effect::CountInstall]);
    assert!(tick(&mut m, StoreEvent::InstallProgressed(InstallStatus::Done)).is_empty());
    handle_command(&mut m, AppCommand::DismissInstall);
    assert_eq!(m.install, None);
}

#[test]
fn a_like_moves_the_count_by_one() {
    let mut m = opened(false);
    let e = handle_command(&mut m, AppCommand::ToggleLike);
    assert_eq!(e, vec![Effect::SendLike(true), Effect::Play(Sfx::ToggleOn)]);
    assert!(matches!(m.screen, Screen::Detail(d) if d.user_liked && d.likes_count == 8));
    handle_command(&mut m, AppCommand::ToggleLike);
    assert!(matches!(m.screen, Screen::Detail(d) if !d.user_liked && d.likes_count == 7));
    let e = handle_command(&mut m, AppCommand::RateCurrent(4));
    assert_eq!(e, vec![Effect::AverageInRating(4), Effect::PostRating(4)]);
    assert_eq!(handle_command(&mut m, AppCommand::RateCurrent(5)), vec![Effect::PostRating(5)]);
    assert!(matches!(m.screen, Screen::Detail(d) if d.ratings_count == 4 && d.user_rating == Some(5)));
    assert!(handle_command(&mut m, AppCommand::SubmitComment("   ".to_owned())).is_empty());
    let e = handle_command(&mut m, AppCommand::SubmitComment(" nice ".to_owned()));
    assert_eq!(e, vec![Effect::PostComment(" nice ".to_owned())]);
    tick(&mut m, StoreEvent::CommentsArrived { entry: 41, count: 9 });
    assert!(matches!(m.screen, Screen::Detail(d) if d.comments_count == 1));
    tick(&mut m, StoreEvent::CommentsArrived { entry: 42, count: 9 });
    assert!(matches!(m.screen, Screen::Detail(d) if d.comments_count == 9));
}

#[test]
fn the_category_keys_cycle_groups_then_tabs() {
    let mut m = loaded(5);
    handle_command(&mut m, AppCommand::Input(InputCommand::CategoryNext));
    assert_eq!(m.catalog.content_group, ContentTypeGroup::Games);
    for _ in 0..3 {
        handle_command(&mut m, AppCommand::Input(InputCommand::CategoryNext));
    }
    assert_eq!(m.catalog.content_group, ContentTypeGroup::Plugins);
    let e = handle_command(&mut m, AppCommand::Input(InputCommand::CategoryNext));
    assert_eq!(m.catalog.tab, StoreTab::Library);
    assert_eq!(e, vec![Effect::ApplyInstallFilter { updates_only: false }, Effect::Play(Sfx::TabTransition)]);
    handle_command(&mut m, AppCommand::Input(InputCommand::CategoryNext));
    assert_eq!(m.catalog.tab, StoreTab::Updates);
    handle_command(&mut m, AppCommand::Input(InputCommand::CategoryNext));
    assert_eq!(m.catalog.tab, StoreTab::Discover);
    assert_eq!(m.catalog.content_group, ContentTypeGroup::Home);
    handle_command(&mut m, AppCommand::Input(InputCommand::CategoryPrev));
    assert_eq!(m.catalog.tab, StoreTab::Updates);
}

#[test]
fn the_left_edge_enters_the_sidebar() {
    let mut m = loaded(8);
    let e = handle_command(&mut m, AppCommand::Input(InputCommand::MoveLeft));
    assert_eq!(e, vec![Effect::SyncSidebarCursor, Effect::Play(Sfx::Navigate)]);
    assert_eq!(m.catalog.focus_pane, FocusPane::Sidebar);
    let e = handle_command(&mut m, AppCommand::Input(InputCommand::MoveDown));
    assert_eq!(e, vec![Effect::ApplySidebarSlot, Effect::Play(Sfx::Navigate)]);
    assert_eq!(m.catalog.sidebar_cursor, 1);
    assert!(handle_command(&mut m, AppCommand::Input(InputCommand::MoveUp)).len() == 2);
    assert!(handle_command(&mut m, AppCommand::Input(InputCommand::MoveUp)).is_empty());
    handle_command(&mut m, AppCommand::Input(InputCommand::MoveRight));
    assert_eq!(m.catalog.focus_pane, FocusPane::Grid);
}

#[test]
fn settings_open_on_the_language_and_confirm_its_rows() {
    let mut m = loaded(2);
    let e = handle_command(&mut m, AppCommand::OpenSettings);
    assert_eq!(e, vec![Effect::RefreshCacheStats, Effect::ClearNotice, Effect::Play(Sfx::MenuFlyIn)]);
    assert_eq!(m.screen, Screen::Settings { selected: 0 });
    handle_command(&mut m, AppCommand::Input(InputCommand::MoveDown));
    let e = handle_command(&mut m, AppCommand::Input(InputCommand::Confirm));
    assert_eq!(e, vec![Effect::SaveLanguage(Language::Spanish)]);
    assert_eq!(m.language, Language::Spanish);
    for _ in 0..10 {
        handle_command(&mut m, AppCommand::Input(InputCommand::MoveDown));
    }
    assert_eq!(m.screen, Screen::Settings { selected: 8 });
    let e = handle_command(&mut m, AppCommand::Input(InputCommand::Confirm));
    assert_eq!(e, vec![Effect::SaveInstallNotifications(false)]);
    handle_command(&mut m, AppCommand::PurgeAllCache);
    assert!(m.icons_need_clear);
    assert_eq!(tick(&mut m, StoreEvent::Frame), vec![Effect::ClearResidentIcons]);
    handle_command(&mut m, AppCommand::Input(InputCommand::Back));
    assert_eq!(m.screen, Screen::Catalog);
}

#[test]
fn each_new_failure_reason_is_notified() {
    let mut m = opened(false);
    handle_command(&mut m, AppCommand::InstallCurrent);
    let e = tick(&mut m, StoreEvent::InstallProgressed(InstallStatus::Failed("disk full".to_owned())));
    assert_eq!(e, vec![Effect::NotifyInstallFailed]);
    assert!(tick(&mut m, StoreEvent::InstallProgressed(InstallStatus::Failed("disk full".to_owned()))).is_empty());
    let e = tick(&mut m, StoreEvent::InstallProgressed(InstallStatus::Failed("network".to_owned())));
    assert_eq!(e, vec![Effect::NotifyInstallFailed]);
    assert_eq!(m.install, Some(InstallStatus::Failed("network".to_owned())));
}
