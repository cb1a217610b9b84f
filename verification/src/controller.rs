//! The store's decisions: how a command from the user, or news from the
//! outside work (a catalog fetch, an install, a refreshed grid), changes the
//! screen and the catalog state, and which outside work comes next. The
//! work itself (fetching, installing, computing grids, saving settings,
//! playing sounds) is named by an `Effect` and done by the program around
//! the library, which reports back with a `StoreEvent`.

use vstd::prelude::*;
use crate::audio::Sfx;
use crate::data::{Category, SortDirection, SortOrder, SourceCatalog};
use crate::i18n::Language;
use crate::input::{AppCommand, ContentTypeGroup, InputCommand, StoreTab};
use crate::navigation::{FocusPane, Selection};

verus! {

/// Tiles per grid row.
pub const GRID_COLUMNS: usize = 6;

/// How far one press scrolls the detail page, in points.
pub const DETAIL_SCROLL_STEP: i32 = 60;

/// What an install job reports; a failure carries its reason.
#[derive(Debug, Clone, PartialEq, Eq)]
pub enum InstallStatus {
    Working { cancellable: bool },
    Done,
    Failed(String),
}

/// The job reports something other than it did: another state, or a failure
/// with another reason.
pub open spec fn status_changed(a: InstallStatus, b: InstallStatus) -> bool {
    match (a, b) {
        (InstallStatus::Working { cancellable: x }, InstallStatus::Working { cancellable: y }) => x != y,
        (InstallStatus::Done, InstallStatus::Done) => false,
        (InstallStatus::Failed(x), InstallStatus::Failed(y)) => x@ != y@,
        _ => true,
    }
}

/// What the detail screen shows of its entry, and its state.
#[derive(Debug, Clone, Copy, PartialEq, Eq, Structural)]
pub struct DetailModel {
    pub entry: usize,
    pub screenshots: usize,
    pub has_data: bool,
    pub lightbox: Option<usize>,
    pub data_prompt: bool,
    pub comment_entry_requested: bool,
    pub user_liked: bool,
    pub likes_count: u32,
    pub user_rating: Option<u8>,
    pub ratings_count: u32,
    pub comments_count: u32,
}

/// The screen shown.
#[derive(Debug, Clone, Copy, PartialEq, Eq, Structural)]
pub enum Screen {
    Loading,
    Catalog,
    Detail(DetailModel),
    Settings { selected: usize },
}

/// The catalog browser's state: tab, filters, sort, selection and cursors.
/// The grid itself is computed outside (`RefreshGrid`) and reported back
/// (`GridRefreshed`).
#[derive(Debug)]
pub struct CatalogModel {
    pub tab: StoreTab,
    pub content_group: ContentTypeGroup,
    pub search_query: Option<String>,
    pub search_requested: bool,
    pub category_filter: Option<Category>,
    pub favorites_filter: bool,
    pub genre_filter: Option<String>,
    pub source_filter: Option<SourceCatalog>,
    pub sort_order: SortOrder,
    pub sort_direction: SortDirection,
    pub selection: Selection,
    pub grid_len: usize,
    pub focus_pane: FocusPane,
    pub sidebar_cursor: usize,
    pub sidebar_len: usize,
}

/// The whole store.
#[derive(Debug)]
pub struct StoreModel {
    pub screen: Screen,
    pub catalog: CatalogModel,
    pub install: Option<InstallStatus>,
    pub self_update: bool,
    pub language: Language,
    pub install_notifications: bool,
    pub updates_notified: bool,
    pub needs_installed_rescan: bool,
    pub icons_need_clear: bool,
}

/// The outside work a decision asks for.
#[derive(Debug, PartialEq)]
pub enum Effect {
    Play(Sfx),
    /// Recompute the grid from the sort and filters (answer `GridRefreshed`).
    RefreshGrid,
    /// Recompute the grid, keeping the selected entry selected if it stays.
    RefreshGridKeepingSelection,
    /// Show the installed entries, or only the outdated ones.
    ApplyInstallFilter { updates_only: bool },
    /// Recompute the catalog and category counts.
    RecomputeCounts,
    /// Recompute the counts of the content group's categories.
    RecomputeGroupCounts,
    /// Sort the catalog again, recompute the counts and the grid.
    Resort,
    SaveSort(SortOrder, SortDirection),
    /// Put the sidebar cursor on the active slot (answer `SidebarSynced`).
    SyncSidebarCursor,
    /// Apply the sidebar slot under the cursor.
    ApplySidebarSlot,
    /// Keep only the categories of a content group in the grid.
    ShowContentGroup(ContentTypeGroup),
    /// Open the entry at a grid position (answer `EntryOpened`).
    OpenApp(usize),
    /// Open the entry with an id (answer `EntryOpened`).
    OpenAppById(String),
    FetchComments,
    FetchSocial,
    ScrollDetail(i32),
    /// Copy the detail's like, rating and comment counts back to the catalog.
    CopySocialBack,
    StartInstall,
    StartSelfUpdate,
    CancelInstall,
    NotifyInstallStarted,
    NotifyInstallFinished,
    /// Tell the user the install failed, with the reason it reports.
    NotifyInstallFailed,
    NotifyUpdatesAvailable(usize),
    NotifySelfUpdate,
    MarkInstalled,
    CountInstall,
    SaveLanguage(Language),
    SaveInstallNotifications(bool),
    ClearIconCache,
    ClearCatalogCache,
    PurgeAllCache,
    FetchCatalog,
    RefreshCacheStats,
    ClearNotice,
    ClearResidentIcons,
    RescanInstalled,
    SendLike(bool),
    PostRating(u8),
    /// Fold a new score into the shown average rating.
    AverageInRating(u8),
    /// Post the comment, trimmed, and show it first.
    PostComment(String),
    /// Build the catalog from the fetched entries (or the cache) and
    /// precache its art when it is first shown.
    LoadCatalog { from_cache: bool, precache: bool },
}

/// News from the outside work.
#[derive(Debug)]
pub enum StoreEvent {
    /// A frame begins.
    Frame,
    /// The grid was recomputed: its length, and where the kept selection now
    /// is, if it was kept.
    GridRefreshed { len: usize, kept: Option<usize> },
    /// The sidebar's slots and the active one.
    SidebarSynced { cursor: usize, len: usize },
    /// The entry asked for opened: what its detail shows, and its grid
    /// position if it is in the grid.
    EntryOpened { detail: DetailModel, position: Option<usize> },
    /// The live catalog arrived.
    CatalogFetched,
    /// The live catalog fetch failed, or never answered in time.
    CatalogFetchFailed,
    /// The installed entries were scanned; `outdated` of them have updates.
    InstalledScanned { outdated: usize },
    /// The install job reports.
    InstallProgressed(InstallStatus),
    /// A newer release of the store was found.
    SelfUpdateFound,
    /// The social counts of an entry arrived.
    SocialArrived { entry: usize, user_liked: bool, likes_count: u32, user_rating: Option<u8>, ratings_count: u32 },
    /// The comments of an entry arrived.
    CommentsArrived { entry: usize, count: u32 },
}

/// An install is running.
pub open spec fn install_busy(m: StoreModel) -> bool {
    m.install matches Some(InstallStatus::Working { .. })
}

/// The search box holds text.
pub open spec fn has_query(c: CatalogModel) -> bool {
    c.search_query matches Some(q) && q@.len() > 0
}

/// The row of a language in the settings list.
pub open spec fn language_row(l: Language) -> usize {
    match l {
        Language::English => 0,
        Language::Spanish => 1,
    }
}

/// The content groups in the order the category keys cycle them.
pub open spec fn group_order() -> Seq<ContentTypeGroup> {
    seq![
        ContentTypeGroup::Home,
        ContentTypeGroup::Games,
        ContentTypeGroup::Apps,
        ContentTypeGroup::Emulators,
        ContentTypeGroup::Plugins,
    ]
}

/// The position of a group in `group_order`.
pub open spec fn group_index(g: ContentTypeGroup) -> int {
    match g {
        ContentTypeGroup::Home => 0,
        ContentTypeGroup::Games => 1,
        ContentTypeGroup::Apps => 2,
        ContentTypeGroup::Emulators => 3,
        ContentTypeGroup::Plugins => 4,
    }
}

/// The grid work a tab asks for.
pub open spec fn tab_grid_effect(tab: StoreTab) -> Effect {
    match tab {
        StoreTab::Library => Effect::ApplyInstallFilter { updates_only: false },
        StoreTab::Updates => Effect::ApplyInstallFilter { updates_only: true },
        _ => Effect::RefreshGrid,
    }
}

/// The catalog after switching to a tab, and the work it asks for: the
/// browsing tab clears the search and the category and favourite filters;
/// the library and update tabs clear the search and the category filter and
/// show the installed entries.
pub open spec fn with_tab(c: CatalogModel, tab: StoreTab) -> (CatalogModel, Seq<Effect>) {
    match tab {
        StoreTab::Discover => (
            CatalogModel { tab, focus_pane: FocusPane::Grid, search_query: None, search_requested: false,
                category_filter: None, favorites_filter: false, ..c },
            seq![Effect::RefreshGrid, Effect::SyncSidebarCursor],
        ),
        StoreTab::Library | StoreTab::Updates => (
            CatalogModel { tab, focus_pane: FocusPane::Grid, search_query: None, search_requested: false,
                category_filter: None, ..c },
            seq![tab_grid_effect(tab)],
        ),
        StoreTab::Search => (CatalogModel { tab, focus_pane: FocusPane::Grid, ..c }, seq![Effect::RefreshGrid]),
    }
}

/// The catalog after choosing a content group: the home group is sorted by
/// date, newest first; other groups recount their categories.
pub open spec fn with_group(c: CatalogModel, g: ContentTypeGroup) -> (CatalogModel, Seq<Effect>) {
    if g == ContentTypeGroup::Home {
        (
            CatalogModel { content_group: g, sort_order: SortOrder::Recent, sort_direction: SortDirection::Desc,
                focus_pane: FocusPane::Grid, ..c },
            seq![Effect::ShowContentGroup(g), Effect::Resort, Effect::RefreshGrid, Effect::SyncSidebarCursor],
        )
    } else {
        (
            CatalogModel { content_group: g, focus_pane: FocusPane::Grid, ..c },
            seq![Effect::ShowContentGroup(g), Effect::RecomputeGroupCounts, Effect::RefreshGrid, Effect::SyncSidebarCursor],
        )
    }
}

/// The catalog after leaving the sidebar: the grid has the focus, and its
/// selection shows when it has tiles.
pub open spec fn left_sidebar(c: CatalogModel) -> CatalogModel {
    CatalogModel {
        focus_pane: FocusPane::Grid,
        selection: if c.grid_len > 0 { Selection { active: true, ..c.selection } } else { c.selection },
        ..c
    }
}

/// A detail screen's state, if it is shown.
pub open spec fn detail_of(m: StoreModel) -> Option<DetailModel> {
    match m.screen {
        Screen::Detail(d) => Some(d),
        _ => None,
    }
}

/// The store with the detail screen `d`.
pub open spec fn with_detail(m: StoreModel, d: DetailModel) -> StoreModel {
    StoreModel { screen: Screen::Detail(d), ..m }
}

/// Leaving a detail screen for the catalog: the social counts go back to the
/// catalog, the search box closes, the tab's grid is recomputed keeping the
/// selection, and the installed entries are scanned again.
pub open spec fn leave_detail(m: StoreModel) -> (StoreModel, Seq<Effect>) {
    let grid = match m.catalog.tab {
        StoreTab::Library | StoreTab::Updates => tab_grid_effect(m.catalog.tab),
        _ => Effect::RefreshGridKeepingSelection,
    };
    (
        StoreModel { screen: Screen::Catalog, catalog: CatalogModel { search_requested: false, ..m.catalog },
            needs_installed_rescan: true, ..m },
        seq![Effect::CopySocialBack, grid, Effect::Play(Sfx::OutOfDetail)],
    )
}

/// Going back to the catalog: nothing while an install runs; a shown
/// screenshot closes first; in the catalog a search is cleared; a detail
/// screen is left.
pub open spec fn back_to_catalog(m: StoreModel) -> (StoreModel, Seq<Effect>) {
    if install_busy(m) {
        (m, seq![])
    } else {
        match m.screen {
            Screen::Detail(d) => if d.lightbox is Some {
                (with_detail(m, DetailModel { lightbox: None, ..d }), seq![])
            } else {
                leave_detail(m)
            },
            Screen::Catalog => if has_query(m.catalog) || m.catalog.search_requested {
                (StoreModel { catalog: CatalogModel { search_query: None, search_requested: false, ..m.catalog }, ..m },
                    seq![Effect::RefreshGrid])
            } else {
                (m, seq![])
            },
            _ => (m, seq![]),
        }
    }
}

/// What a command other than a key press does.
pub open spec fn command_step(m: StoreModel, command: AppCommand) -> (StoreModel, Seq<Effect>) {
    let c = m.catalog;
    let in_catalog = m.screen == Screen::Catalog;
    match command {
        AppCommand::Input(_) => (m, seq![]),
        AppCommand::SetSearchQuery(q) => if in_catalog {
            (StoreModel { catalog: CatalogModel { search_query: Some(q), ..c }, ..m }, seq![tab_grid_effect(c.tab)])
        } else {
            (m, seq![])
        },
        AppCommand::RequestSearch => if in_catalog {
            (StoreModel { catalog: CatalogModel { search_requested: true, ..c }, ..m }, seq![Effect::Play(Sfx::Typing)])
        } else {
            (m, seq![])
        },
        AppCommand::CloseSearch => if in_catalog {
            (StoreModel { catalog: CatalogModel { search_requested: false, ..c }, ..m }, seq![])
        } else {
            (m, seq![])
        },
        AppCommand::SetCategoryFilter(cat) => if in_catalog {
            (
                StoreModel { catalog: CatalogModel { category_filter: cat, favorites_filter: false, ..c }, ..m },
                (if c.tab == StoreTab::Discover { seq![Effect::RefreshGrid] } else { seq![] })
                    + seq![Effect::SyncSidebarCursor, Effect::Play(Sfx::TabTransition)],
            )
        } else {
            (m, seq![])
        },
        AppCommand::SetFavoritesFilter(on) => if in_catalog {
            (
                StoreModel { catalog: CatalogModel { tab: StoreTab::Discover, favorites_filter: on,
                    category_filter: if on { None } else { c.category_filter }, ..c }, ..m },
                seq![Effect::RefreshGrid, Effect::SyncSidebarCursor, Effect::Play(Sfx::TabTransition)],
            )
        } else {
            (m, seq![])
        },
        AppCommand::SetGenreFilter(g) => if in_catalog {
            (
                StoreModel { catalog: CatalogModel { genre_filter: g, ..c }, ..m },
                (if c.tab == StoreTab::Discover { seq![Effect::RefreshGrid] } else { seq![] })
                    + seq![Effect::Play(Sfx::TabTransition)],
            )
        } else {
            (m, seq![])
        },
        AppCommand::SetSourceFilter(src) => if in_catalog {
            (
                StoreModel { catalog: CatalogModel { source_filter: src, category_filter: None, genre_filter: None, ..c }, ..m },
                seq![Effect::RecomputeCounts, tab_grid_effect(c.tab), Effect::Play(Sfx::TabTransition)],
            )
        } else {
            (m, seq![])
        },
        AppCommand::SetSortOrder(o) => if in_catalog {
            let (order, direction) = crate::catalog::next_sort(c.sort_order, c.sort_direction, o);
            (
                StoreModel { catalog: CatalogModel { sort_order: order, sort_direction: direction, ..c }, ..m },
                seq![Effect::Resort, Effect::SaveSort(order, direction), Effect::SyncSidebarCursor, Effect::Play(Sfx::Activation)],
            )
        } else {
            (m, seq![])
        },
        AppCommand::FlipSortDirection => if in_catalog {
            let direction = crate::data::flip(c.sort_direction);
            (
                StoreModel { catalog: CatalogModel { sort_direction: direction, ..c }, ..m },
                seq![Effect::Resort, Effect::SaveSort(c.sort_order, direction), Effect::Play(Sfx::Activation)],
            )
        } else {
            (m, seq![])
        },
        AppCommand::SelectApp { index } => if in_catalog && index < c.grid_len {
            (m, seq![Effect::OpenApp(index)])
        } else {
            (m, seq![])
        },
        AppCommand::SelectAppById(id) => if in_catalog { (m, seq![Effect::OpenAppById(id)]) } else { (m, seq![]) },
        AppCommand::SetStoreTab(tab) => match m.screen {
            Screen::Catalog => {
                let (c2, e) = with_tab(c, tab);
                (StoreModel { catalog: c2, ..m }, e + seq![Effect::Play(Sfx::TabTransition)])
            },
            Screen::Detail(_) => if install_busy(m) {
                (m, seq![])
            } else {
                let (c2, e) = with_tab(c, tab);
                (
                    StoreModel { screen: Screen::Catalog, catalog: c2, needs_installed_rescan: true, ..m },
                    seq![Effect::CopySocialBack] + e + seq![Effect::Play(Sfx::TabTransition)],
                )
            },
            _ => (m, seq![]),
        },
        AppCommand::SeeAllRail(_) => (m, seq![]),
        AppCommand::BackToDiscoverHome => (m, seq![]),
        AppCommand::MoreByAuthor(author) => if install_busy(m) || detail_of(m) is None {
            (m, seq![])
        } else {
            (
                StoreModel { screen: Screen::Catalog, catalog: CatalogModel { tab: StoreTab::Discover,
                    search_query: Some(author), category_filter: None, ..c }, needs_installed_rescan: true, ..m },
                seq![Effect::CopySocialBack, Effect::RefreshGrid, Effect::Play(Sfx::OutOfDetail)],
            )
        },
        AppCommand::OpenScreenshot(i) => match detail_of(m) {
            Some(d) => if i < d.screenshots { (with_detail(m, DetailModel { lightbox: Some(i), ..d }), seq![]) } else { (m, seq![]) },
            None => (m, seq![]),
        },
        AppCommand::CloseScreenshot => match detail_of(m) {
            Some(d) => (with_detail(m, DetailModel { lightbox: None, ..d }), seq![]),
            None => (m, seq![]),
        },
        AppCommand::BackToCatalog => back_to_catalog(m),
        AppCommand::InstallCurrent => match detail_of(m) {
            Some(d) => if install_busy(m) {
                (m, seq![])
            } else if d.has_data && !d.data_prompt {
                (with_detail(m, DetailModel { data_prompt: true, ..d }), seq![Effect::Play(Sfx::ShowModal)])
            } else {
                (
                    StoreModel { screen: Screen::Detail(DetailModel { data_prompt: false, ..d }),
                        install: Some(InstallStatus::Working { cancellable: false }), ..m },
                    seq![Effect::StartInstall, Effect::Play(Sfx::Launch)]
                        + (if m.install_notifications { seq![Effect::NotifyInstallStarted] } else { seq![] }),
                )
            },
            None => (m, seq![]),
        },
        AppCommand::CancelDataPrompt => match detail_of(m) {
            Some(d) => if d.data_prompt {
                (with_detail(m, DetailModel { data_prompt: false, ..d }), seq![Effect::Play(Sfx::HideModal)])
            } else {
                (m, seq![])
            },
            None => (m, seq![]),
        },
        AppCommand::DismissInstall => (StoreModel { install: None, ..m }, seq![]),
        AppCommand::SelfUpdate => if m.self_update && !install_busy(m) {
            (
                StoreModel { install: Some(InstallStatus::Working { cancellable: false }), ..m },
                seq![Effect::StartSelfUpdate, Effect::Play(Sfx::Launch)]
                    + (if m.install_notifications { seq![Effect::NotifyInstallStarted] } else { seq![] }),
            )
        } else {
            (m, seq![])
        },
        AppCommand::CancelInstall => if m.install == Some(InstallStatus::Working { cancellable: true }) {
            (m, seq![Effect::CancelInstall])
        } else {
            (m, seq![])
        },
        AppCommand::OpenSettings => match m.screen {
            Screen::Catalog | Screen::Detail(_) => (
                StoreModel { screen: Screen::Settings { selected: language_row(m.language) }, ..m },
                seq![Effect::RefreshCacheStats, Effect::ClearNotice, Effect::Play(Sfx::MenuFlyIn)],
            ),
            _ => (m, seq![]),
        },
        AppCommand::CloseSettings => match m.screen {
            Screen::Settings { .. } => (
                StoreModel { screen: Screen::Catalog, needs_installed_rescan: true, ..m },
                seq![Effect::Play(Sfx::MenuFlyOut)],
            ),
            _ => (m, seq![]),
        },
        AppCommand::SetLanguage(l) => (
            StoreModel {
                language: l,
                screen: match m.screen {
                    Screen::Settings { .. } => Screen::Settings { selected: language_row(l) },
                    other => other,
                },
                ..m
            },
            seq![Effect::SaveLanguage(l)],
        ),
        AppCommand::ToggleInstallNotifications => (
            StoreModel { install_notifications: !m.install_notifications, ..m },
            seq![Effect::SaveInstallNotifications(!m.install_notifications)],
        ),
        AppCommand::ClearIconCache => (
            StoreModel { icons_need_clear: true, ..m },
            seq![Effect::ClearIconCache, Effect::RefreshCacheStats],
        ),
        AppCommand::ClearCatalogCache => (m, seq![Effect::ClearCatalogCache, Effect::FetchCatalog, Effect::RefreshCacheStats]),
        AppCommand::PurgeAllCache => (
            StoreModel { icons_need_clear: true, ..m },
            seq![Effect::PurgeAllCache, Effect::FetchCatalog, Effect::RefreshCacheStats],
        ),
        AppCommand::ToggleLike => match detail_of(m) {
            Some(d) => {
                let liked = !d.user_liked;
                let count = if liked {
                    if d.likes_count == u32::MAX { d.likes_count } else { (d.likes_count + 1) as u32 }
                } else {
                    if d.likes_count == 0 { 0u32 } else { (d.likes_count - 1) as u32 }
                };
                (
                    with_detail(m, DetailModel { user_liked: liked, likes_count: count, ..d }),
                    seq![Effect::SendLike(liked), Effect::Play(if liked { Sfx::ToggleOn } else { Sfx::ToggleOff })],
                )
            },
            None => (m, seq![]),
        },
        AppCommand::RateCurrent(score) => match detail_of(m) {
            Some(d) => if d.user_rating is None {
                let count = if d.ratings_count == u32::MAX { d.ratings_count } else { (d.ratings_count + 1) as u32 };
                (
                    with_detail(m, DetailModel { ratings_count: count, user_rating: Some(score), ..d }),
                    seq![Effect::AverageInRating(score), Effect::PostRating(score)],
                )
            } else {
                (with_detail(m, DetailModel { user_rating: Some(score), ..d }), seq![Effect::PostRating(score)])
            },
            None => (m, seq![]),
        },
        AppCommand::RequestCommentEntry => match detail_of(m) {
            Some(d) => (with_detail(m, DetailModel { comment_entry_requested: true, ..d }), seq![Effect::Play(Sfx::ShowModal)]),
            None => (m, seq![]),
        },
        AppCommand::CloseCommentEntry => match detail_of(m) {
            Some(d) => (with_detail(m, DetailModel { comment_entry_requested: false, ..d }), seq![Effect::Play(Sfx::HideModal)]),
            None => (m, seq![]),
        },
        AppCommand::SubmitComment(content) => match detail_of(m) {
            Some(d) => if crate::strings::trim(content@).len() > 0 {
                let count = if d.comments_count == u32::MAX { d.comments_count } else { (d.comments_count + 1) as u32 };
                (with_detail(m, DetailModel { comments_count: count, ..d }), seq![Effect::PostComment(content)])
            } else {
                (m, seq![])
            },
            None => (m, seq![]),
        },
    }
}

/// What a key press does.
pub open spec fn input_step(m: StoreModel, input: InputCommand) -> (StoreModel, Seq<Effect>) {
    let c = m.catalog;
    match input {
        InputCommand::Back => match m.screen {
            Screen::Settings { .. } => command_step(m, AppCommand::CloseSettings),
            Screen::Detail(d) => if d.lightbox is Some {
                command_step(m, AppCommand::CloseScreenshot)
            } else if d.data_prompt {
                command_step(m, AppCommand::CancelDataPrompt)
            } else {
                back_to_catalog(m)
            },
            Screen::Catalog => if c.focus_pane == FocusPane::Sidebar {
                (StoreModel { catalog: left_sidebar(c), ..m }, seq![Effect::Play(Sfx::Navigate)])
            } else if c.tab == StoreTab::Discover {
                if c.category_filter is Some || c.favorites_filter || has_query(c) || c.search_requested {
                    (
                        StoreModel { catalog: CatalogModel { category_filter: None, favorites_filter: false,
                            search_query: None, search_requested: false, ..c }, ..m },
                        seq![Effect::RefreshGrid, Effect::SyncSidebarCursor],
                    )
                } else {
                    (m, seq![])
                }
            } else {
                back_to_catalog(m)
            },
            Screen::Loading => back_to_catalog(m),
        },
        InputCommand::Confirm => match m.screen {
            Screen::Detail(d) => if d.data_prompt { command_step(m, AppCommand::InstallCurrent) } else { (m, seq![]) },
            Screen::Catalog => if c.focus_pane == FocusPane::Sidebar {
                (StoreModel { catalog: left_sidebar(c), ..m }, seq![Effect::Play(Sfx::Navigate)])
            } else if c.grid_len > 0 {
                (
                    StoreModel { catalog: CatalogModel { selection: Selection { active: true, ..c.selection }, ..c }, ..m },
                    if c.selection.selected < c.grid_len { seq![Effect::OpenApp(c.selection.selected)] } else { seq![] },
                )
            } else {
                (m, seq![])
            },
            Screen::Settings { selected } => match crate::navigation::settings_row_command(selected) {
                Some(cmd) => command_step(m, cmd),
                None => (m, seq![]),
            },
            Screen::Loading => (m, seq![]),
        },
        InputCommand::CategoryPrev => if m.screen == Screen::Catalog {
            match c.tab {
                StoreTab::Discover => if group_index(c.content_group) == 0 {
                    command_step(m, AppCommand::SetStoreTab(StoreTab::Updates))
                } else {
                    let (c2, e) = with_group(c, group_order()[group_index(c.content_group) - 1]);
                    (StoreModel { catalog: c2, ..m }, e + seq![Effect::Play(Sfx::TabTransition)])
                },
                StoreTab::Library => {
                    let (c2, e) = with_group(CatalogModel { tab: StoreTab::Discover, ..c }, ContentTypeGroup::Plugins);
                    (StoreModel { catalog: c2, ..m }, e + seq![Effect::Play(Sfx::TabTransition)])
                },
                StoreTab::Updates => command_step(m, AppCommand::SetStoreTab(StoreTab::Library)),
                StoreTab::Search => (m, seq![]),
            }
        } else {
            (m, seq![])
        },
        InputCommand::CategoryNext => if m.screen == Screen::Catalog {
            match c.tab {
                StoreTab::Discover => if group_index(c.content_group) + 1 >= 5 {
                    command_step(m, AppCommand::SetStoreTab(StoreTab::Library))
                } else {
                    let (c2, e) = with_group(c, group_order()[group_index(c.content_group) + 1]);
                    (StoreModel { catalog: c2, ..m }, e + seq![Effect::Play(Sfx::TabTransition)])
                },
                StoreTab::Library => command_step(m, AppCommand::SetStoreTab(StoreTab::Updates)),
                StoreTab::Updates => {
                    let (c2, e) = with_group(CatalogModel { tab: StoreTab::Discover, ..c }, ContentTypeGroup::Home);
                    (StoreModel { catalog: c2, ..m }, e + seq![Effect::Play(Sfx::TabTransition)])
                },
                StoreTab::Search => (m, seq![]),
            }
        } else {
            (m, seq![])
        },
        _ => move_step(m, input),
    }
}

/// What a direction key does: it moves the sidebar cursor, the grid
/// selection (entering the sidebar from the grid's left edge), the detail
/// page or the settings row.
pub open spec fn move_step(m: StoreModel, input: InputCommand) -> (StoreModel, Seq<Effect>) {
    let c = m.catalog;
    match m.screen {
        Screen::Catalog => if c.focus_pane == FocusPane::Sidebar && c.tab == StoreTab::Discover {
            match input {
                InputCommand::MoveUp | InputCommand::MoveDown => {
                    let delta: int = if input == InputCommand::MoveUp { -1 } else { 1 };
                    let (next, moved) = crate::navigation::moved_cursor(c.sidebar_cursor, true, c.sidebar_len as nat, delta);
                    if moved {
                        (
                            StoreModel { catalog: CatalogModel { sidebar_cursor: next, focus_pane: FocusPane::Sidebar, ..c }, ..m },
                            seq![Effect::ApplySidebarSlot, Effect::Play(Sfx::Navigate)],
                        )
                    } else {
                        (m, seq![])
                    }
                },
                InputCommand::MoveRight => (StoreModel { catalog: left_sidebar(c), ..m }, seq![Effect::Play(Sfx::Navigate)]),
                _ => (m, seq![]),
            }
        } else if input == InputCommand::MoveLeft && (!c.selection.active || c.selection.selected % GRID_COLUMNS == 0)
            && c.tab == StoreTab::Discover {
            (
                StoreModel { catalog: CatalogModel { focus_pane: FocusPane::Sidebar, ..c }, ..m },
                seq![Effect::SyncSidebarCursor, Effect::Play(Sfx::Navigate)],
            )
        } else {
            let (s, moved) = crate::navigation::moved_selection(c.selection, c.grid_len as nat,
                crate::navigation::grid_step(input, GRID_COLUMNS as int));
            if crate::navigation::grid_step(input, GRID_COLUMNS as int) != 0 && moved {
                (StoreModel { catalog: CatalogModel { selection: s, ..c }, ..m }, seq![Effect::Play(Sfx::Navigate)])
            } else {
                (m, seq![])
            }
        },
        Screen::Detail(_) => match input {
            InputCommand::MoveUp => (m, seq![Effect::ScrollDetail((-DETAIL_SCROLL_STEP) as i32)]),
            InputCommand::MoveDown => (m, seq![Effect::ScrollDetail(DETAIL_SCROLL_STEP)]),
            _ => (m, seq![]),
        },
        Screen::Settings { selected } => match input {
            InputCommand::MoveUp => (
                StoreModel { screen: Screen::Settings { selected: if selected == 0 { 0 } else { (selected - 1) as usize } }, ..m },
                seq![],
            ),
            InputCommand::MoveDown => (
                StoreModel { screen: Screen::Settings { selected: if selected >= crate::navigation::SETTINGS_LAST_ROW {
                    crate::navigation::SETTINGS_LAST_ROW } else { (selected + 1) as usize } }, ..m },
                seq![],
            ),
            _ => (m, seq![]),
        },
        Screen::Loading => (m, seq![]),
    }
}


/// The catalog state a newly loaded catalog starts with: the browsing tab,
/// the home group sorted by date (newest first), no search or filter, no
/// selection, the grid and the sidebar not computed yet.
pub open spec fn fresh_catalog() -> CatalogModel {
    CatalogModel {
        tab: StoreTab::Discover,
        content_group: ContentTypeGroup::Home,
        search_query: None,
        search_requested: false,
        category_filter: None,
        favorites_filter: false,
        genre_filter: None,
        source_filter: None,
        sort_order: SortOrder::Recent,
        sort_direction: SortDirection::Desc,
        selection: Selection { selected: 0, active: false },
        grid_len: 0,
        focus_pane: FocusPane::Grid,
        sidebar_cursor: 0,
        sidebar_len: 0,
    }
}

/// The selection after the grid is recomputed: the kept entry where it now
/// stands, else the first tile, shown when the grid has tiles.
pub open spec fn refreshed_selection(len: usize, kept: Option<usize>) -> Selection {
    match kept {
        Some(p) => if p < len { Selection { selected: p, active: true } } else { Selection { selected: 0, active: len > 0 } },
        None => Selection { selected: 0, active: len > 0 },
    }
}

/// What news from the outside work does to the store, and the work it asks
/// for next.
pub open spec fn event_step(m: StoreModel, event: StoreEvent) -> (StoreModel, Seq<Effect>) {
    match event {
        StoreEvent::Frame => (
            StoreModel { icons_need_clear: false, ..m },
            (if m.icons_need_clear { seq![Effect::ClearResidentIcons] } else { seq![] })
                + (if m.needs_installed_rescan { seq![Effect::RescanInstalled] } else { seq![] }),
        ),
        StoreEvent::GridRefreshed { len, kept } => (
            StoreModel { catalog: CatalogModel { grid_len: len, selection: refreshed_selection(len, kept), ..m.catalog }, ..m },
            seq![],
        ),
        StoreEvent::SidebarSynced { cursor, len } => (
            StoreModel { catalog: CatalogModel { sidebar_cursor: cursor, sidebar_len: len, ..m.catalog }, ..m },
            seq![],
        ),
        StoreEvent::EntryOpened { detail, position } => if m.screen == Screen::Catalog {
            (
                StoreModel {
                    screen: Screen::Detail(DetailModel { lightbox: None, data_prompt: false, comment_entry_requested: false, ..detail }),
                    catalog: match position {
                        Some(p) => CatalogModel { selection: Selection { selected: p, active: true }, ..m.catalog },
                        None => m.catalog,
                    },
                    ..m
                },
                seq![Effect::FetchComments, Effect::FetchSocial, Effect::Play(Sfx::IntoDetail)],
            )
        } else {
            (m, seq![])
        },
        StoreEvent::CatalogFetched => if install_busy(m) {
            (m, seq![])
        } else {
            match m.screen {
                Screen::Loading => (
                    StoreModel { screen: Screen::Catalog, catalog: fresh_catalog(), ..m },
                    seq![Effect::LoadCatalog { from_cache: false, precache: true }, Effect::RescanInstalled],
                ),
                Screen::Catalog => (m, seq![Effect::LoadCatalog { from_cache: false, precache: true }, Effect::RescanInstalled]),
                _ => (m, seq![Effect::LoadCatalog { from_cache: false, precache: false }, Effect::RescanInstalled]),
            }
        },
        StoreEvent::CatalogFetchFailed => if m.screen == Screen::Loading && !install_busy(m) {
            (
                StoreModel { screen: Screen::Catalog, catalog: fresh_catalog(), ..m },
                seq![Effect::LoadCatalog { from_cache: true, precache: false }, Effect::RescanInstalled],
            )
        } else {
            (m, seq![])
        },
        StoreEvent::InstalledScanned { outdated } => {
            let grid = if m.screen == Screen::Catalog && (m.catalog.tab == StoreTab::Library || m.catalog.tab == StoreTab::Updates) {
                seq![tab_grid_effect(m.catalog.tab)]
            } else {
                seq![]
            };
            let notify = m.install_notifications && !m.updates_notified && outdated > 0;
            (
                StoreModel { needs_installed_rescan: false, updates_notified: m.updates_notified || notify, ..m },
                grid + (if notify { seq![Effect::NotifyUpdatesAvailable(outdated)] } else { seq![] }),
            )
        },
        StoreEvent::InstallProgressed(status) => match m.install {
            Some(previous) => (
                StoreModel { install: Some(status), ..m },
                if status_changed(previous, status) && status is Done {
                    seq![Effect::MarkInstalled]
                        + (if m.install_notifications { seq![Effect::NotifyInstallFinished] } else { seq![] })
                        + seq![Effect::CountInstall]
                } else if status_changed(previous, status) && status is Failed && m.install_notifications {
                    seq![Effect::NotifyInstallFailed]
                } else {
                    seq![]
                },
            ),
            None => (m, seq![]),
        },
        StoreEvent::SelfUpdateFound => (
            StoreModel { self_update: true, ..m },
            if m.install_notifications { seq![Effect::NotifySelfUpdate] } else { seq![] },
        ),
        StoreEvent::SocialArrived { entry, user_liked, likes_count, user_rating, ratings_count } => match detail_of(m) {
            Some(d) => if d.entry == entry {
                (with_detail(m, DetailModel { user_liked, likes_count, user_rating, ratings_count, ..d }), seq![])
            } else {
                (m, seq![])
            },
            None => (m, seq![]),
        },
        StoreEvent::CommentsArrived { entry, count } => match detail_of(m) {
            Some(d) => if d.entry == entry {
                (with_detail(m, DetailModel { comments_count: count, ..d }), seq![])
            } else {
                (m, seq![])
            },
            None => (m, seq![]),
        },
    }
}

/// The store before any catalog arrives: the loading screen, with the saved
/// language and notification choice.
pub open spec fn starting_store(language: Language, install_notifications: bool) -> StoreModel {
    StoreModel {
        screen: Screen::Loading,
        catalog: fresh_catalog(),
        install: None,
        self_update: false,
        language,
        install_notifications,
        updates_notified: false,
        needs_installed_rescan: false,
        icons_need_clear: false,
    }
}

/// What a command does to the store, and the work it asks for.
pub open spec fn step(m: StoreModel, command: AppCommand) -> (StoreModel, Seq<Effect>) {
    match command {
        AppCommand::Input(input) => input_step(m, input),
        _ => command_step(m, command),
    }
}


fn one(a: Effect) -> (r: Vec<Effect>)
    ensures
        r@ == seq![a],
{
    let mut v: Vec<Effect> = Vec::new();
    v.push(a);
    v
}

fn two(a: Effect, b: Effect) -> (r: Vec<Effect>)
    ensures
        r@ == seq![a, b],
{
    let mut v = one(a);
    v.push(b);
    v
}

fn three(a: Effect, b: Effect, c: Effect) -> (r: Vec<Effect>)
    ensures
        r@ == seq![a, b, c],
{
    let mut v = two(a, b);
    v.push(c);
    v
}

fn four(a: Effect, b: Effect, c: Effect, d: Effect) -> (r: Vec<Effect>)
    ensures
        r@ == seq![a, b, c, d],
{
    let mut v = three(a, b, c);
    v.push(d);
    v
}

fn push_back(v: &mut Vec<Effect>, a: Effect)
    ensures
        final(v)@ == old(v)@ + seq![a],
{
    v.push(a);
    assert(final(v)@ =~= old(v)@ + seq![a]);
}

fn grid_effect(tab: StoreTab) -> (r: Effect)
    ensures
        r == tab_grid_effect(tab),
{
    match tab {
        StoreTab::Library => Effect::ApplyInstallFilter { updates_only: false },
        StoreTab::Updates => Effect::ApplyInstallFilter { updates_only: true },
        _ => Effect::RefreshGrid,
    }
}

fn apply_tab(c: &mut CatalogModel, tab: StoreTab) -> (e: Vec<Effect>)
    ensures
        (*final(c), e@) == with_tab(*old(c), tab),
{
    c.tab = tab;
    c.focus_pane = FocusPane::Grid;
    match tab {
        StoreTab::Discover => {
            c.search_query = None;
            c.search_requested = false;
            c.category_filter = None;
            c.favorites_filter = false;
            two(Effect::RefreshGrid, Effect::SyncSidebarCursor)
        },
        StoreTab::Library | StoreTab::Updates => {
            c.search_query = None;
            c.search_requested = false;
            c.category_filter = None;
            one(grid_effect(tab))
        },
        StoreTab::Search => one(Effect::RefreshGrid),
    }
}

fn apply_group(c: &mut CatalogModel, g: ContentTypeGroup) -> (e: Vec<Effect>)
    ensures
        (*final(c), e@) == with_group(*old(c), g),
{
    c.content_group = g;
    c.focus_pane = FocusPane::Grid;
    if g == ContentTypeGroup::Home {
        c.sort_order = SortOrder::Recent;
        c.sort_direction = SortDirection::Desc;
        four(Effect::ShowContentGroup(g), Effect::Resort, Effect::RefreshGrid, Effect::SyncSidebarCursor)
    } else {
        four(Effect::ShowContentGroup(g), Effect::RecomputeGroupCounts, Effect::RefreshGrid, Effect::SyncSidebarCursor)
    }
}

fn leave_sidebar(c: &mut CatalogModel)
    ensures
        *final(c) == left_sidebar(*old(c)),
{
    c.focus_pane = FocusPane::Grid;
    if c.grid_len > 0 {
        c.selection.active = true;
    }
}

fn is_busy(m: &StoreModel) -> (r: bool)
    ensures
        r == install_busy(*m),
{
    match m.install {
        Some(InstallStatus::Working { .. }) => true,
        _ => false,
    }
}

fn query_shown(c: &CatalogModel) -> (r: bool)
    ensures
        r == has_query(*c),
{
    match &c.search_query {
        Some(q) => !q.as_str().is_empty(),
        None => false,
    }
}

fn row_of(l: Language) -> (r: usize)
    ensures
        r == language_row(l),
{
    match l {
        Language::English => 0,
        Language::Spanish => 1,
    }
}

fn group_at(i: usize) -> (r: ContentTypeGroup)
    requires
        i < 5,
    ensures
        r == group_order()[i as int],
{
    if i == 0 {
        ContentTypeGroup::Home
    } else if i == 1 {
        ContentTypeGroup::Games
    } else if i == 2 {
        ContentTypeGroup::Apps
    } else if i == 3 {
        ContentTypeGroup::Emulators
    } else {
        ContentTypeGroup::Plugins
    }
}

fn index_of_group(g: ContentTypeGroup) -> (r: usize)
    ensures
        r == group_index(g),
{
    match g {
        ContentTypeGroup::Home => 0,
        ContentTypeGroup::Games => 1,
        ContentTypeGroup::Apps => 2,
        ContentTypeGroup::Emulators => 3,
        ContentTypeGroup::Plugins => 4,
    }
}

fn saturating_up(n: u32) -> (r: u32)
    ensures
        r == (if n == u32::MAX { n } else { (n + 1) as u32 }),
{
    if n == u32::MAX { n } else { n + 1 }
}

fn leave_detail_exec(m: &mut StoreModel) -> (e: Vec<Effect>)
    ensures
        (*final(m), e@) == leave_detail(*old(m)),
{
    let grid = match m.catalog.tab {
        StoreTab::Library => Effect::ApplyInstallFilter { updates_only: false },
        StoreTab::Updates => Effect::ApplyInstallFilter { updates_only: true },
        _ => Effect::RefreshGridKeepingSelection,
    };
    m.screen = Screen::Catalog;
    m.catalog.search_requested = false;
    m.needs_installed_rescan = true;
    three(Effect::CopySocialBack, grid, Effect::Play(Sfx::OutOfDetail))
}

fn clear_search_exec(m: &mut StoreModel) -> (e: Vec<Effect>)
    ensures
        *final(m) == (StoreModel { catalog: CatalogModel { search_query: None, search_requested: false, ..old(m).catalog }, ..*old(m) }),
        e@ == seq![Effect::RefreshGrid],
{
    m.catalog.search_query = None;
    m.catalog.search_requested = false;
    one(Effect::RefreshGrid)
}

fn back_exec(m: &mut StoreModel) -> (e: Vec<Effect>)
    ensures
        (*final(m), e@) == back_to_catalog(*old(m)),
{
    if is_busy(m) {
        return Vec::new();
    }
    match m.screen {
        Screen::Detail(d) => {
            if d.lightbox.is_some() {
                m.screen = Screen::Detail(DetailModel { lightbox: None, ..d });
                Vec::new()
            } else {
                leave_detail_exec(m)
            }
        },
        Screen::Catalog => {
            if query_shown(&m.catalog) || m.catalog.search_requested {
                clear_search_exec(m)
            } else {
                Vec::new()
            }
        },
        _ => Vec::new(),
    }
}

fn cmd_input(m: &mut StoreModel, x: InputCommand) -> (e: Vec<Effect>)
    ensures
        (*final(m), e@) == command_step(*old(m), AppCommand::Input(x)),
{
    Vec::new()
}

fn cmd_set_search_query(m: &mut StoreModel, q: String) -> (e: Vec<Effect>)
    ensures
        (*final(m), e@) == command_step(*old(m), AppCommand::SetSearchQuery(q)),
{
    let in_catalog = m.screen == Screen::Catalog;
    if in_catalog {
            m.catalog.search_query = Some(q);
            one(grid_effect(m.catalog.tab))
        } else {
            Vec::new()
        }
}

fn cmd_request_search(m: &mut StoreModel) -> (e: Vec<Effect>)
    ensures
        (*final(m), e@) == command_step(*old(m), AppCommand::RequestSearch),
{
    let in_catalog = m.screen == Screen::Catalog;
    if in_catalog {
            m.catalog.search_requested = true;
            one(Effect::Play(Sfx::Typing))
        } else {
            Vec::new()
        }
}

fn cmd_close_search(m: &mut StoreModel) -> (e: Vec<Effect>)
    ensures
        (*final(m), e@) == command_step(*old(m), AppCommand::CloseSearch),
{
    let in_catalog = m.screen == Screen::Catalog;
    if in_catalog {
            m.catalog.search_requested = false;
            Vec::new()
        } else {
            Vec::new()
        }
}

fn cmd_set_category_filter(m: &mut StoreModel, cat: Option<Category>) -> (e: Vec<Effect>)
    ensures
        (*final(m), e@) == command_step(*old(m), AppCommand::SetCategoryFilter(cat)),
{
    let in_catalog = m.screen == Screen::Catalog;
    if in_catalog {
            m.catalog.category_filter = cat;
            m.catalog.favorites_filter = false;
            let mut e = if m.catalog.tab == StoreTab::Discover { one(Effect::RefreshGrid) } else { Vec::new() };
            push_back(&mut e, Effect::SyncSidebarCursor);
            push_back(&mut e, Effect::Play(Sfx::TabTransition));
            proof {
                assert(e@ =~= (if old(m).catalog.tab == StoreTab::Discover { seq![Effect::RefreshGrid] } else { seq![] })
                    + seq![Effect::SyncSidebarCursor, Effect::Play(Sfx::TabTransition)]);
            }
            e
        } else {
            Vec::new()
        }
}

fn cmd_set_favorites_filter(m: &mut StoreModel, on: bool) -> (e: Vec<Effect>)
    ensures
        (*final(m), e@) == command_step(*old(m), AppCommand::SetFavoritesFilter(on)),
{
    let in_catalog = m.screen == Screen::Catalog;
    if in_catalog {
            m.catalog.tab = StoreTab::Discover;
            m.catalog.favorites_filter = on;
            if on {
                m.catalog.category_filter = None;
            }
            three(Effect::RefreshGrid, Effect::SyncSidebarCursor, Effect::Play(Sfx::TabTransition))
        } else {
            Vec::new()
        }
}

fn cmd_set_genre_filter(m: &mut StoreModel, g: Option<String>) -> (e: Vec<Effect>)
    ensures
        (*final(m), e@) == command_step(*old(m), AppCommand::SetGenreFilter(g)),
{
    let in_catalog = m.screen == Screen::Catalog;
    if in_catalog {
            m.catalog.genre_filter = g;
            let mut e = if m.catalog.tab == StoreTab::Discover { one(Effect::RefreshGrid) } else { Vec::new() };
            push_back(&mut e, Effect::Play(Sfx::TabTransition));
            proof {
                assert(e@ =~= (if old(m).catalog.tab == StoreTab::Discover { seq![Effect::RefreshGrid] } else { seq![] })
                    + seq![Effect::Play(Sfx::TabTransition)]);
            }
            e
        } else {
            Vec::new()
        }
}

fn cmd_set_source_filter(m: &mut StoreModel, src: Option<SourceCatalog>) -> (e: Vec<Effect>)
    ensures
        (*final(m), e@) == command_step(*old(m), AppCommand::SetSourceFilter(src)),
{
    let in_catalog = m.screen == Screen::Catalog;
    if in_catalog {
            m.catalog.source_filter = src;
            m.catalog.category_filter = None;
            m.catalog.genre_filter = None;
            three(Effect::RecomputeCounts, grid_effect(m.catalog.tab), Effect::Play(Sfx::TabTransition))
        } else {
            Vec::new()
        }
}

fn cmd_set_sort_order(m: &mut StoreModel, o: SortOrder) -> (e: Vec<Effect>)
    ensures
        (*final(m), e@) == command_step(*old(m), AppCommand::SetSortOrder(o)),
{
    let in_catalog = m.screen == Screen::Catalog;
    if in_catalog {
            let (order, direction) = crate::catalog::set_sort(m.catalog.sort_order, m.catalog.sort_direction, o);
            m.catalog.sort_order = order;
            m.catalog.sort_direction = direction;
            four(Effect::Resort, Effect::SaveSort(order, direction), Effect::SyncSidebarCursor, Effect::Play(Sfx::Activation))
        } else {
            Vec::new()
        }
}

fn cmd_flip_sort_direction(m: &mut StoreModel) -> (e: Vec<Effect>)
    ensures
        (*final(m), e@) == command_step(*old(m), AppCommand::FlipSortDirection),
{
    let in_catalog = m.screen == Screen::Catalog;
    if in_catalog {
            let direction = m.catalog.sort_direction.flipped();
            m.catalog.sort_direction = direction;
            three(Effect::Resort, Effect::SaveSort(m.catalog.sort_order, direction), Effect::Play(Sfx::Activation))
        } else {
            Vec::new()
        }
}

fn cmd_select_app(m: &mut StoreModel, index: usize) -> (e: Vec<Effect>)
    ensures
        (*final(m), e@) == command_step(*old(m), AppCommand::SelectApp { index }),
{
    let in_catalog = m.screen == Screen::Catalog;
    if in_catalog && index < m.catalog.grid_len {
            one(Effect::OpenApp(index))
        } else {
            Vec::new()
        }
}

fn cmd_select_app_by_id(m: &mut StoreModel, id: String) -> (e: Vec<Effect>)
    ensures
        (*final(m), e@) == command_step(*old(m), AppCommand::SelectAppById(id)),
{
    let in_catalog = m.screen == Screen::Catalog;
    if in_catalog {
            one(Effect::OpenAppById(id))
        } else {
            Vec::new()
        }
}

fn cmd_set_store_tab(m: &mut StoreModel, tab: StoreTab) -> (e: Vec<Effect>)
    ensures
        (*final(m), e@) == command_step(*old(m), AppCommand::SetStoreTab(tab)),
{
    match m.screen {
            Screen::Catalog => {
                let mut e = apply_tab(&mut m.catalog, tab);
                push_back(&mut e, Effect::Play(Sfx::TabTransition));
                e
            },
            Screen::Detail(_) => if is_busy(m) {
                Vec::new()
            } else {
                m.screen = Screen::Catalog;
                m.needs_installed_rescan = true;
                let mut t = apply_tab(&mut m.catalog, tab);
                let mut e = one(Effect::CopySocialBack);
                e.append(&mut t);
                push_back(&mut e, Effect::Play(Sfx::TabTransition));
                e
            },
            _ => Vec::new(),
        }
}

fn cmd_see_all_rail(m: &mut StoreModel, x: crate::input::DiscoverRail) -> (e: Vec<Effect>)
    ensures
        (*final(m), e@) == command_step(*old(m), AppCommand::SeeAllRail(x)),
{
    Vec::new()
}

fn cmd_back_to_discover_home(m: &mut StoreModel) -> (e: Vec<Effect>)
    ensures
        (*final(m), e@) == command_step(*old(m), AppCommand::BackToDiscoverHome),
{
    Vec::new()
}

fn cmd_more_by_author(m: &mut StoreModel, author: String) -> (e: Vec<Effect>)
    ensures
        (*final(m), e@) == command_step(*old(m), AppCommand::MoreByAuthor(author)),
{
    {
            let is_detail = match m.screen {
                Screen::Detail(_) => true,
                _ => false,
            };
            if is_busy(m) || !is_detail {
                Vec::new()
            } else {
                m.screen = Screen::Catalog;
                m.catalog.tab = StoreTab::Discover;
                m.catalog.search_query = Some(author);
                m.catalog.category_filter = None;
                m.needs_installed_rescan = true;
                three(Effect::CopySocialBack, Effect::RefreshGrid, Effect::Play(Sfx::OutOfDetail))
            }
        }
}

fn cmd_open_screenshot(m: &mut StoreModel, i: usize) -> (e: Vec<Effect>)
    ensures
        (*final(m), e@) == command_step(*old(m), AppCommand::OpenScreenshot(i)),
{
    match m.screen {
            Screen::Detail(d) => if i < d.screenshots {
                m.screen = Screen::Detail(DetailModel { lightbox: Some(i), ..d });
                Vec::new()
            } else {
                Vec::new()
            },
            _ => Vec::new(),
        }
}

fn cmd_close_screenshot(m: &mut StoreModel) -> (e: Vec<Effect>)
    ensures
        (*final(m), e@) == command_step(*old(m), AppCommand::CloseScreenshot),
{
    match m.screen {
            Screen::Detail(d) => {
                m.screen = Screen::Detail(DetailModel { lightbox: None, ..d });
                Vec::new()
            },
            _ => Vec::new(),
        }
}

fn cmd_back_to_catalog(m: &mut StoreModel) -> (e: Vec<Effect>)
    ensures
        (*final(m), e@) == command_step(*old(m), AppCommand::BackToCatalog),
{
    back_exec(m)
}

fn cmd_install_current(m: &mut StoreModel) -> (e: Vec<Effect>)
    ensures
        (*final(m), e@) == command_step(*old(m), AppCommand::InstallCurrent),
{
    match m.screen {
            Screen::Detail(d) => if is_busy(m) {
                Vec::new()
            } else if d.has_data && !d.data_prompt {
                m.screen = Screen::Detail(DetailModel { data_prompt: true, ..d });
                one(Effect::Play(Sfx::ShowModal))
            } else {
                m.screen = Screen::Detail(DetailModel { data_prompt: false, ..d });
                m.install = Some(InstallStatus::Working { cancellable: false });
                let mut e = two(Effect::StartInstall, Effect::Play(Sfx::Launch));
                if m.install_notifications {
                    push_back(&mut e, Effect::NotifyInstallStarted);
                } else {
                    assert(e@ =~= e@ + seq![]);
                }
                e
            },
            _ => Vec::new(),
        }
}

fn cmd_cancel_data_prompt(m: &mut StoreModel) -> (e: Vec<Effect>)
    ensures
        (*final(m), e@) == command_step(*old(m), AppCommand::CancelDataPrompt),
{
    match m.screen {
            Screen::Detail(d) => if d.data_prompt {
                m.screen = Screen::Detail(DetailModel { data_prompt: false, ..d });
                one(Effect::Play(Sfx::HideModal))
            } else {
                Vec::new()
            },
            _ => Vec::new(),
        }
}

fn cmd_dismiss_install(m: &mut StoreModel) -> (e: Vec<Effect>)
    ensures
        (*final(m), e@) == command_step(*old(m), AppCommand::DismissInstall),
{
    {
            m.install = None;
            Vec::new()
        }
}

fn cmd_self_update(m: &mut StoreModel) -> (e: Vec<Effect>)
    ensures
        (*final(m), e@) == command_step(*old(m), AppCommand::SelfUpdate),
{
    if m.self_update && !is_busy(m) {
            m.install = Some(InstallStatus::Working { cancellable: false });
            let mut e = two(Effect::StartSelfUpdate, Effect::Play(Sfx::Launch));
            if m.install_notifications {
                push_back(&mut e, Effect::NotifyInstallStarted);
            } else {
                assert(e@ =~= e@ + seq![]);
            }
            e
        } else {
            Vec::new()
        }
}

fn cmd_cancel_install(m: &mut StoreModel) -> (e: Vec<Effect>)
    ensures
        (*final(m), e@) == command_step(*old(m), AppCommand::CancelInstall),
{
    match m.install {
            Some(InstallStatus::Working { cancellable: true }) => one(Effect::CancelInstall),
            _ => Vec::new(),
        }
}

fn cmd_open_settings(m: &mut StoreModel) -> (e: Vec<Effect>)
    ensures
        (*final(m), e@) == command_step(*old(m), AppCommand::OpenSettings),
{
    match m.screen {
            Screen::Catalog | Screen::Detail(_) => {
                m.screen = Screen::Settings { selected: row_of(m.language) };
                three(Effect::RefreshCacheStats, Effect::ClearNotice, Effect::Play(Sfx::MenuFlyIn))
            },
            _ => Vec::new(),
        }
}

fn cmd_close_settings(m: &mut StoreModel) -> (e: Vec<Effect>)
    ensures
        (*final(m), e@) == command_step(*old(m), AppCommand::CloseSettings),
{
    match m.screen {
            Screen::Settings { .. } => {
                m.screen = Screen::Catalog;
                m.needs_installed_rescan = true;
                one(Effect::Play(Sfx::MenuFlyOut))
            },
            _ => Vec::new(),
        }
}

fn cmd_set_language(m: &mut StoreModel, l: Language) -> (e: Vec<Effect>)
    ensures
        (*final(m), e@) == command_step(*old(m), AppCommand::SetLanguage(l)),
{
    {
            m.language = l;
            match m.screen {
                Screen::Settings { .. } => {
                    m.screen = Screen::Settings { selected: row_of(l) };
                },
                _ => {},
            }
            one(Effect::SaveLanguage(l))
        }
}

fn cmd_toggle_install_notifications(m: &mut StoreModel) -> (e: Vec<Effect>)
    ensures
        (*final(m), e@) == command_step(*old(m), AppCommand::ToggleInstallNotifications),
{
    {
            m.install_notifications = !m.install_notifications;
            one(Effect::SaveInstallNotifications(m.install_notifications))
        }
}

fn cmd_clear_icon_cache(m: &mut StoreModel) -> (e: Vec<Effect>)
    ensures
        (*final(m), e@) == command_step(*old(m), AppCommand::ClearIconCache),
{
    {
            m.icons_need_clear = true;
            two(Effect::ClearIconCache, Effect::RefreshCacheStats)
        }
}

fn cmd_clear_catalog_cache(m: &mut StoreModel) -> (e: Vec<Effect>)
    ensures
        (*final(m), e@) == command_step(*old(m), AppCommand::ClearCatalogCache),
{
    three(Effect::ClearCatalogCache, Effect::FetchCatalog, Effect::RefreshCacheStats)
}

fn cmd_purge_all_cache(m: &mut StoreModel) -> (e: Vec<Effect>)
    ensures
        (*final(m), e@) == command_step(*old(m), AppCommand::PurgeAllCache),
{
    {
            m.icons_need_clear = true;
            three(Effect::PurgeAllCache, Effect::FetchCatalog, Effect::RefreshCacheStats)
        }
}

fn cmd_toggle_like(m: &mut StoreModel) -> (e: Vec<Effect>)
    ensures
        (*final(m), e@) == command_step(*old(m), AppCommand::ToggleLike),
{
    match m.screen {
            Screen::Detail(d) => {
                let liked = !d.user_liked;
                let count = if liked { saturating_up(d.likes_count) } else if d.likes_count == 0 { 0 } else { d.likes_count - 1 };
                m.screen = Screen::Detail(DetailModel { user_liked: liked, likes_count: count, ..d });
                two(Effect::SendLike(liked), Effect::Play(if liked { Sfx::ToggleOn } else { Sfx::ToggleOff }))
            },
            _ => Vec::new(),
        }
}

fn cmd_rate_current(m: &mut StoreModel, score: u8) -> (e: Vec<Effect>)
    ensures
        (*final(m), e@) == command_step(*old(m), AppCommand::RateCurrent(score)),
{
    match m.screen {
            Screen::Detail(d) => if d.user_rating.is_none() {
                let count = saturating_up(d.ratings_count);
                m.screen = Screen::Detail(DetailModel { ratings_count: count, user_rating: Some(score), ..d });
                two(Effect::AverageInRating(score), Effect::PostRating(score))
            } else {
                m.screen = Screen::Detail(DetailModel { user_rating: Some(score), ..d });
                one(Effect::PostRating(score))
            },
            _ => Vec::new(),
        }
}

fn cmd_request_comment_entry(m: &mut StoreModel) -> (e: Vec<Effect>)
    ensures
        (*final(m), e@) == command_step(*old(m), AppCommand::RequestCommentEntry),
{
    match m.screen {
            Screen::Detail(d) => {
                m.screen = Screen::Detail(DetailModel { comment_entry_requested: true, ..d });
                one(Effect::Play(Sfx::ShowModal))
            },
            _ => Vec::new(),
        }
}

fn cmd_close_comment_entry(m: &mut StoreModel) -> (e: Vec<Effect>)
    ensures
        (*final(m), e@) == command_step(*old(m), AppCommand::CloseCommentEntry),
{
    match m.screen {
            Screen::Detail(d) => {
                m.screen = Screen::Detail(DetailModel { comment_entry_requested: false, ..d });
                one(Effect::Play(Sfx::HideModal))
            },
            _ => Vec::new(),
        }
}

fn cmd_submit_comment(m: &mut StoreModel, content: String) -> (e: Vec<Effect>)
    ensures
        (*final(m), e@) == command_step(*old(m), AppCommand::SubmitComment(content)),
{
    match m.screen {
            Screen::Detail(d) => if !crate::text::is_blank(content.as_str()) {
                let count = saturating_up(d.comments_count);
                m.screen = Screen::Detail(DetailModel { comments_count: count, ..d });
                one(Effect::PostComment(content))
            } else {
                Vec::new()
            },
            _ => Vec::new(),
        }
}

fn command_exec(m: &mut StoreModel, command: AppCommand) -> (e: Vec<Effect>)
    ensures
        (*final(m), e@) == command_step(*old(m), command),
{
    match command {
        AppCommand::Input(x) => cmd_input(m, x),
        AppCommand::SetSearchQuery(q) => cmd_set_search_query(m, q),
        AppCommand::RequestSearch => cmd_request_search(m),
        AppCommand::CloseSearch => cmd_close_search(m),
        AppCommand::SetCategoryFilter(cat) => cmd_set_category_filter(m, cat),
        AppCommand::SetFavoritesFilter(on) => cmd_set_favorites_filter(m, on),
        AppCommand::SetGenreFilter(g) => cmd_set_genre_filter(m, g),
        AppCommand::SetSourceFilter(src) => cmd_set_source_filter(m, src),
        AppCommand::SetSortOrder(o) => cmd_set_sort_order(m, o),
        AppCommand::FlipSortDirection => cmd_flip_sort_direction(m),
        AppCommand::SelectApp { index } => cmd_select_app(m, index),
        AppCommand::SelectAppById(id) => cmd_select_app_by_id(m, id),
        AppCommand::SetStoreTab(tab) => cmd_set_store_tab(m, tab),
        AppCommand::SeeAllRail(x) => cmd_see_all_rail(m, x),
        AppCommand::BackToDiscoverHome => cmd_back_to_discover_home(m),
        AppCommand::MoreByAuthor(author) => cmd_more_by_author(m, author),
        AppCommand::OpenScreenshot(i) => cmd_open_screenshot(m, i),
        AppCommand::CloseScreenshot => cmd_close_screenshot(m),
        AppCommand::BackToCatalog => cmd_back_to_catalog(m),
        AppCommand::InstallCurrent => cmd_install_current(m),
        AppCommand::CancelDataPrompt => cmd_cancel_data_prompt(m),
        AppCommand::DismissInstall => cmd_dismiss_install(m),
        AppCommand::SelfUpdate => cmd_self_update(m),
        AppCommand::CancelInstall => cmd_cancel_install(m),
        AppCommand::OpenSettings => cmd_open_settings(m),
        AppCommand::CloseSettings => cmd_close_settings(m),
        AppCommand::SetLanguage(l) => cmd_set_language(m, l),
        AppCommand::ToggleInstallNotifications => cmd_toggle_install_notifications(m),
        AppCommand::ClearIconCache => cmd_clear_icon_cache(m),
        AppCommand::ClearCatalogCache => cmd_clear_catalog_cache(m),
        AppCommand::PurgeAllCache => cmd_purge_all_cache(m),
        AppCommand::ToggleLike => cmd_toggle_like(m),
        AppCommand::RateCurrent(score) => cmd_rate_current(m, score),
        AppCommand::RequestCommentEntry => cmd_request_comment_entry(m),
        AppCommand::CloseCommentEntry => cmd_close_comment_entry(m),
        AppCommand::SubmitComment(content) => cmd_submit_comment(m, content),
    }
}


fn move_exec(m: &mut StoreModel, input: InputCommand) -> (e: Vec<Effect>)
    ensures
        (*final(m), e@) == move_step(*old(m), input),
{
    match m.screen {
        Screen::Catalog => {
            if m.catalog.focus_pane == FocusPane::Sidebar && m.catalog.tab == StoreTab::Discover {
                match input {
                    InputCommand::MoveUp | InputCommand::MoveDown => {
                        let delta: isize = if input == InputCommand::MoveUp { -1 } else { 1 };
                        let (next, moved) = crate::navigation::move_sidebar_cursor(m.catalog.sidebar_cursor, true, m.catalog.sidebar_len, delta);
                        if moved {
                            m.catalog.sidebar_cursor = next;
                            m.catalog.focus_pane = FocusPane::Sidebar;
                            two(Effect::ApplySidebarSlot, Effect::Play(Sfx::Navigate))
                        } else {
                            Vec::new()
                        }
                    },
                    InputCommand::MoveRight => {
                        leave_sidebar(&mut m.catalog);
                        one(Effect::Play(Sfx::Navigate))
                    },
                    _ => Vec::new(),
                }
            } else if input == InputCommand::MoveLeft && crate::navigation::at_left_edge(m.catalog.selection, GRID_COLUMNS)
                && m.catalog.tab == StoreTab::Discover {
                m.catalog.focus_pane = FocusPane::Sidebar;
                two(Effect::SyncSidebarCursor, Effect::Play(Sfx::Navigate))
            } else {
                let delta = crate::navigation::grid_delta(input, GRID_COLUMNS);
                let (sel, moved) = crate::navigation::move_selection(m.catalog.selection, m.catalog.grid_len, delta);
                if delta != 0 && moved {
                    m.catalog.selection = sel;
                    one(Effect::Play(Sfx::Navigate))
                } else {
                    Vec::new()
                }
            }
        },
        Screen::Detail(_) => match input {
            InputCommand::MoveUp => one(Effect::ScrollDetail(-DETAIL_SCROLL_STEP)),
            InputCommand::MoveDown => one(Effect::ScrollDetail(DETAIL_SCROLL_STEP)),
            _ => Vec::new(),
        },
        Screen::Settings { selected } => {
            match input {
                InputCommand::MoveUp | InputCommand::MoveDown => {
                    m.screen = Screen::Settings { selected: crate::navigation::move_settings_row(selected, input) };
                },
                _ => {},
            }
            Vec::new()
        },
        Screen::Loading => Vec::new(),
    }
}

fn with_transition(m: &mut StoreModel, tab: Option<StoreTab>, g: ContentTypeGroup) -> (e: Vec<Effect>)
    ensures
        ({
            let c0 = match tab {
                Some(t) => CatalogModel { tab: t, ..old(m).catalog },
                None => old(m).catalog,
            };
            let (c2, e2) = with_group(c0, g);
            (*final(m), e@) == (StoreModel { catalog: c2, ..*old(m) }, e2 + seq![Effect::Play(Sfx::TabTransition)])
        }),
{
    match tab {
        Some(t) => {
            m.catalog.tab = t;
        },
        None => {},
    }
    let mut e = apply_group(&mut m.catalog, g);
    push_back(&mut e, Effect::Play(Sfx::TabTransition));
    e
}

fn key_back(m: &mut StoreModel) -> (e: Vec<Effect>)
    ensures
        (*final(m), e@) == input_step(*old(m), InputCommand::Back),
{
    match m.screen {
            Screen::Settings { .. } => cmd_close_settings(m),
            Screen::Detail(d) => if d.lightbox.is_some() {
                cmd_close_screenshot(m)
            } else if d.data_prompt {
                cmd_cancel_data_prompt(m)
            } else {
                back_exec(m)
            },
            Screen::Catalog => if m.catalog.focus_pane == FocusPane::Sidebar {
                leave_sidebar(&mut m.catalog);
                one(Effect::Play(Sfx::Navigate))
            } else if m.catalog.tab == StoreTab::Discover {
                if m.catalog.category_filter.is_some() || m.catalog.favorites_filter || query_shown(&m.catalog)
                    || m.catalog.search_requested {
                    m.catalog.category_filter = None;
                    m.catalog.favorites_filter = false;
                    m.catalog.search_query = None;
                    m.catalog.search_requested = false;
                    two(Effect::RefreshGrid, Effect::SyncSidebarCursor)
                } else {
                    Vec::new()
                }
            } else {
                back_exec(m)
            },
            Screen::Loading => back_exec(m),
        }
}

fn key_confirm(m: &mut StoreModel) -> (e: Vec<Effect>)
    ensures
        (*final(m), e@) == input_step(*old(m), InputCommand::Confirm),
{
    match m.screen {
            Screen::Detail(d) => if d.data_prompt { cmd_install_current(m) } else { Vec::new() },
            Screen::Catalog => if m.catalog.focus_pane == FocusPane::Sidebar {
                leave_sidebar(&mut m.catalog);
                one(Effect::Play(Sfx::Navigate))
            } else if m.catalog.grid_len > 0 {
                m.catalog.selection.active = true;
                let selected = m.catalog.selection.selected;
                if selected < m.catalog.grid_len { one(Effect::OpenApp(selected)) } else { Vec::new() }
            } else {
                Vec::new()
            },
            Screen::Settings { selected } => match crate::navigation::confirm_settings_row(selected) {
                Some(cmd) => command_exec(m, cmd),
                None => Vec::new(),
            },
            Screen::Loading => Vec::new(),
        }
}

fn key_category_prev(m: &mut StoreModel) -> (e: Vec<Effect>)
    ensures
        (*final(m), e@) == input_step(*old(m), InputCommand::CategoryPrev),
{
    if m.screen == Screen::Catalog {
            match m.catalog.tab {
                StoreTab::Discover => {
                    let i = index_of_group(m.catalog.content_group);
                    if i == 0 {
                        cmd_set_store_tab(m, StoreTab::Updates)
                    } else {
                        with_transition(m, None, group_at(i - 1))
                    }
                },
                StoreTab::Library => with_transition(m, Some(StoreTab::Discover), ContentTypeGroup::Plugins),
                StoreTab::Updates => cmd_set_store_tab(m, StoreTab::Library),
                StoreTab::Search => Vec::new(),
            }
        } else {
            Vec::new()
        }
}

fn key_category_next(m: &mut StoreModel) -> (e: Vec<Effect>)
    ensures
        (*final(m), e@) == input_step(*old(m), InputCommand::CategoryNext),
{
    if m.screen == Screen::Catalog {
            match m.catalog.tab {
                StoreTab::Discover => {
                    let i = index_of_group(m.catalog.content_group);
                    if i + 1 >= 5 {
                        cmd_set_store_tab(m, StoreTab::Library)
                    } else {
                        with_transition(m, None, group_at(i + 1))
                    }
                },
                StoreTab::Library => cmd_set_store_tab(m, StoreTab::Updates),
                StoreTab::Updates => with_transition(m, Some(StoreTab::Discover), ContentTypeGroup::Home),
                StoreTab::Search => Vec::new(),
            }
        } else {
            Vec::new()
        }
}

fn input_exec(m: &mut StoreModel, input: InputCommand) -> (e: Vec<Effect>)
    ensures
        (*final(m), e@) == input_step(*old(m), input),
{
    match input {
        InputCommand::Back => key_back(m),
        InputCommand::Confirm => key_confirm(m),
        InputCommand::CategoryPrev => key_category_prev(m),
        InputCommand::CategoryNext => key_category_next(m),
        _ => move_exec(m, input),
    }
}


/// Choosing a sort in the catalog applies it as `next_sort` says, saves it
/// and sorts again; once the new grid arrives, the selection is back on the
/// first tile, shown when the grid has tiles.
pub proof fn a_sort_change_saves_the_sort_and_reselects_the_first_tile(m: StoreModel, o: SortOrder, len: usize)
    requires
        m.screen == Screen::Catalog,
    ensures
        ({
            let (m1, e1) = step(m, AppCommand::SetSortOrder(o));
            let (m2, _) = event_step(m1, StoreEvent::GridRefreshed { len, kept: None });
            &&& (m1.catalog.sort_order, m1.catalog.sort_direction)
                == crate::catalog::next_sort(m.catalog.sort_order, m.catalog.sort_direction, o)
            &&& e1.contains(Effect::SaveSort(m1.catalog.sort_order, m1.catalog.sort_direction))
            &&& e1.contains(Effect::Resort)
            &&& m2.catalog.selection == (Selection { selected: 0, active: len > 0 })
        }),
{
    let (m1, e1) = step(m, AppCommand::SetSortOrder(o));
    assert(e1[1] == Effect::SaveSort(m1.catalog.sort_order, m1.catalog.sort_direction));
    assert(e1[0] == Effect::Resort);
}

/// Back on a detail screen closes a shown screenshot first, then the data
/// prompt, and only then leaves the screen; on the settings screen it closes
/// the settings.
pub proof fn back_closes_the_innermost_layer_first(m: StoreModel)
    ensures
        ({
            let (m1, _) = step(m, AppCommand::Input(InputCommand::Back));
            &&& (m.screen matches Screen::Settings { .. } ==> m1.screen == Screen::Catalog)
            &&& (detail_of(m) is Some && detail_of(m).unwrap().lightbox is Some
                ==> m1.screen == Screen::Detail(DetailModel { lightbox: None, ..detail_of(m).unwrap() }))
            &&& (detail_of(m) is Some && detail_of(m).unwrap().lightbox is None && detail_of(m).unwrap().data_prompt
                ==> m1.screen == Screen::Detail(DetailModel { data_prompt: false, ..detail_of(m).unwrap() }))
        }),
{
}

/// Liking and unliking an entry leaves its like state and count as they
/// were (the count moves by one each way; it is not at either end).
pub proof fn liking_twice_restores_the_count(m: StoreModel)
    requires
        m.screen matches Screen::Detail(d) && 0 < d.likes_count < u32::MAX,
    ensures
        step(step(m, AppCommand::ToggleLike).0, AppCommand::ToggleLike).0 == m,
{
}

/// Confirming the data prompt starts the install that Install asked for.
pub proof fn confirming_the_data_prompt_starts_the_install(m: StoreModel)
    requires
        m.screen matches Screen::Detail(d) && d.data_prompt,
        !install_busy(m),
    ensures
        step(m, AppCommand::Input(InputCommand::Confirm)).1.contains(Effect::StartInstall),
        step(m, AppCommand::Input(InputCommand::Confirm)).0.install == Some(InstallStatus::Working { cancellable: false }),
{
    assert(step(m, AppCommand::Input(InputCommand::Confirm)).1[0] == Effect::StartInstall);
}


/// "More by this author" on a detail page, with no install running, goes
/// back to the catalog's browsing tab searching for that author, with the
/// category filter cleared, and has the grid recomputed.
pub proof fn more_by_author_searches_for_the_author(m: StoreModel, author: String)
    requires
        m.screen matches Screen::Detail(_),
        !install_busy(m),
    ensures
        ({
            let (m1, e) = step(m, AppCommand::MoreByAuthor(author));
            &&& m1.screen == Screen::Catalog
            &&& m1.catalog.tab == StoreTab::Discover
            &&& m1.catalog.search_query == Some(author)
            &&& m1.catalog.category_filter is None
            &&& e.contains(Effect::RefreshGrid)
        }),
{
    let (m1, e) = step(m, AppCommand::MoreByAuthor(author));
    assert(e[1] == Effect::RefreshGrid);
}

/// Carries out a command: the store changes as `step` says, and the outside
/// work it asks for is returned, in order.
pub fn handle_command(state: &mut StoreModel, command: AppCommand) -> (effects: Vec<Effect>)
    ensures
        (*final(state), effects@) == step(*old(state), command),
{
    match command {
        AppCommand::Input(input) => input_exec(state, input),
        _ => command_exec(state, command),
    }
}


fn new_catalog() -> (r: CatalogModel)
    ensures
        r == fresh_catalog(),
{
    CatalogModel {
        tab: StoreTab::Discover,
        content_group: ContentTypeGroup::Home,
        search_query: None,
        search_requested: false,
        category_filter: None,
        favorites_filter: false,
        genre_filter: None,
        source_filter: None,
        sort_order: SortOrder::Recent,
        sort_direction: SortDirection::Desc,
        selection: Selection { selected: 0, active: false },
        grid_len: 0,
        focus_pane: FocusPane::Grid,
        sidebar_cursor: 0,
        sidebar_len: 0,
    }
}

impl StoreModel {
    /// The store before any catalog arrives.
    pub fn new(language: Language, install_notifications: bool) -> (r: StoreModel)
        ensures
            r == starting_store(language, install_notifications),
    {
        StoreModel {
            screen: Screen::Loading,
            catalog: new_catalog(),
            install: None,
            self_update: false,
            language,
            install_notifications,
            updates_notified: false,
            needs_installed_rescan: false,
            icons_need_clear: false,
        }
    }
}

fn on_frame(m: &mut StoreModel) -> (e: Vec<Effect>)
    ensures
        (*final(m), e@) == event_step(*old(m), StoreEvent::Frame),
{
    let mut e: Vec<Effect> = Vec::new();
    if m.icons_need_clear {
        push_back(&mut e, Effect::ClearResidentIcons);
    }
    m.icons_need_clear = false;
    if m.needs_installed_rescan {
        push_back(&mut e, Effect::RescanInstalled);
    }
    proof {
        assert(e@ =~= (if old(m).icons_need_clear { seq![Effect::ClearResidentIcons] } else { seq![] })
            + (if old(m).needs_installed_rescan { seq![Effect::RescanInstalled] } else { seq![] }));
    }
    e
}

fn on_grid_refreshed(m: &mut StoreModel, len: usize, kept: Option<usize>) -> (e: Vec<Effect>)
    ensures
        (*final(m), e@) == event_step(*old(m), StoreEvent::GridRefreshed { len, kept }),
{
    m.catalog.grid_len = len;
    m.catalog.selection = match kept {
        Some(p) => if p < len { Selection { selected: p, active: true } } else { Selection { selected: 0, active: len > 0 } },
        None => Selection { selected: 0, active: len > 0 },
    };
    Vec::new()
}

fn on_entry_opened(m: &mut StoreModel, detail: DetailModel, position: Option<usize>) -> (e: Vec<Effect>)
    ensures
        (*final(m), e@) == event_step(*old(m), StoreEvent::EntryOpened { detail, position }),
{
    if m.screen != Screen::Catalog {
        return Vec::new();
    }
    match position {
        Some(p) => {
            m.catalog.selection = Selection { selected: p, active: true };
        },
        None => {},
    }
    m.screen = Screen::Detail(DetailModel { lightbox: None, data_prompt: false, comment_entry_requested: false, ..detail });
    three(Effect::FetchComments, Effect::FetchSocial, Effect::Play(Sfx::IntoDetail))
}

fn on_catalog_fetched(m: &mut StoreModel) -> (e: Vec<Effect>)
    ensures
        (*final(m), e@) == event_step(*old(m), StoreEvent::CatalogFetched),
{
    if is_busy(m) {
        return Vec::new();
    }
    match m.screen {
        Screen::Loading => {
            m.screen = Screen::Catalog;
            m.catalog = new_catalog();
            two(Effect::LoadCatalog { from_cache: false, precache: true }, Effect::RescanInstalled)
        },
        Screen::Catalog => two(Effect::LoadCatalog { from_cache: false, precache: true }, Effect::RescanInstalled),
        _ => two(Effect::LoadCatalog { from_cache: false, precache: false }, Effect::RescanInstalled),
    }
}

fn on_catalog_fetch_failed(m: &mut StoreModel) -> (e: Vec<Effect>)
    ensures
        (*final(m), e@) == event_step(*old(m), StoreEvent::CatalogFetchFailed),
{
    if m.screen == Screen::Loading && !is_busy(m) {
        m.screen = Screen::Catalog;
        m.catalog = new_catalog();
        two(Effect::LoadCatalog { from_cache: true, precache: false }, Effect::RescanInstalled)
    } else {
        Vec::new()
    }
}

fn on_installed_scanned(m: &mut StoreModel, outdated: usize) -> (e: Vec<Effect>)
    ensures
        (*final(m), e@) == event_step(*old(m), StoreEvent::InstalledScanned { outdated }),
{
    let mut e: Vec<Effect> = if m.screen == Screen::Catalog && (m.catalog.tab == StoreTab::Library || m.catalog.tab == StoreTab::Updates) {
        one(grid_effect(m.catalog.tab))
    } else {
        Vec::new()
    };
    let notify = m.install_notifications && !m.updates_notified && outdated > 0;
    if notify {
        push_back(&mut e, Effect::NotifyUpdatesAvailable(outdated));
    } else {
        assert(e@ =~= e@ + seq![]);
    }
    m.needs_installed_rescan = false;
    m.updates_notified = m.updates_notified || notify;
    e
}

fn status_differs(a: &InstallStatus, b: &InstallStatus) -> (r: bool)
    ensures
        r == status_changed(*a, *b),
{
    match (a, b) {
        (InstallStatus::Working { cancellable: x }, InstallStatus::Working { cancellable: y }) => *x != *y,
        (InstallStatus::Done, InstallStatus::Done) => false,
        (InstallStatus::Failed(x), InstallStatus::Failed(y)) => !crate::strings::str_equals(x.as_str(), y.as_str()),
        _ => true,
    }
}

fn on_install_progressed(m: &mut StoreModel, status: InstallStatus) -> (e: Vec<Effect>)
    ensures
        (*final(m), e@) == event_step(*old(m), StoreEvent::InstallProgressed(status)),
{
    let changed = match &m.install {
        Some(previous) => status_differs(previous, &status),
        None => {
            return Vec::new();
        },
    };
    let done = match &status {
        InstallStatus::Done => true,
        _ => false,
    };
    let failed = match &status {
        InstallStatus::Failed(_) => true,
        _ => false,
    };
    m.install = Some(status);
    if changed && done {
        let mut e = one(Effect::MarkInstalled);
        if m.install_notifications {
            push_back(&mut e, Effect::NotifyInstallFinished);
        } else {
            assert(e@ =~= e@ + seq![]);
        }
        push_back(&mut e, Effect::CountInstall);
        e
    } else if changed && failed && m.install_notifications {
        one(Effect::NotifyInstallFailed)
    } else {
        Vec::new()
    }
}

fn on_social(m: &mut StoreModel, entry: usize, user_liked: bool, likes_count: u32, user_rating: Option<u8>, ratings_count: u32) -> (e: Vec<Effect>)
    ensures
        (*final(m), e@) == event_step(*old(m), StoreEvent::SocialArrived { entry, user_liked, likes_count, user_rating, ratings_count }),
{
    match m.screen {
        Screen::Detail(d) => {
            if d.entry == entry {
                m.screen = Screen::Detail(DetailModel { user_liked, likes_count, user_rating, ratings_count, ..d });
            }
            Vec::new()
        },
        _ => Vec::new(),
    }
}

fn on_comments(m: &mut StoreModel, entry: usize, count: u32) -> (e: Vec<Effect>)
    ensures
        (*final(m), e@) == event_step(*old(m), StoreEvent::CommentsArrived { entry, count }),
{
    match m.screen {
        Screen::Detail(d) => {
            if d.entry == entry {
                m.screen = Screen::Detail(DetailModel { comments_count: count, ..d });
            }
            Vec::new()
        },
        _ => Vec::new(),
    }
}

/// Takes in news from the outside work: the store changes as `event_step`
/// says, and the work that comes next is returned, in order.
pub fn tick(state: &mut StoreModel, event: StoreEvent) -> (effects: Vec<Effect>)
    ensures
        (*final(state), effects@) == event_step(*old(state), event),
{
    match event {
        StoreEvent::Frame => on_frame(state),
        StoreEvent::GridRefreshed { len, kept } => on_grid_refreshed(state, len, kept),
        StoreEvent::SidebarSynced { cursor, len } => {
            state.catalog.sidebar_cursor = cursor;
            state.catalog.sidebar_len = len;
            Vec::new()
        },
        StoreEvent::EntryOpened { detail, position } => on_entry_opened(state, detail, position),
        StoreEvent::CatalogFetched => on_catalog_fetched(state),
        StoreEvent::CatalogFetchFailed => on_catalog_fetch_failed(state),
        StoreEvent::InstalledScanned { outdated } => on_installed_scanned(state, outdated),
        StoreEvent::InstallProgressed(status) => on_install_progressed(state, status),
        StoreEvent::SelfUpdateFound => {
            state.self_update = true;
            if state.install_notifications { one(Effect::NotifySelfUpdate) } else { Vec::new() }
        },
        StoreEvent::SocialArrived { entry, user_liked, likes_count, user_rating, ratings_count } =>
            on_social(state, entry, user_liked, likes_count, user_rating, ratings_count),
        StoreEvent::CommentsArrived { entry, count } => on_comments(state, entry, count),
    }
}

} // verus!
