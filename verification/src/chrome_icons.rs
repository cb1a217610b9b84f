//! The small line icons of the interface chrome and where they sit in the
//! icon atlas.

use vstd::prelude::*;
use crate::data::Category;
use crate::input::{ContentTypeGroup, StoreTab};

verus! {

/// A chrome icon.
#[derive(Clone, Copy, Debug, PartialEq, Eq, Hash, Structural)]
pub enum ChromeIcon {
    Home,
    Games,
    Apps,
    Emulators,
    Plugins,
    All,
    Vita,
    Psp,
    Ps1,
    Ports,
    Homebrew,
    Featured,
    Downloads,
    Recent,
    Favorites,
    Search,
    Library,
    Updates,
}

/// Every icon, in atlas order.
pub open spec fn atlas_order() -> Seq<ChromeIcon> {
    seq![
        ChromeIcon::Home, ChromeIcon::Games, ChromeIcon::Apps, ChromeIcon::Emulators, ChromeIcon::Plugins,
        ChromeIcon::All, ChromeIcon::Vita, ChromeIcon::Psp, ChromeIcon::Ps1, ChromeIcon::Ports,
        ChromeIcon::Homebrew, ChromeIcon::Featured, ChromeIcon::Downloads, ChromeIcon::Recent,
        ChromeIcon::Favorites, ChromeIcon::Search, ChromeIcon::Library, ChromeIcon::Updates,
    ]
}

/// The atlas cell of an icon.
pub open spec fn atlas_cell(icon: ChromeIcon) -> int {
    match icon {
        ChromeIcon::Home => 0,
        ChromeIcon::Games => 1,
        ChromeIcon::Apps => 2,
        ChromeIcon::Emulators => 3,
        ChromeIcon::Plugins => 4,
        ChromeIcon::All => 5,
        ChromeIcon::Vita => 6,
        ChromeIcon::Psp => 7,
        ChromeIcon::Ps1 => 8,
        ChromeIcon::Ports => 9,
        ChromeIcon::Homebrew => 10,
        ChromeIcon::Featured => 11,
        ChromeIcon::Downloads => 12,
        ChromeIcon::Recent => 13,
        ChromeIcon::Favorites => 14,
        ChromeIcon::Search => 15,
        ChromeIcon::Library => 16,
        ChromeIcon::Updates => 17,
    }
}

impl ChromeIcon {
    /// Every icon, in atlas order.
    pub fn all() -> (r: Vec<ChromeIcon>)
        ensures
            r@ == atlas_order(),
    {
        vec![
            ChromeIcon::Home, ChromeIcon::Games, ChromeIcon::Apps, ChromeIcon::Emulators, ChromeIcon::Plugins,
            ChromeIcon::All, ChromeIcon::Vita, ChromeIcon::Psp, ChromeIcon::Ps1, ChromeIcon::Ports,
            ChromeIcon::Homebrew, ChromeIcon::Featured, ChromeIcon::Downloads, ChromeIcon::Recent,
            ChromeIcon::Favorites, ChromeIcon::Search, ChromeIcon::Library, ChromeIcon::Updates,
        ]
    }

    /// The icon of a content-type group.
    pub fn for_group(group: ContentTypeGroup) -> (r: ChromeIcon)
        ensures
            r == match group {
                ContentTypeGroup::Home => ChromeIcon::Home,
                ContentTypeGroup::Games => ChromeIcon::Games,
                ContentTypeGroup::Apps => ChromeIcon::Apps,
                ContentTypeGroup::Emulators => ChromeIcon::Emulators,
                ContentTypeGroup::Plugins => ChromeIcon::Plugins,
            },
    {
        match group {
            ContentTypeGroup::Home => ChromeIcon::Home,
            ContentTypeGroup::Games => ChromeIcon::Games,
            ContentTypeGroup::Apps => ChromeIcon::Apps,
            ContentTypeGroup::Emulators => ChromeIcon::Emulators,
            ContentTypeGroup::Plugins => ChromeIcon::Plugins,
        }
    }

    /// The icon of a store tab.
    pub fn for_store_tab(tab: StoreTab) -> (r: ChromeIcon)
        ensures
            r == match tab {
                StoreTab::Discover => ChromeIcon::All,
                StoreTab::Library => ChromeIcon::Library,
                StoreTab::Updates => ChromeIcon::Updates,
                StoreTab::Search => ChromeIcon::Search,
            },
    {
        match tab {
            StoreTab::Discover => ChromeIcon::All,
            StoreTab::Library => ChromeIcon::Library,
            StoreTab::Updates => ChromeIcon::Updates,
            StoreTab::Search => ChromeIcon::Search,
        }
    }

    /// The icon of a category.
    pub fn for_category(category: Category) -> (r: ChromeIcon)
        ensures
            r == match category {
                Category::PsVitaGame => ChromeIcon::Vita,
                Category::PspGame => ChromeIcon::Psp,
                Category::Ps1Game => ChromeIcon::Ps1,
                Category::Port => ChromeIcon::Ports,
                Category::Original => ChromeIcon::Homebrew,
                Category::Utility | Category::Tool => ChromeIcon::Apps,
                Category::Emulator => ChromeIcon::Emulators,
                Category::Plugin => ChromeIcon::Plugins,
                Category::Other => ChromeIcon::All,
            },
    {
        match category {
            Category::PsVitaGame => ChromeIcon::Vita,
            Category::PspGame => ChromeIcon::Psp,
            Category::Ps1Game => ChromeIcon::Ps1,
            Category::Port => ChromeIcon::Ports,
            Category::Original => ChromeIcon::Homebrew,
            Category::Utility | Category::Tool => ChromeIcon::Apps,
            Category::Emulator => ChromeIcon::Emulators,
            Category::Plugin => ChromeIcon::Plugins,
            Category::Other => ChromeIcon::All,
        }
    }

    /// The Lucide image file the icon is drawn from.
    pub fn asset_name(self) -> (r: &'static str)
        ensures
            r@ == match self {
                ChromeIcon::Home => "house"@,
                ChromeIcon::Games | ChromeIcon::Vita | ChromeIcon::Psp => "gamepad-2"@,
                ChromeIcon::Apps => "app-window"@,
                ChromeIcon::Emulators => "cpu"@,
                ChromeIcon::Plugins => "plug-2"@,
                ChromeIcon::All => "layout-grid"@,
                ChromeIcon::Ps1 => "disc-3"@,
                ChromeIcon::Ports | ChromeIcon::Library => "package"@,
                ChromeIcon::Homebrew => "flask-conical"@,
                ChromeIcon::Featured => "star"@,
                ChromeIcon::Downloads | ChromeIcon::Updates => "download"@,
                ChromeIcon::Recent => "clock"@,
                ChromeIcon::Favorites => "heart"@,
                ChromeIcon::Search => "search"@,
            },
    {
        match self {
            ChromeIcon::Home => "house",
            ChromeIcon::Games | ChromeIcon::Vita | ChromeIcon::Psp => "gamepad-2",
            ChromeIcon::Apps => "app-window",
            ChromeIcon::Emulators => "cpu",
            ChromeIcon::Plugins => "plug-2",
            ChromeIcon::All => "layout-grid",
            ChromeIcon::Ps1 => "disc-3",
            ChromeIcon::Ports | ChromeIcon::Library => "package",
            ChromeIcon::Homebrew => "flask-conical",
            ChromeIcon::Featured => "star",
            ChromeIcon::Downloads | ChromeIcon::Updates => "download",
            ChromeIcon::Recent => "clock",
            ChromeIcon::Favorites => "heart",
            ChromeIcon::Search => "search",
        }
    }

    /// The icon's cell in the atlas: its position in `all()`.
    pub fn atlas_index(self) -> (r: usize)
        ensures
            r == atlas_cell(self),
            atlas_order()[r as int] == self,
            forall|j: int| 0 <= j < r ==> atlas_order()[j] != self,
    {
        let all = ChromeIcon::all();
        let mut i: usize = 0;
        while i < all.len()
            invariant
                all@ == atlas_order(),
                i <= all@.len(),
                forall|j: int| 0 <= j < i ==> all@[j] != self,
            decreases all.len() - i,
        {
            if all[i] == self {
                assert(atlas_cell(self) == i);
                return i;
            }
            i += 1;
        }
        assert(all@[atlas_cell(self)] == self);
        0
    }
}

/// Every icon has its own atlas cell.
pub proof fn atlas_cells_are_distinct(a: ChromeIcon, b: ChromeIcon)
    requires
        a != b,
    ensures
        atlas_cell(a) != atlas_cell(b),
        0 <= atlas_cell(a) < atlas_order().len(),
        atlas_order()[atlas_cell(a)] == a,
{
}

} // verus!
