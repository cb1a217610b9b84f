//! The user's persistent choices.

use vstd::prelude::*;
use crate::data::{SortDirection, SortOrder};
use crate::i18n::Language;

verus! {

/// Where the settings are kept on the console.
pub const SETTINGS_PATH: &'static str = "ux0:data/vitaforge/settings.json";

/// The saved sort and language.
#[derive(Debug, Clone, Copy, PartialEq, Eq, Structural)]
pub struct Settings {
    pub sort_order: SortOrder,
    pub sort_direction: SortDirection,
    pub language: Option<Language>,
}

impl Default for Settings {
    fn default() -> (r: Settings)
        ensures
            r == (Settings { sort_order: SortOrder::Downloads, sort_direction: SortDirection::Desc, language: None }),
    {
        Settings { sort_order: SortOrder::Downloads, sort_direction: SortDirection::Desc, language: None }
    }
}

/// Records the chosen language; the sort is kept.
pub fn set_language(settings: &mut Settings, language: Language)
    ensures
        *final(settings) == (Settings { language: Some(language), ..*old(settings) }),
{
    settings.language = Some(language);
}

/// Records the chosen sort; the language is kept.
pub fn set_sort(settings: &mut Settings, sort_order: SortOrder, sort_direction: SortDirection)
    ensures
        *final(settings) == (Settings { sort_order, sort_direction, ..*old(settings) }),
{
    settings.sort_order = sort_order;
    settings.sort_direction = sort_direction;
}

/// Choosing a language and then a sort keeps both.
pub proof fn choices_do_not_overwrite_each_other(s: Settings, language: Language, order: SortOrder, direction: SortDirection)
    ensures
        (Settings { sort_order: order, sort_direction: direction, ..(Settings { language: Some(language), ..s }) })
            == (Settings { language: Some(language), ..(Settings { sort_order: order, sort_direction: direction, ..s }) }),
{
}

} // verus!
