use vitaforge::data::{Category, SortOrder};
use vitaforge::i18n::Language;

#[test]
fn fixed_strings_match_both_languages() {
    assert_eq!(Language::English.install(), "INSTALL");
    assert_eq!(Language::Spanish.install(), "INSTALAR");
    assert_eq!(Language::English.update(), "UPDATE");
    assert_eq!(Language::Spanish.update(), "ACTUALIZAR");
    assert_eq!(Language::English.no_results(), "No homebrews found");
    assert_eq!(Language::Spanish.no_results(), "No se encontraron resultados");
}

#[test]
fn interpolated_strings_substitute_args() {
    assert_eq!(Language::English.apps_count(42), "42 APPS");
    assert_eq!(Language::Spanish.apps_count(42), "42 APPS");
    assert_eq!(Language::English.by_author("josephinoo"), "by josephinoo");
    assert_eq!(Language::Spanish.by_author("josephinoo"), "por josephinoo");
    assert!(Language::English.settings_cleared_icons("2.0 MB").contains("2.0 MB"));
    assert!(Language::Spanish.settings_purged_all("1.5 MB").contains("1.5 MB"));
    assert!(!Language::English.settings_cleared_catalog().is_empty());
    assert!(!Language::English.settings_purge_all().is_empty());
}

#[test]
fn sort_label_covers_every_variant() {
    for order in SortOrder::all() {
        assert!(!Language::English.sort_label(order).is_empty());
        assert!(!Language::Spanish.sort_label(order).is_empty());
    }
}

#[test]
fn category_label_none_is_all() {
    assert_eq!(Language::English.category_label(None), "ALL");
    assert_eq!(Language::Spanish.category_label(None), "ALL");
}

#[test]
fn every_message_resolves_in_both_languages() {
    for lang in Language::all() {
        for cat in Category::all() {
            let text = lang.category_label(Some(cat));
            assert!(!text.starts_with("category-"), "{text}");
        }
        let texts = [
            lang.sort_by_prefix(), lang.search_placeholder(), lang.no_results_sub(), lang.featured_label(),
            lang.view_details_label(), lang.reinstall(), lang.installed(), lang.update_available(),
            lang.installed_version(), lang.install_in_progress(), lang.plugin_manual_note(), lang.release_page(),
            lang.download(), lang.requirements(), lang.changelog(), lang.needs_game_data(), lang.overview(),
            lang.needs_nonpdrm(), lang.description(), lang.technical_info(), lang.version(), lang.size(),
            lang.downloads(), lang.rating(), lang.updated(), lang.community(), lang.your_rating(),
            lang.ratings_count(), lang.comments(), lang.add_comment(), lang.loading_comments(),
            lang.no_comments_yet(), lang.back(), lang.settings_title(), lang.language_label(),
            lang.settings_storage(), lang.settings_version(), lang.settings_catalog(), lang.settings_icon_cache(),
            lang.settings_catalog_cache(), lang.settings_hash_cache(), lang.settings_total(),
            lang.settings_clear_icons(), lang.settings_clear_catalog(), lang.btn_open(), lang.btn_back(),
            lang.btn_search(), lang.btn_category(), lang.btn_tabs(), lang.btn_clear(), lang.tab_discover(),
            lang.tab_library(), lang.tab_updates(), lang.tab_search(), lang.rail_top(), lang.rail_new(),
            lang.see_all(), lang.see_all_catalog(), lang.see_all_back(), lang.library_empty(),
            lang.updates_empty(), lang.loading_msg(), lang.cancel_btn(), lang.installed_version_value(),
        ];
        for text in texts {
            assert!(!text.is_empty());
            assert!(!text.contains('-') || text.contains(' '), "unresolved id {text}");
        }
    }
}

#[test]
fn system_locales_pick_the_language() {
    assert_eq!(Language::from_locale_tag("es_ES.UTF-8"), Language::Spanish);
    assert_eq!(Language::from_locale_tag("ES"), Language::Spanish);
    assert_eq!(Language::from_locale_tag("en_US.UTF-8"), Language::English);
    assert_eq!(Language::from_locale_tag(""), Language::English);
}

#[test]
fn the_console_language_code_five_is_spanish() {
    assert_eq!(Language::from_system_param(5), Some(Language::Spanish));
    assert_eq!(Language::from_system_param(1), None);
}
