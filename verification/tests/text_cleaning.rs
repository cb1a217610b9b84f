use vitaforge::text::{display_name, is_blank, sanitize, sanitized};

#[test]
fn drops_the_variation_selector_that_drew_a_box() {
    assert_eq!(sanitized("⚠️ Requiere NoNpDrm"), "Requiere NoNpDrm");
}

#[test]
fn keeps_the_line_breaks_in_a_requirements_list() {
    let requirements = "- libshacccg.suprx\n- kubridge.skprx\n- Game Data Files: Android";
    assert_eq!(sanitized(requirements), requirements);
}

#[test]
fn a_cjk_title_sanitizes_away_and_falls_back() {
    let name = sanitized("シェルノサージュ");
    assert!(name.is_empty(), "got {name:?}");
    assert_eq!(display_name(&name, None, "PCSG00284"), "PCSG00284");
    assert_eq!(sanitized("サムライ Vita"), "Vita");
}

#[test]
fn is_idempotent_and_leaves_clean_text_alone() {
    let mut text = "Port of Grand Theft Auto: San Andreas for PSVITA.".to_owned();
    let before = text.as_ptr();
    sanitize(&mut text);
    assert_eq!(text.as_ptr(), before, "clean text should not be reallocated");
    let mut dirty = "Rinnegatamante &amp; TheFloW 🚀".to_owned();
    sanitize(&mut dirty);
    assert_eq!(dirty, "Rinnegatamante & TheFloW");
    let once = dirty.clone();
    sanitize(&mut dirty);
    assert_eq!(dirty, once);
}

#[test]
fn expands_entities_and_keeps_accents() {
    assert_eq!(sanitized("Pok&eacute;mon"), "Pok&eacute;mon");
    assert_eq!(sanitized("A &lt;b&gt; C &#39;quoted&#39;"), "A <b> C 'quoted'");
    assert_eq!(sanitized("Emulación española"), "Emulación española");
    assert_eq!(sanitized("día&nbsp;a&nbsp;día"), "día a día");
}

#[test]
fn collapses_the_gaps_left_by_removed_characters() {
    assert_eq!(sanitized("Metal 🎮 Slug 🎮 X"), "Metal Slug X");
    assert_eq!(sanitized("  padded 🚀  "), "padded");
}

#[test]
fn hex_entities_and_tabs_are_decoded() {
    assert_eq!(sanitized("a&#x41;b\tc"), "aAb c");
    assert_eq!(sanitized("x &amp;amp; y"), "x &amp; y");
    assert_eq!(sanitized("&#xD800;"), "&#xD800;");
}

#[test]
fn cleaning_twice_changes_nothing_more() {
    for input in ["  a  b ", "Metal 🎮 Slug", "line\n  next", "&lt;&gt;", "\u{00a0}x\u{00a0}"] {
        let once = sanitized(input);
        assert_eq!(sanitized(&once), once);
    }
}

#[test]
fn blank_names_fall_back_in_order() {
    assert!(is_blank("  \n"));
    assert!(!is_blank(" a "));
    assert_eq!(display_name("Name", Some("Orig"), "TID"), "Name");
    assert_eq!(display_name("  ", Some("Orig"), "TID"), "Orig");
    assert_eq!(display_name("", Some(" "), "TID"), "TID");
    assert_eq!(display_name("", None, ""), "Unknown");
}

#[test]
fn a_lone_ampersand_survives_a_second_cleaning() {
    let once = sanitized("a &amp; b");
    assert_eq!(once, "a & b");
    assert_eq!(sanitized(&once), once);
    let twice_escaped = sanitized("&amp;lt;");
    assert_eq!(twice_escaped, "&lt;");
    assert_eq!(sanitized(&twice_escaped), "<");
}
