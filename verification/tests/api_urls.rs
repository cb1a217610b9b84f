use vitaforge::data::api::{absolute, api_url, endpoint, force_format, image_format_for, non_empty, DEFAULT_API_URL};

#[test]
fn rewrites_whatever_format_the_server_suggested() {
    assert_eq!(
        force_format("https://h/api/v1/images/icon/abc.png?size=medium&format=jpeg"),
        "https://h/api/v1/images/icon/abc.png?size=medium&format=png"
    );
    assert_eq!(
        force_format("https://h/api/v1/images/icon/abc.png?format=webp&size=medium"),
        "https://h/api/v1/images/icon/abc.png?format=png&size=medium"
    );
}

#[test]
fn screenshots_stay_jpeg_and_gain_a_format_when_missing() {
    assert_eq!(
        force_format("https://h/api/v1/images/screenshot/a.png?size=medium&format=webp"),
        "https://h/api/v1/images/screenshot/a.png?size=medium&format=jpeg"
    );
    assert_eq!(
        force_format("https://h/scraped_assets/psvita/game/screenshots/01.jpeg"),
        "https://h/scraped_assets/psvita/game/screenshots/01.jpeg?format=jpeg"
    );
}

#[test]
fn icons_ask_for_png_and_everything_else_for_jpeg() {
    assert_eq!(image_format_for("/api/v1/images/icon/a.png"), "png");
    assert_eq!(image_format_for("/api/v1/images/cover/a.png"), "jpeg");
}

#[test]
fn endpoints_hang_off_the_api_base() {
    assert_eq!(api_url(None), "https://vitaforge.josephinoo.dev/api/v1");
    assert_eq!(endpoint(api_url(None), "/apps/version"), "https://vitaforge.josephinoo.dev/api/v1/apps/version");
    assert_eq!(api_url(Some("http://localhost:8080/api/")), "http://localhost:8080/api/");
    assert_eq!(endpoint(api_url(Some("http://localhost:8080/api//")), "/apps"), "http://localhost:8080/api/apps");
}

#[test]
fn server_paths_become_absolute_with_a_format() {
    assert_eq!(
        absolute(DEFAULT_API_URL, "/api/v1/images/icon/x.png?size=medium"),
        "https://vitaforge.josephinoo.dev/api/v1/images/icon/x.png?size=medium&format=png"
    );
    assert_eq!(absolute(DEFAULT_API_URL, "https://cdn/x.png"), "https://cdn/x.png");
    assert_eq!(absolute(DEFAULT_API_URL, "http://cdn/x.png?format=webp"), "http://cdn/x.png?format=webp");
    assert_eq!(absolute("http://localhost:8080/api/v1", "/img/a.jpg"), "http://localhost:8080/img/a.jpg?format=jpeg");
}

#[test]
fn blank_values_are_dropped_and_others_trimmed() {
    assert_eq!(non_empty("  ".to_owned()), None);
    assert_eq!(non_empty(" https://github.com/a ".to_owned()), Some("https://github.com/a".to_owned()));
}
