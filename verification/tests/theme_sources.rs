use hyperos4_gpui_theme::{HyperOs4Theme, ThemeMode};

fn parse(source: &str) -> serde_json::Value {
    serde_json::from_str(source).expect("bundled theme source is valid JSON")
}

#[test]
fn dark_mode_is_dark() {
    assert!(ThemeMode::Dark.is_dark());
    assert!(!ThemeMode::Light.is_dark());
}

#[test]
fn config_source_follows_mode() {
    assert_eq!(HyperOs4Theme::config_source(ThemeMode::Light), HyperOs4Theme::light_source());
    assert_eq!(HyperOs4Theme::config_source(ThemeMode::Dark), HyperOs4Theme::dark_source());
}

#[test]
fn light_and_dark_sources_differ() {
    assert_ne!(HyperOs4Theme::light_source(), HyperOs4Theme::dark_source());
    assert_ne!(
        HyperOs4Theme::config_source(ThemeMode::Light),
        HyperOs4Theme::config_source(ThemeMode::Dark)
    );
}

#[test]
fn bundled_sources_declare_expected_names_and_modes() {
    let light = parse(HyperOs4Theme::light_source());
    let dark = parse(HyperOs4Theme::dark_source());
    assert_eq!(light["name"].as_str(), Some("HyperOS 4 Soft Glass Light"));
    assert_eq!(dark["name"].as_str(), Some("HyperOS 4 Soft Glass Dark"));
    assert_eq!(light["mode"].as_str(), Some("light"));
    assert_eq!(dark["mode"].as_str(), Some("dark"));
    assert!(light["colors"]["background"].is_string());
    assert!(dark["colors"]["background"].is_string());
}

#[test]
fn bundled_sources_keep_surfaces_translucent() {
    for source in [HyperOs4Theme::light_source(), HyperOs4Theme::dark_source()] {
        let config = parse(source);
        let card = config["colors"]["card.background"].as_str().unwrap();
        // #rrggbbaa with an alpha below ff
        assert_eq!(card.len(), 9);
        assert_ne!(&card[7..], "ff");
    }
}

#[test]
fn bundled_sources_name_and_declare_their_own_mode() {
    let light = HyperOs4Theme::config_source(ThemeMode::Light);
    let dark = HyperOs4Theme::config_source(ThemeMode::Dark);
    assert!(light.contains("\"name\": \"HyperOS 4 Soft Glass Light\""));
    assert!(light.contains("\"mode\": \"light\""));
    assert!(dark.contains("\"name\": \"HyperOS 4 Soft Glass Dark\""));
    assert!(dark.contains("\"mode\": \"dark\""));
}
