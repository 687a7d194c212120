use rs_cpu::theme::{AppTheme, Rgb};

#[test]
fn test_theme_toggle() {
    let dark = AppTheme::Dark;
    assert_eq!(dark.toggle(), AppTheme::Light);
    assert_eq!(AppTheme::Light.toggle(), AppTheme::Dark);
}

#[test]
fn test_theme_colors() {
    let dark = AppTheme::Dark;
    let light = AppTheme::Light;
    assert_ne!(dark.bg_color(), light.bg_color());
    assert_ne!(dark.text_primary(), light.text_primary());
}

#[test]
fn theme_palette_values() {
    let c = AppTheme::Dark.accent_primary();
    assert_eq!((c.r, c.g, c.b), (0, 210, 255));
    let c = AppTheme::Light.card_bg();
    assert_eq!((c.r, c.g, c.b), (255, 255, 255));
}

#[test]
fn theme_toggle_twice_is_identity() {
    for t in [AppTheme::Dark, AppTheme::Light] {
        assert_eq!(t.toggle().toggle(), t);
        assert_ne!(t.toggle(), t);
    }
}

#[test]
fn gauge_colors() {
    assert_eq!(AppTheme::Dark.gauge_color(851), Rgb { r: 239, g: 68, b: 68 });
    assert_eq!(AppTheme::Light.gauge_color(850), Rgb { r: 245, g: 158, b: 11 });
    assert_eq!(AppTheme::Light.gauge_color(600), AppTheme::Light.accent_secondary());
    assert_eq!(AppTheme::Dark.gauge_color(0), Rgb { r: 16, g: 185, b: 129 });
}
