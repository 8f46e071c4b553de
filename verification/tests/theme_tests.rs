use lumen::theme::color::{AnsiColor, Color};
use lumen::theme::types::{BorderStyle, EmphasisStyle, Spacing, Typography};
use lumen::theme::{docs_theme, minimal_theme, neon_theme, Theme};

#[test]
fn test_rgb_to_ansi256() {
    let red = Color::rgb(255, 0, 0);
    let ansi256 = red.to_ansi256();
    assert!(ansi256 >= 16); // Should be in color cube range
}

#[test]
fn test_rgb_to_ansi() {
    let red = Color::rgb(255, 0, 0);
    assert!(matches!(red.to_ansi(), AnsiColor::Red | AnsiColor::BrightRed));

    let blue = Color::rgb(0, 0, 255);
    assert!(matches!(blue.to_ansi(), AnsiColor::Blue | AnsiColor::BrightBlue));
}

#[test]
fn test_ansi_color_conversion() {
    let red = AnsiColor::Red;
    assert_eq!(red.to_ansi256(), 1);

    let bright_cyan = AnsiColor::BrightCyan;
    assert_eq!(bright_cyan.to_ansi256(), 14);
}

#[test]
fn test_docs_theme() {
    let theme = docs_theme();
    assert_eq!(theme.name, "Docs");
    assert_eq!(theme.version, "1.0");
}

#[test]
fn test_neon_theme() {
    let theme = neon_theme();
    assert_eq!(theme.name, "Neon");
    assert!(matches!(theme.blocks.heading.h1.color, Color::Rgb(0, 255, 255)));
}

#[test]
fn test_minimal_theme() {
    let theme = minimal_theme();
    assert_eq!(theme.name, "Minimal");
    // Minimal theme should use ASCII borders
    assert_eq!(theme.blocks.table.border_style, BorderStyle::Ascii);
}

#[test]
fn test_builtin_themes() {
    assert!(Theme::builtin("docs").is_some());
    assert!(Theme::builtin("neon").is_some());
    assert!(Theme::builtin("minimal").is_some());
    assert!(Theme::builtin("dracula").is_some());
    assert!(Theme::builtin("monokai").is_some());
    assert!(Theme::builtin("solarized").is_some());
    assert!(Theme::builtin("gruvbox").is_some());
    assert!(Theme::builtin("nord").is_some());
    assert!(Theme::builtin("tokyo-night").is_some());
    assert!(Theme::builtin("catppuccin").is_some());
    assert!(Theme::builtin("nonexistent").is_none());
}

#[test]
fn test_builtin_names() {
    let names = Theme::builtin_names();
    assert_eq!(names.len(), 10);
    assert!(names.contains(&"docs"));
    assert!(names.contains(&"neon"));
    assert!(names.contains(&"minimal"));
    assert!(names.contains(&"dracula"));
    assert!(names.contains(&"monokai"));
    assert!(names.contains(&"solarized"));
    assert!(names.contains(&"gruvbox"));
    assert!(names.contains(&"nord"));
    assert!(names.contains(&"tokyo-night"));
    assert!(names.contains(&"catppuccin"));
}

#[test]
fn test_builtin_themes_exist() {
    let names = Theme::builtin_names();
    assert_eq!(names.len(), 10);
    assert!(names.contains(&"docs"));
    assert!(names.contains(&"neon"));
    assert!(names.contains(&"minimal"));
    assert!(names.contains(&"dracula"));
    assert!(names.contains(&"monokai"));
    assert!(names.contains(&"solarized"));
    assert!(names.contains(&"gruvbox"));
    assert!(names.contains(&"nord"));
    assert!(names.contains(&"tokyo-night"));
    assert!(names.contains(&"catppuccin"));
}

#[test]
fn test_load_docs_theme() {
    let theme = Theme::builtin("docs").expect("Docs theme should exist");
    assert_eq!(theme.name, "Docs");
    assert_eq!(theme.version, "1.0");

    // Check color palette
    assert!(matches!(theme.colors.primary, Color::Rgb(100, 180, 255)));

    // Check heading styles
    assert!(theme.blocks.heading.h1.border.is_some());
    assert_eq!(theme.blocks.heading.h1.border.as_ref().unwrap().style, BorderStyle::Double);
}

#[test]
fn test_load_neon_theme() {
    let theme = Theme::builtin("neon").expect("Neon theme should exist");
    assert_eq!(theme.name, "Neon");

    // Neon should have vibrant colors
    assert!(matches!(theme.colors.primary, Color::Rgb(0, 255, 255)));

    // Check for prefixes on headings
    assert_eq!(theme.blocks.heading.h1.prefix, Some("▶ ".to_string()));
    assert_eq!(theme.blocks.heading.h2.prefix, Some("■ ".to_string()));
}

#[test]
fn test_load_minimal_theme() {
    let theme = Theme::builtin("minimal").expect("Minimal theme should exist");
    assert_eq!(theme.name, "Minimal");

    // Minimal should use ASCII borders
    assert_eq!(theme.blocks.table.border_style, BorderStyle::Ascii);

    // Should use ANSI colors
    assert!(matches!(theme.colors.foreground, Color::Ansi(_)));
}

#[test]
fn test_nonexistent_builtin() {
    let theme = Theme::builtin("nonexistent");
    assert!(theme.is_none());
}

#[test]
fn test_color_conversions() {
    let rgb = Color::rgb(255, 0, 0);

    // Test RGB to ANSI256
    let ansi256 = rgb.to_ansi256();
    assert!(ansi256 >= 16, "Should be in color cube range");

    // Test RGB to ANSI16
    let ansi = rgb.to_ansi();
    assert!(
        matches!(ansi, lumen::theme::AnsiColor::Red | lumen::theme::AnsiColor::BrightRed),
        "Red RGB should map to Red ANSI color"
    );
}

#[test]
fn test_theme_default_values() {
    let spacing = Spacing::default();
    assert_eq!(spacing.paragraph_spacing, 1);
    assert_eq!(spacing.heading_margin_top, 2);

    let typography = Typography::default();
    assert_eq!(typography.emphasis, EmphasisStyle::Native);
}

#[test]
fn test_border_style_variants() {
    // Ensure all border styles are distinct
    assert_ne!(BorderStyle::Single, BorderStyle::Double);
    assert_ne!(BorderStyle::Single, BorderStyle::Rounded);
    assert_ne!(BorderStyle::Ascii, BorderStyle::Heavy);
}

#[test]
fn ansi256_of_rgb_has_exact_values() {
    assert_eq!(Color::rgb(255, 0, 0).to_ansi256(), 196);
    assert_eq!(Color::rgb(0, 255, 0).to_ansi256(), 46);
    assert_eq!(Color::rgb(0, 0, 255).to_ansi256(), 21);
    assert_eq!(Color::rgb(100, 180, 255).to_ansi256(), 16 + 36 * 1 + 6 * 3 + 5);
    // Greys land on the grey ramp; white on its last step.
    assert_eq!(Color::rgb(0, 0, 0).to_ansi256(), 232);
    assert_eq!(Color::rgb(128, 128, 128).to_ansi256(), 244);
    assert_eq!(Color::rgb(255, 255, 255).to_ansi256(), 255);
    assert_eq!(Color::Reset.to_ansi256(), 0);
    assert_eq!(Color::Ansi256(77).to_ansi256(), 77);
    assert_eq!(Color::Ansi(AnsiColor::BrightWhite).to_ansi256(), 15);
}

#[test]
fn ansi_of_colors() {
    assert_eq!(Color::rgb(255, 0, 0).to_ansi(), AnsiColor::Red);
    assert_eq!(Color::rgb(255, 200, 200).to_ansi(), AnsiColor::BrightRed);
    assert_eq!(Color::rgb(10, 20, 30).to_ansi(), AnsiColor::Black);
    assert_eq!(Color::rgb(200, 200, 0).to_ansi(), AnsiColor::BrightYellow);
    assert_eq!(Color::rgb(200, 0, 200).to_ansi(), AnsiColor::BrightMagenta);
    assert_eq!(Color::rgb(0, 100, 100).to_ansi(), AnsiColor::Cyan);
    assert_eq!(Color::rgb(200, 200, 200).to_ansi(), AnsiColor::BrightWhite);
    assert_eq!(Color::rgb(100, 100, 100).to_ansi(), AnsiColor::White);
    assert_eq!(Color::Reset.to_ansi(), AnsiColor::White);
    assert_eq!(Color::Ansi256(4).to_ansi(), AnsiColor::Blue);
    assert_eq!(Color::Ansi256(200).to_ansi(), AnsiColor::White);
    assert_eq!(Color::Ansi(AnsiColor::Green).to_ansi(), AnsiColor::Green);
}

#[test]
fn ansi_index_round_trip() {
    for idx in 0u8..16 {
        let color = AnsiColor::from_ansi256(idx).expect("a color for each of the 16 indices");
        assert_eq!(color.to_ansi256(), idx);
    }
    assert_eq!(AnsiColor::from_ansi256(16), None);
    assert_eq!(AnsiColor::from_ansi256(255), None);
}

#[test]
fn builtin_ignores_case_and_knows_the_alias() {
    assert_eq!(Theme::builtin("DOCS").unwrap().name, "Docs");
    assert_eq!(Theme::builtin("Tokyo-Night").unwrap().name, "Tokyo Night");
    assert_eq!(Theme::builtin("tokyonight").unwrap().name, "Tokyo Night");
    assert_eq!(Theme::builtin("dracula").unwrap().colors.background, Color::Rgb(40, 42, 54));
    assert!(Theme::builtin("").is_none());
    assert!(Theme::builtin("docs ").is_none());
}

#[test]
fn every_builtin_name_gives_a_theme_with_standard_spacing() {
    for name in Theme::builtin_names() {
        let theme = Theme::builtin(name).expect("a theme for each built-in name");
        assert_eq!(theme.version, "1.0");
        assert_eq!(theme.spacing, Spacing::default());
        assert_eq!(theme.blocks.table.padding, 1);
    }
}
