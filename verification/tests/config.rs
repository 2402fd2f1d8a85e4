use label_it::color::Rgba;
use label_it::config::resolve_config;

#[test]
fn omitted_options_yield_documented_defaults() {
    let c = resolve_config("Hi".to_string(), None, None, false, false, None);
    assert_eq!(c.bg, Rgba { r: 204, g: 0, b: 0, a: 255 });
    assert_eq!(c.fg, Rgba { r: 255, g: 255, b: 255, a: 255 });
    assert!(!c.undecorated);
    assert!(!c.always_on_top);
    assert_eq!(c.title, "Label");
}

#[test]
fn caption_is_kept_as_given() {
    let c = resolve_config("Hi".to_string(), None, None, false, false, None);
    assert_eq!(c.text, "Hi");
}

#[test]
fn given_options_are_kept() {
    let c = resolve_config(
        "Hi".to_string(),
        Some("#336699".to_string()),
        Some("#00000000".to_string()),
        true,
        true,
        Some("Caption".to_string()),
    );
    assert_eq!(c.text, "Hi");
    assert_eq!(c.bg, Rgba { r: 51, g: 102, b: 153, a: 255 });
    assert_eq!(c.fg, Rgba { r: 0, g: 0, b: 0, a: 0 });
    assert!(c.undecorated);
    assert!(c.always_on_top);
    assert_eq!(c.title, "Caption");
}

#[test]
fn unparseable_background_falls_back_to_dark_red() {
    let c = resolve_config(
        "Hi".to_string(),
        Some("notacolor".to_string()),
        None,
        false,
        false,
        None,
    );
    assert_eq!(c.bg, Rgba { r: 204, g: 0, b: 0, a: 255 });
}

#[test]
fn unparseable_foreground_falls_back_to_white() {
    let c = resolve_config(
        "Hi".to_string(),
        None,
        Some("#12".to_string()),
        false,
        false,
        None,
    );
    assert_eq!(c.fg, Rgba { r: 255, g: 255, b: 255, a: 255 });
}

#[test]
fn empty_text_is_allowed() {
    let c = resolve_config(String::new(), None, None, false, false, None);
    assert_eq!(c.text, "");
}
