use resvg_node::color::{Color, parse_color};
use resvg_node::fonts::{font_warnings, load_fonts};
use resvg_node::options::JsFontOptions;
use resvg_node::render::{EngineOutcome, RenderError, prepare_render, render_output};
use resvg_node::value::Value;

fn object(entries: Vec<(&str, Value)>) -> Value {
    Value::Object(entries.into_iter().map(|(k, v)| (k.to_string(), v)).collect())
}

#[test]
fn hex_and_named_colors_parse() {
    let red = parse_color(&Some("#ff0000".to_string())).unwrap();
    assert_eq!(red, Some(Color { red: 255, green: 0, blue: 0 }));
    let short = parse_color(&Some("#0f8".to_string())).unwrap();
    assert_eq!(short, Some(Color { red: 0, green: 255, blue: 136 }));
    let named = parse_color(&Some("blue".to_string())).unwrap();
    assert_eq!(named, Some(Color { red: 0, green: 0, blue: 255 }));
    assert_eq!(parse_color(&None).unwrap(), None);
}

#[test]
fn malformed_colors_fail() {
    assert!(parse_color(&Some("not-a-color".to_string())).is_err());
    assert!(parse_color(&Some(String::new())).is_err());
    assert!(parse_color(&Some("#12345".to_string())).is_err());
}

#[test]
fn bad_background_fails_render() {
    let payload = object(vec![("background", Value::Text("not-a-color".to_string()))]);
    let r = prepare_render(&Some(payload));
    let expected = "not-a-color".parse::<svgtypes::Color>().unwrap_err().to_string();
    assert!(!expected.is_empty());
    match r {
        Err(RenderError::ColorParse(e)) => assert_eq!(e.message, expected),
        _ => panic!("the background should be rejected"),
    }
}

#[test]
fn rejected_payload_fails_render() {
    let payload = object(vec![("zoom", Value::Bool(true))]);
    assert!(matches!(prepare_render(&Some(payload)), Err(RenderError::Validation(_))));
}

#[test]
fn payload_prepares_plan() {
    let font = object(vec![("loadSystemFonts", Value::Bool(false))]);
    let payload = object(vec![("font", font), ("background", Value::Text("white".to_string()))]);
    let plan = prepare_render(&Some(payload)).unwrap();
    assert_eq!(plan.background, Some(Color { red: 255, green: 255, blue: 255 }));
    assert!(plan.fonts.warnings.is_empty());
}

#[test]
fn nothing_to_draw_gives_empty_buffer() {
    assert_eq!(render_output(EngineOutcome::NoImage).unwrap(), Vec::<u8>::new());
}

#[test]
fn engine_outcomes_map_to_results() {
    assert_eq!(render_output(EngineOutcome::Encoded(vec![137, 80, 78, 71])).unwrap(), vec![137, 80, 78, 71]);
    assert!(matches!(
        render_output(EngineOutcome::DocumentRejected("bad".to_string())),
        Err(RenderError::DocumentParse(m)) if m == "bad"
    ));
    assert!(matches!(
        render_output(EngineOutcome::EncodeFailed("io".to_string())),
        Err(RenderError::Encode(m)) if m == "io"
    ));
}

#[test]
fn warnings_only_for_failed_files() {
    let files = vec!["missing.ttf".to_string(), "good.ttf".to_string(), "broken.otf".to_string()];
    let outcomes = vec![Err("not found".to_string()), Ok(()), Err("malformed".to_string())];
    let w = font_warnings(&files, &outcomes);
    assert_eq!(w.len(), 2);
    assert_eq!(w[0].path, "missing.ttf");
    assert_eq!(w[0].cause, "not found");
    assert_eq!(w[1].path, "broken.otf");
    assert_eq!(w[1].cause, "malformed");
}

#[test]
fn missing_font_file_warns_and_build_goes_on() {
    let valid = "/usr/share/fonts/truetype/dejavu/DejaVuSerif.ttf";
    let missing = "/nonexistent/dir/no-such-font.ttf";
    let mut font = JsFontOptions::default();
    font.load_system_fonts = false;
    font.font_files = vec![missing.to_string(), valid.to_string()];
    let loaded = load_fonts(&font);
    if std::path::Path::new(valid).exists() {
        assert_eq!(loaded.warnings.len(), 1);
        assert!(loaded.database.len() > 0);
    }
    assert_eq!(loaded.warnings[0].path, missing);
    assert!(!loaded.warnings[0].cause.is_empty());
    assert!(loaded.warnings.iter().all(|w| w.path != valid));
}

#[test]
fn no_fonts_asked_for_gives_empty_database() {
    let mut font = JsFontOptions::default();
    font.load_system_fonts = false;
    let loaded = load_fonts(&font);
    assert_eq!(loaded.database.len(), 0);
    assert!(loaded.warnings.is_empty());
}
