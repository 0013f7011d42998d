use resvg_node::options::{
    FitToDef, ImageRendering, JsFontOptions, JsOptions, OptionsError, ShapeRendering, TextRendering,
    deserialize_image_rendering, deserialize_shape_rendering, deserialize_text_rendering, fit_to_of,
    font_options_of,
};
use resvg_node::value::{Number, Value, canonical_number};

fn text(s: &str) -> Value {
    Value::Text(s.to_string())
}

fn whole(n: u64) -> Value {
    Value::Num(Number::PosInt(n))
}

fn float(x: f64) -> Value {
    Value::Num(Number::Float(x.to_bits()))
}

fn object(entries: Vec<(&str, Value)>) -> Value {
    Value::Object(entries.into_iter().map(|(k, v)| (k.to_string(), v)).collect())
}

fn list(items: &[&str]) -> Value {
    Value::List(items.iter().map(|s| text(s)).collect())
}

fn assert_font_eq(a: &JsFontOptions, b: &JsFontOptions) {
    assert_eq!(a.load_system_fonts, b.load_system_fonts);
    assert_eq!(a.font_files, b.font_files);
    assert_eq!(a.font_dirs, b.font_dirs);
    assert_eq!(a.default_font_family, b.default_font_family);
    assert_eq!(a.default_font_size, b.default_font_size);
    assert_eq!(a.serif_family, b.serif_family);
    assert_eq!(a.sans_serif_family, b.sans_serif_family);
    assert_eq!(a.cursive_family, b.cursive_family);
    assert_eq!(a.fantasy_family, b.fantasy_family);
    assert_eq!(a.monospace_family, b.monospace_family);
}

fn assert_options_eq(a: &JsOptions, b: &JsOptions) {
    assert_eq!(a.path, b.path);
    assert_font_eq(&a.font, &b.font);
    assert_eq!(a.dpi, b.dpi);
    assert_eq!(a.languages, b.languages);
    assert_eq!(a.shape_rendering, b.shape_rendering);
    assert_eq!(a.text_rendering, b.text_rendering);
    assert_eq!(a.image_rendering, b.image_rendering);
    assert_eq!(a.fit_to, b.fit_to);
    assert_eq!(a.background, b.background);
}

fn resolve(v: Value) -> Result<JsOptions, OptionsError> {
    JsOptions::resolve_options(&Some(v))
}

#[test]
fn absent_payload_gives_defaults() {
    let o = JsOptions::resolve_options(&None).unwrap();
    assert_eq!(o.path, None);
    assert_eq!(o.dpi, Number::PosInt(96));
    assert_eq!(o.languages, vec!["en".to_string()]);
    assert_eq!(o.shape_rendering, ShapeRendering::GeometricPrecision);
    assert_eq!(o.text_rendering, TextRendering::OptimizeLegibility);
    assert_eq!(o.image_rendering, ImageRendering::OptimizeQuality);
    assert_eq!(o.fit_to, FitToDef::Original);
    assert_eq!(o.background, None);
    assert!(o.font.load_system_fonts);
    assert!(o.font.font_files.is_empty());
    assert!(o.font.font_dirs.is_empty());
    assert_eq!(o.font.default_font_family, "Times New Roman");
    assert_eq!(o.font.default_font_size, Number::PosInt(12));
    assert_eq!(o.font.serif_family, "Times New Roman");
    assert_eq!(o.font.sans_serif_family, "Arial");
    assert_eq!(o.font.cursive_family, "Comic Sans MS");
    assert_eq!(o.font.fantasy_family, "Impact");
    assert_eq!(o.font.monospace_family, "Courier New");
    assert_options_eq(&o, &JsOptions::default());
    assert_options_eq(&resolve(Value::Null).unwrap(), &o);
    assert_options_eq(&resolve(object(vec![])).unwrap(), &o);
}

#[test]
fn explicit_defaults_resolve_like_empty_payload() {
    let font = object(vec![
        ("loadSystemFonts", Value::Bool(true)),
        ("fontFiles", list(&[])),
        ("fontDirs", list(&[])),
        ("defaultFontFamily", text("Times New Roman")),
        ("defaultFontSize", float(12.0)),
        ("serifFamily", text("Times New Roman")),
        ("sansSerifFamily", text("Arial")),
        ("cursiveFamily", text("Comic Sans MS")),
        ("fantasyFamily", text("Impact")),
        ("monospaceFamily", text("Courier New")),
    ]);
    let payload = object(vec![
        ("path", Value::Null),
        ("font", font),
        ("dpi", float(96.0)),
        ("languages", list(&["en"])),
        ("shapeRendering", whole(2)),
        ("textRendering", whole(1)),
        ("imageRendering", whole(0)),
        ("fitTo", object(vec![("mode", text("original"))])),
        ("background", Value::Null),
    ]);
    let explicit = resolve(payload).unwrap();
    let empty = resolve(object(vec![])).unwrap();
    assert_options_eq(&explicit, &empty);
}

#[test]
fn given_fields_override_defaults() {
    let payload = object(vec![
        ("path", text("/tmp/doc.svg")),
        ("dpi", whole(300)),
        ("languages", list(&["de", "en-US"])),
        ("background", text("#ff0000")),
        ("font", object(vec![("loadSystemFonts", Value::Bool(false)), ("serifFamily", text("DejaVu Serif"))])),
    ]);
    let o = resolve(payload).unwrap();
    assert_eq!(o.path, Some("/tmp/doc.svg".to_string()));
    assert_eq!(o.dpi, Number::PosInt(300));
    assert_eq!(o.languages, vec!["de".to_string(), "en-US".to_string()]);
    assert_eq!(o.background, Some("#ff0000".to_string()));
    assert!(!o.font.load_system_fonts);
    assert_eq!(o.font.serif_family, "DejaVu Serif");
    assert_eq!(o.font.sans_serif_family, "Arial");
}

#[test]
fn shape_rendering_codes() {
    assert_eq!(deserialize_shape_rendering(&whole(0)).unwrap(), ShapeRendering::OptimizeSpeed);
    assert_eq!(deserialize_shape_rendering(&whole(1)).unwrap(), ShapeRendering::CrispEdges);
    assert_eq!(deserialize_shape_rendering(&whole(2)).unwrap(), ShapeRendering::GeometricPrecision);
    assert!(matches!(deserialize_shape_rendering(&whole(3)), Err(OptionsError::InvalidShapeRendering(3))));
    assert!(matches!(
        deserialize_shape_rendering(&Value::Num(Number::NegInt(-1))),
        Err(OptionsError::InvalidShapeRendering(-1))
    ));
    assert!(matches!(deserialize_shape_rendering(&float(1.5)), Err(OptionsError::InvalidType(f)) if f == "shapeRendering"));
}

#[test]
fn text_rendering_codes() {
    assert_eq!(deserialize_text_rendering(&whole(0)).unwrap(), TextRendering::OptimizeSpeed);
    assert_eq!(deserialize_text_rendering(&whole(1)).unwrap(), TextRendering::OptimizeLegibility);
    assert_eq!(deserialize_text_rendering(&whole(2)).unwrap(), TextRendering::GeometricPrecision);
    assert!(matches!(deserialize_text_rendering(&whole(7)), Err(OptionsError::InvalidTextRendering(7))));
    assert!(matches!(deserialize_text_rendering(&text("1")), Err(OptionsError::InvalidType(f)) if f == "textRendering"));
}

#[test]
fn image_rendering_codes() {
    assert_eq!(deserialize_image_rendering(&whole(0)).unwrap(), ImageRendering::OptimizeQuality);
    assert_eq!(deserialize_image_rendering(&whole(1)).unwrap(), ImageRendering::OptimizeSpeed);
    assert!(matches!(deserialize_image_rendering(&whole(2)), Err(OptionsError::InvalidImageRendering(2))));
    assert!(matches!(
        deserialize_image_rendering(&whole(u64::MAX)),
        Err(OptionsError::InvalidImageRendering(n)) if n == u64::MAX as i128
    ));
}

#[test]
fn rendering_code_in_payload() {
    let o = resolve(object(vec![("shapeRendering", whole(1)), ("imageRendering", whole(1))])).unwrap();
    assert_eq!(o.shape_rendering, ShapeRendering::CrispEdges);
    assert_eq!(o.image_rendering, ImageRendering::OptimizeSpeed);
    assert!(matches!(resolve(object(vec![("textRendering", whole(5))])), Err(OptionsError::InvalidTextRendering(5))));
}

#[test]
fn unknown_top_level_field_is_rejected() {
    let r = resolve(object(vec![("dpi", whole(72)), ("colour", text("red"))]));
    assert!(matches!(r, Err(OptionsError::UnknownField(f)) if f == "colour"));
}

#[test]
fn unknown_font_field_is_rejected() {
    let r = resolve(object(vec![("font", object(vec![("size", whole(12))]))]));
    assert!(matches!(r, Err(OptionsError::UnknownField(f)) if f == "size"));
    let f = font_options_of(&object(vec![("bold", Value::Bool(true))]));
    assert!(matches!(f, Err(OptionsError::UnknownField(n)) if n == "bold"));
}

#[test]
fn wrong_kinds_are_rejected() {
    assert!(matches!(resolve(object(vec![("dpi", text("96"))])), Err(OptionsError::InvalidType(f)) if f == "dpi"));
    assert!(matches!(
        resolve(object(vec![("languages", Value::List(vec![whole(1)]))])),
        Err(OptionsError::InvalidType(f)) if f == "languages"
    ));
    assert!(matches!(resolve(object(vec![("font", Value::Bool(true))])), Err(OptionsError::InvalidType(f)) if f == "font"));
    assert!(matches!(resolve(Value::Bool(true)), Err(OptionsError::InvalidType(f)) if f == "options"));
}

#[test]
fn fit_to_modes() {
    assert_eq!(fit_to_of(&object(vec![("mode", text("original"))])).unwrap(), FitToDef::Original);
    assert_eq!(fit_to_of(&object(vec![("mode", text("width")), ("value", whole(640))])).unwrap(), FitToDef::Width(640));
    assert_eq!(fit_to_of(&object(vec![("value", whole(480)), ("mode", text("height"))])).unwrap(), FitToDef::Height(480));
    assert_eq!(
        fit_to_of(&object(vec![("mode", text("zoom")), ("value", float(2.0))])).unwrap(),
        FitToDef::Zoom(Number::PosInt(2))
    );
    assert_eq!(
        fit_to_of(&object(vec![("mode", text("zoom")), ("value", float(0.5))])).unwrap(),
        FitToDef::Zoom(Number::Float(0.5f64.to_bits()))
    );
    assert_eq!(fit_to_of(&object(vec![("mode", text("zoom")), ("value", whole(3))])).unwrap(), FitToDef::Zoom(Number::PosInt(3)));
}

#[test]
fn fit_to_errors() {
    assert!(matches!(fit_to_of(&object(vec![("mode", text("width"))])), Err(OptionsError::MissingField(f)) if f == "value"));
    assert!(matches!(fit_to_of(&object(vec![("value", whole(3))])), Err(OptionsError::MissingField(f)) if f == "mode"));
    assert!(matches!(fit_to_of(&object(vec![("mode", text("stretch"))])), Err(OptionsError::UnknownFitMode(m)) if m == "stretch"));
    assert!(matches!(
        fit_to_of(&object(vec![("mode", text("width")), ("value", float(1.5))])),
        Err(OptionsError::InvalidType(f)) if f == "value"
    ));
    assert!(matches!(
        fit_to_of(&object(vec![("mode", text("height")), ("value", whole(1 << 40))])),
        Err(OptionsError::InvalidType(f)) if f == "value"
    ));
    assert!(matches!(
        fit_to_of(&object(vec![("mode", text("original")), ("scale", whole(1))])),
        Err(OptionsError::UnknownField(f)) if f == "scale"
    ));
    assert!(matches!(fit_to_of(&text("zoom")), Err(OptionsError::InvalidType(f)) if f == "fitTo"));
}

#[test]
fn integer_written_defaults_resolve_like_empty_payload() {
    let font = object(vec![("defaultFontSize", whole(12)), ("serifFamily", text("Times New Roman"))]);
    let payload = object(vec![("dpi", whole(96)), ("font", font), ("shapeRendering", whole(2))]);
    assert_options_eq(&resolve(payload).unwrap(), &JsOptions::resolve_options(&None).unwrap());
    assert_options_eq(&resolve(object(vec![("dpi", whole(96))])).unwrap(), &JsOptions::default());
}

#[test]
fn numbers_take_one_form() {
    assert_eq!(canonical_number(Number::Float(96.0f64.to_bits())), Number::PosInt(96));
    assert_eq!(canonical_number(Number::Float(12.0f64.to_bits())), Number::PosInt(12));
    assert_eq!(canonical_number(Number::Float(0.0f64.to_bits())), Number::PosInt(0));
    assert_eq!(canonical_number(Number::Float((-0.0f64).to_bits())), Number::PosInt(0));
    assert_eq!(canonical_number(Number::Float((-3.0f64).to_bits())), Number::NegInt(-3));
    assert_eq!(canonical_number(Number::Float(4096.0f64.to_bits())), Number::PosInt(4096));
    assert_eq!(canonical_number(Number::Float(9007199254740992.0f64.to_bits())), Number::PosInt(1 << 53));
    assert_eq!(canonical_number(Number::Float(18446744073709549568.0f64.to_bits())), Number::PosInt(18446744073709549568));
    assert_eq!(canonical_number(Number::Float((-9223372036854775808.0f64).to_bits())), Number::NegInt(i64::MIN));
    assert_eq!(canonical_number(Number::Float(1.5f64.to_bits())), Number::Float(1.5f64.to_bits()));
    assert_eq!(canonical_number(Number::Float(1e300f64.to_bits())), Number::Float(1e300f64.to_bits()));
    assert_eq!(canonical_number(Number::Float(f64::INFINITY.to_bits())), Number::Float(f64::INFINITY.to_bits()));
    assert_eq!(canonical_number(Number::Float(5e-324f64.to_bits())), Number::Float(5e-324f64.to_bits()));
    assert_eq!(canonical_number(Number::NegInt(5)), Number::PosInt(5));
    assert_eq!(canonical_number(Number::NegInt(-5)), Number::NegInt(-5));
    assert_eq!(canonical_number(Number::PosInt(7)), Number::PosInt(7));
}

#[test]
fn float_dpi_resolves_to_integer_form() {
    let o = resolve(object(vec![("dpi", float(300.0)), ("font", object(vec![("defaultFontSize", float(10.5))]))])).unwrap();
    assert_eq!(o.dpi, Number::PosInt(300));
    assert_eq!(o.font.default_font_size, Number::Float(10.5f64.to_bits()));
}

#[test]
fn empty_family_name_is_rejected() {
    let r = resolve(object(vec![("font", object(vec![("serifFamily", text(""))]))]));
    assert!(matches!(r, Err(OptionsError::EmptyName(f)) if f == "serifFamily"));
    let r = resolve(object(vec![("font", object(vec![("defaultFontFamily", text(""))]))]));
    assert!(matches!(r, Err(OptionsError::EmptyName(f)) if f == "defaultFontFamily"));
}

#[test]
fn error_messages_name_the_fault() {
    assert_eq!(
        OptionsError::InvalidShapeRendering(3).message(),
        "Invalid ShapeRendering value: 3. Expected 0 (OptimizeSpeed), 1 (CrispEdges), or 2 (GeometricPrecision)."
    );
    assert_eq!(
        OptionsError::InvalidTextRendering(-12).message(),
        "Invalid TextRendering value: -12. Expected 0 (OptimizeSpeed), 1 (OptimizeLegibility), or 2 (GeometricPrecision)."
    );
    assert_eq!(
        OptionsError::InvalidImageRendering(18446744073709551615).message(),
        "Invalid ImageRendering value: 18446744073709551615. Expected 0 (OptimizeQuality) or 1 (OptimizeSpeed)."
    );
    assert_eq!(
        OptionsError::InvalidImageRendering(i64::MIN as i128).message(),
        "Invalid ImageRendering value: -9223372036854775808. Expected 0 (OptimizeQuality) or 1 (OptimizeSpeed)."
    );
    assert_eq!(OptionsError::UnknownField("colour".to_string()).message(), "unknown field `colour`");
    assert_eq!(OptionsError::MissingField("value".to_string()).message(), "missing field `value`");
    assert_eq!(OptionsError::InvalidType("dpi".to_string()).message(), "invalid type for `dpi`");
    assert_eq!(OptionsError::EmptyName("serifFamily".to_string()).message(), "empty font family name for `serifFamily`");
    assert_eq!(
        OptionsError::UnknownFitMode("stretch".to_string()).message(),
        "unknown fit mode `stretch`, expected one of `original`, `width`, `height`, `zoom`"
    );
    let r = resolve(object(vec![("shapeRendering", whole(4))]));
    assert!(r.err().unwrap().message().contains(": 4."));
}
