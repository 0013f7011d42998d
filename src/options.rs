//! Resolution of the configuration payload into render settings.
//!
//! Every field of the payload is optional; a field that is left out takes its
//! default. A field that the schema does not know, or that holds a value of
//! the wrong kind, makes resolution fail.
use vstd::prelude::*;
use crate::value::{Number, Value, canonical, canonical_number, text_is};

verus! {

/// How the edges of shapes are drawn when a document leaves it to the renderer.
#[derive(Clone, Copy, Debug, PartialEq, Eq, Structural)]
pub enum ShapeRendering {
    OptimizeSpeed,
    CrispEdges,
    GeometricPrecision,
}

/// How text is drawn when a document leaves it to the renderer.
#[derive(Clone, Copy, Debug, PartialEq, Eq, Structural)]
pub enum TextRendering {
    OptimizeSpeed,
    OptimizeLegibility,
    GeometricPrecision,
}

/// How raster images are scaled when a document leaves it to the renderer.
#[derive(Clone, Copy, Debug, PartialEq, Eq, Structural)]
pub enum ImageRendering {
    OptimizeQuality,
    OptimizeSpeed,
}

/// How the size of the output image relates to the document's own size.
#[derive(Clone, Copy, Debug, PartialEq, Eq, Structural)]
pub enum FitToDef {
    /// Keep the document's size.
    Original,
    /// Scale to this width in pixels.
    Width(u32),
    /// Scale to this height in pixels.
    Height(u32),
    /// Scale by this factor.
    Zoom(Number),
}

/// Why a configuration payload was rejected.
#[derive(Debug)]
pub enum OptionsError {
    /// A field that the schema does not have.
    UnknownField(String),
    /// A field that must be present is missing.
    MissingField(String),
    /// A field holds a value of the wrong kind.
    InvalidType(String),
    /// A font family field holds the empty string.
    EmptyName(String),
    /// `fitTo.mode` names no fit mode.
    UnknownFitMode(String),
    /// `shapeRendering` is an integer other than 0, 1 or 2.
    InvalidShapeRendering(i128),
    /// `textRendering` is an integer other than 0, 1 or 2.
    InvalidTextRendering(i128),
    /// `imageRendering` is an integer other than 0 or 1.
    InvalidImageRendering(i128),
}

/// An [`OptionsError`] with its text as characters.
pub enum OptionsErrorView {
    UnknownField(Seq<char>),
    MissingField(Seq<char>),
    InvalidType(Seq<char>),
    EmptyName(Seq<char>),
    UnknownFitMode(Seq<char>),
    InvalidShapeRendering(int),
    InvalidTextRendering(int),
    InvalidImageRendering(int),
}

impl View for OptionsError {
    type V = OptionsErrorView;

    open spec fn view(&self) -> OptionsErrorView {
        match self {
            OptionsError::UnknownField(s) => OptionsErrorView::UnknownField(s@),
            OptionsError::MissingField(s) => OptionsErrorView::MissingField(s@),
            OptionsError::InvalidType(s) => OptionsErrorView::InvalidType(s@),
            OptionsError::EmptyName(s) => OptionsErrorView::EmptyName(s@),
            OptionsError::UnknownFitMode(s) => OptionsErrorView::UnknownFitMode(s@),
            OptionsError::InvalidShapeRendering(n) => OptionsErrorView::InvalidShapeRendering(*n as int),
            OptionsError::InvalidTextRendering(n) => OptionsErrorView::InvalidTextRendering(*n as int),
            OptionsError::InvalidImageRendering(n) => OptionsErrorView::InvalidImageRendering(*n as int),
        }
    }
}

/// The default resolution, in dots per inch.
pub const DEFAULT_DPI: u64 = 96;

/// The default font size.
pub const DEFAULT_FONT_SIZE: u64 = 12;

/// Font related settings.
pub struct JsFontOptions {
    /// Whether the fonts installed on the system are loaded.
    pub load_system_fonts: bool,
    /// Font files to load, in order.
    pub font_files: Vec<String>,
    /// Directories to scan for fonts, in order.
    pub font_dirs: Vec<String>,
    /// The family used where a document names none.
    pub default_font_family: String,
    /// The size used where a document gives none.
    pub default_font_size: Number,
    /// The family behind the generic name `serif`.
    pub serif_family: String,
    /// The family behind the generic name `sans-serif`.
    pub sans_serif_family: String,
    /// The family behind the generic name `cursive`.
    pub cursive_family: String,
    /// The family behind the generic name `fantasy`.
    pub fantasy_family: String,
    /// The family behind the generic name `monospace`.
    pub monospace_family: String,
}

/// [`JsFontOptions`] with its text as characters.
pub struct JsFontOptionsView {
    pub load_system_fonts: bool,
    pub font_files: Seq<Seq<char>>,
    pub font_dirs: Seq<Seq<char>>,
    pub default_font_family: Seq<char>,
    pub default_font_size: Number,
    pub serif_family: Seq<char>,
    pub sans_serif_family: Seq<char>,
    pub cursive_family: Seq<char>,
    pub fantasy_family: Seq<char>,
    pub monospace_family: Seq<char>,
}

/// The characters of each string, in order.
pub open spec fn texts(v: Seq<String>) -> Seq<Seq<char>> {
    v.map_values(|s: String| s@)
}

impl View for JsFontOptions {
    type V = JsFontOptionsView;

    open spec fn view(&self) -> JsFontOptionsView {
        JsFontOptionsView {
            load_system_fonts: self.load_system_fonts,
            font_files: texts(self.font_files@),
            font_dirs: texts(self.font_dirs@),
            default_font_family: self.default_font_family@,
            default_font_size: self.default_font_size,
            serif_family: self.serif_family@,
            sans_serif_family: self.sans_serif_family@,
            cursive_family: self.cursive_family@,
            fantasy_family: self.fantasy_family@,
            monospace_family: self.monospace_family@,
        }
    }
}

/// Resolved render settings.
pub struct JsOptions {
    /// The path of the document, used to resolve relative references.
    pub path: Option<String>,
    /// Font related settings.
    pub font: JsFontOptions,
    /// The target resolution.
    pub dpi: Number,
    /// Language tags, used to resolve `systemLanguage` conditions.
    pub languages: Vec<String>,
    pub shape_rendering: ShapeRendering,
    pub text_rendering: TextRendering,
    pub image_rendering: ImageRendering,
    /// The size of the output image.
    pub fit_to: FitToDef,
    /// The background colour, as written; `None` leaves the canvas transparent.
    pub background: Option<String>,
}

/// [`JsOptions`] with its text as characters.
pub struct JsOptionsView {
    pub path: Option<Seq<char>>,
    pub font: JsFontOptionsView,
    pub dpi: Number,
    pub languages: Seq<Seq<char>>,
    pub shape_rendering: ShapeRendering,
    pub text_rendering: TextRendering,
    pub image_rendering: ImageRendering,
    pub fit_to: FitToDef,
    pub background: Option<Seq<char>>,
}

/// The characters of an optional string.
pub open spec fn opt_text(o: Option<String>) -> Option<Seq<char>> {
    match o {
        Some(s) => Some(s@),
        None => None,
    }
}

impl View for JsOptions {
    type V = JsOptionsView;

    open spec fn view(&self) -> JsOptionsView {
        JsOptionsView {
            path: opt_text(self.path),
            font: self.font@,
            dpi: self.dpi,
            languages: texts(self.languages@),
            shape_rendering: self.shape_rendering,
            text_rendering: self.text_rendering,
            image_rendering: self.image_rendering,
            fit_to: self.fit_to,
            background: opt_text(self.background),
        }
    }
}

/// The font settings that hold where the payload gives none.
pub open spec fn default_font_options() -> JsFontOptionsView {
    JsFontOptionsView {
        load_system_fonts: true,
        font_files: Seq::empty(),
        font_dirs: Seq::empty(),
        default_font_family: "Times New Roman"@,
        default_font_size: Number::PosInt(DEFAULT_FONT_SIZE),
        serif_family: "Times New Roman"@,
        sans_serif_family: "Arial"@,
        cursive_family: "Comic Sans MS"@,
        fantasy_family: "Impact"@,
        monospace_family: "Courier New"@,
    }
}

/// No font family name is empty.
pub open spec fn names_given(f: JsFontOptionsView) -> bool {
    f.default_font_family.len() > 0 && f.serif_family.len() > 0 && f.sans_serif_family.len() > 0
        && f.cursive_family.len() > 0 && f.fantasy_family.len() > 0 && f.monospace_family.len() > 0
}

/// The settings that hold where the payload gives none.
pub open spec fn default_options() -> JsOptionsView {
    JsOptionsView {
        path: None,
        font: default_font_options(),
        dpi: Number::PosInt(DEFAULT_DPI),
        languages: seq!["en"@],
        shape_rendering: ShapeRendering::GeometricPrecision,
        text_rendering: TextRendering::OptimizeLegibility,
        image_rendering: ImageRendering::OptimizeQuality,
        fit_to: FitToDef::Original,
        background: None,
    }
}

impl Default for JsFontOptions {
    fn default() -> (r: JsFontOptions)
        ensures
            r@ == default_font_options(),
            names_given(r@),
    {
        proof {
            reveal_strlit("Times New Roman");
            reveal_strlit("Arial");
            reveal_strlit("Comic Sans MS");
            reveal_strlit("Impact");
            reveal_strlit("Courier New");
        }
        let r = JsFontOptions {
            load_system_fonts: true,
            font_files: Vec::new(),
            font_dirs: Vec::new(),
            default_font_family: "Times New Roman".to_owned(),
            default_font_size: Number::PosInt(DEFAULT_FONT_SIZE),
            serif_family: "Times New Roman".to_owned(),
            sans_serif_family: "Arial".to_owned(),
            cursive_family: "Comic Sans MS".to_owned(),
            fantasy_family: "Impact".to_owned(),
            monospace_family: "Courier New".to_owned(),
        };
        assert(r@.font_files =~= Seq::<Seq<char>>::empty());
        assert(r@.font_dirs =~= Seq::<Seq<char>>::empty());
        r
    }
}

impl Default for JsOptions {
    fn default() -> (r: JsOptions)
        ensures
            r@ == default_options(),
            names_given(r@.font),
    {
        let mut languages: Vec<String> = Vec::new();
        languages.push("en".to_owned());
        let r = JsOptions {
            path: None,
            font: JsFontOptions::default(),
            dpi: Number::PosInt(DEFAULT_DPI),
            languages,
            shape_rendering: ShapeRendering::GeometricPrecision,
            text_rendering: TextRendering::OptimizeLegibility,
            image_rendering: ImageRendering::OptimizeQuality,
            fit_to: FitToDef::Original,
            background: None,
        };
        assert(r@.languages =~= seq!["en"@]);
        r
    }
}

/// The integer that a payload value holds, if it holds one.
pub open spec fn integer_of(v: Value) -> Option<int> {
    match v {
        Value::Num(Number::PosInt(n)) => Some(n as int),
        Value::Num(Number::NegInt(n)) => Some(n as int),
        _ => None,
    }
}

/// The shape rendering that a `shapeRendering` value gives.
pub open spec fn shape_rendering_of(v: Value) -> Result<ShapeRendering, OptionsErrorView> {
    match integer_of(v) {
        Some(n) => if n == 0 {
            Ok(ShapeRendering::OptimizeSpeed)
        } else if n == 1 {
            Ok(ShapeRendering::CrispEdges)
        } else if n == 2 {
            Ok(ShapeRendering::GeometricPrecision)
        } else {
            Err(OptionsErrorView::InvalidShapeRendering(n))
        },
        None => Err(OptionsErrorView::InvalidType("shapeRendering"@)),
    }
}

/// The text rendering that a `textRendering` value gives.
pub open spec fn text_rendering_of(v: Value) -> Result<TextRendering, OptionsErrorView> {
    match integer_of(v) {
        Some(n) => if n == 0 {
            Ok(TextRendering::OptimizeSpeed)
        } else if n == 1 {
            Ok(TextRendering::OptimizeLegibility)
        } else if n == 2 {
            Ok(TextRendering::GeometricPrecision)
        } else {
            Err(OptionsErrorView::InvalidTextRendering(n))
        },
        None => Err(OptionsErrorView::InvalidType("textRendering"@)),
    }
}

/// The image rendering that an `imageRendering` value gives.
pub open spec fn image_rendering_of(v: Value) -> Result<ImageRendering, OptionsErrorView> {
    match integer_of(v) {
        Some(n) => if n == 0 {
            Ok(ImageRendering::OptimizeQuality)
        } else if n == 1 {
            Ok(ImageRendering::OptimizeSpeed)
        } else {
            Err(OptionsErrorView::InvalidImageRendering(n))
        },
        None => Err(OptionsErrorView::InvalidType("imageRendering"@)),
    }
}

/// `r` is the exec counterpart of the outcome `s`.
pub open spec fn same_outcome<T, U>(r: Result<T, OptionsError>, s: Result<U, OptionsErrorView>, f: spec_fn(T) -> U) -> bool {
    match (r, s) {
        (Ok(x), Ok(y)) => f(x) == y,
        (Err(e), Err(d)) => e@ == d,
        _ => false,
    }
}

fn integer_code(v: &Value) -> (r: Option<i128>)
    ensures
        match integer_of(*v) {
            Some(n) => r == Some(n as i128),
            None => r is None,
        },
{
    match v {
        Value::Num(Number::PosInt(n)) => Some(*n as i128),
        Value::Num(Number::NegInt(n)) => Some(*n as i128),
        _ => None,
    }
}

/// Reads `shapeRendering`: 0 is `OptimizeSpeed`, 1 `CrispEdges`, 2 `GeometricPrecision`.
pub fn deserialize_shape_rendering(v: &Value) -> (r: Result<ShapeRendering, OptionsError>)
    ensures
        same_outcome(r, shape_rendering_of(*v), |x: ShapeRendering| x),
{
    match integer_code(v) {
        Some(0) => Ok(ShapeRendering::OptimizeSpeed),
        Some(1) => Ok(ShapeRendering::CrispEdges),
        Some(2) => Ok(ShapeRendering::GeometricPrecision),
        Some(n) => Err(OptionsError::InvalidShapeRendering(n)),
        None => Err(OptionsError::InvalidType("shapeRendering".to_owned())),
    }
}

/// Reads `textRendering`: 0 is `OptimizeSpeed`, 1 `OptimizeLegibility`, 2 `GeometricPrecision`.
pub fn deserialize_text_rendering(v: &Value) -> (r: Result<TextRendering, OptionsError>)
    ensures
        same_outcome(r, text_rendering_of(*v), |x: TextRendering| x),
{
    match integer_code(v) {
        Some(0) => Ok(TextRendering::OptimizeSpeed),
        Some(1) => Ok(TextRendering::OptimizeLegibility),
        Some(2) => Ok(TextRendering::GeometricPrecision),
        Some(n) => Err(OptionsError::InvalidTextRendering(n)),
        None => Err(OptionsError::InvalidType("textRendering".to_owned())),
    }
}

/// Reads `imageRendering`: 0 is `OptimizeQuality`, 1 `OptimizeSpeed`.
pub fn deserialize_image_rendering(v: &Value) -> (r: Result<ImageRendering, OptionsError>)
    ensures
        same_outcome(r, image_rendering_of(*v), |x: ImageRendering| x),
{
    match integer_code(v) {
        Some(0) => Ok(ImageRendering::OptimizeQuality),
        Some(1) => Ok(ImageRendering::OptimizeSpeed),
        Some(n) => Err(OptionsError::InvalidImageRendering(n)),
        None => Err(OptionsError::InvalidType("imageRendering".to_owned())),
    }
}


/// The characters of a text value; other values have none.
pub open spec fn text_of(v: Value) -> Seq<char> {
    match v {
        Value::Text(s) => s@,
        _ => Seq::empty(),
    }
}

/// The strings of a list value, if it holds strings only.
pub open spec fn strings_of(v: Value) -> Option<Seq<Seq<char>>> {
    match v {
        Value::List(items) => if forall|i: int| 0 <= i < items@.len() ==> (#[trigger] items@[i]) is Text {
            Some(items@.map_values(|x: Value| text_of(x)))
        } else {
            None
        },
        _ => None,
    }
}

/// The outcome `s` of updating a record to `new` is the exec outcome `r`.
pub open spec fn applied<V>(r: Result<(), OptionsError>, new: V, s: Result<V, OptionsErrorView>) -> bool {
    match (r, s) {
        (Ok(_), Ok(x)) => new == x,
        (Err(e), Err(d)) => e@ == d,
        _ => false,
    }
}

fn invalid_type(key: &String) -> (r: OptionsError)
    ensures
        r@ == OptionsErrorView::InvalidType(key@),
{
    OptionsError::InvalidType(key.clone())
}

fn text_field(key: &String, v: &Value) -> (r: Result<String, OptionsError>)
    ensures
        match *v {
            Value::Text(s) => r matches Ok(t) && t@ == s@,
            _ => r matches Err(e) && e@ == OptionsErrorView::InvalidType(key@),
        },
{
    match v {
        Value::Text(s) => Ok(s.clone()),
        _ => Err(invalid_type(key)),
    }
}

fn family_field(key: &String, v: &Value) -> (r: Result<String, OptionsError>)
    ensures
        match *v {
            Value::Text(s) => if s@.len() == 0 {
                r matches Err(e) && e@ == OptionsErrorView::EmptyName(key@)
            } else {
                r matches Ok(t) && t@ == s@
            },
            _ => r matches Err(e) && e@ == OptionsErrorView::InvalidType(key@),
        },
{
    match text_field(key, v) {
        Ok(t) => if t.as_str().is_empty() {
            Err(OptionsError::EmptyName(key.clone()))
        } else {
            Ok(t)
        },
        Err(e) => Err(e),
    }
}

fn strings_field(key: &String, v: &Value) -> (r: Result<Vec<String>, OptionsError>)
    ensures
        match strings_of(*v) {
            Some(t) => r matches Ok(l) && texts(l@) == t,
            None => r matches Err(e) && e@ == OptionsErrorView::InvalidType(key@),
        },
{
    match v {
        Value::List(items) => {
            let mut out: Vec<String> = Vec::new();
            let mut i: usize = 0;
            while i < items.len()
                invariant
                    *v == Value::List(*items),
                    i <= items@.len(),
                    out@.len() == i,
                    forall|j: int| 0 <= j < i ==> (#[trigger] items@[j]) is Text,
                    forall|j: int| 0 <= j < i ==> (#[trigger] out@[j])@ == text_of(items@[j]),
                decreases items@.len() - i,
            {
                match &items[i] {
                    Value::Text(s) => {
                        out.push(s.clone());
                    },
                    _ => {
                        assert(!(items@[i as int] is Text));
                        return Err(invalid_type(key));
                    },
                }
                i = i + 1;
            }
            assert(texts(out@) =~= items@.map_values(|x: Value| text_of(x)));
            Ok(out)
        },
        _ => Err(invalid_type(key)),
    }
}

/// Sets one field of the font settings from a payload entry.
pub open spec fn apply_font_field(f: JsFontOptionsView, key: Seq<char>, v: Value) -> Result<JsFontOptionsView, OptionsErrorView> {
    let bad = OptionsErrorView::InvalidType(key);
    if key == "loadSystemFonts"@ {
        match v {
            Value::Bool(b) => Ok(JsFontOptionsView { load_system_fonts: b, ..f }),
            _ => Err(bad),
        }
    } else if key == "fontFiles"@ {
        match strings_of(v) {
            Some(t) => Ok(JsFontOptionsView { font_files: t, ..f }),
            None => Err(bad),
        }
    } else if key == "fontDirs"@ {
        match strings_of(v) {
            Some(t) => Ok(JsFontOptionsView { font_dirs: t, ..f }),
            None => Err(bad),
        }
    } else if key == "defaultFontSize"@ {
        match v {
            Value::Num(n) => Ok(JsFontOptionsView { default_font_size: canonical(n), ..f }),
            _ => Err(bad),
        }
    } else if !(v is Text) && (key == "defaultFontFamily"@ || key == "serifFamily"@
        || key == "sansSerifFamily"@ || key == "cursiveFamily"@ || key == "fantasyFamily"@
        || key == "monospaceFamily"@) {
        Err(bad)
    } else if text_of(v).len() == 0 && (key == "defaultFontFamily"@ || key == "serifFamily"@
        || key == "sansSerifFamily"@ || key == "cursiveFamily"@ || key == "fantasyFamily"@
        || key == "monospaceFamily"@) {
        Err(OptionsErrorView::EmptyName(key))
    } else if key == "defaultFontFamily"@ {
        Ok(JsFontOptionsView { default_font_family: text_of(v), ..f })
    } else if key == "serifFamily"@ {
        Ok(JsFontOptionsView { serif_family: text_of(v), ..f })
    } else if key == "sansSerifFamily"@ {
        Ok(JsFontOptionsView { sans_serif_family: text_of(v), ..f })
    } else if key == "cursiveFamily"@ {
        Ok(JsFontOptionsView { cursive_family: text_of(v), ..f })
    } else if key == "fantasyFamily"@ {
        Ok(JsFontOptionsView { fantasy_family: text_of(v), ..f })
    } else if key == "monospaceFamily"@ {
        Ok(JsFontOptionsView { monospace_family: text_of(v), ..f })
    } else {
        Err(OptionsErrorView::UnknownField(key))
    }
}

/// Applies the entries of `es` from the `i`-th on, in order; the first failure stops it.
pub open spec fn font_fields(f: JsFontOptionsView, es: Seq<(String, Value)>, i: int) -> Result<JsFontOptionsView, OptionsErrorView>
    decreases es.len() - i,
{
    if i >= es.len() {
        Ok(f)
    } else {
        match apply_font_field(f, es[i].0@, es[i].1) {
            Ok(g) => font_fields(g, es, i + 1),
            Err(e) => Err(e),
        }
    }
}

/// The font settings that a `font` value gives: the defaults, then its entries.
pub open spec fn font_of(v: Value) -> Result<JsFontOptionsView, OptionsErrorView> {
    match v {
        Value::Object(es) => font_fields(default_font_options(), es@, 0),
        _ => Err(OptionsErrorView::InvalidType("font"@)),
    }
}

fn apply_font_entry(f: &mut JsFontOptions, key: &String, v: &Value) -> (r: Result<(), OptionsError>)
    ensures
        applied(r, final(f)@, apply_font_field(old(f)@, key@, *v)),
{
    if text_is(key, "loadSystemFonts") {
        match v {
            Value::Bool(b) => {
                f.load_system_fonts = *b;
                Ok(())
            },
            _ => Err(invalid_type(key)),
        }
    } else if text_is(key, "fontFiles") {
        match strings_field(key, v) {
            Ok(l) => {
                f.font_files = l;
                Ok(())
            },
            Err(e) => Err(e),
        }
    } else if text_is(key, "fontDirs") {
        match strings_field(key, v) {
            Ok(l) => {
                f.font_dirs = l;
                Ok(())
            },
            Err(e) => Err(e),
        }
    } else if text_is(key, "defaultFontSize") {
        match v {
            Value::Num(n) => {
                f.default_font_size = canonical_number(*n);
                Ok(())
            },
            _ => Err(invalid_type(key)),
        }
    } else if text_is(key, "defaultFontFamily") {
        match family_field(key, v) {
            Ok(t) => {
                f.default_font_family = t;
                Ok(())
            },
            Err(e) => Err(e),
        }
    } else if text_is(key, "serifFamily") {
        match family_field(key, v) {
            Ok(t) => {
                f.serif_family = t;
                Ok(())
            },
            Err(e) => Err(e),
        }
    } else if text_is(key, "sansSerifFamily") {
        match family_field(key, v) {
            Ok(t) => {
                f.sans_serif_family = t;
                Ok(())
            },
            Err(e) => Err(e),
        }
    } else if text_is(key, "cursiveFamily") {
        match family_field(key, v) {
            Ok(t) => {
                f.cursive_family = t;
                Ok(())
            },
            Err(e) => Err(e),
        }
    } else if text_is(key, "fantasyFamily") {
        match family_field(key, v) {
            Ok(t) => {
                f.fantasy_family = t;
                Ok(())
            },
            Err(e) => Err(e),
        }
    } else if text_is(key, "monospaceFamily") {
        match family_field(key, v) {
            Ok(t) => {
                f.monospace_family = t;
                Ok(())
            },
            Err(e) => Err(e),
        }
    } else {
        Err(OptionsError::UnknownField(key.clone()))
    }
}

/// Reads the `font` field: the default font settings, overridden by its entries.
pub fn font_options_of(v: &Value) -> (r: Result<JsFontOptions, OptionsError>)
    ensures
        same_outcome(r, font_of(*v), |f: JsFontOptions| f@),
        r matches Ok(f) ==> names_given(f@),
{
    match v {
        Value::Object(es) => {
            let mut f = JsFontOptions::default();
            let mut i: usize = 0;
            while i < es.len()
                invariant
                    *v == Value::Object(*es),
                    i <= es@.len(),
                    names_given(f@),
                    font_fields(default_font_options(), es@, 0) == font_fields(f@, es@, i as int),
                decreases es@.len() - i,
            {
                let entry = &es[i];
                let ghost before = f@;
                match apply_font_entry(&mut f, &entry.0, &entry.1) {
                    Ok(()) => {},
                    Err(e) => {
                        assert(font_fields(before, es@, i as int) == Err::<JsFontOptionsView, _>(e@));
                        return Err(e);
                    },
                }
                i = i + 1;
            }
            Ok(f)
        },
        _ => Err(OptionsError::InvalidType("font".to_owned())),
    }
}

/// The value that entry `j` of `es` holds, for an index that is set.
pub open spec fn entry_value(es: Seq<(String, Value)>, j: Option<usize>) -> Option<Value> {
    match j {
        Some(j) => Some(es[j as int].1),
        None => None,
    }
}

/// The `mode` and `value` entries of a `fitTo` object, scanning from the `i`-th
/// entry on; a later entry replaces an earlier one of the same name.
pub open spec fn fit_parts(es: Seq<(String, Value)>, i: int, mode: Option<Value>, value: Option<Value>) -> Result<(Option<Value>, Option<Value>), OptionsErrorView>
    decreases es.len() - i,
{
    if i >= es.len() {
        Ok((mode, value))
    } else if es[i].0@ == "mode"@ {
        fit_parts(es, i + 1, Some(es[i].1), value)
    } else if es[i].0@ == "value"@ {
        fit_parts(es, i + 1, mode, Some(es[i].1))
    } else {
        Err(OptionsErrorView::UnknownField(es[i].0@))
    }
}

/// A width or a height in pixels.
pub open spec fn pixels_of(value: Option<Value>) -> Result<u32, OptionsErrorView> {
    match value {
        None => Err(OptionsErrorView::MissingField("value"@)),
        Some(Value::Num(Number::PosInt(n))) => if n <= u32::MAX {
            Ok(n as u32)
        } else {
            Err(OptionsErrorView::InvalidType("value"@))
        },
        Some(_) => Err(OptionsErrorView::InvalidType("value"@)),
    }
}

/// The fit mode that a `mode` and a `value` entry give.
pub open spec fn fit_mode_of(mode: Option<Value>, value: Option<Value>) -> Result<FitToDef, OptionsErrorView> {
    match mode {
        None => Err(OptionsErrorView::MissingField("mode"@)),
        Some(Value::Text(m)) => if m@ == "original"@ {
            match value {
                None => Ok(FitToDef::Original),
                Some(Value::Null) => Ok(FitToDef::Original),
                Some(_) => Err(OptionsErrorView::InvalidType("value"@)),
            }
        } else if m@ == "width"@ {
            match pixels_of(value) {
                Ok(n) => Ok(FitToDef::Width(n)),
                Err(e) => Err(e),
            }
        } else if m@ == "height"@ {
            match pixels_of(value) {
                Ok(n) => Ok(FitToDef::Height(n)),
                Err(e) => Err(e),
            }
        } else if m@ == "zoom"@ {
            match value {
                None => Err(OptionsErrorView::MissingField("value"@)),
                Some(Value::Num(n)) => Ok(FitToDef::Zoom(canonical(n))),
                Some(_) => Err(OptionsErrorView::InvalidType("value"@)),
            }
        } else {
            Err(OptionsErrorView::UnknownFitMode(m@))
        },
        Some(_) => Err(OptionsErrorView::InvalidType("mode"@)),
    }
}

/// The fit mode that a `fitTo` value gives.
pub open spec fn fit_of(v: Value) -> Result<FitToDef, OptionsErrorView> {
    match v {
        Value::Object(es) => match fit_parts(es@, 0, None, None) {
            Ok((m, x)) => fit_mode_of(m, x),
            Err(e) => Err(e),
        },
        _ => Err(OptionsErrorView::InvalidType("fitTo"@)),
    }
}

fn pixels(es: &Vec<(String, Value)>, value: Option<usize>) -> (r: Result<u32, OptionsError>)
    requires
        value matches Some(j) ==> j < es@.len(),
    ensures
        same_outcome(r, pixels_of(entry_value(es@, value)), |n: u32| n),
{
    match value {
        None => Err(OptionsError::MissingField("value".to_owned())),
        Some(j) => match &es[j].1 {
            Value::Num(Number::PosInt(n)) => if *n <= u32::MAX as u64 {
                Ok(*n as u32)
            } else {
                Err(OptionsError::InvalidType("value".to_owned()))
            },
            _ => Err(OptionsError::InvalidType("value".to_owned())),
        },
    }
}

fn fit_mode(es: &Vec<(String, Value)>, mode: Option<usize>, value: Option<usize>) -> (r: Result<FitToDef, OptionsError>)
    requires
        mode matches Some(j) ==> j < es@.len(),
        value matches Some(j) ==> j < es@.len(),
    ensures
        same_outcome(r, fit_mode_of(entry_value(es@, mode), entry_value(es@, value)), |f: FitToDef| f),
{
    let m = match mode {
        None => {
            return Err(OptionsError::MissingField("mode".to_owned()));
        },
        Some(j) => match &es[j].1 {
            Value::Text(m) => m,
            _ => {
                return Err(OptionsError::InvalidType("mode".to_owned()));
            },
        },
    };
    if text_is(m, "original") {
        match value {
            None => Ok(FitToDef::Original),
            Some(j) => match &es[j].1 {
                Value::Null => Ok(FitToDef::Original),
                _ => Err(OptionsError::InvalidType("value".to_owned())),
            },
        }
    } else if text_is(m, "width") {
        match pixels(es, value) {
            Ok(n) => Ok(FitToDef::Width(n)),
            Err(e) => Err(e),
        }
    } else if text_is(m, "height") {
        match pixels(es, value) {
            Ok(n) => Ok(FitToDef::Height(n)),
            Err(e) => Err(e),
        }
    } else if text_is(m, "zoom") {
        match value {
            None => Err(OptionsError::MissingField("value".to_owned())),
            Some(j) => match &es[j].1 {
                Value::Num(n) => Ok(FitToDef::Zoom(canonical_number(*n))),
                _ => Err(OptionsError::InvalidType("value".to_owned())),
            },
        }
    } else {
        Err(OptionsError::UnknownFitMode(m.clone()))
    }
}

/// Reads the `fitTo` field: an object with a `mode` entry and, for every mode
/// but `original`, a `value` entry.
pub fn fit_to_of(v: &Value) -> (r: Result<FitToDef, OptionsError>)
    ensures
        same_outcome(r, fit_of(*v), |f: FitToDef| f),
{
    match v {
        Value::Object(es) => {
            let mut mode: Option<usize> = None;
            let mut value: Option<usize> = None;
            let mut i: usize = 0;
            while i < es.len()
                invariant
                    *v == Value::Object(*es),
                    i <= es@.len(),
                    mode matches Some(j) ==> j < i,
                    value matches Some(j) ==> j < i,
                    fit_parts(es@, 0, None, None) == fit_parts(es@, i as int, entry_value(es@, mode), entry_value(es@, value)),
                decreases es@.len() - i,
            {
                let key = &es[i].0;
                if text_is(key, "mode") {
                    mode = Some(i);
                } else if text_is(key, "value") {
                    value = Some(i);
                } else {
                    return Err(OptionsError::UnknownField(key.clone()));
                }
                i = i + 1;
            }
            fit_mode(es, mode, value)
        },
        _ => Err(OptionsError::InvalidType("fitTo".to_owned())),
    }
}

/// Sets one field of the settings from a payload entry.
pub open spec fn apply_field(o: JsOptionsView, key: Seq<char>, v: Value) -> Result<JsOptionsView, OptionsErrorView> {
    let bad = OptionsErrorView::InvalidType(key);
    if key == "path"@ {
        match v {
            Value::Null => Ok(JsOptionsView { path: None, ..o }),
            Value::Text(s) => Ok(JsOptionsView { path: Some(s@), ..o }),
            _ => Err(bad),
        }
    } else if key == "font"@ {
        match font_of(v) {
            Ok(f) => Ok(JsOptionsView { font: f, ..o }),
            Err(e) => Err(e),
        }
    } else if key == "dpi"@ {
        match v {
            Value::Num(n) => Ok(JsOptionsView { dpi: canonical(n), ..o }),
            _ => Err(bad),
        }
    } else if key == "languages"@ {
        match strings_of(v) {
            Some(t) => Ok(JsOptionsView { languages: t, ..o }),
            None => Err(bad),
        }
    } else if key == "shapeRendering"@ {
        match shape_rendering_of(v) {
            Ok(x) => Ok(JsOptionsView { shape_rendering: x, ..o }),
            Err(e) => Err(e),
        }
    } else if key == "textRendering"@ {
        match text_rendering_of(v) {
            Ok(x) => Ok(JsOptionsView { text_rendering: x, ..o }),
            Err(e) => Err(e),
        }
    } else if key == "imageRendering"@ {
        match image_rendering_of(v) {
            Ok(x) => Ok(JsOptionsView { image_rendering: x, ..o }),
            Err(e) => Err(e),
        }
    } else if key == "fitTo"@ {
        match fit_of(v) {
            Ok(x) => Ok(JsOptionsView { fit_to: x, ..o }),
            Err(e) => Err(e),
        }
    } else if key == "background"@ {
        match v {
            Value::Null => Ok(JsOptionsView { background: None, ..o }),
            Value::Text(s) => Ok(JsOptionsView { background: Some(s@), ..o }),
            _ => Err(bad),
        }
    } else {
        Err(OptionsErrorView::UnknownField(key))
    }
}

/// Applies the entries of `es` from the `i`-th on, in order; the first failure stops it.
pub open spec fn option_fields(o: JsOptionsView, es: Seq<(String, Value)>, i: int) -> Result<JsOptionsView, OptionsErrorView>
    decreases es.len() - i,
{
    if i >= es.len() {
        Ok(o)
    } else {
        match apply_field(o, es[i].0@, es[i].1) {
            Ok(g) => option_fields(g, es, i + 1),
            Err(e) => Err(e),
        }
    }
}

/// The settings that a payload gives: the defaults where it is absent or null,
/// else the defaults overridden by the entries of the object.
pub open spec fn resolve(payload: Option<Value>) -> Result<JsOptionsView, OptionsErrorView> {
    match payload {
        None => Ok(default_options()),
        Some(Value::Null) => Ok(default_options()),
        Some(Value::Object(es)) => option_fields(default_options(), es@, 0),
        Some(_) => Err(OptionsErrorView::InvalidType("options"@)),
    }
}

fn optional_text(key: &String, v: &Value) -> (r: Result<Option<String>, OptionsError>)
    ensures
        match *v {
            Value::Null => r matches Ok(t) && t is None,
            Value::Text(s) => r matches Ok(t) && opt_text(t) == Some(s@),
            _ => r matches Err(e) && e@ == OptionsErrorView::InvalidType(key@),
        },
{
    match v {
        Value::Null => Ok(None),
        Value::Text(s) => Ok(Some(s.clone())),
        _ => Err(invalid_type(key)),
    }
}

fn apply_entry(o: &mut JsOptions, key: &String, v: &Value) -> (r: Result<(), OptionsError>)
    requires
        names_given(old(o)@.font),
    ensures
        applied(r, final(o)@, apply_field(old(o)@, key@, *v)),
        r is Ok ==> names_given(final(o)@.font),
{
    if text_is(key, "path") {
        match optional_text(key, v) {
            Ok(t) => {
                o.path = t;
                Ok(())
            },
            Err(e) => Err(e),
        }
    } else if text_is(key, "font") {
        match font_options_of(v) {
            Ok(f) => {
                o.font = f;
                Ok(())
            },
            Err(e) => Err(e),
        }
    } else if text_is(key, "dpi") {
        match v {
            Value::Num(n) => {
                o.dpi = canonical_number(*n);
                Ok(())
            },
            _ => Err(invalid_type(key)),
        }
    } else if text_is(key, "languages") {
        match strings_field(key, v) {
            Ok(l) => {
                o.languages = l;
                Ok(())
            },
            Err(e) => Err(e),
        }
    } else if text_is(key, "shapeRendering") {
        match deserialize_shape_rendering(v) {
            Ok(x) => {
                o.shape_rendering = x;
                Ok(())
            },
            Err(e) => Err(e),
        }
    } else if text_is(key, "textRendering") {
        match deserialize_text_rendering(v) {
            Ok(x) => {
                o.text_rendering = x;
                Ok(())
            },
            Err(e) => Err(e),
        }
    } else if text_is(key, "imageRendering") {
        match deserialize_image_rendering(v) {
            Ok(x) => {
                o.image_rendering = x;
                Ok(())
            },
            Err(e) => Err(e),
        }
    } else if text_is(key, "fitTo") {
        match fit_to_of(v) {
            Ok(x) => {
                o.fit_to = x;
                Ok(())
            },
            Err(e) => Err(e),
        }
    } else if text_is(key, "background") {
        match optional_text(key, v) {
            Ok(t) => {
                o.background = t;
                Ok(())
            },
            Err(e) => Err(e),
        }
    } else {
        Err(OptionsError::UnknownField(key.clone()))
    }
}

impl JsOptions {
    /// Resolves a configuration payload: an absent or null payload gives the
    /// defaults; an object gives the defaults overridden by its entries, in
    /// order; anything else, or any entry that the schema rejects, fails.
    pub fn resolve_options(payload: &Option<Value>) -> (r: Result<JsOptions, OptionsError>)
        ensures
            same_outcome(r, resolve(*payload), |o: JsOptions| o@),
            r matches Ok(o) ==> names_given(o@.font),
    {
        match payload {
            None => Ok(JsOptions::default()),
            Some(Value::Null) => Ok(JsOptions::default()),
            Some(Value::Object(es)) => {
                let mut o = JsOptions::default();
                let mut i: usize = 0;
                while i < es.len()
                    invariant
                        *payload == Some(Value::Object(*es)),
                        i <= es@.len(),
                        names_given(o@.font),
                        option_fields(default_options(), es@, 0) == option_fields(o@, es@, i as int),
                    decreases es@.len() - i,
                {
                    let entry = &es[i];
                    let ghost before = o@;
                    match apply_entry(&mut o, &entry.0, &entry.1) {
                        Ok(()) => {},
                        Err(e) => {
                            assert(option_fields(before, es@, i as int) == Err::<JsOptionsView, _>(e@));
                            return Err(e);
                        },
                    }
                    i = i + 1;
                }
                Ok(o)
            },
            Some(_) => Err(OptionsError::InvalidType("options".to_owned())),
        }
    }
}

} // verus!
