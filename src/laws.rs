//! Properties of configuration resolution that span many payloads.
use vstd::prelude::*;
use crate::value::{Number, Value, canonical, float_exponent, float_fraction, halve_exact};
use crate::options::{
    FitToDef, JsFontOptionsView, JsOptionsView,
    ImageRendering, OptionsErrorView, ShapeRendering, TextRendering, apply_field,
    image_rendering_of, shape_rendering_of, text_rendering_of, fit_of, integer_of, strings_of, text_of, apply_font_field, default_font_options,
    default_options, font_fields, option_fields, resolve,
};

verus! {

/// The names of the top-level fields of the schema.
pub open spec fn is_option_field(k: Seq<char>) -> bool {
    k == "path"@ || k == "font"@ || k == "dpi"@ || k == "languages"@ || k == "shapeRendering"@
        || k == "textRendering"@ || k == "imageRendering"@ || k == "fitTo"@ || k == "background"@
}

/// The names of the fields of the `font` object.
pub open spec fn is_font_field(k: Seq<char>) -> bool {
    k == "loadSystemFonts"@ || k == "fontFiles"@ || k == "fontDirs"@ || k == "defaultFontFamily"@
        || k == "defaultFontSize"@ || k == "serifFamily"@ || k == "sansSerifFamily"@
        || k == "cursiveFamily"@ || k == "fantasyFamily"@ || k == "monospaceFamily"@
}

proof fn lemma_font_fields_fail_at(f: JsFontOptionsView, es: Seq<(String, Value)>, i: int, j: int)
    requires
        0 <= i <= j < es.len(),
        forall|g: JsFontOptionsView| (#[trigger] apply_font_field(g, es[j].0@, es[j].1)) is Err,
    ensures
        font_fields(f, es, i) is Err,
    decreases j - i,
{
    if i < j {
        match apply_font_field(f, es[i].0@, es[i].1) {
            Ok(g) => lemma_font_fields_fail_at(g, es, i + 1, j),
            Err(_) => {},
        }
    } else {
        assert(apply_font_field(f, es[j].0@, es[j].1) is Err);
    }
}

proof fn lemma_option_fields_fail_at(o: JsOptionsView, es: Seq<(String, Value)>, i: int, j: int)
    requires
        0 <= i <= j < es.len(),
        forall|g: JsOptionsView| (#[trigger] apply_field(g, es[j].0@, es[j].1)) is Err,
    ensures
        option_fields(o, es, i) is Err,
    decreases j - i,
{
    if i < j {
        match apply_field(o, es[i].0@, es[i].1) {
            Ok(g) => lemma_option_fields_fail_at(g, es, i + 1, j),
            Err(_) => {},
        }
    } else {
        assert(apply_field(o, es[j].0@, es[j].1) is Err);
    }
}

/// A payload with a top-level field that the schema does not have is rejected,
/// whatever the other fields hold.
pub proof fn lemma_unknown_field_rejected(payload: Value, j: int)
    requires
        payload matches Value::Object(es) && 0 <= j < es@.len() && !is_option_field(es@[j].0@),
    ensures
        resolve(Some(payload)) is Err,
{
    let es = payload->Object_0@;
    assert forall|g: JsOptionsView| (#[trigger] apply_field(g, es[j].0@, es[j].1)) is Err by {}
    lemma_option_fields_fail_at(default_options(), es, 0, j);
}

/// A payload whose `font` object has a field that the schema does not have is
/// rejected, whatever the other fields hold.
pub proof fn lemma_unknown_font_field_rejected(payload: Value, j: int, k: int)
    requires
        payload is Object,
        0 <= j < payload->Object_0@.len(),
        payload->Object_0@[j].0@ == "font"@,
        payload->Object_0@[j].1 is Object,
        0 <= k < payload->Object_0@[j].1->Object_0@.len(),
        !is_font_field(payload->Object_0@[j].1->Object_0@[k].0@),
    ensures
        resolve(Some(payload)) is Err,
{
    let es = payload->Object_0@;
    let fs = es[j].1->Object_0@;
    assert forall|g: JsFontOptionsView| (#[trigger] apply_font_field(g, fs[k].0@, fs[k].1)) is Err by {}
    lemma_font_fields_fail_at(default_font_options(), fs, 0, k);
    assert forall|g: JsOptionsView| (#[trigger] apply_field(g, es[j].0@, es[j].1)) is Err by {}
    lemma_option_fields_fail_at(default_options(), es, 0, j);
}

/// An entry of the `font` object that writes out the default of its field.
pub open spec fn restates_font_default(k: Seq<char>, v: Value) -> bool {
    (k == "loadSystemFonts"@ && v == Value::Bool(true))
        || ((k == "fontFiles"@ || k == "fontDirs"@) && strings_of(v) == Some(Seq::<Seq<char>>::empty()))
        || (k == "defaultFontSize"@ && v is Num && canonical(v->Num_0) == Number::PosInt(12))
        || (v is Text && (
            ((k == "defaultFontFamily"@ || k == "serifFamily"@) && text_of(v) == "Times New Roman"@)
            || (k == "sansSerifFamily"@ && text_of(v) == "Arial"@)
            || (k == "cursiveFamily"@ && text_of(v) == "Comic Sans MS"@)
            || (k == "fantasyFamily"@ && text_of(v) == "Impact"@)
            || (k == "monospaceFamily"@ && text_of(v) == "Courier New"@)))
}

/// A top-level entry that writes out the default of its field.
pub open spec fn restates_default(k: Seq<char>, v: Value) -> bool {
    ((k == "path"@ || k == "background"@) && v is Null)
        || (k == "font"@ && v is Object && forall|i: int| 0 <= i < v->Object_0@.len()
            ==> restates_font_default(#[trigger] v->Object_0@[i].0@, v->Object_0@[i].1))
        || (k == "dpi"@ && v is Num && canonical(v->Num_0) == Number::PosInt(96))
        || (k == "languages"@ && strings_of(v) == Some(seq!["en"@]))
        || (k == "shapeRendering"@ && integer_of(v) == Some(2int))
        || (k == "textRendering"@ && integer_of(v) == Some(1int))
        || (k == "imageRendering"@ && integer_of(v) == Some(0int))
        || (k == "fitTo"@ && fit_of(v) == Ok::<FitToDef, OptionsErrorView>(FitToDef::Original))
}

/// The field names of the `font` object are pairwise distinct.
proof fn lemma_font_names()
    ensures
        "loadSystemFonts"@ != "fontFiles"@,
        "loadSystemFonts"@ != "fontDirs"@,
        "loadSystemFonts"@ != "defaultFontFamily"@,
        "loadSystemFonts"@ != "defaultFontSize"@,
        "loadSystemFonts"@ != "serifFamily"@,
        "loadSystemFonts"@ != "sansSerifFamily"@,
        "loadSystemFonts"@ != "cursiveFamily"@,
        "loadSystemFonts"@ != "fantasyFamily"@,
        "loadSystemFonts"@ != "monospaceFamily"@,
        "fontFiles"@ != "fontDirs"@,
        "fontFiles"@ != "defaultFontFamily"@,
        "fontFiles"@ != "defaultFontSize"@,
        "fontFiles"@ != "serifFamily"@,
        "fontFiles"@ != "sansSerifFamily"@,
        "fontFiles"@ != "cursiveFamily"@,
        "fontFiles"@ != "fantasyFamily"@,
        "fontFiles"@ != "monospaceFamily"@,
        "fontDirs"@ != "defaultFontFamily"@,
        "fontDirs"@ != "defaultFontSize"@,
        "fontDirs"@ != "serifFamily"@,
        "fontDirs"@ != "sansSerifFamily"@,
        "fontDirs"@ != "cursiveFamily"@,
        "fontDirs"@ != "fantasyFamily"@,
        "fontDirs"@ != "monospaceFamily"@,
        "defaultFontFamily"@ != "defaultFontSize"@,
        "defaultFontFamily"@ != "serifFamily"@,
        "defaultFontFamily"@ != "sansSerifFamily"@,
        "defaultFontFamily"@ != "cursiveFamily"@,
        "defaultFontFamily"@ != "fantasyFamily"@,
        "defaultFontFamily"@ != "monospaceFamily"@,
        "defaultFontSize"@ != "serifFamily"@,
        "defaultFontSize"@ != "sansSerifFamily"@,
        "defaultFontSize"@ != "cursiveFamily"@,
        "defaultFontSize"@ != "fantasyFamily"@,
        "defaultFontSize"@ != "monospaceFamily"@,
        "serifFamily"@ != "sansSerifFamily"@,
        "serifFamily"@ != "cursiveFamily"@,
        "serifFamily"@ != "fantasyFamily"@,
        "serifFamily"@ != "monospaceFamily"@,
        "sansSerifFamily"@ != "cursiveFamily"@,
        "sansSerifFamily"@ != "fantasyFamily"@,
        "sansSerifFamily"@ != "monospaceFamily"@,
        "cursiveFamily"@ != "fantasyFamily"@,
        "cursiveFamily"@ != "monospaceFamily"@,
        "fantasyFamily"@ != "monospaceFamily"@,
{
        reveal_strlit("loadSystemFonts");
        reveal_strlit("fontFiles");
        reveal_strlit("fontDirs");
        reveal_strlit("defaultFontFamily");
        reveal_strlit("defaultFontSize");
        reveal_strlit("serifFamily");
        reveal_strlit("sansSerifFamily");
        reveal_strlit("cursiveFamily");
        reveal_strlit("fantasyFamily");
        reveal_strlit("monospaceFamily");
    assert("loadSystemFonts"@.len() != "fontFiles"@.len());
    assert("loadSystemFonts"@.len() != "fontDirs"@.len());
    assert("loadSystemFonts"@.len() != "defaultFontFamily"@.len());
    assert("loadSystemFonts"@[0] != "defaultFontSize"@[0]);
    assert("loadSystemFonts"@.len() != "serifFamily"@.len());
    assert("loadSystemFonts"@[0] != "sansSerifFamily"@[0]);
    assert("loadSystemFonts"@.len() != "cursiveFamily"@.len());
    assert("loadSystemFonts"@.len() != "fantasyFamily"@.len());
    assert("loadSystemFonts"@[0] != "monospaceFamily"@[0]);
    assert("fontFiles"@.len() != "fontDirs"@.len());
    assert("fontFiles"@.len() != "defaultFontFamily"@.len());
    assert("fontFiles"@.len() != "defaultFontSize"@.len());
    assert("fontFiles"@.len() != "serifFamily"@.len());
    assert("fontFiles"@.len() != "sansSerifFamily"@.len());
    assert("fontFiles"@.len() != "cursiveFamily"@.len());
    assert("fontFiles"@.len() != "fantasyFamily"@.len());
    assert("fontFiles"@.len() != "monospaceFamily"@.len());
    assert("fontDirs"@.len() != "defaultFontFamily"@.len());
    assert("fontDirs"@.len() != "defaultFontSize"@.len());
    assert("fontDirs"@.len() != "serifFamily"@.len());
    assert("fontDirs"@.len() != "sansSerifFamily"@.len());
    assert("fontDirs"@.len() != "cursiveFamily"@.len());
    assert("fontDirs"@.len() != "fantasyFamily"@.len());
    assert("fontDirs"@.len() != "monospaceFamily"@.len());
    assert("defaultFontFamily"@.len() != "defaultFontSize"@.len());
    assert("defaultFontFamily"@.len() != "serifFamily"@.len());
    assert("defaultFontFamily"@.len() != "sansSerifFamily"@.len());
    assert("defaultFontFamily"@.len() != "cursiveFamily"@.len());
    assert("defaultFontFamily"@.len() != "fantasyFamily"@.len());
    assert("defaultFontFamily"@.len() != "monospaceFamily"@.len());
    assert("defaultFontSize"@.len() != "serifFamily"@.len());
    assert("defaultFontSize"@[0] != "sansSerifFamily"@[0]);
    assert("defaultFontSize"@.len() != "cursiveFamily"@.len());
    assert("defaultFontSize"@.len() != "fantasyFamily"@.len());
    assert("defaultFontSize"@[0] != "monospaceFamily"@[0]);
    assert("serifFamily"@.len() != "sansSerifFamily"@.len());
    assert("serifFamily"@.len() != "cursiveFamily"@.len());
    assert("serifFamily"@.len() != "fantasyFamily"@.len());
    assert("serifFamily"@.len() != "monospaceFamily"@.len());
    assert("sansSerifFamily"@.len() != "cursiveFamily"@.len());
    assert("sansSerifFamily"@.len() != "fantasyFamily"@.len());
    assert("sansSerifFamily"@[0] != "monospaceFamily"@[0]);
    assert("cursiveFamily"@[0] != "fantasyFamily"@[0]);
    assert("cursiveFamily"@.len() != "monospaceFamily"@.len());
    assert("fantasyFamily"@.len() != "monospaceFamily"@.len());
}

/// The top-level field names are pairwise distinct.
proof fn lemma_option_names()
    ensures
        "path"@ != "font"@,
        "path"@ != "dpi"@,
        "path"@ != "languages"@,
        "path"@ != "shapeRendering"@,
        "path"@ != "textRendering"@,
        "path"@ != "imageRendering"@,
        "path"@ != "fitTo"@,
        "path"@ != "background"@,
        "font"@ != "dpi"@,
        "font"@ != "languages"@,
        "font"@ != "shapeRendering"@,
        "font"@ != "textRendering"@,
        "font"@ != "imageRendering"@,
        "font"@ != "fitTo"@,
        "font"@ != "background"@,
        "dpi"@ != "languages"@,
        "dpi"@ != "shapeRendering"@,
        "dpi"@ != "textRendering"@,
        "dpi"@ != "imageRendering"@,
        "dpi"@ != "fitTo"@,
        "dpi"@ != "background"@,
        "languages"@ != "shapeRendering"@,
        "languages"@ != "textRendering"@,
        "languages"@ != "imageRendering"@,
        "languages"@ != "fitTo"@,
        "languages"@ != "background"@,
        "shapeRendering"@ != "textRendering"@,
        "shapeRendering"@ != "imageRendering"@,
        "shapeRendering"@ != "fitTo"@,
        "shapeRendering"@ != "background"@,
        "textRendering"@ != "imageRendering"@,
        "textRendering"@ != "fitTo"@,
        "textRendering"@ != "background"@,
        "imageRendering"@ != "fitTo"@,
        "imageRendering"@ != "background"@,
        "fitTo"@ != "background"@,
{
        reveal_strlit("path");
        reveal_strlit("font");
        reveal_strlit("dpi");
        reveal_strlit("languages");
        reveal_strlit("shapeRendering");
        reveal_strlit("textRendering");
        reveal_strlit("imageRendering");
        reveal_strlit("fitTo");
        reveal_strlit("background");
    assert("path"@[0] != "font"@[0]);
    assert("path"@.len() != "dpi"@.len());
    assert("path"@.len() != "languages"@.len());
    assert("path"@.len() != "shapeRendering"@.len());
    assert("path"@.len() != "textRendering"@.len());
    assert("path"@.len() != "imageRendering"@.len());
    assert("path"@.len() != "fitTo"@.len());
    assert("path"@.len() != "background"@.len());
    assert("font"@.len() != "dpi"@.len());
    assert("font"@.len() != "languages"@.len());
    assert("font"@.len() != "shapeRendering"@.len());
    assert("font"@.len() != "textRendering"@.len());
    assert("font"@.len() != "imageRendering"@.len());
    assert("font"@.len() != "fitTo"@.len());
    assert("font"@.len() != "background"@.len());
    assert("dpi"@.len() != "languages"@.len());
    assert("dpi"@.len() != "shapeRendering"@.len());
    assert("dpi"@.len() != "textRendering"@.len());
    assert("dpi"@.len() != "imageRendering"@.len());
    assert("dpi"@.len() != "fitTo"@.len());
    assert("dpi"@.len() != "background"@.len());
    assert("languages"@.len() != "shapeRendering"@.len());
    assert("languages"@.len() != "textRendering"@.len());
    assert("languages"@.len() != "imageRendering"@.len());
    assert("languages"@.len() != "fitTo"@.len());
    assert("languages"@.len() != "background"@.len());
    assert("shapeRendering"@.len() != "textRendering"@.len());
    assert("shapeRendering"@[0] != "imageRendering"@[0]);
    assert("shapeRendering"@.len() != "fitTo"@.len());
    assert("shapeRendering"@.len() != "background"@.len());
    assert("textRendering"@.len() != "imageRendering"@.len());
    assert("textRendering"@.len() != "fitTo"@.len());
    assert("textRendering"@.len() != "background"@.len());
    assert("imageRendering"@.len() != "fitTo"@.len());
    assert("imageRendering"@.len() != "background"@.len());
    assert("fitTo"@.len() != "background"@.len());
}

proof fn lemma_font_restated(es: Seq<(String, Value)>, i: int)
    requires
        0 <= i <= es.len(),
        forall|j: int| 0 <= j < es.len() ==> restates_font_default(#[trigger] es[j].0@, es[j].1),
    ensures
        font_fields(default_font_options(), es, i) == Ok::<JsFontOptionsView, OptionsErrorView>(default_font_options()),
    decreases es.len() - i,
{
    if i < es.len() {
        let k = es[i].0@;
        lemma_font_names();
        reveal_strlit("Times New Roman");
        reveal_strlit("Arial");
        reveal_strlit("Comic Sans MS");
        reveal_strlit("Impact");
        reveal_strlit("Courier New");
        assert(restates_font_default(k, es[i].1));
        assert(apply_font_field(default_font_options(), k, es[i].1) == Ok::<JsFontOptionsView, OptionsErrorView>(default_font_options()));
        lemma_font_restated(es, i + 1);
    }
}

proof fn lemma_options_restated(es: Seq<(String, Value)>, i: int)
    requires
        0 <= i <= es.len(),
        forall|j: int| 0 <= j < es.len() ==> restates_default(#[trigger] es[j].0@, es[j].1),
    ensures
        option_fields(default_options(), es, i) == Ok::<JsOptionsView, OptionsErrorView>(default_options()),
    decreases es.len() - i,
{
    if i < es.len() {
        let k = es[i].0@;
        let v = es[i].1;
        lemma_option_names();
        assert(restates_default(k, v));
        if k == "font"@ {
            let fs = v->Object_0@;
            assert forall|j: int| 0 <= j < fs.len() implies restates_font_default(#[trigger] fs[j].0@, fs[j].1) by {
                assert(restates_font_default(v->Object_0@[j].0@, v->Object_0@[j].1));
            }
            lemma_font_restated(fs, 0);
        }
        assert(apply_field(default_options(), k, v) == Ok::<JsOptionsView, OptionsErrorView>(default_options()));
        lemma_options_restated(es, i + 1);
    }
}

/// A payload whose every entry writes out the default of its field resolves to
/// the same settings as no payload at all.
pub proof fn lemma_restated_defaults(payload: Value)
    requires
        payload is Object,
        forall|j: int| 0 <= j < payload->Object_0@.len()
            ==> restates_default(#[trigger] payload->Object_0@[j].0@, payload->Object_0@[j].1),
    ensures
        resolve(Some(payload)) == resolve(None),
        resolve(None) == Ok::<JsOptionsView, OptionsErrorView>(default_options()),
{
    lemma_options_restated(payload->Object_0@, 0);
}

/// A rendering setting given as an integer maps 0, 1 and 2 (0 and 1 for
/// images) to their documented variants, and any other integer to an error
/// that carries that integer.
pub proof fn lemma_rendering_codes(v: Value, n: int)
    requires
        integer_of(v) == Some(n),
    ensures
        n == 0 ==> shape_rendering_of(v) == Ok::<_, OptionsErrorView>(ShapeRendering::OptimizeSpeed),
        n == 1 ==> shape_rendering_of(v) == Ok::<_, OptionsErrorView>(ShapeRendering::CrispEdges),
        n == 2 ==> shape_rendering_of(v) == Ok::<_, OptionsErrorView>(ShapeRendering::GeometricPrecision),
        !(0 <= n <= 2) ==> shape_rendering_of(v) == Err::<ShapeRendering, _>(OptionsErrorView::InvalidShapeRendering(n)),
        n == 0 ==> text_rendering_of(v) == Ok::<_, OptionsErrorView>(TextRendering::OptimizeSpeed),
        n == 1 ==> text_rendering_of(v) == Ok::<_, OptionsErrorView>(TextRendering::OptimizeLegibility),
        n == 2 ==> text_rendering_of(v) == Ok::<_, OptionsErrorView>(TextRendering::GeometricPrecision),
        !(0 <= n <= 2) ==> text_rendering_of(v) == Err::<TextRendering, _>(OptionsErrorView::InvalidTextRendering(n)),
        n == 0 ==> image_rendering_of(v) == Ok::<_, OptionsErrorView>(ImageRendering::OptimizeQuality),
        n == 1 ==> image_rendering_of(v) == Ok::<_, OptionsErrorView>(ImageRendering::OptimizeSpeed),
        !(0 <= n <= 1) ==> image_rendering_of(v) == Err::<ImageRendering, _>(OptionsErrorView::InvalidImageRendering(n)),
{
}

/// The resolution and font size written as the floats 96.0 and 12.0 take the
/// same one form as the integers 96 and 12, so they restate the defaults too.
pub proof fn lemma_float_defaults()
    ensures
        canonical(Number::Float(0x4058_0000_0000_0000)) == Number::PosInt(96),
        canonical(Number::Float(0x4028_0000_0000_0000)) == Number::PosInt(12),
{
    reveal_with_fuel(halve_exact, 50);
    assert(float_exponent(0x4058_0000_0000_0000) == 1029);
    assert(float_fraction(0x4058_0000_0000_0000) == 0x8_0000_0000_0000);
    assert(halve_exact(0x18_0000_0000_0000, 46) == Some(96int));
    assert(float_exponent(0x4028_0000_0000_0000) == 1026);
    assert(float_fraction(0x4028_0000_0000_0000) == 0x8_0000_0000_0000);
    assert(halve_exact(0x18_0000_0000_0000, 49) == Some(12int));
}

} // verus!
