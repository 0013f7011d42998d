//! The steps of a render call that come before and after the rasteriser.
use vstd::prelude::*;
use crate::color::{Color, ColorParseError, background_of, parse_color};
use crate::fonts::{LoadedFonts, families_of, generic_families, load_fonts, warnings_of, warnings_view};
use crate::options::{JsOptions, OptionsError, resolve, texts};
use crate::value::Value;

verus! {

/// Why a render call failed.
#[derive(Debug)]
pub enum RenderError {
    /// The configuration payload was rejected.
    Validation(OptionsError),
    /// The background is no colour.
    ColorParse(ColorParseError),
    /// The document is not valid SVG; the rasteriser's message.
    DocumentParse(String),
    /// The image could not be encoded; the encoder's message.
    Encode(String),
}

/// What the rasteriser needs besides the document.
pub struct RenderPlan {
    pub options: JsOptions,
    pub background: Option<Color>,
    pub fonts: LoadedFonts,
}

/// Resolves the payload, parses the background and builds the font database.
/// Fails on a rejected payload, then on a background that is no colour.
pub fn prepare_render(payload: &Option<Value>) -> (r: Result<RenderPlan, RenderError>)
    ensures
        match resolve(*payload) {
            Err(e) => r matches Err(RenderError::Validation(x)) && x@ == e,
            Ok(o) => match background_of(o.background) {
                Err(m) => r matches Err(RenderError::ColorParse(e)) && e.message@ == m,
                Ok(bg) => r matches Ok(plan) && plan.options@ == o && plan.background == bg
                    && generic_families(plan.fonts.database) == families_of(plan.options.font)
                    && exists|causes: Seq<Option<Seq<char>>>|
                        causes.len() == o.font.font_files.len()
                        && warnings_view(plan.fonts.warnings@) == warnings_of(o.font.font_files, causes),
            },
        },
{
    let options = match JsOptions::resolve_options(payload) {
        Ok(o) => o,
        Err(e) => {
            return Err(RenderError::Validation(e));
        },
    };
    let background = match parse_color(&options.background) {
        Ok(c) => c,
        Err(e) => {
            return Err(RenderError::ColorParse(e));
        },
    };
    let fonts = load_fonts(&options.font);
    assert(background_of(options@.background) == Ok::<Option<Color>, Seq<char>>(background));
    assert(options@.font.font_files == texts(options.font.font_files@));
    Ok(RenderPlan { options, background, fonts })
}

/// What came of handing a document to the rasteriser.
pub enum EngineOutcome {
    /// The document could not be parsed; the rasteriser's message.
    DocumentRejected(String),
    /// The document has nothing to draw, such as a viewport without area.
    NoImage,
    /// The image, encoded as PNG.
    Encoded(Vec<u8>),
    /// The image could not be encoded; the encoder's message.
    EncodeFailed(String),
}

/// The bytes that a render call hands back: the encoded image, or none at all
/// where there is nothing to draw.
pub fn render_output(outcome: EngineOutcome) -> (r: Result<Vec<u8>, RenderError>)
    ensures
        match outcome {
            EngineOutcome::DocumentRejected(m) => r matches Err(RenderError::DocumentParse(x)) && x@ == m@,
            EngineOutcome::NoImage => r matches Ok(b) && b@.len() == 0,
            EngineOutcome::Encoded(bytes) => r matches Ok(b) && b@ == bytes@,
            EngineOutcome::EncodeFailed(m) => r matches Err(RenderError::Encode(x)) && x@ == m@,
        },
{
    match outcome {
        EngineOutcome::DocumentRejected(m) => Err(RenderError::DocumentParse(m)),
        EngineOutcome::NoImage => Ok(Vec::new()),
        EngineOutcome::Encoded(bytes) => Ok(bytes),
        EngineOutcome::EncodeFailed(m) => Err(RenderError::Encode(m)),
    }
}

} // verus!
