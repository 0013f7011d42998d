//! The background colour.
use vstd::prelude::*;
use crate::options::opt_text;

verus! {

/// A colour as red, green and blue; it has no transparency.
#[derive(Clone, Copy, Debug, PartialEq, Eq, Structural)]
pub struct Color {
    pub red: u8,
    pub green: u8,
    pub blue: u8,
}

/// The colour that SVG's colour grammar reads from `text`, or the message of
/// the error that it reports.
pub uninterp spec fn color_of(text: Seq<char>) -> Result<(u8, u8, u8), Seq<char>>;

/// Relies on svgtypes' `FromStr for Color`: the colour, as red, green and blue,
/// that the text denotes, or the parser's error as its message.
#[verifier::external_body]
fn parse_svg_color(text: &str) -> (r: Result<Color, String>)
    ensures
        match color_of(text@) {
            Ok((red, green, blue)) => r == Ok::<Color, String>(Color { red, green, blue }),
            Err(m) => r matches Err(x) && x@ == m,
        },
        text@.len() == 0 ==> r is Err,
{
    match text.parse::<svgtypes::Color>() {
        Ok(c) => Ok(Color { red: c.red, green: c.green, blue: c.blue }),
        Err(e) => Err(e.to_string()),
    }
}

/// Why a background colour was rejected: the parser's message.
#[derive(Debug)]
pub struct ColorParseError {
    pub message: String,
}

/// The colour of an optional background, none where none is given; or the
/// parser's message.
pub open spec fn background_of(value: Option<Seq<char>>) -> Result<Option<Color>, Seq<char>> {
    match value {
        None => Ok(None),
        Some(t) => match color_of(t) {
            Ok((red, green, blue)) => Ok(Some(Color { red, green, blue })),
            Err(m) => Err(m),
        },
    }
}

/// Parses an optional background colour. `Ok(None)` where there is none; an
/// error where the text is no colour.
pub fn parse_color(value: &Option<String>) -> (r: Result<Option<Color>, ColorParseError>)
    ensures
        match background_of(opt_text(*value)) {
            Ok(c) => r == Ok::<Option<Color>, ColorParseError>(c),
            Err(m) => r matches Err(e) && e.message@ == m,
        },
{
    match value {
        None => Ok(None),
        Some(text) => match parse_svg_color(text.as_str()) {
            Ok(c) => Ok(Some(c)),
            Err(message) => Err(ColorParseError { message }),
        },
    }
}

} // verus!
