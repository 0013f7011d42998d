//! The human-readable text of a rejected configuration.
use vstd::prelude::*;
use vstd::string::StringExecFns;
use crate::options::{OptionsError, OptionsErrorView};

verus! {

/// The character of a decimal digit.
pub open spec fn digit_char(d: nat) -> char {
    if d == 0 { '0' } else if d == 1 { '1' } else if d == 2 { '2' } else if d == 3 { '3' }
    else if d == 4 { '4' } else if d == 5 { '5' } else if d == 6 { '6' } else if d == 7 { '7' }
    else if d == 8 { '8' } else { '9' }
}

/// The decimal digits of `n`, without leading zeros.
pub open spec fn decimal(n: nat) -> Seq<char>
    decreases n,
{
    if n < 10 {
        seq![digit_char(n)]
    } else {
        decimal(n / 10).push(digit_char(n % 10))
    }
}

/// An integer in decimal, with a leading `-` where it is below zero.
pub open spec fn signed_decimal(n: int) -> Seq<char> {
    if n < 0 {
        seq!['-'] + decimal((-n) as nat)
    } else {
        decimal(n as nat)
    }
}

fn digit_text(d: u128) -> (r: &'static str)
    requires
        d < 10,
    ensures
        r@ == seq![digit_char(d as nat)],
{
    proof {
        reveal_strlit("0");
        reveal_strlit("1");
        reveal_strlit("2");
        reveal_strlit("3");
        reveal_strlit("4");
        reveal_strlit("5");
        reveal_strlit("6");
        reveal_strlit("7");
        reveal_strlit("8");
        reveal_strlit("9");
    }
    if d == 0 { "0" } else if d == 1 { "1" } else if d == 2 { "2" } else if d == 3 { "3" }
    else if d == 4 { "4" } else if d == 5 { "5" } else if d == 6 { "6" } else if d == 7 { "7" }
    else if d == 8 { "8" } else { "9" }
}

fn decimal_text(n: u128) -> (r: String)
    ensures
        r@ == decimal(n as nat),
    decreases n,
{
    if n < 10 {
        digit_text(n).to_owned()
    } else {
        let mut s = decimal_text(n / 10);
        s.append(digit_text(n % 10));
        s
    }
}

/// `n` in decimal.
pub fn signed_decimal_text(n: i128) -> (r: String)
    ensures
        r@ == signed_decimal(n as int),
{
    if n < 0 {
        let magnitude: u128 = (-(n + 1)) as u128 + 1;
        let mut s = "-".to_owned();
        proof {
            reveal_strlit("-");
        }
        s.append(decimal_text(magnitude).as_str());
        s
    } else {
        decimal_text(n as u128)
    }
}

/// `head`, then `middle`, then `tail`.
fn framed(head: &str, middle: &str, tail: &str) -> (r: String)
    ensures
        r@ == head@ + middle@ + tail@,
{
    let mut s = head.to_owned();
    s.append(middle);
    s.append(tail);
    s
}

/// The message that tells a caller why a payload was rejected.
pub open spec fn message_of(e: OptionsErrorView) -> Seq<char> {
    match e {
        OptionsErrorView::UnknownField(f) => "unknown field `"@ + f + "`"@,
        OptionsErrorView::MissingField(f) => "missing field `"@ + f + "`"@,
        OptionsErrorView::InvalidType(f) => "invalid type for `"@ + f + "`"@,
        OptionsErrorView::EmptyName(f) => "empty font family name for `"@ + f + "`"@,
        OptionsErrorView::UnknownFitMode(m) => "unknown fit mode `"@ + m
            + "`, expected one of `original`, `width`, `height`, `zoom`"@,
        OptionsErrorView::InvalidShapeRendering(n) => "Invalid ShapeRendering value: "@ + signed_decimal(n)
            + ". Expected 0 (OptimizeSpeed), 1 (CrispEdges), or 2 (GeometricPrecision)."@,
        OptionsErrorView::InvalidTextRendering(n) => "Invalid TextRendering value: "@ + signed_decimal(n)
            + ". Expected 0 (OptimizeSpeed), 1 (OptimizeLegibility), or 2 (GeometricPrecision)."@,
        OptionsErrorView::InvalidImageRendering(n) => "Invalid ImageRendering value: "@ + signed_decimal(n)
            + ". Expected 0 (OptimizeQuality) or 1 (OptimizeSpeed)."@,
    }
}

impl OptionsError {
    /// Why the payload was rejected, naming the field or the value at fault.
    pub fn message(&self) -> (r: String)
        ensures
            r@ == message_of(self@),
    {
        match self {
            OptionsError::UnknownField(f) => framed("unknown field `", f.as_str(), "`"),
            OptionsError::MissingField(f) => framed("missing field `", f.as_str(), "`"),
            OptionsError::InvalidType(f) => framed("invalid type for `", f.as_str(), "`"),
            OptionsError::EmptyName(f) => framed("empty font family name for `", f.as_str(), "`"),
            OptionsError::UnknownFitMode(m) => framed(
                "unknown fit mode `",
                m.as_str(),
                "`, expected one of `original`, `width`, `height`, `zoom`",
            ),
            OptionsError::InvalidShapeRendering(n) => framed(
                "Invalid ShapeRendering value: ",
                signed_decimal_text(*n).as_str(),
                ". Expected 0 (OptimizeSpeed), 1 (CrispEdges), or 2 (GeometricPrecision).",
            ),
            OptionsError::InvalidTextRendering(n) => framed(
                "Invalid TextRendering value: ",
                signed_decimal_text(*n).as_str(),
                ". Expected 0 (OptimizeSpeed), 1 (OptimizeLegibility), or 2 (GeometricPrecision).",
            ),
            OptionsError::InvalidImageRendering(n) => framed(
                "Invalid ImageRendering value: ",
                signed_decimal_text(*n).as_str(),
                ". Expected 0 (OptimizeQuality) or 1 (OptimizeSpeed).",
            ),
        }
    }
}

} // verus!
