//! The names of colour functions: `greyscale`, `rgreyscale`,
//! `color(shift, scale)` and `red(shift, scale)`.
//!
//! A name is read up to the text of its scale, a scalar, which is handed
//! on as it stands.

use vstd::prelude::*;
use crate::text::{
    ends_with, parse_u32, same_text, slice_text, spec_parse_u32, spec_split, spec_trim, split,
    starts_with, texts, trim,
};

verus! {

/// The table that a colour function with parameters reads its colours
/// from.
#[derive(Clone, Copy, Debug, PartialEq, Eq, Structural)]
pub enum Palette {
    Color,
    Red,
}

/// What the name of a colour function asks for.
#[derive(Clone, Debug)]
pub enum ColorRequest {
    Greyscale,
    RGreyscale,
    /// A table, read from index `shift` on in steps of the scale whose
    /// text is `scale`.
    Table { palette: Palette, shift: u32, scale: String },
}

/// Why a text names no colour function.
#[derive(Clone, Debug)]
pub enum ColorError {
    /// Not two parameters between the brackets.
    Syntax,
    /// The first parameter, held here as written, is no `u32`.
    Shift(String),
    /// The text, held here trimmed, is none of the four names.
    NoSuchFunction(String),
}

pub enum ColorRequestView {
    Greyscale,
    RGreyscale,
    Table { palette: Palette, shift: u32, scale: Seq<char> },
}

pub enum ColorErrorView {
    Syntax,
    Shift(Seq<char>),
    NoSuchFunction(Seq<char>),
}

impl View for ColorRequest {
    type V = ColorRequestView;

    open spec fn view(&self) -> ColorRequestView {
        match *self {
            ColorRequest::Greyscale => ColorRequestView::Greyscale,
            ColorRequest::RGreyscale => ColorRequestView::RGreyscale,
            ColorRequest::Table { palette, shift, scale } => ColorRequestView::Table {
                palette,
                shift,
                scale: scale@,
            },
        }
    }
}

impl View for ColorError {
    type V = ColorErrorView;

    open spec fn view(&self) -> ColorErrorView {
        match *self {
            ColorError::Syntax => ColorErrorView::Syntax,
            ColorError::Shift(text) => ColorErrorView::Shift(text@),
            ColorError::NoSuchFunction(text) => ColorErrorView::NoSuchFunction(text@),
        }
    }
}

/// What the parameters between the brackets ask for: two of them,
/// separated by a comma, the first a `u32` once trimmed.
pub open spec fn spec_parse_table(palette: Palette, params: Seq<char>) -> Result<
    ColorRequestView,
    ColorErrorView,
> {
    let parts = spec_split(params, ',');
    if parts.len() != 2 {
        Err(ColorErrorView::Syntax)
    } else {
        match spec_parse_u32(spec_trim(parts[0])) {
            None => Err(ColorErrorView::Shift(parts[0])),
            Some(shift) => Ok(ColorRequestView::Table { palette, shift, scale: parts[1] }),
        }
    }
}

/// Whether the trimmed text `t` has the form `name(...)`.
pub open spec fn is_call_of(t: Seq<char>, opening: Seq<char>) -> bool {
    opening.is_prefix_of(t) && ")"@.is_suffix_of(t)
}

/// What the text `s` asks for.
pub open spec fn spec_parse_color(s: Seq<char>) -> Result<ColorRequestView, ColorErrorView> {
    let t = spec_trim(s);
    if t == "greyscale"@ {
        Ok(ColorRequestView::Greyscale)
    } else if t == "rgreyscale"@ {
        Ok(ColorRequestView::RGreyscale)
    } else if is_call_of(t, "color("@) {
        spec_parse_table(Palette::Color, t.subrange(6, t.len() - 1))
    } else if is_call_of(t, "red("@) {
        spec_parse_table(Palette::Red, t.subrange(4, t.len() - 1))
    } else {
        Err(ColorErrorView::NoSuchFunction(t))
    }
}

/// The byte that `s` writes: a `u32` that is at most 255.
pub open spec fn spec_parse_u8(s: Seq<char>) -> Option<u8> {
    match spec_parse_u32(s) {
        Some(n) => if n <= 255 {
            Some(n as u8)
        } else {
            None
        },
        None => None,
    }
}

/// The colour that a line of a table writes: red, green and blue, each a
/// byte, separated by commas. What follows a third comma must be bytes
/// too and is passed over.
pub open spec fn spec_table_line(line: Seq<char>) -> Option<(u8, u8, u8)> {
    let parts = spec_split(line, ',');
    if parts.len() >= 3 && (forall|i: int|
        0 <= i < parts.len() ==> spec_parse_u8(#[trigger] parts[i]) is Some) {
        Some((spec_parse_u8(parts[0])->0, spec_parse_u8(parts[1])->0, spec_parse_u8(parts[2])->0))
    } else {
        None
    }
}

/// The byte that `s` writes.
pub fn parse_u8(s: &str) -> (r: Option<u8>)
    ensures
        r == spec_parse_u8(s@),
{
    match parse_u32(s) {
        Some(n) => if n <= 255 {
            Some(n as u8)
        } else {
            None
        },
        None => None,
    }
}

/// The colour that a line of a table writes.
pub fn table_line(line: &str) -> (r: Option<(u8, u8, u8)>)
    ensures
        r == spec_table_line(line@),
{
    let parts = split(line, ',');
    let mut bytes: Vec<u8> = Vec::new();
    let mut i: usize = 0;
    while i < parts.len()
        invariant
            i <= parts@.len(),
            texts(parts@) == spec_split(line@, ','),
            bytes@.len() == i,
            forall|j: int|
                0 <= j < i ==> spec_parse_u8(#[trigger] texts(parts@)[j]) == Some(bytes@[j]),
        decreases parts@.len() - i,
    {
        assert(texts(parts@)[i as int] == parts@[i as int]@);
        match parse_u8(parts[i].as_str()) {
            Some(b) => {
                bytes.push(b);
            },
            None => {
                return None;
            },
        }
        i += 1;
    }
    if bytes.len() >= 3 {
        Some((bytes[0], bytes[1], bytes[2]))
    } else {
        None
    }
}

/// What the parameters between the brackets ask for.
pub fn parse_table(palette: Palette, params: &str) -> (r: Result<ColorRequest, ColorError>)
    ensures
        match r {
            Ok(request) => spec_parse_table(palette, params@) == Ok::<
                ColorRequestView,
                ColorErrorView,
            >(request@),
            Err(e) => spec_parse_table(palette, params@) == Err::<ColorRequestView, ColorErrorView>(
                e@,
            ),
        },
{
    let parts = split(params, ',');
    if parts.len() != 2 {
        return Err(ColorError::Syntax);
    }
    let first = trim(parts[0].as_str());
    match parse_u32(first.as_str()) {
        None => Err(ColorError::Shift(parts[0].clone())),
        Some(shift) => Ok(ColorRequest::Table { palette, shift, scale: parts[1].clone() }),
    }
}

/// What the text `s` asks for.
pub fn parse_color(s: &str) -> (r: Result<ColorRequest, ColorError>)
    ensures
        match r {
            Ok(request) => spec_parse_color(s@) == Ok::<ColorRequestView, ColorErrorView>(
                request@,
            ),
            Err(e) => spec_parse_color(s@) == Err::<ColorRequestView, ColorErrorView>(e@),
        },
{
    proof {
        reveal_strlit("color(");
        reveal_strlit("red(");
        reveal_strlit(")");
    }
    let t = trim(s);
    let n: usize = t.as_str().unicode_len();
    if same_text(t.as_str(), "greyscale") {
        Ok(ColorRequest::Greyscale)
    } else if same_text(t.as_str(), "rgreyscale") {
        Ok(ColorRequest::RGreyscale)
    } else if starts_with(t.as_str(), "color(") && ends_with(t.as_str(), ")") {
        assert(t@[5] == "color("@[5]);
        assert(t@[t@.len() - 1] == ")"@[0]);
        let params = slice_text(t.as_str(), 6, n - 1);
        parse_table(Palette::Color, params.as_str())
    } else if starts_with(t.as_str(), "red(") && ends_with(t.as_str(), ")") {
        assert(t@[3] == "red("@[3]);
        assert(t@[t@.len() - 1] == ")"@[0]);
        let params = slice_text(t.as_str(), 4, n - 1);
        parse_table(Palette::Red, params.as_str())
    } else {
        Err(ColorError::NoSuchFunction(t))
    }
}

impl ColorError {
    /// The words of the error. Those of a shift that is no number hold
    /// what the number parser said, `parser_words`.
    pub fn message(&self, parser_words: &str) -> (r: String)
        ensures
            r@ == (match *self {
                ColorError::Syntax => "Incorrect syntax: color has 2 parameters (shift and scale)."@,
                ColorError::Shift(text) => "Couldn't parse shift "@ + text@ + ": "@
                    + parser_words@ + "."@,
                ColorError::NoSuchFunction(name) => "No such color function: "@ + name@ + "."@,
            }),
    {
        match self {
            ColorError::Syntax => String::from_str(
                "Incorrect syntax: color has 2 parameters (shift and scale).",
            ),
            ColorError::Shift(text) => {
                let mut r = String::from_str("Couldn't parse shift ");
                r.append(text.as_str());
                r.append(": ");
                r.append(parser_words);
                r.append(".");
                r
            },
            ColorError::NoSuchFunction(name) => {
                let mut r = String::from_str("No such color function: ");
                r.append(name.as_str());
                r.append(".");
                r
            },
        }
    }
}

} // verus!
