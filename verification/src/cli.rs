//! The commands of the interactive prompt and what they do to the
//! parameters.
//!
//! Scalars are read and written as text by the caller; a command that
//! sets one hands its text on.

use vstd::prelude::*;
use crate::math::Real;
use crate::render::Parameters;
use crate::text::{
    decimal, decimal_text, parse_u32, same_text, slice_text, spec_parse_u32, spec_trim, spec_words,
    starts_with, trim, words,
};

verus! {

/// A field of the parameters that the prompt can get and set.
#[derive(Clone, Copy, Debug, PartialEq, Eq, Structural)]
pub enum Field {
    Iterations,
    Width,
    Height,
    CenterX,
    CenterY,
    Radius,
    Supersampling,
    ColorFunc,
}

/// What a line of input asks for.
#[derive(Clone, Debug)]
pub enum Command {
    /// The input has ended: not even a line end was read.
    End,
    /// A blank line.
    Hint,
    Quit,
    /// Set the field to the value that the text writes.
    SetField(Field, String),
    /// `set` with a field and no value.
    SetWithoutValue,
    GetField(Field),
    /// `get` or `set` with a word that names no field.
    UnknownField(String),
    Render,
    /// Export the picture to the path.
    Export(String),
    /// Save the configuration to the path.
    SaveConfig(String),
    Help,
    /// `get` alone.
    GetWithoutField,
    /// `set` alone.
    SetWithoutField,
    /// `export` or `saveconfig` alone.
    WithoutPath,
    /// Anything else, trimmed.
    Unknown(String),
}

pub enum CommandView {
    End,
    Hint,
    Quit,
    SetField(Field, Seq<char>),
    SetWithoutValue,
    GetField(Field),
    UnknownField(Seq<char>),
    Render,
    Export(Seq<char>),
    SaveConfig(Seq<char>),
    Help,
    GetWithoutField,
    SetWithoutField,
    WithoutPath,
    Unknown(Seq<char>),
}

impl View for Command {
    type V = CommandView;

    open spec fn view(&self) -> CommandView {
        match *self {
            Command::End => CommandView::End,
            Command::Hint => CommandView::Hint,
            Command::Quit => CommandView::Quit,
            Command::SetField(field, value) => CommandView::SetField(field, value@),
            Command::SetWithoutValue => CommandView::SetWithoutValue,
            Command::GetField(field) => CommandView::GetField(field),
            Command::UnknownField(word) => CommandView::UnknownField(word@),
            Command::Render => CommandView::Render,
            Command::Export(path) => CommandView::Export(path@),
            Command::SaveConfig(path) => CommandView::SaveConfig(path@),
            Command::Help => CommandView::Help,
            Command::GetWithoutField => CommandView::GetWithoutField,
            Command::SetWithoutField => CommandView::SetWithoutField,
            Command::WithoutPath => CommandView::WithoutPath,
            Command::Unknown(text) => CommandView::Unknown(text@),
        }
    }
}

/// What setting a field to a text does.
pub enum SetOutcome {
    /// The field is an integer and the text writes one: the parameters
    /// with the field set.
    Updated(Parameters),
    /// The field is an integer and the text writes none.
    Invalid,
    /// The field is a scalar: the text is to be read as one and handed to
    /// `set_scalar`.
    Scalar,
    /// The field is the colour function.
    Color,
}

/// The value of a field.
#[derive(Clone, Copy, Debug)]
pub enum FieldValue {
    Integer(u32),
    Scalar(Real),
    /// The colour function, which the parameters do not hold.
    Color,
}

/// The field that a word names.
pub open spec fn spec_field(name: Seq<char>) -> Option<Field> {
    if name == "iterations"@ {
        Some(Field::Iterations)
    } else if name == "width"@ {
        Some(Field::Width)
    } else if name == "height"@ {
        Some(Field::Height)
    } else if name == "center:x"@ {
        Some(Field::CenterX)
    } else if name == "center:y"@ {
        Some(Field::CenterY)
    } else if name == "radius"@ {
        Some(Field::Radius)
    } else if name == "supersampling"@ {
        Some(Field::Supersampling)
    } else if name == "colorfunc"@ {
        Some(Field::ColorFunc)
    } else {
        None
    }
}

/// The first word of `s`, or nothing where it holds no word.
pub open spec fn first_word(s: Seq<char>) -> Seq<char> {
    if spec_words(s).len() > 0 {
        spec_words(s)[0]
    } else {
        Seq::empty()
    }
}

/// What follows `set`: a field and, one character behind its name, a
/// value, which is trimmed.
pub open spec fn spec_parse_set(rest: Seq<char>) -> CommandView {
    let name = first_word(rest);
    match spec_field(name) {
        Some(field) => if rest.len() <= name.len() {
            CommandView::SetWithoutValue
        } else {
            CommandView::SetField(field, spec_trim(rest.skip(name.len() as int + 1)))
        },
        None => CommandView::UnknownField(name),
    }
}

/// What follows `get`: a field and nothing else.
pub open spec fn spec_parse_get(rest: Seq<char>) -> CommandView {
    match spec_field(rest) {
        Some(field) => CommandView::GetField(field),
        None => CommandView::UnknownField(first_word(rest)),
    }
}

/// What the line `input` asks for. A line with no character at all is the
/// end of the input; else the line counts without the white space round
/// it.
pub open spec fn spec_parse_command(input: Seq<char>) -> CommandView {
    let t = spec_trim(input);
    if input.len() == 0 {
        CommandView::End
    } else if t.len() == 0 {
        CommandView::Hint
    } else if t == "quit"@ || t == "exit"@ {
        CommandView::Quit
    } else if "set "@.is_prefix_of(t) {
        spec_parse_set(spec_trim(t.skip(4)))
    } else if "get "@.is_prefix_of(t) {
        spec_parse_get(spec_trim(t.skip(4)))
    } else if t == "render"@ {
        CommandView::Render
    } else if "export "@.is_prefix_of(t) {
        CommandView::Export(t.skip(7))
    } else if "saveconfig "@.is_prefix_of(t) {
        CommandView::SaveConfig(t.skip(11))
    } else if t == "help"@ {
        CommandView::Help
    } else if t == "get"@ {
        CommandView::GetWithoutField
    } else if t == "set"@ {
        CommandView::SetWithoutField
    } else if t == "export"@ || t == "saveconfig"@ {
        CommandView::WithoutPath
    } else {
        CommandView::Unknown(t)
    }
}

/// The parameters with the integer field `field` set to `value`; a field
/// that is no integer leaves them as they are.
pub open spec fn spec_with_integer(params: Parameters, field: Field, value: u32) -> Parameters {
    match field {
        Field::Iterations => Parameters { max_iter: value, ..params },
        Field::Width => Parameters { image_size: (value, params.image_size.1), ..params },
        Field::Height => Parameters { image_size: (params.image_size.0, value), ..params },
        Field::Supersampling => Parameters { supersampling: value, ..params },
        _ => params,
    }
}

/// The parameters with the scalar field `field` set to `value`; a field
/// that is no scalar leaves them as they are.
pub open spec fn spec_with_scalar(params: Parameters, field: Field, value: Real) -> Parameters {
    match field {
        Field::CenterX => Parameters {
            center: crate::math::Complex(value, params.center.1),
            ..params
        },
        Field::CenterY => Parameters {
            center: crate::math::Complex(params.center.0, value),
            ..params
        },
        Field::Radius => Parameters { radius: value, ..params },
        _ => params,
    }
}

/// The value of field `field`.
pub open spec fn spec_get_field(params: Parameters, field: Field) -> FieldValue {
    match field {
        Field::Iterations => FieldValue::Integer(params.max_iter),
        Field::Width => FieldValue::Integer(params.image_size.0),
        Field::Height => FieldValue::Integer(params.image_size.1),
        Field::CenterX => FieldValue::Scalar(params.center.0),
        Field::CenterY => FieldValue::Scalar(params.center.1),
        Field::Radius => FieldValue::Scalar(params.radius),
        Field::Supersampling => FieldValue::Integer(params.supersampling),
        Field::ColorFunc => FieldValue::Color,
    }
}

/// The text that saves a configuration: one `set` command for each
/// field, the scalars and the colour function as the given texts.
pub open spec fn spec_config_text(
    params: Parameters,
    center_x: Seq<char>,
    center_y: Seq<char>,
    radius: Seq<char>,
    colorfunc: Seq<char>,
) -> Seq<char> {
    "set iterations "@ + decimal(params.max_iter as nat) + "\n"@ + "set width "@ + decimal(
        params.image_size.0 as nat,
    ) + "\n"@ + "set height "@ + decimal(params.image_size.1 as nat) + "\n"@ + "set center:x "@
        + center_x + "\n"@ + "set center:y "@ + center_y + "\n"@ + "set radius "@ + radius
        + "\n"@ + "set supersampling "@ + decimal(params.supersampling as nat) + "\n"@
        + "set colorfunc "@ + colorfunc + "\n"@
}

impl Field {
    /// The field that `name` names.
    pub fn named(name: &str) -> (r: Option<Field>)
        ensures
            r == spec_field(name@),
    {
        if same_text(name, "iterations") {
            Some(Field::Iterations)
        } else if same_text(name, "width") {
            Some(Field::Width)
        } else if same_text(name, "height") {
            Some(Field::Height)
        } else if same_text(name, "center:x") {
            Some(Field::CenterX)
        } else if same_text(name, "center:y") {
            Some(Field::CenterY)
        } else if same_text(name, "radius") {
            Some(Field::Radius)
        } else if same_text(name, "supersampling") {
            Some(Field::Supersampling)
        } else if same_text(name, "colorfunc") {
            Some(Field::ColorFunc)
        } else {
            None
        }
    }
}

/// The first word of `s`.
pub fn first_word_of(s: &str) -> (r: String)
    ensures
        r@ == first_word(s@),
{
    let all = words(s);
    if all.len() > 0 {
        all[0].clone()
    } else {
        String::new()
    }
}

/// What follows `set`.
pub fn parse_set(rest: &str) -> (r: Command)
    ensures
        r@ == spec_parse_set(rest@),
{
    let name = first_word_of(rest);
    match Field::named(name.as_str()) {
        Some(field) => {
            let n: usize = name.as_str().unicode_len();
            let len: usize = rest.unicode_len();
            if len <= n {
                Command::SetWithoutValue
            } else {
                let tail = slice_text(rest, n + 1, len);
                Command::SetField(field, trim(tail.as_str()))
            }
        },
        None => Command::UnknownField(name),
    }
}

/// What follows `get`.
pub fn parse_get(rest: &str) -> (r: Command)
    ensures
        r@ == spec_parse_get(rest@),
{
    match Field::named(rest) {
        Some(field) => Command::GetField(field),
        None => Command::UnknownField(first_word_of(rest)),
    }
}

/// The part of `s` from character `from` on.
fn tail_of(s: &str, from: usize) -> (r: String)
    requires
        from <= s@.len(),
    ensures
        r@ == s@.skip(from as int),
{
    let r = slice_text(s, from, s.unicode_len());
    r
}

/// What the line `input` asks for.
pub fn parse_command(input: &str) -> (r: Command)
    ensures
        r@ == spec_parse_command(input@),
{
    proof {
        reveal_strlit("set ");
        reveal_strlit("get ");
        reveal_strlit("export ");
        reveal_strlit("saveconfig ");
    }
    if input.unicode_len() == 0 {
        return Command::End;
    }
    let t = trim(input);
    let line = t.as_str();
    if line.unicode_len() == 0 {
        Command::Hint
    } else if same_text(line, "quit") || same_text(line, "exit") {
        Command::Quit
    } else if starts_with(line, "set ") {
        let rest = trim(tail_of(line, 4).as_str());
        parse_set(rest.as_str())
    } else if starts_with(line, "get ") {
        let rest = trim(tail_of(line, 4).as_str());
        parse_get(rest.as_str())
    } else if same_text(line, "render") {
        Command::Render
    } else if starts_with(line, "export ") {
        Command::Export(tail_of(line, 7))
    } else if starts_with(line, "saveconfig ") {
        Command::SaveConfig(tail_of(line, 11))
    } else if same_text(line, "help") {
        Command::Help
    } else if same_text(line, "get") {
        Command::GetWithoutField
    } else if same_text(line, "set") {
        Command::SetWithoutField
    } else if same_text(line, "export") || same_text(line, "saveconfig") {
        Command::WithoutPath
    } else {
        Command::Unknown(t)
    }
}

/// Sets field `field` to what the text `value` writes, as far as the
/// field is an integer.
pub fn set_field(params: Parameters, field: Field, value: &str) -> (r: SetOutcome)
    ensures
        match field {
            Field::Iterations | Field::Width | Field::Height | Field::Supersampling => {
                match spec_parse_u32(value@) {
                    Some(number) => r matches SetOutcome::Updated(p) && p == spec_with_integer(
                        params,
                        field,
                        number,
                    ),
                    None => r is Invalid,
                }
            },
            Field::CenterX | Field::CenterY | Field::Radius => r is Scalar,
            Field::ColorFunc => r is Color,
        },
{
    match field {
        Field::CenterX | Field::CenterY | Field::Radius => SetOutcome::Scalar,
        Field::ColorFunc => SetOutcome::Color,
        _ => match parse_u32(value) {
            Some(number) => {
                let mut p = params;
                match field {
                    Field::Iterations => {
                        p.max_iter = number;
                    },
                    Field::Width => {
                        p.image_size = (number, params.image_size.1);
                    },
                    Field::Height => {
                        p.image_size = (params.image_size.0, number);
                    },
                    _ => {
                        p.supersampling = number;
                    },
                }
                SetOutcome::Updated(p)
            },
            None => SetOutcome::Invalid,
        },
    }
}

/// The parameters with the scalar field `field` set to `value`.
pub fn set_scalar(params: Parameters, field: Field, value: Real) -> (r: Parameters)
    ensures
        r == spec_with_scalar(params, field, value),
{
    let mut p = params;
    match field {
        Field::CenterX => {
            p.center = crate::math::Complex(value, params.center.1);
        },
        Field::CenterY => {
            p.center = crate::math::Complex(params.center.0, value);
        },
        Field::Radius => {
            p.radius = value;
        },
        _ => {},
    }
    p
}

/// The value of field `field`.
pub fn get_field(params: &Parameters, field: Field) -> (r: FieldValue)
    ensures
        r == spec_get_field(*params, field),
{
    match field {
        Field::Iterations => FieldValue::Integer(params.max_iter),
        Field::Width => FieldValue::Integer(params.image_size.0),
        Field::Height => FieldValue::Integer(params.image_size.1),
        Field::CenterX => FieldValue::Scalar(params.center.0),
        Field::CenterY => FieldValue::Scalar(params.center.1),
        Field::Radius => FieldValue::Scalar(params.radius),
        Field::Supersampling => FieldValue::Integer(params.supersampling),
        Field::ColorFunc => FieldValue::Color,
    }
}

/// The answer to a value that its field does not take.
pub fn invalid_value(value: &str) -> (r: String)
    ensures
        r@ == "Invalid value: "@ + value@,
{
    let mut r = String::from_str("Invalid value: ");
    r.append(value);
    r
}

/// The answer to a command that only the prompt answers, if `command` is
/// one.
pub fn answer(command: &Command) -> (r: Option<String>)
    ensures
        match *command {
            Command::End => r matches Some(t) && t@ == "exit"@,
            Command::Hint => r matches Some(t) && t@ == "Enter `help` for possible commands"@,
            Command::SetWithoutValue => r matches Some(t) && t@ == "Must specify a value."@,
            Command::UnknownField(word) => r matches Some(t) && t@ == word@
                + " is not a valid field."@,
            Command::GetWithoutField => r matches Some(t) && t@ == "Must specify a field."@,
            Command::SetWithoutField => r matches Some(t) && t@
                == "Must specify a field and a value."@,
            Command::WithoutPath => r matches Some(t) && t@ == "Must specify a path."@,
            Command::Unknown(text) => r matches Some(t) && t@ == text@
                + " is not a valid command."@,
            _ => r is None,
        },
{
    match command {
        Command::End => Some(String::from_str("exit")),
        Command::Hint => Some(String::from_str("Enter `help` for possible commands")),
        Command::SetWithoutValue => Some(String::from_str("Must specify a value.")),
        Command::UnknownField(word) => {
            let mut t = word.clone();
            t.append(" is not a valid field.");
            Some(t)
        },
        Command::GetWithoutField => Some(String::from_str("Must specify a field.")),
        Command::SetWithoutField => Some(String::from_str("Must specify a field and a value.")),
        Command::WithoutPath => Some(String::from_str("Must specify a path.")),
        Command::Unknown(text) => {
            let mut t = text.clone();
            t.append(" is not a valid command.");
            Some(t)
        },
        _ => None,
    }
}

/// The text that saves a configuration.
pub fn config_text(
    params: &Parameters,
    center_x: &str,
    center_y: &str,
    radius: &str,
    colorfunc: &str,
) -> (r: String)
    ensures
        r@ == spec_config_text(*params, center_x@, center_y@, radius@, colorfunc@),
{
    let mut r = String::from_str("set iterations ");
    r.append(decimal_text(params.max_iter as u64).as_str());
    r.append("\n");
    r.append("set width ");
    r.append(decimal_text(params.image_size.0 as u64).as_str());
    r.append("\n");
    r.append("set height ");
    r.append(decimal_text(params.image_size.1 as u64).as_str());
    r.append("\n");
    r.append("set center:x ");
    r.append(center_x);
    r.append("\n");
    r.append("set center:y ");
    r.append(center_y);
    r.append("\n");
    r.append("set radius ");
    r.append(radius);
    r.append("\n");
    r.append("set supersampling ");
    r.append(decimal_text(params.supersampling as u64).as_str());
    r.append("\n");
    r.append("set colorfunc ");
    r.append(colorfunc);
    r.append("\n");
    r
}

} // verus!
