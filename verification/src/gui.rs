//! The line protocol of the graphical front end: what a line asks for and
//! what is answered.
//!
//! Scalars travel as text: a render request hands on the texts of centre
//! and radius as they stand.

use vstd::prelude::*;
use crate::math::Real;
use crate::text::{
    parse_u32, same_text, spec_parse_u32, spec_split, spec_strip, spec_trim, split, starts_with,
    strip, texts, trim,
};

verus! {

/// An error that the front end is told, by its code.
#[derive(Clone, Copy, Debug, PartialEq, Eq, Structural)]
pub enum GuiError {
    /// `error(0)`: no such request.
    Unknown,
    /// `error(1)`: a render request does not hold nine parts.
    Parts,
    /// `error(2.1)`: the iterations are no number.
    Iterations,
    /// `error(2.2)`
    Width,
    /// `error(2.3)`
    Height,
    /// `error(2.4)`
    Supersampling,
    /// `error(2.5)`
    CenterX,
    /// `error(2.6)`
    CenterY,
    /// `error(2.7)`
    Radius,
    /// `error(2.8)`: no such colour function.
    ColorFunction,
    /// `error(3.1)`: a supersampling factor of zero.
    ZeroSupersampling,
    /// `error(3.2)`: a radius below zero.
    NegativeRadius,
    /// `error(4)`: progress is asked for and no job was started.
    NoOperation,
    /// `error(5)`: a render is asked for while a job runs.
    Busy,
    /// `error(6.1)`: output is asked for and no job was started.
    NoOutput,
    /// `error(6.2)`: output is asked for while the job runs.
    StillRunning,
    /// `error(6.3)`: the job failed.
    Failed,
}

/// A render request with its integers read and its other parts as
/// written.
#[derive(Clone, Debug)]
pub struct RenderRequest {
    pub iterations: u32,
    pub width: u32,
    pub height: u32,
    pub supersampling: u32,
    pub center_x: String,
    pub center_y: String,
    pub radius: String,
    pub colorfunc: String,
}

/// What a line asks for.
#[derive(Clone, Debug)]
pub enum GuiRequest {
    Render(RenderRequest),
    Progress,
    Output,
    Exit,
}

pub struct RenderRequestView {
    pub iterations: u32,
    pub width: u32,
    pub height: u32,
    pub supersampling: u32,
    pub center_x: Seq<char>,
    pub center_y: Seq<char>,
    pub radius: Seq<char>,
    pub colorfunc: Seq<char>,
}

pub enum GuiRequestView {
    Render(RenderRequestView),
    Progress,
    Output,
    Exit,
}

impl View for RenderRequest {
    type V = RenderRequestView;

    open spec fn view(&self) -> RenderRequestView {
        RenderRequestView {
            iterations: self.iterations,
            width: self.width,
            height: self.height,
            supersampling: self.supersampling,
            center_x: self.center_x@,
            center_y: self.center_y@,
            radius: self.radius@,
            colorfunc: self.colorfunc@,
        }
    }
}

impl View for GuiRequest {
    type V = GuiRequestView;

    open spec fn view(&self) -> GuiRequestView {
        match *self {
            GuiRequest::Render(request) => GuiRequestView::Render(request@),
            GuiRequest::Progress => GuiRequestView::Progress,
            GuiRequest::Output => GuiRequestView::Output,
            GuiRequest::Exit => GuiRequestView::Exit,
        }
    }
}

/// What the connection knows of its job.
#[derive(Clone, Copy, Debug, PartialEq, Eq, Structural)]
pub enum Operation {
    /// No job was started, or its result was fetched.
    Absent,
    /// The job's progress cell holds a percentage.
    Running,
    /// The job's progress cell is empty.
    Complete,
}

/// A line as it counts: what was received without the NUL characters
/// and then the white space at its ends.
pub open spec fn spec_clean_line(raw: Seq<char>) -> Seq<char> {
    spec_trim(spec_strip(raw, '\0'))
}

/// What the parts of a render request write. There are nine of them, the
/// word `render` first; the four that follow it are numbers, looked at in
/// order.
pub open spec fn spec_parse_render(parts: Seq<Seq<char>>) -> Result<RenderRequestView, GuiError> {
    if parts.len() != 9 {
        Err(GuiError::Parts)
    } else if spec_parse_u32(parts[1]) is None {
        Err(GuiError::Iterations)
    } else if spec_parse_u32(parts[2]) is None {
        Err(GuiError::Width)
    } else if spec_parse_u32(parts[3]) is None {
        Err(GuiError::Height)
    } else if spec_parse_u32(parts[4]) is None {
        Err(GuiError::Supersampling)
    } else {
        Ok(
            RenderRequestView {
                iterations: spec_parse_u32(parts[1])->0,
                width: spec_parse_u32(parts[2])->0,
                height: spec_parse_u32(parts[3])->0,
                supersampling: spec_parse_u32(parts[4])->0,
                center_x: parts[5],
                center_y: parts[6],
                radius: parts[7],
                colorfunc: parts[8],
            },
        )
    }
}

/// What the clean line `line` asks for. A line that begins with `render`
/// is a render request, cut at each single space.
pub open spec fn spec_parse_line(line: Seq<char>) -> Result<GuiRequestView, GuiError> {
    if "render"@.is_prefix_of(line) {
        match spec_parse_render(spec_split(line, ' ')) {
            Ok(request) => Ok(GuiRequestView::Render(request)),
            Err(e) => Err(e),
        }
    } else if line == "progress"@ {
        Ok(GuiRequestView::Progress)
    } else if line == "output"@ {
        Ok(GuiRequestView::Output)
    } else if line == "exit"@ {
        Ok(GuiRequestView::Exit)
    } else {
        Err(GuiError::Unknown)
    }
}

/// The code of an error.
pub open spec fn spec_code(error: GuiError) -> Seq<char> {
    match error {
        GuiError::Unknown => "0"@,
        GuiError::Parts => "1"@,
        GuiError::Iterations => "2.1"@,
        GuiError::Width => "2.2"@,
        GuiError::Height => "2.3"@,
        GuiError::Supersampling => "2.4"@,
        GuiError::CenterX => "2.5"@,
        GuiError::CenterY => "2.6"@,
        GuiError::Radius => "2.7"@,
        GuiError::ColorFunction => "2.8"@,
        GuiError::ZeroSupersampling => "3.1"@,
        GuiError::NegativeRadius => "3.2"@,
        GuiError::NoOperation => "4"@,
        GuiError::Busy => "5"@,
        GuiError::NoOutput => "6.1"@,
        GuiError::StillRunning => "6.2"@,
        GuiError::Failed => "6.3"@,
    }
}

impl GuiError {
    /// The code of the error.
    pub fn code(&self) -> (r: &'static str)
        ensures
            r@ == spec_code(*self),
    {
        match self {
            GuiError::Unknown => "0",
            GuiError::Parts => "1",
            GuiError::Iterations => "2.1",
            GuiError::Width => "2.2",
            GuiError::Height => "2.3",
            GuiError::Supersampling => "2.4",
            GuiError::CenterX => "2.5",
            GuiError::CenterY => "2.6",
            GuiError::Radius => "2.7",
            GuiError::ColorFunction => "2.8",
            GuiError::ZeroSupersampling => "3.1",
            GuiError::NegativeRadius => "3.2",
            GuiError::NoOperation => "4",
            GuiError::Busy => "5",
            GuiError::NoOutput => "6.1",
            GuiError::StillRunning => "6.2",
            GuiError::Failed => "6.3",
        }
    }

    /// The line that tells the front end of the error.
    pub fn line(&self) -> (r: String)
        ensures
            r@ == "error("@ + spec_code(*self) + ")\n"@,
    {
        let mut r = String::from_str("error(");
        r.append(self.code());
        r.append(")\n");
        r
    }
}

/// The line as it counts.
pub fn clean_line(raw: &str) -> (r: String)
    ensures
        r@ == spec_clean_line(raw@),
{
    let stripped = strip(raw, '\0');
    trim(stripped.as_str())
}

/// What the parts of a render request write.
pub fn parse_render(parts: &Vec<String>) -> (r: Result<RenderRequest, GuiError>)
    ensures
        match r {
            Ok(request) => spec_parse_render(texts(parts@)) == Ok::<RenderRequestView, GuiError>(
                request@,
            ),
            Err(e) => spec_parse_render(texts(parts@)) == Err::<RenderRequestView, GuiError>(e),
        },
{
    if parts.len() != 9 {
        return Err(GuiError::Parts);
    }
    assert forall|i: int| 0 <= i < 9 implies texts(parts@)[i] == parts@[i]@ by {}
    let iterations = match parse_u32(parts[1].as_str()) {
        Some(n) => n,
        None => {
            return Err(GuiError::Iterations);
        },
    };
    let width = match parse_u32(parts[2].as_str()) {
        Some(n) => n,
        None => {
            return Err(GuiError::Width);
        },
    };
    let height = match parse_u32(parts[3].as_str()) {
        Some(n) => n,
        None => {
            return Err(GuiError::Height);
        },
    };
    let supersampling = match parse_u32(parts[4].as_str()) {
        Some(n) => n,
        None => {
            return Err(GuiError::Supersampling);
        },
    };
    Ok(
        RenderRequest {
            iterations,
            width,
            height,
            supersampling,
            center_x: parts[5].clone(),
            center_y: parts[6].clone(),
            radius: parts[7].clone(),
            colorfunc: parts[8].clone(),
        },
    )
}

/// What the clean line `line` asks for.
pub fn parse_line(line: &str) -> (r: Result<GuiRequest, GuiError>)
    ensures
        match r {
            Ok(request) => spec_parse_line(line@) == Ok::<GuiRequestView, GuiError>(request@),
            Err(e) => spec_parse_line(line@) == Err::<GuiRequestView, GuiError>(e),
        },
{
    if starts_with(line, "render") {
        let parts = split(line, ' ');
        match parse_render(&parts) {
            Ok(request) => Ok(GuiRequest::Render(request)),
            Err(e) => Err(e),
        }
    } else if same_text(line, "progress") {
        Ok(GuiRequest::Progress)
    } else if same_text(line, "output") {
        Ok(GuiRequest::Output)
    } else if same_text(line, "exit") {
        Ok(GuiRequest::Exit)
    } else {
        Err(GuiError::Unknown)
    }
}

/// Whether a render may start: not while a job runs.
pub fn render_gate(operation: Operation) -> (r: Result<(), GuiError>)
    ensures
        r == (if operation == Operation::Running {
            Err::<(), GuiError>(GuiError::Busy)
        } else {
            Ok::<(), GuiError>(())
        }),
{
    match operation {
        Operation::Running => Err(GuiError::Busy),
        _ => Ok(()),
    }
}

/// Whether progress can be told: only of a job that was started.
pub fn progress_gate(operation: Operation) -> (r: Result<(), GuiError>)
    ensures
        r == (if operation == Operation::Absent {
            Err::<(), GuiError>(GuiError::NoOperation)
        } else {
            Ok::<(), GuiError>(())
        }),
{
    match operation {
        Operation::Absent => Err(GuiError::NoOperation),
        _ => Ok(()),
    }
}

/// Whether the output can be fetched: only of a job that is complete.
pub fn output_gate(operation: Operation) -> (r: Result<(), GuiError>)
    ensures
        r == (match operation {
            Operation::Absent => Err::<(), GuiError>(GuiError::NoOutput),
            Operation::Running => Err::<(), GuiError>(GuiError::StillRunning),
            Operation::Complete => Ok::<(), GuiError>(()),
        }),
{
    match operation {
        Operation::Absent => Err(GuiError::NoOutput),
        Operation::Running => Err(GuiError::StillRunning),
        Operation::Complete => Ok(()),
    }
}

/// What the clean line `line` asks for and the job allows: a render not
/// while a job runs, whatever else the line holds; progress only of a job
/// that was started; output only of a job that is complete.
pub open spec fn spec_request(line: Seq<char>, operation: Operation) -> Result<
    GuiRequestView,
    GuiError,
> {
    if "render"@.is_prefix_of(line) && operation == Operation::Running {
        Err(GuiError::Busy)
    } else {
        match spec_parse_line(line) {
            Ok(GuiRequestView::Progress) => if operation == Operation::Absent {
                Err(GuiError::NoOperation)
            } else {
                Ok(GuiRequestView::Progress)
            },
            Ok(GuiRequestView::Output) => match operation {
                Operation::Absent => Err(GuiError::NoOutput),
                Operation::Running => Err(GuiError::StillRunning),
                Operation::Complete => Ok(GuiRequestView::Output),
            },
            other => other,
        }
    }
}

/// What the clean line `line` asks for and the job allows.
pub fn request(line: &str, operation: Operation) -> (r: Result<GuiRequest, GuiError>)
    ensures
        match r {
            Ok(request) => spec_request(line@, operation) == Ok::<GuiRequestView, GuiError>(
                request@,
            ),
            Err(e) => spec_request(line@, operation) == Err::<GuiRequestView, GuiError>(e),
        },
{
    if starts_with(line, "render") {
        match render_gate(operation) {
            Err(e) => {
                return Err(e);
            },
            Ok(_) => {},
        }
    }
    match parse_line(line) {
        Ok(GuiRequest::Progress) => match progress_gate(operation) {
            Ok(_) => Ok(GuiRequest::Progress),
            Err(e) => Err(e),
        },
        Ok(GuiRequest::Output) => match output_gate(operation) {
            Ok(_) => Ok(GuiRequest::Output),
            Err(e) => Err(e),
        },
        other => other,
    }
}

/// The warnings that a render request earns and that do not stop it: a
/// factor of zero, a radius below zero.
pub fn render_warnings(supersampling: u32, radius: Real) -> (r: (
    Option<GuiError>,
    Option<GuiError>,
))
    ensures
        r.0 == (if supersampling == 0 {
            Some(GuiError::ZeroSupersampling)
        } else {
            None
        }),
        r.1 == (if radius.spec_is_negative() {
            Some(GuiError::NegativeRadius)
        } else {
            None
        }),
{
    let first = if supersampling == 0 {
        Some(GuiError::ZeroSupersampling)
    } else {
        None
    };
    let second = if radius.is_negative() {
        Some(GuiError::NegativeRadius)
    } else {
        None
    };
    (first, second)
}

/// The address to listen on: the local host, at the port given or at one
/// that the system picks.
pub fn listen_address(port: Option<u16>) -> (r: String)
    ensures
        r@ == "127.0.0.1:"@ + crate::text::decimal(
            (match port {
                Some(p) => p as nat,
                None => 0nat,
            }),
        ),
{
    let number: u64 = match port {
        Some(p) => p as u64,
        None => 0,
    };
    let mut r = String::from_str("127.0.0.1:");
    r.append(crate::text::decimal_text(number).as_str());
    r
}

} // verus!
