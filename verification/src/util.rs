//! The configuration of a run, as the command line gives it.

use vstd::prelude::*;
use crate::text::{parse_u32, same_text, spec_parse_u32, spec_trim, texts, trim};

verus! {

/// Whether to serve a graphical front end, and on which port.
#[derive(Clone, Copy, Debug, PartialEq, Eq, Structural)]
pub struct Config {
    pub gui: bool,
    pub port: Option<u16>,
}

/// Why a command line gives no configuration.
#[derive(Clone, Debug)]
pub enum ArgError {
    /// The argument is no option.
    UnknownOption(String),
    /// A port option is followed by no number.
    MissingPort,
    /// The port is above 65535.
    PortTooLarge,
}

/// An `ArgError` with its text as a sequence.
pub enum ArgErrorView {
    UnknownOption(Seq<char>),
    MissingPort,
    PortTooLarge,
}

impl View for ArgError {
    type V = ArgErrorView;

    open spec fn view(&self) -> ArgErrorView {
        match *self {
            ArgError::UnknownOption(arg) => ArgErrorView::UnknownOption(arg@),
            ArgError::MissingPort => ArgErrorView::MissingPort,
            ArgError::PortTooLarge => ArgErrorView::PortTooLarge,
        }
    }
}

pub open spec fn is_gui_option(arg: Seq<char>) -> bool {
    arg == "-g"@ || arg == "--gui"@
}

pub open spec fn is_port_option(arg: Seq<char>) -> bool {
    arg == "-p"@ || arg == "--port"@
}

/// What the options `args` make of the flag `gui` and the port `port`:
/// a gui option sets the flag, a port option takes the next argument as
/// the port, anything else is refused. The first fault counts.
pub open spec fn spec_parse_options(args: Seq<Seq<char>>, gui: bool, port: Option<u16>) -> Result<
    (bool, Option<u16>),
    ArgErrorView,
>
    decreases args.len(),
{
    if args.len() == 0 {
        Ok((gui, port))
    } else if is_gui_option(args[0]) {
        spec_parse_options(args.drop_first(), true, port)
    } else if is_port_option(args[0]) {
        if args.len() < 2 {
            Err(ArgErrorView::MissingPort)
        } else {
            match spec_parse_u32(args[1]) {
                None => Err(ArgErrorView::MissingPort),
                Some(number) => if number > 65535 {
                    Err(ArgErrorView::PortTooLarge)
                } else {
                    spec_parse_options(args.skip(2), gui, Some(number as u16))
                },
            }
        }
    } else {
        Err(ArgErrorView::UnknownOption(args[0]))
    }
}

/// The configuration that a command line gives. Its first word, the
/// program's name, is passed over; without the gui flag the port is
/// dropped.
pub open spec fn spec_parse_args(args: Seq<Seq<char>>) -> Result<Config, ArgErrorView> {
    let options = if args.len() == 0 {
        args
    } else {
        args.drop_first()
    };
    match spec_parse_options(options, false, None) {
        Ok((gui, port)) => Ok(
            Config {
                gui,
                port: if gui {
                    port
                } else {
                    None
                },
            },
        ),
        Err(e) => Err(e),
    }
}

impl ArgError {
    /// The words of the error.
    pub fn message(&self) -> (r: String)
        ensures
            r@ == (match *self {
                ArgError::UnknownOption(arg) => "Unknown option: "@ + arg@,
                ArgError::MissingPort => "Must specify port with --port (-p) flag."@,
                ArgError::PortTooLarge => "Port must be less than or equal to 65535."@,
            }),
    {
        match self {
            ArgError::UnknownOption(arg) => {
                let mut r = String::from_str("Unknown option: ");
                r.append(arg.as_str());
                r
            },
            ArgError::MissingPort => String::from_str("Must specify port with --port (-p) flag."),
            ArgError::PortTooLarge => String::from_str("Port must be less than or equal to 65535."),
        }
    }
}

/// The configuration that the command line `args` gives.
pub fn parse_args(args: Vec<String>) -> (r: Result<Config, ArgError>)
    ensures
        match r {
            Ok(config) => spec_parse_args(texts(args@)) == Ok::<Config, ArgErrorView>(config),
            Err(e) => spec_parse_args(texts(args@)) == Err::<Config, ArgErrorView>(e@),
        },
{
    let n: usize = args.len();
    let mut gui: bool = false;
    let mut port: Option<u16> = None;
    let mut i: usize = 1;
    let ghost all = texts(args@);
    let ghost options = if all.len() == 0 {
        all
    } else {
        all.drop_first()
    };
    if n == 0 {
        return Ok(Config { gui: false, port: None });
    }
    while i < n
        invariant
            1 <= i <= n,
            n == args@.len(),
            all == texts(args@),
            options == all.drop_first(),
            spec_parse_options(options, false, None) == spec_parse_options(
                all.skip(i as int),
                gui,
                port,
            ),
        decreases n - i,
    {
        let ghost rest = all.skip(i as int);
        let arg = args[i].as_str();
        if same_text(arg, "-g") || same_text(arg, "--gui") {
            gui = true;
            assert(rest.drop_first() =~= all.skip(i + 1));
            i += 1;
        } else if same_text(arg, "-p") || same_text(arg, "--port") {
            if i + 1 >= n {
                return Err(ArgError::MissingPort);
            }
            match parse_u32(args[i + 1].as_str()) {
                None => {
                    return Err(ArgError::MissingPort);
                },
                Some(number) => {
                    if number > 65535 {
                        return Err(ArgError::PortTooLarge);
                    }
                    port = Some(number as u16);
                    assert(rest.skip(2) =~= all.skip(i + 2));
                    i += 2;
                },
            }
        } else {
            return Err(ArgError::UnknownOption(args[i].clone()));
        }
    }
    Ok(
        Config {
            gui,
            port: if gui {
                port
            } else {
                None
            },
        },
    )
}

/// What the file system says of a path where a file is to be written.
#[derive(Clone, Copy, Debug, PartialEq, Eq, Structural)]
pub struct PathProbe {
    pub exists: bool,
    pub is_dir: bool,
    pub is_file: bool,
    /// The directory that would hold the file exists.
    pub parent_exists: bool,
    /// What would hold the file is itself a file.
    pub parent_is_file: bool,
}

/// Whether a file can be written at a path.
#[derive(Clone, Copy, Debug, PartialEq, Eq, Structural)]
pub enum PathVerdict {
    /// Yes.
    Allowed,
    /// Yes, though the directory that would hold it does not exist.
    AllowedWithoutDirectory,
    /// A file is there: only if the user agrees to overwrite it.
    Ask,
    /// No: the path is a directory.
    IsDirectory,
    /// No: what would hold the file is a file.
    ParentIsFile,
}

/// The answer of a path that is taken by something: what exists is a
/// directory or a file.
pub open spec fn spec_path_verdict(probe: PathProbe) -> PathVerdict {
    if probe.exists {
        if probe.is_dir {
            PathVerdict::IsDirectory
        } else {
            PathVerdict::Ask
        }
    } else if probe.parent_exists {
        if probe.parent_is_file {
            PathVerdict::ParentIsFile
        } else {
            PathVerdict::Allowed
        }
    } else {
        PathVerdict::AllowedWithoutDirectory
    }
}

/// Whether a file can be written at the path that `probe` describes.
pub fn path_verdict(probe: PathProbe) -> (r: PathVerdict)
    requires
        probe.exists ==> probe.is_dir || probe.is_file,
    ensures
        r == spec_path_verdict(probe),
{
    if probe.exists {
        if probe.is_dir {
            PathVerdict::IsDirectory
        } else {
            PathVerdict::Ask
        }
    } else if probe.parent_exists {
        if probe.parent_is_file {
            PathVerdict::ParentIsFile
        } else {
            PathVerdict::Allowed
        }
    } else {
        PathVerdict::AllowedWithoutDirectory
    }
}

/// The lower-case form of a text, as `str::to_lowercase` gives it.
pub uninterp spec fn lowercased(s: Seq<char>) -> Seq<char>;

/// `str::to_lowercase`: the text with each character replaced by its
/// lower-case form under the Unicode rules, which the name `lowercased`
/// stands for.
#[verifier::external_body]
fn to_lowercase(s: &str) -> (r: String)
    ensures
        r@ == lowercased(s@),
{
    s.to_lowercase()
}

/// Whether a lower-case answer agrees.
pub fn is_yes(answer: &str) -> (r: bool)
    ensures
        r == (answer@ == "y"@ || answer@ == "yes"@),
{
    same_text(answer, "y") || same_text(answer, "yes")
}

/// Whether the answer `answer` agrees: trimmed and in lower case it is
/// `y` or `yes`.
pub fn confirms(answer: &str) -> (r: bool)
    ensures
        r == (lowercased(spec_trim(answer@)) == "y"@ || lowercased(spec_trim(answer@))
            == "yes"@),
{
    let trimmed = trim(answer);
    let lowered = to_lowercase(trimmed.as_str());
    is_yes(lowered.as_str())
}

} // verus!
