//! The option resolver: validates and normalizes command-line input into an
//! immutable configuration value before any content I/O happens.

use vstd::prelude::*;

verus! {

/// The indentation unit applied once per nesting depth.
#[derive(Clone, Copy, Debug, PartialEq, Eq, Structural)]
pub enum Indent {
    Tab,
    Two,
    Four,
}

/// The indent string a given style stands for.
pub open spec fn spec_indent_str(ind: Indent) -> Seq<char> {
    match ind {
        Indent::Tab => "\t"@,
        Indent::Two => "  "@,
        Indent::Four => "    "@,
    }
}

/// Which indent style a command-line selector denotes, if any.
pub open spec fn selector_indent(s: Seq<char>) -> Option<Indent> {
    if s == "tab"@ {
        Some(Indent::Tab)
    } else if s == "2space"@ {
        Some(Indent::Two)
    } else if s == "4space"@ {
        Some(Indent::Four)
    } else {
        None
    }
}

impl Indent {
    /// The literal string written once per nesting level.
    pub fn get_str(&self) -> (s: &'static str)
        ensures
            s@ == spec_indent_str(*self),
    {
        match self {
            Self::Tab => "\t",
            Self::Two => "  ",
            Self::Four => "    ",
        }
    }

    /// Parses the command-line indent selector; exactly `tab`, `2space` and
    /// `4space` are recognized.
    pub fn from_selector(s: &str) -> (r: Option<Indent>)
        ensures
            r == selector_indent(s@),
    {
        let t = s.to_owned();
        if t == "tab".to_owned() {
            Some(Indent::Tab)
        } else if t == "2space".to_owned() {
            Some(Indent::Two)
        } else if t == "4space".to_owned() {
            Some(Indent::Four)
        } else {
            None
        }
    }
}

/// A fully validated run configuration. Immutable once constructed.
#[derive(Debug)]
pub struct Config {
    /// Path of the input XML file.
    pub input: String,
    /// Path the result is written to, if not in place.
    pub output: Option<String>,
    /// Whether the result goes to standard output instead of a file.
    pub to_stdout: bool,
    /// The indentation unit.
    pub indent: Indent,
}

/// A configuration error, detected before any content I/O.
#[derive(Clone, Copy, Debug, PartialEq, Eq, Structural)]
pub enum ConfigError {
    /// The indent selector is not one of the recognized values.
    UnknownIndent,
    /// Both standard output and an output path were requested.
    OutputConflict,
    /// Input and output paths canonicalize to the same file.
    SamePath,
}

impl ConfigError {
    /// A human-readable description of the error.
    pub fn message(&self) -> (m: String)
        ensures
            *self is UnknownIndent ==> m@ == "Unknown indent style: expected tab, 2space or 4space"@,
            *self is OutputConflict ==> m@ == "Cannot use both --stdout and --output options"@,
            *self is SamePath ==> m@
                == "Input and output paths are the same file. Use no output path to modify the file in place, or specify a different output path."@,
    {
        match self {
            Self::UnknownIndent => "Unknown indent style: expected tab, 2space or 4space".to_owned(),
            Self::OutputConflict => "Cannot use both --stdout and --output options".to_owned(),
            Self::SamePath => "Input and output paths are the same file. Use no output path to modify the file in place, or specify a different output path.".to_owned(),
        }
    }
}

/// Whether the requested output file is the very file the input is read from:
/// both paths could be canonicalized and the canonical forms agree.
pub open spec fn same_file(
    output: Option<String>,
    input_canonical: Option<String>,
    output_canonical: Option<String>,
) -> bool {
    &&& output is Some
    &&& input_canonical matches Some(ic) && (output_canonical matches Some(oc) && ic@ == oc@)
}

/// Builds the run configuration from raw command-line values, applying the
/// validation rules in order: the indent selector must be recognized, the
/// stdout flag and an output path are mutually exclusive, and an output path
/// must not denote the input file itself. The canonical (absolute,
/// symlink-resolved) forms of the two paths are passed in by the caller,
/// `None` where canonicalization failed.
pub fn build_config(
    input: String,
    output: Option<String>,
    to_stdout: bool,
    selector: &str,
    input_canonical: Option<String>,
    output_canonical: Option<String>,
) -> (r: Result<Config, ConfigError>)
    ensures
        selector_indent(selector@) is None ==> r == Err::<Config, ConfigError>(
            ConfigError::UnknownIndent,
        ),
        selector_indent(selector@) is Some && to_stdout && output is Some ==> r == Err::<
            Config,
            ConfigError,
        >(ConfigError::OutputConflict),
        selector_indent(selector@) is Some && !(to_stdout && output is Some) && same_file(
            output,
            input_canonical,
            output_canonical,
        ) ==> r == Err::<Config, ConfigError>(ConfigError::SamePath),
        selector_indent(selector@) matches Some(ind) ==> ((!(to_stdout && output is Some)
            && !same_file(output, input_canonical, output_canonical)) ==> (r matches Ok(c)
            && c.indent == ind && c.to_stdout == to_stdout && c.input@ == input@
            && c.output.deep_view() == output.deep_view())),
{
    let indent = match Indent::from_selector(selector) {
        Some(i) => i,
        None => {
            return Err(ConfigError::UnknownIndent);
        },
    };
    if to_stdout && output.is_some() {
        return Err(ConfigError::OutputConflict);
    }
    if output.is_some() {
        if let Some(ic) = &input_canonical {
            if let Some(oc) = &output_canonical {
                if *ic == *oc {
                    return Err(ConfigError::SamePath);
                }
            }
        }
    }
    Ok(Config { input, output, to_stdout, indent })
}

/// The process exit status: zero on success, one on any error.
pub fn exit_code(success: bool) -> (c: i32)
    ensures
        c == (if success {
            0i32
        } else {
            1i32
        }),
{
    if success {
        0
    } else {
        1
    }
}

} // verus!
