//! The configuration of a run: what was asked for on the command line, and
//! what of it stands after validation.

use vstd::prelude::*;
use vstd::string::StringExecFns;
use crate::color::{is_valid_hex_color, rgb_of, valid_hex_color, Rgb};

verus! {

/// The arguments of a run as they were given, before any check.
#[derive(Clone, Debug, PartialEq, Eq)]
pub struct ArgsCf {
    /// The colour code, if one was given.
    pub color_code: Option<String>,
    /// The paths of the files to show, in the order given.
    pub files: Vec<String>,
    /// Whether lines are to be numbered.
    pub line_number: bool,
}

/// Why a run cannot start.
#[derive(Clone, Debug, PartialEq, Eq)]
pub enum UsageError {
    /// No file was named.
    NoFiles,
    /// The colour code is not six hexadecimal digits.
    InvalidColor { code: String },
}

/// The validated configuration that all file tasks of a run share. It names
/// at least one file, and its colour, if any, came from a well-formed code.
#[derive(Clone, Debug, PartialEq, Eq)]
pub struct RunConfig {
    /// The colour to paint the output in, if any.
    pub color: Option<Rgb>,
    /// The paths of the files to show, in the order given.
    pub files: Vec<String>,
    /// Whether lines are to be numbered.
    pub show_line_numbers: bool,
}

/// The colour that an optional code names.
pub open spec fn color_of(color_code: Option<String>) -> Option<Rgb> {
    match color_code {
        Some(code) => Some(rgb_of(code@)),
        None => None,
    }
}

/// The arguments name a file, and the colour code, if there is one, is well
/// formed.
pub open spec fn acceptable(args: ArgsCf) -> bool {
    &&& args.files@.len() > 0
    &&& args.color_code matches Some(code) ==> valid_hex_color(code@)
}

impl RunConfig {
    /// A configuration names at least one file.
    pub open spec fn wf(&self) -> bool {
        self.files@.len() > 0
    }

    /// Validates the arguments of a run. A run without files is refused
    /// first, then one with a malformed colour code; any other is accepted,
    /// with its files and its line-number switch as given and its colour read
    /// from the code.
    pub fn from_args(args: ArgsCf) -> (res: Result<RunConfig, UsageError>)
        ensures
            res is Ok <==> acceptable(args),
            match res {
                Ok(config) => {
                    &&& config.wf()
                    &&& config.files == args.files
                    &&& config.show_line_numbers == args.line_number
                    &&& config.color == color_of(args.color_code)
                },
                Err(UsageError::NoFiles) => args.files@.len() == 0,
                Err(UsageError::InvalidColor { code }) => {
                    &&& args.files@.len() > 0
                    &&& args.color_code == Some(code)
                    &&& !valid_hex_color(code@)
                },
            },
    {
        if args.files.len() == 0 {
            return Err(UsageError::NoFiles);
        }
        let color = match args.color_code {
            None => None,
            Some(code) => {
                match Rgb::parse(code.as_str()) {
                    Some(rgb) => Some(rgb),
                    None => {
                        return Err(UsageError::InvalidColor { code });
                    },
                }
            },
        };
        Ok(RunConfig { color, files: args.files, show_line_numbers: args.line_number })
    }
}

impl UsageError {
    /// What the user is told.
    pub open spec fn message_text(&self) -> Seq<char> {
        match self {
            UsageError::NoFiles => "Error: No input files given"@,
            UsageError::InvalidColor { code } => "Error: Invalid color code '"@ + code@ + "'"@,
        }
    }

    /// The message for the error stream.
    pub fn message(&self) -> (text: String)
        ensures
            text@ == self.message_text(),
    {
        match self {
            UsageError::NoFiles => String::from_str("Error: No input files given"),
            UsageError::InvalidColor { code } => {
                let mut text = String::from_str("Error: Invalid color code '");
                text.append(code.as_str());
                text.append("'");
                text
            },
        }
    }

    /// The exit status of a run that could not start: never zero.
    pub fn exit_code(&self) -> (code: i32)
        ensures
            code != 0,
            code == match self {
                UsageError::NoFiles => 2i32,
                UsageError::InvalidColor { .. } => 1i32,
            },
    {
        match self {
            UsageError::NoFiles => 2,
            UsageError::InvalidColor { .. } => 1,
        }
    }
}

} // verus!
