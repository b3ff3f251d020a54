//! The errors that stop a batch before any job runs.

use vstd::prelude::*;
use vstd::string::StringExecFns;

verus! {

/// An invalid combination of settings. Fatal: the batch is not started.
#[derive(Clone, Copy, Debug, PartialEq, Eq, Structural)]
pub enum ConfigError {
    /// No input path was given.
    NoInputs,
    /// The output layout was asked to mirror the input's directory structure,
    /// but the input is not exactly one directory.
    KeepStructureNeedsDirectory,
    /// The scale factor is zero or negative.
    InvalidScale,
}

/// Why a discovered file has no place below the output root. Fatal: the batch
/// is not started.
#[derive(Clone, Copy, Debug, PartialEq, Eq, Structural)]
pub enum PathMappingError {
    /// The path has no final component to name the output file after.
    NoFileName,
    /// The path does not lie below the declared input root.
    OutsideInputRoot,
}

/// Why no job list could be built.
#[derive(Clone, Copy, Debug, PartialEq, Eq, Structural)]
pub enum BuildError {
    /// The settings contradict each other.
    Config(ConfigError),
    /// The file at index `file` of the discovered files cannot be mapped.
    PathMapping { file: usize, reason: PathMappingError },
}

impl ConfigError {
    /// The text of the diagnostic, as a sequence of characters.
    pub open spec fn message_text(self) -> Seq<char> {
        match self {
            ConfigError::NoInputs => "Please provide at least one file."@,
            ConfigError::KeepStructureNeedsDirectory =>
                "Option -S (--keep-structure) can be used only if the input is a folder."@,
            ConfigError::InvalidScale => "The scale factor must be greater than zero."@,
        }
    }

    /// The diagnostic to show to the user.
    pub fn message(&self) -> (text: String)
        ensures
            text@ == self.message_text(),
    {
        match self {
            ConfigError::NoInputs => String::from_str("Please provide at least one file."),
            ConfigError::KeepStructureNeedsDirectory => String::from_str(
                "Option -S (--keep-structure) can be used only if the input is a folder.",
            ),
            ConfigError::InvalidScale => String::from_str(
                "The scale factor must be greater than zero.",
            ),
        }
    }
}

impl PathMappingError {
    /// The text of the diagnostic, as a sequence of characters.
    pub open spec fn message_text(self) -> Seq<char> {
        match self {
            PathMappingError::NoFileName => "the path has no file name"@,
            PathMappingError::OutsideInputRoot => "the path is not below the input folder"@,
        }
    }

    /// The diagnostic to show to the user.
    pub fn message(&self) -> (text: String)
        ensures
            text@ == self.message_text(),
    {
        match self {
            PathMappingError::NoFileName => String::from_str("the path has no file name"),
            PathMappingError::OutsideInputRoot => String::from_str(
                "the path is not below the input folder",
            ),
        }
    }
}

} // verus!
