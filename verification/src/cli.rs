//! The command line as the library sees it, and the choice of the toolchain
//! directory.

use vstd::prelude::*;
use vstd::string::*;
use crate::error::{modeled, BuildError, ErrorModel};
use crate::text::{texts, uppercase};

verus! {

/// The arguments of one invocation.
#[derive(Debug)]
pub struct Cli {
    /// The source files, as given.
    pub files: Vec<String>,
    /// The toolchain directory, where one was given.
    pub c: Option<String>,
    /// The options for the assembler, where any were given.
    pub copts: Option<String>,
    /// The options for the linker, where any were given.
    pub lopts: Option<String>,
    /// Run the debugger after the build.
    pub debug: bool,
    /// End the emulator session after the run.
    pub exit: bool,
}

/// A `Cli` with its texts as sequences of characters.
pub struct CliModel {
    pub files: Seq<Seq<char>>,
    pub toolchain: Option<Seq<char>>,
    pub copts: Option<Seq<char>>,
    pub lopts: Option<Seq<char>>,
    pub debug: bool,
    pub exit: bool,
}

impl View for Cli {
    type V = CliModel;

    open spec fn view(&self) -> CliModel {
        CliModel {
            files: texts(self.files@),
            toolchain: self.c.deep_view(),
            copts: self.copts.deep_view(),
            lopts: self.lopts.deep_view(),
            debug: self.debug,
            exit: self.exit,
        }
    }
}

impl CliModel {
    /// The options that the assembler gets: those given, in upper case, or
    /// none.
    pub open spec fn compiler_options(self) -> Seq<char> {
        match self.copts {
            Some(options) => uppercase(options),
            None => Seq::empty(),
        }
    }

    /// The options that the linker gets: those given, in upper case, or `/X`.
    pub open spec fn linker_options(self) -> Seq<char> {
        match self.lopts {
            Some(options) => uppercase(options),
            None => "/X"@,
        }
    }
}

/// The toolchain directory to use: the one on the command line, else the
/// configured `fallback`. An empty list of source files is an error, and so
/// is having neither directory.
pub open spec fn toolchain_input(cli: CliModel, fallback: Option<Seq<char>>) -> Result<
    Seq<char>,
    ErrorModel,
> {
    if cli.files.len() == 0 {
        Err(ErrorModel::NoSourceFiles)
    } else {
        match (cli.toolchain, fallback) {
            (Some(dir), _) => Ok(dir),
            (None, Some(dir)) => Ok(dir),
            (None, None) => Err(ErrorModel::MissingToolchainPath),
        }
    }
}

/// Checks that source files were named and picks the toolchain directory:
/// the one on the command line, else `fallback`.
pub fn validate_args(cli: &Cli, fallback: Option<&str>) -> (result: Result<String, BuildError>)
    ensures
        modeled(result) == toolchain_input(
            cli@,
            match fallback {
                Some(dir) => Some(dir@),
                None => None,
            },
        ),
{
    if cli.files.len() == 0 {
        return Err(BuildError::NoSourceFiles);
    }
    match &cli.c {
        Some(dir) => Ok(dir.clone()),
        None => match fallback {
            Some(dir) => Ok(String::from_str(dir)),
            None => Err(BuildError::MissingToolchainPath),
        },
    }
}

} // verus!
