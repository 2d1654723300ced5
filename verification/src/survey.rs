//! What the host filesystem answered about the paths that a build needs, and
//! where the toolchain is.

use vstd::prelude::*;
use vstd::string::*;
use std::io::ErrorKind;
use crate::error::{modeled, BuildError, ErrorModel};
use crate::path::{
    child, child_of, file_name_of, is_directory, law_child_lies_in_directory, parent_of,
};
use crate::resolve::{resolved, to_absolute_path, Resolution, ResolutionModel};

verus! {

/// The filesystem's answer to whether a file exists.
#[derive(Debug)]
pub enum Presence {
    /// The file exists.
    Present,
    /// The file does not exist.
    Absent,
    /// The filesystem could not tell; `kind` and `reason` are the kind and
    /// the text of the error it reported.
    Unknown { kind: ErrorKind, reason: String },
}

/// A `Presence` with its text as a sequence of characters.
pub enum PresenceModel {
    Present,
    Absent,
    Unknown { kind: ErrorKind, reason: Seq<char> },
}

impl View for Presence {
    type V = PresenceModel;

    open spec fn view(&self) -> PresenceModel {
        match self {
            Presence::Present => PresenceModel::Present,
            Presence::Absent => PresenceModel::Absent,
            Presence::Unknown { kind, reason } => PresenceModel::Unknown {
                kind: *kind,
                reason: reason@,
            },
        }
    }
}

/// What the filesystem answered about the toolchain directory: `dir` is the
/// answer to resolving it; `assembler` and `linker` say whether the
/// directory that was found holds the two executables, and are read only
/// where one was found.
#[derive(Debug)]
pub struct ToolchainSurvey {
    pub dir: Resolution,
    pub assembler: Presence,
    pub linker: Presence,
}

/// A `ToolchainSurvey` with its texts as sequences of characters.
pub struct ToolchainSurveyModel {
    pub dir: ResolutionModel,
    pub assembler: PresenceModel,
    pub linker: PresenceModel,
}

impl View for ToolchainSurvey {
    type V = ToolchainSurveyModel;

    open spec fn view(&self) -> ToolchainSurveyModel {
        ToolchainSurveyModel {
            dir: self.dir@,
            assembler: self.assembler@,
            linker: self.linker@,
        }
    }
}

/// What the filesystem answered about all the paths of one build: the
/// toolchain directory and, in the order of the command line, each source
/// path.
#[derive(Debug)]
pub struct Survey {
    pub toolchain: ToolchainSurvey,
    pub sources: Vec<Resolution>,
}

/// A `Survey` with its texts as sequences of characters.
pub struct SurveyModel {
    pub toolchain: ToolchainSurveyModel,
    pub sources: Seq<ResolutionModel>,
}

impl View for Survey {
    type V = SurveyModel;

    open spec fn view(&self) -> SurveyModel {
        SurveyModel { toolchain: self.toolchain@, sources: self.sources.deep_view() }
    }
}

/// What requiring the file `path` gives for the filesystem's answer:
/// `FileMissing` where the file does not exist, `PathNotFound` with the
/// filesystem's error where it could not tell.
pub open spec fn required(path: Seq<char>, answer: PresenceModel) -> Result<(), ErrorModel> {
    match answer {
        PresenceModel::Present => Ok(()),
        PresenceModel::Absent => Err(ErrorModel::FileMissing { path }),
        PresenceModel::Unknown { kind, reason } => Err(
            ErrorModel::PathNotFound { path, kind, reason },
        ),
    }
}

/// The path of the assembler in the toolchain directory `dir`.
pub open spec fn assembler_of(dir: Seq<char>) -> Seq<char> {
    child_of(dir, "TASM.exe"@)
}

/// The path of the linker in the toolchain directory `dir`.
pub open spec fn linker_of(dir: Seq<char>) -> Seq<char> {
    child_of(dir, "TLINK.exe"@)
}

/// What locating the toolchain gives: the canonical directory where it was
/// resolved and holds both executables; else the error for the first thing
/// wrong, in the order directory, assembler, linker.
pub open spec fn located(dir_input: Seq<char>, survey: ToolchainSurveyModel) -> Result<
    Seq<char>,
    ErrorModel,
> {
    match resolved(dir_input, survey.dir) {
        Err(error) => Err(error),
        Ok(dir) => match (
            required(assembler_of(dir), survey.assembler),
            required(linker_of(dir), survey.linker),
        ) {
            (Err(error), _) => Err(error),
            (Ok(_), Err(error)) => Err(error),
            (Ok(_), Ok(_)) => Ok(dir),
        },
    }
}

/// Requires that the file `path` exists, for the filesystem's answer about
/// it.
pub fn check_file(path: String, answer: &Presence) -> (result: Result<(), BuildError>)
    ensures
        modeled(result) == required(path@, answer@),
{
    match answer {
        Presence::Present => Ok(()),
        Presence::Absent => Err(BuildError::FileMissing { path }),
        Presence::Unknown { kind, reason } => Err(
            BuildError::PathNotFound { path, kind: *kind, reason: reason.clone() },
        ),
    }
}

/// The path of the assembler in the toolchain directory `dir`.
pub fn assembler_path(dir: &str) -> (path: String)
    ensures
        path@ == assembler_of(dir@),
{
    child(dir, "TASM.exe")
}

/// The path of the linker in the toolchain directory `dir`.
pub fn linker_path(dir: &str) -> (path: String)
    ensures
        path@ == linker_of(dir@),
{
    child(dir, "TLINK.exe")
}

/// The toolchain directory for the input `dir_input`, where the filesystem
/// resolved it and found both executables in it.
pub fn locate(dir_input: &str, survey: &ToolchainSurvey) -> (result: Result<String, BuildError>)
    ensures
        modeled(result) == located(dir_input@, survey@),
{
    let dir = match to_absolute_path(dir_input, &survey.dir) {
        Ok(dir) => dir,
        Err(error) => {
            return Err(error);
        },
    };
    match check_file(assembler_path(dir.as_str()), &survey.assembler) {
        Ok(_) => {},
        Err(error) => {
            return Err(error);
        },
    }
    match check_file(linker_path(dir.as_str()), &survey.linker) {
        Ok(_) => {},
        Err(error) => {
            return Err(error);
        },
    }
    Ok(dir)
}

/// Locating the toolchain succeeds exactly where the directory was resolved
/// and holds both the assembler and the linker, and then gives the
/// directory in canonical form. Where the directory was resolved and the
/// assembler is absent the error is `FileMissing` for the assembler; where
/// the assembler is present and the linker absent, it is `FileMissing` for
/// the linker.
pub proof fn law_locate(dir_input: Seq<char>, survey: ToolchainSurveyModel)
    ensures
        located(dir_input, survey) is Ok <==> {
            &&& survey.dir is Found
            &&& survey.assembler is Present
            &&& survey.linker is Present
        },
        survey.dir matches ResolutionModel::Found { path: dir } ==> {
            &&& survey.assembler is Present && survey.linker is Present ==> located(
                dir_input,
                survey,
            )->Ok_0 == dir
            &&& survey.assembler is Absent ==> located(dir_input, survey)->Err_0
                == (ErrorModel::FileMissing { path: assembler_of(dir) })
            &&& survey.assembler is Present && survey.linker is Absent ==> located(
                dir_input,
                survey,
            )->Err_0 == (ErrorModel::FileMissing { path: linker_of(dir) })
        },
        !(survey.dir is Found) ==> located(dir_input, survey)->Err_0 == resolved(
            dir_input,
            survey.dir,
        )->Err_0,
{
}

/// The two executables are looked for directly in the toolchain directory,
/// under the names `TASM.exe` and `TLINK.exe`.
pub proof fn law_executables_lie_in_the_directory(dir: Seq<char>)
    requires
        is_directory(dir),
    ensures
        parent_of(assembler_of(dir)) == dir,
        file_name_of(assembler_of(dir)) == "TASM.exe"@,
        parent_of(linker_of(dir)) == dir,
        file_name_of(linker_of(dir)) == "TLINK.exe"@,
{
    reveal_strlit("TASM.exe");
    reveal_strlit("TLINK.exe");
    law_child_lies_in_directory(dir, "TASM.exe"@);
    law_child_lies_in_directory(dir, "TLINK.exe"@);
}

} // verus!
