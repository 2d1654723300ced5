//! What can stop a build before any command is written.

use vstd::prelude::*;
use vstd::string::*;
use std::io::ErrorKind;
use crate::text::{quote, quoted, texts};

verus! {

/// `std::io::ErrorKind`, the kind of an error that the filesystem reported.
/// The library carries it from the answer to the error and never looks into
/// it.
#[verifier::external_type_specification]
#[verifier::external_body]
pub struct ExErrorKind(ErrorKind);

/// Why no build configuration could be made. Where the filesystem reported
/// an error, `kind` and `reason` are that error's kind and text.
#[derive(Debug, PartialEq, Eq)]
pub enum BuildError {
    /// The command line names no source file.
    NoSourceFiles,
    /// No toolchain directory was given and none is configured.
    MissingToolchainPath,
    /// The current directory, from which a relative path is resolved, could
    /// not be read.
    CurrentDirUnreadable { kind: ErrorKind, reason: String },
    /// The filesystem could not resolve or inspect `path`.
    PathNotFound { path: String, kind: ErrorKind, reason: String },
    /// The filesystem was not asked about `path`.
    NotSurveyed { path: String },
    /// The required file `path` does not exist.
    FileMissing { path: String },
    /// The source path `path` has no file name.
    InvalidSourcePath { path: String },
    /// The source file `path` is not in the directory of the first one.
    MixedSourceDirectories { path: String },
}

/// A `BuildError` with its texts as sequences of characters.
pub enum ErrorModel {
    NoSourceFiles,
    MissingToolchainPath,
    CurrentDirUnreadable { kind: ErrorKind, reason: Seq<char> },
    PathNotFound { path: Seq<char>, kind: ErrorKind, reason: Seq<char> },
    NotSurveyed { path: Seq<char> },
    FileMissing { path: Seq<char> },
    InvalidSourcePath { path: Seq<char> },
    MixedSourceDirectories { path: Seq<char> },
}

impl View for BuildError {
    type V = ErrorModel;

    open spec fn view(&self) -> ErrorModel {
        match self {
            BuildError::NoSourceFiles => ErrorModel::NoSourceFiles,
            BuildError::MissingToolchainPath => ErrorModel::MissingToolchainPath,
            BuildError::CurrentDirUnreadable { kind, reason } => ErrorModel::CurrentDirUnreadable {
                kind: *kind,
                reason: reason@,
            },
            BuildError::PathNotFound { path, kind, reason } => ErrorModel::PathNotFound {
                path: path@,
                kind: *kind,
                reason: reason@,
            },
            BuildError::NotSurveyed { path } => ErrorModel::NotSurveyed { path: path@ },
            BuildError::FileMissing { path } => ErrorModel::FileMissing { path: path@ },
            BuildError::InvalidSourcePath { path } => ErrorModel::InvalidSourcePath {
                path: path@,
            },
            BuildError::MixedSourceDirectories { path } => ErrorModel::MixedSourceDirectories {
                path: path@,
            },
        }
    }
}

/// A result of the library, as models: the view of what it holds.
pub open spec fn modeled<T: View>(result: Result<T, BuildError>) -> Result<T::V, ErrorModel> {
    match result {
        Ok(value) => Ok(value@),
        Err(error) => Err(error@),
    }
}

/// A result that holds a list of strings, as models.
pub open spec fn modeled_texts(result: Result<Vec<String>, BuildError>) -> Result<
    Seq<Seq<char>>,
    ErrorModel,
> {
    match result {
        Ok(strings) => Ok(texts(strings@)),
        Err(error) => Err(error@),
    }
}

impl ErrorModel {
    /// The path that this error is about, where it is about one.
    pub open spec fn path(self) -> Option<Seq<char>> {
        match self {
            ErrorModel::NoSourceFiles => None,
            ErrorModel::MissingToolchainPath => None,
            ErrorModel::CurrentDirUnreadable { .. } => None,
            ErrorModel::PathNotFound { path, .. } => Some(path),
            ErrorModel::NotSurveyed { path } => Some(path),
            ErrorModel::FileMissing { path } => Some(path),
            ErrorModel::InvalidSourcePath { path } => Some(path),
            ErrorModel::MixedSourceDirectories { path } => Some(path),
        }
    }

    /// The kind of the filesystem's error behind this error, where there is
    /// one.
    pub open spec fn kind(self) -> Option<ErrorKind> {
        match self {
            ErrorModel::CurrentDirUnreadable { kind, .. } => Some(kind),
            ErrorModel::PathNotFound { kind, .. } => Some(kind),
            _ => None,
        }
    }

    /// The text shown to the user for this error, with `literal` where the
    /// path is named. An unreadable current directory is shown by the
    /// filesystem's text alone.
    pub open spec fn message_with(self, literal: Seq<char>) -> Seq<char> {
        match self {
            ErrorModel::NoSourceFiles => "Укажите компилируемые файл(ы)\n"@,
            ErrorModel::MissingToolchainPath => "Путь до компилятора TASM не указан\n"@,
            ErrorModel::CurrentDirUnreadable { reason, .. } => reason,
            ErrorModel::PathNotFound { reason, .. } => literal + ": "@ + reason,
            ErrorModel::NotSurveyed { .. } => "Файл "@ + literal + " не проверен"@,
            ErrorModel::FileMissing { .. } => "Файл "@ + literal + " не найден"@,
            ErrorModel::InvalidSourcePath { .. } => "Файл "@ + literal + " не имеет имени"@,
            ErrorModel::MixedSourceDirectories { .. } => "Файл "@ + literal
                + " находится в другой директории"@,
        }
    }

    /// The text shown to the user for this error: the path is named quoted.
    pub open spec fn message(self) -> Seq<char> {
        match self.path() {
            Some(path) => self.message_with(quoted(path)),
            None => self.message_with(Seq::empty()),
        }
    }
}

impl BuildError {
    /// The path that this error is about, where it is about one.
    pub fn path(&self) -> (path: Option<&String>)
        ensures
            path.deep_view() == self@.path(),
    {
        match self {
            BuildError::NoSourceFiles => None,
            BuildError::MissingToolchainPath => None,
            BuildError::CurrentDirUnreadable { .. } => None,
            BuildError::PathNotFound { path, .. } => Some(path),
            BuildError::NotSurveyed { path } => Some(path),
            BuildError::FileMissing { path } => Some(path),
            BuildError::InvalidSourcePath { path } => Some(path),
            BuildError::MixedSourceDirectories { path } => Some(path),
        }
    }

    /// The kind of the filesystem's error behind this error, where there is
    /// one.
    pub fn kind(&self) -> (kind: Option<ErrorKind>)
        ensures
            kind == self@.kind(),
    {
        match self {
            BuildError::CurrentDirUnreadable { kind, .. } => Some(*kind),
            BuildError::PathNotFound { kind, .. } => Some(*kind),
            _ => None,
        }
    }

    /// The text shown to the user for this error, with `literal` where the
    /// path is named.
    pub fn message_with(&self, literal: &str) -> (text: String)
        ensures
            text@ == self@.message_with(literal@),
    {
        match self {
            BuildError::NoSourceFiles => String::from_str("Укажите компилируемые файл(ы)\n"),
            BuildError::MissingToolchainPath => String::from_str(
                "Путь до компилятора TASM не указан\n",
            ),
            BuildError::CurrentDirUnreadable { reason, .. } => reason.clone(),
            BuildError::PathNotFound { reason, .. } => String::from_str(literal).concat(
                ": ",
            ).concat(reason.as_str()),
            BuildError::NotSurveyed { .. } => String::from_str("Файл ").concat(literal).concat(
                " не проверен",
            ),
            BuildError::FileMissing { .. } => String::from_str("Файл ").concat(literal).concat(
                " не найден",
            ),
            BuildError::InvalidSourcePath { .. } => String::from_str("Файл ").concat(
                literal,
            ).concat(" не имеет имени"),
            BuildError::MixedSourceDirectories { .. } => String::from_str("Файл ").concat(
                literal,
            ).concat(" находится в другой директории"),
        }
    }

    /// The text shown to the user for this error: the path is named quoted.
    pub fn message(&self) -> (text: String)
        ensures
            text@ == self@.message(),
    {
        match self.path() {
            Some(path) => self.message_with(quote(path.as_str()).as_str()),
            None => self.message_with(""),
        }
    }
}

} // verus!
