//! Resolving a path: which path the filesystem is asked about, and what
//! follows from its answer.

use vstd::prelude::*;
use vstd::string::*;
use std::io::ErrorKind;
use crate::error::{modeled, modeled_texts, BuildError, ErrorModel};
use crate::path::{child, child_of};
use crate::scan::{first_failing, lemma_failing_stays, lemma_first_failing};
use crate::text::texts;

verus! {

/// The filesystem's answer to resolving a path. Where it reported an error,
/// `kind` and `reason` are that error's kind and text.
#[derive(Debug)]
pub enum Resolution {
    /// The path exists; `path` is its canonical absolute form.
    Found { path: String },
    /// The path could not be resolved.
    Failed { kind: ErrorKind, reason: String },
    /// The path is relative and the current directory could not be read, so
    /// the filesystem was not asked about the path.
    NoCurrentDir { kind: ErrorKind, reason: String },
}

/// A `Resolution` with its texts as sequences of characters.
pub enum ResolutionModel {
    Found { path: Seq<char> },
    Failed { kind: ErrorKind, reason: Seq<char> },
    NoCurrentDir { kind: ErrorKind, reason: Seq<char> },
}

impl DeepView for Resolution {
    type V = ResolutionModel;

    open spec fn deep_view(&self) -> ResolutionModel {
        self@
    }
}

impl View for Resolution {
    type V = ResolutionModel;

    open spec fn view(&self) -> ResolutionModel {
        match self {
            Resolution::Found { path } => ResolutionModel::Found { path: path@ },
            Resolution::Failed { kind, reason } => ResolutionModel::Failed {
                kind: *kind,
                reason: reason@,
            },
            Resolution::NoCurrentDir { kind, reason } => ResolutionModel::NoCurrentDir {
                kind: *kind,
                reason: reason@,
            },
        }
    }
}

/// The path that the filesystem is asked about to resolve `path`: `path`
/// itself where it is absolute, else `path` joined to the current directory.
pub open spec fn target_of(path: Seq<char>, absolute: bool, current_dir: Seq<char>) -> Seq<char> {
    if absolute {
        path
    } else {
        child_of(current_dir, path)
    }
}

/// What resolving `path` gives for the filesystem's answer: the canonical
/// path as it was found; `PathNotFound` with `path` and the filesystem's
/// error where it was not found; the filesystem's error alone, as
/// `CurrentDirUnreadable`, where the current directory could not be read.
pub open spec fn resolved(path: Seq<char>, answer: ResolutionModel) -> Result<
    Seq<char>,
    ErrorModel,
> {
    match answer {
        ResolutionModel::Found { path: canonical } => Ok(canonical),
        ResolutionModel::Failed { kind, reason } => Err(
            ErrorModel::PathNotFound { path, kind, reason },
        ),
        ResolutionModel::NoCurrentDir { kind, reason } => Err(
            ErrorModel::CurrentDirUnreadable { kind, reason },
        ),
    }
}

/// What resolving the path at `i` gives. A path that the answers do not
/// cover gives `NotSurveyed`.
pub open spec fn resolved_at(files: Seq<Seq<char>>, answers: Seq<ResolutionModel>, i: int) -> Result<
    Seq<char>,
    ErrorModel,
> {
    if 0 <= i < answers.len() {
        resolved(files[i], answers[i])
    } else {
        Err(ErrorModel::NotSurveyed { path: files[i] })
    }
}

/// The check that the path at a position was resolved.
pub open spec fn found(files: Seq<Seq<char>>, answers: Seq<ResolutionModel>) -> spec_fn(
    int,
) -> bool {
    |i: int| resolved_at(files, answers, i) is Ok
}

/// What resolving all of `files` gives: their canonical paths in order, or
/// the error of the first one that was not resolved.
pub open spec fn resolved_all(files: Seq<Seq<char>>, answers: Seq<ResolutionModel>) -> Result<
    Seq<Seq<char>>,
    ErrorModel,
> {
    let bad = first_failing(found(files, answers), files.len() as int);
    if bad >= 0 {
        Err(resolved_at(files, answers, bad)->Err_0)
    } else {
        Ok(Seq::new(files.len(), |i: int| resolved_at(files, answers, i)->Ok_0))
    }
}

/// Calls `std::path::Path::is_absolute`: whether the host takes `path` for
/// absolute, that is, for a path that does not depend on the current
/// directory. The answer depends on the host's kind of path, so nothing is
/// claimed of it.
#[verifier::external_body]
fn is_absolute(path: &str) -> bool {
    std::path::Path::new(path).is_absolute()
}

/// The path that the filesystem is asked about to resolve `path`, where
/// `absolute` says whether the host takes `path` for absolute and
/// `current_dir` is the current directory.
pub fn resolution_target(path: &str, absolute: bool, current_dir: &str) -> (target: String)
    ensures
        target@ == target_of(path@, absolute, current_dir@),
{
    if absolute {
        String::from_str(path)
    } else {
        child(current_dir, path)
    }
}

/// The path that the filesystem is asked about to resolve `path`, where the
/// host takes `path` for absolute: `path` as it is. `None` where it does
/// not; the current directory is then to be read and handed to
/// `resolution_target`.
pub fn direct_target(path: &str) -> (target: Option<String>)
    ensures
        target matches Some(text) ==> text@ == path@,
{
    if is_absolute(path) {
        Some(resolution_target(path, true, ""))
    } else {
        None
    }
}

/// The canonical form of `path` for the filesystem's answer to resolving it.
pub fn to_absolute_path(path: &str, answer: &Resolution) -> (result: Result<String, BuildError>)
    ensures
        modeled(result) == resolved(path@, answer@),
{
    match answer {
        Resolution::Found { path: canonical } => Ok(canonical.clone()),
        Resolution::Failed { kind, reason } => Err(
            BuildError::PathNotFound {
                path: String::from_str(path),
                kind: *kind,
                reason: reason.clone(),
            },
        ),
        Resolution::NoCurrentDir { kind, reason } => Err(
            BuildError::CurrentDirUnreadable { kind: *kind, reason: reason.clone() },
        ),
    }
}

/// The canonical forms of `files` for the filesystem's answers, in order.
pub fn resolve_all(files: &Vec<String>, answers: &Vec<Resolution>) -> (result: Result<
    Vec<String>,
    BuildError,
>)
    ensures
        modeled_texts(result) == resolved_all(texts(files@), answers.deep_view()),
{
    let ghost inputs = texts(files@);
    let ghost given = answers.deep_view();
    let mut paths: Vec<String> = Vec::new();
    let mut i: usize = 0;
    while i < files.len()
        invariant
            i <= files.len(),
            inputs == texts(files@),
            given == answers.deep_view(),
            first_failing(found(inputs, given), i as int) == -1,
            paths@.len() == i,
            forall|j: int| 0 <= j < i ==> paths@[j]@ == resolved_at(inputs, given, j)->Ok_0,
        decreases files.len() - i,
    {
        let outcome = if i < answers.len() {
            to_absolute_path(files[i].as_str(), &answers[i])
        } else {
            Err(BuildError::NotSurveyed { path: files[i].clone() })
        };
        match outcome {
            Ok(path) => {
                paths.push(path);
            },
            Err(error) => {
                proof {
                    lemma_failing_stays(found(inputs, given), i as int + 1, files.len() as int);
                }
                return Err(error);
            },
        }
        i = i + 1;
    }
    proof {
        assert(texts(paths@) =~= Seq::new(
            inputs.len(),
            |i: int| resolved_at(inputs, given, i)->Ok_0,
        ));
    }
    Ok(paths)
}

/// An absolute path is asked about as it is, whatever the current directory.
/// A relative path is asked about as joined to the current directory, and
/// asking about that joined path directly is asking about the same path.
pub proof fn law_relative_is_joined(path: Seq<char>, current_dir: Seq<char>)
    ensures
        target_of(path, true, current_dir) == path,
        target_of(path, false, current_dir) == child_of(current_dir, path),
        target_of(child_of(current_dir, path), true, current_dir) == target_of(
            path,
            false,
            current_dir,
        ),
{
}

/// Resolving a path hands on the canonical path that the filesystem found,
/// unchanged. Where the filesystem did not find it, the error is
/// `PathNotFound` for that very path with the filesystem's error; where the
/// current directory could not be read, it is the filesystem's error alone.
pub proof fn law_resolve(path: Seq<char>, answer: ResolutionModel)
    ensures
        resolved(path, answer) is Ok <==> answer is Found,
        answer matches ResolutionModel::Found { path: canonical } ==> resolved(path, answer)->Ok_0
            == canonical,
        answer matches ResolutionModel::Failed { kind, reason } ==> resolved(path, answer)->Err_0
            == (ErrorModel::PathNotFound { path, kind, reason }),
        answer matches ResolutionModel::NoCurrentDir { kind, reason } ==> {
            &&& resolved(path, answer)->Err_0 == (ErrorModel::CurrentDirUnreadable {
                kind,
                reason,
            })
            &&& resolved(path, answer)->Err_0.message() == reason
            &&& resolved(path, answer)->Err_0.kind() == Some(kind)
        },
{
}

/// Resolving all files succeeds exactly where each one was resolved, and
/// then gives their canonical paths in order. Where it fails, the error is
/// that of the first file that was not resolved.
pub proof fn law_resolved_all(files: Seq<Seq<char>>, answers: Seq<ResolutionModel>)
    ensures
        resolved_all(files, answers) is Ok <==> forall|i: int|
            0 <= i < files.len() ==> resolved_at(files, answers, i) is Ok,
        resolved_all(files, answers) matches Ok(paths) ==> {
            &&& paths.len() == files.len()
            &&& forall|i: int|
                0 <= i < files.len() ==> #[trigger] paths[i] == resolved_at(files, answers, i)->Ok_0
        },
        resolved_all(files, answers) matches Err(error) ==> exists|first: int|
            {
                &&& 0 <= first < files.len()
                &&& forall|i: int| 0 <= i < first ==> resolved_at(files, answers, i) is Ok
                &&& #[trigger] resolved_at(files, answers, first) is Err
                &&& error == resolved_at(files, answers, first)->Err_0
            },
{
    let bad = first_failing(found(files, answers), files.len() as int);
    lemma_first_failing(found(files, answers), files.len() as int);
    if bad < 0 {
        assert forall|i: int| 0 <= i < files.len() implies resolved_at(files, answers, i) is Ok by {
            assert(found(files, answers)(i));
        }
    } else {
        assert forall|i: int| 0 <= i < bad implies resolved_at(files, answers, i) is Ok by {
            assert(found(files, answers)(i));
        }
    }
}

} // verus!
