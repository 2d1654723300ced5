//! The build configuration: resolved paths, options and flags, checked once
//! when it is made.

use vstd::prelude::*;
use vstd::string::*;
use crate::error::{modeled, BuildError, ErrorModel};
use crate::path::{file_name, has_file_name, parent_dir, parent_of};
use crate::scan::{first_failing, lemma_failing_stays, lemma_first_failing};
use crate::cli::{Cli, CliModel};
use crate::resolve::{resolve_all, resolved_all};
use crate::survey::{locate, located, Survey, SurveyModel};
use crate::text::{texts, to_upper};

verus! {

/// What one build needs: the source files, the toolchain directory, the
/// options for assembler and linker, and what to do after the build.
#[derive(Debug)]
pub struct Config {
    file_paths: Vec<String>,
    compiler_dir: String,
    copts: String,
    lopts: String,
    debug: bool,
    exit: bool,
}

/// A `Config` with its texts as sequences of characters.
pub struct ConfigModel {
    pub files: Seq<Seq<char>>,
    pub toolchain: Seq<char>,
    pub compiler_options: Seq<char>,
    pub linker_options: Seq<char>,
    pub debug: bool,
    pub exit: bool,
}

/// Whether the source path at `i` has a file name and lies in the directory of
/// the first source path.
pub open spec fn accepted(files: Seq<Seq<char>>, i: int) -> bool {
    has_file_name(files[i]) && parent_of(files[i]) == parent_of(files[0])
}

/// The check `accepted` on the source paths `files`, by position.
pub open spec fn acceptance(files: Seq<Seq<char>>) -> spec_fn(int) -> bool {
    |i: int| accepted(files, i)
}

impl ConfigModel {
    /// The directory of the source files: that of the first one.
    pub open spec fn source_dir(self) -> Seq<char> {
        parent_of(self.files[0])
    }

    /// There is a source file, each one has a file name, and all lie in one
    /// directory.
    pub open spec fn wf(self) -> bool {
        &&& self.files.len() > 0
        &&& forall|i: int| 0 <= i < self.files.len() ==> accepted(self.files, i)
    }
}

/// What making a configuration from these values gives: the configuration, or
/// the error for the first fault found. An empty list of files comes first,
/// then the source paths in order.
pub open spec fn checked(
    files: Seq<Seq<char>>,
    toolchain: Seq<char>,
    compiler_options: Seq<char>,
    linker_options: Seq<char>,
    debug: bool,
    exit: bool,
) -> Result<ConfigModel, ErrorModel> {
    let bad = first_failing(acceptance(files), files.len() as int);
    if files.len() == 0 {
        Err(ErrorModel::NoSourceFiles)
    } else if bad >= 0 {
        Err(rejection(files[bad]))
    } else {
        Ok(ConfigModel { files, toolchain, compiler_options, linker_options, debug, exit })
    }
}

/// What making a configuration from a command line gives, for the input
/// `dir_input` for the toolchain directory and the filesystem's answers
/// `survey`: the configuration, or the error for the first thing wrong, in the
/// order toolchain directory, assembler, linker, source paths as resolved,
/// source paths as checked.
pub open spec fn configured(cli: CliModel, dir_input: Seq<char>, survey: SurveyModel) -> Result<
    ConfigModel,
    ErrorModel,
> {
    match located(dir_input, survey.toolchain) {
        Err(error) => Err(error),
        Ok(dir) => match resolved_all(cli.files, survey.sources) {
            Err(error) => Err(error),
            Ok(paths) => checked(
                paths,
                dir,
                cli.compiler_options(),
                cli.linker_options(),
                cli.debug,
                cli.exit,
            ),
        },
    }
}

impl View for Config {
    type V = ConfigModel;

    closed spec fn view(&self) -> ConfigModel {
        ConfigModel {
            files: texts(self.file_paths@),
            toolchain: self.compiler_dir@,
            compiler_options: self.copts@,
            linker_options: self.lopts@,
            debug: self.debug,
            exit: self.exit,
        }
    }
}

impl Config {
    #[verifier::type_invariant]
    spec fn valid(self) -> bool {
        self@.wf()
    }

    /// Makes a configuration, or says what is wrong with the source paths.
    pub fn new(
        file_paths: Vec<String>,
        compiler_dir: String,
        copts: String,
        lopts: String,
        debug: bool,
        exit: bool,
    ) -> (result: Result<Config, BuildError>)
        ensures
            modeled(result) == checked(
                texts(file_paths@),
                compiler_dir@,
                copts@,
                lopts@,
                debug,
                exit,
            ),
            result matches Ok(config) ==> config@.wf(),
    {
        let ghost files = texts(file_paths@);
        if file_paths.len() == 0 {
            return Err(BuildError::NoSourceFiles);
        }
        let dir = parent_dir(file_paths[0].as_str());
        let mut i: usize = 0;
        while i < file_paths.len()
            invariant
                i <= file_paths.len(),
                files == texts(file_paths@),
                dir@ == parent_of(files[0]),
                first_failing(acceptance(files), i as int) == -1,
            decreases file_paths.len() - i,
        {
            let path = &file_paths[i];
            if file_name(path.as_str()).is_none() {
                proof {
                    lemma_failing_stays(acceptance(files), i as int + 1, files.len() as int);
                }
                return Err(BuildError::InvalidSourcePath { path: path.clone() });
            }
            if parent_dir(path.as_str()) != dir {
                proof {
                    lemma_failing_stays(acceptance(files), i as int + 1, files.len() as int);
                }
                return Err(BuildError::MixedSourceDirectories { path: path.clone() });
            }
            i = i + 1;
        }
        proof {
            law_checked(files, compiler_dir@, copts@, lopts@, debug, exit);
        }
        Ok(Config { file_paths, compiler_dir, copts, lopts, debug, exit })
    }

    /// The source files, in the order given. With them comes what holds of
    /// every configuration: it is well formed.
    pub fn file_paths(&self) -> (paths: &Vec<String>)
        ensures
            texts(paths@) == self@.files,
            self@.wf(),
    {
        proof {
            use_type_invariant(self);
        }
        &self.file_paths
    }

    /// The toolchain directory.
    pub fn compiler_dir(&self) -> (dir: &String)
        ensures
            dir@ == self@.toolchain,
    {
        &self.compiler_dir
    }

    /// The options for the assembler.
    pub fn copts(&self) -> (options: &String)
        ensures
            options@ == self@.compiler_options,
    {
        &self.copts
    }

    /// The options for the linker.
    pub fn lopts(&self) -> (options: &String)
        ensures
            options@ == self@.linker_options,
    {
        &self.lopts
    }

    /// Whether the debugger runs after the build.
    pub fn debug(&self) -> (flag: bool)
        ensures
            flag == self@.debug,
    {
        self.debug
    }

    /// Whether the emulator session ends by itself after the run.
    pub fn exit(&self) -> (flag: bool)
        ensures
            flag == self@.exit,
    {
        self.exit
    }
}

/// Makes the configuration for a command line, for the input
/// `compiler_dir_input` for the toolchain directory and the filesystem's
/// answers `survey`. Options are put in upper case; the linker's default to
/// `/X`.
pub fn get_config(cli: Cli, compiler_dir_input: String, survey: Survey) -> (result: Result<
    Config,
    BuildError,
>)
    ensures
        modeled(result) == configured(cli@, compiler_dir_input@, survey@),
        result matches Ok(config) ==> config@.wf(),
{
    let copts = match &cli.copts {
        Some(options) => to_upper(options.as_str()),
        None => String::new(),
    };
    let lopts = match &cli.lopts {
        Some(options) => to_upper(options.as_str()),
        None => String::from_str("/X"),
    };
    let compiler_dir = match locate(compiler_dir_input.as_str(), &survey.toolchain) {
        Ok(dir) => dir,
        Err(error) => {
            return Err(error);
        },
    };
    let file_paths = match resolve_all(&cli.files, &survey.sources) {
        Ok(paths) => paths,
        Err(error) => {
            return Err(error);
        },
    };
    Config::new(file_paths, compiler_dir, copts, lopts, cli.debug, cli.exit)
}

/// The error for the source path `path` that is not accepted:
/// `InvalidSourcePath` where it has no file name, `MixedSourceDirectories`
/// where it has one and lies in another directory than the first.
pub open spec fn rejection(path: Seq<char>) -> ErrorModel {
    if has_file_name(path) {
        ErrorModel::MixedSourceDirectories { path }
    } else {
        ErrorModel::InvalidSourcePath { path }
    }
}

/// Making a configuration succeeds exactly where there is a source file,
/// each source path has a file name and all lie in the directory of the
/// first; it then holds the values given, and is well formed. Where it
/// fails, the error is `NoSourceFiles` for an empty list and else the
/// rejection of the first source path that is not accepted.
pub proof fn law_checked(
    files: Seq<Seq<char>>,
    toolchain: Seq<char>,
    compiler_options: Seq<char>,
    linker_options: Seq<char>,
    debug: bool,
    exit: bool,
)
    ensures
        checked(files, toolchain, compiler_options, linker_options, debug, exit) is Ok <==> {
            &&& files.len() > 0
            &&& forall|i: int| 0 <= i < files.len() ==> accepted(files, i)
        },
        checked(files, toolchain, compiler_options, linker_options, debug, exit) matches Ok(
            config,
        ) ==> {
            &&& config.wf()
            &&& config == (ConfigModel {
                files,
                toolchain,
                compiler_options,
                linker_options,
                debug,
                exit,
            })
        },
        checked(files, toolchain, compiler_options, linker_options, debug, exit) matches Err(
            error,
        ) ==> {
            ||| files.len() == 0 && error == ErrorModel::NoSourceFiles
            ||| exists|first: int|
                {
                    &&& 0 <= first < files.len()
                    &&& forall|i: int| 0 <= i < first ==> accepted(files, i)
                    &&& !#[trigger] accepted(files, first)
                    &&& error == rejection(files[first])
                }
        },
{
    let bad = first_failing(acceptance(files), files.len() as int);
    lemma_first_failing(acceptance(files), files.len() as int);
    if bad < 0 {
        assert forall|j: int| 0 <= j < files.len() implies accepted(files, j) by {
            assert(acceptance(files)(j));
        }
    } else {
        assert(!acceptance(files)(bad));
        assert forall|j: int| 0 <= j < bad implies accepted(files, j) by {
            assert(acceptance(files)(j));
        }
        assert(!accepted(files, bad));
    }
}

/// Where the toolchain cannot be located, no configuration is made,
/// whatever the command line and the source files are: the result is the
/// error of locating it. So a toolchain directory that lacks the assembler
/// or the linker yields `FileMissing`, and nothing from which command lines
/// could be written.
pub proof fn law_no_config_without_toolchain(
    cli: CliModel,
    dir_input: Seq<char>,
    survey: SurveyModel,
)
    requires
        located(dir_input, survey.toolchain) is Err,
    ensures
        configured(cli, dir_input, survey) is Err,
        configured(cli, dir_input, survey)->Err_0 == located(dir_input, survey.toolchain)->Err_0,
        ({
            &&& survey.toolchain.dir is Found
            &&& survey.toolchain.assembler is Absent || (survey.toolchain.assembler is Present
                && survey.toolchain.linker is Absent)
        }) ==> configured(cli, dir_input, survey)->Err_0 is FileMissing,
{
}

} // verus!
