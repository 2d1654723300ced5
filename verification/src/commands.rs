//! The command lines that the emulator executes for one build, in order.

use vstd::prelude::*;
use vstd::string::*;
use crate::config::{accepted, Config, ConfigModel};
use crate::path::{file_name, file_name_of, file_stem, parent_dir, stem_of};
use crate::text::{
    join, joined, push_line, push_text, quote, quoted, texts, to_upper, uppercase,
};

verus! {

/// The emulator drive on which the build runs.
#[derive(Debug, Clone, Copy, PartialEq, Eq, Structural)]
pub enum Drive {
    /// The drive of the toolchain directory.
    C,
    /// A drive of its own for the source directory.
    D,
}

/// The drive for a build: `C` where the sources lie in the toolchain
/// directory, `D` otherwise.
pub open spec fn working_drive(source_dir: Seq<char>, toolchain_dir: Seq<char>) -> Drive {
    if source_dir == toolchain_dir {
        Drive::C
    } else {
        Drive::D
    }
}

/// The file names of the source paths, in order.
pub open spec fn source_names(files: Seq<Seq<char>>) -> Seq<Seq<char>> {
    Seq::new(files.len(), |i: int| file_name_of(files[i]))
}

/// The file names of the source paths without their extensions, in order.
pub open spec fn source_stems(files: Seq<Seq<char>>) -> Seq<Seq<char>> {
    Seq::new(files.len(), |i: int| stem_of(file_name_of(files[i])))
}

/// The lines that set the emulator up and pick the drive: keyboard layout,
/// the toolchain directory as drive `C`, the search path, then either the
/// source directory as drive `D` and a change to it, or a change to `C`.
/// Both directories come quoted; `source_mount` is `None` where the sources
/// lie in the toolchain directory.
pub open spec fn mount_lines(toolchain_mount: Seq<char>, source_mount: Option<Seq<char>>) -> Seq<
    Seq<char>,
> {
    let shared = seq!["keyb ru"@, "mount C: "@ + toolchain_mount, "PATH=%PATH;C:\\"@];
    match source_mount {
        Some(dir) => shared + seq!["mount D: "@ + dir, "D:"@],
        None => shared + seq!["C:"@],
    }
}

/// The lines that make the build directory, assemble all sources in one run,
/// link all objects into one program and run it. `sources` and `objects` are
/// the joined names in upper case, `program` the first stem in upper case.
pub open spec fn build_lines(
    compiler_options: Seq<char>,
    linker_options: Seq<char>,
    sources: Seq<char>,
    objects: Seq<char>,
    program: Seq<char>,
) -> Seq<Seq<char>> {
    seq![
        "md BUILD"@,
        "cd BUILD"@,
        "TASM "@ + compiler_options + " ..\\"@ + sources,
        "TLINK "@ + linker_options + " "@ + objects + ".OBJ"@,
        program,
    ]
}

/// The lines after the run: the debugger on the program where `debug` is
/// set, then a pause and the exit where `exit` is set.
pub open spec fn closing_lines(program: Seq<char>, debug: bool, exit: bool) -> Seq<Seq<char>> {
    let debugger = if debug {
        seq!["TD "@ + program]
    } else {
        Seq::empty()
    };
    let leave = if exit {
        seq!["@pause"@, "exit 0"@]
    } else {
        Seq::empty()
    };
    debugger + leave
}

/// The command lines made of texts that are ready to embed: the quoted
/// toolchain directory, the quoted source directory where it gets drive `D`,
/// the options, the upper-cased source names and object stems, each list
/// joined, and the upper-cased name of the program.
pub open spec fn script_of(
    toolchain_mount: Seq<char>,
    source_mount: Option<Seq<char>>,
    compiler_options: Seq<char>,
    linker_options: Seq<char>,
    sources: Seq<char>,
    objects: Seq<char>,
    program: Seq<char>,
    debug: bool,
    exit: bool,
) -> Seq<Seq<char>> {
    mount_lines(toolchain_mount, source_mount) + build_lines(
        compiler_options,
        linker_options,
        sources,
        objects,
        program,
    ) + closing_lines(program, debug, exit)
}

/// The source names as the assembler gets them: joined, in upper case.
pub open spec fn sources_text(files: Seq<Seq<char>>) -> Seq<char> {
    uppercase(joined(source_names(files), " ..\\"@))
}

/// The object stems as the linker gets them: joined, in upper case.
pub open spec fn objects_text(files: Seq<Seq<char>>) -> Seq<char> {
    uppercase(joined(source_stems(files), ".OBJ "@))
}

/// The name of the program: the stem of the first source file, in upper
/// case.
pub open spec fn program_name(files: Seq<Seq<char>>) -> Seq<char> {
    uppercase(source_stems(files)[0])
}

/// The quoted source directory where it gets a drive of its own.
pub open spec fn source_mount(config: ConfigModel) -> Option<Seq<char>> {
    match working_drive(config.source_dir(), config.toolchain) {
        Drive::C => None,
        Drive::D => Some(quoted(config.source_dir())),
    }
}

/// The command lines for a configuration.
pub open spec fn script(config: ConfigModel) -> Seq<Seq<char>> {
    script_of(
        quoted(config.toolchain),
        source_mount(config),
        config.compiler_options,
        config.linker_options,
        sources_text(config.files),
        objects_text(config.files),
        program_name(config.files),
        config.debug,
        config.exit,
    )
}

/// The command lines of a configuration behind those that mount and pick
/// the drive.
pub open spec fn rest_of(config: ConfigModel) -> Seq<Seq<char>> {
    build_lines(
        config.compiler_options,
        config.linker_options,
        sources_text(config.files),
        objects_text(config.files),
        program_name(config.files),
    ) + closing_lines(program_name(config.files), config.debug, config.exit)
}

/// The drive for a build whose sources lie in `source_dir` and whose
/// toolchain lies in `toolchain_dir`.
pub fn pick_drive(source_dir: &str, toolchain_dir: &str) -> (drive: Drive)
    ensures
        drive == working_drive(source_dir@, toolchain_dir@),
{
    if String::from_str(source_dir) == String::from_str(toolchain_dir) {
        Drive::C
    } else {
        Drive::D
    }
}

/// Appends to `commands` the lines made of texts that are ready to embed.
pub fn write_script(
    commands: &mut Vec<String>,
    toolchain_mount: &str,
    source_mount: Option<&str>,
    compiler_options: &str,
    linker_options: &str,
    sources: &str,
    objects: &str,
    program: &str,
    debug: bool,
    exit: bool,
)
    ensures
        texts(final(commands)@) == texts(old(commands)@) + script_of(
            toolchain_mount@,
            match source_mount {
                Some(dir) => Some(dir@),
                None => None,
            },
            compiler_options@,
            linker_options@,
            sources@,
            objects@,
            program@,
            debug,
            exit,
        ),
{
    push_text(commands, "keyb ru");
    push_line(commands, String::from_str("mount C: ").concat(toolchain_mount));
    push_text(commands, "PATH=%PATH;C:\\");
    match source_mount {
        Some(dir) => {
            push_line(commands, String::from_str("mount D: ").concat(dir));
            push_text(commands, "D:");
        },
        None => {
            push_text(commands, "C:");
        },
    }
    push_text(commands, "md BUILD");
    push_text(commands, "cd BUILD");
    push_line(
        commands,
        String::from_str("TASM ").concat(compiler_options).concat(" ..\\").concat(sources),
    );
    push_line(
        commands,
        String::from_str("TLINK ").concat(linker_options).concat(" ").concat(objects).concat(
            ".OBJ",
        ),
    );
    push_text(commands, program);
    if debug {
        push_line(commands, String::from_str("TD ").concat(program));
    }
    if exit {
        push_text(commands, "@pause");
        push_text(commands, "exit 0");
    }
}

/// Appends to `commands` the lines that build, run and, where asked, debug
/// the program of `config`.
pub fn generate_commands(config: Config, commands: &mut Vec<String>)
    ensures
        texts(final(commands)@) == texts(old(commands)@) + script(config@),
{
    let paths = config.file_paths();
    let ghost files = config@.files;
    let dir = parent_dir(paths[0].as_str());
    let mut names: Vec<String> = Vec::new();
    let mut stems: Vec<String> = Vec::new();
    let mut i: usize = 0;
    while i < paths.len()
        invariant
            i <= paths.len(),
            files == texts(paths@),
            config@.wf(),
            files == config@.files,
            texts(names@) == source_names(files).take(i as int),
            texts(stems@) == source_stems(files).take(i as int),
        decreases paths.len() - i,
    {
        assert(accepted(files, i as int));
        let name = file_name(paths[i].as_str()).unwrap();
        let stem = file_stem(name.as_str());
        push_line(&mut names, name);
        push_line(&mut stems, stem);
        i = i + 1;
    }
    assert(source_names(files).take(i as int) =~= source_names(files));
    assert(source_stems(files).take(i as int) =~= source_stems(files));
    let toolchain_mount = quote(config.compiler_dir().as_str());
    let sources = to_upper(join(&names, " ..\\").as_str());
    let objects = to_upper(join(&stems, ".OBJ ").as_str());
    let program = to_upper(stems[0].as_str());
    let source_mount = match pick_drive(dir.as_str(), config.compiler_dir().as_str()) {
        Drive::C => None,
        Drive::D => Some(quote(dir.as_str())),
    };
    write_script(
        commands,
        toolchain_mount.as_str(),
        match &source_mount {
            Some(literal) => Some(literal.as_str()),
            None => None,
        },
        config.copts().as_str(),
        config.lopts().as_str(),
        sources.as_str(),
        objects.as_str(),
        program.as_str(),
        config.debug(),
        config.exit(),
    );
}

/// Of any two directories exactly one drive is chosen: `C` where they are
/// equal and `D` where they differ, whichever of the two is named first.
pub proof fn law_drive_assignment(source_dir: Seq<char>, toolchain_dir: Seq<char>)
    ensures
        working_drive(source_dir, toolchain_dir) == Drive::C <==> source_dir == toolchain_dir,
        working_drive(source_dir, toolchain_dir) == Drive::D <==> source_dir != toolchain_dir,
        working_drive(source_dir, toolchain_dir) == working_drive(toolchain_dir, source_dir),
{
}

/// The command lines of every configuration begin with the keyboard layout,
/// the mount of the toolchain directory as `C` and the search path. Where
/// the sources lie in the toolchain directory the fourth line changes to
/// `C:` and nothing is mounted as `D`; otherwise the fourth line mounts the
/// source directory as `D` and the fifth changes to `D:`. What follows is
/// the same in both cases.
pub proof fn law_drive_lines(config: ConfigModel)
    ensures
        script(config)[0] == "keyb ru"@,
        script(config)[1] == "mount C: "@ + quoted(config.toolchain),
        script(config)[2] == "PATH=%PATH;C:\\"@,
        config.source_dir() == config.toolchain ==> {
            &&& script(config)[3] == "C:"@
            &&& script(config).skip(4) == rest_of(config)
        },
        config.source_dir() != config.toolchain ==> {
            &&& script(config)[3] == "mount D: "@ + quoted(config.source_dir())
            &&& script(config)[4] == "D:"@
            &&& script(config).skip(5) == rest_of(config)
        },
{
}

/// Two configurations that hold the same values give the same command
/// lines.
pub proof fn law_script_deterministic(first: Config, second: Config)
    requires
        first@ == second@,
    ensures
        script(first@) == script(second@),
{
}

} // verus!
