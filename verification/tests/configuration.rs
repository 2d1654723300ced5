use std::io::ErrorKind;
use tasm_runner::{
    get_config, BuildError, Cli, Config, Presence, Resolution, Survey, ToolchainSurvey,
};

fn strings(items: &[&str]) -> Vec<String> {
    items.iter().map(|item| item.to_string()).collect()
}

fn cli(files: &[&str]) -> Cli {
    Cli { files: strings(files), c: None, copts: None, lopts: None, debug: false, exit: false }
}

fn found(paths: &[&str]) -> Vec<Resolution> {
    paths.iter().map(|path| Resolution::Found { path: path.to_string() }).collect()
}

fn toolchain(dir: &str) -> ToolchainSurvey {
    ToolchainSurvey {
        dir: Resolution::Found { path: dir.to_string() },
        assembler: Presence::Present,
        linker: Presence::Present,
    }
}

fn failed(reason: &str) -> Resolution {
    Resolution::Failed { kind: ErrorKind::NotFound, reason: reason.to_string() }
}

fn make(files: &[&str], dir: &str) -> Result<Config, BuildError> {
    Config::new(strings(files), dir.to_string(), String::new(), String::new(), false, false)
}

#[test]
fn new_keeps_what_it_is_given() {
    let config = Config::new(
        strings(&["/s/a.asm", "/s/b.asm"]),
        "/t".to_string(),
        "/zi".to_string(),
        "/x".to_string(),
        true,
        false,
    )
    .unwrap();
    assert_eq!(config.file_paths(), &strings(&["/s/a.asm", "/s/b.asm"]));
    assert_eq!(config.compiler_dir(), "/t");
    assert_eq!(config.copts(), "/zi");
    assert_eq!(config.lopts(), "/x");
    assert!(config.debug());
    assert!(!config.exit());
}

#[test]
fn new_refuses_an_empty_list_of_files() {
    assert_eq!(make(&[], "/t").unwrap_err(), BuildError::NoSourceFiles);
}

#[test]
fn new_refuses_a_path_without_a_file_name() {
    assert_eq!(
        make(&["/"], "/t").unwrap_err(),
        BuildError::InvalidSourcePath { path: "/".to_string() }
    );
    assert_eq!(
        make(&["/s/a.asm", "/s/.."], "/t").unwrap_err(),
        BuildError::InvalidSourcePath { path: "/s/..".to_string() }
    );
    assert_eq!(
        make(&["/s/a.asm", "/s/"], "/t").unwrap_err(),
        BuildError::InvalidSourcePath { path: "/s/".to_string() }
    );
}

#[test]
fn new_refuses_files_from_different_directories() {
    assert_eq!(
        make(&["/s/a.asm", "/s/b.asm", "/other/c.asm", "/more/d.asm"], "/t").unwrap_err(),
        BuildError::MixedSourceDirectories { path: "/other/c.asm".to_string() }
    );
    assert_eq!(
        make(&["/s/a.asm", "/s/sub/b.asm"], "/t").unwrap_err(),
        BuildError::MixedSourceDirectories { path: "/s/sub/b.asm".to_string() }
    );
}

#[test]
fn new_reports_the_first_fault_in_the_order_of_the_files() {
    assert_eq!(
        make(&["/s/a.asm", "/other/b.asm", "/s/.."], "/t").unwrap_err(),
        BuildError::MixedSourceDirectories { path: "/other/b.asm".to_string() }
    );
    assert_eq!(
        make(&["/s/a.asm", "/s/..", "/other/b.asm"], "/t").unwrap_err(),
        BuildError::InvalidSourcePath { path: "/s/..".to_string() }
    );
    assert_eq!(
        make(&["/other/..", "/s/a.asm"], "/t").unwrap_err(),
        BuildError::InvalidSourcePath { path: "/other/..".to_string() }
    );
}

#[test]
fn new_accepts_files_in_the_toolchain_directory_and_elsewhere() {
    assert!(make(&["/t/a.asm"], "/t").is_ok());
    assert!(make(&["/s/a.asm", "/s/b.asm", "/s/c.asm"], "/t").is_ok());
    assert!(make(&["C:\\HELLO.ASM", "C:\\WORLD.ASM"], "C:\\TASM").is_ok());
}

#[test]
fn get_config_takes_the_canonical_paths_and_upper_cases_options() {
    let input = Cli {
        files: strings(&["a.asm", "../lab/b.asm"]),
        c: Some("tools".to_string()),
        copts: Some("/zi /l".to_string()),
        lopts: Some("/t /x".to_string()),
        debug: true,
        exit: true,
    };
    let survey = Survey {
        toolchain: toolchain("/opt/tasm"),
        sources: found(&["/home/user/lab/a.asm", "/home/user/lab/b.asm"]),
    };
    let config = get_config(input, "tools".to_string(), survey).unwrap();
    assert_eq!(config.file_paths(), &strings(&["/home/user/lab/a.asm", "/home/user/lab/b.asm"]));
    assert_eq!(config.compiler_dir(), "/opt/tasm");
    assert_eq!(config.copts(), "/ZI /L");
    assert_eq!(config.lopts(), "/T /X");
    assert!(config.debug());
    assert!(config.exit());
}

#[test]
fn get_config_defaults_the_options() {
    let survey = Survey { toolchain: toolchain("/opt/tasm"), sources: found(&["/s/a.asm"]) };
    let config = get_config(cli(&["a.asm"]), "/opt/tasm".to_string(), survey).unwrap();
    assert_eq!(config.copts(), "");
    assert_eq!(config.lopts(), "/X");
    assert!(!config.debug());
    assert!(!config.exit());
}

#[test]
fn get_config_fails_on_an_unresolved_toolchain_directory_first() {
    let survey = Survey {
        toolchain: ToolchainSurvey {
            dir: failed("No such file or directory"),
            assembler: Presence::Present,
            linker: Presence::Present,
        },
        sources: vec![failed("gone")],
    };
    assert_eq!(
        get_config(cli(&["a.asm"]), "nowhere".to_string(), survey).unwrap_err(),
        BuildError::PathNotFound {
            path: "nowhere".to_string(),
            kind: ErrorKind::NotFound,
            reason: "No such file or directory".to_string()
        }
    );
}

#[test]
fn get_config_fails_on_a_missing_assembler_before_the_linker() {
    let survey = Survey {
        toolchain: ToolchainSurvey {
            dir: Resolution::Found { path: "C:\\TASM".to_string() },
            assembler: Presence::Absent,
            linker: Presence::Absent,
        },
        sources: found(&["C:\\SRC\\A.ASM"]),
    };
    assert_eq!(
        get_config(cli(&["A.ASM"]), "C:\\TASM".to_string(), survey).unwrap_err(),
        BuildError::FileMissing { path: "C:\\TASM\\TASM.exe".to_string() }
    );
}

#[test]
fn get_config_fails_on_a_missing_linker_before_the_sources() {
    let survey = Survey {
        toolchain: ToolchainSurvey {
            dir: Resolution::Found { path: "/opt/tasm".to_string() },
            assembler: Presence::Present,
            linker: Presence::Absent,
        },
        sources: vec![failed("gone")],
    };
    assert_eq!(
        get_config(cli(&["a.asm"]), "/opt/tasm".to_string(), survey).unwrap_err(),
        BuildError::FileMissing { path: "/opt/tasm/TLINK.exe".to_string() }
    );
}

#[test]
fn get_config_fails_on_the_first_source_that_was_not_found() {
    let survey = Survey {
        toolchain: toolchain("/t"),
        sources: vec![
            Resolution::Found { path: "/s/a.asm".to_string() },
            Resolution::Failed { kind: ErrorKind::PermissionDenied, reason: "first".to_string() },
            failed("second"),
        ],
    };
    assert_eq!(
        get_config(cli(&["a.asm", "b.asm", "c.asm"]), "/t".to_string(), survey).unwrap_err(),
        BuildError::PathNotFound {
            path: "b.asm".to_string(),
            kind: ErrorKind::PermissionDenied,
            reason: "first".to_string()
        }
    );
}

#[test]
fn get_config_names_a_source_without_an_answer() {
    let survey = Survey { toolchain: toolchain("/t"), sources: found(&["/s/a.asm"]) };
    assert_eq!(
        get_config(cli(&["a.asm", "b.asm"]), "/t".to_string(), survey).unwrap_err(),
        BuildError::NotSurveyed { path: "b.asm".to_string() }
    );
}

#[test]
fn get_config_ignores_answers_beyond_the_files() {
    let survey = Survey {
        toolchain: toolchain("/t"),
        sources: vec![
            Resolution::Found { path: "/s/a.asm".to_string() },
            failed("unused"),
        ],
    };
    let config = get_config(cli(&["a.asm"]), "/t".to_string(), survey).unwrap();
    assert_eq!(config.file_paths(), &strings(&["/s/a.asm"]));
}

#[test]
fn get_config_checks_the_resolved_sources() {
    let survey = Survey { toolchain: toolchain("/t"), sources: Vec::new() };
    assert_eq!(
        get_config(cli(&[]), "/t".to_string(), survey).unwrap_err(),
        BuildError::NoSourceFiles
    );
    let survey = Survey { toolchain: toolchain("/t"), sources: found(&["/s/a.asm", "/r/b.asm"]) };
    assert_eq!(
        get_config(cli(&["a.asm", "../r/b.asm"]), "/t".to_string(), survey).unwrap_err(),
        BuildError::MixedSourceDirectories { path: "/r/b.asm".to_string() }
    );
    let survey = Survey { toolchain: toolchain("/t"), sources: found(&["/"]) };
    assert_eq!(
        get_config(cli(&["/"]), "/t".to_string(), survey).unwrap_err(),
        BuildError::InvalidSourcePath { path: "/".to_string() }
    );
}

#[test]
fn get_config_passes_on_an_unreadable_current_directory_as_it_is() {
    let survey = Survey {
        toolchain: toolchain("/t"),
        sources: vec![
            Resolution::Found { path: "/s/a.asm".to_string() },
            Resolution::NoCurrentDir {
                kind: ErrorKind::PermissionDenied,
                reason: "Permission denied (os error 13)".to_string(),
            },
        ],
    };
    let error = get_config(cli(&["/s/a.asm", "b.asm"]), "/t".to_string(), survey).unwrap_err();
    assert_eq!(
        error,
        BuildError::CurrentDirUnreadable {
            kind: ErrorKind::PermissionDenied,
            reason: "Permission denied (os error 13)".to_string()
        }
    );
    assert_eq!(error.message(), "Permission denied (os error 13)");
    assert_eq!(error.kind(), Some(ErrorKind::PermissionDenied));
}
