use tasm_runner::{
    emulator_arguments, exit_code, generate_commands, get_config, pick_drive, write_script,
    BuildError, Cli, Config, Drive, Presence, Resolution, Survey, ToolchainSurvey, FAILURE,
};

fn config(files: &[&str], toolchain: &str, copts: &str, debug: bool, exit: bool) -> Config {
    Config::new(
        files.iter().map(|file| file.to_string()).collect(),
        toolchain.to_string(),
        copts.to_string(),
        "/X".to_string(),
        debug,
        exit,
    )
    .unwrap()
}

fn lines(config: Config) -> Vec<String> {
    let mut commands = Vec::new();
    generate_commands(config, &mut commands);
    commands
}

#[test]
fn single_file_beside_the_toolchain_builds_on_drive_c() {
    let commands = lines(config(&["C:\\PROJ\\HELLO.ASM"], "C:\\PROJ", "", false, false));
    assert_eq!(
        commands,
        vec![
            "keyb ru",
            "mount C: \"C:\\\\PROJ\"",
            "PATH=%PATH;C:\\",
            "C:",
            "md BUILD",
            "cd BUILD",
            "TASM  ..\\HELLO.ASM",
            "TLINK /X HELLO.OBJ",
            "HELLO",
        ]
    );
    assert!(!commands.iter().any(|line| line.starts_with("mount D:")));
    assert!(!commands.iter().any(|line| line.starts_with("TD ")));
    assert!(!commands.iter().any(|line| line == "@pause" || line == "exit 0"));
}

#[test]
fn file_outside_the_toolchain_gets_drive_d_and_the_debugger() {
    let commands = lines(config(&["D:\\SRC\\APP.ASM"], "C:\\TASM", "", true, false));
    assert_eq!(
        commands,
        vec![
            "keyb ru",
            "mount C: \"C:\\\\TASM\"",
            "PATH=%PATH;C:\\",
            "mount D: \"D:\\\\SRC\"",
            "D:",
            "md BUILD",
            "cd BUILD",
            "TASM  ..\\APP.ASM",
            "TLINK /X APP.OBJ",
            "APP",
            "TD APP",
        ]
    );
    assert_eq!(commands[commands.len() - 2], "APP");
    assert_eq!(commands[commands.len() - 1], "TD APP");
}

#[test]
fn two_files_are_assembled_together_and_linked_into_the_first() {
    let commands = lines(config(
        &["D:\\SRC\\A.ASM", "D:\\SRC\\B.ASM"],
        "C:\\TASM",
        "",
        false,
        true,
    ));
    assert_eq!(
        commands,
        vec![
            "keyb ru",
            "mount C: \"C:\\\\TASM\"",
            "PATH=%PATH;C:\\",
            "mount D: \"D:\\\\SRC\"",
            "D:",
            "md BUILD",
            "cd BUILD",
            "TASM  ..\\A.ASM ..\\B.ASM",
            "TLINK /X A.OBJ B.OBJ",
            "A",
            "@pause",
            "exit 0",
        ]
    );
}

#[test]
fn posix_paths_are_mounted_as_they_are_and_names_are_upper_cased() {
    let commands = lines(config(
        &["/home/user/lab/main.asm", "/home/user/lab/util.asm"],
        "/opt/tasm",
        "/ZI /L",
        true,
        true,
    ));
    assert_eq!(
        commands,
        vec![
            "keyb ru",
            "mount C: \"/opt/tasm\"",
            "PATH=%PATH;C:\\",
            "mount D: \"/home/user/lab\"",
            "D:",
            "md BUILD",
            "cd BUILD",
            "TASM /ZI /L ..\\MAIN.ASM ..\\UTIL.ASM",
            "TLINK /X MAIN.OBJ UTIL.OBJ",
            "MAIN",
            "TD MAIN",
            "@pause",
            "exit 0",
        ]
    );
}

#[test]
fn debugger_comes_before_the_pause() {
    let commands = lines(config(&["/t/a.asm"], "/t", "", true, true));
    assert_eq!(&commands[9..], ["TD A", "@pause", "exit 0"]);
    assert_eq!(commands[3], "C:");
}

#[test]
fn drive_is_c_exactly_where_the_directories_are_equal() {
    let pairs = [
        ("/a", "/a"),
        ("/a", "/b"),
        ("/b", "/a"),
        ("/a", "/a/b"),
        ("C:\\TASM", "C:\\TASM"),
        ("C:\\TASM", "c:\\tasm"),
    ];
    for (source_dir, toolchain) in pairs {
        let file = format!("{source_dir}/x.asm");
        let commands = lines(config(&[file.as_str()], toolchain, "", false, false));
        let mounts_d = commands.iter().filter(|line| line.starts_with("mount D: ")).count();
        if source_dir == toolchain {
            assert_eq!(commands[3], "C:");
            assert_eq!(mounts_d, 0);
            assert_eq!(commands.len(), 9);
        } else {
            assert_eq!(commands[3], format!("mount D: {source_dir:?}"));
            assert_eq!(commands[4], "D:");
            assert_eq!(mounts_d, 1);
            assert_eq!(commands.len(), 10);
        }
    }
}

#[test]
fn drive_choice_compares_the_directories_as_they_are() {
    assert_eq!(pick_drive("/opt/tasm", "/opt/tasm"), Drive::C);
    assert_eq!(pick_drive("C:\\PROJ", "C:\\PROJ"), Drive::C);
    assert_eq!(pick_drive("", ""), Drive::C);
    assert_eq!(pick_drive("/opt/tasm", "/opt/TASM"), Drive::D);
    assert_eq!(pick_drive("/opt/tasm", "/opt/tasm/"), Drive::D);
    assert_eq!(pick_drive("D:\\SRC", "C:\\TASM"), Drive::D);
    assert_eq!(pick_drive("/a", "/b"), pick_drive("/b", "/a"));
    assert_eq!(pick_drive("/a", "/a/b"), pick_drive("/a/b", "/a"));
}

#[test]
fn exit_code_is_the_emulators_own_or_the_failure_code() {
    assert_eq!(exit_code(Some(0)), 0);
    assert_eq!(exit_code(Some(3)), 3);
    assert_eq!(exit_code(Some(-7)), -7);
    assert_eq!(exit_code(None), -1);
    assert_eq!(FAILURE, -1);
}

#[test]
fn same_configuration_gives_the_same_lines() {
    let first = lines(config(&["/s/a.asm", "/s/b.asm"], "/t", "/zi", true, true));
    let second = lines(config(&["/s/a.asm", "/s/b.asm"], "/t", "/zi", true, true));
    assert_eq!(first, second);
}

#[test]
fn lines_are_appended_to_what_is_there() {
    let mut commands = vec!["rem first".to_string()];
    generate_commands(config(&["/t/a.asm"], "/t", "", false, false), &mut commands);
    assert_eq!(commands.len(), 10);
    assert_eq!(commands[0], "rem first");
    assert_eq!(commands[1], "keyb ru");
}

#[test]
fn options_in_a_configuration_are_embedded_as_they_are() {
    let commands = lines(
        Config::new(
            vec!["/t/a.asm".to_string()],
            "/t".to_string(),
            "/zi".to_string(),
            "/t /x".to_string(),
            false,
            false,
        )
        .unwrap(),
    );
    assert_eq!(commands[6], "TASM /zi ..\\A.ASM");
    assert_eq!(commands[7], "TLINK /t /x A.OBJ");
}

#[test]
fn directories_are_quoted_and_escaped() {
    let commands = lines(config(&["/my \"src\"/a.asm"], "/my tools", "", false, false));
    assert_eq!(commands[1], "mount C: \"/my tools\"");
    assert_eq!(commands[3], "mount D: \"/my \\\"src\\\"\"");
}

#[test]
fn extension_is_cut_at_the_last_dot_only() {
    let commands = lines(config(&["/t/a.b.asm", "/t/noext"], "/t", "", false, false));
    assert_eq!(commands[6], "TASM  ..\\A.B.ASM ..\\NOEXT");
    assert_eq!(commands[7], "TLINK /X A.B.OBJ NOEXT.OBJ");
    assert_eq!(commands[8], "A.B");
}

#[test]
fn write_script_embeds_its_texts_unchanged() {
    let mut commands = Vec::new();
    write_script(
        &mut commands,
        "<tools>",
        Some("<src>"),
        "copts",
        "lopts",
        "sources",
        "objects",
        "program",
        true,
        true,
    );
    assert_eq!(
        commands,
        vec![
            "keyb ru",
            "mount C: <tools>",
            "PATH=%PATH;C:\\",
            "mount D: <src>",
            "D:",
            "md BUILD",
            "cd BUILD",
            "TASM copts ..\\sources",
            "TLINK lopts objects.OBJ",
            "program",
            "TD program",
            "@pause",
            "exit 0",
        ]
    );
}

#[test]
fn write_script_without_a_source_mount_stays_on_c() {
    let mut commands = Vec::new();
    write_script(&mut commands, "<tools>", None, "", "", "s", "o", "p", false, false);
    assert_eq!(
        commands,
        vec![
            "keyb ru",
            "mount C: <tools>",
            "PATH=%PATH;C:\\",
            "C:",
            "md BUILD",
            "cd BUILD",
            "TASM  ..\\s",
            "TLINK  o.OBJ",
            "p",
        ]
    );
}

#[test]
fn each_line_goes_behind_the_execute_flag() {
    let commands = vec!["keyb ru".to_string(), "C:".to_string(), "exit 0".to_string()];
    assert_eq!(
        emulator_arguments(&commands),
        vec!["-c", "keyb ru", "-c", "C:", "-c", "exit 0"]
    );
    assert!(emulator_arguments(&Vec::new()).is_empty());
}

#[test]
fn no_command_is_written_when_the_toolchain_lacks_an_executable() {
    let cli = Cli {
        files: vec!["hello.asm".to_string()],
        c: Some("tools".to_string()),
        copts: None,
        lopts: None,
        debug: true,
        exit: true,
    };
    let survey = Survey {
        toolchain: ToolchainSurvey {
            dir: Resolution::Found { path: "/opt/tasm".to_string() },
            assembler: Presence::Present,
            linker: Presence::Absent,
        },
        sources: vec![Resolution::Found { path: "/home/user/hello.asm".to_string() }],
    };
    let mut commands: Vec<String> = Vec::new();
    match get_config(cli, "tools".to_string(), survey) {
        Ok(config) => generate_commands(config, &mut commands),
        Err(error) => {
            assert_eq!(error, BuildError::FileMissing { path: "/opt/tasm/TLINK.exe".to_string() })
        }
    }
    assert!(commands.is_empty());
}

#[test]
fn end_to_end_from_command_line_to_arguments() {
    let cli = Cli {
        files: vec!["hello.asm".to_string()],
        c: None,
        copts: Some("/zi".to_string()),
        lopts: None,
        debug: false,
        exit: true,
    };
    let survey = Survey {
        toolchain: ToolchainSurvey {
            dir: Resolution::Found { path: "/opt/tasm".to_string() },
            assembler: Presence::Present,
            linker: Presence::Present,
        },
        sources: vec![Resolution::Found { path: "/home/user/hello.asm".to_string() }],
    };
    let config = get_config(cli, "/opt/tasm".to_string(), survey).unwrap();
    let arguments = emulator_arguments(&lines(config));
    assert_eq!(
        arguments,
        vec![
            "-c",
            "keyb ru",
            "-c",
            "mount C: \"/opt/tasm\"",
            "-c",
            "PATH=%PATH;C:\\",
            "-c",
            "mount D: \"/home/user\"",
            "-c",
            "D:",
            "-c",
            "md BUILD",
            "-c",
            "cd BUILD",
            "-c",
            "TASM /ZI ..\\HELLO.ASM",
            "-c",
            "TLINK /X HELLO.OBJ",
            "-c",
            "HELLO",
            "-c",
            "@pause",
            "-c",
            "exit 0",
        ]
    );
}
