//! Drives the TASM assembler and the TLINK linker inside DOSBox: turns source
//! paths, a toolchain directory and options into the ordered list of lines
//! that the emulator executes.
//!
//! The library never touches the host. Its caller asks the filesystem about
//! the paths of a build and hands the answers over as a `Survey`; which path
//! to ask about for a path given is the library's to say (`direct_target`,
//! `resolution_target`). `get_config` makes a `Config` from the answers or
//! says what is wrong, and `generate_commands` writes the command lines of a
//! `Config`. Paths are text throughout, read as the module `path` describes.

pub mod cli;
pub mod commands;
pub mod config;
pub mod emulator;
pub mod error;
pub mod path;
pub mod resolve;
pub mod scan;
pub mod survey;
pub mod text;

pub use crate::cli::{validate_args, Cli};
pub use crate::commands::{generate_commands, pick_drive, write_script, Drive};
pub use crate::config::{get_config, Config};
pub use crate::emulator::{emulator_arguments, exit_code, FAILURE};
pub use crate::error::BuildError;
pub use crate::resolve::{direct_target, resolution_target, to_absolute_path, Resolution};
pub use crate::survey::{
    assembler_path, check_file, linker_path, locate, Presence, Survey, ToolchainSurvey,
};
