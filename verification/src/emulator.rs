//! The emulator's process: the arguments it is started with and the exit
//! code that is passed on when it ends.

use vstd::prelude::*;
use vstd::string::*;
use crate::text::{push_line, push_text, texts};

verus! {

/// The exit code of a run that failed before the emulator ended with a code
/// of its own.
pub const FAILURE: i32 = -1;

/// The emulator's arguments for a list of command lines: each line behind
/// the flag `-c`.
pub open spec fn arguments_of(lines: Seq<Seq<char>>) -> Seq<Seq<char>> {
    Seq::new(
        2 * lines.len(),
        |i: int|
            if i % 2 == 0 {
                "-c"@
            } else {
                lines[i / 2]
            },
    )
}

/// The process's exit code for what the emulator's process ended with: its
/// own code, or `FAILURE` where it ended without one.
pub open spec fn exit_code_of(emulator: Option<i32>) -> i32 {
    match emulator {
        Some(code) => code,
        None => FAILURE,
    }
}

/// The emulator's arguments for `commands`: each line behind the flag `-c`.
pub fn emulator_arguments(commands: &Vec<String>) -> (arguments: Vec<String>)
    ensures
        texts(arguments@) == arguments_of(texts(commands@)),
{
    let mut arguments: Vec<String> = Vec::new();
    let mut i: usize = 0;
    while i < commands.len()
        invariant
            i <= commands.len(),
            texts(arguments@) == arguments_of(texts(commands@).take(i as int)),
        decreases commands.len() - i,
    {
        push_text(&mut arguments, "-c");
        push_line(&mut arguments, commands[i].clone());
        i = i + 1;
    }
    arguments
}

/// The process's exit code for what the emulator's process ended with.
pub fn exit_code(emulator: Option<i32>) -> (code: i32)
    ensures
        code == exit_code_of(emulator),
{
    match emulator {
        Some(code) => code,
        None => FAILURE,
    }
}

} // verus!
