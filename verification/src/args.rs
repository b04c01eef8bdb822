//! The command line: `-r <filename>` registers a template, `-c` copies one
//! out after choosing its kind and then the file, `-c <extension>` copies one
//! of the given kind.

use vstd::prelude::*;

verus! {

/// Status of a command line that is rejected.
pub const PROCESS_FAILED: i32 = 0;

/// Status of `-r <filename>`.
pub const PROCESS_REGISTER: i32 = 1;

/// Status of `-c <extension>`.
pub const PROCESS_COPY_EXTENSION_EXIST: i32 = 2;

/// Status of `-c`.
pub const PROCESS_COPY_EXTENSION_WITHOUT: i32 = 3;

/// What a command line asks for.
#[derive(Clone, Copy, Debug, PartialEq, Eq, Structural)]
pub enum Command {
    /// `-r <filename>`: register the file as a template.
    Register,
    /// `-c <extension>`: copy a template of the given extension.
    CopyWithExtension,
    /// `-c`: choose a template interactively and copy it.
    CopyWithoutExtension,
}

/// Why a command line is rejected.
#[derive(Clone, Copy, Debug, PartialEq, Eq, Structural)]
pub enum ArgsError {
    /// No option was given.
    MissingOption,
    /// `-r` without exactly one file name.
    MissingValue,
    /// `-c` with more than one value.
    TooManyArguments,
    /// An option other than `-r` and `-c`.
    InvalidOption,
}

/// The command that the arguments `args` (the program's name first) ask for.
pub open spec fn classify_spec(args: Seq<String>) -> Result<Command, ArgsError> {
    if args.len() < 2 {
        Err(ArgsError::MissingOption)
    } else if args[1]@ == seq!['-', 'r'] {
        if args.len() == 3 {
            Ok(Command::Register)
        } else {
            Err(ArgsError::MissingValue)
        }
    } else if args[1]@ == seq!['-', 'c'] {
        if args.len() == 2 {
            Ok(Command::CopyWithoutExtension)
        } else if args.len() == 3 {
            Ok(Command::CopyWithExtension)
        } else {
            Err(ArgsError::TooManyArguments)
        }
    } else {
        Err(ArgsError::InvalidOption)
    }
}

/// The process status that stands for a classified command line.
pub open spec fn status_spec(c: Result<Command, ArgsError>) -> i32 {
    match c {
        Ok(Command::Register) => PROCESS_REGISTER,
        Ok(Command::CopyWithExtension) => PROCESS_COPY_EXTENSION_EXIST,
        Ok(Command::CopyWithoutExtension) => PROCESS_COPY_EXTENSION_WITHOUT,
        Err(_) => PROCESS_FAILED,
    }
}

/// Whether `s` is the option `-<letter>`.
fn is_option(s: &str, letter: char) -> (r: bool)
    ensures
        r == (s@ == seq!['-', letter]),
{
    let r = s.unicode_len() == 2 && s.get_char(0) == '-' && s.get_char(1) == letter;
    proof {
        if s@.len() == 2 && s@[0] == '-' && s@[1] == letter {
            assert(s@ =~= seq!['-', letter]);
        }
    }
    r
}

/// The command that the arguments `args` (the program's name first) ask for,
/// or why they are rejected.
pub fn classify_args(args: &Vec<String>) -> (r: Result<Command, ArgsError>)
    ensures
        r == classify_spec(args@),
{
    if args.len() < 2 {
        return Err(ArgsError::MissingOption);
    }
    let option = args[1].as_str();
    if is_option(option, 'r') {
        if args.len() == 3 {
            Ok(Command::Register)
        } else {
            Err(ArgsError::MissingValue)
        }
    } else if is_option(option, 'c') {
        if args.len() == 2 {
            Ok(Command::CopyWithoutExtension)
        } else if args.len() == 3 {
            Ok(Command::CopyWithExtension)
        } else {
            Err(ArgsError::TooManyArguments)
        }
    } else {
        Err(ArgsError::InvalidOption)
    }
}

/// The process status of the arguments `args`: one of the `PROCESS_*`
/// constants.
pub fn check_args(args: Vec<String>) -> (r: i32)
    ensures
        r == status_spec(classify_spec(args@)),
{
    match classify_args(&args) {
        Ok(Command::Register) => PROCESS_REGISTER,
        Ok(Command::CopyWithExtension) => PROCESS_COPY_EXTENSION_EXIST,
        Ok(Command::CopyWithoutExtension) => PROCESS_COPY_EXTENSION_WITHOUT,
        Err(_) => PROCESS_FAILED,
    }
}

} // verus!
