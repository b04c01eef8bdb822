//! The decisions of one run of the program, as a state machine: the caller
//! performs each action (a check of the file system, a question to the user,
//! a copy) and answers with the event it observed.

use vstd::prelude::*;

use crate::args::{classify_args, classify_spec, ArgsError, Command};
use crate::names::{register_dir_name, register_dir_spec};

verus! {

/// Where a run stands: which answer it waits for.
#[derive(Debug)]
pub enum Stage {
    /// Waiting to learn whether the template root exists.
    CheckingTemplateDir,
    /// Waiting to learn whether `$HOME` is set.
    CheckingHome,
    /// Waiting for the template root to be created.
    CreatingTemplateDir,
    /// Waiting for the command line.
    ReadingArgs,
    /// Waiting to learn whether the directory `dir` exists, before `file` is registered.
    CheckingExtensionDir { dir: String, file: String },
    /// Waiting for the directory `dir` to be created, before `file` is registered.
    CreatingExtensionDir { dir: String, file: String },
    /// Waiting for the registration to finish.
    Registering,
    /// Waiting for the user to choose a template directory.
    SelectingDir,
    /// Waiting for the user to choose a template file.
    SelectingFile,
    /// Waiting for the template to be copied.
    Copying,
    /// The run is over.
    Done,
}

/// What the caller observed when it performed the last action.
#[derive(Debug)]
pub enum Event {
    /// Whether the template root exists.
    TemplateDirChecked(bool),
    /// Whether `$HOME` is set.
    HomeChecked(bool),
    /// Whether the template root was created.
    TemplateDirCreated(bool),
    /// The command line, the program's name first.
    ArgsRead(Vec<String>),
    /// Whether the directory of the file to register exists.
    ExtensionDirChecked(bool),
    /// Whether that directory was created.
    ExtensionDirCreated(bool),
    /// Whether the file was registered.
    Registered(bool),
    /// The template directory the user chose, if any.
    DirSelected(Option<String>),
    /// The template file the user chose, if any.
    FileSelected(Option<String>),
    /// Whether the template was copied.
    Copied(bool),
}

/// How a run ends: what is reported last.
#[derive(Clone, Copy, Debug, PartialEq, Eq, Structural)]
pub enum Outcome {
    /// Nothing more is reported.
    Silent,
    /// No home directory is known, or the template root could not be made.
    HomeNotFound,
    /// The directory of the file to register could not be made.
    ExtensionDirUnavailable,
    /// A template was registered or copied.
    CopyDone,
    /// No template directory was chosen.
    DirNotSelected,
    /// No template file was chosen.
    FileNotSelected,
    /// The command line was rejected.
    ArgsRejected(ArgsError),
}

/// What the caller is to do next.
#[derive(Debug)]
pub enum Action {
    /// Check whether `<home>/.template` exists.
    CheckTemplateDir,
    /// Check whether `$HOME` is set.
    CheckHome,
    /// Create `<home>/.template`.
    CreateTemplateDir,
    /// Read the command line.
    ReadArgs,
    /// Check whether `<home>/.template/<dir>` exists.
    CheckExtensionDir(String),
    /// Create `<home>/.template/<dir>`.
    CreateExtensionDir(String),
    /// Copy `file` from the working directory into `<home>/.template/<dir>`.
    RegisterTemplate { dir: String, file: String },
    /// Let the user choose a directory below the template root.
    SelectExtensionDir,
    /// Let the user choose a file in the given directory.
    SelectTemplateFile(String),
    /// Let the user choose a file in `<home>/.template/<extension>`.
    SelectTemplateFileOfKind(String),
    /// Copy the given template file into the working directory.
    CopyTemplate(String),
    /// Report the outcome and stop.
    Finish(Outcome),
}

/// How many more answers a run waits for at most from `s`.
pub open spec fn rank(s: Stage) -> nat {
    match s {
        Stage::CheckingTemplateDir => 9,
        Stage::CheckingHome => 8,
        Stage::CreatingTemplateDir => 7,
        Stage::ReadingArgs => 6,
        Stage::CheckingExtensionDir { .. } => 5,
        Stage::CreatingExtensionDir { .. } => 4,
        Stage::SelectingDir => 3,
        Stage::SelectingFile => 2,
        Stage::Registering => 1,
        Stage::Copying => 1,
        Stage::Done => 0,
    }
}

/// The run ends with outcome `o`.
pub open spec fn finishes(t: Stage, a: Action, o: Outcome) -> bool {
    t is Done && a == Action::Finish(o)
}

/// The run goes on by registering `file` in `dir`.
pub open spec fn registers(t: Stage, a: Action, dir: String, file: String) -> bool {
    &&& t is Registering
    &&& a matches Action::RegisterTemplate { dir: d, file: f }
    &&& d@ == dir@
    &&& f@ == file@
}

/// The stage `t` and the action `a` that follow stage `s` on event `e`.
pub open spec fn transition(s: Stage, e: Event, t: Stage, a: Action) -> bool {
    match (s, e) {
        (Stage::CheckingTemplateDir, Event::TemplateDirChecked(exists)) => if exists {
            t is ReadingArgs && a is ReadArgs
        } else {
            t is CheckingHome && a is CheckHome
        },
        (Stage::CheckingHome, Event::HomeChecked(present)) => if present {
            t is CreatingTemplateDir && a is CreateTemplateDir
        } else {
            finishes(t, a, Outcome::HomeNotFound)
        },
        (Stage::CreatingTemplateDir, Event::TemplateDirCreated(created)) => if created {
            t is ReadingArgs && a is ReadArgs
        } else {
            finishes(t, a, Outcome::HomeNotFound)
        },
        (Stage::ReadingArgs, Event::ArgsRead(args)) => match classify_spec(args@) {
            Ok(Command::Register) => {
                &&& t matches Stage::CheckingExtensionDir { dir, file }
                &&& dir@ == register_dir_spec(args@[2]@)
                &&& file@ == args@[2]@
                &&& a matches Action::CheckExtensionDir(d)
                &&& d@ == dir@
            },
            Ok(Command::CopyWithoutExtension) => t is SelectingDir && a is SelectExtensionDir,
            Ok(Command::CopyWithExtension) => {
                &&& t is SelectingFile
                &&& a matches Action::SelectTemplateFileOfKind(extension)
                &&& extension@ == args@[2]@
            },
            Err(err) => finishes(t, a, Outcome::ArgsRejected(err)),
        },
        (Stage::CheckingExtensionDir { dir, file }, Event::ExtensionDirChecked(exists)) => if exists {
            registers(t, a, dir, file)
        } else {
            &&& t matches Stage::CreatingExtensionDir { dir: d, file: f }
            &&& d@ == dir@
            &&& f@ == file@
            &&& a matches Action::CreateExtensionDir(c)
            &&& c@ == dir@
        },
        (Stage::CreatingExtensionDir { dir, file }, Event::ExtensionDirCreated(created)) => if created {
            registers(t, a, dir, file)
        } else {
            finishes(t, a, Outcome::ExtensionDirUnavailable)
        },
        (Stage::Registering, Event::Registered(ok)) => if ok {
            finishes(t, a, Outcome::CopyDone)
        } else {
            finishes(t, a, Outcome::Silent)
        },
        (Stage::SelectingDir, Event::DirSelected(chosen)) => match chosen {
            Some(dir) => {
                &&& t is SelectingFile
                &&& a matches Action::SelectTemplateFile(d)
                &&& d@ == dir@
            },
            None => finishes(t, a, Outcome::DirNotSelected),
        },
        (Stage::SelectingFile, Event::FileSelected(chosen)) => match chosen {
            Some(file) => {
                &&& t is Copying
                &&& a matches Action::CopyTemplate(f)
                &&& f@ == file@
            },
            None => finishes(t, a, Outcome::FileNotSelected),
        },
        (Stage::Copying, Event::Copied(ok)) => if ok {
            finishes(t, a, Outcome::CopyDone)
        } else {
            finishes(t, a, Outcome::Silent)
        },
        _ => finishes(t, a, Outcome::Silent),
    }
}

/// The first stage of a run and its first action.
pub fn start() -> (r: (Stage, Action))
    ensures
        r.0 is CheckingTemplateDir,
        r.1 is CheckTemplateDir,
{
    (Stage::CheckingTemplateDir, Action::CheckTemplateDir)
}

/// The ending of a run with outcome `o`.
fn finish(o: Outcome) -> (r: (Stage, Action))
    ensures
        finishes(r.0, r.1, o),
{
    (Stage::Done, Action::Finish(o))
}

/// The stage and the action that follow `stage` once `event` was observed.
/// An event that the stage does not wait for ends the run silently.
pub fn step(stage: Stage, event: Event) -> (r: (Stage, Action))
    ensures
        transition(stage, event, r.0, r.1),
{
    match (stage, event) {
        (Stage::CheckingTemplateDir, Event::TemplateDirChecked(exists)) => if exists {
            (Stage::ReadingArgs, Action::ReadArgs)
        } else {
            (Stage::CheckingHome, Action::CheckHome)
        },
        (Stage::CheckingHome, Event::HomeChecked(present)) => if present {
            (Stage::CreatingTemplateDir, Action::CreateTemplateDir)
        } else {
            finish(Outcome::HomeNotFound)
        },
        (Stage::CreatingTemplateDir, Event::TemplateDirCreated(created)) => if created {
            (Stage::ReadingArgs, Action::ReadArgs)
        } else {
            finish(Outcome::HomeNotFound)
        },
        (Stage::ReadingArgs, Event::ArgsRead(args)) => match classify_args(&args) {
            Ok(Command::Register) => {
                let file = args[2].clone();
                let dir = register_dir_name(file.as_str());
                let request = dir.clone();
                (Stage::CheckingExtensionDir { dir, file }, Action::CheckExtensionDir(request))
            },
            Ok(Command::CopyWithoutExtension) => (Stage::SelectingDir, Action::SelectExtensionDir),
            Ok(Command::CopyWithExtension) => {
                let extension = args[2].clone();
                (Stage::SelectingFile, Action::SelectTemplateFileOfKind(extension))
            },
            Err(err) => finish(Outcome::ArgsRejected(err)),
        },
        (Stage::CheckingExtensionDir { dir, file }, Event::ExtensionDirChecked(exists)) => if exists {
            (Stage::Registering, Action::RegisterTemplate { dir, file })
        } else {
            let request = dir.clone();
            (Stage::CreatingExtensionDir { dir, file }, Action::CreateExtensionDir(request))
        },
        (Stage::CreatingExtensionDir { dir, file }, Event::ExtensionDirCreated(created)) => if created {
            (Stage::Registering, Action::RegisterTemplate { dir, file })
        } else {
            finish(Outcome::ExtensionDirUnavailable)
        },
        (Stage::Registering, Event::Registered(ok)) => if ok {
            finish(Outcome::CopyDone)
        } else {
            finish(Outcome::Silent)
        },
        (Stage::SelectingDir, Event::DirSelected(chosen)) => match chosen {
            Some(dir) => (Stage::SelectingFile, Action::SelectTemplateFile(dir)),
            None => finish(Outcome::DirNotSelected),
        },
        (Stage::SelectingFile, Event::FileSelected(chosen)) => match chosen {
            Some(file) => (Stage::Copying, Action::CopyTemplate(file)),
            None => finish(Outcome::FileNotSelected),
        },
        (Stage::Copying, Event::Copied(ok)) => if ok {
            finish(Outcome::CopyDone)
        } else {
            finish(Outcome::Silent)
        },
        _ => finish(Outcome::Silent),
    }
}

/// Every run ends: each answer moves a run that is not over to a stage of
/// smaller rank, and the run is over exactly when the action is to finish.
pub proof fn law_every_run_ends(s: Stage, e: Event, t: Stage, a: Action)
    requires
        transition(s, e, t, a),
    ensures
        !(s is Done) ==> rank(t) < rank(s),
        t is Done <==> a is Finish,
{
}

/// A run reads its command line only once the template root is known to
/// exist: either it was found, or it was created. A run that found no
/// template root but a home goes on by creating the root, and only that
/// creation leads to a stage that waits for it.
pub proof fn law_command_runs_only_with_template_root(s: Stage, e: Event, t: Stage, a: Action)
    requires
        transition(s, e, t, a),
    ensures
        t is ReadingArgs ==> (s is CheckingTemplateDir && e == Event::TemplateDirChecked(true))
            || (s is CreatingTemplateDir && e == Event::TemplateDirCreated(true)),
        a is ReadArgs ==> t is ReadingArgs,
        t is CreatingTemplateDir ==> s is CheckingHome && e == Event::HomeChecked(true),
        s is CheckingHome && e == Event::HomeChecked(true) ==> t is CreatingTemplateDir
            && a is CreateTemplateDir,
        s is CheckingTemplateDir && e == Event::TemplateDirChecked(false) ==> t is CheckingHome
            && a is CheckHome,
{
}

} // verus!
