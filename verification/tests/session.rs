use easy_template::args::ArgsError;
use easy_template::session::{start, step, Action, Event, Outcome, Stage};

fn strings(v: &[&str]) -> Vec<String> {
    v.iter().map(|s| s.to_string()).collect()
}

#[test]
fn register_run_creates_missing_directory() {
    let (stage, action) = start();
    assert!(matches!(stage, Stage::CheckingTemplateDir));
    assert!(matches!(action, Action::CheckTemplateDir));
    let (stage, action) = step(stage, Event::TemplateDirChecked(true));
    assert!(matches!(action, Action::ReadArgs));
    let (stage, action) = step(stage, Event::ArgsRead(strings(&["p", "-r", "notes.md"])));
    match &action {
        Action::CheckExtensionDir(dir) => assert_eq!(dir, "md"),
        other => panic!("{other:?}"),
    }
    let (stage, action) = step(stage, Event::ExtensionDirChecked(false));
    match &action {
        Action::CreateExtensionDir(dir) => assert_eq!(dir, "md"),
        other => panic!("{other:?}"),
    }
    let (stage, action) = step(stage, Event::ExtensionDirCreated(true));
    match &action {
        Action::RegisterTemplate { dir, file } => {
            assert_eq!(dir, "md");
            assert_eq!(file, "notes.md");
        }
        other => panic!("{other:?}"),
    }
    let (stage, action) = step(stage, Event::Registered(true));
    assert!(matches!(stage, Stage::Done));
    assert!(matches!(action, Action::Finish(Outcome::CopyDone)));
}

#[test]
fn register_without_extension_goes_to_various() {
    let (stage, _) = step(Stage::ReadingArgs, Event::ArgsRead(strings(&["p", "-r", "Makefile"])));
    let (_, action) = step(stage, Event::ExtensionDirChecked(true));
    match &action {
        Action::RegisterTemplate { dir, file } => {
            assert_eq!(dir, "various");
            assert_eq!(file, "Makefile");
        }
        other => panic!("{other:?}"),
    }
}

#[test]
fn copy_run_selects_then_copies() {
    let (stage, action) = step(Stage::ReadingArgs, Event::ArgsRead(strings(&["p", "-c"])));
    assert!(matches!(action, Action::SelectExtensionDir));
    let (stage, action) = step(stage, Event::DirSelected(Some("/h/.template/rs".to_string())));
    match &action {
        Action::SelectTemplateFile(d) => assert_eq!(d, "/h/.template/rs"),
        other => panic!("{other:?}"),
    }
    let (stage, action) = step(stage, Event::FileSelected(Some("/h/.template/rs/main.rs".to_string())));
    match &action {
        Action::CopyTemplate(f) => assert_eq!(f, "/h/.template/rs/main.rs"),
        other => panic!("{other:?}"),
    }
    let (_, action) = step(stage, Event::Copied(true));
    assert!(matches!(action, Action::Finish(Outcome::CopyDone)));
}

#[test]
fn runs_end_with_each_outcome() {
    let (_, a) = step(Stage::CheckingHome, Event::HomeChecked(false));
    assert!(matches!(a, Action::Finish(Outcome::HomeNotFound)));
    let (_, a) = step(Stage::CreatingTemplateDir, Event::TemplateDirCreated(false));
    assert!(matches!(a, Action::Finish(Outcome::HomeNotFound)));
    let (s, a) = step(Stage::CheckingTemplateDir, Event::TemplateDirChecked(false));
    assert!(matches!(s, Stage::CheckingHome));
    assert!(matches!(a, Action::CheckHome));
    let (_, a) = step(
        Stage::CreatingExtensionDir { dir: "d".to_string(), file: "f.d".to_string() },
        Event::ExtensionDirCreated(false),
    );
    assert!(matches!(a, Action::Finish(Outcome::ExtensionDirUnavailable)));
    let (_, a) = step(Stage::SelectingDir, Event::DirSelected(None));
    assert!(matches!(a, Action::Finish(Outcome::DirNotSelected)));
    let (_, a) = step(Stage::SelectingFile, Event::FileSelected(None));
    assert!(matches!(a, Action::Finish(Outcome::FileNotSelected)));
    let (_, a) = step(Stage::Copying, Event::Copied(false));
    assert!(matches!(a, Action::Finish(Outcome::Silent)));
    let (_, a) = step(Stage::Registering, Event::Registered(false));
    assert!(matches!(a, Action::Finish(Outcome::Silent)));
    let (_, a) = step(Stage::ReadingArgs, Event::ArgsRead(strings(&["p", "-x"])));
    assert!(matches!(a, Action::Finish(Outcome::ArgsRejected(ArgsError::InvalidOption))));
    let (s, a) = step(Stage::Done, Event::Copied(true));
    assert!(matches!(s, Stage::Done));
    assert!(matches!(a, Action::Finish(Outcome::Silent)));
}

#[test]
fn law_every_run_ends_on_a_long_run() {
    let mut stage = Stage::CheckingTemplateDir;
    let events = vec![
        Event::TemplateDirChecked(false),
        Event::HomeChecked(true),
        Event::TemplateDirCreated(true),
        Event::ArgsRead(strings(&["p", "-r", "x.rs"])),
        Event::ExtensionDirChecked(false),
        Event::ExtensionDirCreated(true),
        Event::Registered(true),
    ];
    let mut steps = 0;
    for e in events {
        let (next, action) = step(stage, e);
        steps += 1;
        stage = next;
        if matches!(action, Action::Finish(_)) {
            assert!(matches!(stage, Stage::Done));
            break;
        }
        assert!(!matches!(stage, Stage::Done));
    }
    assert!(matches!(stage, Stage::Done));
    assert!(steps <= 9);
}

#[test]
fn copy_of_a_kind_selects_a_file_of_that_kind() {
    let (stage, action) = step(Stage::ReadingArgs, Event::ArgsRead(strings(&["p", "-c", "rs"])));
    assert!(matches!(stage, Stage::SelectingFile));
    match &action {
        Action::SelectTemplateFileOfKind(extension) => assert_eq!(extension, "rs"),
        other => panic!("{other:?}"),
    }
    let (stage, action) = step(stage, Event::FileSelected(Some("/h/.template/rs/lib.rs".to_string())));
    match &action {
        Action::CopyTemplate(f) => assert_eq!(f, "/h/.template/rs/lib.rs"),
        other => panic!("{other:?}"),
    }
    let (_, action) = step(stage, Event::Copied(true));
    assert!(matches!(action, Action::Finish(Outcome::CopyDone)));
}
