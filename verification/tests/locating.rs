use find_editor::finder::launch_of;
use find_editor::locate::located;
use find_editor::{
    open_editor, try_open_editor, try_which_editor, which_editor, Environment, Error, Finder,
    Launch, NativeString, Next, Platform, WhichError,
};
use std::path::PathBuf;

const MISSING: &str = "surely-no-such-editor-e4b1f0 --flag";

fn with_variables(vars: &[(&str, &str)]) -> Environment {
    let mut env = Environment::new(Platform::Other);
    for (key, value) in vars {
        env.set(NativeString::from_str(key), NativeString::from_str(value));
    }
    env
}

fn failure() -> std::io::Error {
    std::io::Error::new(std::io::ErrorKind::Other, "no such process")
}

#[test]
fn command_that_is_not_on_the_path_is_not_found() {
    let env = with_variables(&[("VISUAL", MISSING)]);
    assert!(matches!(which_editor(&env), Err(Error::Which(_))));
    assert!(matches!(
        Finder::new().which_editor(&env),
        Err(Error::Which(WhichError::CannotFindBinaryPath))
    ));
    assert!(matches!(try_which_editor(&env), Some(Err(Error::Which(_)))));
}

#[test]
fn command_that_is_not_found_is_not_launched() {
    let env = with_variables(&[("VISUAL", MISSING)]);
    let file = NativeString::from_str("notes.txt");
    assert!(matches!(
        open_editor(&env, file.clone(), true),
        Err(Error::Which(_))
    ));
    assert!(matches!(
        Finder::new().open_editor(&env, file.clone(), false),
        Err(Error::Which(_))
    ));
    assert!(matches!(
        try_open_editor(&env, file, true),
        Some(Err(Error::Which(_)))
    ));
}

#[test]
fn open_quote_is_reported_before_any_search() {
    let env = with_variables(&[("VISUAL", "sh 'open")]);
    assert!(matches!(which_editor(&env), Err(Error::ShellWords(_))));
    assert!(matches!(
        open_editor(&env, NativeString::from_str("notes.txt"), true),
        Err(Error::ShellWords(_))
    ));
}

#[test]
fn name_without_a_word_is_neither_searched_nor_launched() {
    let env = with_variables(&[("VISUAL", "  ")]);
    assert!(try_which_editor(&env).is_none());
    assert!(Finder::new().try_which_editor(&env).is_none());
    assert!(try_open_editor(&env, NativeString::from_str("notes.txt"), true).is_none());
    assert!(Finder::new()
        .try_open_editor(&env, NativeString::from_str("notes.txt"), false)
        .is_none());
}

#[test]
fn shell_is_found_with_its_arguments_where_it_is_on_the_path() {
    let env = with_variables(&[("EDITOR", "sh -e -u")]);
    match which_editor(&env) {
        Ok((path, args)) => {
            assert!(path.ends_with("sh"));
            assert!(path.is_absolute());
            assert_eq!(args, ["-e", "-u"]);
        }
        Err(error) => assert!(matches!(error, Error::Which(_))),
    }
}

#[test]
fn launch_gets_the_arguments_and_then_the_file() {
    let env = with_variables(&[("EDITOR", "sh -e -u")]);
    let file = NativeString::from_str("my notes.txt");
    match Finder::new().open_editor(&env, file.clone(), true) {
        Ok(launch) => {
            assert!(launch.program.ends_with("sh"));
            assert_eq!(
                launch.args,
                [
                    NativeString::from_str("-e"),
                    NativeString::from_str("-u"),
                    file
                ]
            );
            assert!(launch.wait);
        }
        Err(error) => assert!(matches!(error, Error::Which(_))),
    }
}

#[test]
fn located_keeps_the_path_and_the_arguments() {
    let args = vec![String::from("--wait")];
    let (path, kept) = located(Ok(PathBuf::from("/usr/bin/code")), args.clone()).unwrap();
    assert_eq!(path, PathBuf::from("/usr/bin/code"));
    assert_eq!(kept, args);
}

#[test]
fn located_wraps_the_error_of_the_search() {
    let error = located(Err(WhichError::CannotCanonicalize), Vec::new()).unwrap_err();
    assert!(matches!(error, Error::Which(WhichError::CannotCanonicalize)));
    assert_eq!(error.message(), "cannot canonicalize path");
    let error = located(Err(WhichError::CannotFindBinaryPath), Vec::new()).unwrap_err();
    assert_eq!(error.message(), "cannot find binary path");
}

#[test]
fn new_launch_holds_the_arguments_and_then_the_file() {
    let args = vec![String::from("--wait"), String::from("caf\u{e9}")];
    let file = NativeString::from_bytes(vec![0x2f, 0x74, 0xff]);
    let launch = Launch::new(PathBuf::from("/usr/bin/code"), &args, file.clone(), false);
    assert_eq!(launch.program, PathBuf::from("/usr/bin/code"));
    assert_eq!(
        launch.args,
        [
            NativeString::from_str("--wait"),
            NativeString::from_bytes(vec![0x63, 0x61, 0x66, 0xc3, 0xa9]),
            file
        ]
    );
    assert!(!launch.wait);
    let bare = Launch::new(PathBuf::from("vi"), &Vec::new(), NativeString::from_str("a"), true);
    assert_eq!(bare.args, [NativeString::from_str("a")]);
    assert!(bare.wait);
}

#[test]
fn launch_of_starts_what_the_search_found() {
    let found = Ok((PathBuf::from("/usr/bin/code"), vec![String::from("--wait")]));
    let file = NativeString::from_str("notes.txt");
    let launch = launch_of(found, file.clone(), true).unwrap();
    assert_eq!(launch.program, PathBuf::from("/usr/bin/code"));
    assert_eq!(launch.args, [NativeString::from_str("--wait"), file]);
    assert!(launch.wait);
}

#[test]
fn launch_of_starts_nothing_where_the_search_failed() {
    let file = NativeString::from_str("notes.txt");
    let failed = located(Err(WhichError::CannotFindBinaryPath), Vec::new());
    let error = launch_of(failed, file.clone(), true).unwrap_err();
    assert!(matches!(error, Error::Which(WhichError::CannotFindBinaryPath)));
    let failed = located(Err(WhichError::CannotGetCurrentDirAndPathListEmpty), Vec::new());
    let error = launch_of(failed, file, false).unwrap_err();
    assert_eq!(
        error.message(),
        "no path to search and provided name is not an absolute path"
    );
}

fn launch(wait: bool) -> Launch {
    Launch {
        program: PathBuf::from("/usr/bin/vi"),
        args: vec![NativeString::from_str("notes.txt")],
        wait,
    }
}

#[test]
fn started_process_is_waited_for_only_on_request() {
    assert_eq!(launch(true).after_spawn(Ok(())).unwrap(), Next::Wait);
    assert_eq!(launch(false).after_spawn(Ok(())).unwrap(), Next::Done);
}

#[test]
fn process_that_does_not_start_is_an_error() {
    for wait in [true, false] {
        let error = launch(wait).after_spawn(Err(failure())).unwrap_err();
        assert!(matches!(error, Error::Io(_)));
        assert_eq!(error.message(), "no such process");
    }
}

#[test]
fn wait_that_fails_is_an_error() {
    assert!(Launch::after_wait(Ok(())).is_ok());
    let error = Launch::after_wait(Err(failure())).unwrap_err();
    assert!(matches!(error, Error::Io(_)));
    assert_eq!(error.message(), "no such process");
}
