use easy_template::args::{
    check_args, classify_args, ArgsError, Command, PROCESS_COPY_EXTENSION_EXIST,
    PROCESS_COPY_EXTENSION_WITHOUT, PROCESS_FAILED, PROCESS_REGISTER,
};

#[test]
fn test_check_args_register_with_value() {
    let args = vec![
        String::from("program_name"),
        String::from("-r"),
        String::from("value"),
    ];

    assert_eq!(check_args(args), PROCESS_REGISTER);
}

#[test]
fn test_check_args_register_without_value() {
    let args = vec![String::from("program_name"), String::from("-r")];

    assert_eq!(check_args(args), PROCESS_FAILED);
}

#[test]
fn test_check_args_copy_with_extension() {
    let args = vec![
        String::from("program_name"),
        String::from("-c"),
        String::from("value"),
    ];

    assert_eq!(check_args(args), PROCESS_COPY_EXTENSION_EXIST);
}

#[test]
fn test_check_args_copy_without_extension() {
    let args = vec![String::from("program_name"), String::from("-c")];

    assert_eq!(check_args(args), PROCESS_COPY_EXTENSION_WITHOUT);
}

#[test]
fn test_check_args_invalid_option() {
    let args = vec![String::from("program_name"), String::from("-x")];

    assert_eq!(check_args(args), PROCESS_FAILED);
}

fn strings(v: &[&str]) -> Vec<String> {
    v.iter().map(|s| s.to_string()).collect()
}

#[test]
fn classify_each_error() {
    assert_eq!(classify_args(&strings(&["p"])), Err(ArgsError::MissingOption));
    assert_eq!(classify_args(&strings(&[])), Err(ArgsError::MissingOption));
    assert_eq!(classify_args(&strings(&["p", "-r", "a", "b"])), Err(ArgsError::MissingValue));
    assert_eq!(classify_args(&strings(&["p", "-c", "a", "b"])), Err(ArgsError::TooManyArguments));
    assert_eq!(classify_args(&strings(&["p", "--r", "a"])), Err(ArgsError::InvalidOption));
    assert_eq!(classify_args(&strings(&["p", "r", "a"])), Err(ArgsError::InvalidOption));
}

#[test]
fn classify_each_command() {
    assert_eq!(classify_args(&strings(&["p", "-r", "f.txt"])), Ok(Command::Register));
    assert_eq!(classify_args(&strings(&["p", "-c"])), Ok(Command::CopyWithoutExtension));
    assert_eq!(classify_args(&strings(&["p", "-c", "rs"])), Ok(Command::CopyWithExtension));
}
