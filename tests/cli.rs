use splash_launcher::cli::{target_path, UsageError};

#[test]
fn no_argument_is_a_usage_error() {
    assert_eq!(target_path(&vec!["splash_launcher.exe".to_string()]), Err(UsageError));
    assert_eq!(target_path(&vec![]), Err(UsageError));
}

#[test]
fn first_argument_is_the_program() {
    let args = vec!["splash_launcher.exe".to_string(), "notepad.exe".to_string(), "x".to_string()];
    assert_eq!(target_path(&args), Ok("notepad.exe".to_string()));
}
