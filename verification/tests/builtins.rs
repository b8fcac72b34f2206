use custom_shell::builtins::{change_directory, print_working_directory};
use custom_shell::error::ShellError;
use custom_shell::theme::{StyledText, Tint};

#[test]
fn cd_goes_to_its_first_argument() {
    let args = vec!["/tmp".to_string(), "ignored".to_string()];
    assert_eq!(change_directory(&args, Some("/home/me")), Ok(Some("/tmp".to_string())));
    assert_eq!(change_directory(&args, None), Ok(Some("/tmp".to_string())));
}

#[test]
fn cd_without_argument_goes_home() {
    assert_eq!(change_directory(&[], Some("/home/me")), Ok(Some("/home/me".to_string())));
}

#[test]
fn cd_without_argument_and_home_fails() {
    assert_eq!(change_directory(&[], None), Err(ShellError::HomeNotSet));
}

#[test]
fn cd_to_the_empty_text_stays() {
    assert_eq!(change_directory(&[], Some("")), Ok(None));
    assert_eq!(change_directory(&[String::new()], Some("/home/me")), Ok(None));
}

#[test]
fn pwd_shows_the_directory() {
    assert_eq!(
        print_working_directory(Ok(Some("/usr/local".to_string()))),
        Ok(StyledText {
            text: "/usr/local".to_string(),
            tint: Some(Tint::BrightCyan),
            bold: true,
            italic: false,
        })
    );
}

#[test]
fn pwd_failures() {
    assert_eq!(print_working_directory(Ok(None)), Err(ShellError::PathNotText));
    assert_eq!(
        print_working_directory(Err("No such file or directory".to_string())),
        Err(ShellError::WorkingDirectory { reason: "No such file or directory".to_string() })
    );
}
