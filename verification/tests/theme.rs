use custom_shell::theme::{StyledText, Theme, Tint};

fn styled(text: &str, tint: Option<Tint>, bold: bool) -> StyledText {
    StyledText { text: text.to_string(), tint, bold, italic: false }
}

#[test]
fn prompt_is_bright_blue_and_bold() {
    assert_eq!(Theme::prompt_text(), styled("shell>", Some(Tint::BrightBlue), true));
}

#[test]
fn directory_is_bright_cyan_and_bold() {
    assert_eq!(Theme::directory_text("/tmp"), styled("/tmp", Some(Tint::BrightCyan), true));
}

#[test]
fn error_is_red_and_bold() {
    assert_eq!(Theme::error_text("oops"), styled("oops", Some(Tint::Red), true));
}

#[test]
fn command_is_green() {
    assert_eq!(Theme::command_text("ls"), styled("ls", Some(Tint::Green), false));
}

#[test]
fn output_is_white() {
    assert_eq!(Theme::output_text("done"), styled("done", Some(Tint::White), false));
}

#[test]
fn plain_text_has_no_style() {
    assert_eq!(Theme::plain_text("x"), styled("x", None, false));
}

#[test]
fn welcome_message_is_the_banner() {
    let banner = Theme::welcome_message();
    assert_eq!(banner.tint, Some(Tint::Blue));
    assert!(banner.bold);
    assert!(!banner.italic);
    let lines: Vec<&str> = banner.text.split('\n').collect();
    assert_eq!(
        lines,
        vec![
            "",
            "  ____  _          _ _ ",
            " / ___|| |__   ___| | |",
            " \\___ \\| '_ \\ / _ \\ | |",
            "  ___) | | | |  __/ | |",
            " |____/|_| |_|\\___|_|_|",
            "                       ",
            "        Custom Shell",
            "",
        ]
    );
}

#[test]
fn execution_time_is_yellow_and_italic() {
    assert_eq!(
        Theme::execution_time_text("0.042"),
        StyledText {
            text: "Execution time: 0.042 seconds".to_string(),
            tint: Some(Tint::Yellow),
            bold: false,
            italic: true,
        }
    );
}
