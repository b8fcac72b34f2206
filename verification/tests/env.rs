use custom_shell::env::{print_env_vars, set_env_var, unset_env_var};
use custom_shell::error::{Builtin, ShellError};

fn owned(items: &[&str]) -> Vec<String> {
    items.iter().map(|s| s.to_string()).collect()
}

#[test]
fn set_takes_a_name_and_a_value() {
    assert_eq!(set_env_var(&owned(&["EDITOR", "vi"])), Ok(("EDITOR".to_string(), "vi".to_string())));
}

#[test]
fn set_with_another_number_of_arguments_is_a_usage_failure() {
    let usage = Err(ShellError::Usage { builtin: Builtin::SetVar });
    assert_eq!(set_env_var(&[]), usage);
    assert_eq!(set_env_var(&owned(&["EDITOR"])), usage);
    assert_eq!(set_env_var(&owned(&["EDITOR", "vi", "x"])), usage);
}

#[test]
fn unset_takes_a_name() {
    assert_eq!(unset_env_var(&owned(&["EDITOR"])), Ok("EDITOR".to_string()));
}

#[test]
fn unset_with_another_number_of_arguments_is_a_usage_failure() {
    let usage = Err(ShellError::Usage { builtin: Builtin::UnsetVar });
    assert_eq!(unset_env_var(&[]), usage);
    assert_eq!(unset_env_var(&owned(&["A", "B"])), usage);
}

#[test]
fn env_shows_one_line_for_each_variable() {
    let vars = vec![
        ("HOME".to_string(), "/home/me".to_string()),
        ("EMPTY".to_string(), String::new()),
        ("A".to_string(), "b=c".to_string()),
    ];
    assert_eq!(print_env_vars(&vars), owned(&["HOME=/home/me", "EMPTY=", "A=b=c"]));
}

#[test]
fn env_says_so_when_there_is_no_variable() {
    assert_eq!(print_env_vars(&[]), owned(&["No environment variables are set."]));
}
