use custom_shell::alias::AliasManager;

#[test]
fn unknown_token_resolves_to_itself() {
    let aliases = AliasManager::new();
    assert_eq!(aliases.expand_alias("ls"), "ls");
    assert_eq!(aliases.expand_alias(""), "");
}

#[test]
fn added_alias_is_resolved() {
    let mut aliases = AliasManager::new();
    aliases.add_alias("ll", "ls -la");
    assert_eq!(aliases.expand_alias("ll"), "ls -la");
    assert_eq!(aliases.expand_alias("ls"), "ls");
}

#[test]
fn adding_again_overwrites() {
    let mut aliases = AliasManager::new();
    aliases.add_alias("ll", "ls -la");
    aliases.add_alias("ll", "ls -l");
    assert_eq!(aliases.expand_alias("ll"), "ls -l");
}

#[test]
fn removed_alias_resolves_to_itself_again() {
    let mut aliases = AliasManager::new();
    aliases.add_alias("ll", "ls -la");
    aliases.remove_alias("ll");
    assert_eq!(aliases.expand_alias("ll"), "ll");
}

#[test]
fn removing_an_unknown_alias_changes_nothing() {
    let mut aliases = AliasManager::new();
    aliases.add_alias("ll", "ls -la");
    aliases.remove_alias("la");
    assert_eq!(aliases.expand_alias("ll"), "ls -la");
    assert_eq!(aliases.expand_alias("la"), "la");
}

#[test]
fn expansion_is_not_repeated() {
    let mut aliases = AliasManager::new();
    aliases.add_alias("a", "b");
    aliases.add_alias("b", "c");
    assert_eq!(aliases.expand_alias("a"), "b");
    assert_eq!(aliases.expand_alias("b"), "c");
}

#[test]
fn only_the_exact_name_matches() {
    let mut aliases = AliasManager::new();
    aliases.add_alias("ll", "ls -la");
    assert_eq!(aliases.expand_alias("ll "), "ll ");
    assert_eq!(aliases.expand_alias("LL"), "LL");
    assert_eq!(aliases.expand_alias("l"), "l");
}
