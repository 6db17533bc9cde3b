use spellbook::completions::{
    completions_target, generate, generate_bash_completion, generate_fish_completion,
    generate_zsh_completion, CompletionsTarget, Shell, BASH_COMPLETION, FISH_COMPLETION, ZSH_COMPLETION,
};

#[test]
fn from_str_accepts_names_in_any_case() {
    assert_eq!(Shell::from_str("bash"), Some(Shell::Bash));
    assert_eq!(Shell::from_str("BaSh"), Some(Shell::Bash));
    assert_eq!(Shell::from_str("ZSH"), Some(Shell::Zsh));
    assert_eq!(Shell::from_str("fish"), Some(Shell::Fish));
    assert_eq!(Shell::from_str("powershell"), None);
    assert_eq!(Shell::from_str(""), None);
    assert_eq!(Shell::from_str(" bash"), None);
}

#[test]
fn from_lowercase_name_is_exact() {
    assert_eq!(Shell::from_lowercase_name("zsh"), Some(Shell::Zsh));
    assert_eq!(Shell::from_lowercase_name("Zsh"), None);
}

#[test]
fn display_names_read_back() {
    for sh in [Shell::Bash, Shell::Zsh, Shell::Fish] {
        assert_eq!(Shell::from_str(sh.display_name()), Some(sh));
    }
}

#[test]
fn login_shell_detection() {
    assert_eq!(Shell::from_login_shell("/bin/bash"), Some(Shell::Bash));
    assert_eq!(Shell::from_login_shell("/usr/bin/ZSH"), Some(Shell::Zsh));
    assert_eq!(Shell::from_login_shell("/usr/local/bin/fish"), Some(Shell::Fish));
    assert_eq!(Shell::from_login_shell("/bin/sh"), None);
    assert_eq!(Shell::from_login_shell("/opt/zsh-with-bash"), Some(Shell::Bash));
    assert_eq!(Shell::from_lowercase_path("/BIN/BASH"), None);
}

#[test]
fn scripts_per_shell() {
    assert_eq!(generate(&Shell::Bash), BASH_COMPLETION);
    assert_eq!(generate(&Shell::Zsh), ZSH_COMPLETION);
    assert_eq!(generate(&Shell::Fish), FISH_COMPLETION);
    assert_eq!(generate_bash_completion(), BASH_COMPLETION);
    assert_eq!(generate_zsh_completion(), ZSH_COMPLETION);
    assert_eq!(generate_fish_completion(), FISH_COMPLETION);
    assert!(BASH_COMPLETION.starts_with("_spellbook_completions() {"));
    assert!(BASH_COMPLETION.ends_with("complete -F _spellbook_completions spellbook\n"));
    assert!(ZSH_COMPLETION.starts_with("#compdef spellbook\n"));
    assert!(ZSH_COMPLETION.ends_with("_spellbook \"$@\"\n"));
    assert!(FISH_COMPLETION.contains("__fish_seen_subcommand_from switch\" -a \"(spellbook list)\""));
}

#[test]
fn scripts_offer_every_command() {
    for cmd in ["serve", "list", "config", "daemon", "switch", "stop", "status", "logs", "completions"] {
        assert!(ZSH_COMPLETION.contains(&format!("'{}:", cmd)), "zsh lacks {}", cmd);
        assert!(FISH_COMPLETION.contains(&format!("-n \"__fish_use_subcommand\" -a \"{}\"", cmd)), "fish lacks {}", cmd);
    }
    assert!(BASH_COMPLETION.contains("local commands=\"serve list config daemon switch stop status logs completions\""));
}

#[test]
fn install_locations() {
    assert_eq!(Shell::Bash.filename(), "spellbook");
    assert_eq!(Shell::Zsh.filename(), "_spellbook");
    assert_eq!(Shell::Fish.filename(), "spellbook.fish");
    assert_eq!(Shell::Bash.completion_dir(), vec![".local", "share", "bash-completion", "completions"]);
    assert_eq!(Shell::Zsh.completion_dir(), vec![".zsh", "completions"]);
    assert_eq!(Shell::Fish.completion_dir(), vec![".config", "fish", "completions"]);
    assert_eq!(Shell::Zsh.install_notes().len(), 3);
    assert_eq!(Shell::Zsh.install_notes()[1], "  fpath+=~/.zsh/completions");
    assert_eq!(Shell::Bash.display_name(), "Bash");
}

#[test]
fn completions_argument() {
    assert_eq!(completions_target("install"), CompletionsTarget::Install);
    assert_eq!(completions_target("Fish"), CompletionsTarget::Print(Shell::Fish));
    assert_eq!(completions_target("nope"), CompletionsTarget::Unknown);
    assert_eq!(completions_target("INSTALL"), CompletionsTarget::Unknown);
}
