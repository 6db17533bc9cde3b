//! Shell completion scripts: which shells are known, how a shell is named on
//! the command line or found from the login shell, and the script and its
//! install location for each.
use vstd::prelude::*;
use vstd::utf8::is_ascii_chars;
use crate::text::{ascii_lowercase, contains, join, occurs_at, contains_str, str_eq, to_lowercase, unicode_lowercase};

verus! {

/// The completion script for Bash.
pub const BASH_COMPLETION: &'static str = r#"_spellbook_completions() {
    local cur prev opts
    COMPREPLY=()
    cur="${COMP_WORDS[COMP_CWORD]}"
    prev="${COMP_WORDS[COMP_CWORD-1]}"
    
    local commands="serve list config daemon switch stop status logs completions"
    local config_commands="create"
    local shells="bash zsh fish"
    
    case "${COMP_CWORD}" in
        1)
            COMPREPLY=( $(compgen -W "${commands}" -- "${cur}") )
            ;;
        2)
            case "${prev}" in
                config)
                    COMPREPLY=( $(compgen -W "${config_commands}" -- "${cur}") )
                    ;;
                completions)
                    COMPREPLY=( $(compgen -W "${shells} install" -- "${cur}") )
                    ;;
                serve|daemon|switch)
                    local models=$(spellbook list 2>/dev/null)
                    COMPREPLY=( $(compgen -W "${models}" -- "${cur}") )
                    ;;
                *)
                    COMPREPLY=()
                    ;;
            esac
            ;;
        *)
            COMPREPLY=()
            ;;
    esac
}

complete -F _spellbook_completions spellbook
"#;

/// The completion script for Zsh.
pub const ZSH_COMPLETION: &'static str = r#"#compdef spellbook

_spellbook() {
    local line
    local -a cmd subcmds

    _arguments -C \
        '1: :->command' \
        '2: :->subcommand' \
        '*:: :->args' && return 0

    case "$line[1]" in
        command)
            local commands=(
                'serve:Run a model in foreground'
                'list:List available models'
                'config:Config management'
                'daemon:Start daemon with model'
                'switch:Switch daemon to new model'
                'stop:Stop the daemon'
                'status:Check daemon and current model'
                'logs:View daemon logs'
                'completions:Shell completion scripts'
            )
            _describe -t commands 'spellbook command' commands
            ;;
        subcommand)
            case "$line[1]" in
                config)
                    local config_cmds=(
                        'create:Create default config'
                    )
                    _describe -t config_cmds 'config command' config_cmds
                    ;;
                completions)
                    local shells=(bash zsh fish install)
                    _describe -t shells 'shell or install' shells
                    ;;
                serve|daemon|switch)
                    local models=(${(f)"$(spellbook list 2>/dev/null)"})
                    _describe -t models 'available model' models
                    ;;
            esac
            ;;
    esac
}

_spellbook "$@"
"#;

/// The completion script for Fish.
pub const FISH_COMPLETION: &'static str = r#"complete -c spellbook -n "__fish_use_subcommand" -a "serve" -d "Run a model in foreground"
complete -c spellbook -n "__fish_use_subcommand" -a "list" -d "List available models"
complete -c spellbook -n "__fish_use_subcommand" -a "config" -d "Config management"
complete -c spellbook -n "__fish_use_subcommand" -a "daemon" -d "Start daemon with model"
complete -c spellbook -n "__fish_use_subcommand" -a "switch" -d "Switch daemon to new model"
complete -c spellbook -n "__fish_use_subcommand" -a "stop" -d "Stop the daemon"
complete -c spellbook -n "__fish_use_subcommand" -a "status" -d "Check daemon and current model"
complete -c spellbook -n "__fish_use_subcommand" -a "logs" -d "View daemon logs"
complete -c spellbook -n "__fish_use_subcommand" -a "completions" -d "Shell completion scripts"

complete -c spellbook -n "__fish_seen_subcommand_from config" -a "create" -d "Create default config"
complete -c spellbook -n "__fish_seen_subcommand_from completions" -a "bash zsh fish install"

complete -c spellbook -n "__fish_seen_subcommand_from serve" -a "(spellbook list)" -d "Model name"
complete -c spellbook -n "__fish_seen_subcommand_from daemon" -a "(spellbook list)" -d "Model name"
complete -c spellbook -n "__fish_seen_subcommand_from switch" -a "(spellbook list)" -d "Model name"
"#;

/// A shell that completion scripts are written for.
#[derive(Debug, Clone, Copy, PartialEq, Eq, Structural)]
pub enum Shell {
    Bash,
    Zsh,
    Fish,
}

/// The shell of a lower-case name: `bash`, `zsh` or `fish`.
pub open spec fn shell_of_name(name: Seq<char>) -> Option<Shell> {
    if name == "bash"@ {
        Some(Shell::Bash)
    } else if name == "zsh"@ {
        Some(Shell::Zsh)
    } else if name == "fish"@ {
        Some(Shell::Fish)
    } else {
        None
    }
}

/// The shell that a lower-case login shell path names: the first of `bash`,
/// `zsh` and `fish` that occurs in it.
pub open spec fn shell_in_path(path: Seq<char>) -> Option<Shell> {
    if contains(path, "bash"@) {
        Some(Shell::Bash)
    } else if contains(path, "zsh"@) {
        Some(Shell::Zsh)
    } else if contains(path, "fish"@) {
        Some(Shell::Fish)
    } else {
        None
    }
}

/// The completion script of a shell.
pub open spec fn completion_script(shell: Shell) -> Seq<char> {
    match shell {
        Shell::Bash => BASH_COMPLETION@,
        Shell::Zsh => ZSH_COMPLETION@,
        Shell::Fish => FISH_COMPLETION@,
    }
}

/// The directory, relative to the home directory, where a shell looks for
/// completion scripts, one path component after another.
pub open spec fn completion_dir_spec(shell: Shell) -> Seq<Seq<char>> {
    match shell {
        Shell::Bash => seq![".local"@, "share"@, "bash-completion"@, "completions"@],
        Shell::Zsh => seq![".zsh"@, "completions"@],
        Shell::Fish => seq![".config"@, "fish"@, "completions"@],
    }
}

/// The name of the completion file of a shell.
pub open spec fn filename_spec(shell: Shell) -> Seq<char> {
    match shell {
        Shell::Bash => "spellbook"@,
        Shell::Zsh => "_spellbook"@,
        Shell::Fish => "spellbook.fish"@,
    }
}

/// The name under which a shell is shown to the user.
pub open spec fn display_name_spec(shell: Shell) -> Seq<char> {
    match shell {
        Shell::Bash => "Bash"@,
        Shell::Zsh => "Zsh"@,
        Shell::Fish => "Fish"@,
    }
}

/// The lines that tell the user how to enable installed completions.
pub open spec fn install_notes_spec(shell: Shell) -> Seq<Seq<char>> {
    match shell {
        Shell::Bash => seq![
            "Ensure ~/.local/share/bash-completion/completions is in your $PATH or source it manually"@,
        ],
        Shell::Zsh => seq![
            "Add to your ~/.zshrc:"@,
            "  fpath+=~/.zsh/completions"@,
            "  autoload -U compinit && compinit"@,
        ],
        Shell::Fish => seq![
            "Fish will automatically pick up completions from ~/.config/fish/completions/"@,
        ],
    }
}

/// The views of a list of static texts.
pub open spec fn strs_view(v: Seq<&'static str>) -> Seq<Seq<char>> {
    v.map_values(|s: &'static str| s@)
}

impl Shell {
    /// The shell named by `s`, whatever its case: `bash`, `zsh` or `fish`
    /// once put in lower case.
    pub fn from_str(s: &str) -> (r: Option<Self>)
        ensures
            r == shell_of_name(unicode_lowercase(s@)),
            is_ascii_chars(s@) ==> r == shell_of_name(ascii_lowercase(s@)),
    {
        let lower = to_lowercase(s);
        Shell::from_lowercase_name(lower.as_str())
    }

    /// The shell of a name already in lower case.
    pub fn from_lowercase_name(name: &str) -> (r: Option<Self>)
        ensures
            r == shell_of_name(name@),
    {
        if str_eq(name, "bash") {
            Some(Shell::Bash)
        } else if str_eq(name, "zsh") {
            Some(Shell::Zsh)
        } else if str_eq(name, "fish") {
            Some(Shell::Fish)
        } else {
            None
        }
    }

    /// The shell that the value of `$SHELL` names, whatever its case.
    pub fn from_login_shell(path: &str) -> (r: Option<Self>)
        ensures
            r == shell_in_path(unicode_lowercase(path@)),
            is_ascii_chars(path@) ==> r == shell_in_path(ascii_lowercase(path@)),
    {
        let lower = to_lowercase(path);
        Shell::from_lowercase_path(lower.as_str())
    }

    /// The shell that a login shell path in lower case names.
    pub fn from_lowercase_path(path: &str) -> (r: Option<Self>)
        ensures
            r == shell_in_path(path@),
    {
        if contains_str(path, "bash") {
            Some(Shell::Bash)
        } else if contains_str(path, "zsh") {
            Some(Shell::Zsh)
        } else if contains_str(path, "fish") {
            Some(Shell::Fish)
        } else {
            None
        }
    }

    /// The completion directory of the shell, relative to the home directory,
    /// one path component after another.
    pub fn completion_dir(&self) -> (r: Vec<&'static str>)
        ensures
            strs_view(r@) == completion_dir_spec(*self),
    {
        let r = match self {
            Shell::Bash => vec![".local", "share", "bash-completion", "completions"],
            Shell::Zsh => vec![".zsh", "completions"],
            Shell::Fish => vec![".config", "fish", "completions"],
        };
        assert(strs_view(r@) =~= completion_dir_spec(*self));
        r
    }

    /// The name of the shell's completion file.
    pub fn filename(&self) -> (r: &'static str)
        ensures
            r@ == filename_spec(*self),
    {
        match self {
            Shell::Bash => "spellbook",
            Shell::Zsh => "_spellbook",
            Shell::Fish => "spellbook.fish",
        }
    }

    /// The name under which the shell is shown to the user.
    pub fn display_name(&self) -> (r: &'static str)
        ensures
            r@ == display_name_spec(*self),
    {
        match self {
            Shell::Bash => "Bash",
            Shell::Zsh => "Zsh",
            Shell::Fish => "Fish",
        }
    }

    /// The lines that tell the user how to enable the installed completions.
    pub fn install_notes(&self) -> (r: Vec<&'static str>)
        ensures
            strs_view(r@) == install_notes_spec(*self),
    {
        let r = match self {
            Shell::Bash => vec![
                "Ensure ~/.local/share/bash-completion/completions is in your $PATH or source it manually",
            ],
            Shell::Zsh => vec![
                "Add to your ~/.zshrc:",
                "  fpath+=~/.zsh/completions",
                "  autoload -U compinit && compinit",
            ],
            Shell::Fish => vec![
                "Fish will automatically pick up completions from ~/.config/fish/completions/",
            ],
        };
        assert(strs_view(r@) =~= install_notes_spec(*self));
        r
    }
}

/// The Bash completion script.
pub fn generate_bash_completion() -> (r: String)
    ensures
        r@ == BASH_COMPLETION@,
{
    String::from_str(BASH_COMPLETION)
}

/// The Zsh completion script.
pub fn generate_zsh_completion() -> (r: String)
    ensures
        r@ == ZSH_COMPLETION@,
{
    String::from_str(ZSH_COMPLETION)
}

/// The Fish completion script.
pub fn generate_fish_completion() -> (r: String)
    ensures
        r@ == FISH_COMPLETION@,
{
    String::from_str(FISH_COMPLETION)
}

/// The completion script of `shell`.
pub fn generate(shell: &Shell) -> (r: String)
    ensures
        r@ == completion_script(*shell),
{
    match shell {
        Shell::Bash => generate_bash_completion(),
        Shell::Zsh => generate_zsh_completion(),
        Shell::Fish => generate_fish_completion(),
    }
}

/// What the argument of the `completions` command asks for.
#[derive(Debug, Clone, Copy, PartialEq, Eq, Structural)]
pub enum CompletionsTarget {
    /// Detect the login shell and install its script.
    Install,
    /// Print the script of this shell.
    Print(Shell),
    /// A name that is neither `install` nor a known shell.
    Unknown,
}

/// Reads the argument of the `completions` command: `install`, or a shell
/// name in any case.
pub fn completions_target(arg: &str) -> (r: CompletionsTarget)
    ensures
        arg@ == "install"@ ==> r == CompletionsTarget::Install,
        arg@ != "install"@ ==> r == match shell_of_name(unicode_lowercase(arg@)) {
            Some(sh) => CompletionsTarget::Print(sh),
            None => CompletionsTarget::Unknown,
        },
{
    if str_eq(arg, "install") {
        CompletionsTarget::Install
    } else {
        match Shell::from_str(arg) {
            Some(sh) => CompletionsTarget::Print(sh),
            None => CompletionsTarget::Unknown,
        }
    }
}

/// The commands of the command line, each of which the completion scripts
/// offer as the first word.
pub open spec fn cli_commands() -> Seq<Seq<char>> {
    seq!["serve"@, "list"@, "config"@, "daemon"@, "switch"@, "stop"@, "status"@, "logs"@, "completions"@]
}

/// The shell names that the completion scripts offer after `completions`.
pub open spec fn offered_shell_names() -> Seq<Seq<char>> {
    seq!["bash"@, "zsh"@, "fish"@]
}

/// The candidates that the completion scripts offer after `completions`:
/// the shell names and `install`.
pub open spec fn completions_candidates() -> Seq<Seq<char>> {
    offered_shell_names().push("install"@)
}

/// What the completion script of `shell` says of the first word: Bash lists
/// every command in one variable that it offers at the first position; Zsh
/// and Fish give one entry per command.
pub open spec fn offers_commands(shell: Shell) -> bool {
    let t = completion_script(shell);
    match shell {
        Shell::Bash => {
            &&& contains(t, "local commands=\""@ + join(cli_commands(), " "@) + "\""@)
            &&& contains(t, "1)\n            COMPREPLY=( $(compgen -W \"${commands}\" -- \"${cur}\") )"@)
        },
        Shell::Zsh => forall|i: int|
            0 <= i < cli_commands().len() ==> contains(t, "'"@ + #[trigger] cli_commands()[i] + ":"@),
        Shell::Fish => forall|i: int|
            0 <= i < cli_commands().len() ==> contains(
                t,
                "-n \"__fish_use_subcommand\" -a \""@ + #[trigger] cli_commands()[i] + "\""@,
            ),
    }
}

/// What the completion script of `shell` says after `completions` and after
/// `config`: the delimited list of candidates is the shell names and
/// `install`, and `create` is the only candidate after `config`.
pub open spec fn offers_arguments(shell: Shell) -> bool {
    let t = completion_script(shell);
    match shell {
        Shell::Bash => {
            &&& contains(t, "local shells=\""@ + join(offered_shell_names(), " "@) + "\""@)
            &&& contains(t, "completions)\n                    COMPREPLY=( $(compgen -W \"${shells} install\" -- \"${cur}\") )"@)
            &&& contains(t, "local config_commands=\"create\""@)
            &&& contains(t, "config)\n                    COMPREPLY=( $(compgen -W \"${config_commands}\" -- \"${cur}\") )"@)
        },
        Shell::Zsh => {
            &&& contains(t, "local shells=("@ + join(completions_candidates(), " "@) + ")"@)
            &&& contains(t, "'create:Create default config'"@)
        },
        Shell::Fish => {
            &&& contains(
                t,
                "__fish_seen_subcommand_from completions\" -a \""@ + join(completions_candidates(), " "@)
                    + "\""@,
            )
            &&& contains(t, "__fish_seen_subcommand_from config\" -a \"create\""@)
        },
    }
}

/// Every completion script offers every command of the command line as the
/// first word; after `completions` it offers the names `bash`, `zsh` and
/// `fish` and the word `install`, and after `config` only `create`.
pub proof fn lemma_scripts_offer_candidates(shell: Shell)
    ensures
        offers_commands(shell),
        offers_arguments(shell),
{
    reveal_with_fuel(join, 10);
    match shell {
        Shell::Bash => {
            reveal_strlit(r#"_spellbook_completions() {
    local cur prev opts
    COMPREPLY=()
    cur="${COMP_WORDS[COMP_CWORD]}"
    prev="${COMP_WORDS[COMP_CWORD-1]}"
    
    local commands="serve list config daemon switch stop status logs completions"
    local config_commands="create"
    local shells="bash zsh fish"
    
    case "${COMP_CWORD}" in
        1)
            COMPREPLY=( $(compgen -W "${commands}" -- "${cur}") )
            ;;
        2)
            case "${prev}" in
                config)
                    COMPREPLY=( $(compgen -W "${config_commands}" -- "${cur}") )
                    ;;
                completions)
                    COMPREPLY=( $(compgen -W "${shells} install" -- "${cur}") )
                    ;;
                serve|daemon|switch)
                    local models=$(spellbook list 2>/dev/null)
                    COMPREPLY=( $(compgen -W "${models}" -- "${cur}") )
                    ;;
                *)
                    COMPREPLY=()
                    ;;
            esac
            ;;
        *)
            COMPREPLY=()
            ;;
    esac
}

complete -F _spellbook_completions spellbook
"#);
            reveal_strlit("local commands=\"");
            reveal_strlit("\"");
            reveal_strlit(" ");
            reveal_strlit("local shells=\"");
            reveal_strlit("local shells=(");
            reveal_strlit(")");
            reveal_strlit("install");
            reveal_strlit("bash");
            reveal_strlit("zsh");
            reveal_strlit("fish");
            reveal_strlit("'");
            reveal_strlit(":");
            reveal_strlit("-n \"__fish_use_subcommand\" -a \"");
            reveal_strlit("__fish_seen_subcommand_from completions\" -a \"");
            reveal_strlit("serve");
            reveal_strlit("list");
            reveal_strlit("config");
            reveal_strlit("daemon");
            reveal_strlit("switch");
            reveal_strlit("stop");
            reveal_strlit("status");
            reveal_strlit("logs");
            reveal_strlit("completions");
            reveal_strlit("1)\n            COMPREPLY=( $(compgen -W \"${commands}\" -- \"${cur}\") )");
            reveal_strlit("completions)\n                    COMPREPLY=( $(compgen -W \"${shells} install\" -- \"${cur}\") )");
            reveal_strlit("local config_commands=\"create\"");
            reveal_strlit("config)\n                    COMPREPLY=( $(compgen -W \"${config_commands}\" -- \"${cur}\") )");
            let t = BASH_COMPLETION@;
            reveal_strlit("serve list config daemon switch stop status logs completions");
            reveal_strlit("bash zsh fish");
            assert(join(cli_commands(), " "@) =~= "serve list config daemon switch stop status logs completions"@);
            assert(join(offered_shell_names(), " "@) =~= "bash zsh fish"@);
            assert(t.subrange(152, 229) =~= ("local commands=\""@ + join(cli_commands(), " "@) + "\""@));
            assert(occurs_at(t, ("local commands=\""@ + join(cli_commands(), " "@) + "\""@), 152));
            assert(t.subrange(339, 407) =~= "1)\n            COMPREPLY=( $(compgen -W \"${commands}\" -- \"${cur}\") )"@);
            assert(occurs_at(t, "1)\n            COMPREPLY=( $(compgen -W \"${commands}\" -- \"${cur}\") )"@, 339));
            assert(t.subrange(269, 297) =~= ("local shells=\""@ + join(offered_shell_names(), " "@) + "\""@));
            assert(occurs_at(t, ("local shells=\""@ + join(offered_shell_names(), " "@) + "\""@), 269));
            assert(t.subrange(608, 700) =~= "completions)\n                    COMPREPLY=( $(compgen -W \"${shells} install\" -- \"${cur}\") )"@);
            assert(occurs_at(t, "completions)\n                    COMPREPLY=( $(compgen -W \"${shells} install\" -- \"${cur}\") )"@, 608));
            assert(t.subrange(234, 264) =~= "local config_commands=\"create\""@);
            assert(occurs_at(t, "local config_commands=\"create\""@, 234));
            assert(t.subrange(480, 568) =~= "config)\n                    COMPREPLY=( $(compgen -W \"${config_commands}\" -- \"${cur}\") )"@);
            assert(occurs_at(t, "config)\n                    COMPREPLY=( $(compgen -W \"${config_commands}\" -- \"${cur}\") )"@, 480));
        },
        Shell::Zsh => {
            reveal_strlit(r#"#compdef spellbook

_spellbook() {
    local line
    local -a cmd subcmds

    _arguments -C \
        '1: :->command' \
        '2: :->subcommand' \
        '*:: :->args' && return 0

    case "$line[1]" in
        command)
            local commands=(
                'serve:Run a model in foreground'
                'list:List available models'
                'config:Config management'
                'daemon:Start daemon with model'
                'switch:Switch daemon to new model'
                'stop:Stop the daemon'
                'status:Check daemon and current model'
                'logs:View daemon logs'
                'completions:Shell completion scripts'
            )
            _describe -t commands 'spellbook command' commands
            ;;
        subcommand)
            case "$line[1]" in
                config)
                    local config_cmds=(
                        'create:Create default config'
                    )
                    _describe -t config_cmds 'config command' config_cmds
                    ;;
                completions)
                    local shells=(bash zsh fish install)
                    _describe -t shells 'shell or install' shells
                    ;;
                serve|daemon|switch)
                    local models=(${(f)"$(spellbook list 2>/dev/null)"})
                    _describe -t models 'available model' models
                    ;;
            esac
            ;;
    esac
}

_spellbook "$@"
"#);
            reveal_strlit("local commands=\"");
            reveal_strlit("\"");
            reveal_strlit(" ");
            reveal_strlit("local shells=\"");
            reveal_strlit("local shells=(");
            reveal_strlit(")");
            reveal_strlit("install");
            reveal_strlit("bash");
            reveal_strlit("zsh");
            reveal_strlit("fish");
            reveal_strlit("'");
            reveal_strlit(":");
            reveal_strlit("-n \"__fish_use_subcommand\" -a \"");
            reveal_strlit("__fish_seen_subcommand_from completions\" -a \"");
            reveal_strlit("serve");
            reveal_strlit("list");
            reveal_strlit("config");
            reveal_strlit("daemon");
            reveal_strlit("switch");
            reveal_strlit("stop");
            reveal_strlit("status");
            reveal_strlit("logs");
            reveal_strlit("completions");
            reveal_strlit("bash zsh fish install");
            reveal_strlit("'create:Create default config'");
            let t = ZSH_COMPLETION@;
            assert(join(completions_candidates(), " "@) =~= "bash zsh fish install"@);
            assert(t.subrange(271, 278) =~= ("'"@ + cli_commands()[0] + ":"@));
            assert(occurs_at(t, ("'"@ + cli_commands()[0] + ":"@), 271));
            assert(t.subrange(321, 327) =~= ("'"@ + cli_commands()[1] + ":"@));
            assert(occurs_at(t, ("'"@ + cli_commands()[1] + ":"@), 321));
            assert(t.subrange(366, 374) =~= ("'"@ + cli_commands()[2] + ":"@));
            assert(occurs_at(t, ("'"@ + cli_commands()[2] + ":"@), 366));
            assert(t.subrange(409, 417) =~= ("'"@ + cli_commands()[3] + ":"@));
            assert(occurs_at(t, ("'"@ + cli_commands()[3] + ":"@), 409));
            assert(t.subrange(458, 466) =~= ("'"@ + cli_commands()[4] + ":"@));
            assert(occurs_at(t, ("'"@ + cli_commands()[4] + ":"@), 458));
            assert(t.subrange(510, 516) =~= ("'"@ + cli_commands()[5] + ":"@));
            assert(occurs_at(t, ("'"@ + cli_commands()[5] + ":"@), 510));
            assert(t.subrange(549, 557) =~= ("'"@ + cli_commands()[6] + ":"@));
            assert(occurs_at(t, ("'"@ + cli_commands()[6] + ":"@), 549));
            assert(t.subrange(605, 611) =~= ("'"@ + cli_commands()[7] + ":"@));
            assert(occurs_at(t, ("'"@ + cli_commands()[7] + ":"@), 605));
            assert(t.subrange(645, 658) =~= ("'"@ + cli_commands()[8] + ":"@));
            assert(occurs_at(t, ("'"@ + cli_commands()[8] + ":"@), 645));
            assert(t.subrange(1114, 1150) =~= ("local shells=("@ + join(completions_candidates(), " "@) + ")"@));
            assert(occurs_at(t, ("local shells=("@ + join(completions_candidates(), " "@) + ")"@), 1114));
            assert(t.subrange(915, 945) =~= "'create:Create default config'"@);
            assert(occurs_at(t, "'create:Create default config'"@, 915));
        },
        Shell::Fish => {
            reveal_strlit(r#"complete -c spellbook -n "__fish_use_subcommand" -a "serve" -d "Run a model in foreground"
complete -c spellbook -n "__fish_use_subcommand" -a "list" -d "List available models"
complete -c spellbook -n "__fish_use_subcommand" -a "config" -d "Config management"
complete -c spellbook -n "__fish_use_subcommand" -a "daemon" -d "Start daemon with model"
complete -c spellbook -n "__fish_use_subcommand" -a "switch" -d "Switch daemon to new model"
complete -c spellbook -n "__fish_use_subcommand" -a "stop" -d "Stop the daemon"
complete -c spellbook -n "__fish_use_subcommand" -a "status" -d "Check daemon and current model"
complete -c spellbook -n "__fish_use_subcommand" -a "logs" -d "View daemon logs"
complete -c spellbook -n "__fish_use_subcommand" -a "completions" -d "Shell completion scripts"

complete -c spellbook -n "__fish_seen_subcommand_from config" -a "create" -d "Create default config"
complete -c spellbook -n "__fish_seen_subcommand_from completions" -a "bash zsh fish install"

complete -c spellbook -n "__fish_seen_subcommand_from serve" -a "(spellbook list)" -d "Model name"
complete -c spellbook -n "__fish_seen_subcommand_from daemon" -a "(spellbook list)" -d "Model name"
complete -c spellbook -n "__fish_seen_subcommand_from switch" -a "(spellbook list)" -d "Model name"
"#);
            reveal_strlit("local commands=\"");
            reveal_strlit("\"");
            reveal_strlit(" ");
            reveal_strlit("local shells=\"");
            reveal_strlit("local shells=(");
            reveal_strlit(")");
            reveal_strlit("install");
            reveal_strlit("bash");
            reveal_strlit("zsh");
            reveal_strlit("fish");
            reveal_strlit("'");
            reveal_strlit(":");
            reveal_strlit("-n \"__fish_use_subcommand\" -a \"");
            reveal_strlit("__fish_seen_subcommand_from completions\" -a \"");
            reveal_strlit("serve");
            reveal_strlit("list");
            reveal_strlit("config");
            reveal_strlit("daemon");
            reveal_strlit("switch");
            reveal_strlit("stop");
            reveal_strlit("status");
            reveal_strlit("logs");
            reveal_strlit("completions");
            reveal_strlit("bash zsh fish install");
            reveal_strlit("__fish_seen_subcommand_from config\" -a \"create\"");
            let t = FISH_COMPLETION@;
            assert(join(completions_candidates(), " "@) =~= "bash zsh fish install"@);
            assert(t.subrange(22, 59) =~= ("-n \"__fish_use_subcommand\" -a \""@ + cli_commands()[0] + "\""@));
            assert(occurs_at(t, ("-n \"__fish_use_subcommand\" -a \""@ + cli_commands()[0] + "\""@), 22));
            assert(t.subrange(113, 149) =~= ("-n \"__fish_use_subcommand\" -a \""@ + cli_commands()[1] + "\""@));
            assert(occurs_at(t, ("-n \"__fish_use_subcommand\" -a \""@ + cli_commands()[1] + "\""@), 113));
            assert(t.subrange(199, 237) =~= ("-n \"__fish_use_subcommand\" -a \""@ + cli_commands()[2] + "\""@));
            assert(occurs_at(t, ("-n \"__fish_use_subcommand\" -a \""@ + cli_commands()[2] + "\""@), 199));
            assert(t.subrange(283, 321) =~= ("-n \"__fish_use_subcommand\" -a \""@ + cli_commands()[3] + "\""@));
            assert(occurs_at(t, ("-n \"__fish_use_subcommand\" -a \""@ + cli_commands()[3] + "\""@), 283));
            assert(t.subrange(373, 411) =~= ("-n \"__fish_use_subcommand\" -a \""@ + cli_commands()[4] + "\""@));
            assert(occurs_at(t, ("-n \"__fish_use_subcommand\" -a \""@ + cli_commands()[4] + "\""@), 373));
            assert(t.subrange(466, 502) =~= ("-n \"__fish_use_subcommand\" -a \""@ + cli_commands()[5] + "\""@));
            assert(occurs_at(t, ("-n \"__fish_use_subcommand\" -a \""@ + cli_commands()[5] + "\""@), 466));
            assert(t.subrange(546, 584) =~= ("-n \"__fish_use_subcommand\" -a \""@ + cli_commands()[6] + "\""@));
            assert(occurs_at(t, ("-n \"__fish_use_subcommand\" -a \""@ + cli_commands()[6] + "\""@), 546));
            assert(t.subrange(643, 679) =~= ("-n \"__fish_use_subcommand\" -a \""@ + cli_commands()[7] + "\""@));
            assert(occurs_at(t, ("-n \"__fish_use_subcommand\" -a \""@ + cli_commands()[7] + "\""@), 643));
            assert(t.subrange(724, 767) =~= ("-n \"__fish_use_subcommand\" -a \""@ + cli_commands()[8] + "\""@));
            assert(occurs_at(t, ("-n \"__fish_use_subcommand\" -a \""@ + cli_commands()[8] + "\""@), 724));
            assert(t.subrange(926, 993) =~= ("__fish_seen_subcommand_from completions\" -a \""@ + join(completions_candidates(), " "@) + "\""@));
            assert(occurs_at(t, ("__fish_seen_subcommand_from completions\" -a \""@ + join(completions_candidates(), " "@) + "\""@), 926));
            assert(t.subrange(825, 872) =~= "__fish_seen_subcommand_from config\" -a \"create\""@);
            assert(occurs_at(t, "__fish_seen_subcommand_from config\" -a \"create\""@, 825));
        },
    }
}

/// Each shell name the scripts offer is read by `from_str` as a shell (it
/// is ASCII and already in lower case), and `install` is what the
/// `completions` command reads as the request to install.
pub proof fn lemma_offered_shells_read_back()
    ensures
        forall|i: int|
            0 <= i < offered_shell_names().len() ==> is_ascii_chars(
                #[trigger] offered_shell_names()[i],
            ) && shell_of_name(ascii_lowercase(offered_shell_names()[i])) is Some,
{
    reveal_strlit("bash");
    reveal_strlit("zsh");
    reveal_strlit("fish");
    assert(ascii_lowercase("bash"@) =~= "bash"@);
    assert(ascii_lowercase("zsh"@) =~= "zsh"@);
    assert(ascii_lowercase("fish"@) =~= "fish"@);
    assert("bash"@.len() == 4 && "zsh"@.len() == 3);
    assert("bash"@[0] == 'b');
}

/// The name under which a shell is shown reads back, through `from_str`,
/// as that shell: it is ASCII, and in lower case it is the shell's name.
pub proof fn lemma_display_name_read_back(shell: Shell)
    ensures
        is_ascii_chars(display_name_spec(shell)),
        shell_of_name(ascii_lowercase(display_name_spec(shell))) == Some(shell),
{
    reveal_strlit("Bash");
    reveal_strlit("Zsh");
    reveal_strlit("Fish");
    reveal_strlit("bash");
    reveal_strlit("zsh");
    reveal_strlit("fish");
    let n = display_name_spec(shell);
    match shell {
        Shell::Bash => {
            assert(ascii_lowercase(n) =~= "bash"@);
        },
        Shell::Zsh => {
            assert(ascii_lowercase(n) =~= "zsh"@);
            assert("bash"@.len() == 4);
        },
        Shell::Fish => {
            assert(ascii_lowercase(n) =~= "fish"@);
            assert("bash"@[0] == 'b');
            assert("zsh"@.len() == 3);
        },
    }
}

} // verus!
