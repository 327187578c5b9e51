//! Shell completion support: the supported shells, where completion files
//! go and what they are called, the snippets that make shells load them,
//! and the completion scripts that include plugin commands completed by the
//! plugins themselves.
//!
//! Writing files, reading the environment and generating the static part
//! with the argument parser stand outside this library.
use vstd::prelude::*;
use crate::text::{contains, has_infix, occurs_at, owned, str_chars, str_eq};

verus! {

/// Supported shells for completion generation.
#[derive(Clone, Copy, PartialEq, Eq, Structural, Debug)]
pub enum CompletionShell {
    Bash,
    Zsh,
    Fish,
    PowerShell,
    Elvish,
}

/// The name of the completion file of `bin` for a shell.
pub open spec fn completion_filename(shell: CompletionShell, bin: Seq<char>) -> Seq<char> {
    match shell {
        CompletionShell::Bash => bin + ".bash"@,
        CompletionShell::Zsh => "_"@ + bin,
        CompletionShell::Fish => bin + ".fish"@,
        CompletionShell::PowerShell => "_"@ + bin + ".ps1"@,
        CompletionShell::Elvish => bin + ".elv"@,
    }
}

/// The completion file name for a shell.
pub fn get_completion_filename(shell: CompletionShell, bin_name: &str) -> (r: String)
    ensures
        r@ == completion_filename(shell, bin_name@),
{
    match shell {
        CompletionShell::Bash => {
            let mut r = owned(bin_name);
            r.append(".bash");
            r
        },
        CompletionShell::Zsh => {
            let mut r = owned("_");
            r.append(bin_name);
            r
        },
        CompletionShell::Fish => {
            let mut r = owned(bin_name);
            r.append(".fish");
            r
        },
        CompletionShell::PowerShell => {
            let mut r = owned("_");
            r.append(bin_name);
            r.append(".ps1");
            r
        },
        CompletionShell::Elvish => {
            let mut r = owned(bin_name);
            r.append(".elv");
            r
        },
    }
}

/// The shell that the value of `$SHELL` names, checked in this order: zsh,
/// bash, fish, PowerShell (`pwsh` or `powershell`), elvish.
pub open spec fn shell_named(shell: Seq<char>) -> Option<CompletionShell> {
    if has_infix(shell, "zsh"@) {
        Some(CompletionShell::Zsh)
    } else if has_infix(shell, "bash"@) {
        Some(CompletionShell::Bash)
    } else if has_infix(shell, "fish"@) {
        Some(CompletionShell::Fish)
    } else if has_infix(shell, "pwsh"@) || has_infix(shell, "powershell"@) {
        Some(CompletionShell::PowerShell)
    } else if has_infix(shell, "elvish"@) {
        Some(CompletionShell::Elvish)
    } else {
        None
    }
}

/// The current shell, from the value of `$SHELL` if it is set.
pub fn detect_shell(shell_var: Option<&str>) -> (r: Option<CompletionShell>)
    ensures
        match shell_var {
            Some(s) => r == shell_named(s@),
            None => r is None,
        },
{
    let s = match shell_var {
        Some(s) => str_chars(s),
        None => {
            return None;
        },
    };
    let zsh = str_chars("zsh");
    let bash = str_chars("bash");
    let fish = str_chars("fish");
    let pwsh = str_chars("pwsh");
    let powershell = str_chars("powershell");
    let elvish = str_chars("elvish");
    if contains(s.as_slice(), zsh.as_slice()) {
        Some(CompletionShell::Zsh)
    } else if contains(s.as_slice(), bash.as_slice()) {
        Some(CompletionShell::Bash)
    } else if contains(s.as_slice(), fish.as_slice()) {
        Some(CompletionShell::Fish)
    } else if contains(s.as_slice(), pwsh.as_slice()) || contains(s.as_slice(), powershell.as_slice()) {
        Some(CompletionShell::PowerShell)
    } else if contains(s.as_slice(), elvish.as_slice()) {
        Some(CompletionShell::Elvish)
    } else {
        None
    }
}

/// The name of the marker file that records that completions of `bin` were
/// set up: `.<bin>-installed`.
pub fn marker_file_name(bin_name: &str) -> (r: String)
    ensures
        r@ == "."@ + bin_name@ + "-installed"@,
{
    let mut r = owned(".");
    r.append(bin_name);
    r.append("-installed");
    r
}

/// The line that marks the completion set-up in a shell's configuration.
pub open spec fn config_marker() -> Seq<char> {
    "# ADI CLI completions"@
}

/// The snippet to add to a shell's configuration so that it loads the
/// completions written to `completion_file`; fish and the other shells need none.
pub open spec fn config_snippet(shell: CompletionShell, completion_file: Seq<char>) -> Option<Seq<char>> {
    match shell {
        CompletionShell::Zsh => Some(
            "\n# ADI CLI completions\nfpath=(~/.zfunc $fpath)\nautoload -Uz compinit && compinit\n"@,
        ),
        CompletionShell::Bash => Some(
            "\n# ADI CLI completions\n"@ + ("source \""@ + completion_file + "\""@) + "\n"@,
        ),
        _ => None,
    }
}

/// The snippet that makes a shell load its completions (see `config_snippet`).
pub fn shell_config_snippet(shell: CompletionShell, completion_file: &str) -> (r: Option<String>)
    ensures
        r.deep_view() == config_snippet(shell, completion_file@),
{
    match shell {
        CompletionShell::Zsh => Some(
            owned("\n# ADI CLI completions\nfpath=(~/.zfunc $fpath)\nautoload -Uz compinit && compinit\n"),
        ),
        CompletionShell::Bash => {
            let mut line = owned("source \"");
            line.append(completion_file);
            line.append("\"");
            let mut r = owned("\n# ADI CLI completions\n");
            r.append(line.as_str());
            r.append("\n");
            Some(r)
        },
        _ => None,
    }
}

/// Whether a shell configuration still needs the completion snippet: it
/// does not mention the completion set-up yet.
pub fn needs_config_snippet(existing_config: &str) -> (r: bool)
    ensures
        r == !has_infix(existing_config@, config_marker()),
{
    let e = str_chars(existing_config);
    let m = str_chars("# ADI CLI completions");
    !contains(e.as_slice(), m.as_slice())
}

/// A shell configuration after the completion snippet is added to it: left
/// as it is when it already mentions the completion set-up, else with the
/// snippet and a line break appended.
pub open spec fn config_with_snippet(existing: Seq<char>, snippet: Seq<char>) -> Seq<char> {
    if has_infix(existing, config_marker()) {
        existing
    } else {
        existing + snippet + seq!['\n']
    }
}

/// What to append to a shell configuration to add the completion snippet:
/// nothing when it already mentions the completion set-up, else the snippet
/// and a line break (see `config_with_snippet`).
pub fn config_addition(existing_config: &str, snippet: &str) -> (r: Option<String>)
    ensures
        match r {
            None => config_with_snippet(existing_config@, snippet@) == existing_config@,
            Some(t) => config_with_snippet(existing_config@, snippet@) == existing_config@ + t@
                && t@ == snippet@ + seq!['\n'],
        },
        r is None <==> has_infix(existing_config@, config_marker()),
{
    if needs_config_snippet(existing_config) {
        let mut t = owned(snippet);
        t.append("\n");
        proof {
            reveal_strlit("\n");
            assert(existing_config@ + snippet@ + seq!['\n'] =~= existing_config@ + t@);
        }
        Some(t)
    } else {
        None
    }
}

/// The snippet of every shell that needs one mentions the completion set-up.
pub proof fn lemma_config_snippet_marked(shell: CompletionShell, completion_file: Seq<char>)
    requires
        config_snippet(shell, completion_file) is Some,
    ensures
        has_infix(config_snippet(shell, completion_file)->0, config_marker()),
{
    reveal_strlit("# ADI CLI completions");
    reveal_strlit("\n# ADI CLI completions\nfpath=(~/.zfunc $fpath)\nautoload -Uz compinit && compinit\n");
    reveal_strlit("\n# ADI CLI completions\n");
    let s = config_snippet(shell, completion_file)->0;
    assert(s.subrange(1, 1 + config_marker().len() as int) =~= config_marker());
    assert(occurs_at(s, config_marker(), 1));
}

/// Adding the completion snippet to a shell configuration a second time
/// (with any snippet that mentions the set-up) leaves it as the first
/// addition left it.
pub proof fn lemma_config_snippet_idempotent(existing: Seq<char>, first: Seq<char>, second: Seq<char>)
    requires
        has_infix(first, config_marker()),
    ensures
        config_with_snippet(config_with_snippet(existing, first), second) == config_with_snippet(
            existing,
            first,
        ),
{
    let m = config_marker();
    if !has_infix(existing, m) {
        let after = existing + first + seq!['\n'];
        let i = choose|i: int| occurs_at(first, m, i);
        assert(after.subrange(existing.len() + i, existing.len() + i + m.len()) =~= first.subrange(
            i,
            i + m.len(),
        ));
        assert(occurs_at(after, m, existing.len() + i));
    }
}

/// Whether the completion script is the one with dynamic plugin completions:
/// for bash, zsh and fish when some plugin completes its commands itself.
pub fn uses_dynamic_script(shell: CompletionShell, dynamic_plugins: &Vec<String>) -> (r: bool)
    ensures
        r == ((shell == CompletionShell::Bash || shell == CompletionShell::Zsh || shell
            == CompletionShell::Fish) && dynamic_plugins@.len() > 0),
{
    match shell {
        CompletionShell::Bash | CompletionShell::Zsh | CompletionShell::Fish => dynamic_plugins.len() > 0,
        _ => false,
    }
}

/// The directory a configuration or completion path is relative to.
#[derive(Clone, Copy, PartialEq, Eq, Structural, Debug)]
pub enum BaseDir {
    /// The user's home directory.
    Home,
    /// The user's configuration directory.
    Config,
    /// The user's local data directory (or `.local/share` in the home directory).
    Data,
}

/// Where a shell's configuration file is, relative to a base directory: for
/// bash `.bash_profile` when it exists, else `.bashrc`.
pub open spec fn shell_config_location(shell: CompletionShell, bash_profile_exists: bool) -> (BaseDir, Seq<char>) {
    match shell {
        CompletionShell::Bash => if bash_profile_exists {
            (BaseDir::Home, ".bash_profile"@)
        } else {
            (BaseDir::Home, ".bashrc"@)
        },
        CompletionShell::Zsh => (BaseDir::Home, ".zshrc"@),
        CompletionShell::Fish => (BaseDir::Home, ".config/fish/config.fish"@),
        CompletionShell::PowerShell => (BaseDir::Config, "powershell/Microsoft.PowerShell_profile.ps1"@),
        CompletionShell::Elvish => (BaseDir::Home, ".elvish/rc.elv"@),
    }
}

/// Where a shell's configuration file is (see `shell_config_location`).
pub fn get_shell_config_location(shell: CompletionShell, bash_profile_exists: bool) -> (r: (BaseDir, String))
    ensures
        (r.0, r.1@) == shell_config_location(shell, bash_profile_exists),
{
    match shell {
        CompletionShell::Bash => if bash_profile_exists {
            (BaseDir::Home, owned(".bash_profile"))
        } else {
            (BaseDir::Home, owned(".bashrc"))
        },
        CompletionShell::Zsh => (BaseDir::Home, owned(".zshrc")),
        CompletionShell::Fish => (BaseDir::Home, owned(".config/fish/config.fish")),
        CompletionShell::PowerShell => (BaseDir::Config, owned("powershell/Microsoft.PowerShell_profile.ps1")),
        CompletionShell::Elvish => (BaseDir::Home, owned(".elvish/rc.elv")),
    }
}

/// Where a shell's completion files go, relative to a base directory: for
/// bash the XDG directory when its parent exists, else `.bash_completion.d`.
pub open spec fn completions_location(shell: CompletionShell, xdg_parent_exists: bool) -> (BaseDir, Seq<char>) {
    match shell {
        CompletionShell::Bash => if xdg_parent_exists {
            (BaseDir::Data, "bash-completion/completions"@)
        } else {
            (BaseDir::Home, ".bash_completion.d"@)
        },
        CompletionShell::Zsh => (BaseDir::Home, ".zfunc"@),
        CompletionShell::Fish => (BaseDir::Home, ".config/fish/completions"@),
        CompletionShell::PowerShell => (BaseDir::Config, "powershell"@),
        CompletionShell::Elvish => (BaseDir::Home, ".elvish/lib"@),
    }
}

/// Where a shell's completion files go (see `completions_location`).
pub fn get_completions_location(shell: CompletionShell, xdg_parent_exists: bool) -> (r: (BaseDir, String))
    ensures
        (r.0, r.1@) == completions_location(shell, xdg_parent_exists),
{
    match shell {
        CompletionShell::Bash => if xdg_parent_exists {
            (BaseDir::Data, owned("bash-completion/completions"))
        } else {
            (BaseDir::Home, owned(".bash_completion.d"))
        },
        CompletionShell::Zsh => (BaseDir::Home, owned(".zfunc")),
        CompletionShell::Fish => (BaseDir::Home, owned(".config/fish/completions")),
        CompletionShell::PowerShell => (BaseDir::Config, owned("powershell")),
        CompletionShell::Elvish => (BaseDir::Home, owned(".elvish/lib")),
    }
}

/// Whether a time that may be unknown is known and later than `t`.
pub open spec fn later_than(time: Option<u128>, t: u128) -> bool {
    match time {
        Some(p) => p > t,
        None => false,
    }
}

/// Whether the completion file is out of date: plugins are installed
/// (their directory exists) and either the file's modification time cannot
/// be read or some plugin entry was modified after it. Times are given as
/// they can be read, `None` where they cannot.
pub open spec fn outdated(plugins_dir_exists: bool, completion_time: Option<u128>, plugin_times: Seq<Option<u128>>) -> bool {
    plugins_dir_exists && match completion_time {
        None => true,
        Some(t) => exists|i: int| 0 <= i < plugin_times.len() && later_than(#[trigger] plugin_times[i], t),
    }
}

/// Whether the completion file is out of date (see `outdated`).
pub fn completions_outdated(plugins_dir_exists: bool, completion_time: Option<u128>, plugin_times: &Vec<Option<u128>>) -> (r: bool)
    ensures
        r == outdated(plugins_dir_exists, completion_time, plugin_times@),
{
    if !plugins_dir_exists {
        return false;
    }
    let t = match completion_time {
        None => {
            return true;
        },
        Some(t) => t,
    };
    let mut i: usize = 0;
    while i < plugin_times.len()
        invariant
            plugins_dir_exists,
            completion_time == Some(t),
            i <= plugin_times@.len(),
            forall|j: int| 0 <= j < i ==> !later_than(#[trigger] plugin_times@[j], t),
        decreases plugin_times@.len() - i,
    {
        if let Some(p) = plugin_times[i] {
            if p > t {
                assert(later_than(plugin_times@[i as int], t));
                return true;
            }
        }
        i = i + 1;
    }
    false
}

/// What keeping completions installed has to do: set up the shell's
/// configuration when the marker file is missing, and write the completion
/// file when the configuration is to be set up or the file is out of date.
pub fn completion_refresh(marker_exists: bool, is_outdated: bool) -> (r: (bool, bool))
    ensures
        r.0 == (!marker_exists || is_outdated),
        r.1 == !marker_exists,
{
    let setup = !marker_exists;
    (setup || is_outdated, setup)
}

/// The commands, among the plugin manifests' CLI sections (command and
/// whether it completes its own arguments), that complete their own
/// arguments, in order.
pub open spec fn dynamic_commands(clis: Seq<(Seq<char>, bool)>) -> Seq<Seq<char>>
    decreases clis.len(),
{
    if clis.len() == 0 {
        Seq::empty()
    } else {
        let r = dynamic_commands(clis.drop_last());
        if clis.last().1 {
            r.push(clis.last().0)
        } else {
            r
        }
    }
}

/// The commands that complete their own arguments (see `dynamic_commands`).
pub fn dynamic_completion_commands(clis: &Vec<(String, bool)>) -> (r: Vec<String>)
    ensures
        r.deep_view() == dynamic_commands(clis@.map_values(|c: (String, bool)| (c.0@, c.1))),
{
    let ghost cs = clis@.map_values(|c: (String, bool)| (c.0@, c.1));
    let mut r: Vec<String> = Vec::new();
    let mut i: usize = 0;
    while i < clis.len()
        invariant
            cs == clis@.map_values(|c: (String, bool)| (c.0@, c.1)),
            i <= clis@.len(),
            r.deep_view() == dynamic_commands(cs.take(i as int)),
        decreases clis@.len() - i,
    {
        assert(cs.take(i + 1).drop_last() =~= cs.take(i as int));
        if clis[i].1 {
            let ghost prev = r.deep_view();
            r.push(clis[i].0.clone());
            assert(r.deep_view() =~= prev.push(clis@[i as int].0@));
        }
        i = i + 1;
    }
    assert(cs.take(cs.len() as int) =~= cs);
    r
}

/// The plugin commands that complete their own arguments, as recorded once
/// per run: the first scan of the plugin manifests fixes the list, and a
/// read before any scan fixes it empty.
pub struct DynamicCompletionPlugins {
    value: Option<Vec<String>>,
}

impl DynamicCompletionPlugins {
    /// The recorded commands, if the list is fixed.
    pub closed spec fn recorded(self) -> Option<Seq<Seq<char>>> {
        match self.value {
            Some(v) => Some(v.deep_view()),
            None => None,
        }
    }

    /// A record with nothing fixed yet.
    pub fn new() -> (r: Self)
        ensures
            r.recorded() is None,
    {
        DynamicCompletionPlugins { value: None }
    }

    /// Records the commands found by a scan, unless the list is already
    /// fixed; tells whether they were recorded.
    pub fn set(&mut self, commands: Vec<String>) -> (r: bool)
        ensures
            r == (old(self).recorded() is None),
            r ==> final(self).recorded() == Some(commands.deep_view()),
            !r ==> final(self).recorded() == old(self).recorded(),
    {
        if self.value.is_none() {
            self.value = Some(commands);
            true
        } else {
            false
        }
    }
}

/// The plugin commands that complete their own arguments: those recorded,
/// or none, which fixes the list empty when nothing was recorded yet.
pub fn get_dynamic_completion_plugins(record: &mut DynamicCompletionPlugins) -> (r: Vec<String>)
    ensures
        match old(record).recorded() {
            Some(v) => final(record).recorded() == Some(v) && r.deep_view() == v,
            None => final(record).recorded() == Some(Seq::<Seq<char>>::empty()) && r@.len() == 0,
        },
{
    match &record.value {
        Some(v) => {
            return crate::protocol::copy_strings(v);
        },
        None => {},
    }
    let empty: Vec<String> = Vec::new();
    assert(empty.deep_view() =~= Seq::<Seq<char>>::empty());
    record.value = Some(empty);
    Vec::new()
}

/// A subcommand as the completion scripts list it.
pub struct CommandSummary {
    pub name: String,
    pub about: String,
    pub aliases: Vec<String>,
}

/// The opening of the zsh script: the dynamic completion helper and the start of the command list.
pub open spec fn zsh_head_text(bin_name: Seq<char>) -> Seq<char> {
    "#compdef "@ + bin_name + "\n\n# Dynamic completion function for plugins\n_adi_dynamic_complete() {\n    local cmd=$1\n    local pos=$2\n    shift 2\n    local words=(\"$@\")\n    \n    # Call the plugin's --completions command\n    local completions\n    completions=$("@ + bin_name + " \"$cmd\" --completions \"$pos\" \"${words[@]}\" 2>/dev/null)\n    \n    if [[ -n \"$completions\" ]]; then\n        local -a comp_array\n        while IFS=$'\\t' read -r comp desc; do\n            if [[ -n \"$desc\" ]]; then\n                comp_array+=(\"$comp:$desc\")\n            else\n                comp_array+=(\"$comp\")\n            fi\n        done <<< \"$completions\"\n        _describe -t completions 'completions' comp_array\n        return 0\n    fi\n    return 1\n}\n\n_adi() {\n    local context state state_descr line\n    typeset -A opt_args\n\n    _arguments -C \\\n        '1: :->command' \\\n        '*::arg:->args'\n\n    case $state in\n        command)\n            local -a commands\n            commands=(\n                'plugin:Manage plugins'\n                'search:Search packages'\n                'services:List services'\n                'run:Run a plugin command'\n                'self-update:Update adi CLI'\n                'completions:Generate shell completions'\n"@
}

fn zsh_head(bin_name: &str) -> (r: String)
    ensures
        r@ == zsh_head_text(bin_name@),
{
    let mut r = owned("#compdef ");
    r.append(bin_name);
    r.append("\n\n# Dynamic completion function for plugins\n_adi_dynamic_complete() {\n    local cmd=$1\n    local pos=$2\n    shift 2\n    local words=(\"$@\")\n    \n    # Call the plugin's --completions command\n    local completions\n    completions=$(");
    r.append(bin_name);
    r.append(" \"$cmd\" --completions \"$pos\" \"${words[@]}\" 2>/dev/null)\n    \n    if [[ -n \"$completions\" ]]; then\n        local -a comp_array\n        while IFS=$'\\t' read -r comp desc; do\n            if [[ -n \"$desc\" ]]; then\n                comp_array+=(\"$comp:$desc\")\n            else\n                comp_array+=(\"$comp\")\n            fi\n        done <<< \"$completions\"\n        _describe -t completions 'completions' comp_array\n        return 0\n    fi\n    return 1\n}\n\n_adi() {\n    local context state state_descr line\n    typeset -A opt_args\n\n    _arguments -C \\\n        '1: :->command' \\\n        '*::arg:->args'\n\n    case $state in\n        command)\n            local -a commands\n            commands=(\n                'plugin:Manage plugins'\n                'search:Search packages'\n                'services:List services'\n                'run:Run a plugin command'\n                'self-update:Update adi CLI'\n                'completions:Generate shell completions'\n");
    r
}

/// The part of the zsh script between the command list and the per-plugin cases.
pub open spec fn zsh_mid_text() -> Seq<char> {
    "            )\n            _describe -t commands 'adi commands' commands\n            ;;\n        args)\n            case $line[1] in\n"@
}

fn zsh_mid() -> (r: String)
    ensures
        r@ == zsh_mid_text(),
{
    owned("            )\n            _describe -t commands 'adi commands' commands\n            ;;\n        args)\n            case $line[1] in\n")
}

/// The zsh case that completes a plugin command dynamically.
pub open spec fn zsh_case_text(plugin_cmd: Seq<char>) -> Seq<char> {
    "                "@ + plugin_cmd + ")\n                    _adi_dynamic_complete \""@ + plugin_cmd + "\" $((CURRENT)) \"${words[@]:1}\"\n                    ;;\n"@
}

fn zsh_case(plugin_cmd: &str) -> (r: String)
    ensures
        r@ == zsh_case_text(plugin_cmd@),
{
    let mut r = owned("                ");
    r.append(plugin_cmd);
    r.append(")\n                    _adi_dynamic_complete \"");
    r.append(plugin_cmd);
    r.append("\" $((CURRENT)) \"${words[@]:1}\"\n                    ;;\n");
    r
}

/// The closing of the zsh script.
pub open spec fn zsh_tail_text() -> Seq<char> {
    "                *)\n                    _files\n                    ;;\n            esac\n            ;;\n    esac\n}\n\n_adi \"$@\"\n"@
}

fn zsh_tail() -> (r: String)
    ensures
        r@ == zsh_tail_text(),
{
    owned("                *)\n                    _files\n                    ;;\n            esac\n            ;;\n    esac\n}\n\n_adi \"$@\"\n")
}

/// The bash script for the given command list and dynamically completed commands.
pub open spec fn bash_text(bin_name: Seq<char>, subcommands_str: Seq<char>, dynamic_str: Seq<char>) -> Seq<char> {
    "# Bash completion for "@ + bin_name + "\n\n_"@ + bin_name + "_dynamic_complete() {\n    local cmd=$1\n    local pos=$2\n    shift 2\n    local words=(\"$@\")\n    \n    # Call the plugin's --completions command\n    local completions\n    completions=$("@ + bin_name + " \"$cmd\" --completions \"$pos\" \"${words[@]}\" 2>/dev/null)\n    \n    if [[ -n \"$completions\" ]]; then\n        # Parse tab-separated completions (completion\\tdescription)\n        local -a comps\n        while IFS=$'\\t' read -r comp desc; do\n            comps+=(\"$comp\")\n        done <<< \"$completions\"\n        COMPREPLY=($(compgen -W \"${comps[*]}\" -- \"${COMP_WORDS[COMP_CWORD]}\"))\n        return 0\n    fi\n    return 1\n}\n\n_"@ + bin_name + "() {\n    local cur prev words cword\n    _init_completion || return\n\n    local commands=\""@ + subcommands_str + "\"\n\n    if [[ $cword -eq 1 ]]; then\n        COMPREPLY=($(compgen -W \"$commands\" -- \"$cur\"))\n        return\n    fi\n\n    local cmd=\"${words[1]}\"\n    \n    case \"$cmd\" in\n        "@ + dynamic_str + ")\n            # Dynamic completion for these commands\n            local pos=$((cword - 1))\n            local cmd_words=(\"${words[@]:2}\")\n            _"@ + bin_name + "_dynamic_complete \"$cmd\" \"$pos\" \"${cmd_words[@]}\"\n            ;;\n        *)\n            # Default file completion\n            _filedir\n            ;;\n    esac\n}\n\ncomplete -F _"@ + bin_name + " "@ + bin_name + "\n"@
}

fn bash(bin_name: &str, subcommands_str: &str, dynamic_str: &str) -> (r: String)
    ensures
        r@ == bash_text(bin_name@, subcommands_str@, dynamic_str@),
{
    let mut r = owned("# Bash completion for ");
    r.append(bin_name);
    r.append("\n\n_");
    r.append(bin_name);
    r.append("_dynamic_complete() {\n    local cmd=$1\n    local pos=$2\n    shift 2\n    local words=(\"$@\")\n    \n    # Call the plugin's --completions command\n    local completions\n    completions=$(");
    r.append(bin_name);
    r.append(" \"$cmd\" --completions \"$pos\" \"${words[@]}\" 2>/dev/null)\n    \n    if [[ -n \"$completions\" ]]; then\n        # Parse tab-separated completions (completion\\tdescription)\n        local -a comps\n        while IFS=$'\\t' read -r comp desc; do\n            comps+=(\"$comp\")\n        done <<< \"$completions\"\n        COMPREPLY=($(compgen -W \"${comps[*]}\" -- \"${COMP_WORDS[COMP_CWORD]}\"))\n        return 0\n    fi\n    return 1\n}\n\n_");
    r.append(bin_name);
    r.append("() {\n    local cur prev words cword\n    _init_completion || return\n\n    local commands=\"");
    r.append(subcommands_str);
    r.append("\"\n\n    if [[ $cword -eq 1 ]]; then\n        COMPREPLY=($(compgen -W \"$commands\" -- \"$cur\"))\n        return\n    fi\n\n    local cmd=\"${words[1]}\"\n    \n    case \"$cmd\" in\n        ");
    r.append(dynamic_str);
    r.append(")\n            # Dynamic completion for these commands\n            local pos=$((cword - 1))\n            local cmd_words=(\"${words[@]:2}\")\n            _");
    r.append(bin_name);
    r.append("_dynamic_complete \"$cmd\" \"$pos\" \"${cmd_words[@]}\"\n            ;;\n        *)\n            # Default file completion\n            _filedir\n            ;;\n    esac\n}\n\ncomplete -F _");
    r.append(bin_name);
    r.append(" ");
    r.append(bin_name);
    r.append("\n");
    r
}

/// The opening of the fish script: the dynamic completion helper.
pub open spec fn fish_head_text(bin_name: Seq<char>) -> Seq<char> {
    "# Fish completion for "@ + bin_name + "\n\n# Dynamic completion function\nfunction __adi_dynamic_complete\n    set -l cmd $argv[1]\n    set -l pos $argv[2]\n    set -l words $argv[3..-1]\n    \n    # Call the plugin's --completions command  \n    set -l completions ("@ + bin_name + " $cmd --completions $pos $words 2>/dev/null)\n    \n    for line in $completions\n        # Parse tab-separated: completion\\tdescription\n        set -l parts (string split \\t $line)\n        if test (count $parts) -ge 2\n            echo $parts[1]\\t$parts[2]\n        else\n            echo $parts[1]\n        end\n    end\nend\n\n# Disable file completions for adi\ncomplete -c "@ + bin_name + " -f\n"@
}

fn fish_head(bin_name: &str) -> (r: String)
    ensures
        r@ == fish_head_text(bin_name@),
{
    let mut r = owned("# Fish completion for ");
    r.append(bin_name);
    r.append("\n\n# Dynamic completion function\nfunction __adi_dynamic_complete\n    set -l cmd $argv[1]\n    set -l pos $argv[2]\n    set -l words $argv[3..-1]\n    \n    # Call the plugin's --completions command  \n    set -l completions (");
    r.append(bin_name);
    r.append(" $cmd --completions $pos $words 2>/dev/null)\n    \n    for line in $completions\n        # Parse tab-separated: completion\\tdescription\n        set -l parts (string split \\t $line)\n        if test (count $parts) -ge 2\n            echo $parts[1]\\t$parts[2]\n        else\n            echo $parts[1]\n        end\n    end\nend\n\n# Disable file completions for adi\ncomplete -c ");
    r.append(bin_name);
    r.append(" -f\n");
    r
}

/// The fish completion line of a subcommand.
pub open spec fn fish_sub_text(bin_name: Seq<char>, name: Seq<char>, about: Seq<char>) -> Seq<char> {
    "complete -c "@ + bin_name + " -n \"__fish_use_subcommand\" -a \""@ + name + "\" -d \""@ + about + "\"\n"@
}

fn fish_sub(bin_name: &str, name: &str, about: &str) -> (r: String)
    ensures
        r@ == fish_sub_text(bin_name@, name@, about@),
{
    let mut r = owned("complete -c ");
    r.append(bin_name);
    r.append(" -n \"__fish_use_subcommand\" -a \"");
    r.append(name);
    r.append("\" -d \"");
    r.append(about);
    r.append("\"\n");
    r
}

/// The fish completion line of a subcommand alias.
pub open spec fn fish_alias_text(bin_name: Seq<char>, alias: Seq<char>, about: Seq<char>) -> Seq<char> {
    "complete -c "@ + bin_name + " -n \"__fish_use_subcommand\" -a \""@ + alias + "\" -d \""@ + about + "\"\n"@
}

fn fish_alias(bin_name: &str, alias: &str, about: &str) -> (r: String)
    ensures
        r@ == fish_alias_text(bin_name@, alias@, about@),
{
    let mut r = owned("complete -c ");
    r.append(bin_name);
    r.append(" -n \"__fish_use_subcommand\" -a \"");
    r.append(alias);
    r.append("\" -d \"");
    r.append(about);
    r.append("\"\n");
    r
}

/// The fish completion lines that complete a plugin command dynamically.
pub open spec fn fish_dyn_text(plugin_cmd: Seq<char>, bin_name: Seq<char>) -> Seq<char> {
    "# Dynamic completions for "@ + plugin_cmd + "\ncomplete -c "@ + bin_name + " -n \"__fish_seen_subcommand_from "@ + plugin_cmd + "\" -a \"(__adi_dynamic_complete "@ + plugin_cmd + " (count (commandline -opc)) (commandline -opc)[3..-1])\"\n"@
}

fn fish_dyn(plugin_cmd: &str, bin_name: &str) -> (r: String)
    ensures
        r@ == fish_dyn_text(plugin_cmd@, bin_name@),
{
    let mut r = owned("# Dynamic completions for ");
    r.append(plugin_cmd);
    r.append("\ncomplete -c ");
    r.append(bin_name);
    r.append(" -n \"__fish_seen_subcommand_from ");
    r.append(plugin_cmd);
    r.append("\" -a \"(__adi_dynamic_complete ");
    r.append(plugin_cmd);
    r.append(" (count (commandline -opc)) (commandline -opc)[3..-1])\"\n");
    r
}

/// The commands that the zsh script lists on its own.
pub open spec fn is_builtin_command(name: Seq<char>) -> bool {
    name == "plugin"@ || name == "search"@ || name == "services"@ || name == "run"@ || name
        == "self-update"@ || name == "completions"@
}

/// The zsh command-list entries of the subcommands that are not built in.
pub open spec fn zsh_entries(subs: Seq<CommandSummary>) -> Seq<char>
    decreases subs.len(),
{
    if subs.len() == 0 {
        Seq::empty()
    } else {
        let c = subs.last();
        zsh_entries(subs.drop_last()) + if is_builtin_command(c.name@) {
            Seq::<char>::empty()
        } else {
            "                '"@ + c.name@ + ":"@ + c.about@ + "'\n"@
        }
    }
}

/// The zsh cases of the dynamically completed plugin commands.
pub open spec fn zsh_cases(dyns: Seq<Seq<char>>) -> Seq<char>
    decreases dyns.len(),
{
    if dyns.len() == 0 {
        Seq::empty()
    } else {
        zsh_cases(dyns.drop_last()) + zsh_case_text(dyns.last())
    }
}

/// The zsh completion script.
pub open spec fn zsh_script_text(bin: Seq<char>, subs: Seq<CommandSummary>, dyns: Seq<Seq<char>>) -> Seq<char> {
    zsh_head_text(bin) + zsh_entries(subs) + zsh_mid_text() + zsh_cases(dyns) + zsh_tail_text()
}

/// Whether `name` is one of the commands the zsh script lists on its own.
fn is_builtin(name: &str) -> (r: bool)
    ensures
        r == is_builtin_command(name@),
{
    str_eq(name, "plugin") || str_eq(name, "search") || str_eq(name, "services") || str_eq(name, "run")
        || str_eq(name, "self-update") || str_eq(name, "completions")
}

/// The zsh completion script of `bin`: the built-in commands, then the other
/// subcommands with their descriptions, and a case per dynamically completed
/// plugin command.
pub fn generate_zsh_script(bin_name: &str, subcommands: &Vec<CommandSummary>, dynamic_plugins: &Vec<String>) -> (r: String)
    ensures
        r@ == zsh_script_text(bin_name@, subcommands@, dynamic_plugins.deep_view()),
{
    let mut r = zsh_head(bin_name);
    let ghost h = r@;
    let mut i: usize = 0;
    while i < subcommands.len()
        invariant
            i <= subcommands@.len(),
            r@ == h + zsh_entries(subcommands@.take(i as int)),
        decreases subcommands@.len() - i,
    {
        let c = &subcommands[i];
        assert(subcommands@.take(i + 1).drop_last() =~= subcommands@.take(i as int));
        assert(subcommands@.take(i + 1).last() == subcommands@[i as int]);
        if !is_builtin(c.name.as_str()) {
            let mut line = owned("                '");
            line.append(c.name.as_str());
            line.append(":");
            line.append(c.about.as_str());
            line.append("'\n");
            r.append(line.as_str());
        } else {
            assert(r@ + Seq::<char>::empty() =~= r@);
        }
        i = i + 1;
    }
    assert(subcommands@.take(subcommands@.len() as int) =~= subcommands@);
    let m = zsh_mid();
    r.append(m.as_str());
    let ghost h2 = r@;
    let mut j: usize = 0;
    while j < dynamic_plugins.len()
        invariant
            j <= dynamic_plugins@.len(),
            r@ == h2 + zsh_cases(dynamic_plugins.deep_view().take(j as int)),
        decreases dynamic_plugins@.len() - j,
    {
        assert(dynamic_plugins.deep_view().take(j + 1).drop_last() =~= dynamic_plugins.deep_view().take(j as int));
        assert(dynamic_plugins.deep_view().take(j + 1).last() == dynamic_plugins@[j as int]@);
        let case = zsh_case(dynamic_plugins[j].as_str());
        r.append(case.as_str());
        j = j + 1;
    }
    assert(dynamic_plugins.deep_view().take(dynamic_plugins@.len() as int) =~= dynamic_plugins.deep_view());
    let t = zsh_tail();
    r.append(t.as_str());
    r
}

/// The pieces joined by `sep`.
pub open spec fn join(parts: Seq<Seq<char>>, sep: Seq<char>) -> Seq<char>
    decreases parts.len(),
{
    if parts.len() == 0 {
        Seq::empty()
    } else if parts.len() == 1 {
        parts[0]
    } else {
        join(parts.drop_last(), sep) + sep + parts.last()
    }
}

/// `join` (executable).
pub fn join_strings(parts: &Vec<String>, sep: &str) -> (r: String)
    ensures
        r@ == join(parts.deep_view(), sep@),
{
    let mut r = String::new();
    let mut i: usize = 0;
    while i < parts.len()
        invariant
            i <= parts@.len(),
            r@ == join(parts.deep_view().take(i as int), sep@),
        decreases parts@.len() - i,
    {
        assert(parts.deep_view().take(i + 1).drop_last() =~= parts.deep_view().take(i as int));
        assert(parts.deep_view().take(i + 1).last() == parts@[i as int]@);
        if i > 0 {
            r.append(sep);
        } else {
            assert(parts.deep_view().take(1)[0] == parts@[0]@);
        }
        r.append(parts[i].as_str());
        proof {
            if i == 0 {
                assert(r@ =~= parts@[0]@);
            }
        }
        i = i + 1;
    }
    assert(parts.deep_view().take(parts@.len() as int) =~= parts.deep_view());
    r
}

/// The bash completion script of `bin`: the subcommand names separated by
/// spaces, and the dynamically completed plugin commands separated by `|`.
pub fn generate_bash_script(bin_name: &str, subcommand_names: &Vec<String>, dynamic_plugins: &Vec<String>) -> (r: String)
    ensures
        r@ == bash_text(bin_name@, join(subcommand_names.deep_view(), " "@), join(dynamic_plugins.deep_view(), "|"@)),
{
    let subs = join_strings(subcommand_names, " ");
    let dyns = join_strings(dynamic_plugins, "|");
    bash(bin_name, subs.as_str(), dyns.as_str())
}

/// The fish lines of the aliases of a subcommand.
pub open spec fn fish_aliases(bin: Seq<char>, aliases: Seq<Seq<char>>, about: Seq<char>) -> Seq<char>
    decreases aliases.len(),
{
    if aliases.len() == 0 {
        Seq::empty()
    } else {
        fish_aliases(bin, aliases.drop_last(), about) + fish_alias_text(bin, aliases.last(), about)
    }
}

/// The fish lines of the subcommands and their aliases.
pub open spec fn fish_subs(bin: Seq<char>, subs: Seq<CommandSummary>) -> Seq<char>
    decreases subs.len(),
{
    if subs.len() == 0 {
        Seq::empty()
    } else {
        let c = subs.last();
        fish_subs(bin, subs.drop_last()) + fish_sub_text(bin, c.name@, c.about@) + fish_aliases(
            bin,
            c.aliases.deep_view(),
            c.about@,
        )
    }
}

/// The fish lines of the dynamically completed plugin commands.
pub open spec fn fish_dyns(bin: Seq<char>, dyns: Seq<Seq<char>>) -> Seq<char>
    decreases dyns.len(),
{
    if dyns.len() == 0 {
        Seq::empty()
    } else {
        fish_dyns(bin, dyns.drop_last()) + fish_dyn_text(dyns.last(), bin)
    }
}

/// The fish completion script.
pub open spec fn fish_script_text(bin: Seq<char>, subs: Seq<CommandSummary>, dyns: Seq<Seq<char>>) -> Seq<char> {
    fish_head_text(bin) + fish_subs(bin, subs) + "\n"@ + fish_dyns(bin, dyns)
}

/// The fish completion script of `bin`: a line per subcommand and per alias,
/// and the lines of each dynamically completed plugin command.
pub fn generate_fish_script(bin_name: &str, subcommands: &Vec<CommandSummary>, dynamic_plugins: &Vec<String>) -> (r: String)
    ensures
        r@ == fish_script_text(bin_name@, subcommands@, dynamic_plugins.deep_view()),
{
    let mut r = fish_head(bin_name);
    let ghost h = r@;
    let mut i: usize = 0;
    while i < subcommands.len()
        invariant
            i <= subcommands@.len(),
            r@ == h + fish_subs(bin_name@, subcommands@.take(i as int)),
        decreases subcommands@.len() - i,
    {
        let c = &subcommands[i];
        assert(subcommands@.take(i + 1).drop_last() =~= subcommands@.take(i as int));
        assert(subcommands@.take(i + 1).last() == subcommands@[i as int]);
        let line = fish_sub(bin_name, c.name.as_str(), c.about.as_str());
        r.append(line.as_str());
        let ghost h3 = r@;
        let mut k: usize = 0;
        while k < c.aliases.len()
            invariant
                k <= c.aliases@.len(),
                r@ == h3 + fish_aliases(bin_name@, c.aliases.deep_view().take(k as int), c.about@),
            decreases c.aliases@.len() - k,
        {
            assert(c.aliases.deep_view().take(k + 1).drop_last() =~= c.aliases.deep_view().take(k as int));
            assert(c.aliases.deep_view().take(k + 1).last() == c.aliases@[k as int]@);
            let a = fish_alias(bin_name, c.aliases[k].as_str(), c.about.as_str());
            r.append(a.as_str());
            k = k + 1;
        }
        assert(c.aliases.deep_view().take(c.aliases@.len() as int) =~= c.aliases.deep_view());
        i = i + 1;
    }
    assert(subcommands@.take(subcommands@.len() as int) =~= subcommands@);
    r.append("\n");
    let ghost h2 = r@;
    let mut j: usize = 0;
    while j < dynamic_plugins.len()
        invariant
            j <= dynamic_plugins@.len(),
            r@ == h2 + fish_dyns(bin_name@, dynamic_plugins.deep_view().take(j as int)),
        decreases dynamic_plugins@.len() - j,
    {
        assert(dynamic_plugins.deep_view().take(j + 1).drop_last() =~= dynamic_plugins.deep_view().take(j as int));
        assert(dynamic_plugins.deep_view().take(j + 1).last() == dynamic_plugins@[j as int]@);
        let d = fish_dyn(dynamic_plugins[j].as_str(), bin_name);
        r.append(d.as_str());
        j = j + 1;
    }
    assert(dynamic_plugins.deep_view().take(dynamic_plugins@.len() as int) =~= dynamic_plugins.deep_view());
    r
}

/// Fish completions go where fish loads completions from on its own: the
/// `completions` directory beside fish's configuration file, under the home
/// directory, whatever the XDG directories hold.
pub proof fn law_fish_completions_autoloaded(xdg_parent_exists: bool, bash_profile_exists: bool)
    ensures
        completions_location(CompletionShell::Fish, xdg_parent_exists).0 == BaseDir::Home,
        completions_location(CompletionShell::Fish, xdg_parent_exists).0 == shell_config_location(
            CompletionShell::Fish,
            bash_profile_exists,
        ).0,
        shell_config_location(CompletionShell::Fish, bash_profile_exists).1 == ".config/fish"@ + "/config.fish"@,
        completions_location(CompletionShell::Fish, xdg_parent_exists).1 == ".config/fish"@ + "/completions"@,
{
    reveal_strlit(".config/fish");
    reveal_strlit("/config.fish");
    reveal_strlit("/completions");
    reveal_strlit(".config/fish/config.fish");
    reveal_strlit(".config/fish/completions");
    assert(".config/fish"@ + "/config.fish"@ =~= ".config/fish/config.fish"@);
    assert(".config/fish"@ + "/completions"@ =~= ".config/fish/completions"@);
}

/// The zsh command list names every subcommand other than the six the
/// script lists on its own (`plugin`, `search`, `services`, `run`,
/// `self-update`, `completions`), each as `'name:about'` on a line of its
/// own, and adds nothing for those six.
pub proof fn law_zsh_lists_other_subcommands(subs: Seq<CommandSummary>)
    ensures
        forall|i: int|
            0 <= i < subs.len() && subs[i].name@ != "plugin"@ && subs[i].name@ != "search"@ && subs[i].name@
                != "services"@ && subs[i].name@ != "run"@ && subs[i].name@ != "self-update"@ && subs[i].name@
                != "completions"@ ==> has_infix(
                zsh_entries(subs),
                "                '"@ + subs[i].name@ + ":"@ + subs[i].about@ + "'\n"@,
            ),
        (forall|i: int|
            0 <= i < subs.len() ==> subs[i].name@ == "plugin"@ || subs[i].name@ == "search"@ || subs[i].name@
                == "services"@ || subs[i].name@ == "run"@ || subs[i].name@ == "self-update"@ || subs[i].name@
                == "completions"@) ==> zsh_entries(subs) == Seq::<char>::empty(),
    decreases subs.len(),
{
    if subs.len() > 0 {
        let t = subs.drop_last();
        law_zsh_lists_other_subcommands(t);
        let c = subs.last();
        let tail = if is_builtin_command(c.name@) {
            Seq::<char>::empty()
        } else {
            "                '"@ + c.name@ + ":"@ + c.about@ + "'\n"@
        };
        assert(zsh_entries(subs) == zsh_entries(t) + tail);
        assert forall|i: int|
            0 <= i < subs.len() && subs[i].name@ != "plugin"@ && subs[i].name@ != "search"@ && subs[i].name@
                != "services"@ && subs[i].name@ != "run"@ && subs[i].name@ != "self-update"@ && subs[i].name@
                != "completions"@ implies has_infix(
            zsh_entries(subs),
            "                '"@ + subs[i].name@ + ":"@ + subs[i].about@ + "'\n"@,
        ) by {
            let line = "                '"@ + subs[i].name@ + ":"@ + subs[i].about@ + "'\n"@;
            let all = zsh_entries(subs);
            if i < subs.len() - 1 {
                assert(t[i] == subs[i]);
                let k = choose|k: int| occurs_at(zsh_entries(t), line, k);
                assert(all.subrange(k, k + line.len()) =~= zsh_entries(t).subrange(k, k + line.len()));
                assert(occurs_at(all, line, k));
            } else {
                assert(tail == line);
                let k = zsh_entries(t).len() as int;
                assert(all.subrange(k, k + line.len()) =~= line);
                assert(occurs_at(all, line, k));
            }
        }
        if forall|i: int|
            0 <= i < subs.len() ==> subs[i].name@ == "plugin"@ || subs[i].name@ == "search"@ || subs[i].name@
                == "services"@ || subs[i].name@ == "run"@ || subs[i].name@ == "self-update"@ || subs[i].name@
                == "completions"@ {
            assert forall|i: int|
                0 <= i < t.len() implies t[i].name@ == "plugin"@ || t[i].name@ == "search"@ || t[i].name@
                == "services"@ || t[i].name@ == "run"@ || t[i].name@ == "self-update"@ || t[i].name@
                == "completions"@ by {
                assert(t[i] == subs[i]);
            }
            assert(subs[subs.len() - 1] == c);
            assert(zsh_entries(subs) =~= Seq::<char>::empty());
        }
    }
}

/// The zsh script holds the command-list line of every subcommand other
/// than the six it lists on its own.
pub proof fn law_zsh_script_lists_subcommand(bin: Seq<char>, subs: Seq<CommandSummary>, dyns: Seq<Seq<char>>, i: int)
    requires
        0 <= i < subs.len(),
        subs[i].name@ != "plugin"@,
        subs[i].name@ != "search"@,
        subs[i].name@ != "services"@,
        subs[i].name@ != "run"@,
        subs[i].name@ != "self-update"@,
        subs[i].name@ != "completions"@,
    ensures
        has_infix(
            zsh_script_text(bin, subs, dyns),
            "                '"@ + subs[i].name@ + ":"@ + subs[i].about@ + "'\n"@,
        ),
{
    law_zsh_lists_other_subcommands(subs);
    let line = "                '"@ + subs[i].name@ + ":"@ + subs[i].about@ + "'\n"@;
    let e = zsh_entries(subs);
    let h = zsh_head_text(bin);
    let all = zsh_script_text(bin, subs, dyns);
    let k = choose|k: int| occurs_at(e, line, k);
    assert(all == h + e + (zsh_mid_text() + zsh_cases(dyns) + zsh_tail_text()));
    assert(all.subrange(h.len() + k, h.len() + k + line.len()) =~= e.subrange(k, k + line.len()));
    assert(occurs_at(all, line, h.len() + k));
}

} // verus!
