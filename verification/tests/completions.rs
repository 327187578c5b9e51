use adi_cli::completions::{
    completion_refresh, completions_outdated, config_addition, detect_shell, dynamic_completion_commands, generate_bash_script,
    get_completion_filename, get_completions_location, get_dynamic_completion_plugins,
    get_shell_config_location, join_strings, marker_file_name, needs_config_snippet, shell_config_snippet,
    uses_dynamic_script, BaseDir, CompletionShell, DynamicCompletionPlugins,
};

#[test]
fn test_detect_shell() {
    // The shell variable is read by the caller; here it is unset
    let shell = detect_shell(None);
    // Just verify it doesn't panic
    println!("Detected shell: {:?}", shell);
}

#[test]
fn test_completion_filename() {
    assert_eq!(
        get_completion_filename(CompletionShell::Bash, "adi"),
        "adi.bash"
    );
    assert_eq!(get_completion_filename(CompletionShell::Zsh, "adi"), "_adi");
    assert_eq!(
        get_completion_filename(CompletionShell::Fish, "adi"),
        "adi.fish"
    );
}

#[test]
fn other_completion_filenames() {
    assert_eq!(get_completion_filename(CompletionShell::PowerShell, "adi"), "_adi.ps1");
    assert_eq!(get_completion_filename(CompletionShell::Elvish, "adi"), "adi.elv");
}

#[test]
fn shells_named_by_shell_variable() {
    assert_eq!(detect_shell(Some("/bin/zsh")), Some(CompletionShell::Zsh));
    assert_eq!(detect_shell(Some("/usr/local/bin/bash")), Some(CompletionShell::Bash));
    assert_eq!(detect_shell(Some("/usr/bin/fish")), Some(CompletionShell::Fish));
    assert_eq!(detect_shell(Some("/opt/pwsh")), Some(CompletionShell::PowerShell));
    assert_eq!(detect_shell(Some("elvish")), Some(CompletionShell::Elvish));
    assert_eq!(detect_shell(Some("/bin/sh")), None);
    assert_eq!(detect_shell(None), None);
}

#[test]
fn shell_configuration_snippets() {
    assert_eq!(
        shell_config_snippet(CompletionShell::Zsh, "/ignored").unwrap(),
        "\n# ADI CLI completions\nfpath=(~/.zfunc $fpath)\nautoload -Uz compinit && compinit\n"
    );
    assert_eq!(
        shell_config_snippet(CompletionShell::Bash, "/home/u/.bash_completion.d/adi.bash").unwrap(),
        "\n# ADI CLI completions\nsource \"/home/u/.bash_completion.d/adi.bash\"\n"
    );
    assert!(shell_config_snippet(CompletionShell::Fish, "/x").is_none());
    assert!(needs_config_snippet("export PATH=/usr/bin\n"));
    assert!(!needs_config_snippet("x\n# ADI CLI completions\nsource y\n"));
    assert_eq!(marker_file_name("adi"), ".adi-installed");
}

#[test]
fn completion_locations() {
    let (base, rel) = get_shell_config_location(CompletionShell::Bash, true);
    assert!(base == BaseDir::Home);
    assert_eq!(rel, ".bash_profile");
    assert_eq!(get_shell_config_location(CompletionShell::Bash, false).1, ".bashrc");
    let (base, rel) = get_shell_config_location(CompletionShell::PowerShell, false);
    assert!(base == BaseDir::Config);
    assert_eq!(rel, "powershell/Microsoft.PowerShell_profile.ps1");
    let (base, rel) = get_completions_location(CompletionShell::Bash, true);
    assert!(base == BaseDir::Data);
    assert_eq!(rel, "bash-completion/completions");
    assert_eq!(get_completions_location(CompletionShell::Bash, false).1, ".bash_completion.d");
    assert_eq!(get_completions_location(CompletionShell::Zsh, false).1, ".zfunc");
}

#[test]
fn outdated_completions() {
    assert!(!completions_outdated(false, None, &vec![]));
    assert!(completions_outdated(true, None, &vec![]));
    assert!(!completions_outdated(true, Some(100), &vec![Some(50), None, Some(100)]));
    assert!(completions_outdated(true, Some(100), &vec![Some(50), Some(101)]));
    assert_eq!(completion_refresh(false, false), (true, true));
    assert_eq!(completion_refresh(true, true), (true, false));
    assert_eq!(completion_refresh(true, false), (false, false));
}

#[test]
fn dynamic_completion_record() {
    let clis = vec![("tasks".to_string(), true), ("lint".to_string(), false), ("kb".to_string(), true)];
    let dynamic = dynamic_completion_commands(&clis);
    assert_eq!(dynamic, vec!["tasks", "kb"]);
    let mut record = DynamicCompletionPlugins::new();
    assert!(record.set(dynamic));
    assert!(!record.set(vec!["other".to_string()]));
    assert_eq!(get_dynamic_completion_plugins(&mut record), vec!["tasks", "kb"]);
    let mut unset = DynamicCompletionPlugins::new();
    assert!(get_dynamic_completion_plugins(&mut unset).is_empty());
    assert!(!unset.set(vec!["late".to_string()]));
    assert!(get_dynamic_completion_plugins(&mut unset).is_empty());
    assert!(uses_dynamic_script(CompletionShell::Zsh, &vec!["tasks".to_string()]));
    assert!(!uses_dynamic_script(CompletionShell::Zsh, &vec![]));
    assert!(!uses_dynamic_script(CompletionShell::Elvish, &vec!["tasks".to_string()]));
}

#[test]
fn bash_script_lists_commands() {
    assert_eq!(join_strings(&vec!["a".to_string(), "b".to_string()], ", "), "a, b");
    let script = generate_bash_script("adi", &vec!["plugin".to_string(), "tasks".to_string()], &vec!["tasks".to_string()]);
    assert!(script.contains("plugin tasks"));
    assert!(script.contains("tasks"));
}

#[test]
fn shell_config_snippet_added_once() {
    let snippet = shell_config_snippet(CompletionShell::Bash, "/c/adi.bash").unwrap();
    let first = config_addition("alias ll='ls -l'\n", &snippet).unwrap();
    assert_eq!(first, format!("{}\n", snippet));
    let after = format!("alias ll='ls -l'\n{}", first);
    assert_eq!(config_addition(&after, &snippet), None);
    let zsh = shell_config_snippet(CompletionShell::Zsh, "/c/_adi").unwrap();
    assert_eq!(config_addition(&after, &zsh), None);
    assert_eq!(config_addition("", "x"), Some("x\n".to_string()));
}
