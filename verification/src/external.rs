//! Commands that plugins provide (`adi <command> ...`): splitting the command
//! line, and installing on demand the plugin that provides an unknown command.
//!
//! Asking the registry, prompting and installing stand outside this library;
//! their outcomes are handed in here.
use vstd::prelude::*;
use crate::completions::{join, join_strings};
use crate::plugin_runtime::PluginCliCommand;
use crate::text::{i64_text_value, lowercase, owned, parse_i64, str_chars, str_eq, to_lowercase, trim, trim_ws};
use crate::json::{JsonValue, JsonValueView, json_of_text, json_str_member, json_member, member, parse_json};

verus! {

/// The command and its arguments: the first word of what follows `adi` is
/// the command, the rest its arguments; nothing for an empty command line.
pub fn split_command_line(args: &Vec<String>) -> (r: Option<(String, Vec<String>)>)
    ensures
        args@.len() == 0 ==> r is None,
        args@.len() > 0 ==> (r matches Some((c, rest)) && c@ == args@[0]@ && rest.deep_view()
            == args.deep_view().drop_first()),
{
    if args.len() == 0 {
        return None;
    }
    let command = args[0].clone();
    let mut rest: Vec<String> = Vec::new();
    let mut i: usize = 1;
    while i < args.len()
        invariant
            1 <= i <= args@.len(),
            rest.deep_view() == args.deep_view().subrange(1, i as int),
        decreases args@.len() - i,
    {
        let ghost prev = rest.deep_view();
        let a = args[i].clone();
        assert(args.deep_view()[i as int] == a@);
        rest.push(a);
        assert(rest.deep_view() =~= prev.push(a@));
        assert(rest.deep_view() =~= args.deep_view().subrange(1, i + 1));
        i = i + 1;
    }
    assert(args.deep_view().subrange(1, args@.len() as int) =~= args.deep_view().drop_first());
    Some((command, rest))
}

/// The plugin tried for an unknown command: `adi.cli.` and the command.
pub open spec fn autoinstall_id_of(command: Seq<char>) -> Seq<char> {
    "adi.cli."@ + command
}

/// The plugin tried for an unknown command (see `autoinstall_id_of`).
pub fn autoinstall_plugin_id(command: &str) -> (r: String)
    ensures
        r@ == autoinstall_id_of(command@),
{
    let mut r = owned("adi.cli.");
    r.append(command);
    r
}

/// How installing a plugin on demand ended.
pub enum AutoinstallResult {
    /// The plugin was installed; its ID.
    Installed(String),
    /// The registry has no plugin for the command.
    NotFound,
    /// Installation was declined, or is switched off.
    Declined,
    /// Installation failed.
    Failed,
}

/// What to do once the registry has been asked for the plugin.
#[derive(PartialEq, Eq, Structural, Debug, Clone, Copy)]
pub enum AutoinstallAction {
    /// Report the command as unknown, with the commands that are available.
    ReportUnknown,
    /// Say that installation on demand is switched off, and stop.
    Decline,
    /// Ask the user whether to install.
    Ask,
    /// Install without asking.
    Install,
}

/// The next step of installing on demand: whether the registry has the
/// plugin (a failed query counts as not), whether installation on demand
/// is switched off, and whether the session is interactive.
pub open spec fn autoinstall_action_of(found: bool, disabled: bool, interactive: bool) -> AutoinstallAction {
    if !found {
        AutoinstallAction::ReportUnknown
    } else if disabled {
        AutoinstallAction::Decline
    } else if interactive {
        AutoinstallAction::Ask
    } else {
        AutoinstallAction::Install
    }
}

/// The next step of installing on demand (see `autoinstall_action_of`).
pub fn autoinstall_action(found: bool, disabled: bool, interactive: bool) -> (r: AutoinstallAction)
    ensures
        r == autoinstall_action_of(found, disabled, interactive),
{
    if !found {
        AutoinstallAction::ReportUnknown
    } else if disabled {
        AutoinstallAction::Decline
    } else if interactive {
        AutoinstallAction::Ask
    } else {
        AutoinstallAction::Install
    }
}

/// Whether an answer to "install?" accepts: the line read, trimmed and in
/// lower case, is `y` or `yes`; an unreadable answer declines.
pub open spec fn accepts(answer: Option<Seq<char>>) -> bool {
    match answer {
        Some(a) => lowercase(trim_ws(a)) == "y"@ || lowercase(trim_ws(a)) == "yes"@,
        None => false,
    }
}

/// Whether an answer to "install?" accepts (see `accepts`).
pub fn answer_accepts(answer: Option<&str>) -> (r: bool)
    ensures
        r == accepts(
            match answer {
                Some(a) => Some(a@),
                None => None,
            },
        ),
{
    match answer {
        Some(a) => {
            let t = trim(a);
            let l = to_lowercase(t.as_str());
            str_eq(l.as_str(), "y") || str_eq(l.as_str(), "yes")
        },
        None => false,
    }
}

/// How installing on demand ended once the installation was tried: the
/// plugin's ID when it succeeded.
pub fn install_outcome(plugin_id: String, succeeded: bool) -> (r: AutoinstallResult)
    ensures
        succeeded ==> (r matches AutoinstallResult::Installed(id) && id@ == plugin_id@),
        !succeeded ==> r is Failed,
{
    if succeeded {
        AutoinstallResult::Installed(plugin_id)
    } else {
        AutoinstallResult::Failed
    }
}

/// The note that lists a command's aliases, e.g. ` (aliases: t, tk)`; none
/// for a command without aliases.
pub open spec fn alias_note_of(aliases: Seq<Seq<char>>) -> Option<Seq<char>> {
    if aliases.len() == 0 {
        None
    } else {
        Some(" (aliases: "@ + join(aliases, ", "@) + ")"@)
    }
}

/// The note that lists a command's aliases (see `alias_note_of`).
pub fn alias_note(command: &PluginCliCommand) -> (r: Option<String>)
    ensures
        r.deep_view() == alias_note_of(command.aliases.deep_view()),
{
    if command.aliases.len() == 0 {
        None
    } else {
        let mut n = owned(" (aliases: ");
        let j = join_strings(&command.aliases, ", ");
        n.append(j.as_str());
        n.append(")");
        Some(n)
    }
}

/// What a plugin command's result reports: its output, its error output,
/// and its exit code.
pub struct CliResult {
    pub stdout: Option<String>,
    pub stderr: Option<String>,
    pub exit_code: i64,
}

/// The exit code a result reports: its member `exit_code` when that is a
/// number written as an integer in the range of `i64`, else 0.
pub open spec fn result_exit_code(v: JsonValueView) -> i64 {
    match json_member(v, "exit_code"@) {
        Some(JsonValueView::Number(n)) => match i64_text_value(n) {
            Some(c) => c as i64,
            None => 0,
        },
        _ => 0,
    }
}

/// Whether `r` is what the JSON value `v` reports: the string members
/// `stdout` and `stderr`, and the exit code (see `result_exit_code`).
pub open spec fn cli_result_is(r: CliResult, v: JsonValueView) -> bool {
    &&& r.stdout.deep_view() == json_str_member(v, "stdout"@)
    &&& r.stderr.deep_view() == json_str_member(v, "stderr"@)
    &&& r.exit_code == result_exit_code(v)
}

/// What a plugin command's result, as a JSON value, reports.
pub fn cli_result_from_json(v: &JsonValue) -> (r: CliResult)
    ensures
        cli_result_is(r, v@),
{
    proof {
        reveal_strlit("stdout");
        reveal_strlit("stderr");
        reveal_strlit("exit_code");
    }
    let stdout = match member(v, "stdout") {
        Some(JsonValue::Str(s)) => Some(s.clone()),
        _ => None,
    };
    let stderr = match member(v, "stderr") {
        Some(JsonValue::Str(s)) => Some(s.clone()),
        _ => None,
    };
    let exit_code = match member(v, "exit_code") {
        Some(JsonValue::Number(n)) => {
            let c = str_chars(n.as_str());
            match parse_i64(c.as_slice()) {
                Some(x) => x,
                None => 0,
            }
        },
        _ => 0,
    };
    CliResult { stdout, stderr, exit_code }
}

/// What a plugin command's result text reports, read with `serde_json`:
/// nothing, with exit code 0, when the text is not JSON.
pub fn parse_cli_result(result: &str) -> (r: CliResult)
    ensures
        match json_of_text(result@) {
            Ok(v) => cli_result_is(r, v),
            Err(_) => r.stdout is None && r.stderr is None && r.exit_code == 0,
        },
{
    match parse_json(result) {
        Ok(v) => cli_result_from_json(&v),
        Err(_) => CliResult { stdout: None, stderr: None, exit_code: 0 },
    }
}

} // verus!
