//! The plugin runtime's own logic: the commands that plugins provide, finding
//! the plugin behind a command, and turning a command line into the context
//! handed to a plugin.
//!
//! Loading plugin binaries and reading manifests stand outside this library.
use vstd::prelude::*;
use crate::text::{has_prefix, owned, starts_with, str_chars, str_eq, string_from_chars};
use crate::json::{
    JsonValue, JsonValueView, copy_json, json_member, json_of_text, json_str_member, json_view, json_views,
    lemma_json_member_views, lemma_json_views, json_member_views, member, parse_json,
};
use crate::table::{NamedTable, pairs_map};
use crate::error::InstallerError;

verus! {

/// A CLI command that a plugin's manifest declares.
pub struct PluginCliCommand {
    /// The command name (e.g. "tasks", "lint").
    pub command: String,
    /// The plugin that provides this command.
    pub plugin_id: String,
    /// Human-readable description.
    pub description: String,
    /// Optional short aliases.
    pub aliases: Vec<String>,
}

/// Plugin runtime configuration.
pub struct RuntimeConfig {
    /// Directory containing installed plugins.
    pub plugins_dir: String,
    /// Directory for the plugin cache.
    pub cache_dir: String,
    /// Registry URL for downloading plugins.
    pub registry_url: Option<String>,
    /// Whether to require plugin signatures.
    pub require_signatures: bool,
    /// Host version for compatibility checking.
    pub host_version: String,
}

/// Whether a command answers to `name`, by its name or one of its aliases.
pub open spec fn answers_to(c: PluginCliCommand, name: Seq<char>) -> bool {
    c.command@ == name || c.aliases.deep_view().contains(name)
}

/// Whether `name` is one of `names`.
fn contains_name(names: &Vec<String>, name: &str) -> (r: bool)
    ensures
        r == names.deep_view().contains(name@),
{
    let mut i: usize = 0;
    while i < names.len()
        invariant
            i <= names@.len(),
            forall|j: int| 0 <= j < i ==> names.deep_view()[j] != name@,
        decreases names@.len() - i,
    {
        if str_eq(names[i].as_str(), name) {
            assert(names.deep_view()[i as int] == name@);
            return true;
        }
        i = i + 1;
    }
    false
}

/// The plugin behind a command name or alias: that of the first command
/// that answers to it.
pub fn find_plugin_by_command(commands: &Vec<PluginCliCommand>, command: &str) -> (r: Option<String>)
    ensures
        match r {
            Some(id) => exists|i: int|
                0 <= i < commands@.len() && answers_to(commands@[i], command@) && id@
                    == commands@[i].plugin_id@ && forall|j: int|
                    0 <= j < i ==> !answers_to(#[trigger] commands@[j], command@),
            None => forall|j: int| 0 <= j < commands@.len() ==> !answers_to(#[trigger] commands@[j], command@),
        },
{
    let mut i: usize = 0;
    while i < commands.len()
        invariant
            i <= commands@.len(),
            forall|j: int| 0 <= j < i ==> !answers_to(#[trigger] commands@[j], command@),
        decreases commands@.len() - i,
    {
        let c = &commands[i];
        if str_eq(c.command.as_str(), command) || contains_name(&c.aliases, command) {
            return Some(c.plugin_id.clone());
        }
        i = i + 1;
    }
    None
}

/// The value of an option given on a plugin's command line.
pub enum OptionValue {
    /// `--key value`.
    Text(String),
    /// `--flag` with no value.
    Flag,
}

/// The abstract value of an option.
pub enum OptionValueView {
    Text(Seq<char>),
    Flag,
}

impl View for OptionValue {
    type V = OptionValueView;

    open spec fn view(&self) -> OptionValueView {
        match self {
            OptionValue::Text(s) => OptionValueView::Text(s@),
            OptionValue::Flag => OptionValueView::Flag,
        }
    }
}

impl DeepView for OptionValue {
    type V = OptionValueView;

    open spec fn deep_view(&self) -> OptionValueView {
        self@
    }
}

/// The options (in the order given) and the positional arguments of the
/// words after a subcommand: `--key value` when the next word is not itself
/// an option, `--flag` otherwise; every other word is positional.
pub open spec fn split_options(words: Seq<Seq<char>>) -> (Seq<(Seq<char>, OptionValueView)>, Seq<Seq<char>>)
    decreases words.len(),
{
    if words.len() == 0 {
        (Seq::empty(), Seq::empty())
    } else if has_prefix(words[0], "--"@) {
        let key = words[0].skip(2);
        if words.len() > 1 && !has_prefix(words[1], "--"@) {
            let rest = split_options(words.skip(2));
            (seq![(key, OptionValueView::Text(words[1]))] + rest.0, rest.1)
        } else {
            let rest = split_options(words.skip(1));
            (seq![(key, OptionValueView::Flag)] + rest.0, rest.1)
        }
    } else {
        let rest = split_options(words.skip(1));
        (rest.0, seq![words[0]] + rest.1)
    }
}

/// The words after the first (none for an empty list).
pub open spec fn after_first(s: Seq<Seq<char>>) -> Seq<Seq<char>> {
    if s.len() > 0 {
        s.skip(1)
    } else {
        Seq::empty()
    }
}

/// A plugin command line taken apart.
pub struct CliArgs {
    /// The subcommand: the first argument, if any.
    pub subcommand: Option<String>,
    /// The options after the subcommand, in order; a later one for the same
    /// key overrides an earlier one.
    pub options: Vec<(String, OptionValue)>,
    /// The positional arguments after the subcommand.
    pub positional: Vec<String>,
}

/// Whether `w` starts with `--` (executable).
fn is_option_word(w: &String) -> (r: bool)
    ensures
        r == has_prefix(w@, "--"@),
        r ==> w@.len() >= 2,
{
    proof {
        reveal_strlit("--");
    }
    let c = str_chars(w.as_str());
    let d = str_chars("--");
    starts_with(c.as_slice(), d.as_slice())
}

/// The word without its first two characters.
fn option_key(w: &String) -> (r: String)
    requires
        w@.len() >= 2,
    ensures
        r@ == w@.skip(2),
{
    let c = str_chars(w.as_str());
    let mut k: Vec<char> = Vec::new();
    let mut i: usize = 2;
    while i < c.len()
        invariant
            2 <= i <= c@.len(),
            k@ =~= c@.subrange(2, i as int),
        decreases c@.len() - i,
    {
        k.push(c[i]);
        i = i + 1;
    }
    string_from_chars(k.as_slice())
}

/// Takes a plugin command line apart: the first argument is the subcommand,
/// and the words after it are split into options and positional arguments
/// (see `split_options`).
pub fn parse_cli_args(args: &Vec<String>) -> (r: CliArgs)
    ensures
        r.subcommand.deep_view() == (if args@.len() > 0 {
            Some(args@[0]@)
        } else {
            None
        }),
        (r.options.deep_view(), r.positional.deep_view()) == split_options(
            after_first(args.deep_view()),
        ),
{
    proof {
        reveal_strlit("--");
    }
    let mut options: Vec<(String, OptionValue)> = Vec::new();
    let mut positional: Vec<String> = Vec::new();
    if args.len() == 0 {
        assert(options.deep_view() =~= Seq::<(Seq<char>, OptionValueView)>::empty());
        assert(positional.deep_view() =~= Seq::<Seq<char>>::empty());
        return CliArgs { subcommand: None, options, positional };
    }
    let subcommand = Some(args[0].clone());
    let ghost words = args.deep_view().skip(1);
    let mut i: usize = 1;
    assert(options.deep_view() =~= Seq::<(Seq<char>, OptionValueView)>::empty());
    assert(positional.deep_view() =~= Seq::<Seq<char>>::empty());
    while i < args.len()
        invariant
            1 <= i <= args@.len(),
            words == args.deep_view().skip(1),
            ({
                let rest = split_options(args.deep_view().skip(i as int));
                split_options(words) == (options.deep_view() + rest.0, positional.deep_view() + rest.1)
            }),
        decreases args@.len() - i,
    {
        let ghost ws = args.deep_view().skip(i as int);
        assert(ws[0] == args@[i as int]@);
        let w = &args[i];
        if is_option_word(w) {
            let key = option_key(w);
            if i + 1 < args.len() && !is_option_word(&args[i + 1]) {
                assert(ws[1] == args@[i + 1]@);
                assert(ws.skip(2) =~= args.deep_view().skip(i + 2));
                let ghost prev = options.deep_view();
                options.push((key, OptionValue::Text(args[i + 1].clone())));
                assert(options.deep_view() =~= prev.push((ws[0].skip(2), OptionValueView::Text(ws[1]))));
                assert(prev.push((ws[0].skip(2), OptionValueView::Text(ws[1]))) + split_options(ws.skip(2)).0
                    =~= prev + (seq![(ws[0].skip(2), OptionValueView::Text(ws[1]))] + split_options(
                    ws.skip(2),
                ).0));
                i = i + 2;
            } else {
                assert(ws.skip(1) =~= args.deep_view().skip(i + 1));
                let ghost prev = options.deep_view();
                options.push((key, OptionValue::Flag));
                assert(options.deep_view() =~= prev.push((ws[0].skip(2), OptionValueView::Flag)));
                assert(prev.push((ws[0].skip(2), OptionValueView::Flag)) + split_options(ws.skip(1)).0
                    =~= prev + (seq![(ws[0].skip(2), OptionValueView::Flag)] + split_options(
                    ws.skip(1),
                ).0));
                i = i + 1;
            }
        } else {
            assert(ws.skip(1) =~= args.deep_view().skip(i + 1));
            let ghost prev = positional.deep_view();
            positional.push(w.clone());
            assert(positional.deep_view() =~= prev.push(ws[0]));
            assert(prev.push(ws[0]) + split_options(ws.skip(1)).1 =~= prev + (seq![ws[0]]
                + split_options(ws.skip(1)).1));
            i = i + 1;
        }
    }
    proof {
        let rest = args.deep_view().skip(i as int);
        assert(rest =~= Seq::<Seq<char>>::empty());
        assert(options.deep_view() + Seq::<(Seq<char>, OptionValueView)>::empty() =~= options.deep_view());
        assert(positional.deep_view() + Seq::<Seq<char>>::empty() =~= positional.deep_view());
    }
    CliArgs { subcommand, options, positional }
}

/// The strings among a list of JSON values, in order; other values are
/// skipped.
pub open spec fn string_items(items: Seq<JsonValueView>) -> Seq<Seq<char>>
    decreases items.len(),
{
    if items.len() == 0 {
        Seq::empty()
    } else {
        let r = string_items(items.drop_last());
        match items.last() {
            JsonValueView::Str(s) => r.push(s),
            _ => r,
        }
    }
}

/// The command-line words of a plugin context: the strings of its `args`
/// array (none when it has no such array).
pub open spec fn context_args(v: JsonValueView) -> Seq<Seq<char>> {
    match json_member(v, "args"@) {
        Some(JsonValueView::Array(items)) => string_items(items),
        _ => Seq::empty(),
    }
}

/// The members of a plugin context's `options` object (none when it has no
/// such object).
pub open spec fn context_object_options(v: JsonValueView) -> Seq<(Seq<char>, JsonValueView)> {
    match json_member(v, "options"@) {
        Some(JsonValueView::Object(m)) => m,
        _ => Seq::empty(),
    }
}

/// An option of the command line as a JSON value: `--key value` gives the
/// string, `--flag` gives `true`.
pub open spec fn option_json(o: OptionValueView) -> JsonValueView {
    match o {
        OptionValueView::Text(s) => JsonValueView::Str(s),
        OptionValueView::Flag => JsonValueView::Bool(true),
    }
}

/// Command-line options as (key, JSON value) pairs, in order.
pub open spec fn options_as_json(opts: Seq<(Seq<char>, OptionValueView)>) -> Seq<(Seq<char>, JsonValueView)> {
    opts.map_values(|o: (Seq<char>, OptionValueView)| (o.0, option_json(o.1)))
}

/// The options of a plugin context: the members of its `options` object,
/// then each option of its command line after the subcommand, a later one
/// overriding an earlier one of the same key.
pub open spec fn context_options(v: JsonValueView) -> Map<Seq<char>, JsonValueView> {
    pairs_map(
        context_object_options(v) + options_as_json(split_options(after_first(context_args(v))).0),
    )
}

/// The context a plugin command runs in.
pub struct CliContextData {
    /// The command name.
    pub command: String,
    /// The first word of the command line, if any.
    pub subcommand: Option<String>,
    /// The positional words after the subcommand.
    pub args: Vec<String>,
    /// The options by key.
    pub options: NamedTable<JsonValue>,
    /// The working directory.
    pub cwd: String,
}

/// Whether `c` is the context described by the JSON value `v`, with
/// `current_dir` as the working directory when `v` names none: the command
/// is the string member `command` (else empty), the command line is
/// `context_args(v)` taken apart as `parse_cli_args` does, the options are
/// `context_options(v)`, and the working directory is the string member
/// `cwd`.
pub open spec fn context_described(c: CliContextData, v: JsonValueView, current_dir: Seq<char>) -> bool {
    let words = context_args(v);
    &&& c.command@ == (match json_str_member(v, "command"@) {
        Some(s) => s,
        None => Seq::empty(),
    })
    &&& c.subcommand.deep_view() == (if words.len() > 0 {
        Some(words[0])
    } else {
        None
    })
    &&& c.args.deep_view() == split_options(after_first(words)).1
    &&& c.options.wf()
    &&& c.options.map() == context_options(v)
    &&& c.cwd@ == (match json_str_member(v, "cwd"@) {
        Some(s) => s,
        None => current_dir,
    })
}

/// Sets option `key` to `value`, replacing an earlier value.
fn set_option(options: &mut NamedTable<JsonValue>, key: String, value: JsonValue)
    requires
        old(options).wf(),
    ensures
        final(options).wf(),
        final(options).map() == old(options).map().insert(key@, value@),
{
    match options.find(key.as_str()) {
        Some(i) => {
            let _ = options.replace_at(i, value);
        },
        None => {
            options.push_new(key, value);
        },
    }
}

/// The list with one more pair maps as the list's map with that pair
/// inserted.
proof fn lemma_pairs_map_push(s: Seq<(Seq<char>, JsonValueView)>, p: (Seq<char>, JsonValueView))
    ensures
        pairs_map(s.push(p)) == pairs_map(s).insert(p.0, p.1),
{
    assert(s.push(p).drop_last() =~= s);
}

/// The strings of the JSON array `items`.
fn string_words(items: &Vec<JsonValue>) -> (r: Vec<String>)
    ensures
        r.deep_view() == string_items(json_views(items@)),
{
    let ghost vs = json_views(items@);
    proof {
        lemma_json_views(items@);
    }
    let mut r: Vec<String> = Vec::new();
    let mut i: usize = 0;
    assert(vs.subrange(0, 0) =~= Seq::<JsonValueView>::empty());
    assert(r.deep_view() =~= Seq::<Seq<char>>::empty());
    while i < items.len()
        invariant
            i <= items@.len(),
            vs == json_views(items@),
            vs.len() == items@.len(),
            forall|j: int| 0 <= j < items@.len() ==> #[trigger] vs[j] == json_view(items@[j]),
            r.deep_view() == string_items(vs.subrange(0, i as int)),
        decreases items@.len() - i,
    {
        assert(vs.subrange(0, i + 1).drop_last() =~= vs.subrange(0, i as int));
        assert(vs.subrange(0, i + 1).last() == vs[i as int]);
        match &items[i] {
            JsonValue::Str(s) => {
                let ghost prev = r.deep_view();
                r.push(s.clone());
                assert(r.deep_view() =~= prev.push(s@));
            },
            _ => {},
        }
        i = i + 1;
    }
    assert(vs.subrange(0, items@.len() as int) =~= vs);
    r
}

/// The command-line words of the context `v` (see `context_args`).
fn context_words(v: &JsonValue) -> (r: Vec<String>)
    ensures
        r.deep_view() == context_args(v@),
{
    proof {
        reveal_strlit("args");
    }
    match member(v, "args") {
        Some(JsonValue::Array(items)) => string_words(items),
        _ => Vec::new(),
    }
}

/// The string member `key` of `v`, or `default`.
fn str_member_or(v: &JsonValue, key: &str, default: &str) -> (r: String)
    ensures
        r@ == (match json_str_member(v@, key@) {
            Some(s) => s,
            None => default@,
        }),
{
    match member(v, key) {
        Some(JsonValue::Str(s)) => s.clone(),
        _ => owned(default),
    }
}

/// The context that the JSON value `v` describes for a plugin command
/// (see `context_described`); `current_dir` is the working directory when
/// `v` names none.
pub fn cli_context_from_json(v: &JsonValue, current_dir: &str) -> (r: CliContextData)
    ensures
        context_described(r, v@, current_dir@),
{
    proof {
        reveal_strlit("command");
        reveal_strlit("cwd");
        reveal_strlit("options");
        reveal_strlit("");
    }
    let command = str_member_or(v, "command", "");
    assert(""@ =~= Seq::<char>::empty());
    let cwd = str_member_or(v, "cwd", current_dir);
    let words = context_words(v);
    let parsed = parse_cli_args(&words);
    let mut options: NamedTable<JsonValue> = NamedTable::new();
    let ghost obj = context_object_options(v@);
    match member(v, "options") {
        Some(JsonValue::Object(members)) => {
            let ghost ms = json_member_views(members@);
            proof {
                lemma_json_member_views(members@);
            }
            let mut i: usize = 0;
            assert(ms.subrange(0, 0) =~= Seq::<(Seq<char>, JsonValueView)>::empty());
            while i < members.len()
                invariant
                    i <= members@.len(),
                    ms == json_member_views(members@),
                    ms.len() == members@.len(),
                    forall|j: int|
                        0 <= j < members@.len() ==> #[trigger] ms[j] == (
                            members@[j].0@,
                            json_view(members@[j].1),
                        ),
                    options.wf(),
                    options.map() == pairs_map(ms.subrange(0, i as int)),
                decreases members@.len() - i,
            {
                proof {
                    lemma_pairs_map_push(ms.subrange(0, i as int), ms[i as int]);
                    assert(ms.subrange(0, i as int).push(ms[i as int]) =~= ms.subrange(0, i + 1));
                }
                set_option(&mut options, members[i].0.clone(), copy_json(&members[i].1));
                i = i + 1;
            }
            assert(ms.subrange(0, members@.len() as int) =~= ms);
        },
        _ => {},
    }
    assert(options.map() == pairs_map(obj));
    let ghost extra = options_as_json(parsed.options.deep_view());
    let mut j: usize = 0;
    assert(obj + extra.subrange(0, 0) =~= obj);
    while j < parsed.options.len()
        invariant
            j <= parsed.options@.len(),
            extra == options_as_json(parsed.options.deep_view()),
            extra.len() == parsed.options@.len(),
            options.wf(),
            options.map() == pairs_map(obj + extra.subrange(0, j as int)),
        decreases parsed.options@.len() - j,
    {
        let key = parsed.options[j].0.clone();
        let value = match &parsed.options[j].1 {
            OptionValue::Text(s) => JsonValue::Str(s.clone()),
            OptionValue::Flag => JsonValue::Bool(true),
        };
        proof {
            assert(extra[j as int] == (key@, value@));
            lemma_pairs_map_push(obj + extra.subrange(0, j as int), extra[j as int]);
            assert((obj + extra.subrange(0, j as int)).push(extra[j as int]) =~= obj + extra.subrange(0, j + 1));
        }
        set_option(&mut options, key, value);
        j = j + 1;
    }
    assert(extra.subrange(0, parsed.options@.len() as int) =~= extra);
    CliContextData {
        command,
        subcommand: parsed.subcommand,
        args: parsed.positional,
        options,
        cwd,
    }
}

/// The context of a plugin command from its JSON description, read with
/// `serde_json`: JSON that does not parse is an `Other` error carrying the
/// parser's message; otherwise the context it describes (see
/// `cli_context_from_json`).
pub fn parse_cli_context(context_json: &str, current_dir: &str) -> (r: Result<CliContextData, InstallerError>)
    ensures
        match json_of_text(context_json@) {
            Err(m) => r matches Err(InstallerError::Other(x)) && x@ == m,
            Ok(v) => r matches Ok(c) && context_described(c, v, current_dir@),
        },
{
    match parse_json(context_json) {
        Ok(v) => Ok(cli_context_from_json(&v, current_dir)),
        Err(m) => Err(InstallerError::Other(m)),
    }
}

} // verus!
