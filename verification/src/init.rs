//! Choosing the user interface language and theme at start-up, and the
//! languages that translation plugins offer.
//!
//! Reading the environment and the configuration file, prompting the user and
//! installing translation plugins stand outside this library.
use vstd::prelude::*;
use crate::toml_doc::{
    TomlValue, TomlValueView, member as toml_member_of, parse_toml, str_member as toml_str_member_of, toml_member,
    toml_of_text, toml_str_member,
};
use crate::text::{has_prefix, owned, split_char, split_on, starts_with, str_chars, str_eq, string_from_chars};

verus! {

/// The outcome of language detection.
pub enum LanguageChoice {
    /// This language was found.
    Chosen(String),
    /// Nothing chose a language and this is an interactive first run: ask the user.
    Prompt,
    /// Nothing chose a language: use the default, `en-US`.
    Default,
}

/// The sequence `s` with every `from` replaced by `to`.
pub open spec fn replace_char(s: Seq<char>, from: char, to: char) -> Seq<char> {
    s.map_values(|c: char| if c == from { to } else { c })
}

/// The language named by a system locale such as `uk_UA.UTF-8`: the part
/// before the first `.`, with `_` written as `-`.
pub open spec fn locale_language(system_lang: Seq<char>) -> Seq<char> {
    replace_char(split_on(system_lang, '.')[0], '_', '-')
}

/// Language detection by priority: the `--lang` flag, then `ADI_LANG`, then
/// the saved preference, then the system `LANG`; with none of them, a prompt
/// on an interactive first run, else the default.
pub open spec fn language_choice(
    flag: Option<Seq<char>>,
    env_lang: Option<Seq<char>>,
    saved: Option<Seq<char>>,
    system_lang: Option<Seq<char>>,
    first_interactive_run: bool,
) -> (Option<Seq<char>>, bool) {
    if flag is Some {
        (flag, false)
    } else if env_lang is Some {
        (env_lang, false)
    } else if saved is Some {
        (saved, false)
    } else if system_lang is Some {
        (Some(locale_language(system_lang->0)), false)
    } else {
        (None, first_interactive_run)
    }
}

/// `replace_char` (executable).
fn replace_chars(s: &[char], from: char, to: char) -> (r: Vec<char>)
    ensures
        r@ == replace_char(s@, from, to),
{
    let mut r: Vec<char> = Vec::new();
    let mut i: usize = 0;
    while i < s.len()
        invariant
            i <= s@.len(),
            r@ =~= replace_char(s@.take(i as int), from, to),
        decreases s@.len() - i,
    {
        let c = s[i];
        r.push(if c == from {
            to
        } else {
            c
        });
        i = i + 1;
    }
    assert(s@.take(s@.len() as int) =~= s@);
    r
}

/// The language named by a system locale (executable).
pub fn normalize_locale(system_lang: &str) -> (r: String)
    ensures
        r@ == locale_language(system_lang@),
{
    let s = str_chars(system_lang);
    let parts = split_char(s.as_slice(), '.');
    proof {
        crate::text::lemma_split_nonempty(s@, '.');
    }
    let first = replace_chars(parts[0].as_slice(), '_', '-');
    string_from_chars(first.as_slice())
}

/// Chooses the user interface language (see `language_choice`).
pub fn resolve_language(
    flag: Option<&str>,
    env_lang: Option<String>,
    saved: Option<String>,
    system_lang: Option<String>,
    first_interactive_run: bool,
) -> (r: LanguageChoice)
    ensures
        ({
            let (lang, prompt) = language_choice(
                match flag {
                    Some(f) => Some(f@),
                    None => None,
                },
                env_lang.deep_view(),
                saved.deep_view(),
                system_lang.deep_view(),
                first_interactive_run,
            );
            match r {
                LanguageChoice::Chosen(l) => lang == Some(l@),
                LanguageChoice::Prompt => lang is None && prompt,
                LanguageChoice::Default => lang is None && !prompt,
            }
        }),
{
    if let Some(f) = flag {
        LanguageChoice::Chosen(owned(f))
    } else if let Some(l) = env_lang {
        LanguageChoice::Chosen(l)
    } else if let Some(l) = saved {
        LanguageChoice::Chosen(l)
    } else if let Some(l) = system_lang {
        LanguageChoice::Chosen(normalize_locale(l.as_str()))
    } else if first_interactive_run {
        LanguageChoice::Prompt
    } else {
        LanguageChoice::Default
    }
}

/// Chooses the theme: `ADI_THEME`, then the saved preference, then the default.
pub fn resolve_theme(env_theme: Option<String>, saved: Option<String>, default_theme: &str) -> (r: String)
    ensures
        r@ == (match env_theme {
            Some(t) => t@,
            None => match saved {
                Some(t) => t@,
                None => default_theme@,
            },
        }),
{
    match env_theme {
        Some(t) => t,
        None => match saved {
            Some(t) => t,
            None => owned(default_theme),
        },
    }
}

/// Whether `lang` needs a translation beyond the built-in English.
pub fn needs_translation(lang: &str) -> (r: bool)
    ensures
        r == (lang@ != "en-US"@),
{
    !str_eq(lang, "en-US")
}

/// The ID of the translation plugin for `lang`: `adi.cli.<lang>`.
pub fn translation_plugin_id(lang: &str) -> (r: String)
    ensures
        r@ == "adi.cli."@ + lang@,
{
    let mut r = owned("adi.cli.");
    r.append(lang);
    r
}

/// Whether installing a translation plugin should be tried: at most once a
/// day, judged by the age in seconds of the last attempt's stamp (none when
/// there is no stamp or its age cannot be read).
pub fn should_check_translation(stamp_age_secs: Option<u64>) -> (r: bool)
    ensures
        r == match stamp_age_secs {
            Some(age) => age > 86400,
            None => true,
        },
{
    match stamp_age_secs {
        Some(age) => age > 86400,
        None => true,
    }
}

/// A plugin as the registry lists it, as far as language discovery reads it.
pub struct PluginListing {
    pub id: String,
    pub name: String,
    pub plugin_type: String,
}

/// The sequence `s` without the prefix `p` when it has it (`str::strip_prefix`).
pub open spec fn strip_prefix(s: Seq<char>, p: Seq<char>) -> Option<Seq<char>> {
    if has_prefix(s, p) {
        Some(s.skip(p.len() as int))
    } else {
        None
    }
}

/// The language a registry plugin translates to, with its display name, if
/// it is a translation plugin for a language other than English.
pub open spec fn offered_language(p: PluginListing) -> Option<(Seq<char>, Seq<char>)> {
    if p.plugin_type@ == "translation"@ && strip_prefix(p.id@, "adi.cli."@) is Some && strip_prefix(
        p.id@,
        "adi.cli."@,
    )->0 != "en-US"@ {
        Some(
            (
                strip_prefix(p.id@, "adi.cli."@)->0,
                match strip_prefix(p.name@, "ADI CLI - "@) {
                    Some(n) => n,
                    None => p.name@,
                },
            ),
        )
    } else {
        None
    }
}

/// The languages offered by a list of registry plugins, in order.
pub open spec fn offered_languages(ps: Seq<PluginListing>) -> Seq<(Seq<char>, Seq<char>)>
    decreases ps.len(),
{
    if ps.len() == 0 {
        Seq::empty()
    } else {
        let r = offered_languages(ps.drop_last());
        match offered_language(ps.last()) {
            Some(l) => r.push(l),
            None => r,
        }
    }
}

/// `strip_prefix` (executable).
fn strip_prefix_exec(s: &str, p: &str) -> (r: Option<String>)
    ensures
        r.deep_view() == strip_prefix(s@, p@),
{
    let sc = str_chars(s);
    let pc = str_chars(p);
    if starts_with(sc.as_slice(), pc.as_slice()) {
        let mut rest: Vec<char> = Vec::new();
        let mut i: usize = pc.len();
        while i < sc.len()
            invariant
                pc@.len() <= i <= sc@.len(),
                rest@ =~= sc@.subrange(pc@.len() as int, i as int),
            decreases sc@.len() - i,
        {
            rest.push(sc[i]);
            i = i + 1;
        }
        assert(rest@ =~= sc@.skip(pc@.len() as int));
        Some(string_from_chars(rest.as_slice()))
    } else {
        None
    }
}

/// The languages to choose from: English first, then each language that a
/// translation plugin of the registry offers, with its display name (the
/// plugin's name without the `ADI CLI - ` prefix).
pub fn available_languages(plugins: &Vec<PluginListing>) -> (r: Vec<(String, String)>)
    ensures
        r.deep_view() == seq![("en-US"@, "English"@)] + offered_languages(plugins@),
{
    let mut r: Vec<(String, String)> = Vec::new();
    r.push((owned("en-US"), owned("English")));
    assert(r.deep_view() =~= seq![("en-US"@, "English"@)] + offered_languages(plugins@.take(0)));
    let mut i: usize = 0;
    while i < plugins.len()
        invariant
            i <= plugins@.len(),
            r.deep_view() =~= seq![("en-US"@, "English"@)] + offered_languages(plugins@.take(i as int)),
        decreases plugins@.len() - i,
    {
        let p = &plugins[i];
        assert(plugins@.take(i + 1).drop_last() =~= plugins@.take(i as int));
        assert(plugins@.take(i + 1).last() == plugins@[i as int]);
        if str_eq(p.plugin_type.as_str(), "translation") {
            if let Some(code) = strip_prefix_exec(p.id.as_str(), "adi.cli.") {
                if !str_eq(code.as_str(), "en-US") {
                    let display = match strip_prefix_exec(p.name.as_str(), "ADI CLI - ") {
                        Some(n) => n,
                        None => p.name.clone(),
                    };
                    let ghost prev = r.deep_view();
                    r.push((code, display));
                    assert(r.deep_view() =~= prev.push(offered_language(plugins@[i as int])->0));
                }
            }
        }
        i = i + 1;
    }
    assert(plugins@.take(plugins@.len() as int) =~= plugins@);
    r
}

/// The language code of an installed translation plugin's directory name, if
/// it is one for a language other than English.
pub fn installed_translation_code(dir_name: &str) -> (r: Option<String>)
    ensures
        match strip_prefix(dir_name@, "adi.cli."@) {
            Some(code) => if code == "en-US"@ {
                r is None
            } else {
                r.deep_view() == Some(code)
            },
            None => r is None,
        },
{
    match strip_prefix_exec(dir_name, "adi.cli.") {
        Some(code) => if str_eq(code.as_str(), "en-US") {
            None
        } else {
            Some(code)
        },
        None => None,
    }
}

/// The entries of the language menu: `<name> (<code>)` for each language.
pub fn language_menu_items(languages: &Vec<(String, String)>) -> (r: Vec<String>)
    ensures
        r@.len() == languages@.len(),
        forall|i: int|
            0 <= i < r@.len() ==> #[trigger] r@[i]@ == languages@[i].1@ + " ("@ + languages@[i].0@
                + ")"@,
{
    let mut r: Vec<String> = Vec::new();
    let mut i: usize = 0;
    while i < languages.len()
        invariant
            i <= languages@.len(),
            r@.len() == i,
            forall|j: int|
                0 <= j < i ==> #[trigger] r@[j]@ == languages@[j].1@ + " ("@ + languages@[j].0@ + ")"@,
        decreases languages@.len() - i,
    {
        let (code, name) = &languages[i];
        let mut item = name.clone();
        item.append(" (");
        item.append(code.as_str());
        item.append(")");
        r.push(item);
        i = i + 1;
    }
    r
}

/// The name of the stamp file that records the last attempt to install the
/// translation plugin `id`: `.<id>.last-check`.
pub fn translation_stamp_name(id: &str) -> (r: String)
    ensures
        r@ == "."@ + id@ + ".last-check"@,
{
    let mut r = owned(".");
    r.append(id);
    r.append(".last-check");
    r
}

/// The language taken on a first run: with only English to offer, English
/// without asking; otherwise the language the user selected (by its
/// position in the menu).
pub fn language_after_prompt(languages: &Vec<(String, String)>, selection: usize) -> (r: String)
    requires
        languages@.len() > 1 ==> selection < languages@.len(),
    ensures
        languages@.len() <= 1 ==> r@ == "en-US"@,
        languages@.len() > 1 ==> r@ == languages@[selection as int].0@,
{
    if languages.len() <= 1 {
        owned("en-US")
    } else {
        languages[selection].0.clone()
    }
}

/// Whether the first-run prompt asks the user at all: only when there is a
/// language besides English to offer.
pub fn prompt_offers_choice(languages: &Vec<(String, String)>) -> (r: bool)
    ensures
        r == (languages@.len() > 1),
{
    languages.len() > 1
}

/// The language name a translation plugin's manifest gives: the string
/// `language_name` of its `translation` table.
pub open spec fn language_name_of(manifest: TomlValueView) -> Option<Seq<char>> {
    match toml_member(manifest, "translation"@) {
        Some(t) => toml_str_member(t, "language_name"@),
        None => None,
    }
}

/// The language name a translation plugin's manifest gives (see
/// `language_name_of`).
pub fn manifest_language_name(manifest: &TomlValue) -> (r: Option<String>)
    ensures
        r.deep_view() == language_name_of(manifest@),
{
    proof {
        reveal_strlit("translation");
        reveal_strlit("language_name");
    }
    match toml_member_of(manifest, "translation") {
        Some(t) => toml_str_member_of(t, "language_name"),
        None => None,
    }
}

/// The display name of an installed translation language: the language
/// name its manifest's text gives, or else the code (also when the text is
/// not TOML, or there is no manifest to read).
pub open spec fn installed_language_name(code: Seq<char>, manifest_text: Option<Seq<char>>) -> Seq<char> {
    match manifest_text {
        Some(t) => match toml_of_text(t) {
            Ok(m) => match language_name_of(m) {
                Some(n) => n,
                None => code,
            },
            Err(_) => code,
        },
        None => code,
    }
}

/// An installed translation language as (code, display name), from the
/// text of its manifest if there is one (see `installed_language_name`).
pub fn installed_language(code: &str, manifest_text: Option<&str>) -> (r: (String, String))
    ensures
        r.0@ == code@,
        r.1@ == installed_language_name(
            code@,
            match manifest_text {
                Some(t) => Some(t@),
                None => None,
            },
        ),
{
    let name = match manifest_text {
        Some(t) => match parse_toml(t) {
            Ok(m) => match manifest_language_name(&m) {
                Some(n) => n,
                None => owned(code),
            },
            Err(_) => owned(code),
        },
        None => owned(code),
    };
    (owned(code), name)
}

} // verus!
