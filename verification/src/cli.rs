//! What the command line asks for: the checks on its options and the
//! action they select.
use vstd::prelude::*;

use crate::deepl::{opt_view, Babello};
use crate::hook::{
    generate_commit_msg_hook, hook_exit_status, hook_language, hook_language_error,
    rendered_hook,
};
use crate::languages::{
    entry_order, is_write_supported, pair_views, sorted_lang_items,
    write_supported_codes, EntryView, LanguageMap,
};
use crate::text::views;

verus! {

/// The options of the command line.
pub struct CliOptions {
    /// The texts to translate or correct.
    pub text: Option<Vec<String>>,
    /// The source language of the texts.
    pub from: Option<String>,
    /// The language to translate to.
    pub to: Option<String>,
    /// Report the usage of the account.
    pub usage: bool,
    /// List the supported languages.
    pub languages: bool,
    /// Correct spelling and grammar instead of translating.
    pub improve: bool,
    /// Print a commit-msg hook that warns.
    pub generate_hook_warn: bool,
    /// Print a commit-msg hook that blocks the commit.
    pub generate_hook_block: bool,
    /// Print the results as JSON.
    pub json: bool,
}

/// The call to the service that the command line asks for.
#[derive(PartialEq, Eq, Structural)]
pub enum ServiceCall {
    Improve,
    Usage,
    Translate,
}

/// What the command line asks for.
pub enum CliPlan {
    /// Print these lines, one language each.
    ListLanguages(Vec<String>),
    /// Print this hook script.
    PrintHook(String),
    /// Call the service.
    Call(ServiceCall),
}

/// [`CliPlan`] as contracts see it.
pub enum CliPlanView {
    ListLanguages(Seq<Seq<char>>),
    PrintHook(Seq<char>),
    Call(ServiceCall),
}

pub open spec fn plan_view(r: Result<CliPlan, String>) -> Result<CliPlanView, Seq<char>> {
    match r {
        Ok(CliPlan::ListLanguages(lines)) => Ok(CliPlanView::ListLanguages(views(lines@))),
        Ok(CliPlan::PrintHook(h)) => Ok(CliPlanView::PrintHook(h@)),
        Ok(CliPlan::Call(c)) => Ok(CliPlanView::Call(c)),
        Err(e) => Err(e@),
    }
}

/// The line of a language in the list: code, then name.
pub open spec fn listing_line(e: EntryView) -> Seq<char> {
    e.0 + " : "@ + e.1
}

/// The list of languages: one line per entry, sorted by code.
pub open spec fn language_listing(entries: Seq<EntryView>) -> Seq<Seq<char>> {
    entries.sort_by(entry_order()).map_values(|e: EntryView| listing_line(e))
}

/// The target language of the command line, empty when none is given.
pub open spec fn target_of(cli: CliOptions) -> Seq<char> {
    match cli.to {
        Some(t) => t@,
        None => Seq::<char>::empty(),
    }
}

/// What the command line asks for, or the error it is answered with.
pub open spec fn expected_plan(cli: CliOptions, m: Map<Seq<char>, Seq<char>>, entries: Seq<
    EntryView,
>) -> Result<CliPlanView, Seq<char>> {
    if cli.languages {
        Ok(CliPlanView::ListLanguages(language_listing(entries)))
    } else if cli.generate_hook_warn || cli.generate_hook_block {
        let lang = hook_language(opt_view(cli.to));
        if write_supported_codes().contains(lang) {
            Ok(
                CliPlanView::PrintHook(
                    rendered_hook(lang, hook_exit_status(cli.generate_hook_block)),
                ),
            )
        } else {
            Err(hook_language_error(lang))
        }
    } else if cli.from is Some && !m.dom().contains(cli.from->0@) {
        Err("'"@ + cli.from->0@ + "' unsupported language to translate"@ + " from"@)
    } else if cli.improve && !write_supported_codes().contains(target_of(cli)) {
        Err("'"@ + target_of(cli) + "' unsupported language for text improvement"@)
    } else if !cli.usage && !m.dom().contains(target_of(cli)) {
        Err("'"@ + target_of(cli) + "' unsupported language to translate to"@)
    } else if cli.improve {
        Ok(CliPlanView::Call(ServiceCall::Improve))
    } else if cli.usage {
        Ok(CliPlanView::Call(ServiceCall::Usage))
    } else {
        Ok(CliPlanView::Call(ServiceCall::Translate))
    }
}

/// A hook request prints the hook for the requested language (English
/// (American) when none is given) when the text-improvement service
/// accepts it: the hook blocks the commit (exit status 1) on a suggested
/// correction when blocking was asked for, and only warns (exit status 0)
/// otherwise.
pub proof fn lemma_hook_plan(cli: CliOptions, m: Map<Seq<char>, Seq<char>>, entries: Seq<EntryView>)
    requires
        !cli.languages,
        cli.generate_hook_warn || cli.generate_hook_block,
    ensures
        ({
            let lang = match cli.to {
                Some(t) => t@,
                None => "EN-US"@,
            };
            let status = if cli.generate_hook_block {
                "1"@
            } else {
                "0"@
            };
            &&& expected_plan(cli, m, entries) is Ok <==> write_supported_codes().contains(lang)
            &&& expected_plan(cli, m, entries) matches Ok(v) ==> v == CliPlanView::PrintHook(
                rendered_hook(lang, status),
            )
        }),
{
}

/// `'lang` followed by `rest`.
fn quoted_error(lang: &str, rest: &str) -> (e: String)
    ensures
        e@ == "'"@ + lang@ + rest@,
{
    let mut e = String::from_str("'");
    e.append(lang);
    e.append(rest);
    e
}

/// The lines of the language list, sorted by code.
pub fn language_list_lines(languages: &LanguageMap) -> (lines: Vec<String>)
    ensures
        views(lines@) == language_listing(languages.entry_seq()),
        lines@.len() == languages@.dom().len(),
{
    let items = sorted_lang_items(languages, None, false);
    let ghost iv = pair_views(items@);
    assert(iv =~= languages.entry_seq().sort_by(entry_order()));
    let mut lines: Vec<String> = Vec::new();
    let mut i: usize = 0;
    while i < items.len()
        invariant
            iv == pair_views(items@),
            i <= items@.len(),
            views(lines@) == iv.take(i as int).map_values(|e: EntryView| listing_line(e)),
        decreases items.len() - i,
    {
        let mut line = items[i].0.clone();
        line.append(" : ");
        line.append(items[i].1.as_str());
        let ghost before = views(lines@);
        lines.push(line);
        assert(views(lines@) =~= before.push(listing_line(iv[i as int])));
        assert(iv.take(i + 1) =~= iv.take(i as int).push(iv[i as int]));
        i = i + 1;
    }
    assert(iv.take(items@.len() as int) =~= iv);
    lines
}

/// Checks the options of the command line against the language table and
/// selects what to do: list the languages, print a hook, or call the
/// service; or answers with the error the options deserve.
pub fn plan(cli: &CliOptions, languages: &LanguageMap) -> (r: Result<CliPlan, String>)
    ensures
        plan_view(r) == expected_plan(*cli, languages@, languages.entry_seq()),
        !cli.languages && (cli.generate_hook_warn || cli.generate_hook_block) ==> (r is Ok
            <==> write_supported_codes().contains(hook_language(opt_view(cli.to)))),
        !cli.languages && cli.generate_hook_block ==> (r matches Ok(CliPlan::PrintHook(h))
            ==> h@ == rendered_hook(hook_language(opt_view(cli.to)), "1"@)),
        !cli.languages && cli.generate_hook_warn && !cli.generate_hook_block ==> (r matches Ok(
            CliPlan::PrintHook(h),
        ) ==> h@ == rendered_hook(hook_language(opt_view(cli.to)), "0"@)),
{
    proof {
        if !cli.languages && (cli.generate_hook_warn || cli.generate_hook_block) {
            lemma_hook_plan(*cli, languages@, languages.entry_seq());
        }
    }
    if cli.languages {
        return Ok(CliPlan::ListLanguages(language_list_lines(languages)));
    }
    if cli.generate_hook_warn || cli.generate_hook_block {
        let to: Option<&str> = match &cli.to {
            Some(t) => Some(t.as_str()),
            None => None,
        };
        return match generate_commit_msg_hook(to, cli.generate_hook_block) {
            Ok(h) => Ok(CliPlan::PrintHook(h)),
            Err(e) => Err(e),
        };
    }
    if let Some(from) = &cli.from {
        if !languages.contains_key(from.as_str()) {
            let mut e = quoted_error(from.as_str(), "' unsupported language to translate");
            e.append(" from");
            return Err(e);
        }
    }
    let to: &str = match &cli.to {
        Some(t) => t.as_str(),
        None => "",
    };
    proof {
        reveal_strlit("");
    }
    assert(to@ == target_of(*cli));
    if cli.improve && !is_write_supported(to) {
        return Err(quoted_error(to, "' unsupported language for text improvement"));
    } else if !cli.usage && !languages.contains_key(to) {
        return Err(quoted_error(to, "' unsupported language to translate to"));
    }
    if cli.improve {
        Ok(CliPlan::Call(ServiceCall::Improve))
    } else if cli.usage {
        Ok(CliPlan::Call(ServiceCall::Usage))
    } else {
        Ok(CliPlan::Call(ServiceCall::Translate))
    }
}

/// The texts of the command line, none when it gives none.
pub open spec fn cli_texts(cli: CliOptions) -> Seq<Seq<char>> {
    match cli.text {
        Some(v) => views(v@),
        None => Seq::<Seq<char>>::empty(),
    }
}

/// The service request for the command line: its texts, its source
/// language and its target language (empty when none is given).
pub fn request_for(cli: &CliOptions, api_key: String) -> (b: Babello)
    ensures
        b.api_key == api_key,
        views(b.text@) == cli_texts(*cli),
        opt_view(b.source_lang) == opt_view(cli.from),
        b.target_lang@ == target_of(*cli),
{
    let mut text: Vec<String> = Vec::new();
    if let Some(v) = &cli.text {
        let mut i: usize = 0;
        while i < v.len()
            invariant
                i <= v@.len(),
                views(text@) == views(v@).take(i as int),
            decreases v.len() - i,
        {
            let ghost before = views(text@);
            text.push(v[i].clone());
            assert(views(text@) =~= before.push(v@[i as int]@));
            assert(views(v@).take(i + 1) =~= views(v@).take(i as int).push(v@[i as int]@));
            i = i + 1;
        }
        assert(views(v@).take(v@.len() as int) =~= views(v@));
    } else {
        assert(views(text@) =~= Seq::<Seq<char>>::empty());
    }
    let source = match &cli.from {
        Some(f) => Some(f.clone()),
        None => None,
    };
    let target = match &cli.to {
        Some(t) => t.clone(),
        None => String::new(),
    };
    Babello::new(api_key, text, source, target)
}

} // verus!
