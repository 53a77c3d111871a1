//! The DeepL service: what is asked of it and how its answers are reported.
//! Sending the requests and decoding the JSON answers is left to the caller;
//! this module shapes the requests and the report text.
use vstd::prelude::*;

use crate::text::{decimal, push_decimal, split_text_lines, text_lines, views};

verus! {

/// One translated text, or one corrected text: the language the service
/// detected for the source and the resulting text.
pub struct DeepLTranslation {
    pub detected_source_language: String,
    pub text: String,
}

/// A spelling- and grammar-corrected text has the same shape as a
/// translation.
pub type DeepLWriteImprovement = DeepLTranslation;

impl View for DeepLTranslation {
    type V = (Seq<char>, Seq<char>);

    open spec fn view(&self) -> (Seq<char>, Seq<char>) {
        (self.detected_source_language@, self.text@)
    }
}

/// The views of a sequence of service results.
pub open spec fn result_views(v: Seq<DeepLTranslation>) -> Seq<(Seq<char>, Seq<char>)> {
    v.map_values(|t: DeepLTranslation| t@)
}

/// Characters used and available in the current billing period.
pub struct DeepLUsageAndLimits {
    pub character_count: usize,
    pub character_limit: usize,
}

/// One request to the service, for a list of texts.
pub struct Babello {
    /// The key that authorizes the requests.
    pub api_key: String,
    /// The texts to translate or correct, one result each.
    pub text: Vec<String>,
    /// The source language; `None` lets the service detect it.
    pub source_lang: Option<String>,
    /// The language to translate to (for a correction, empty lets the
    /// service keep the language of the text).
    pub target_lang: String,
}

pub enum HttpMethod {
    Get,
    Post,
}

/// The JSON body of a request.
pub struct RequestBody {
    /// The `text` field.
    pub text: Vec<String>,
    /// The `source_lang` field, when the request has one.
    pub source_lang: Option<String>,
    /// The `target_lang` field, when the request has one.
    pub target_lang: Option<String>,
}

/// An HTTP request to the service.
pub struct ApiRequest {
    pub method: HttpMethod,
    pub url: String,
    /// The value of the `Authorization` header.
    pub authorization: String,
    /// Whether the request carries the client's `User-Agent` header.
    pub send_user_agent: bool,
    pub body: Option<RequestBody>,
}

/// The view of an optional string.
pub open spec fn opt_view(s: Option<String>) -> Option<Seq<char>> {
    match s {
        Some(t) => Some(t@),
        None => None,
    }
}

/// The `Authorization` header for a key.
pub open spec fn authorization_for(key: Seq<char>) -> Seq<char> {
    "DeepL-Auth-Key "@ + key
}

/// The line that reports the detected source language.
pub open spec fn detected_line(lang: Seq<char>) -> Seq<char> {
    "Detected source language: "@ + lang
}

/// The line that reports a source text and its result.
pub open spec fn arrow_line(source: Seq<char>, result: Seq<char>) -> Seq<char> {
    source + " -> "@ + result
}

/// The report of the first `n` texts and results: for each, the detected
/// language when asked for, then the source and its result.
pub open spec fn report_lines(
    texts: Seq<Seq<char>>,
    results: Seq<(Seq<char>, Seq<char>)>,
    show_detected: bool,
    n: nat,
) -> Seq<Seq<char>>
    decreases n,
{
    if n == 0 {
        Seq::<Seq<char>>::empty()
    } else {
        let i = n - 1;
        let prev = report_lines(texts, results, show_detected, (n - 1) as nat);
        if show_detected {
            prev + seq![detected_line(results[i].0), arrow_line(texts[i], results[i].1)]
        } else {
            prev + seq![arrow_line(texts[i], results[i].1)]
        }
    }
}

/// The shape of a report of `n` pairs: with the detected language shown,
/// pair `i` takes lines `2i` (the language detected for its source) and
/// `2i + 1` (the source, an arrow, the result); without it, pair `i` takes
/// line `i`.
pub proof fn lemma_report_lines_shape(
    texts: Seq<Seq<char>>,
    results: Seq<(Seq<char>, Seq<char>)>,
    n: nat,
)
    requires
        n <= texts.len(),
        n <= results.len(),
    ensures
        report_lines(texts, results, true, n).len() == 2 * n,
        forall|i: int|
            0 <= i < n ==> #[trigger] report_lines(texts, results, true, n)[2 * i]
                == "Detected source language: "@ + results[i].0 && report_lines(
                texts,
                results,
                true,
                n,
            )[2 * i + 1] == texts[i] + " -> "@ + results[i].1,
        report_lines(texts, results, false, n).len() == n,
        forall|i: int|
            0 <= i < n ==> #[trigger] report_lines(texts, results, false, n)[i] == texts[i]
                + " -> "@ + results[i].1,
    decreases n,
{
    if n > 0 {
        let m = (n - 1) as nat;
        lemma_report_lines_shape(texts, results, m);
        let with = report_lines(texts, results, true, n);
        let with0 = report_lines(texts, results, true, m);
        assert forall|i: int| 0 <= i < n implies #[trigger] with[2 * i]
            == "Detected source language: "@ + results[i].0 && with[2 * i + 1] == texts[i]
            + " -> "@ + results[i].1 by {
            if i < m {
                assert(with[2 * i] == with0[2 * i]);
                assert(with[2 * i + 1] == with0[2 * i + 1]);
            }
        }
        let without = report_lines(texts, results, false, n);
        let without0 = report_lines(texts, results, false, m);
        assert forall|i: int| 0 <= i < n implies #[trigger] without[i] == texts[i] + " -> "@
            + results[i].1 by {
            if i < m {
                assert(without[i] == without0[i]);
            }
        }
    }
}

/// Lines equal to a report, read pair by pair on the texts and results.
proof fn lemma_report_shown(
    texts: Seq<String>,
    results: Seq<DeepLTranslation>,
    show: bool,
    lines: Seq<String>,
)
    requires
        views(lines) == report_lines(
            views(texts),
            result_views(results),
            show,
            zip_len(texts.len(), results.len()),
        ),
    ensures
        ({
            let n = zip_len(texts.len(), results.len());
            &&& show ==> lines.len() == 2 * n
            &&& show ==> forall|i: int|
                0 <= i < n ==> #[trigger] lines[2 * i]@ == "Detected source language: "@
                    + results[i].detected_source_language@ && lines[2 * i + 1]@ == texts[i]@
                    + " -> "@ + results[i].text@
            &&& !show ==> lines.len() == n
            &&& !show ==> forall|i: int|
                0 <= i < n ==> #[trigger] lines[i]@ == texts[i]@ + " -> "@ + results[i].text@
        }),
{
    let n = zip_len(texts.len(), results.len());
    let tv = views(texts);
    let rv = result_views(results);
    lemma_report_lines_shape(tv, rv, n);
    assert(views(lines).len() == lines.len());
    if show {
        assert forall|i: int| 0 <= i < n implies #[trigger] lines[2 * i]@
            == "Detected source language: "@ + results[i].detected_source_language@
            && lines[2 * i + 1]@ == texts[i]@ + " -> "@ + results[i].text@ by {
            assert(views(lines)[2 * i] == lines[2 * i]@);
            assert(views(lines)[2 * i + 1] == lines[2 * i + 1]@);
            assert(tv[i] == texts[i]@);
            assert(rv[i] == results[i]@);
        }
    } else {
        assert forall|i: int| 0 <= i < n implies #[trigger] lines[i]@ == texts[i]@ + " -> "@
            + results[i].text@ by {
            assert(views(lines)[i] == lines[i]@);
            assert(tv[i] == texts[i]@);
            assert(rv[i] == results[i]@);
        }
    }
}

/// The number of pairs when two sequences are zipped.
pub open spec fn zip_len(a: nat, b: nat) -> nat {
    if a < b {
        a
    } else {
        b
    }
}

/// A source text with its result, as the JSON report lists it.
pub struct ResultRecord {
    pub source: String,
    pub text: String,
    pub detected_source_language: String,
}

/// The usage report line.
pub open spec fn usage_line(count: nat, limit: nat) -> Seq<char> {
    "character_count: "@ + decimal(count) + " - character_limit: "@ + decimal(limit)
}

fn clone_strings(v: &Vec<String>) -> (r: Vec<String>)
    ensures
        views(r@) == views(v@),
{
    let mut r: Vec<String> = Vec::new();
    let mut i: usize = 0;
    while i < v.len()
        invariant
            i <= v@.len(),
            views(r@) == views(v@).take(i as int),
        decreases v.len() - i,
    {
        let ghost before = views(r@);
        r.push(v[i].clone());
        assert(views(r@) =~= before.push(v@[i as int]@));
        assert(views(v@).take(i + 1) =~= views(v@).take(i as int).push(v@[i as int]@));
        i = i + 1;
    }
    assert(views(v@).take(v@.len() as int) =~= views(v@));
    r
}

fn clone_opt(s: &Option<String>) -> (r: Option<String>)
    ensures
        opt_view(r) == opt_view(*s),
{
    match s {
        Some(t) => Some(t.clone()),
        None => None,
    }
}

/// The report of texts and their results, pair by pair.
fn report(texts: &Vec<String>, results: &Vec<DeepLTranslation>, show_detected: bool) -> (lines:
    Vec<String>)
    ensures
        views(lines@) == report_lines(
            views(texts@),
            result_views(results@),
            show_detected,
            zip_len(texts@.len(), results@.len()),
        ),
{
    let n = if texts.len() < results.len() {
        texts.len()
    } else {
        results.len()
    };
    let ghost tv = views(texts@);
    let ghost rv = result_views(results@);
    let mut lines: Vec<String> = Vec::new();
    let mut i: usize = 0;
    while i < n
        invariant
            tv == views(texts@),
            rv == result_views(results@),
            n <= texts@.len(),
            n <= results@.len(),
            i <= n,
            views(lines@) == report_lines(tv, rv, show_detected, i as nat),
        decreases n - i,
    {
        let ghost before = views(lines@);
        if show_detected {
            let mut d = String::from_str("Detected source language: ");
            d.append(results[i].detected_source_language.as_str());
            lines.push(d);
        }
        let mut a = texts[i].clone();
        a.append(" -> ");
        a.append(results[i].text.as_str());
        lines.push(a);
        proof {
            assert(rv[i as int] == results@[i as int]@);
            if show_detected {
                assert(views(lines@) =~= before + seq![
                    detected_line(rv[i as int].0),
                    arrow_line(tv[i as int], rv[i as int].1),
                ]);
            } else {
                assert(views(lines@) =~= before + seq![arrow_line(tv[i as int], rv[i as int].1)]);
            }
        }
        i = i + 1;
    }
    lines
}

/// Texts and their results as records, pair by pair.
fn records(texts: &Vec<String>, results: &Vec<DeepLTranslation>) -> (r: Vec<ResultRecord>)
    ensures
        r@.len() == zip_len(texts@.len(), results@.len()),
        forall|i: int|
            #![trigger r@[i]]
            0 <= i < r@.len() ==> r@[i].source@ == texts@[i]@ && r@[i].text@
                == results@[i].text@ && r@[i].detected_source_language@
                == results@[i].detected_source_language@,
{
    let n = if texts.len() < results.len() {
        texts.len()
    } else {
        results.len()
    };
    let mut r: Vec<ResultRecord> = Vec::new();
    let mut i: usize = 0;
    while i < n
        invariant
            n == zip_len(texts@.len(), results@.len()),
            i <= n,
            r@.len() == i,
            forall|k: int|
                #![trigger r@[k]]
                0 <= k < i ==> r@[k].source@ == texts@[k]@ && r@[k].text@
                    == results@[k].text@ && r@[k].detected_source_language@
                    == results@[k].detected_source_language@,
        decreases n - i,
    {
        r.push(
            ResultRecord {
                source: texts[i].clone(),
                text: results[i].text.clone(),
                detected_source_language: results[i].detected_source_language.clone(),
            },
        );
        i = i + 1;
    }
    r
}

impl Babello {
    /// A request for the texts of a command line, with the given languages.
    pub fn new(api_key: String, text: Vec<String>, source_lang: Option<String>, target_lang: String) -> (b: Babello)
        ensures
            b.api_key == api_key,
            b.text == text,
            b.source_lang == source_lang,
            b.target_lang == target_lang,
    {
        Babello { api_key, text, source_lang, target_lang }
    }

    /// A request for the text of an editor: one text per line of it
    /// (`str::lines`).
    pub fn for_editor_text(
        api_key: String,
        editor_text: &str,
        source_lang: Option<String>,
        target_lang: String,
    ) -> (b: Babello)
        ensures
            b.api_key == api_key,
            views(b.text@) == text_lines(editor_text@),
            b.source_lang == source_lang,
            b.target_lang == target_lang,
    {
        Babello { api_key, text: split_text_lines(editor_text), source_lang, target_lang }
    }

    /// The `Authorization` header value.
    fn authorization(&self) -> (r: String)
        ensures
            r@ == authorization_for(self.api_key@),
    {
        let mut a = String::from_str("DeepL-Auth-Key ");
        a.append(self.api_key.as_str());
        a
    }

    /// The translation request: the texts, the source language (empty when
    /// the service is to detect it) and the target language.
    pub fn translate_request(&self) -> (r: ApiRequest)
        ensures
            r.method is Post,
            r.url@ == "https://api.deepl.com/v2/translate"@,
            r.authorization@ == authorization_for(self.api_key@),
            r.send_user_agent,
            r.body is Some,
            views(r.body->0.text@) == views(self.text@),
            opt_view(r.body->0.source_lang) == Some(
                match self.source_lang {
                    Some(s) => s@,
                    None => Seq::<char>::empty(),
                },
            ),
            opt_view(r.body->0.target_lang) == Some(self.target_lang@),
    {
        let source = match &self.source_lang {
            Some(s) => s.clone(),
            None => String::new(),
        };
        ApiRequest {
            method: HttpMethod::Post,
            url: String::from_str("https://api.deepl.com/v2/translate"),
            authorization: self.authorization(),
            send_user_agent: true,
            body: Some(
                RequestBody {
                    text: clone_strings(&self.text),
                    source_lang: Some(source),
                    target_lang: Some(self.target_lang.clone()),
                },
            ),
        }
    }

    /// The correction request: the texts and the target language, no
    /// source language; an empty target language leaves the language to the
    /// service and the request then has no target language.
    pub fn improve_request(&self) -> (r: ApiRequest)
        ensures
            r.method is Post,
            r.url@ == "https://api.deepl.com/v2/write/correct"@,
            r.authorization@ == authorization_for(self.api_key@),
            r.send_user_agent,
            r.body is Some,
            views(r.body->0.text@) == views(self.text@),
            r.body->0.source_lang is None,
            opt_view(r.body->0.target_lang) == (if self.target_lang@.len() == 0 {
                None
            } else {
                Some(self.target_lang@)
            }),
    {
        let target = if self.target_lang.as_str().unicode_len() == 0 {
            None
        } else {
            Some(self.target_lang.clone())
        };
        ApiRequest {
            method: HttpMethod::Post,
            url: String::from_str("https://api.deepl.com/v2/write/correct"),
            authorization: self.authorization(),
            send_user_agent: true,
            body: Some(
                RequestBody { text: clone_strings(&self.text), source_lang: None, target_lang: target },
            ),
        }
    }

    /// The usage request: no body, no `User-Agent`.
    pub fn usage_request(&self) -> (r: ApiRequest)
        ensures
            r.method is Get,
            r.url@ == "https://api.deepl.com/v2/usage"@,
            r.authorization@ == authorization_for(self.api_key@),
            !r.send_user_agent,
            r.body is None,
    {
        ApiRequest {
            method: HttpMethod::Get,
            url: String::from_str("https://api.deepl.com/v2/usage"),
            authorization: self.authorization(),
            send_user_agent: false,
            body: None,
        }
    }

    /// The report of a translation: each text with its translation, after
    /// the detected language when no source language was given.
    pub fn translation_report(&self, translations: &Vec<DeepLTranslation>) -> (lines: Vec<String>)
        ensures
            views(lines@) == report_lines(
                views(self.text@),
                result_views(translations@),
                self.source_lang is None,
                zip_len(self.text@.len(), translations@.len()),
            ),
        self.source_lang is None ==> lines@.len() == 2 * zip_len(self.text@.len(), translations@.len()),
        self.source_lang is None ==> forall|i: int|
            0 <= i < zip_len(self.text@.len(), translations@.len()) ==> #[trigger] lines@[2 * i]@ == "Detected source language: "@
                + translations@[i].detected_source_language@ && lines@[2 * i + 1]@ == self.text@[i]@
                + " -> "@ + translations@[i].text@,
        !(self.source_lang is None) ==> lines@.len() == zip_len(self.text@.len(), translations@.len()),
        !(self.source_lang is None) ==> forall|i: int|
            0 <= i < zip_len(self.text@.len(), translations@.len()) ==> #[trigger] lines@[i]@ == self.text@[i]@ + " -> "@ + translations@[i].text@,
    {
        let lines = report(&self.text, translations, self.source_lang.is_none());
        proof {
            lemma_report_shown(self.text@, translations@, self.source_lang is None, lines@);
        }
        lines
    }

    /// The report of a correction: each text with its corrected form, after
    /// the detected language when no target language was given.
    pub fn improvement_report(&self, improvements: &Vec<DeepLWriteImprovement>) -> (lines: Vec<
        String,
    >)
        ensures
            views(lines@) == report_lines(
                views(self.text@),
                result_views(improvements@),
                self.target_lang@.len() == 0,
                zip_len(self.text@.len(), improvements@.len()),
            ),
        self.target_lang@.len() == 0 ==> lines@.len() == 2 * zip_len(self.text@.len(), improvements@.len()),
        self.target_lang@.len() == 0 ==> forall|i: int|
            0 <= i < zip_len(self.text@.len(), improvements@.len()) ==> #[trigger] lines@[2 * i]@ == "Detected source language: "@
                + improvements@[i].detected_source_language@ && lines@[2 * i + 1]@ == self.text@[i]@
                + " -> "@ + improvements@[i].text@,
        !(self.target_lang@.len() == 0) ==> lines@.len() == zip_len(self.text@.len(), improvements@.len()),
        !(self.target_lang@.len() == 0) ==> forall|i: int|
            0 <= i < zip_len(self.text@.len(), improvements@.len()) ==> #[trigger] lines@[i]@ == self.text@[i]@ + " -> "@ + improvements@[i].text@,
    {
        let empty = self.target_lang.as_str().unicode_len() == 0;
        let lines = report(&self.text, improvements, empty);
        proof {
            lemma_report_shown(self.text@, improvements@, empty, lines@);
        }
        lines
    }

    /// The texts with their results, for the JSON report.
    pub fn result_records(&self, results: &Vec<DeepLTranslation>) -> (r: Vec<ResultRecord>)
        ensures
            r@.len() == zip_len(self.text@.len(), results@.len()),
            forall|i: int|
                #![trigger r@[i]]
                0 <= i < r@.len() ==> r@[i].source@ == self.text@[i]@ && r@[i].text@
                    == results@[i].text@ && r@[i].detected_source_language@
                    == results@[i].detected_source_language@,
    {
        records(&self.text, results)
    }
}

/// The usage report: characters used and the limit.
pub fn usage_report(usage: &DeepLUsageAndLimits) -> (r: String)
    ensures
        r@ == usage_line(usage.character_count as nat, usage.character_limit as nat),
{
    let mut r = String::from_str("character_count: ");
    push_decimal(&mut r, usage.character_count);
    r.append(" - character_limit: ");
    push_decimal(&mut r, usage.character_limit);
    r
}

} // verus!
