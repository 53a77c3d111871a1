//! The interactive editor: two tabs (translate, improve), each with an
//! input and an output pane and its languages, a filterable language list,
//! and the handling of keys and of the answers of the background worker.
//!
//! The editor is a state machine: each key or worker event moves the state
//! and may ask the caller to do something (forward the key to the input
//! pane, or start a request in the background). Each step is specified by
//! a function over the views of the state, [`model_on_key`] and
//! [`model_poll`], and the laws at the end of the file are stated over
//! them.
use vstd::prelude::*;

use crate::deepl::{opt_view, result_views, DeepLTranslation, DeepLWriteImprovement};
use crate::languages::{
    auto_entry, entry_order, known_entries, pair_views, sorted_lang_items,
    write_supported_codes, write_supported_languages, EntryView, LanguageMap, AUTO,
};
use crate::text::{
    all_white_space, ascii_lower, ascii_lowercase, contains_text, is_ascii_text, is_blank,
    join_lines, join_newlines, lemma_contains_prefix, lemma_join_split, lemma_split_join,
    lowercase, no_newline, pop_char, push_char, same_text, split_lines, split_newlines,
    text_contains, to_lowercase, views,
};

verus! {

// ------------------------------------------------------------------
// Plain types
// ------------------------------------------------------------------

#[derive(Clone, Copy, PartialEq, Eq, Structural)]
pub enum Tab {
    Translate,
    Improve,
}

#[derive(Clone, Copy, PartialEq, Eq, Structural)]
pub enum Mode {
    Normal,
    Editing,
}

#[derive(Clone, Copy, PartialEq, Eq, Structural)]
pub enum PopupKind {
    SourceLang,
    TargetLang,
}

/// The keys the editor tells apart.
#[derive(Clone, Copy, PartialEq, Eq, Structural)]
pub enum KeyCode {
    Char(char),
    Tab,
    Enter,
    Esc,
    Backspace,
    Up,
    Down,
    Other,
}

/// A key press: the key and whether Control was held.
#[derive(Clone, Copy, PartialEq, Eq, Structural)]
pub struct KeyInput {
    pub code: KeyCode,
    pub ctrl: bool,
}

/// What a key asks the caller to do.
#[allow(inconsistent_fields)]
pub enum KeyOutcome {
    Nothing,
    /// Hand the key to the input pane of the active tab.
    EditInput,
    /// Translate `text` in the background.
    SpawnTranslate { text: String, source_lang: Option<String>, target_lang: String },
    /// Correct `text` in the background.
    SpawnImprove { text: String, target_lang: Option<String> },
}

/// The answer of the background worker.
pub enum WorkerMsg {
    Translate(Result<Vec<DeepLTranslation>, String>),
    Improve(Result<Vec<DeepLWriteImprovement>, String>),
}

/// What polling the background worker gave.
pub enum WorkerPoll {
    /// No answer yet.
    Empty,
    /// The worker went away without answering.
    Disconnected,
    Message(WorkerMsg),
}

/// A floating, filterable language list.
pub struct LangPopup {
    pub kind: PopupKind,
    /// All (code, name) entries of the list.
    pub items: Vec<(String, String)>,
    pub filter: String,
    /// The positions in `items` of the entries that match the filter.
    pub filtered: Vec<usize>,
    /// The selected position in `filtered`.
    pub selected: Option<usize>,
}

/// A tab: its two panes (as lines and titles) and its languages.
pub struct TabState {
    pub input_title: String,
    /// The lines of the input pane.
    pub input: Vec<String>,
    pub output_title: String,
    /// The lines of the output pane.
    pub output: Vec<String>,
    /// `None` lets the service detect the source language.
    pub source_lang: Option<String>,
    /// Translate tab: required before a request. Improve tab: `None` keeps
    /// the language of the text.
    pub target_lang: Option<String>,
    /// The source language the service detected for the last answer.
    pub detected: Option<String>,
}

/// The state of the editor.
pub struct App {
    pub tab: Tab,
    pub mode: Mode,
    pub translate: TabState,
    pub improve: TabState,
    pub popup: Option<LangPopup>,
    pub loading: bool,
    pub error: Option<String>,
    pub should_quit: bool,
    /// A request runs in the background and its answer is awaited.
    pub awaiting_worker: bool,
    pub languages: LanguageMap,
}

// ------------------------------------------------------------------
// Views
// ------------------------------------------------------------------

pub struct PopupView {
    pub kind: PopupKind,
    pub items: Seq<EntryView>,
    pub filter: Seq<char>,
    pub filtered: Seq<nat>,
    pub selected: Option<nat>,
}

pub struct TabView {
    pub input_title: Seq<char>,
    pub input: Seq<Seq<char>>,
    pub output_title: Seq<char>,
    pub output: Seq<Seq<char>>,
    pub source_lang: Option<Seq<char>>,
    pub target_lang: Option<Seq<char>>,
    pub detected: Option<Seq<char>>,
}

pub struct AppView {
    pub tab: Tab,
    pub mode: Mode,
    pub translate: TabView,
    pub improve: TabView,
    pub popup: Option<PopupView>,
    pub loading: bool,
    pub error: Option<Seq<char>>,
    pub should_quit: bool,
    pub awaiting_worker: bool,
    pub lang_map: Map<Seq<char>, Seq<char>>,
    pub lang_entries: Seq<EntryView>,
}

#[allow(inconsistent_fields)]
pub enum OutcomeView {
    Nothing,
    EditInput,
    SpawnTranslate { text: Seq<char>, source_lang: Option<Seq<char>>, target_lang: Seq<char> },
    SpawnImprove { text: Seq<char>, target_lang: Option<Seq<char>> },
}

pub enum PollView {
    Empty,
    Disconnected,
    Translate(Result<Seq<(Seq<char>, Seq<char>)>, Seq<char>>),
    Improve(Result<Seq<(Seq<char>, Seq<char>)>, Seq<char>>),
}

impl View for LangPopup {
    type V = PopupView;

    open spec fn view(&self) -> PopupView {
        PopupView {
            kind: self.kind,
            items: pair_views(self.items@),
            filter: self.filter@,
            filtered: self.filtered@.map_values(|i: usize| i as nat),
            selected: match self.selected {
                Some(i) => Some(i as nat),
                None => None,
            },
        }
    }
}

impl View for TabState {
    type V = TabView;

    open spec fn view(&self) -> TabView {
        TabView {
            input_title: self.input_title@,
            input: views(self.input@),
            output_title: self.output_title@,
            output: views(self.output@),
            source_lang: opt_view(self.source_lang),
            target_lang: opt_view(self.target_lang),
            detected: opt_view(self.detected),
        }
    }
}

impl View for App {
    type V = AppView;

    open spec fn view(&self) -> AppView {
        AppView {
            tab: self.tab,
            mode: self.mode,
            translate: self.translate@,
            improve: self.improve@,
            popup: match self.popup {
                Some(p) => Some(p@),
                None => None,
            },
            loading: self.loading,
            error: opt_view(self.error),
            should_quit: self.should_quit,
            awaiting_worker: self.awaiting_worker,
            lang_map: self.languages@,
            lang_entries: self.languages.entry_seq(),
        }
    }
}

impl View for KeyOutcome {
    type V = OutcomeView;

    open spec fn view(&self) -> OutcomeView {
        match self {
            KeyOutcome::Nothing => OutcomeView::Nothing,
            KeyOutcome::EditInput => OutcomeView::EditInput,
            KeyOutcome::SpawnTranslate { text, source_lang, target_lang } => {
                OutcomeView::SpawnTranslate {
                    text: text@,
                    source_lang: opt_view(*source_lang),
                    target_lang: target_lang@,
                }
            },
            KeyOutcome::SpawnImprove { text, target_lang } => OutcomeView::SpawnImprove {
                text: text@,
                target_lang: opt_view(*target_lang),
            },
        }
    }
}

pub open spec fn result_view(r: Result<Vec<DeepLTranslation>, String>) -> Result<
    Seq<(Seq<char>, Seq<char>)>,
    Seq<char>,
> {
    match r {
        Ok(v) => Ok(result_views(v@)),
        Err(e) => Err(e@),
    }
}

impl View for WorkerPoll {
    type V = PollView;

    open spec fn view(&self) -> PollView {
        match self {
            WorkerPoll::Empty => PollView::Empty,
            WorkerPoll::Disconnected => PollView::Disconnected,
            WorkerPoll::Message(WorkerMsg::Translate(r)) => PollView::Translate(result_view(*r)),
            WorkerPoll::Message(WorkerMsg::Improve(r)) => PollView::Improve(result_view(*r)),
        }
    }
}

// ------------------------------------------------------------------
// The model
// ------------------------------------------------------------------

/// An entry matches a (lowercase) filter when the filter is empty or occurs
/// in the lowercase code or the lowercase name.
pub open spec fn entry_matches(needle: Seq<char>, e: EntryView) -> bool {
    needle.len() == 0 || contains_text(lowercase(e.0), needle) || contains_text(
        lowercase(e.1),
        needle,
    )
}

/// The positions, among the first `n` entries, of those that match.
pub open spec fn matching_positions(items: Seq<EntryView>, needle: Seq<char>, n: nat) -> Seq<nat>
    decreases n,
{
    if n == 0 {
        Seq::<nat>::empty()
    } else {
        let prev = matching_positions(items, needle, (n - 1) as nat);
        if entry_matches(needle, items[n - 1]) {
            prev.push((n - 1) as nat)
        } else {
            prev
        }
    }
}

/// A fresh list: everything shown, the first entry selected.
pub open spec fn model_popup_new(kind: PopupKind, items: Seq<EntryView>) -> PopupView {
    PopupView {
        kind,
        items,
        filter: Seq::<char>::empty(),
        filtered: Seq::new(items.len(), |i: int| i as nat),
        selected: if items.len() == 0 {
            None
        } else {
            Some(0)
        },
    }
}

pub open spec fn model_refilter(p: PopupView) -> PopupView {
    let f = matching_positions(p.items, lowercase(p.filter), p.items.len());
    PopupView {
        filtered: f,
        selected: if f.len() == 0 {
            None
        } else {
            Some(0)
        },
        ..p
    }
}

/// The next entry, wrapping round to the first.
pub open spec fn model_select_next(p: PopupView) -> PopupView {
    if p.filtered.len() == 0 {
        p
    } else {
        let next: nat = match p.selected {
            Some(i) => if i + 1 < p.filtered.len() {
                i + 1
            } else {
                0
            },
            None => 0,
        };
        PopupView { selected: Some(next), ..p }
    }
}

/// The previous entry, wrapping round to the last.
pub open spec fn model_select_prev(p: PopupView) -> PopupView {
    if p.filtered.len() == 0 {
        p
    } else {
        let prev: nat = match p.selected {
            Some(i) => if i == 0 {
                (p.filtered.len() - 1) as nat
            } else {
                (i - 1) as nat
            },
            None => (p.filtered.len() - 1) as nat,
        };
        PopupView { selected: Some(prev), ..p }
    }
}

/// The selected entry, if the selection points at one.
pub open spec fn model_selected(p: PopupView) -> Option<EntryView> {
    match p.selected {
        Some(i) => if i < p.filtered.len() && p.filtered[i as int] < p.items.len() {
            Some(p.items[p.filtered[i as int] as int])
        } else {
            None
        },
        None => None,
    }
}

/// A well-formed list: the shown positions point at entries, and there is
/// a selection, inside the shown entries, exactly when some are shown.
pub open spec fn popup_wf(p: PopupView) -> bool {
    &&& forall|k: int| 0 <= k < p.filtered.len() ==> #[trigger] p.filtered[k] < p.items.len()
    &&& (p.selected is None <==> p.filtered.len() == 0)
    &&& (p.selected matches Some(i) ==> i < p.filtered.len())
}

/// The editor's invariant: a well-formed list if one is open, and the
/// busy indicator on exactly while an answer is awaited.
pub open spec fn app_wf(a: AppView) -> bool {
    &&& (a.popup matches Some(p) ==> popup_wf(p))
    &&& a.loading == a.awaiting_worker
}

pub open spec fn active_tab(a: AppView) -> TabView {
    match a.tab {
        Tab::Translate => a.translate,
        Tab::Improve => a.improve,
    }
}

/// The text of a tab's input pane.
pub open spec fn input_text_of(t: TabView) -> Seq<char> {
    join_newlines(t.input)
}

/// A tab after its output pane shows `text` under `title`.
pub open spec fn model_set_output(t: TabView, text: Seq<char>, title: Seq<char>) -> TabView {
    TabView { output: split_newlines(text), output_title: title, ..t }
}

/// The entries of the list that a selection opens.
pub open spec fn popup_items(a: AppView, kind: PopupKind) -> Seq<EntryView> {
    let all = a.lang_entries.sort_by(entry_order());
    match kind {
        PopupKind::SourceLang => seq![auto_entry()] + all,
        PopupKind::TargetLang => match a.tab {
            Tab::Translate => all,
            Tab::Improve => seq![auto_entry()] + known_entries(
                a.lang_map,
                write_supported_codes(),
            ).sort_by(entry_order()),
        },
    }
}

pub open spec fn model_open_popup(a: AppView, kind: PopupKind) -> AppView {
    AppView { popup: Some(model_popup_new(kind, popup_items(a, kind))), ..a }
}

/// The language a list entry stands for: none for the automatic entry.
pub open spec fn chosen_language(code: Seq<char>) -> Option<Seq<char>> {
    if code == AUTO@ {
        None
    } else {
        Some(code)
    }
}

/// Closes the list and applies the selected entry, if any.
pub open spec fn model_apply_selection(a: AppView) -> AppView {
    match a.popup {
        None => a,
        Some(p) => {
            let closed = AppView { popup: None, ..a };
            match model_selected(p) {
                None => closed,
                Some(e) => {
                    let value = chosen_language(e.0);
                    match p.kind {
                        PopupKind::SourceLang => AppView {
                            translate: TabView {
                                source_lang: value,
                                detected: None,
                                ..a.translate
                            },
                            ..closed
                        },
                        PopupKind::TargetLang => match a.tab {
                            Tab::Translate => AppView {
                                translate: TabView { target_lang: value, ..a.translate },
                                ..closed
                            },
                            Tab::Improve => AppView {
                                improve: TabView { target_lang: value, ..a.improve },
                                ..closed
                            },
                        },
                    }
                },
            }
        },
    }
}

/// Starts a request for the active tab, unless one runs already, the input
/// is blank, or (translate tab) no target language is chosen.
pub open spec fn model_submit(a: AppView) -> (AppView, OutcomeView) {
    if a.loading {
        (a, OutcomeView::Nothing)
    } else {
        let text = input_text_of(active_tab(a));
        if all_white_space(text) {
            (AppView { error: Some("Input text is empty"@), ..a }, OutcomeView::Nothing)
        } else {
            let busy = AppView { loading: true, awaiting_worker: true, error: None, ..a };
            match a.tab {
                Tab::Translate => match a.translate.target_lang {
                    None => (
                        AppView {
                            error: Some("Choose a target language first (press 't')"@),
                            ..a
                        },
                        OutcomeView::Nothing,
                    ),
                    Some(t) => (
                        busy,
                        OutcomeView::SpawnTranslate {
                            text,
                            source_lang: a.translate.source_lang,
                            target_lang: t,
                        },
                    ),
                },
                Tab::Improve => (
                    busy,
                    OutcomeView::SpawnImprove { text, target_lang: a.improve.target_lang },
                ),
            }
        }
    }
}

pub open spec fn model_on_normal_key(a: AppView, key: KeyInput) -> (AppView, OutcomeView) {
    match key.code {
        KeyCode::Char('q') => (AppView { should_quit: true, ..a }, OutcomeView::Nothing),
        KeyCode::Tab => (
            AppView {
                tab: match a.tab {
                    Tab::Translate => Tab::Improve,
                    Tab::Improve => Tab::Translate,
                },
                ..a
            },
            OutcomeView::Nothing,
        ),
        KeyCode::Char('i') | KeyCode::Enter => (
            AppView { mode: Mode::Editing, ..a },
            OutcomeView::Nothing,
        ),
        KeyCode::Char('s') if a.tab == Tab::Translate => (
            model_open_popup(a, PopupKind::SourceLang),
            OutcomeView::Nothing,
        ),
        KeyCode::Char('t') => (model_open_popup(a, PopupKind::TargetLang), OutcomeView::Nothing),
        KeyCode::Char('r') => model_submit(a),
        _ => (a, OutcomeView::Nothing),
    }
}

pub open spec fn model_on_editing_key(a: AppView, key: KeyInput) -> (AppView, OutcomeView) {
    match key.code {
        KeyCode::Esc => (AppView { mode: Mode::Normal, ..a }, OutcomeView::Nothing),
        _ => (a, OutcomeView::EditInput),
    }
}

/// The list with a new filter, refiltered.
pub open spec fn with_filter(p: PopupView, filter: Seq<char>) -> PopupView {
    model_refilter(PopupView { filter, ..p })
}

pub open spec fn model_on_popup_key(a: AppView, p: PopupView, key: KeyInput) -> AppView {
    match key.code {
        KeyCode::Esc => AppView { popup: None, ..a },
        KeyCode::Enter => model_apply_selection(a),
        KeyCode::Char('p') if key.ctrl => AppView { popup: Some(model_select_prev(p)), ..a },
        KeyCode::Char('n') if key.ctrl => AppView { popup: Some(model_select_next(p)), ..a },
        KeyCode::Up => AppView { popup: Some(model_select_prev(p)), ..a },
        KeyCode::Down => AppView { popup: Some(model_select_next(p)), ..a },
        KeyCode::Backspace => AppView {
            popup: Some(
                with_filter(
                    p,
                    if p.filter.len() > 0 {
                        p.filter.drop_last()
                    } else {
                        p.filter
                    },
                ),
            ),
            ..a
        },
        KeyCode::Char(c) => AppView { popup: Some(with_filter(p, p.filter.push(c))), ..a },
        _ => a,
    }
}

/// One key: Control-C quits; an open list takes the key; otherwise a
/// shown error goes away in normal mode, and the mode decides.
pub open spec fn model_on_key(a: AppView, key: KeyInput) -> (AppView, OutcomeView) {
    if key.code == KeyCode::Char('c') && key.ctrl {
        (AppView { should_quit: true, ..a }, OutcomeView::Nothing)
    } else if a.popup is Some {
        (model_on_popup_key(a, a.popup->0, key), OutcomeView::Nothing)
    } else {
        let cleared = if a.error is Some && a.mode == Mode::Normal {
            AppView { error: None, ..a }
        } else {
            a
        };
        match a.mode {
            Mode::Normal => model_on_normal_key(cleared, key),
            Mode::Editing => model_on_editing_key(cleared, key),
        }
    }
}

/// A tab after an answer: the texts, one per line, in the output pane,
/// and the language detected for the first of them.
pub open spec fn model_show_results(
    t: TabView,
    results: Seq<(Seq<char>, Seq<char>)>,
    title: Seq<char>,
) -> TabView {
    let text = join_newlines(results.map_values(|r: (Seq<char>, Seq<char>)| r.1));
    TabView {
        detected: if results.len() > 0 {
            Some(results[0].0)
        } else {
            None
        },
        ..model_set_output(t, text, title)
    }
}

/// What polling the worker does to the editor.
pub open spec fn model_poll(a: AppView, polled: PollView) -> AppView {
    if !a.awaiting_worker {
        a
    } else {
        let done = AppView { loading: false, awaiting_worker: false, ..a };
        match polled {
            PollView::Empty => a,
            PollView::Disconnected => done,
            PollView::Translate(Ok(rs)) => AppView {
                translate: model_show_results(a.translate, rs, "Translation"@),
                ..done
            },
            PollView::Translate(Err(e)) => AppView { error: Some(e), ..done },
            PollView::Improve(Ok(rs)) => AppView {
                improve: model_show_results(a.improve, rs, "Improved text"@),
                ..done
            },
            PollView::Improve(Err(e)) => AppView { error: Some(e), ..done },
        }
    }
}

// ------------------------------------------------------------------
// The list
// ------------------------------------------------------------------

/// Whether an entry matches a filter, given the lowercase forms of the
/// filter, the code and the name.
pub fn entry_matches_lowered(needle: &str, code_lower: &str, name_lower: &str) -> (r: bool)
    ensures
        r == (needle@.len() == 0 || contains_text(code_lower@, needle@) || contains_text(
            name_lower@,
            needle@,
        )),
{
    needle.unicode_len() == 0 || text_contains(code_lower, needle) || text_contains(
        name_lower,
        needle,
    )
}

pub proof fn lemma_matching_positions_in_range(items: Seq<EntryView>, needle: Seq<char>, n: nat)
    requires
        n <= items.len(),
    ensures
        forall|k: int|
            0 <= k < matching_positions(items, needle, n).len() ==> #[trigger] matching_positions(
                items,
                needle,
                n,
            )[k] < n,
    decreases n,
{
    if n > 0 {
        let prev = matching_positions(items, needle, (n - 1) as nat);
        lemma_matching_positions_in_range(items, needle, (n - 1) as nat);
        let cur = matching_positions(items, needle, n);
        assert forall|k: int| 0 <= k < cur.len() implies #[trigger] cur[k] < n by {
            if k < prev.len() {
                assert(cur[k] == prev[k]);
            }
        }
    }
}

impl LangPopup {
    /// A list of `items`, all shown, the first selected.
    pub fn new(kind: PopupKind, items: Vec<(String, String)>) -> (p: LangPopup)
        ensures
            p@ == model_popup_new(kind, pair_views(items@)),
    {
        let n = items.len();
        let mut filtered: Vec<usize> = Vec::new();
        let mut i: usize = 0;
        while i < n
            invariant
                i <= n,
                filtered@.map_values(|k: usize| k as nat) == Seq::new(i as nat, |k: int| k as nat),
            decreases n - i,
        {
            let ghost before = filtered@;
            filtered.push(i);
            assert(filtered@.map_values(|k: usize| k as nat) =~= before.map_values(
                |k: usize| k as nat,
            ).push(i as nat));
            assert(filtered@.map_values(|k: usize| k as nat) =~= Seq::new(
                (i + 1) as nat,
                |k: int| k as nat,
            ));
            i = i + 1;
        }
        let selected = if n == 0 {
            None
        } else {
            Some(0)
        };
        let p = LangPopup { kind, items, filter: String::new(), filtered, selected };
        assert(p@.filtered =~= model_popup_new(kind, pair_views(p.items@)).filtered);
        p
    }

    /// Shows the entries that match the filter, case-insensitively, and
    /// selects the first of them. An ASCII filter is matched in its ASCII
    /// lowercase form; an empty filter shows every entry.
    pub fn refilter(&mut self)
        ensures
            final(self)@ == model_refilter(old(self)@),
            is_ascii_text(old(self).filter@) ==> final(self)@.filtered == matching_positions(
                old(self)@.items,
                ascii_lowercase(old(self).filter@),
                old(self)@.items.len(),
            ),
            old(self).filter@.len() == 0 ==> final(self)@.filtered == Seq::new(
                old(self)@.items.len(),
                |i: int| i as nat,
            ),
    {
        proof {
            if old(self).filter@.len() == 0 {
                assert(ascii_lowercase(old(self).filter@) =~= Seq::<char>::empty());
                lemma_empty_needle_matches_all(old(self)@.items, old(self)@.items.len());
            }
        }
        let needle = to_lowercase(self.filter.as_str());
        let ghost iv = pair_views(self.items@);
        let n = self.items.len();
        let mut filtered: Vec<usize> = Vec::new();
        let mut i: usize = 0;
        while i < n
            invariant
                iv == pair_views(self.items@),
                n == self.items@.len(),
                i <= n,
                needle@ == lowercase(self.filter@),
                filtered@.map_values(|k: usize| k as nat) == matching_positions(iv, needle@, i as nat),
            decreases n - i,
        {
            let code_lower = to_lowercase(self.items[i].0.as_str());
            let name_lower = to_lowercase(self.items[i].1.as_str());
            let m = entry_matches_lowered(needle.as_str(), code_lower.as_str(), name_lower.as_str());
            assert(iv[i as int] == (self.items@[i as int].0@, self.items@[i as int].1@));
            let ghost before = filtered@;
            if m {
                filtered.push(i);
                assert(filtered@.map_values(|k: usize| k as nat) =~= before.map_values(
                    |k: usize| k as nat,
                ).push(i as nat));
            }
            i = i + 1;
        }
        let empty = filtered.len() == 0;
        self.filtered = filtered;
        self.selected = if empty {
            None
        } else {
            Some(0)
        };
    }

    /// Selects the next shown entry, after the last the first.
    pub fn select_next(&mut self)
        ensures
            final(self)@ == model_select_next(old(self)@),
    {
        if self.filtered.len() == 0 {
            return;
        }
        let last = self.filtered.len() - 1;
        let next: usize = match self.selected {
            Some(i) => if i < last {
                i + 1
            } else {
                0
            },
            None => 0,
        };
        self.selected = Some(next);
    }

    /// Selects the previous shown entry, before the first the last.
    pub fn select_prev(&mut self)
        ensures
            final(self)@ == model_select_prev(old(self)@),
    {
        if self.filtered.len() == 0 {
            return;
        }
        let prev: usize = match self.selected {
            Some(i) => if i == 0 {
                self.filtered.len() - 1
            } else {
                i - 1
            },
            None => self.filtered.len() - 1,
        };
        self.selected = Some(prev);
    }

    /// Whether the list is well formed: its shown positions point at
    /// entries, and it has a selection, inside the shown entries, exactly
    /// when some are shown.
    pub fn is_well_formed(&self) -> (r: bool)
        ensures
            r == popup_wf(self@),
    {
        let ghost v = self@;
        let mut k: usize = 0;
        while k < self.filtered.len()
            invariant
                v == self@,
                k <= self.filtered@.len(),
                forall|j: int| 0 <= j < k ==> #[trigger] v.filtered[j] < v.items.len(),
            decreases self.filtered.len() - k,
        {
            assert(v.filtered[k as int] == self.filtered@[k as int] as nat);
            if self.filtered[k] >= self.items.len() {
                return false;
            }
            k = k + 1;
        }
        match self.selected {
            None => self.filtered.len() == 0,
            Some(i) => i < self.filtered.len(),
        }
    }

    /// The selected entry, if the selection points at one.
    pub fn selected(&self) -> (r: Option<&(String, String)>)
        ensures
            match r {
                Some(e) => model_selected(self@) == Some((e.0@, e.1@)),
                None => model_selected(self@) is None,
            },
    {
        let i = match self.selected {
            Some(i) => i,
            None => return None,
        };
        if i >= self.filtered.len() {
            return None;
        }
        let idx = self.filtered[i];
        assert(self@.filtered[i as int] == idx as nat);
        if idx >= self.items.len() {
            return None;
        }
        Some(&self.items[idx])
    }
}

// ------------------------------------------------------------------
// Tabs
// ------------------------------------------------------------------

impl TabState {
    /// A tab with empty panes (one empty line each) under the given titles.
    pub fn new(input_title: &str, output_title: &str) -> (t: TabState)
        ensures
            t@.input_title == input_title@,
            t@.input == seq![Seq::<char>::empty()],
            t@.output_title == output_title@,
            t@.output == seq![Seq::<char>::empty()],
            t@.source_lang is None,
            t@.target_lang is None,
            t@.detected is None,
    {
        let mut input: Vec<String> = Vec::new();
        input.push(String::new());
        let mut output: Vec<String> = Vec::new();
        output.push(String::new());
        let t = TabState {
            input_title: String::from_str(input_title),
            input,
            output_title: String::from_str(output_title),
            output,
            source_lang: None,
            target_lang: None,
            detected: None,
        };
        assert(t@.input =~= seq![Seq::<char>::empty()]);
        assert(t@.output =~= seq![Seq::<char>::empty()]);
        t
    }

    /// The text of the input pane: its lines joined with newlines.
    pub fn input_text(&self) -> (r: String)
        ensures
            r@ == input_text_of(self@),
    {
        join_lines(&self.input)
    }

    /// Shows `text` in the output pane, one line per piece between
    /// newlines, under `title`.
    pub fn set_output(&mut self, text: &str, title: &str)
        ensures
            final(self)@ == model_set_output(old(self)@, text@, title@),
    {
        self.output = split_lines(text);
        self.output_title = String::from_str(title);
    }
}

// ------------------------------------------------------------------
// The editor
// ------------------------------------------------------------------

/// The texts of the results, in order.
fn result_texts(rs: &Vec<DeepLTranslation>) -> (r: Vec<String>)
    ensures
        views(r@) == result_views(rs@).map_values(|x: (Seq<char>, Seq<char>)| x.1),
{
    let mut r: Vec<String> = Vec::new();
    let mut i: usize = 0;
    while i < rs.len()
        invariant
            i <= rs@.len(),
            views(r@) == result_views(rs@).take(i as int).map_values(
                |x: (Seq<char>, Seq<char>)| x.1,
            ),
        decreases rs.len() - i,
    {
        let ghost before = views(r@);
        r.push(rs[i].text.clone());
        assert(views(r@) =~= before.push(rs@[i as int].text@));
        assert(result_views(rs@).take(i + 1) =~= result_views(rs@).take(i as int).push(
            rs@[i as int]@,
        ));
        i = i + 1;
    }
    assert(result_views(rs@).take(rs@.len() as int) =~= result_views(rs@));
    r
}

/// Shows the results in a tab.
fn show_results(t: &mut TabState, rs: &Vec<DeepLTranslation>, title: &str)
    ensures
        final(t)@ == model_show_results(old(t)@, result_views(rs@), title@),
{
    let detected = if rs.len() > 0 {
        Some(rs[0].detected_source_language.clone())
    } else {
        None
    };
    let texts = result_texts(rs);
    let text = join_lines(&texts);
    t.set_output(text.as_str(), title);
    t.detected = detected;
}

impl App {
    /// The editor at start: translate tab, normal mode, translating into
    /// English (American), nothing running.
    pub fn new(languages: LanguageMap) -> (app: App)
        ensures
            app@.tab == Tab::Translate,
            app@.mode == Mode::Normal,
            app@.translate.input_title == "Input"@,
            app@.translate.input == seq![Seq::<char>::empty()],
            app@.translate.output_title == "Translation"@,
            app@.translate.output == seq![Seq::<char>::empty()],
            app@.translate.source_lang is None,
            app@.translate.target_lang == Some("EN-US"@),
            app@.translate.detected is None,
            app@.improve.input_title == "Input"@,
            app@.improve.input == seq![Seq::<char>::empty()],
            app@.improve.output_title == "Improved text"@,
            app@.improve.output == seq![Seq::<char>::empty()],
            app@.improve.source_lang is None,
            app@.improve.target_lang is None,
            app@.improve.detected is None,
            app@.popup is None,
            !app@.loading,
            app@.error is None,
            !app@.should_quit,
            !app@.awaiting_worker,
            app.languages == languages,
            app_wf(app@),
    {
        let mut translate = TabState::new("Input", "Translation");
        translate.target_lang = Some(String::from_str("EN-US"));
        App {
            tab: Tab::Translate,
            mode: Mode::Normal,
            translate,
            improve: TabState::new("Input", "Improved text"),
            popup: None,
            loading: false,
            error: None,
            should_quit: false,
            awaiting_worker: false,
            languages,
        }
    }

    /// The tab that is shown.
    pub fn active_tab_state(&mut self) -> (t: &mut TabState)
        ensures
            *t == (match old(self).tab {
                Tab::Translate => old(self).translate,
                Tab::Improve => old(self).improve,
            }),
            *final(self) == (match old(self).tab {
                Tab::Translate => App { translate: *final(t), ..*old(self) },
                Tab::Improve => App { improve: *final(t), ..*old(self) },
            }),
    {
        match self.tab {
            Tab::Translate => &mut self.translate,
            Tab::Improve => &mut self.improve,
        }
    }

    /// The text of the active tab's input pane.
    fn active_input_text(&self) -> (r: String)
        ensures
            r@ == input_text_of(active_tab(self@)),
    {
        match self.tab {
            Tab::Translate => self.translate.input_text(),
            Tab::Improve => self.improve.input_text(),
        }
    }

    fn open_popup(&mut self, kind: PopupKind)
        ensures
            final(self)@ == model_open_popup(old(self)@, kind),
    {
        let items = match kind {
            PopupKind::SourceLang => sorted_lang_items(&self.languages, None, true),
            PopupKind::TargetLang => match self.tab {
                Tab::Translate => sorted_lang_items(&self.languages, None, false),
                Tab::Improve => {
                    let codes = write_supported_languages();
                    sorted_lang_items(&self.languages, Some(codes.as_slice()), true)
                },
            },
        };
        proof {
            let a = old(self)@;
            assert(pair_views(items@) =~= popup_items(a, kind));
        }
        self.popup = Some(LangPopup::new(kind, items));
    }

    fn apply_popup_selection(&mut self)
        ensures
            final(self)@ == model_apply_selection(old(self)@),
    {
        let popup = match self.popup.take() {
            Some(p) => p,
            None => return,
        };
        let value: Option<String> = match popup.selected() {
            None => return,
            Some(e) => {
                if same_text(e.0.as_str(), AUTO) {
                    None
                } else {
                    Some(e.0.clone())
                }
            },
        };
        match popup.kind {
            PopupKind::SourceLang => {
                self.translate.source_lang = value;
                self.translate.detected = None;
            },
            PopupKind::TargetLang => match self.tab {
                Tab::Translate => self.translate.target_lang = value,
                Tab::Improve => self.improve.target_lang = value,
            },
        }
    }

    fn submit(&mut self) -> (out: KeyOutcome)
        ensures
            (final(self)@, out@) == model_submit(old(self)@),
    {
        if self.loading {
            return KeyOutcome::Nothing;
        }
        let text = self.active_input_text();
        if is_blank(text.as_str()) {
            self.error = Some(String::from_str("Input text is empty"));
            return KeyOutcome::Nothing;
        }
        let out = match self.tab {
            Tab::Translate => {
                let target_lang = match &self.translate.target_lang {
                    Some(t) => t.clone(),
                    None => {
                        self.error = Some(
                            String::from_str("Choose a target language first (press 't')"),
                        );
                        return KeyOutcome::Nothing;
                    },
                };
                let source_lang = match &self.translate.source_lang {
                    Some(s) => Some(s.clone()),
                    None => None,
                };
                KeyOutcome::SpawnTranslate { text, source_lang, target_lang }
            },
            Tab::Improve => {
                let target_lang = match &self.improve.target_lang {
                    Some(t) => Some(t.clone()),
                    None => None,
                };
                KeyOutcome::SpawnImprove { text, target_lang }
            },
        };
        self.awaiting_worker = true;
        self.loading = true;
        self.error = None;
        out
    }

    /// Handles a key in normal mode with no language list open: `q` quits,
    /// Tab shows the other tab, `i` or Enter starts editing, `s` (on the
    /// translate tab) and `t` open the language lists, `r` sends the request.
    pub fn on_normal_key(&mut self, key: KeyInput) -> (out: KeyOutcome)
        ensures
            (final(self)@, out@) == model_on_normal_key(old(self)@, key),
    {
        match key.code {
            KeyCode::Char('q') => {
                self.should_quit = true;
                KeyOutcome::Nothing
            },
            KeyCode::Tab => {
                self.tab = match self.tab {
                    Tab::Translate => Tab::Improve,
                    Tab::Improve => Tab::Translate,
                };
                KeyOutcome::Nothing
            },
            KeyCode::Char('i') | KeyCode::Enter => {
                self.mode = Mode::Editing;
                KeyOutcome::Nothing
            },
            KeyCode::Char('s') if self.tab == Tab::Translate => {
                self.open_popup(PopupKind::SourceLang);
                KeyOutcome::Nothing
            },
            KeyCode::Char('t') => {
                self.open_popup(PopupKind::TargetLang);
                KeyOutcome::Nothing
            },
            KeyCode::Char('r') => self.submit(),
            _ => KeyOutcome::Nothing,
        }
    }

    fn on_editing_key(&mut self, key: KeyInput) -> (out: KeyOutcome)
        ensures
            (final(self)@, out@) == model_on_editing_key(old(self)@, key),
    {
        match key.code {
            KeyCode::Esc => {
                self.mode = Mode::Normal;
                KeyOutcome::Nothing
            },
            _ => KeyOutcome::EditInput,
        }
    }

    /// Handles a key while a language list is open: Esc closes it, Enter
    /// takes the selected language, Up/Down and Control-P/N move the
    /// selection, Backspace and other characters edit the filter. With no
    /// list open it changes nothing.
    pub fn on_popup_key(&mut self, key: KeyInput)
        ensures
            final(self)@ == match old(self)@.popup {
                Some(p) => model_on_popup_key(old(self)@, p, key),
                None => old(self)@,
            },
    {
        if self.popup.is_none() {
            return;
        }
        match key.code {
            KeyCode::Esc => {
                self.popup = None;
            },
            KeyCode::Enter => {
                self.apply_popup_selection();
            },
            KeyCode::Char('p') if key.ctrl => {
                if let Some(p) = &mut self.popup {
                    p.select_prev();
                }
            },
            KeyCode::Char('n') if key.ctrl => {
                if let Some(p) = &mut self.popup {
                    p.select_next();
                }
            },
            KeyCode::Up => {
                if let Some(p) = &mut self.popup {
                    p.select_prev();
                }
            },
            KeyCode::Down => {
                if let Some(p) = &mut self.popup {
                    p.select_next();
                }
            },
            KeyCode::Backspace => {
                if let Some(p) = &mut self.popup {
                    pop_char(&mut p.filter);
                    p.refilter();
                }
            },
            KeyCode::Char(c) => {
                if let Some(p) = &mut self.popup {
                    push_char(&mut p.filter, c);
                    p.refilter();
                }
            },
            _ => {},
        }
    }

    /// Handles one key press.
    pub fn on_key(&mut self, key: KeyInput) -> (out: KeyOutcome)
        ensures
            (final(self)@, out@) == model_on_key(old(self)@, key),
            app_wf(old(self)@) ==> app_wf(final(self)@),
    {
        proof {
            if app_wf(old(self)@) {
                lemma_on_key_keeps_wf(old(self)@, key);
            }
        }
        if key.code == KeyCode::Char('c') && key.ctrl {
            self.should_quit = true;
            return KeyOutcome::Nothing;
        }
        if self.popup.is_some() {
            self.on_popup_key(key);
            return KeyOutcome::Nothing;
        }
        if self.error.is_some() && self.mode == Mode::Normal {
            self.error = None;
        }
        match self.mode {
            Mode::Normal => self.on_normal_key(key),
            Mode::Editing => self.on_editing_key(key),
        }
    }

    /// Takes in what polling the background worker gave.
    pub fn poll_worker(&mut self, polled: WorkerPoll)
        ensures
            final(self)@ == model_poll(old(self)@, polled@),
            app_wf(old(self)@) ==> app_wf(final(self)@),
    {
        if !self.awaiting_worker {
            return;
        }
        match polled {
            WorkerPoll::Empty => {},
            WorkerPoll::Disconnected => {
                self.loading = false;
                self.awaiting_worker = false;
            },
            WorkerPoll::Message(msg) => {
                self.loading = false;
                self.awaiting_worker = false;
                match msg {
                    WorkerMsg::Translate(Ok(translations)) => {
                        show_results(&mut self.translate, &translations, "Translation");
                    },
                    WorkerMsg::Translate(Err(e)) => {
                        self.error = Some(e);
                    },
                    WorkerMsg::Improve(Ok(improvements)) => {
                        show_results(&mut self.improve, &improvements, "Improved text");
                    },
                    WorkerMsg::Improve(Err(e)) => {
                        self.error = Some(e);
                    },
                }
            },
        }
    }
}

// ------------------------------------------------------------------
// Screen text
// ------------------------------------------------------------------

/// The position of a tab in the tab bar.
pub fn tab_position(tab: Tab) -> (r: usize)
    ensures
        r == (match tab {
            Tab::Translate => 0usize,
            Tab::Improve => 1usize,
        }),
{
    match tab {
        Tab::Translate => 0,
        Tab::Improve => 1,
    }
}

/// A language as the header shows it: the automatic label for none.
pub open spec fn shown_language(l: Option<Seq<char>>) -> Seq<char> {
    match l {
        Some(x) => x,
        None => AUTO@,
    }
}

/// The header line of a tab: its languages, and the detected one if any.
pub open spec fn header_line(t: TabView, has_source_lang: bool) -> Seq<char> {
    let base = if has_source_lang {
        "Source: "@ + shown_language(t.source_lang) + "   Target: "@ + shown_language(
            t.target_lang,
        )
    } else {
        "Target: "@ + shown_language(t.target_lang)
    };
    match t.detected {
        Some(d) => base + "   (detected: "@ + d + ")"@,
        None => base,
    }
}

fn shown_language_exec(l: &Option<String>) -> (r: &str)
    ensures
        r@ == shown_language(opt_view(*l)),
{
    match l {
        Some(x) => x.as_str(),
        None => AUTO,
    }
}

/// The header line of a tab.
pub fn tab_header(t: &TabState, has_source_lang: bool) -> (r: String)
    ensures
        r@ == header_line(t@, has_source_lang),
{
    let target = shown_language_exec(&t.target_lang);
    let mut header = if has_source_lang {
        let mut h = String::from_str("Source: ");
        h.append(shown_language_exec(&t.source_lang));
        h.append("   Target: ");
        h.append(target);
        h
    } else {
        let mut h = String::from_str("Target: ");
        h.append(target);
        h
    };
    if let Some(d) = &t.detected {
        header.append("   (detected: ");
        header.append(d.as_str());
        header.append(")");
    }
    header
}

/// How the status line is shown.
#[derive(Clone, Copy, PartialEq, Eq, Structural)]
pub enum StatusStyle {
    /// An error, in red.
    Error,
    /// A request runs, in yellow.
    Busy,
    /// The key help, plain.
    Hint,
}

/// The status line: the error if one is shown, else the busy notice while
/// a request runs, else the keys of the mode.
pub open spec fn status_text(a: AppView) -> (Seq<char>, StatusStyle) {
    match a.error {
        Some(e) => ("Error: "@ + e, StatusStyle::Error),
        None => if a.loading {
            ("Working…"@, StatusStyle::Busy)
        } else {
            match a.mode {
                Mode::Normal => (
                    "i: edit  s: source lang  t: target lang  r: run  Tab: switch tab  q: quit"@,
                    StatusStyle::Hint,
                ),
                Mode::Editing => ("Esc: stop editing"@, StatusStyle::Hint),
            }
        },
    }
}

/// The status line of the editor.
pub fn status_line(app: &App) -> (r: (String, StatusStyle))
    ensures
        (r.0@, r.1) == status_text(app@),
{
    if let Some(e) = &app.error {
        let mut t = String::from_str("Error: ");
        t.append(e.as_str());
        (t, StatusStyle::Error)
    } else if app.loading {
        (String::from_str("Working…"), StatusStyle::Busy)
    } else {
        let hint = match app.mode {
            Mode::Normal => "i: edit  s: source lang  t: target lang  r: run  Tab: switch tab  q: quit",
            Mode::Editing => "Esc: stop editing",
        };
        (String::from_str(hint), StatusStyle::Hint)
    }
}

/// The title of a language list.
pub open spec fn popup_title_text(kind: PopupKind) -> Seq<char> {
    match kind {
        PopupKind::SourceLang => "Source Language"@,
        PopupKind::TargetLang => "Target Language"@,
    }
}

/// The title of a language list.
pub fn popup_title(kind: PopupKind) -> (r: &'static str)
    ensures
        r@ == popup_title_text(kind),
{
    match kind {
        PopupKind::SourceLang => "Source Language",
        PopupKind::TargetLang => "Target Language",
    }
}

/// The filter line of a language list: a slash, then the filter.
pub fn popup_filter_line(p: &LangPopup) -> (r: String)
    ensures
        r@ == "/"@ + p.filter@,
{
    let mut r = String::from_str("/");
    r.append(p.filter.as_str());
    r
}

/// The line of a list entry: code, a dash, name.
pub open spec fn item_line(e: EntryView) -> Seq<char> {
    e.0 + " — "@ + e.1
}

/// The lines of the shown entries of a list, in order.
pub fn popup_item_lines(p: &LangPopup) -> (r: Vec<String>)
    requires
        forall|k: int| 0 <= k < p@.filtered.len() ==> #[trigger] p@.filtered[k] < p@.items.len(),
    ensures
        views(r@) == p@.filtered.map_values(|i: nat| item_line(p@.items[i as int])),
{
    let ghost pv = p@;
    let mut r: Vec<String> = Vec::new();
    let mut k: usize = 0;
    while k < p.filtered.len()
        invariant
            pv == p@,
            k <= p.filtered@.len(),
            forall|j: int| 0 <= j < pv.filtered.len() ==> #[trigger] pv.filtered[j] < pv.items.len(),
            views(r@) == pv.filtered.take(k as int).map_values(
                |i: nat| item_line(pv.items[i as int]),
            ),
        decreases p.filtered.len() - k,
    {
        let i = p.filtered[k];
        assert(pv.filtered[k as int] == i as nat);
        assert(pv.items[i as int] == (p.items@[i as int].0@, p.items@[i as int].1@));
        let mut line = p.items[i].0.clone();
        line.append(" — ");
        line.append(p.items[i].1.as_str());
        let ghost before = views(r@);
        r.push(line);
        assert(views(r@) =~= before.push(item_line(pv.items[i as int])));
        assert(pv.filtered.take(k + 1) =~= pv.filtered.take(k as int).push(pv.filtered[k as int]));
        k = k + 1;
    }
    assert(pv.filtered.take(p.filtered@.len() as int) =~= pv.filtered);
    r
}

// ------------------------------------------------------------------
// Laws
// ------------------------------------------------------------------

/// Refiltering gives a well-formed list.
pub proof fn lemma_refilter_wf(p: PopupView)
    ensures
        popup_wf(model_refilter(p)),
{
    lemma_matching_positions_in_range(p.items, lowercase(p.filter), p.items.len());
}

/// Every key keeps the editor's invariant.
pub proof fn lemma_on_key_keeps_wf(a: AppView, key: KeyInput)
    requires
        app_wf(a),
    ensures
        app_wf(model_on_key(a, key).0),
{
    if let Some(p) = a.popup {
        lemma_refilter_wf(PopupView {
            filter: if p.filter.len() > 0 {
                p.filter.drop_last()
            } else {
                p.filter
            },
            ..p
        });
        if let KeyCode::Char(c) = key.code {
            lemma_refilter_wf(PopupView { filter: p.filter.push(c), ..p });
        }
    }
}

/// Every worker event keeps the editor's invariant.
pub proof fn lemma_poll_keeps_wf(a: AppView, polled: PollView)
    requires
        app_wf(a),
    ensures
        app_wf(model_poll(a, polled)),
{
}

/// Moving the selection down and then up restores it, and so does moving
/// up and then down.
pub proof fn lemma_select_next_prev_inverse(p: PopupView)
    requires
        popup_wf(p),
    ensures
        model_select_prev(model_select_next(p)) == p,
        model_select_next(model_select_prev(p)) == p,
{
}

/// The output pane shows exactly the text that was given to it: its lines
/// joined with newlines are that text.
pub proof fn lemma_set_output_round_trip(t: TabView, text: Seq<char>, title: Seq<char>)
    ensures
        join_newlines(model_set_output(t, text, title).output) == text,
        model_set_output(t, text, title).output_title == title,
{
    lemma_join_split(text);
}

/// An answer of texts without newlines shows in the output pane one text
/// per line.
pub proof fn lemma_answer_shown_line_by_line(
    t: TabView,
    results: Seq<(Seq<char>, Seq<char>)>,
    title: Seq<char>,
)
    requires
        results.len() >= 1,
        forall|i: int| 0 <= i < results.len() ==> no_newline(#[trigger] results[i].1),
    ensures
        model_show_results(t, results, title).output == results.map_values(
            |r: (Seq<char>, Seq<char>)| r.1,
        ),
{
    let texts = results.map_values(|r: (Seq<char>, Seq<char>)| r.1);
    assert forall|i: int| 0 <= i < texts.len() implies no_newline(#[trigger] texts[i]) by {
        assert(texts[i] == results[i].1);
    }
    lemma_split_join(texts);
}

/// The empty filter matches every entry.
pub proof fn lemma_empty_needle_matches_all(items: Seq<EntryView>, n: nat)
    ensures
        matching_positions(items, Seq::<char>::empty(), n) == Seq::new(n, |i: int| i as nat),
    decreases n,
{
    if n > 0 {
        lemma_empty_needle_matches_all(items, (n - 1) as nat);
        assert(Seq::new((n - 1) as nat, |i: int| i as nat).push((n - 1) as nat) =~= Seq::new(
            n,
            |i: int| i as nat,
        ));
    }
}

/// A longer filter shows no entry that the shorter one hides: every
/// position shown for `needle + more` is shown for `needle`.
pub proof fn lemma_longer_needle_narrows(
    items: Seq<EntryView>,
    needle: Seq<char>,
    more: Seq<char>,
    n: nat,
)
    requires
        n <= items.len(),
    ensures
        forall|k: int|
            0 <= k < matching_positions(items, needle + more, n).len() ==> matching_positions(
                items,
                needle,
                n,
            ).contains(#[trigger] matching_positions(items, needle + more, n)[k]),
    decreases n,
{
    if n > 0 {
        let m = (n - 1) as nat;
        lemma_longer_needle_narrows(items, needle, more, m);
        let narrow = matching_positions(items, needle + more, n);
        let wide = matching_positions(items, needle, n);
        let narrow0 = matching_positions(items, needle + more, m);
        let wide0 = matching_positions(items, needle, m);
        let e = items[n - 1];
        if entry_matches(needle + more, e) && needle.len() > 0 {
            if contains_text(lowercase(e.0), needle + more) {
                lemma_contains_prefix(lowercase(e.0), needle, more);
            } else {
                lemma_contains_prefix(lowercase(e.1), needle, more);
            }
        }
        assert forall|k: int| 0 <= k < narrow.len() implies wide.contains(#[trigger] narrow[k]) by {
            if k < narrow0.len() {
                assert(narrow[k] == narrow0[k]);
                let j = choose|j: int| 0 <= j < wide0.len() && wide0[j] == narrow0[k];
                assert(wide[j] == wide0[j]);
            } else {
                assert(narrow[k] == m);
                assert(wide[wide.len() - 1] == m);
            }
        }
    }
}

/// Typing a character into the filter only narrows the shown entries:
/// every position shown after it was shown before (filters matched in
/// their ASCII lowercase form, as [`LangPopup::refilter`] does for an ASCII
/// filter).
pub proof fn lemma_typing_narrows(items: Seq<EntryView>, filter: Seq<char>, c: char)
    ensures
        forall|k: int|
            0 <= k < matching_positions(items, ascii_lowercase(filter.push(c)), items.len()).len()
                ==> matching_positions(items, ascii_lowercase(filter), items.len()).contains(
                #[trigger] matching_positions(items, ascii_lowercase(filter.push(c)), items.len())[k],
            ),
{
    assert(ascii_lowercase(filter.push(c)) =~= ascii_lowercase(filter) + seq![ascii_lower(c)]);
    lemma_longer_needle_narrows(items, ascii_lowercase(filter), seq![ascii_lower(c)], items.len());
}

/// In an open list whose shown entries are those its filter matches,
/// typing a character and then Backspace restores the list, with the first
/// shown entry selected.
pub proof fn lemma_type_then_backspace(a: AppView, c: char, ctrl: bool)
    requires
        a.popup is Some,
        a.popup->0.filtered == matching_positions(
            a.popup->0.items,
            lowercase(a.popup->0.filter),
            a.popup->0.items.len(),
        ),
        !(ctrl && (c == 'p' || c == 'n')),
    ensures
        ({
            let p = a.popup->0;
            let typed = model_on_popup_key(a, p, KeyInput { code: KeyCode::Char(c), ctrl });
            let back = model_on_popup_key(
                typed,
                typed.popup->0,
                KeyInput { code: KeyCode::Backspace, ctrl: false },
            );
            back == AppView {
                popup: Some(
                    PopupView {
                        selected: if p.filtered.len() == 0 {
                            None
                        } else {
                            Some(0)
                        },
                        ..p
                    },
                ),
                ..a
            }
        }),
{
    let p = a.popup->0;
    assert(p.filter.push(c).drop_last() =~= p.filter);
}

/// In normal mode, Tab shows the other tab and changes nothing else; a
/// second Tab shows the first tab again.
pub proof fn lemma_normal_tab(a: AppView, key: KeyInput)
    requires
        key.code == KeyCode::Tab,
    ensures
        model_on_normal_key(a, key) == (
            AppView {
                tab: match a.tab {
                    Tab::Translate => Tab::Improve,
                    Tab::Improve => Tab::Translate,
                },
                ..a
            },
            OutcomeView::Nothing,
        ),
        model_on_normal_key(model_on_normal_key(a, key).0, key).0 == a,
{
}

/// An awaited answer with results is shown in the tab it belongs to: its
/// output pane holds the result texts, joined line by line, under the tab's
/// result title, with the language detected for the first text; the other
/// tab is untouched and the editor is no longer busy.
pub proof fn lemma_answer_shown(a: AppView, polled: PollView)
    requires
        a.awaiting_worker,
    ensures
        ({
            let r = model_poll(a, polled);
            &&& polled matches PollView::Improve(Ok(rs)) ==> rs.len() > 0 ==> ({
                &&& join_newlines(r.improve.output) == join_newlines(
                    rs.map_values(|x: (Seq<char>, Seq<char>)| x.1),
                )
                &&& r.improve.output_title == "Improved text"@
                &&& r.improve.detected == Some(rs[0].0)
                &&& r.improve.input == a.improve.input
                &&& r.improve.target_lang == a.improve.target_lang
                &&& r.translate == a.translate
                &&& !r.loading && !r.awaiting_worker
            })
            &&& polled matches PollView::Translate(Ok(rs)) ==> rs.len() > 0 ==> ({
                &&& join_newlines(r.translate.output) == join_newlines(
                    rs.map_values(|x: (Seq<char>, Seq<char>)| x.1),
                )
                &&& r.translate.output_title == "Translation"@
                &&& r.translate.detected == Some(rs[0].0)
                &&& r.translate.input == a.translate.input
                &&& r.translate.source_lang == a.translate.source_lang
                &&& r.translate.target_lang == a.translate.target_lang
                &&& r.improve == a.improve
                &&& !r.loading && !r.awaiting_worker
            })
        }),
{
    match polled {
        PollView::Improve(Ok(rs)) => {
            lemma_set_output_round_trip(
                a.improve,
                join_newlines(rs.map_values(|x: (Seq<char>, Seq<char>)| x.1)),
                "Improved text"@,
            );
        },
        PollView::Translate(Ok(rs)) => {
            lemma_set_output_round_trip(
                a.translate,
                join_newlines(rs.map_values(|x: (Seq<char>, Seq<char>)| x.1)),
                "Translation"@,
            );
        },
        _ => {},
    }
}

/// Choosing from an open list closes it and sets the language of the
/// list's kind to the selected code, or leaves it to the service (`None`)
/// when the selected entry is `Auto`; choosing a source language forgets
/// the detected one. Nothing else changes; with nothing selected, the list
/// only closes.
pub proof fn lemma_apply_selection(a: AppView)
    requires
        a.popup is Some,
    ensures
        ({
            let p = a.popup->0;
            let r = model_apply_selection(a);
            &&& r.popup is None
            &&& r.tab == a.tab && r.mode == a.mode && r.loading == a.loading
            &&& r.error == a.error && r.awaiting_worker == a.awaiting_worker
            &&& model_selected(p) is None ==> r.translate == a.translate && r.improve == a.improve
            &&& model_selected(p) matches Some(e) ==> ({
                let value = if e.0 == "Auto"@ {
                    None
                } else {
                    Some(e.0)
                };
                &&& p.kind == PopupKind::SourceLang ==> ({
                    &&& r.translate.source_lang == value
                    &&& r.translate.detected is None
                    &&& r.translate.target_lang == a.translate.target_lang
                    &&& r.translate.input == a.translate.input
                    &&& r.translate.output == a.translate.output
                    &&& r.improve == a.improve
                })
                &&& p.kind == PopupKind::TargetLang && a.tab == Tab::Translate ==> ({
                    &&& r.translate.target_lang == value
                    &&& r.translate.source_lang == a.translate.source_lang
                    &&& r.translate.detected == a.translate.detected
                    &&& r.translate.input == a.translate.input
                    &&& r.translate.output == a.translate.output
                    &&& r.improve == a.improve
                })
                &&& p.kind == PopupKind::TargetLang && a.tab == Tab::Improve ==> ({
                    &&& r.improve.target_lang == value
                    &&& r.improve.source_lang == a.improve.source_lang
                    &&& r.improve.detected == a.improve.detected
                    &&& r.improve.input == a.improve.input
                    &&& r.improve.output == a.improve.output
                    &&& r.translate == a.translate
                })
            })
        }),
{

}

/// Control-C quits whatever the state, and changes nothing else.
pub proof fn lemma_ctrl_c_quits(a: AppView, key: KeyInput)
    requires
        key.code == KeyCode::Char('c'),
        key.ctrl,
    ensures
        model_on_key(a, key).0 == (AppView { should_quit: true, ..a }),
        model_on_key(a, key).1 == OutcomeView::Nothing,
{
}

/// While a request runs, asking for another changes nothing and starts
/// nothing.
pub proof fn lemma_submit_while_loading(a: AppView)
    requires
        a.loading,
    ensures
        model_submit(a) == (a, OutcomeView::Nothing),
{
}

/// A request that starts leaves the editor busy and awaiting its answer,
/// with no error shown.
pub proof fn lemma_submit_starts_request(a: AppView)
    requires
        !(model_submit(a).1 is Nothing),
    ensures
        model_submit(a).0.loading,
        model_submit(a).0.awaiting_worker,
        model_submit(a).0.error is None,
{
}

/// The answer to a request ends the wait, whatever it is.
pub proof fn lemma_answer_ends_wait(a: AppView, polled: PollView)
    requires
        a.awaiting_worker,
        !(polled is Empty),
    ensures
        !model_poll(a, polled).loading,
        !model_poll(a, polled).awaiting_worker,
{
}

/// In normal mode with no list open and no error shown, Tab twice shows
/// the same tab again and changes nothing else.
pub proof fn lemma_tab_twice(a: AppView)
    requires
        a.popup is None,
        a.mode == Mode::Normal,
        a.error is None,
    ensures
        model_on_key(model_on_key(a, KeyInput { code: KeyCode::Tab, ctrl: false }).0, KeyInput {
            code: KeyCode::Tab,
            ctrl: false,
        }).0 == a,
{
}

} // verus!
