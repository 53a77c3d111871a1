//! The table of languages that the service knows, keyed by language code,
//! and the lists of languages offered for selection.
use vstd::prelude::*;
use vstd::relations::*;

use vstd::seq_lib::{lemma_sorted_unique, to_multiset_build, to_multiset_contains, to_multiset_insert};

use crate::text::{
    lemma_text_less_asymmetric, lemma_text_less_irreflexive, lemma_text_less_total,
    lemma_text_less_transitive, same_text, str_less, text_less,
};

verus! {

/// A language entry as seen by contracts: code and name.
pub type EntryView = (Seq<char>, Seq<char>);

/// The map that a sequence of (code, name) pairs builds when they are
/// inserted in order: a later pair for the same code wins.
pub open spec fn pairs_to_map(s: Seq<EntryView>) -> Map<Seq<char>, Seq<char>>
    decreases s.len(),
{
    if s.len() == 0 {
        Map::empty()
    } else {
        pairs_to_map(s.drop_last()).insert(s.last().0, s.last().1)
    }
}

/// No two pairs share a code.
pub open spec fn codes_unique(s: Seq<EntryView>) -> bool {
    forall|i: int, j: int| 0 <= i < j < s.len() ==> #[trigger] s[i].0 != #[trigger] s[j].0
}

/// The views of (code, name) pairs of static strings.
pub open spec fn static_pair_views(s: Seq<(&'static str, &'static str)>) -> Seq<EntryView> {
    s.map_values(|p: (&'static str, &'static str)| (p.0@, p.1@))
}

/// The views of (code, name) pairs of owned strings.
pub open spec fn pair_views(s: Seq<(String, String)>) -> Seq<EntryView> {
    s.map_values(|p: (String, String)| (p.0@, p.1@))
}

pub proof fn lemma_pairs_to_map_lookup(s: Seq<EntryView>, i: int)
    requires
        codes_unique(s),
        0 <= i < s.len(),
    ensures
        pairs_to_map(s).dom().contains(s[i].0),
        pairs_to_map(s)[s[i].0] == s[i].1,
    decreases s.len(),
{
    if i < s.len() - 1 {
        lemma_pairs_to_map_lookup(s.drop_last(), i);
        assert(s.drop_last()[i] == s[i]);
        assert(s[i].0 != s[s.len() - 1].0);
    }
}

pub proof fn lemma_pairs_to_map_domain(s: Seq<EntryView>, k: Seq<char>)
    requires
        pairs_to_map(s).dom().contains(k),
    ensures
        exists|i: int| 0 <= i < s.len() && #[trigger] s[i].0 == k,
    decreases s.len(),
{
    if s.len() > 0 && s.last().0 != k {
        lemma_pairs_to_map_domain(s.drop_last(), k);
        let i = choose|i: int| 0 <= i < s.len() - 1 && #[trigger] s.drop_last()[i].0 == k;
        assert(s[i].0 == k);
    }
}

pub proof fn lemma_pairs_to_map_update(s: Seq<EntryView>, i: int, v: Seq<char>)
    requires
        codes_unique(s),
        0 <= i < s.len(),
    ensures
        pairs_to_map(s.update(i, (s[i].0, v))) == pairs_to_map(s).insert(s[i].0, v),
    decreases s.len(),
{
    let k = s[i].0;
    let t = s.update(i, (k, v));
    if i == s.len() - 1 {
        assert(t.drop_last() =~= s.drop_last());
        assert(pairs_to_map(t) =~= pairs_to_map(s).insert(k, v));
    } else {
        assert(t.drop_last() =~= s.drop_last().update(i, (k, v)));
        lemma_pairs_to_map_update(s.drop_last(), i, v);
        assert(s.last().0 != k);
        assert(pairs_to_map(t) =~= pairs_to_map(s).insert(k, v));
    }
}

/// Pairs with distinct codes build a map with one code per pair.
pub proof fn lemma_pairs_to_map_len(s: Seq<EntryView>)
    requires
        codes_unique(s),
    ensures
        pairs_to_map(s).dom().finite(),
        pairs_to_map(s).dom().len() == s.len(),
    decreases s.len(),
{
    if s.len() > 0 {
        let t = s.drop_last();
        assert(codes_unique(t)) by {
            assert forall|i: int, j: int| 0 <= i < j < t.len() implies #[trigger] t[i].0
                != #[trigger] t[j].0 by {
                assert(t[i] == s[i] && t[j] == s[j]);
            }
        }
        lemma_pairs_to_map_len(t);
        if pairs_to_map(t).dom().contains(s.last().0) {
            lemma_pairs_to_map_domain(t, s.last().0);
            let i = choose|i: int| 0 <= i < t.len() && #[trigger] t[i].0 == s.last().0;
            assert(s[i].0 != s[s.len() - 1].0);
        }
        assert(pairs_to_map(s).dom() =~= pairs_to_map(t).dom().insert(s.last().0));
    }
}

/// Languages keyed by code: each code has exactly one name.
pub struct LanguageMap {
    entries: Vec<(&'static str, &'static str)>,
}

impl LanguageMap {
    #[verifier::type_invariant]
    spec fn codes_are_unique(&self) -> bool {
        codes_unique(static_pair_views(self.entries@))
    }

    /// The entries in the order in which their codes were first inserted.
    pub closed spec fn entry_seq(&self) -> Seq<EntryView> {
        static_pair_views(self.entries@)
    }

    /// An empty table.
    pub fn new() -> (m: LanguageMap)
        ensures
            m@ == Map::<Seq<char>, Seq<char>>::empty(),
            m.entry_seq() == Seq::<EntryView>::empty(),
            codes_unique(m.entry_seq()),
            pairs_to_map(m.entry_seq()) == m@,
    {
        let m = LanguageMap { entries: Vec::new() };
        assert(m.entry_seq() =~= Seq::<EntryView>::empty());
        m
    }

    /// The index of the entry for `code`, if there is one.
    fn find(&self, code: &str) -> (r: Option<usize>)
        ensures
            r matches Some(i) ==> i < self.entries@.len() && self.entry_seq()[i as int].0
                == code@,
            r is None ==> forall|i: int|
                0 <= i < self.entries@.len() ==> #[trigger] self.entry_seq()[i].0 != code@,
    {
        let mut i: usize = 0;
        while i < self.entries.len()
            invariant
                i <= self.entries@.len(),
                forall|k: int| 0 <= k < i ==> #[trigger] self.entry_seq()[k].0 != code@,
            decreases self.entries.len() - i,
        {
            if same_text(self.entries[i].0, code) {
                return Some(i);
            }
            i = i + 1;
        }
        None
    }

    /// Sets the name of `code`, adding the code if it is new.
    pub fn insert(&mut self, code: &'static str, name: &'static str)
        ensures
            final(self)@ == old(self)@.insert(code@, name@),
            old(self)@.dom().contains(code@) ==> final(self).entry_seq().len() == old(
                self,
            ).entry_seq().len(),
            !old(self)@.dom().contains(code@) ==> final(self).entry_seq() == old(
                self,
            ).entry_seq().push((code@, name@)),
            codes_unique(final(self).entry_seq()),
            pairs_to_map(final(self).entry_seq()) == final(self)@,
    {
        proof {
            use_type_invariant(&*self);
        }
        let found = self.find(code);
        let ghost s = self.entry_seq();
        assert(old(self)@ == pairs_to_map(s));
        let mut es: Vec<(&'static str, &'static str)> = Vec::new();
        std::mem::swap(&mut es, &mut self.entries);
        assert(static_pair_views(es@) == s);
        if let Some(i) = found {
            proof {
                lemma_pairs_to_map_update(s, i as int, name@);
                lemma_pairs_to_map_lookup(s, i as int);
            }
            es.set(i, (code, name));
            assert(static_pair_views(es@) =~= s.update(i as int, (s[i as int].0, name@)));
            assert(pairs_to_map(static_pair_views(es@)) == pairs_to_map(s).insert(code@, name@));
        } else {
            proof {
                if pairs_to_map(s).dom().contains(code@) {
                    lemma_pairs_to_map_domain(s, code@);
                }
            }
            es.push((code, name));
            assert(static_pair_views(es@) =~= s.push((code@, name@)));
            assert(s.push((code@, name@)).drop_last() =~= s);
            assert(pairs_to_map(static_pair_views(es@)) == pairs_to_map(s).insert(code@, name@));
        }
        self.entries = es;
    }

    /// Whether the table has an entry for `code`.
    pub fn contains_key(&self, code: &str) -> (r: bool)
        ensures
            r == self@.dom().contains(code@),
    {
        proof {
            use_type_invariant(self);
        }
        let found = self.find(code);
        proof {
            match found {
                Some(i) => lemma_pairs_to_map_lookup(self.entry_seq(), i as int),
                None => if pairs_to_map(self.entry_seq()).dom().contains(code@) {
                    lemma_pairs_to_map_domain(self.entry_seq(), code@);
                },
            }
        }
        found.is_some()
    }

    /// The name of `code`, if the table has it.
    pub fn get(&self, code: &str) -> (r: Option<&'static str>)
        ensures
            r is Some == self@.dom().contains(code@),
            r matches Some(name) ==> name@ == self@[code@],
    {
        proof {
            use_type_invariant(self);
        }
        let found = self.find(code);
        proof {
            match found {
                Some(i) => lemma_pairs_to_map_lookup(self.entry_seq(), i as int),
                None => if pairs_to_map(self.entry_seq()).dom().contains(code@) {
                    lemma_pairs_to_map_domain(self.entry_seq(), code@);
                },
            }
        }
        match found {
            Some(i) => Some(self.entries[i].1),
            None => None,
        }
    }
}

/// What the table gives for a code after an insertion: the inserted name
/// for the inserted code, and for every other code what it gave before.
pub proof fn lemma_get_after_insert(
    m: Map<Seq<char>, Seq<char>>,
    code: Seq<char>,
    name: Seq<char>,
    other: Seq<char>,
)
    requires
        other != code,
    ensures
        m.insert(code, name).dom().contains(code),
        m.insert(code, name)[code] == name,
        m.insert(code, name).dom().contains(other) == m.dom().contains(other),
        m.dom().contains(other) ==> m.insert(code, name)[other] == m[other],
{
}

impl View for LanguageMap {
    type V = Map<Seq<char>, Seq<char>>;

    closed spec fn view(&self) -> Map<Seq<char>, Seq<char>> {
        pairs_to_map(static_pair_views(self.entries@))
    }
}

/// The languages that the service translates from and to, by code.
pub open spec fn language_table() -> Map<Seq<char>, Seq<char>> {
        Map::<Seq<char>, Seq<char>>::empty()
            .insert("ACE"@, "Acehnese"@)
            .insert("AF"@, "Afrikaans"@)
            .insert("AN"@, "Aragonese"@)
            .insert("AR"@, "Arabic"@)
            .insert("AS"@, "Assamese"@)
            .insert("AY"@, "Aymara"@)
            .insert("AZ"@, "Azerbaijani"@)
            .insert("BA"@, "Bashkir"@)
            .insert("BE"@, "Belarusian"@)
            .insert("BG"@, "Bulgarian"@)
            .insert("BHO"@, "Bhojpuri"@)
            .insert("BN"@, "Bengali"@)
            .insert("BR"@, "Breton"@)
            .insert("BS"@, "Bosnian"@)
            .insert("CA"@, "Catalan"@)
            .insert("CEB"@, "Cebuano"@)
            .insert("CKB"@, "Kurdish (Sorani)"@)
            .insert("CS"@, "Czech"@)
            .insert("CY"@, "Welsh"@)
            .insert("DA"@, "Danish"@)
            .insert("DE"@, "German"@)
            .insert("DE-CH"@, "German (Swiss)"@)
            .insert("DE-DE"@, "German (Germany)"@)
            .insert("EL"@, "Greek"@)
            .insert("EN"@, "English (Unspecified variant)"@)
            .insert("EN-GB"@, "English (British)"@)
            .insert("EN-US"@, "English (American)"@)
            .insert("EO"@, "Esperanto"@)
            .insert("ES"@, "Spanish"@)
            .insert("ES-419"@, "Spanish (Latin America)"@)
            .insert("ET"@, "Estonian"@)
            .insert("EU"@, "Basque"@)
            .insert("FA"@, "Persian"@)
            .insert("FI"@, "Finnish"@)
            .insert("FR"@, "French"@)
            .insert("FR-CA"@, "French (Canadian)"@)
            .insert("FR-FR"@, "French (France)"@)
            .insert("GA"@, "Irish"@)
            .insert("GL"@, "Galician"@)
            .insert("GN"@, "Guarani"@)
            .insert("GOM"@, "Konkani"@)
            .insert("GU"@, "Gujarati"@)
            .insert("HA"@, "Hausa"@)
            .insert("HE"@, "Hebrew"@)
            .insert("HI"@, "Hindi"@)
            .insert("HR"@, "Croatian"@)
            .insert("HT"@, "Haitian Creole"@)
            .insert("HU"@, "Hungarian"@)
            .insert("HY"@, "Armenian"@)
            .insert("ID"@, "Indonesian"@)
            .insert("IG"@, "Igbo"@)
            .insert("IS"@, "Icelandic"@)
            .insert("IT"@, "Italian"@)
            .insert("JA"@, "Japanese"@)
            .insert("JV"@, "Javanese"@)
            .insert("KA"@, "Georgian"@)
            .insert("KK"@, "Kazakh"@)
            .insert("KMR"@, "Kurdish (Kurmanji)"@)
            .insert("KO"@, "Korean"@)
            .insert("KY"@, "Kyrgyz"@)
            .insert("LA"@, "Latin"@)
            .insert("LB"@, "Luxembourgish"@)
            .insert("LMO"@, "Lombard"@)
            .insert("LN"@, "Lingala"@)
            .insert("LT"@, "Lithuanian"@)
            .insert("LV"@, "Latvian"@)
            .insert("MAI"@, "Maithili"@)
            .insert("MG"@, "Malagasy"@)
            .insert("MI"@, "Maori"@)
            .insert("MK"@, "Macedonian"@)
            .insert("ML"@, "Malayalam"@)
            .insert("MN"@, "Mongolian"@)
            .insert("MR"@, "Marathi"@)
            .insert("MS"@, "Malay"@)
            .insert("MT"@, "Maltese"@)
            .insert("MY"@, "Burmese"@)
            .insert("NB"@, "Norwegian (bokmål)"@)
            .insert("NE"@, "Nepali"@)
            .insert("NL"@, "Dutch"@)
            .insert("OC"@, "Occitan"@)
            .insert("OM"@, "Oromo"@)
            .insert("PA"@, "Punjabi"@)
            .insert("PAG"@, "Pangasinan"@)
            .insert("PAM"@, "Kapampangan"@)
            .insert("PL"@, "Polish"@)
            .insert("PRS"@, "Dari"@)
            .insert("PS"@, "Pashto"@)
            .insert("PT"@, "Portuguese (all Portuguese varieties mixed)"@)
            .insert("PT-BR"@, "Portuguese (Brazilian)"@)
            .insert("PT-PT"@, "Portuguese (European)"@)
            .insert("QU"@, "Quechua"@)
            .insert("RO"@, "Romanian"@)
            .insert("RU"@, "Russian"@)
            .insert("SA"@, "Sanskrit"@)
            .insert("SCN"@, "Sicilian"@)
            .insert("SK"@, "Slovak"@)
            .insert("SL"@, "Slovenian"@)
            .insert("SQ"@, "Albanian"@)
            .insert("SR"@, "Serbian"@)
            .insert("ST"@, "Sesotho"@)
            .insert("SU"@, "Sundanese"@)
            .insert("SV"@, "Swedish"@)
            .insert("SW"@, "Swahili"@)
            .insert("TA"@, "Tamil"@)
            .insert("TE"@, "Telugu"@)
            .insert("TG"@, "Tajik"@)
            .insert("TH"@, "Thai"@)
            .insert("TK"@, "Turkmen"@)
            .insert("TL"@, "Tagalog"@)
            .insert("TN"@, "Tswana"@)
            .insert("TR"@, "Turkish"@)
            .insert("TS"@, "Tsonga"@)
            .insert("TT"@, "Tatar"@)
            .insert("UK"@, "Ukrainian"@)
            .insert("UR"@, "Urdu"@)
            .insert("UZ"@, "Uzbek"@)
            .insert("VI"@, "Vietnamese"@)
            .insert("WO"@, "Wolof"@)
            .insert("XH"@, "Xhosa"@)
            .insert("YI"@, "Yiddish"@)
            .insert("YUE"@, "Cantonese"@)
            .insert("ZH"@, "Chinese"@)
            .insert("ZH-HANS"@, "Chinese (simplified)"@)
            .insert("ZH-HANT"@, "Chinese (traditional)"@)
            .insert("ZU"@, "Zulu"@)
}

/// The table of languages that the service supports.
pub fn languages() -> (m: LanguageMap)
    ensures
        m@ == language_table(),
        codes_unique(m.entry_seq()),
        pairs_to_map(m.entry_seq()) == m@,
        forall|i: int|
            0 <= i < deepl_language_count() ==> m@.dom().contains(#[trigger] deepl_language(i).0),
        forall|c: Seq<char>|
            #[trigger] m@.dom().contains(c) ==> exists|i: int|
                0 <= i < deepl_language_count() && #[trigger] deepl_language(i).0 == c && m@[c]
                    == deepl_language(i).1,
{
    proof {
        lemma_language_table_is_deepl_list();
    }
    let mut m = LanguageMap::new();
    m.insert("ACE", "Acehnese");
    m.insert("AF", "Afrikaans");
    m.insert("AN", "Aragonese");
    m.insert("AR", "Arabic");
    m.insert("AS", "Assamese");
    m.insert("AY", "Aymara");
    m.insert("AZ", "Azerbaijani");
    m.insert("BA", "Bashkir");
    m.insert("BE", "Belarusian");
    m.insert("BG", "Bulgarian");
    m.insert("BHO", "Bhojpuri");
    m.insert("BN", "Bengali");
    m.insert("BR", "Breton");
    m.insert("BS", "Bosnian");
    m.insert("CA", "Catalan");
    m.insert("CEB", "Cebuano");
    m.insert("CKB", "Kurdish (Sorani)");
    m.insert("CS", "Czech");
    m.insert("CY", "Welsh");
    m.insert("DA", "Danish");
    m.insert("DE", "German");
    m.insert("DE-CH", "German (Swiss)");
    m.insert("DE-DE", "German (Germany)");
    m.insert("EL", "Greek");
    m.insert("EN", "English (Unspecified variant)");
    m.insert("EN-GB", "English (British)");
    m.insert("EN-US", "English (American)");
    m.insert("EO", "Esperanto");
    m.insert("ES", "Spanish");
    m.insert("ES-419", "Spanish (Latin America)");
    m.insert("ET", "Estonian");
    m.insert("EU", "Basque");
    m.insert("FA", "Persian");
    m.insert("FI", "Finnish");
    m.insert("FR", "French");
    m.insert("FR-CA", "French (Canadian)");
    m.insert("FR-FR", "French (France)");
    m.insert("GA", "Irish");
    m.insert("GL", "Galician");
    m.insert("GN", "Guarani");
    m.insert("GOM", "Konkani");
    m.insert("GU", "Gujarati");
    m.insert("HA", "Hausa");
    m.insert("HE", "Hebrew");
    m.insert("HI", "Hindi");
    m.insert("HR", "Croatian");
    m.insert("HT", "Haitian Creole");
    m.insert("HU", "Hungarian");
    m.insert("HY", "Armenian");
    m.insert("ID", "Indonesian");
    m.insert("IG", "Igbo");
    m.insert("IS", "Icelandic");
    m.insert("IT", "Italian");
    m.insert("JA", "Japanese");
    m.insert("JV", "Javanese");
    m.insert("KA", "Georgian");
    m.insert("KK", "Kazakh");
    m.insert("KMR", "Kurdish (Kurmanji)");
    m.insert("KO", "Korean");
    m.insert("KY", "Kyrgyz");
    m.insert("LA", "Latin");
    m.insert("LB", "Luxembourgish");
    m.insert("LMO", "Lombard");
    m.insert("LN", "Lingala");
    m.insert("LT", "Lithuanian");
    m.insert("LV", "Latvian");
    m.insert("MAI", "Maithili");
    m.insert("MG", "Malagasy");
    m.insert("MI", "Maori");
    m.insert("MK", "Macedonian");
    m.insert("ML", "Malayalam");
    m.insert("MN", "Mongolian");
    m.insert("MR", "Marathi");
    m.insert("MS", "Malay");
    m.insert("MT", "Maltese");
    m.insert("MY", "Burmese");
    m.insert("NB", "Norwegian (bokmål)");
    m.insert("NE", "Nepali");
    m.insert("NL", "Dutch");
    m.insert("OC", "Occitan");
    m.insert("OM", "Oromo");
    m.insert("PA", "Punjabi");
    m.insert("PAG", "Pangasinan");
    m.insert("PAM", "Kapampangan");
    m.insert("PL", "Polish");
    m.insert("PRS", "Dari");
    m.insert("PS", "Pashto");
    m.insert("PT", "Portuguese (all Portuguese varieties mixed)");
    m.insert("PT-BR", "Portuguese (Brazilian)");
    m.insert("PT-PT", "Portuguese (European)");
    m.insert("QU", "Quechua");
    m.insert("RO", "Romanian");
    m.insert("RU", "Russian");
    m.insert("SA", "Sanskrit");
    m.insert("SCN", "Sicilian");
    m.insert("SK", "Slovak");
    m.insert("SL", "Slovenian");
    m.insert("SQ", "Albanian");
    m.insert("SR", "Serbian");
    m.insert("ST", "Sesotho");
    m.insert("SU", "Sundanese");
    m.insert("SV", "Swedish");
    m.insert("SW", "Swahili");
    m.insert("TA", "Tamil");
    m.insert("TE", "Telugu");
    m.insert("TG", "Tajik");
    m.insert("TH", "Thai");
    m.insert("TK", "Turkmen");
    m.insert("TL", "Tagalog");
    m.insert("TN", "Tswana");
    m.insert("TR", "Turkish");
    m.insert("TS", "Tsonga");
    m.insert("TT", "Tatar");
    m.insert("UK", "Ukrainian");
    m.insert("UR", "Urdu");
    m.insert("UZ", "Uzbek");
    m.insert("VI", "Vietnamese");
    m.insert("WO", "Wolof");
    m.insert("XH", "Xhosa");
    m.insert("YI", "Yiddish");
    m.insert("YUE", "Cantonese");
    m.insert("ZH", "Chinese");
    m.insert("ZH-HANS", "Chinese (simplified)");
    m.insert("ZH-HANT", "Chinese (traditional)");
    m.insert("ZU", "Zulu");
    proof {
        assert forall|c: Seq<char>| #[trigger] m@.dom().contains(c) implies exists|i: int|
            0 <= i < deepl_language_count() && #[trigger] deepl_language(i).0 == c && m@[c]
                == deepl_language(i).1 by {
            assert(language_table().dom().contains(c));
        }
    }
    m
}


/// The number of languages on DeepL's list.
pub open spec fn deepl_language_count() -> int {
    125
}

/// The `i`-th language of DeepL's list, as (code, name), in alphabetical
/// order of code.
pub open spec fn deepl_language(i: int) -> EntryView {
    if i == 0 {
        ("ACE"@, "Acehnese"@)
    } else if i == 1 {
        ("AF"@, "Afrikaans"@)
    } else if i == 2 {
        ("AN"@, "Aragonese"@)
    } else if i == 3 {
        ("AR"@, "Arabic"@)
    } else if i == 4 {
        ("AS"@, "Assamese"@)
    } else if i == 5 {
        ("AY"@, "Aymara"@)
    } else if i == 6 {
        ("AZ"@, "Azerbaijani"@)
    } else if i == 7 {
        ("BA"@, "Bashkir"@)
    } else if i == 8 {
        ("BE"@, "Belarusian"@)
    } else if i == 9 {
        ("BG"@, "Bulgarian"@)
    } else if i == 10 {
        ("BHO"@, "Bhojpuri"@)
    } else if i == 11 {
        ("BN"@, "Bengali"@)
    } else if i == 12 {
        ("BR"@, "Breton"@)
    } else if i == 13 {
        ("BS"@, "Bosnian"@)
    } else if i == 14 {
        ("CA"@, "Catalan"@)
    } else if i == 15 {
        ("CEB"@, "Cebuano"@)
    } else if i == 16 {
        ("CKB"@, "Kurdish (Sorani)"@)
    } else if i == 17 {
        ("CS"@, "Czech"@)
    } else if i == 18 {
        ("CY"@, "Welsh"@)
    } else if i == 19 {
        ("DA"@, "Danish"@)
    } else if i == 20 {
        ("DE"@, "German"@)
    } else if i == 21 {
        ("DE-CH"@, "German (Swiss)"@)
    } else if i == 22 {
        ("DE-DE"@, "German (Germany)"@)
    } else if i == 23 {
        ("EL"@, "Greek"@)
    } else if i == 24 {
        ("EN"@, "English (Unspecified variant)"@)
    } else if i == 25 {
        ("EN-GB"@, "English (British)"@)
    } else if i == 26 {
        ("EN-US"@, "English (American)"@)
    } else if i == 27 {
        ("EO"@, "Esperanto"@)
    } else if i == 28 {
        ("ES"@, "Spanish"@)
    } else if i == 29 {
        ("ES-419"@, "Spanish (Latin America)"@)
    } else if i == 30 {
        ("ET"@, "Estonian"@)
    } else if i == 31 {
        ("EU"@, "Basque"@)
    } else if i == 32 {
        ("FA"@, "Persian"@)
    } else if i == 33 {
        ("FI"@, "Finnish"@)
    } else if i == 34 {
        ("FR"@, "French"@)
    } else if i == 35 {
        ("FR-CA"@, "French (Canadian)"@)
    } else if i == 36 {
        ("FR-FR"@, "French (France)"@)
    } else if i == 37 {
        ("GA"@, "Irish"@)
    } else if i == 38 {
        ("GL"@, "Galician"@)
    } else if i == 39 {
        ("GN"@, "Guarani"@)
    } else if i == 40 {
        ("GOM"@, "Konkani"@)
    } else if i == 41 {
        ("GU"@, "Gujarati"@)
    } else if i == 42 {
        ("HA"@, "Hausa"@)
    } else if i == 43 {
        ("HE"@, "Hebrew"@)
    } else if i == 44 {
        ("HI"@, "Hindi"@)
    } else if i == 45 {
        ("HR"@, "Croatian"@)
    } else if i == 46 {
        ("HT"@, "Haitian Creole"@)
    } else if i == 47 {
        ("HU"@, "Hungarian"@)
    } else if i == 48 {
        ("HY"@, "Armenian"@)
    } else if i == 49 {
        ("ID"@, "Indonesian"@)
    } else if i == 50 {
        ("IG"@, "Igbo"@)
    } else if i == 51 {
        ("IS"@, "Icelandic"@)
    } else if i == 52 {
        ("IT"@, "Italian"@)
    } else if i == 53 {
        ("JA"@, "Japanese"@)
    } else if i == 54 {
        ("JV"@, "Javanese"@)
    } else if i == 55 {
        ("KA"@, "Georgian"@)
    } else if i == 56 {
        ("KK"@, "Kazakh"@)
    } else if i == 57 {
        ("KMR"@, "Kurdish (Kurmanji)"@)
    } else if i == 58 {
        ("KO"@, "Korean"@)
    } else if i == 59 {
        ("KY"@, "Kyrgyz"@)
    } else if i == 60 {
        ("LA"@, "Latin"@)
    } else if i == 61 {
        ("LB"@, "Luxembourgish"@)
    } else if i == 62 {
        ("LMO"@, "Lombard"@)
    } else if i == 63 {
        ("LN"@, "Lingala"@)
    } else if i == 64 {
        ("LT"@, "Lithuanian"@)
    } else if i == 65 {
        ("LV"@, "Latvian"@)
    } else if i == 66 {
        ("MAI"@, "Maithili"@)
    } else if i == 67 {
        ("MG"@, "Malagasy"@)
    } else if i == 68 {
        ("MI"@, "Maori"@)
    } else if i == 69 {
        ("MK"@, "Macedonian"@)
    } else if i == 70 {
        ("ML"@, "Malayalam"@)
    } else if i == 71 {
        ("MN"@, "Mongolian"@)
    } else if i == 72 {
        ("MR"@, "Marathi"@)
    } else if i == 73 {
        ("MS"@, "Malay"@)
    } else if i == 74 {
        ("MT"@, "Maltese"@)
    } else if i == 75 {
        ("MY"@, "Burmese"@)
    } else if i == 76 {
        ("NB"@, "Norwegian (bokmål)"@)
    } else if i == 77 {
        ("NE"@, "Nepali"@)
    } else if i == 78 {
        ("NL"@, "Dutch"@)
    } else if i == 79 {
        ("OC"@, "Occitan"@)
    } else if i == 80 {
        ("OM"@, "Oromo"@)
    } else if i == 81 {
        ("PA"@, "Punjabi"@)
    } else if i == 82 {
        ("PAG"@, "Pangasinan"@)
    } else if i == 83 {
        ("PAM"@, "Kapampangan"@)
    } else if i == 84 {
        ("PL"@, "Polish"@)
    } else if i == 85 {
        ("PRS"@, "Dari"@)
    } else if i == 86 {
        ("PS"@, "Pashto"@)
    } else if i == 87 {
        ("PT"@, "Portuguese (all Portuguese varieties mixed)"@)
    } else if i == 88 {
        ("PT-BR"@, "Portuguese (Brazilian)"@)
    } else if i == 89 {
        ("PT-PT"@, "Portuguese (European)"@)
    } else if i == 90 {
        ("QU"@, "Quechua"@)
    } else if i == 91 {
        ("RO"@, "Romanian"@)
    } else if i == 92 {
        ("RU"@, "Russian"@)
    } else if i == 93 {
        ("SA"@, "Sanskrit"@)
    } else if i == 94 {
        ("SCN"@, "Sicilian"@)
    } else if i == 95 {
        ("SK"@, "Slovak"@)
    } else if i == 96 {
        ("SL"@, "Slovenian"@)
    } else if i == 97 {
        ("SQ"@, "Albanian"@)
    } else if i == 98 {
        ("SR"@, "Serbian"@)
    } else if i == 99 {
        ("ST"@, "Sesotho"@)
    } else if i == 100 {
        ("SU"@, "Sundanese"@)
    } else if i == 101 {
        ("SV"@, "Swedish"@)
    } else if i == 102 {
        ("SW"@, "Swahili"@)
    } else if i == 103 {
        ("TA"@, "Tamil"@)
    } else if i == 104 {
        ("TE"@, "Telugu"@)
    } else if i == 105 {
        ("TG"@, "Tajik"@)
    } else if i == 106 {
        ("TH"@, "Thai"@)
    } else if i == 107 {
        ("TK"@, "Turkmen"@)
    } else if i == 108 {
        ("TL"@, "Tagalog"@)
    } else if i == 109 {
        ("TN"@, "Tswana"@)
    } else if i == 110 {
        ("TR"@, "Turkish"@)
    } else if i == 111 {
        ("TS"@, "Tsonga"@)
    } else if i == 112 {
        ("TT"@, "Tatar"@)
    } else if i == 113 {
        ("UK"@, "Ukrainian"@)
    } else if i == 114 {
        ("UR"@, "Urdu"@)
    } else if i == 115 {
        ("UZ"@, "Uzbek"@)
    } else if i == 116 {
        ("VI"@, "Vietnamese"@)
    } else if i == 117 {
        ("WO"@, "Wolof"@)
    } else if i == 118 {
        ("XH"@, "Xhosa"@)
    } else if i == 119 {
        ("YI"@, "Yiddish"@)
    } else if i == 120 {
        ("YUE"@, "Cantonese"@)
    } else if i == 121 {
        ("ZH"@, "Chinese"@)
    } else if i == 122 {
        ("ZH-HANS"@, "Chinese (simplified)"@)
    } else if i == 123 {
        ("ZH-HANT"@, "Chinese (traditional)"@)
    } else if i == 124 {
        ("ZU"@, "Zulu"@)
    } else {
        (Seq::<char>::empty(), Seq::<char>::empty())
    }
}

/// The map that the first `n` languages of DeepL's list build.
spec fn deepl_table_upto(n: nat) -> Map<Seq<char>, Seq<char>>
    decreases n,
{
    if n == 0 {
        Map::empty()
    } else {
        deepl_table_upto((n - 1) as nat).insert(
            deepl_language(n - 1).0,
            deepl_language(n - 1).1,
        )
    }
}

proof fn lemma_deepl_table_upto(n: nat)
    ensures
        forall|i: int| 0 <= i < n ==> deepl_table_upto(n).dom().contains(#[trigger] deepl_language(i).0),
        forall|c: Seq<char>| #[trigger] deepl_table_upto(n).dom().contains(c) ==> exists|i: int|
            0 <= i < n && #[trigger] deepl_language(i).0 == c && deepl_table_upto(n)[c]
                == deepl_language(i).1,
    decreases n,
{
    if n > 0 {
        let m = (n - 1) as nat;
        lemma_deepl_table_upto(m);
        let k = deepl_language(m as int).0;
        assert forall|c: Seq<char>| #[trigger] deepl_table_upto(n).dom().contains(c) implies exists|i: int|
            0 <= i < n && #[trigger] deepl_language(i).0 == c && deepl_table_upto(n)[c]
                == deepl_language(i).1 by {
            if c == k {
                assert(deepl_language(m as int).0 == c);
            } else {
                assert(deepl_table_upto(m).dom().contains(c));
                let i = choose|i: int|
                    0 <= i < m && #[trigger] deepl_language(i).0 == c && deepl_table_upto(m)[c]
                        == deepl_language(i).1;
                assert(deepl_language(i).0 == c);
            }
        }
    }
}

/// The table of languages holds exactly DeepL's list: every language of
/// the list is in the table, and every code of the table is on the list,
/// with the list's name for it.
pub proof fn lemma_language_table_is_deepl_list()
    ensures
        forall|i: int|
            0 <= i < deepl_language_count() ==> language_table().dom().contains(
                #[trigger] deepl_language(i).0,
            ),
        forall|c: Seq<char>|
            #[trigger] language_table().dom().contains(c) ==> exists|i: int|
                0 <= i < deepl_language_count() && #[trigger] deepl_language(i).0 == c
                    && language_table()[c] == deepl_language(i).1,
{
    assert(deepl_table_upto(1) == deepl_table_upto(0).insert("ACE"@, "Acehnese"@));
    assert(deepl_table_upto(2) == deepl_table_upto(1).insert("AF"@, "Afrikaans"@));
    assert(deepl_table_upto(3) == deepl_table_upto(2).insert("AN"@, "Aragonese"@));
    assert(deepl_table_upto(4) == deepl_table_upto(3).insert("AR"@, "Arabic"@));
    assert(deepl_table_upto(5) == deepl_table_upto(4).insert("AS"@, "Assamese"@));
    assert(deepl_table_upto(6) == deepl_table_upto(5).insert("AY"@, "Aymara"@));
    assert(deepl_table_upto(7) == deepl_table_upto(6).insert("AZ"@, "Azerbaijani"@));
    assert(deepl_table_upto(8) == deepl_table_upto(7).insert("BA"@, "Bashkir"@));
    assert(deepl_table_upto(9) == deepl_table_upto(8).insert("BE"@, "Belarusian"@));
    assert(deepl_table_upto(10) == deepl_table_upto(9).insert("BG"@, "Bulgarian"@));
    assert(deepl_table_upto(11) == deepl_table_upto(10).insert("BHO"@, "Bhojpuri"@));
    assert(deepl_table_upto(12) == deepl_table_upto(11).insert("BN"@, "Bengali"@));
    assert(deepl_table_upto(13) == deepl_table_upto(12).insert("BR"@, "Breton"@));
    assert(deepl_table_upto(14) == deepl_table_upto(13).insert("BS"@, "Bosnian"@));
    assert(deepl_table_upto(15) == deepl_table_upto(14).insert("CA"@, "Catalan"@));
    assert(deepl_table_upto(16) == deepl_table_upto(15).insert("CEB"@, "Cebuano"@));
    assert(deepl_table_upto(17) == deepl_table_upto(16).insert("CKB"@, "Kurdish (Sorani)"@));
    assert(deepl_table_upto(18) == deepl_table_upto(17).insert("CS"@, "Czech"@));
    assert(deepl_table_upto(19) == deepl_table_upto(18).insert("CY"@, "Welsh"@));
    assert(deepl_table_upto(20) == deepl_table_upto(19).insert("DA"@, "Danish"@));
    assert(deepl_table_upto(21) == deepl_table_upto(20).insert("DE"@, "German"@));
    assert(deepl_table_upto(22) == deepl_table_upto(21).insert("DE-CH"@, "German (Swiss)"@));
    assert(deepl_table_upto(23) == deepl_table_upto(22).insert("DE-DE"@, "German (Germany)"@));
    assert(deepl_table_upto(24) == deepl_table_upto(23).insert("EL"@, "Greek"@));
    assert(deepl_table_upto(25) == deepl_table_upto(24).insert("EN"@, "English (Unspecified variant)"@));
    assert(deepl_table_upto(26) == deepl_table_upto(25).insert("EN-GB"@, "English (British)"@));
    assert(deepl_table_upto(27) == deepl_table_upto(26).insert("EN-US"@, "English (American)"@));
    assert(deepl_table_upto(28) == deepl_table_upto(27).insert("EO"@, "Esperanto"@));
    assert(deepl_table_upto(29) == deepl_table_upto(28).insert("ES"@, "Spanish"@));
    assert(deepl_table_upto(30) == deepl_table_upto(29).insert("ES-419"@, "Spanish (Latin America)"@));
    assert(deepl_table_upto(31) == deepl_table_upto(30).insert("ET"@, "Estonian"@));
    assert(deepl_table_upto(32) == deepl_table_upto(31).insert("EU"@, "Basque"@));
    assert(deepl_table_upto(33) == deepl_table_upto(32).insert("FA"@, "Persian"@));
    assert(deepl_table_upto(34) == deepl_table_upto(33).insert("FI"@, "Finnish"@));
    assert(deepl_table_upto(35) == deepl_table_upto(34).insert("FR"@, "French"@));
    assert(deepl_table_upto(36) == deepl_table_upto(35).insert("FR-CA"@, "French (Canadian)"@));
    assert(deepl_table_upto(37) == deepl_table_upto(36).insert("FR-FR"@, "French (France)"@));
    assert(deepl_table_upto(38) == deepl_table_upto(37).insert("GA"@, "Irish"@));
    assert(deepl_table_upto(39) == deepl_table_upto(38).insert("GL"@, "Galician"@));
    assert(deepl_table_upto(40) == deepl_table_upto(39).insert("GN"@, "Guarani"@));
    assert(deepl_table_upto(41) == deepl_table_upto(40).insert("GOM"@, "Konkani"@));
    assert(deepl_table_upto(42) == deepl_table_upto(41).insert("GU"@, "Gujarati"@));
    assert(deepl_table_upto(43) == deepl_table_upto(42).insert("HA"@, "Hausa"@));
    assert(deepl_table_upto(44) == deepl_table_upto(43).insert("HE"@, "Hebrew"@));
    assert(deepl_table_upto(45) == deepl_table_upto(44).insert("HI"@, "Hindi"@));
    assert(deepl_table_upto(46) == deepl_table_upto(45).insert("HR"@, "Croatian"@));
    assert(deepl_table_upto(47) == deepl_table_upto(46).insert("HT"@, "Haitian Creole"@));
    assert(deepl_table_upto(48) == deepl_table_upto(47).insert("HU"@, "Hungarian"@));
    assert(deepl_table_upto(49) == deepl_table_upto(48).insert("HY"@, "Armenian"@));
    assert(deepl_table_upto(50) == deepl_table_upto(49).insert("ID"@, "Indonesian"@));
    assert(deepl_table_upto(51) == deepl_table_upto(50).insert("IG"@, "Igbo"@));
    assert(deepl_table_upto(52) == deepl_table_upto(51).insert("IS"@, "Icelandic"@));
    assert(deepl_table_upto(53) == deepl_table_upto(52).insert("IT"@, "Italian"@));
    assert(deepl_table_upto(54) == deepl_table_upto(53).insert("JA"@, "Japanese"@));
    assert(deepl_table_upto(55) == deepl_table_upto(54).insert("JV"@, "Javanese"@));
    assert(deepl_table_upto(56) == deepl_table_upto(55).insert("KA"@, "Georgian"@));
    assert(deepl_table_upto(57) == deepl_table_upto(56).insert("KK"@, "Kazakh"@));
    assert(deepl_table_upto(58) == deepl_table_upto(57).insert("KMR"@, "Kurdish (Kurmanji)"@));
    assert(deepl_table_upto(59) == deepl_table_upto(58).insert("KO"@, "Korean"@));
    assert(deepl_table_upto(60) == deepl_table_upto(59).insert("KY"@, "Kyrgyz"@));
    assert(deepl_table_upto(61) == deepl_table_upto(60).insert("LA"@, "Latin"@));
    assert(deepl_table_upto(62) == deepl_table_upto(61).insert("LB"@, "Luxembourgish"@));
    assert(deepl_table_upto(63) == deepl_table_upto(62).insert("LMO"@, "Lombard"@));
    assert(deepl_table_upto(64) == deepl_table_upto(63).insert("LN"@, "Lingala"@));
    assert(deepl_table_upto(65) == deepl_table_upto(64).insert("LT"@, "Lithuanian"@));
    assert(deepl_table_upto(66) == deepl_table_upto(65).insert("LV"@, "Latvian"@));
    assert(deepl_table_upto(67) == deepl_table_upto(66).insert("MAI"@, "Maithili"@));
    assert(deepl_table_upto(68) == deepl_table_upto(67).insert("MG"@, "Malagasy"@));
    assert(deepl_table_upto(69) == deepl_table_upto(68).insert("MI"@, "Maori"@));
    assert(deepl_table_upto(70) == deepl_table_upto(69).insert("MK"@, "Macedonian"@));
    assert(deepl_table_upto(71) == deepl_table_upto(70).insert("ML"@, "Malayalam"@));
    assert(deepl_table_upto(72) == deepl_table_upto(71).insert("MN"@, "Mongolian"@));
    assert(deepl_table_upto(73) == deepl_table_upto(72).insert("MR"@, "Marathi"@));
    assert(deepl_table_upto(74) == deepl_table_upto(73).insert("MS"@, "Malay"@));
    assert(deepl_table_upto(75) == deepl_table_upto(74).insert("MT"@, "Maltese"@));
    assert(deepl_table_upto(76) == deepl_table_upto(75).insert("MY"@, "Burmese"@));
    assert(deepl_table_upto(77) == deepl_table_upto(76).insert("NB"@, "Norwegian (bokmål)"@));
    assert(deepl_table_upto(78) == deepl_table_upto(77).insert("NE"@, "Nepali"@));
    assert(deepl_table_upto(79) == deepl_table_upto(78).insert("NL"@, "Dutch"@));
    assert(deepl_table_upto(80) == deepl_table_upto(79).insert("OC"@, "Occitan"@));
    assert(deepl_table_upto(81) == deepl_table_upto(80).insert("OM"@, "Oromo"@));
    assert(deepl_table_upto(82) == deepl_table_upto(81).insert("PA"@, "Punjabi"@));
    assert(deepl_table_upto(83) == deepl_table_upto(82).insert("PAG"@, "Pangasinan"@));
    assert(deepl_table_upto(84) == deepl_table_upto(83).insert("PAM"@, "Kapampangan"@));
    assert(deepl_table_upto(85) == deepl_table_upto(84).insert("PL"@, "Polish"@));
    assert(deepl_table_upto(86) == deepl_table_upto(85).insert("PRS"@, "Dari"@));
    assert(deepl_table_upto(87) == deepl_table_upto(86).insert("PS"@, "Pashto"@));
    assert(deepl_table_upto(88) == deepl_table_upto(87).insert("PT"@, "Portuguese (all Portuguese varieties mixed)"@));
    assert(deepl_table_upto(89) == deepl_table_upto(88).insert("PT-BR"@, "Portuguese (Brazilian)"@));
    assert(deepl_table_upto(90) == deepl_table_upto(89).insert("PT-PT"@, "Portuguese (European)"@));
    assert(deepl_table_upto(91) == deepl_table_upto(90).insert("QU"@, "Quechua"@));
    assert(deepl_table_upto(92) == deepl_table_upto(91).insert("RO"@, "Romanian"@));
    assert(deepl_table_upto(93) == deepl_table_upto(92).insert("RU"@, "Russian"@));
    assert(deepl_table_upto(94) == deepl_table_upto(93).insert("SA"@, "Sanskrit"@));
    assert(deepl_table_upto(95) == deepl_table_upto(94).insert("SCN"@, "Sicilian"@));
    assert(deepl_table_upto(96) == deepl_table_upto(95).insert("SK"@, "Slovak"@));
    assert(deepl_table_upto(97) == deepl_table_upto(96).insert("SL"@, "Slovenian"@));
    assert(deepl_table_upto(98) == deepl_table_upto(97).insert("SQ"@, "Albanian"@));
    assert(deepl_table_upto(99) == deepl_table_upto(98).insert("SR"@, "Serbian"@));
    assert(deepl_table_upto(100) == deepl_table_upto(99).insert("ST"@, "Sesotho"@));
    assert(deepl_table_upto(101) == deepl_table_upto(100).insert("SU"@, "Sundanese"@));
    assert(deepl_table_upto(102) == deepl_table_upto(101).insert("SV"@, "Swedish"@));
    assert(deepl_table_upto(103) == deepl_table_upto(102).insert("SW"@, "Swahili"@));
    assert(deepl_table_upto(104) == deepl_table_upto(103).insert("TA"@, "Tamil"@));
    assert(deepl_table_upto(105) == deepl_table_upto(104).insert("TE"@, "Telugu"@));
    assert(deepl_table_upto(106) == deepl_table_upto(105).insert("TG"@, "Tajik"@));
    assert(deepl_table_upto(107) == deepl_table_upto(106).insert("TH"@, "Thai"@));
    assert(deepl_table_upto(108) == deepl_table_upto(107).insert("TK"@, "Turkmen"@));
    assert(deepl_table_upto(109) == deepl_table_upto(108).insert("TL"@, "Tagalog"@));
    assert(deepl_table_upto(110) == deepl_table_upto(109).insert("TN"@, "Tswana"@));
    assert(deepl_table_upto(111) == deepl_table_upto(110).insert("TR"@, "Turkish"@));
    assert(deepl_table_upto(112) == deepl_table_upto(111).insert("TS"@, "Tsonga"@));
    assert(deepl_table_upto(113) == deepl_table_upto(112).insert("TT"@, "Tatar"@));
    assert(deepl_table_upto(114) == deepl_table_upto(113).insert("UK"@, "Ukrainian"@));
    assert(deepl_table_upto(115) == deepl_table_upto(114).insert("UR"@, "Urdu"@));
    assert(deepl_table_upto(116) == deepl_table_upto(115).insert("UZ"@, "Uzbek"@));
    assert(deepl_table_upto(117) == deepl_table_upto(116).insert("VI"@, "Vietnamese"@));
    assert(deepl_table_upto(118) == deepl_table_upto(117).insert("WO"@, "Wolof"@));
    assert(deepl_table_upto(119) == deepl_table_upto(118).insert("XH"@, "Xhosa"@));
    assert(deepl_table_upto(120) == deepl_table_upto(119).insert("YI"@, "Yiddish"@));
    assert(deepl_table_upto(121) == deepl_table_upto(120).insert("YUE"@, "Cantonese"@));
    assert(deepl_table_upto(122) == deepl_table_upto(121).insert("ZH"@, "Chinese"@));
    assert(deepl_table_upto(123) == deepl_table_upto(122).insert("ZH-HANS"@, "Chinese (simplified)"@));
    assert(deepl_table_upto(124) == deepl_table_upto(123).insert("ZH-HANT"@, "Chinese (traditional)"@));
    assert(deepl_table_upto(125) == deepl_table_upto(124).insert("ZU"@, "Zulu"@));
    assert(language_table() == deepl_table_upto(125));
    lemma_deepl_table_upto(125);
}

/// The codes of the languages that the text-improvement service accepts.
pub open spec fn write_supported_codes() -> Seq<Seq<char>> {
    seq!["DE"@, "EN"@, "EN-GB"@, "EN-US"@, "ES"@, "FR"@, "IT"@, "JA"@, "KO"@, "PT"@, "PT-BR"@, "PT-PT"@, "ZH"@, "ZH-HANS"@]
}

/// The views of a sequence of static strings.
pub open spec fn str_views(s: Seq<&str>) -> Seq<Seq<char>> {
    s.map_values(|t: &str| t@)
}

/// The codes of the languages that the text-improvement service accepts.
pub fn write_supported_languages() -> (v: Vec<&'static str>)
    ensures
        str_views(v@) == write_supported_codes(),
{
    let mut v: Vec<&'static str> = Vec::new();
    v.push("DE");
    v.push("EN");
    v.push("EN-GB");
    v.push("EN-US");
    v.push("ES");
    v.push("FR");
    v.push("IT");
    v.push("JA");
    v.push("KO");
    v.push("PT");
    v.push("PT-BR");
    v.push("PT-PT");
    v.push("ZH");
    v.push("ZH-HANS");
    assert(str_views(v@) =~= write_supported_codes());
    v
}

/// Whether the text-improvement service accepts the language `code`.
pub fn is_write_supported(code: &str) -> (r: bool)
    ensures
        r == write_supported_codes().contains(code@),
{
    let v = write_supported_languages();
    let mut i: usize = 0;
    while i < v.len()
        invariant
            str_views(v@) == write_supported_codes(),
            i <= v@.len(),
            forall|k: int| 0 <= k < i ==> write_supported_codes()[k] != code@,
        decreases v.len() - i,
    {
        if same_text(v[i], code) {
            assert(write_supported_codes()[i as int] == code@);
            return true;
        }
        i = i + 1;
    }
    false
}

/// The label of the list entry that leaves the language to the service.
pub const AUTO: &'static str = "Auto";

/// The list entry that leaves the language to the service.
pub open spec fn auto_entry() -> EntryView {
    ("Auto"@, "Detect automatically"@)
}

/// The number of automatic-detection entries at the head of a list.
pub open spec fn auto_count(include_auto: bool) -> int {
    if include_auto {
        1
    } else {
        0
    }
}

/// Entries ordered by code, then by name.
pub open spec fn entry_le(a: EntryView, b: EntryView) -> bool {
    text_less(a.0, b.0) || (a.0 == b.0 && !text_less(b.1, a.1))
}

/// [`entry_le`] as a relation.
pub open spec fn entry_order() -> spec_fn(EntryView, EntryView) -> bool {
    |a: EntryView, b: EntryView| entry_le(a, b)
}

/// The order of entries is a total order.
pub proof fn lemma_entry_order_total()
    ensures
        total_ordering(entry_order()),
{
    let r = entry_order();
    assert forall|a: EntryView| #[trigger] r(a, a) by {
        lemma_text_less_irreflexive(a.1);
    }
    assert forall|a: EntryView, b: EntryView| #[trigger] r(a, b) && #[trigger] r(b, a) implies a
        == b by {
        lemma_text_less_irreflexive(a.0);
        if text_less(a.0, b.0) {
            lemma_text_less_asymmetric(a.0, b.0);
        }
        lemma_text_less_total(a.1, b.1);
    }
    assert forall|a: EntryView, b: EntryView, c: EntryView| #[trigger]
        r(a, b) && #[trigger] r(b, c) implies r(a, c) by {
        if text_less(a.0, b.0) && text_less(b.0, c.0) {
            lemma_text_less_transitive(a.0, b.0, c.0);
        }
        if a.0 == b.0 && b.0 == c.0 {
            lemma_text_less_total(a.1, b.1);
            lemma_text_less_total(b.1, c.1);
            lemma_text_less_total(a.1, c.1);
            if text_less(c.1, a.1) {
                if text_less(b.1, a.1) {
                } else if a.1 == b.1 {
                } else {
                    lemma_text_less_transitive(c.1, a.1, b.1);
                }
            }
        }
    }
    assert forall|a: EntryView, b: EntryView| #[trigger] r(a, b) || #[trigger] r(b, a) by {
        lemma_text_less_total(a.0, b.0);
        lemma_text_less_total(a.1, b.1);
        if text_less(a.1, b.1) {
            lemma_text_less_asymmetric(a.1, b.1);
        }
        if text_less(a.0, b.0) {
            lemma_text_less_asymmetric(a.0, b.0);
        }
    }
}

/// The entries of `m` for those of `codes` that it has, in the order of
/// `codes`.
pub open spec fn known_entries(m: Map<Seq<char>, Seq<char>>, codes: Seq<Seq<char>>) -> Seq<
    EntryView,
>
    decreases codes.len(),
{
    if codes.len() == 0 {
        Seq::<EntryView>::empty()
    } else {
        let prev = known_entries(m, codes.drop_last());
        if m.dom().contains(codes.last()) {
            prev.push((codes.last(), m[codes.last()]))
        } else {
            prev
        }
    }
}

/// Whether entry `a` comes no later than entry `b`.
fn entry_le_exec(a: &(String, String), b: &(String, String)) -> (r: bool)
    ensures
        r == entry_le((a.0@, a.1@), (b.0@, b.1@)),
{
    str_less(a.0.as_str(), b.0.as_str()) || (same_text(a.0.as_str(), b.0.as_str()) && !str_less(
        b.1.as_str(),
        a.1.as_str(),
    ))
}

proof fn lemma_insert_sorted(s: Seq<EntryView>, p: int, x: EntryView)
    requires
        sorted_by(s, entry_order()),
        total_ordering(entry_order()),
        0 <= p <= s.len(),
        forall|k: int| 0 <= k < p ==> entry_le(#[trigger] s[k], x),
        forall|k: int| p <= k < s.len() ==> entry_le(x, #[trigger] s[k]),
    ensures
        sorted_by(s.insert(p, x), entry_order()),
{
    let t = s.insert(p, x);
    assert forall|i: int, j: int| 0 <= i < j < t.len() implies #[trigger] entry_order()(
        t[i],
        t[j],
    ) by {
        if j < p {
            assert(t[i] == s[i] && t[j] == s[j]);
        } else if j == p {
            assert(t[i] == s[i]);
        } else if i < p {
            assert(t[i] == s[i] && t[j] == s[j - 1]);
            assert(entry_order()(s[i], x));
            assert(entry_order()(x, s[j - 1]));
        } else if i == p {
            assert(t[j] == s[j - 1]);
        } else {
            assert(t[i] == s[i - 1] && t[j] == s[j - 1]);
        }
    }
}

/// Where `x` goes in the sorted `out`: after every entry no later than it.
fn insertion_point(out: &Vec<(String, String)>, x: &(String, String)) -> (p: usize)
    requires
        sorted_by(pair_views(out@), entry_order()),
        total_ordering(entry_order()),
    ensures
        p <= out@.len(),
        forall|k: int| 0 <= k < p ==> entry_le(#[trigger] pair_views(out@)[k], (x.0@, x.1@)),
        forall|k: int|
            p <= k < out@.len() ==> entry_le((x.0@, x.1@), #[trigger] pair_views(out@)[k]),
{
    let ghost s = pair_views(out@);
    let ghost xv = (x.0@, x.1@);
    let mut j: usize = 0;
    while j < out.len()
        invariant
            s == pair_views(out@),
            xv == (x.0@, x.1@),
            j <= out@.len(),
            forall|k: int| 0 <= k < j ==> entry_le(#[trigger] s[k], xv),
        ensures
            j < out@.len() ==> !entry_le(s[j as int], xv),
        decreases out.len() - j,
    {
        let le = entry_le_exec(&out[j], x);
        assert(s[j as int] == (out@[j as int].0@, out@[j as int].1@));
        if !le {
            break;
        }
        j = j + 1;
    }
    if j < out.len() {
        assert(s[j as int] == (out@[j as int].0@, out@[j as int].1@));
        assert(!entry_order()(s[j as int], xv));
        assert(entry_order()(xv, s[j as int]));
        assert forall|k: int| j <= k < out@.len() implies entry_le(xv, #[trigger] s[k]) by {
            if k > j {
                assert(entry_order()(s[j as int], s[k]));
                assert(entry_order()(xv, s[k]));
            }
        }
    }
    j
}

/// The entries sorted by code, then name.
fn sort_entries(cands: &Vec<(String, String)>) -> (r: Vec<(String, String)>)
    ensures
        pair_views(r@) == pair_views(cands@).sort_by(entry_order()),
{
    proof {
        lemma_entry_order_total();
    }
    let ghost cs = pair_views(cands@);
    let mut out: Vec<(String, String)> = Vec::new();
    let mut i: usize = 0;
    assert(pair_views(out@) =~= cs.take(0));
    while i < cands.len()
        invariant
            cs == pair_views(cands@),
            i <= cands@.len(),
            total_ordering(entry_order()),
            sorted_by(pair_views(out@), entry_order()),
            pair_views(out@).to_multiset() == cs.take(i as int).to_multiset(),
        decreases cands.len() - i,
    {
        let x = (cands[i].0.clone(), cands[i].1.clone());
        assert(x.0@ == cs[i as int].0 && x.1@ == cs[i as int].1);
        let p = insertion_point(&out, &x);
        let ghost before = pair_views(out@);
        proof {
            lemma_insert_sorted(before, p as int, (x.0@, x.1@));
            to_multiset_insert(before, p as int, (x.0@, x.1@));
            to_multiset_build(cs.take(i as int), cs[i as int]);
            assert(cs.take(i + 1) =~= cs.take(i as int).push(cs[i as int]));
        }
        out.insert(p, x);
        assert(pair_views(out@) =~= before.insert(p as int, cs[i as int]));
        i = i + 1;
    }
    proof {
        assert(cs.take(cands@.len() as int) =~= cs);
        cs.lemma_sort_by_ensures(entry_order());
        lemma_sorted_unique(pair_views(out@), cs.sort_by(entry_order()), entry_order());
    }
    out
}

/// The (code, name) list of a language selection: the entries of
/// `languages` (only those of `codes` when it is given), sorted by code,
/// with the automatic-detection entry first when `include_auto` holds.
pub fn sorted_lang_items(languages: &LanguageMap, codes: Option<&[&str]>, include_auto: bool) -> (items: Vec<(String, String)>)
    ensures
        pair_views(items@) == (if include_auto {
            seq![auto_entry()]
        } else {
            Seq::<EntryView>::empty()
        }) + (match codes {
            Some(cs) => known_entries(languages@, str_views(cs@)),
            None => languages.entry_seq(),
        }).sort_by(entry_order()),
        codes is None ==> forall|i: int, j: int|
            auto_count(include_auto) <= i < j < items@.len() ==> text_less(
                #[trigger] pair_views(items@)[i].0,
                #[trigger] pair_views(items@)[j].0,
            ),
        codes is None ==> forall|e: EntryView|
            #![trigger pair_views(items@).skip(auto_count(include_auto)).contains(e)]
            pair_views(items@).skip(auto_count(include_auto)).contains(e) <==> (
            languages@.dom().contains(e.0) && languages@[e.0] == e.1),
        codes is None ==> items@.len() == auto_count(include_auto) + languages@.dom().len(),
{
    proof {
        use_type_invariant(languages);
    }
    let mut cands: Vec<(String, String)> = Vec::new();
    match codes {
        Some(cs) => {
            let ghost cv = str_views(cs@);
            let mut i: usize = 0;
            assert(cv.take(0) =~= Seq::<Seq<char>>::empty());
            while i < cs.len()
                invariant
                    cv == str_views(cs@),
                    i <= cs@.len(),
                    pair_views(cands@) == known_entries(languages@, cv.take(i as int)),
                decreases cs.len() - i,
            {
                assert(cv.take(i + 1).drop_last() =~= cv.take(i as int));
                assert(cv.take(i + 1).last() == cs@[i as int]@);
                match languages.get(cs[i]) {
                    Some(name) => {
                        let ghost old_c = pair_views(cands@);
                        cands.push((String::from_str(cs[i]), String::from_str(name)));
                        assert(pair_views(cands@) =~= old_c.push((cs@[i as int]@, name@)));
                    },
                    None => {},
                }
                i = i + 1;
            }
            assert(cv.take(cs@.len() as int) =~= cv);
        },
        None => {
            let ghost es = languages.entry_seq();
            let mut i: usize = 0;
            assert(pair_views(cands@) =~= es.take(0));
            while i < languages.entries.len()
                invariant
                    es == languages.entry_seq(),
                    i <= languages.entries@.len(),
                    pair_views(cands@) == es.take(i as int),
                decreases languages.entries.len() - i,
            {
                let e = languages.entries[i];
                let ghost old_c = pair_views(cands@);
                cands.push((String::from_str(e.0), String::from_str(e.1)));
                assert(pair_views(cands@) =~= old_c.push(es[i as int]));
                assert(es.take(i + 1) =~= es.take(i as int).push(es[i as int]));
                i = i + 1;
            }
            assert(es.take(languages.entries@.len() as int) =~= es);
        },
    }
    let mut items = sort_entries(&cands);
    let ghost sorted = pair_views(items@);
    if include_auto {
        items.insert(0, (String::from_str(AUTO), String::from_str("Detect automatically")));
        assert(pair_views(items@) =~= seq![auto_entry()] + sorted);
    } else {
        assert(pair_views(items@) =~= Seq::<EntryView>::empty() + sorted);
    }
    proof {
        if codes is None {
            let es = languages.entry_seq();
            let off = auto_count(include_auto);
            lemma_entry_order_total();
            es.lemma_sort_by_ensures(entry_order());
            lemma_sorted_codes_increase(es);
            lemma_pairs_to_map_len(es);
            vstd::seq_lib::to_multiset_len(es);
            vstd::seq_lib::to_multiset_len(sorted);
            assert(pair_views(items@).skip(off) =~= sorted);
            assert forall|i: int, j: int| off <= i < j < items@.len() implies text_less(
                #[trigger] pair_views(items@)[i].0,
                #[trigger] pair_views(items@)[j].0,
            ) by {
                assert(pair_views(items@)[i] == sorted[i - off]);
                assert(pair_views(items@)[j] == sorted[j - off]);
            }
            assert forall|e: EntryView| #[trigger] pair_views(items@).skip(off).contains(e) <==> (
            languages@.dom().contains(e.0) && languages@[e.0] == e.1) by {
                lemma_sorted_contains(es, e);
            }
        }
    }
    items
}

/// Sorted entries with distinct codes come in strictly increasing order of
/// code.
pub proof fn lemma_sorted_codes_increase(es: Seq<EntryView>)
    requires
        codes_unique(es),
    ensures
        forall|i: int, j: int|
            0 <= i < j < es.sort_by(entry_order()).len() ==> text_less(
                #[trigger] es.sort_by(entry_order())[i].0,
                #[trigger] es.sort_by(entry_order())[j].0,
            ),
{
    broadcast use vstd::seq_lib::group_to_multiset_ensures;

    lemma_entry_order_total();
    es.lemma_sort_by_ensures(entry_order());
    let t = es.sort_by(entry_order());
    assert(es.no_duplicates()) by {
        assert forall|a: int, b: int| 0 <= a < es.len() && 0 <= b < es.len() && a != b implies es[a]
            != es[b] by {
            if a < b {
                assert(es[a].0 != es[b].0);
            } else {
                assert(es[b].0 != es[a].0);
            }
        }
    }
    es.lemma_multiset_has_no_duplicates();
    t.lemma_multiset_has_no_duplicates_conv();
    assert forall|i: int, j: int| 0 <= i < j < t.len() implies text_less(#[trigger] t[i].0, #[trigger] t[j].0) by {
        assert(entry_order()(t[i], t[j]));
        if !text_less(t[i].0, t[j].0) {
            assert(t[i].0 == t[j].0);
            assert(t.to_multiset().contains(t[i]));
            assert(t.to_multiset().contains(t[j]));
            assert(es.contains(t[i]));
            assert(es.contains(t[j]));
            let a = choose|a: int| 0 <= a < es.len() && es[a] == t[i];
            let b = choose|b: int| 0 <= b < es.len() && es[b] == t[j];
            if a < b {
                assert(es[a].0 != es[b].0);
            } else if b < a {
                assert(es[b].0 != es[a].0);
            }
            assert(t[i] == t[j]);
        }
    }
}

/// An entry is among the sorted entries of a table exactly when the table
/// maps its code to its name.
pub proof fn lemma_sorted_contains(es: Seq<EntryView>, e: EntryView)
    requires
        codes_unique(es),
        total_ordering(entry_order()),
    ensures
        es.sort_by(entry_order()).contains(e) <==> (pairs_to_map(es).dom().contains(e.0)
            && pairs_to_map(es)[e.0] == e.1),
{
    broadcast use vstd::multiset::group_multiset_axioms;
    es.lemma_sort_by_ensures(entry_order());
    let t = es.sort_by(entry_order());
    to_multiset_contains(es, e);
    to_multiset_contains(t, e);
    if pairs_to_map(es).dom().contains(e.0) && pairs_to_map(es)[e.0] == e.1 {
        lemma_pairs_to_map_domain(es, e.0);
        let i = choose|i: int| 0 <= i < es.len() && #[trigger] es[i].0 == e.0;
        lemma_pairs_to_map_lookup(es, i);
        assert(es[i] == e);
    }
    if es.contains(e) {
        let i = choose|i: int| 0 <= i < es.len() && es[i] == e;
        lemma_pairs_to_map_lookup(es, i);
    }
}

} // verus!
