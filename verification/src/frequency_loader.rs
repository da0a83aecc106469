//! Cache-aside loading of per-language frequency datasets.
//!
//! The store works snapshot-first: a cached snapshot younger than the
//! freshness window is returned as it is, with no fetch; otherwise the
//! per-language fetch strategy runs and the caller is told to write a new
//! snapshot. Staleness is a hard cutoff: a stale snapshot is treated as
//! absent, never as a fallback. Reading and writing the snapshot files is
//! the caller's business; this module only decides and assembles.

use vstd::prelude::*;
use vstd::string::StringExecFns;

use crate::frequency::{FrequencyData, PartOfSpeech, Word};

verus! {

/// How long a frequency snapshot stays fresh: thirty days, in seconds.
pub const FRESHNESS_WINDOW_SECS: u64 = 30 * 24 * 60 * 60;

/// A snapshot is fresh up to and including the window edge; one second
/// past the edge it is stale and a refetch is due.
pub fn is_fresh(age_secs: u64) -> (r: bool)
    ensures
        r == (age_secs <= FRESHNESS_WINDOW_SECS),
{
    age_secs <= FRESHNESS_WINDOW_SECS
}

/// A deserialized snapshot together with its age, taken from the snapshot
/// file's modification time.
pub struct CacheSnapshot {
    pub data: FrequencyData,
    pub age_secs: u64,
}

/// A raw entry of a frequency source, before classification.
#[derive(Debug)]
pub struct FrequencyEntry {
    pub word: String,
    pub pos: String,
    pub rank: usize,
}

/// Where the snapshot of a language lives under the cache root.
pub fn get_cache_file_path(language_code: &str, cache_dir: &str) -> (r: String)
    ensures
        r@ == cache_dir@ + "/frequency/"@ + language_code@ + "_frequency.json"@,
{
    let mut p = cache_dir.to_owned();
    p.append("/frequency/");
    p.append(language_code);
    p.append("_frequency.json");
    proof {
        assert(p@ =~= cache_dir@ + "/frequency/"@ + language_code@ + "_frequency.json"@);
    }
    p
}

/// The registry of fetch strategies: every language code maps to one, and
/// codes without a source of their own get the explicit empty strategy,
/// which succeeds with zero words rather than failing.
pub enum FetchStrategy {
    CroatianEmbedded,
    SpanishEmbedded,
    EmptyDataset,
}

/// Which strategy serves a code.
pub open spec fn strategy_for_spec(code: Seq<char>) -> FetchStrategy {
    if code == "hr"@ {
        FetchStrategy::CroatianEmbedded
    } else if code == "es"@ {
        FetchStrategy::SpanishEmbedded
    } else {
        FetchStrategy::EmptyDataset
    }
}

/// Look a code up in the strategy registry.
pub fn strategy_for(language_code: &str) -> (r: FetchStrategy)
    ensures
        r == strategy_for_spec(language_code@),
{
    if crate::strutil::str_eq(language_code, "hr") {
        FetchStrategy::CroatianEmbedded
    } else if crate::strutil::str_eq(language_code, "es") {
        FetchStrategy::SpanishEmbedded
    } else {
        FetchStrategy::EmptyDataset
    }
}

/// The embedded Croatian sample: the most common nouns.
pub open spec fn croatian_noun_texts() -> Seq<Seq<char>> {
    seq![
        "dan"@,
        "vrijeme"@,
        "dio"@,
        "način"@,
        "godina"@,
        "život"@,
        "država"@,
        "ljudi"@,
        "svijet"@,
        "posao"@,
        "mjesto"@,
        "kuća"@,
        "grad"@,
        "stvar"@,
        "dijete"@,
        "čovjek"@,
        "ime"@,
        "ruka"@,
        "glava"@,
        "oko"@,
    ]
}

/// The embedded Croatian sample: the most common verbs.
pub open spec fn croatian_verb_texts() -> Seq<Seq<char>> {
    seq![
        "biti"@,
        "moći"@,
        "htjeti"@,
        "imati"@,
        "reći"@,
        "znati"@,
        "ići"@,
        "vidjeti"@,
        "dati"@,
        "doći"@,
        "uzeti"@,
        "raditi"@,
        "pričati"@,
        "misliti"@,
        "naći"@,
    ]
}

/// The embedded Croatian sample: the most common adjectives.
pub open spec fn croatian_adjective_texts() -> Seq<Seq<char>> {
    seq![
        "dobar"@,
        "veliki"@,
        "mali"@,
        "novi"@,
        "stari"@,
        "prvi"@,
        "drugi"@,
        "vlastiti"@,
        "pravi"@,
        "važan"@,
    ]
}

/// The embedded Spanish sample: the most common nouns.
pub open spec fn spanish_noun_texts() -> Seq<Seq<char>> {
    seq![
        "día"@,
        "tiempo"@,
        "año"@,
        "cosa"@,
        "hombre"@,
        "mundo"@,
        "vida"@,
        "mano"@,
        "parte"@,
        "niño"@,
    ]
}

/// One category holds exactly these texts, ranked 1 up in list order, with
/// an unknown raw count.
pub open spec fn category_filled(d: FrequencyData, pos: PartOfSpeech, texts: Seq<Seq<char>>) -> bool {
    &&& d.words_of(pos).len() == texts.len()
    &&& forall|i: int|
        0 <= i < texts.len() ==> {
            &&& (#[trigger] d.words_of(pos)[i]).text@ == texts[i]
            &&& d.words_of(pos)[i].rank == i + 1
            &&& d.words_of(pos)[i].frequency == 0
        }
}

/// The shape of the dataset each strategy produces.
pub open spec fn fetched_dataset_ok(code: Seq<char>, d: FrequencyData) -> bool {
    &&& d.wf()
    &&& d.language@ == code
    &&& if code == "hr"@ {
        &&& category_filled(d, PartOfSpeech::Noun, croatian_noun_texts())
        &&& category_filled(d, PartOfSpeech::Verb, croatian_verb_texts())
        &&& category_filled(d, PartOfSpeech::Adjective, croatian_adjective_texts())
        &&& forall|p: PartOfSpeech|
            p != PartOfSpeech::Noun && p != PartOfSpeech::Verb && p != PartOfSpeech::Adjective
                ==> (#[trigger] d.words_of(p)).len() == 0
    } else if code == "es"@ {
        &&& category_filled(d, PartOfSpeech::Noun, spanish_noun_texts())
        &&& forall|p: PartOfSpeech|
            p != PartOfSpeech::Noun ==> (#[trigger] d.words_of(p)).len() == 0
    } else {
        forall|p: PartOfSpeech| (#[trigger] d.words_of(p)).len() == 0
    }
}

/// Append one category's sample texts, ranked 1 up in list order.
fn add_category_words(data: &mut FrequencyData, texts: &Vec<&str>, pos: PartOfSpeech)
    requires
        old(data).wf(),
        old(data).words_of(pos).len() == 0,
    ensures
        final(data).wf(),
        final(data).language == old(data).language,
        category_filled(*final(data), pos, texts@.map_values(|t: &str| t@)),
        forall|p: PartOfSpeech|
            p != pos ==> #[trigger] final(data).words_of(p) == old(data).words_of(p),
{
    let ghost texts_view = texts@.map_values(|t: &str| t@);
    let mut i: usize = 0;
    while i < texts.len()
        invariant
            texts_view == texts@.map_values(|t: &str| t@),
            i <= texts@.len(),
            data.wf(),
            data.language == old(data).language,
            data.words_of(pos).len() == i,
            forall|k: int|
                0 <= k < i ==> {
                    &&& (#[trigger] data.words_of(pos)[k]).text@ == texts_view[k]
                    &&& data.words_of(pos)[k].rank == k + 1
                    &&& data.words_of(pos)[k].frequency == 0
                },
            forall|p: PartOfSpeech|
                p != pos ==> #[trigger] data.words_of(p) == old(data).words_of(p),
        decreases texts@.len() - i,
    {
        let word = Word::new(texts[i].to_owned(), pos, i + 1);
        data.add_word(word);
        i = i + 1;
    }
}

/// The Croatian fetch strategy: an embedded sample of the most common
/// nouns, verbs and adjectives.
pub fn load_croatian_data() -> (r: FrequencyData)
    ensures
        fetched_dataset_ok("hr"@, r),
{
    let mut data = FrequencyData::new("hr".to_owned());
    let nouns = vec![
        "dan",
        "vrijeme",
        "dio",
        "način",
        "godina",
        "život",
        "država",
        "ljudi",
        "svijet",
        "posao",
        "mjesto",
        "kuća",
        "grad",
        "stvar",
        "dijete",
        "čovjek",
        "ime",
        "ruka",
        "glava",
        "oko",
    ];
    add_category_words(&mut data, &nouns, PartOfSpeech::Noun);
    let verbs = vec![
        "biti",
        "moći",
        "htjeti",
        "imati",
        "reći",
        "znati",
        "ići",
        "vidjeti",
        "dati",
        "doći",
        "uzeti",
        "raditi",
        "pričati",
        "misliti",
        "naći",
    ];
    add_category_words(&mut data, &verbs, PartOfSpeech::Verb);
    let adjectives = vec![
        "dobar",
        "veliki",
        "mali",
        "novi",
        "stari",
        "prvi",
        "drugi",
        "vlastiti",
        "pravi",
        "važan",
    ];
    add_category_words(&mut data, &adjectives, PartOfSpeech::Adjective);
    proof {
        assert(nouns@.map_values(|t: &str| t@) =~= croatian_noun_texts());
        assert(verbs@.map_values(|t: &str| t@) =~= croatian_verb_texts());
        assert(adjectives@.map_values(|t: &str| t@) =~= croatian_adjective_texts());
    }
    data
}

/// The Spanish fetch strategy: an embedded sample of the most common nouns.
pub fn load_spanish_data() -> (r: FrequencyData)
    ensures
        fetched_dataset_ok("es"@, r),
{
    let mut data = FrequencyData::new("es".to_owned());
    let nouns = vec![
        "día", "tiempo", "año", "cosa", "hombre", "mundo", "vida", "mano", "parte", "niño",
    ];
    add_category_words(&mut data, &nouns, PartOfSpeech::Noun);
    proof {
        reveal_strlit("hr");
        reveal_strlit("es");
        assert(nouns@.map_values(|t: &str| t@) =~= spanish_noun_texts());
        assert("es"@[0] != "hr"@[0]);
        assert("es"@ != "hr"@);
    }
    data
}

/// The explicit default strategy: an empty dataset for a code without a
/// source of its own — graceful degradation, not an error.
pub fn load_sample_data(language_code: &str) -> (r: FrequencyData)
    ensures
        r.wf(),
        r.language@ == language_code@,
        forall|p: PartOfSpeech| (#[trigger] r.words_of(p)).len() == 0,
{
    FrequencyData::new(language_code.to_owned())
}

/// Run the fetch strategy registered for a code. Every strategy succeeds:
/// codes without a specific source yield the empty dataset.
pub fn fetch_frequency_data(language_code: &str) -> (r: FrequencyData)
    ensures
        fetched_dataset_ok(language_code@, r),
{
    let strategy = strategy_for(language_code);
    match strategy {
        FetchStrategy::CroatianEmbedded => load_croatian_data(),
        FetchStrategy::SpanishEmbedded => load_spanish_data(),
        FetchStrategy::EmptyDataset => load_sample_data(language_code),
    }
}

/// Cache-aside load. A snapshot within the freshness window is returned
/// exactly as it came, with no fetch — loading twice in quick succession
/// therefore fetches once and yields the same dataset both times. Without
/// a fresh snapshot the fetch strategy runs, and the second component asks
/// the caller to write a new snapshot. A stale snapshot is never used.
pub fn load_frequency_data(language_code: &str, cached: Option<CacheSnapshot>) -> (r: (
    FrequencyData,
    bool,
))
    ensures
        (cached matches Some(s) && s.age_secs <= FRESHNESS_WINDOW_SECS) ==> {
            &&& r.1 == false
            &&& cached matches Some(s2) && r.0 == s2.data
        },
        (match cached {
            Some(s) => s.age_secs > FRESHNESS_WINDOW_SECS,
            None => true,
        }) ==> {
            &&& r.1 == true
            &&& fetched_dataset_ok(language_code@, r.0)
        },
{
    match cached {
        Some(snapshot) => {
            if is_fresh(snapshot.age_secs) {
                (snapshot.data, false)
            } else {
                (fetch_frequency_data(language_code), true)
            }
        },
        None => (fetch_frequency_data(language_code), true),
    }
}

} // verus!
