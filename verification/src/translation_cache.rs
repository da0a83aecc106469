//! The per-language-pair translation cache: an append-only mapping from
//! source text to translated text. Direction matters — the pair (hr, es)
//! and the pair (es, hr) are distinct stores kept in distinct files — and
//! an entry, once present, is never overwritten: a word's translation is
//! treated as a stable fact.

use vstd::prelude::*;
use vstd::string::StringExecFns;

use crate::strutil::str_eq;

verus! {

/// The character sequences behind a list of entries.
pub open spec fn entry_views(s: Seq<(String, String)>) -> Seq<(Seq<char>, Seq<char>)> {
    s.map_values(|e: (String, String)| (e.0@, e.1@))
}

/// The translation stored for a key: the first entry that carries it.
pub open spec fn spec_lookup(s: Seq<(Seq<char>, Seq<char>)>, key: Seq<char>) -> Option<Seq<char>>
    decreases s.len(),
{
    if s.len() == 0 {
        None
    } else if s[0].0 == key {
        Some(s[0].1)
    } else {
        spec_lookup(s.drop_first(), key)
    }
}

/// Appending a translation: a no-op when the key is already present.
pub open spec fn spec_insert(
    s: Seq<(Seq<char>, Seq<char>)>,
    key: Seq<char>,
    value: Seq<char>,
) -> Seq<(Seq<char>, Seq<char>)> {
    if spec_lookup(s, key) is Some {
        s
    } else {
        s.push((key, value))
    }
}

/// A hit at position `i`, behind misses only, is what lookup returns.
proof fn lemma_lookup_at(s: Seq<(Seq<char>, Seq<char>)>, key: Seq<char>, i: int)
    requires
        0 <= i < s.len(),
        s[i].0 == key,
        forall|j: int| 0 <= j < i ==> (#[trigger] s[j]).0 != key,
    ensures
        spec_lookup(s, key) == Some(s[i].1),
    decreases i,
{
    if i > 0 {
        assert(s.drop_first()[i - 1] == s[i]);
        assert forall|j: int| 0 <= j < i - 1 implies (#[trigger] s.drop_first()[j]).0 != key by {
            assert(s.drop_first()[j] == s[j + 1]);
        }
        lemma_lookup_at(s.drop_first(), key, i - 1);
    }
}

/// When no entry carries the key, lookup misses.
proof fn lemma_lookup_miss(s: Seq<(Seq<char>, Seq<char>)>, key: Seq<char>)
    requires
        forall|j: int| 0 <= j < s.len() ==> (#[trigger] s[j]).0 != key,
    ensures
        spec_lookup(s, key) is None,
    decreases s.len(),
{
    if s.len() > 0 {
        assert forall|j: int|
            0 <= j < s.drop_first().len() implies (#[trigger] s.drop_first()[j]).0 != key by {
            assert(s.drop_first()[j] == s[j + 1]);
        }
        lemma_lookup_miss(s.drop_first(), key);
    }
}

/// When lookup misses, no entry carries the key.
proof fn lemma_miss_means_absent(s: Seq<(Seq<char>, Seq<char>)>, key: Seq<char>)
    requires
        spec_lookup(s, key) is None,
    ensures
        forall|j: int| 0 <= j < s.len() ==> (#[trigger] s[j]).0 != key,
    decreases s.len(),
{
    if s.len() > 0 {
        lemma_miss_means_absent(s.drop_first(), key);
        assert forall|j: int| 0 <= j < s.len() implies (#[trigger] s[j]).0 != key by {
            if j > 0 {
                assert(s.drop_first()[j - 1] == s[j]);
            }
        }
    }
}

/// One translation store for one ordered language pair.
#[derive(Debug)]
pub struct TranslationCache {
    pub from: String,
    pub to: String,
    pub entries: Vec<(String, String)>,
}

impl TranslationCache {
    /// The stored entries, as character sequences.
    pub open spec fn view_entries(self) -> Seq<(Seq<char>, Seq<char>)> {
        entry_views(self.entries@)
    }

    /// Each source text is stored at most once.
    pub open spec fn wf(self) -> bool {
        forall|i: int, j: int|
            0 <= i < j < self.view_entries().len() ==> (#[trigger] self.view_entries()[i]).0 != (
            #[trigger] self.view_entries()[j]).0
    }

    /// An empty store for one ordered pair.
    pub fn new(from: &str, to: &str) -> (r: Self)
        ensures
            r.from@ == from@,
            r.to@ == to@,
            r.view_entries() == Seq::<(Seq<char>, Seq<char>)>::empty(),
            r.wf(),
    {
        let r = TranslationCache { from: from.to_owned(), to: to.to_owned(), entries: Vec::new() };
        proof {
            assert(r.view_entries() =~= Seq::<(Seq<char>, Seq<char>)>::empty());
        }
        r
    }

    /// The cached translation of a text, if there is one.
    pub fn lookup(&self, text: &str) -> (r: Option<String>)
        ensures
            (r is Some) == (spec_lookup(self.view_entries(), text@) is Some),
            r matches Some(t) ==> spec_lookup(self.view_entries(), text@) == Some(t@),
    {
        let ghost vs = self.view_entries();
        let mut i: usize = 0;
        while i < self.entries.len()
            invariant
                vs == self.view_entries(),
                i <= self.entries@.len(),
                forall|k: int| 0 <= k < i ==> (#[trigger] vs[k]).0 != text@,
            decreases self.entries@.len() - i,
        {
            if str_eq(self.entries[i].0.as_str(), text) {
                proof {
                    lemma_lookup_at(vs, text@, i as int);
                }
                return Some(self.entries[i].1.clone());
            }
            i = i + 1;
        }
        proof {
            lemma_lookup_miss(vs, text@);
        }
        None
    }

    /// Record a translation. Append-only memoization: when the text is
    /// already present the store is left exactly as it is.
    pub fn insert(&mut self, text: &str, translation: &str)
        requires
            old(self).wf(),
        ensures
            final(self).wf(),
            final(self).from == old(self).from,
            final(self).to == old(self).to,
            final(self).view_entries() == spec_insert(
                old(self).view_entries(),
                text@,
                translation@,
            ),
    {
        let hit = self.lookup(text);
        match hit {
            Some(_) => {},
            None => {
                let ghost vs0 = self.view_entries();
                self.entries.push((text.to_owned(), translation.to_owned()));
                proof {
                    assert(self.view_entries() =~= vs0.push((text@, translation@)));
                    lemma_miss_means_absent(vs0, text@);
                    let vs = self.view_entries();
                    assert forall|i: int, j: int|
                        0 <= i < j < vs.len() implies (#[trigger] vs[i]).0 != (
                    #[trigger] vs[j]).0 by {
                        if j < vs0.len() {
                            assert(vs[i] == vs0[i] && vs[j] == vs0[j]);
                        } else {
                            assert(vs[i] == vs0[i] && vs[j] == (text@, translation@));
                        }
                    }
                }
            },
        }
    }

    /// How many translations are stored.
    pub fn len(&self) -> (r: usize)
        ensures
            r == self.view_entries().len(),
    {
        self.entries.len()
    }
}

/// Law: the cache round-trips. Writing a translation and reading the same
/// text back yields exactly that translation when the text was absent, and
/// the translation already stored when it was present — a later write never
/// replaces an earlier one.
pub proof fn lemma_cache_round_trip(
    s: Seq<(Seq<char>, Seq<char>)>,
    key: Seq<char>,
    value: Seq<char>,
)
    ensures
        spec_lookup(spec_insert(s, key, value), key) == match spec_lookup(s, key) {
            Some(existing) => Some(existing),
            None => Some(value),
        },
{
    if spec_lookup(s, key) is None {
        lemma_miss_means_absent(s, key);
        let s2 = s.push((key, value));
        assert(s2[s.len() as int].0 == key);
        assert forall|j: int| 0 <= j < s.len() implies (#[trigger] s2[j]).0 != key by {
            assert(s2[j] == s[j]);
        }
        lemma_lookup_at(s2, key, s.len() as int);
    }
}

/// Law: recording a translation for a text that already has one changes
/// nothing — entries are never overwritten once present.
pub proof fn lemma_cache_insert_idempotent(
    s: Seq<(Seq<char>, Seq<char>)>,
    key: Seq<char>,
    value: Seq<char>,
    later: Seq<char>,
)
    ensures
        spec_insert(spec_insert(s, key, value), key, later) == spec_insert(s, key, value),
{
    lemma_cache_round_trip(s, key, value);
}

/// The name of the cache file of one ordered language pair.
pub open spec fn pair_file_name(from: Seq<char>, to: Seq<char>) -> Seq<char> {
    from + "_"@ + to + ".json"@
}

/// Where the cache of one ordered pair lives under the cache root.
pub fn translation_cache_file_path(cache_dir: &str, from: &str, to: &str) -> (r: String)
    ensures
        r@ == cache_dir@ + "/translations/"@ + pair_file_name(from@, to@),
{
    let mut p = cache_dir.to_owned();
    p.append("/translations/");
    p.append(from);
    p.append("_");
    p.append(to);
    p.append(".json");
    proof {
        assert(p@ =~= cache_dir@ + "/translations/"@ + pair_file_name(from@, to@));
    }
    p
}

/// Law: the two directions of a pair are distinct stores — for two
/// different underscore-free codes the two file names differ, so reading
/// the reverse pair never sees the forward pair's entries.
pub proof fn lemma_pair_files_distinct(from: Seq<char>, to: Seq<char>)
    requires
        from != to,
        !from.contains('_'),
        !to.contains('_'),
    ensures
        pair_file_name(from, to) != pair_file_name(to, from),
{
    reveal_strlit("_");
    reveal_strlit(".json");
    let a = pair_file_name(from, to);
    let b = pair_file_name(to, from);
    if a == b {
        assert(a.len() == from.len() + 1 + to.len() + 5);
        assert(b.len() == to.len() + 1 + from.len() + 5);
        if from.len() == to.len() {
            assert forall|i: int| 0 <= i < from.len() implies from[i] == #[trigger] to[i] by {
                assert(a[i] == from[i]);
                assert(b[i] == to[i]);
            }
            assert(from =~= to);
        } else if from.len() < to.len() {
            let k = from.len() as int;
            assert(a[k] == '_');
            assert(b[k] == to[k]);
            assert(to[k] == '_');
            assert(to.contains('_'));
        } else {
            let k = to.len() as int;
            assert(b[k] == '_');
            assert(a[k] == from[k]);
            assert(from[k] == '_');
            assert(from.contains('_'));
        }
    }
}

} // verus!
