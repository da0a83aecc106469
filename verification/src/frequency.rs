//! Ranked-word data model: parts of speech, words, and the per-language
//! frequency dataset. Within every category the words are kept sorted by
//! strictly increasing `rank` (1-based; a lower rank means a more frequent
//! word), and the top-word queries walk the eight categories in one fixed
//! order, which is also the deck priming order.

use vstd::prelude::*;

verus! {

/// The fixed, closed set of grammatical categories. Every word is classified
/// into exactly one of these; there is no "unknown" category.
#[derive(Debug, Clone, Copy, PartialEq, Eq, Hash, Structural)]
pub enum PartOfSpeech {
    Noun,
    Verb,
    Adjective,
    Adverb,
    Preposition,
    Pronoun,
    Conjunction,
    Interjection,
}

/// The fixed category order used by `PartOfSpeech::all` and by
/// `FrequencyData::get_all_top_words`.
pub open spec fn all_parts_of_speech() -> Seq<PartOfSpeech> {
    seq![
        PartOfSpeech::Noun,
        PartOfSpeech::Verb,
        PartOfSpeech::Adjective,
        PartOfSpeech::Adverb,
        PartOfSpeech::Preposition,
        PartOfSpeech::Pronoun,
        PartOfSpeech::Conjunction,
        PartOfSpeech::Interjection,
    ]
}

impl PartOfSpeech {
    /// All eight categories, in the fixed priming order.
    pub fn all() -> (r: Vec<PartOfSpeech>)
        ensures
            r@ == all_parts_of_speech(),
    {
        let r = vec![
            PartOfSpeech::Noun,
            PartOfSpeech::Verb,
            PartOfSpeech::Adjective,
            PartOfSpeech::Adverb,
            PartOfSpeech::Preposition,
            PartOfSpeech::Pronoun,
            PartOfSpeech::Conjunction,
            PartOfSpeech::Interjection,
        ];
        proof {
            assert(r@ =~= all_parts_of_speech());
        }
        r
    }
}

/// A single ranked word. Immutable once produced; `rank` is the sole
/// ordering key, `frequency` is an optional raw count (0 when unknown).
#[derive(Debug)]
pub struct Word {
    pub text: String,
    pub pos: PartOfSpeech,
    pub frequency: usize,
    pub rank: usize,
}

impl Clone for Word {
    fn clone(&self) -> (r: Self)
        ensures
            r == *self,
    {
        Word { text: self.text.clone(), pos: self.pos, frequency: self.frequency, rank: self.rank }
    }
}

impl Word {
    pub fn new(text: String, pos: PartOfSpeech, rank: usize) -> (r: Self)
        ensures
            r.text == text,
            r.pos == pos,
            r.frequency == 0,
            r.rank == rank,
    {
        Word { text, pos, frequency: 0, rank }
    }
}

/// Ranks are pairwise strictly increasing: no ties, no inversions.
pub open spec fn rank_sorted(s: Seq<Word>) -> bool {
    forall|i: int, j: int| 0 <= i < j < s.len() ==> #[trigger] s[i].rank < #[trigger] s[j].rank
}

/// All words of a category list carry that category, a positive rank, and
/// appear in strictly increasing rank order.
pub open spec fn category_list_wf(s: Seq<Word>, pos: PartOfSpeech) -> bool {
    &&& rank_sorted(s)
    &&& forall|i: int| 0 <= i < s.len() ==> #[trigger] s[i].pos == pos
    &&& forall|i: int| 0 <= i < s.len() ==> #[trigger] s[i].rank >= 1
}

/// A per-language frequency dataset: one ordered word list per category.
/// A word is appended to exactly one category during ingestion and the
/// lists are never reordered afterwards.
#[derive(Debug)]
pub struct FrequencyData {
    pub language: String,
    pub nouns: Vec<Word>,
    pub verbs: Vec<Word>,
    pub adjectives: Vec<Word>,
    pub adverbs: Vec<Word>,
    pub prepositions: Vec<Word>,
    pub pronouns: Vec<Word>,
    pub conjunctions: Vec<Word>,
    pub interjections: Vec<Word>,
}

impl FrequencyData {
    /// The ordered word list of one category.
    pub open spec fn words_of(self, pos: PartOfSpeech) -> Seq<Word> {
        match pos {
            PartOfSpeech::Noun => self.nouns@,
            PartOfSpeech::Verb => self.verbs@,
            PartOfSpeech::Adjective => self.adjectives@,
            PartOfSpeech::Adverb => self.adverbs@,
            PartOfSpeech::Preposition => self.prepositions@,
            PartOfSpeech::Pronoun => self.pronouns@,
            PartOfSpeech::Conjunction => self.conjunctions@,
            PartOfSpeech::Interjection => self.interjections@,
        }
    }

    /// Dataset invariant: every category list is well formed.
    pub open spec fn wf(self) -> bool {
        forall|p: PartOfSpeech| category_list_wf(#[trigger] self.words_of(p), p)
    }

    /// The first `min(count, category size)` words of a category.
    pub open spec fn top_spec(self, pos: PartOfSpeech, count: int) -> Seq<Word> {
        let s = self.words_of(pos);
        if count <= s.len() {
            s.take(count)
        } else {
            s
        }
    }

    /// The concatenation of `top_spec` over all eight categories, in the
    /// fixed category order.
    pub open spec fn all_top_spec(self, count: int) -> Seq<Word> {
        self.top_spec(PartOfSpeech::Noun, count) + self.top_spec(PartOfSpeech::Verb, count)
            + self.top_spec(PartOfSpeech::Adjective, count) + self.top_spec(
            PartOfSpeech::Adverb,
            count,
        ) + self.top_spec(PartOfSpeech::Preposition, count) + self.top_spec(
            PartOfSpeech::Pronoun,
            count,
        ) + self.top_spec(PartOfSpeech::Conjunction, count) + self.top_spec(
            PartOfSpeech::Interjection,
            count,
        )
    }

    pub fn new(language: String) -> (r: Self)
        ensures
            r.language == language,
            forall|p: PartOfSpeech| #[trigger] r.words_of(p) == Seq::<Word>::empty(),
            r.wf(),
    {
        let r = FrequencyData {
            language,
            nouns: Vec::new(),
            verbs: Vec::new(),
            adjectives: Vec::new(),
            adverbs: Vec::new(),
            prepositions: Vec::new(),
            pronouns: Vec::new(),
            conjunctions: Vec::new(),
            interjections: Vec::new(),
        };
        proof {
            assert(forall|p: PartOfSpeech| #[trigger] r.words_of(p) =~= Seq::<Word>::empty());
        }
        r
    }

    /// Controlled append during ingestion: the new word joins the list of
    /// its own category, behind every rank already present there.
    pub fn add_word(&mut self, word: Word)
        requires
            old(self).wf(),
            word.rank >= 1,
            forall|k: int|
                0 <= k < old(self).words_of(word.pos).len() ==> (#[trigger] old(self).words_of(
                    word.pos,
                )[k]).rank < word.rank,
        ensures
            final(self).wf(),
            final(self).language == old(self).language,
            final(self).words_of(word.pos) == old(self).words_of(word.pos).push(word),
            forall|p: PartOfSpeech|
                p != word.pos ==> #[trigger] final(self).words_of(p) == old(self).words_of(p),
    {
        match word.pos {
            PartOfSpeech::Noun => self.nouns.push(word),
            PartOfSpeech::Verb => self.verbs.push(word),
            PartOfSpeech::Adjective => self.adjectives.push(word),
            PartOfSpeech::Adverb => self.adverbs.push(word),
            PartOfSpeech::Preposition => self.prepositions.push(word),
            PartOfSpeech::Pronoun => self.pronouns.push(word),
            PartOfSpeech::Conjunction => self.conjunctions.push(word),
            PartOfSpeech::Interjection => self.interjections.push(word),
        }
        proof {
            assert forall|p: PartOfSpeech| category_list_wf(#[trigger] self.words_of(p), p) by {
                assert(category_list_wf(old(self).words_of(p), p));
                if p == word.pos {
                    let s0 = old(self).words_of(p);
                    let s = self.words_of(p);
                    assert(s == s0.push(word));
                    assert forall|i: int, j: int| 0 <= i < j < s.len() implies (
                    #[trigger] s[i]).rank < (#[trigger] s[j]).rank by {
                        if j < s0.len() {
                            assert(s[i] == s0[i] && s[j] == s0[j]);
                        } else {
                            assert(s[j] == word);
                            assert(s[i] == s0[i]);
                        }
                    }
                    assert forall|i: int| 0 <= i < s.len() implies (#[trigger] s[i]).pos == p && s[i].rank
                        >= 1 by {
                        if i < s0.len() {
                            assert(s[i] == s0[i]);
                        } else {
                            assert(s[i] == word);
                        }
                    }
                }
            }
        }
    }

    /// The first `count` words of one category (fewer if the category is
    /// smaller): exactly `min(count, category size)` entries.
    pub fn get_top_words(&self, pos: &PartOfSpeech, count: usize) -> (r: Vec<Word>)
        ensures
            r@ == self.top_spec(*pos, count as int),
            r@.len() == vstd::math::min(count as int, self.words_of(*pos).len() as int),
    {
        let list = self.list_for(pos);
        let n = if count <= list.len() {
            count
        } else {
            list.len()
        };
        let mut r: Vec<Word> = Vec::new();
        let mut i: usize = 0;
        while i < n
            invariant
                i <= n,
                n <= list@.len(),
                r@ == list@.take(i as int),
            decreases n - i,
        {
            r.push(list[i].clone());
            proof {
                assert(r@ =~= list@.take(i + 1 as int));
            }
            i = i + 1;
        }
        proof {
            if count as int > list@.len() {
                assert(list@.take(list@.len() as int) =~= list@);
            }
        }
        r
    }

    /// The top `count_per_pos` words of every category, concatenated in the
    /// fixed category order.
    pub fn get_all_top_words(&self, count_per_pos: usize) -> (r: Vec<Word>)
        ensures
            r@ == self.all_top_spec(count_per_pos as int),
    {
        let mut r = self.get_top_words(&PartOfSpeech::Noun, count_per_pos);
        let mut part = self.get_top_words(&PartOfSpeech::Verb, count_per_pos);
        r.append(&mut part);
        let mut part = self.get_top_words(&PartOfSpeech::Adjective, count_per_pos);
        r.append(&mut part);
        let mut part = self.get_top_words(&PartOfSpeech::Adverb, count_per_pos);
        r.append(&mut part);
        let mut part = self.get_top_words(&PartOfSpeech::Preposition, count_per_pos);
        r.append(&mut part);
        let mut part = self.get_top_words(&PartOfSpeech::Pronoun, count_per_pos);
        r.append(&mut part);
        let mut part = self.get_top_words(&PartOfSpeech::Conjunction, count_per_pos);
        r.append(&mut part);
        let mut part = self.get_top_words(&PartOfSpeech::Interjection, count_per_pos);
        r.append(&mut part);
        r
    }

    /// Borrow the list that backs one category.
    fn list_for(&self, pos: &PartOfSpeech) -> (r: &Vec<Word>)
        ensures
            r@ == self.words_of(*pos),
    {
        match pos {
            PartOfSpeech::Noun => &self.nouns,
            PartOfSpeech::Verb => &self.verbs,
            PartOfSpeech::Adjective => &self.adjectives,
            PartOfSpeech::Adverb => &self.adverbs,
            PartOfSpeech::Preposition => &self.prepositions,
            PartOfSpeech::Pronoun => &self.pronouns,
            PartOfSpeech::Conjunction => &self.conjunctions,
            PartOfSpeech::Interjection => &self.interjections,
        }
    }
}

/// Law: in a well-formed dataset the ranks within each category are strictly
/// increasing across successive entries — no ties, no inversions anywhere.
pub proof fn lemma_ranks_strictly_increasing(data: FrequencyData, pos: PartOfSpeech)
    requires
        data.wf(),
    ensures
        forall|i: int, j: int|
            0 <= i < j < data.words_of(pos).len() ==> (#[trigger] data.words_of(pos)[i]).rank < (
            #[trigger] data.words_of(pos)[j]).rank,
{
    assert(category_list_wf(data.words_of(pos), pos));
}

/// Law: `get_top_words` returns at most `count` entries, and exactly
/// `min(count, category size)` of them — the first ones of the category.
pub proof fn lemma_top_words_count(data: FrequencyData, pos: PartOfSpeech, count: int)
    requires
        count >= 0,
    ensures
        data.top_spec(pos, count).len() == vstd::math::min(count, data.words_of(pos).len() as int),
        data.top_spec(pos, count).len() <= count,
        forall|k: int|
            0 <= k < data.top_spec(pos, count).len() ==> #[trigger] data.top_spec(pos, count)[k]
                == data.words_of(pos)[k],
{
}

/// Law: the combined top-word list is the eight per-category segments laid
/// out in the fixed category order; its length is the sum of the eight
/// `top_spec` lengths, and each segment equals the category's own top list.
pub proof fn lemma_all_top_words_segments(data: FrequencyData, count: int)
    ensures
        data.all_top_spec(count).len() == data.top_spec(PartOfSpeech::Noun, count).len()
            + data.top_spec(PartOfSpeech::Verb, count).len() + data.top_spec(
            PartOfSpeech::Adjective,
            count,
        ).len() + data.top_spec(PartOfSpeech::Adverb, count).len() + data.top_spec(
            PartOfSpeech::Preposition,
            count,
        ).len() + data.top_spec(PartOfSpeech::Pronoun, count).len() + data.top_spec(
            PartOfSpeech::Conjunction,
            count,
        ).len() + data.top_spec(PartOfSpeech::Interjection, count).len(),
        forall|k: int|
            0 <= k < all_parts_of_speech().len() ==> data.all_top_spec(count).subrange(
                segment_start(data, count, k),
                segment_start(data, count, k + 1),
            ) =~= data.top_spec(all_parts_of_speech()[k], count),
{
    let all = data.all_top_spec(count);
    let aps = all_parts_of_speech();
    let l0 = data.top_spec(PartOfSpeech::Noun, count).len() as int;
    let l1 = data.top_spec(PartOfSpeech::Verb, count).len() as int;
    let l2 = data.top_spec(PartOfSpeech::Adjective, count).len() as int;
    let l3 = data.top_spec(PartOfSpeech::Adverb, count).len() as int;
    let l4 = data.top_spec(PartOfSpeech::Preposition, count).len() as int;
    let l5 = data.top_spec(PartOfSpeech::Pronoun, count).len() as int;
    let l6 = data.top_spec(PartOfSpeech::Conjunction, count).len() as int;
    let l7 = data.top_spec(PartOfSpeech::Interjection, count).len() as int;
    assert(segment_start(data, count, 0) == 0);
    assert(segment_start(data, count, 1) == l0);
    assert(segment_start(data, count, 2) == l0 + l1);
    assert(segment_start(data, count, 3) == l0 + l1 + l2);
    assert(segment_start(data, count, 4) == l0 + l1 + l2 + l3);
    assert(segment_start(data, count, 5) == l0 + l1 + l2 + l3 + l4);
    assert(segment_start(data, count, 6) == l0 + l1 + l2 + l3 + l4 + l5);
    assert(segment_start(data, count, 7) == l0 + l1 + l2 + l3 + l4 + l5 + l6);
    assert(segment_start(data, count, 8) == l0 + l1 + l2 + l3 + l4 + l5 + l6 + l7);
    assert forall|k: int| 0 <= k < all_parts_of_speech().len() implies all.subrange(
        segment_start(data, count, k),
        segment_start(data, count, k + 1),
    ) =~= data.top_spec(all_parts_of_speech()[k], count) by {
        if k == 0 {
            assert(all.subrange(0, l0) =~= data.top_spec(aps[0], count));
        } else if k == 1 {
            assert(all.subrange(l0, l0 + l1) =~= data.top_spec(aps[1], count));
        } else if k == 2 {
            assert(all.subrange(l0 + l1, l0 + l1 + l2) =~= data.top_spec(aps[2], count));
        } else if k == 3 {
            assert(all.subrange(l0 + l1 + l2, l0 + l1 + l2 + l3) =~= data.top_spec(aps[3], count));
        } else if k == 4 {
            assert(all.subrange(l0 + l1 + l2 + l3, l0 + l1 + l2 + l3 + l4) =~= data.top_spec(
                aps[4],
                count,
            ));
        } else if k == 5 {
            assert(all.subrange(l0 + l1 + l2 + l3 + l4, l0 + l1 + l2 + l3 + l4 + l5)
                =~= data.top_spec(aps[5], count));
        } else if k == 6 {
            assert(all.subrange(l0 + l1 + l2 + l3 + l4 + l5, l0 + l1 + l2 + l3 + l4 + l5 + l6)
                =~= data.top_spec(aps[6], count));
        } else {
            assert(all.subrange(
                l0 + l1 + l2 + l3 + l4 + l5 + l6,
                l0 + l1 + l2 + l3 + l4 + l5 + l6 + l7,
            ) =~= data.top_spec(aps[7], count));
        }
    }
}

/// Where the `k`-th category's segment begins inside `all_top_spec`.
pub open spec fn segment_start(data: FrequencyData, count: int, k: int) -> int
    decreases k,
{
    if k <= 0 {
        0
    } else {
        segment_start(data, count, k - 1) + data.top_spec(all_parts_of_speech()[k - 1], count).len()
    }
}

} // verus!
