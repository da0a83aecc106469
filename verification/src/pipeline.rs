//! The pipeline's decision core: per-word translation accounting with
//! failure isolation, ordered bidirectional card construction, and the
//! attempted/succeeded/failed counters. The remote calls themselves happen
//! outside the library; every outcome is handed in as a plain value and
//! every decision taken on it is verified.
//!
//! Ordering guarantee: cards follow the word selection order (category
//! order, then rank order), with the forward card of a pair always before
//! its reverse card, so runs are reproducible and diffable.

use vstd::prelude::*;
use vstd::string::StringExecFns;

use crate::ankiweb::Note;
use crate::error::{AnkiDeckBuilderError, Result};
use crate::frequency::Word;
use crate::strutil::str_eq;

verus! {

/// The outcome of one pipeline run: the words chosen, the translations
/// that succeeded (in selection order), and the card counters. Zero
/// successes is a valid, fully reported outcome.
#[derive(Debug)]
pub struct PipelineResult {
    pub selected_words: Vec<Word>,
    pub translations: Vec<(Word, String)>,
    pub cards_attempted: usize,
    pub cards_succeeded: usize,
    pub cards_failed: usize,
}

impl PipelineResult {
    /// Every attempt is accounted exactly once.
    pub open spec fn counters_consistent(self) -> bool {
        self.cards_attempted == self.cards_succeeded + self.cards_failed
    }

    /// A fresh accounting for one selection of words.
    pub fn new(selected_words: Vec<Word>) -> (r: Self)
        ensures
            r.selected_words == selected_words,
            r.translations@ == Seq::<(Word, String)>::empty(),
            r.cards_attempted == 0,
            r.cards_succeeded == 0,
            r.cards_failed == 0,
            r.counters_consistent(),
    {
        PipelineResult {
            selected_words,
            translations: Vec::new(),
            cards_attempted: 0,
            cards_succeeded: 0,
            cards_failed: 0,
        }
    }

    /// Record one word's translation outcome. A translated word joins the
    /// ordered translation list; a failed word costs its prospective cards
    /// (counted attempted and failed at once) and the run continues — a
    /// single untranslatable word never aborts the run.
    pub fn record_translation(&mut self, word: Word, outcome: Option<String>, cards_per_word: usize)
        requires
            old(self).counters_consistent(),
            old(self).cards_attempted + cards_per_word <= usize::MAX,
        ensures
            final(self).counters_consistent(),
            final(self).selected_words == old(self).selected_words,
            outcome matches Some(t) ==> {
                &&& final(self).translations@ == old(self).translations@.push((word, t))
                &&& final(self).cards_attempted == old(self).cards_attempted
                &&& final(self).cards_succeeded == old(self).cards_succeeded
                &&& final(self).cards_failed == old(self).cards_failed
            },
            outcome is None ==> {
                &&& final(self).translations == old(self).translations
                &&& final(self).cards_attempted == old(self).cards_attempted + cards_per_word
                &&& final(self).cards_succeeded == old(self).cards_succeeded
                &&& final(self).cards_failed == old(self).cards_failed + cards_per_word
            },
    {
        match outcome {
            Some(translation) => {
                self.translations.push((word, translation));
            },
            None => {
                self.cards_attempted = self.cards_attempted + cards_per_word;
                self.cards_failed = self.cards_failed + cards_per_word;
            },
        }
    }

    /// Record one card insertion attempt. A rejected card is counted, not
    /// escalated.
    pub fn record_card_result(&mut self, succeeded: bool)
        requires
            old(self).counters_consistent(),
            old(self).cards_attempted < usize::MAX,
        ensures
            final(self).counters_consistent(),
            final(self).selected_words == old(self).selected_words,
            final(self).translations == old(self).translations,
            final(self).cards_attempted == old(self).cards_attempted + 1,
            succeeded ==> final(self).cards_succeeded == old(self).cards_succeeded + 1
                && final(self).cards_failed == old(self).cards_failed,
            !succeeded ==> final(self).cards_failed == old(self).cards_failed + 1
                && final(self).cards_succeeded == old(self).cards_succeeded,
    {
        self.cards_attempted = self.cards_attempted + 1;
        if succeeded {
            self.cards_succeeded = self.cards_succeeded + 1;
        } else {
            self.cards_failed = self.cards_failed + 1;
        }
    }
}

/// Law: a consistent accounting never reports more failures, or more
/// successes, than attempts; a completed run is always reportable.
pub proof fn lemma_counters_bounded(r: PipelineResult)
    requires
        r.counters_consistent(),
    ensures
        r.cards_failed <= r.cards_attempted,
        r.cards_succeeded <= r.cards_attempted,
{
}

/// Target and base language must differ; a pair with equal codes is
/// rejected before any remote work starts.
pub fn validate_language_pair(target_code: &str, base_code: &str) -> (r: Result<()>)
    ensures
        (r is Ok) == (target_code@ != base_code@),
        r matches Err(e) ==> e is ConfigurationError,
{
    if str_eq(target_code, base_code) {
        Err(
            AnkiDeckBuilderError::ConfigurationError(
                "target and base languages are the same".to_owned(),
            ),
        )
    } else {
        Ok(())
    }
}

/// The tag marking a card's generation direction.
pub open spec fn direction_tag(from: Seq<char>, to: Seq<char>) -> Seq<char> {
    from + "-to-"@ + to
}

/// Build the direction tag for one ordered pair of codes.
pub fn make_direction_tag(from: &str, to: &str) -> (r: String)
    ensures
        r@ == direction_tag(from@, to@),
{
    let mut tag = from.to_owned();
    tag.append("-to-");
    tag.append(to);
    proof {
        assert(tag@ =~= direction_tag(from@, to@));
    }
    tag
}

/// A forward card: front is the source word, back its translation, tagged
/// with the forward direction.
pub open spec fn is_forward_card(
    card: Note,
    deck_name: Seq<char>,
    entry: (Word, String),
    target_code: Seq<char>,
    base_code: Seq<char>,
) -> bool {
    &&& card.deck_name@ == deck_name
    &&& card.model_name@ == "Basic"@
    &&& card.front@ == entry.0.text@
    &&& card.back@ == entry.1@
    &&& card.tags@.len() == 2
    &&& card.tags@[0]@ == "auto-generated"@
    &&& card.tags@[1]@ == direction_tag(target_code, base_code)
}

/// A reverse card: front is the translation, back the source word, tagged
/// with the reverse direction.
pub open spec fn is_reverse_card(
    card: Note,
    deck_name: Seq<char>,
    entry: (Word, String),
    target_code: Seq<char>,
    base_code: Seq<char>,
) -> bool {
    &&& card.deck_name@ == deck_name
    &&& card.model_name@ == "Basic"@
    &&& card.front@ == entry.1@
    &&& card.back@ == entry.0.text@
    &&& card.tags@.len() == 2
    &&& card.tags@[0]@ == "auto-generated"@
    &&& card.tags@[1]@ == direction_tag(base_code, target_code)
}

/// Turn the ordered translations into the ordered card list: one forward
/// card per pair in translation order and, when bidirectional generation
/// is on, its reverse card immediately after it.
pub fn build_cards(
    deck_name: &str,
    translations: &Vec<(Word, String)>,
    target_code: &str,
    base_code: &str,
    bidirectional: bool,
) -> (r: Vec<Note>)
    ensures
        bidirectional ==> r@.len() == 2 * translations@.len(),
        !bidirectional ==> r@.len() == translations@.len(),
        bidirectional ==> forall|i: int|
            0 <= i < translations@.len() ==> is_forward_card(
                r@[2 * i],
                deck_name@,
                #[trigger] translations@[i],
                target_code@,
                base_code@,
            ) && is_reverse_card(
                r@[2 * i + 1],
                deck_name@,
                translations@[i],
                target_code@,
                base_code@,
            ),
        !bidirectional ==> forall|i: int|
            0 <= i < translations@.len() ==> is_forward_card(
                r@[i],
                deck_name@,
                #[trigger] translations@[i],
                target_code@,
                base_code@,
            ),
{
    let forward_tag = make_direction_tag(target_code, base_code);
    let reverse_tag = make_direction_tag(base_code, target_code);
    let mut r: Vec<Note> = Vec::new();
    let mut i: usize = 0;
    while i < translations.len()
        invariant
            i <= translations@.len(),
            forward_tag@ == direction_tag(target_code@, base_code@),
            reverse_tag@ == direction_tag(base_code@, target_code@),
            bidirectional ==> r@.len() == 2 * i,
            !bidirectional ==> r@.len() == i,
            bidirectional ==> forall|k: int|
                0 <= k < i ==> is_forward_card(
                    r@[2 * k],
                    deck_name@,
                    #[trigger] translations@[k],
                    target_code@,
                    base_code@,
                ) && is_reverse_card(
                    r@[2 * k + 1],
                    deck_name@,
                    translations@[k],
                    target_code@,
                    base_code@,
                ),
            !bidirectional ==> forall|k: int|
                0 <= k < i ==> is_forward_card(
                    r@[k],
                    deck_name@,
                    #[trigger] translations@[k],
                    target_code@,
                    base_code@,
                ),
        decreases translations@.len() - i,
    {
        let source_text = translations[i].0.text.clone();
        let translated_text = translations[i].1.clone();
        let forward = Note::new(
            deck_name.to_owned(),
            source_text,
            translated_text,
        ).with_tags(vec!["auto-generated".to_owned(), forward_tag.clone()]);
        r.push(forward);
        if bidirectional {
            let reverse = Note::new(
                deck_name.to_owned(),
                translations[i].1.clone(),
                translations[i].0.text.clone(),
            ).with_tags(vec!["auto-generated".to_owned(), reverse_tag.clone()]);
            r.push(reverse);
        }
        i = i + 1;
    }
    r
}

} // verus!
