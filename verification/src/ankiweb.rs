//! The card sink's data model and the interpretation of its answers.
//!
//! The sink is an external collaborator speaking a result-or-error wire
//! protocol; the HTTP plumbing lives outside the library and hands the two
//! decoded fields in as plain values. Interpreting them — and deciding
//! which failures are fatal for a run — is verified logic.

use vstd::prelude::*;

use crate::error::{AnkiDeckBuilderError, Result};

verus! {

/// A note to insert: one card's deck, model, two faces and tags.
#[derive(Debug)]
pub struct Note {
    pub deck_name: String,
    pub model_name: String,
    pub front: String,
    pub back: String,
    pub tags: Vec<String>,
}

/// The two faces of a card.
#[derive(Debug)]
pub struct NoteField {
    pub front: String,
    pub back: String,
}

impl Clone for Note {
    fn clone(&self) -> (r: Self)
        ensures
            r.deck_name == self.deck_name,
            r.model_name == self.model_name,
            r.front == self.front,
            r.back == self.back,
            r.tags@.len() == self.tags@.len(),
            forall|i: int| 0 <= i < self.tags@.len() ==> #[trigger] r.tags@[i] == self.tags@[i],
    {
        Note {
            deck_name: self.deck_name.clone(),
            model_name: self.model_name.clone(),
            front: self.front.clone(),
            back: self.back.clone(),
            tags: clone_strings(&self.tags),
        }
    }
}

/// Clone a list of strings, keeping every element's characters.
fn clone_strings(v: &Vec<String>) -> (r: Vec<String>)
    ensures
        r@.len() == v@.len(),
        forall|i: int| 0 <= i < v@.len() ==> #[trigger] r@[i] == v@[i],
{
    let mut r: Vec<String> = Vec::new();
    let mut i: usize = 0;
    while i < v.len()
        invariant
            i <= v@.len(),
            r@.len() == i,
            forall|k: int| 0 <= k < i ==> #[trigger] r@[k] == v@[k],
        decreases v@.len() - i,
    {
        r.push(v[i].clone());
        i = i + 1;
    }
    r
}

impl Note {
    /// A basic two-faced note with the default tags.
    pub fn new(deck_name: String, front: String, back: String) -> (r: Self)
        ensures
            r.deck_name == deck_name,
            r.model_name@ == "Basic"@,
            r.front == front,
            r.back == back,
            r.tags@.len() == 2,
            r.tags@[0]@ == "auto-generated"@,
            r.tags@[1]@ == "language-learning"@,
    {
        Note {
            deck_name,
            model_name: "Basic".to_owned(),
            front,
            back,
            tags: vec!["auto-generated".to_owned(), "language-learning".to_owned()],
        }
    }

    /// The same note with its tags replaced.
    pub fn with_tags(self, tags: Vec<String>) -> (r: Self)
        ensures
            r.deck_name == self.deck_name,
            r.model_name == self.model_name,
            r.front == self.front,
            r.back == self.back,
            r.tags == tags,
    {
        Note { tags, ..self }
    }
}

/// Interpret a sink answer that should carry an id: an error message wins,
/// a missing id is an error of its own, otherwise the id comes back.
pub fn interpret_sink_response(result: Option<i64>, error: Option<String>, missing: &str) -> (r:
    Result<i64>)
    ensures
        error matches Some(e) ==> r == Result::<i64>::Err(AnkiDeckBuilderError::AnkiConnectError(e)),
        error is None ==> (result matches Some(id) ==> r == Result::<i64>::Ok(id)),
        error is None && result is None ==> (r matches Err(AnkiDeckBuilderError::AnkiConnectError(m))
            && m@ == missing@),
{
    match error {
        Some(e) => Err(AnkiDeckBuilderError::AnkiConnectError(e)),
        None => match result {
            Some(id) => Ok(id),
            None => Err(AnkiDeckBuilderError::AnkiConnectError(missing.to_owned())),
        },
    }
}

/// Interpret the answer to the version probe: any error message means the
/// sink rejected us, anything else counts as connected.
pub fn interpret_version_response(error: Option<String>) -> (r: Result<()>)
    ensures
        error matches Some(e) ==> r == Result::<()>::Err(AnkiDeckBuilderError::AnkiConnectError(e)),
        error is None ==> r is Ok,
{
    match error {
        Some(e) => Err(AnkiDeckBuilderError::AnkiConnectError(e)),
        None => Ok(()),
    }
}

/// Interpret the answer to the deck-name listing.
pub fn interpret_decks_response(result: Option<Vec<String>>, error: Option<String>, missing: &str)
    -> (r: Result<Vec<String>>)
    ensures
        error matches Some(e) ==> r == Result::<Vec<String>>::Err(
            AnkiDeckBuilderError::AnkiConnectError(e),
        ),
        error is None ==> (result matches Some(decks) ==> r == Result::<Vec<String>>::Ok(decks)),
        error is None && result is None ==> (r matches Err(AnkiDeckBuilderError::AnkiConnectError(m))
            && m@ == missing@),
{
    match error {
        Some(e) => Err(AnkiDeckBuilderError::AnkiConnectError(e)),
        None => match result {
            Some(decks) => Ok(decks),
            None => Err(AnkiDeckBuilderError::AnkiConnectError(missing.to_owned())),
        },
    }
}

} // verus!
