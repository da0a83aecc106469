//! The translation interface and the pacing policy for batch calls.
//!
//! A translator is implemented outside the library by adapters for remote
//! services, so nothing is promised about a single translation's outcome.
//! The default batch entry point is verified: it calls the single-text
//! operation sequentially in input order and fails fast on the first error,
//! discarding the partial results. Callers that need per-item isolation
//! loop over single translations instead (see the pipeline).

use vstd::prelude::*;

use crate::error::Result;

verus! {

/// Single and batch text translation for one language pair per call.
pub trait Translator {
    /// Translate one text. The outcome is the remote service's to decide;
    /// nothing is promised about it.
    fn translate(&self, text: &str, from: &str, to: &str) -> Result<String>;

    /// Translate a batch, strictly sequentially and in input order, failing
    /// fast on the first error. A successful batch answers every input, and
    /// an empty batch always succeeds: it makes no remote call at all.
    fn translate_batch(&self, texts: &[String], from: &str, to: &str) -> (r: Result<Vec<String>>)
        ensures
            r matches Ok(out) ==> out@.len() == texts@.len(),
            texts@.len() == 0 ==> r is Ok,
    {
        let mut results: Vec<String> = Vec::new();
        let mut i: usize = 0;
        while i < texts.len()
            invariant
                i <= texts@.len(),
                results@.len() == i,
            decreases texts@.len() - i,
        {
            let outcome = self.translate(&texts[i], from, to);
            match outcome {
                Ok(translation) => results.push(translation),
                Err(e) => {
                    return Err(e);
                },
            }
            i = i + 1;
        }
        Ok(results)
    }
}

/// Deliberate backpressure between remote calls: wait `delay_ms` before
/// every `every`-th request, to respect third-party rate limits.
#[derive(Debug, Clone, Copy)]
pub struct PacingPolicy {
    pub delay_ms: u64,
    pub every: u64,
}

impl PacingPolicy {
    pub fn new(delay_ms: u64, every: u64) -> (r: Self)
        ensures
            r.delay_ms == delay_ms,
            r.every == every,
    {
        PacingPolicy { delay_ms, every }
    }

    /// Whether to wait before the request at `index`. Never before the very
    /// first request, and never when the policy is disabled (`every == 0`).
    pub fn should_pause_before(&self, index: usize) -> (r: bool)
        ensures
            r == (index > 0 && self.every > 0 && (index as int) % (self.every as int) == 0),
            index == 0 ==> !r,
    {
        index > 0 && self.every > 0 && (index as u64) % self.every == 0
    }
}

} // verus!
