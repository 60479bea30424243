//! Token counts of a session, added up with saturation.
use vstd::prelude::*;

verus! {

/// Tokens used so far: prompt, completion and cached prompt tokens.
#[derive(Debug, Clone, Copy, PartialEq, Eq, Structural)]
pub struct TokenCounts {
    pub input_tokens: u64,
    pub output_tokens: u64,
    pub cache_tokens: u64,
}

/// `a + b`, or the largest `u64` when the sum does not fit.
pub open spec fn sat_add(a: u64, b: u64) -> u64 {
    if a + b > u64::MAX {
        u64::MAX
    } else {
        (a + b) as u64
    }
}

impl Default for TokenCounts {
    fn default() -> (res: Self)
        ensures
            res == (TokenCounts { input_tokens: 0, output_tokens: 0, cache_tokens: 0 }),
    {
        TokenCounts { input_tokens: 0, output_tokens: 0, cache_tokens: 0 }
    }
}

impl TokenCounts {
    /// Adds the tokens of one answer, each count stopping at the largest `u64`.
    pub fn save_tokens(&mut self, input: u64, output: u64, cache: u64)
        ensures
            final(self).input_tokens == sat_add(old(self).input_tokens, input),
            final(self).output_tokens == sat_add(old(self).output_tokens, output),
            final(self).cache_tokens == sat_add(old(self).cache_tokens, cache),
    {
        self.input_tokens = self.input_tokens.saturating_add(input);
        self.output_tokens = self.output_tokens.saturating_add(output);
        self.cache_tokens = self.cache_tokens.saturating_add(cache);
    }
}

} // verus!

verus! {

/// The order in which answers are counted does not matter: two saves in either order
/// give the same counts.
pub proof fn lemma_saves_commute(t: TokenCounts, a: (u64, u64, u64), b: (u64, u64, u64))
    ensures
        sat_add(sat_add(t.input_tokens, a.0), b.0) == sat_add(sat_add(t.input_tokens, b.0), a.0),
        sat_add(sat_add(t.output_tokens, a.1), b.1) == sat_add(sat_add(t.output_tokens, b.1), a.1),
        sat_add(sat_add(t.cache_tokens, a.2), b.2) == sat_add(sat_add(t.cache_tokens, b.2), a.2),
{
}

/// Counts never go down.
pub proof fn lemma_saves_grow(x: u64, a: u64)
    ensures
        sat_add(x, a) >= x,
        sat_add(x, a) >= a,
{
}

} // verus!
