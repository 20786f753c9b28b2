//! Changes of a lock word, with evidence of each change made.

use vstd::prelude::*;
use std::sync::atomic::AtomicUsize;

verus! {

/// Evidence that an amount was subtracted from a word: which word, how
/// much, and what the word held before. Only this module makes one, right
/// after the subtraction, so a value of this type stands for a subtraction
/// that really happened.
pub struct Subtracted {
    word: Ghost<AtomicUsize>,
    amount: Ghost<usize>,
    previous: Ghost<usize>,
}

impl Subtracted {
    /// The word the amount was subtracted from.
    pub closed spec fn word(&self) -> AtomicUsize {
        self.word@
    }

    /// The amount subtracted.
    pub closed spec fn amount(&self) -> usize {
        self.amount@
    }

    /// What the word held before.
    pub closed spec fn previous(&self) -> usize {
        self.previous@
    }
}

/// Subtracts `amount` from `word`, with release ordering, and hands back
/// what the word held before and the evidence of the subtraction.
pub(crate) fn subtract_release(word: &AtomicUsize, amount: usize) -> (r: (usize, Subtracted))
    ensures
        r.1.word() == *word,
        r.1.amount() == amount,
        r.1.previous() == r.0,
{
    let previous = word.fetch_sub(amount, std::sync::atomic::Ordering::Release);
    (previous, Subtracted { word: Ghost(*word), amount: Ghost(amount), previous: Ghost(previous) })
}

} // verus!
