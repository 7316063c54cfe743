//! The number by which the code of an AI is named.

use std::collections::hash_map::DefaultHasher;
use std::hash::{Hash, Hasher};
use vstd::prelude::*;
use vstd::std_specs::hash::DefaultHasherAdditionalSpecFns;

verus! {

/// What a hasher has been fed once a text was fed to it after all that it
/// had been fed before. Which writes a text makes is for the standard library
/// to say; that equal texts make equal writes is what `Hash` promises.
pub uninterp spec fn fed(state: Seq<Seq<u8>>, text: Seq<char>) -> Seq<Seq<u8>>;

/// The number that stands for a text: its hash under the default hasher of
/// the standard library, fed the text and nothing else. Equal texts have
/// equal numbers.
pub(crate) fn calculate_hash(text: &str) -> (hash: u64)
    ensures
        hash == text_hash(text@),
{
    let mut s = DefaultHasher::new();
    hash_text(text, &mut s);
    s.finish()
}

/// The hash of a text: what a default hasher gives that was fed the text and
/// nothing else.
pub open spec fn text_hash(text: Seq<char>) -> u64 {
    DefaultHasher::spec_finish(fed(Seq::empty(), text))
}

/// Feeds a text to a hasher, with `Hash::hash` of `str`. What the hasher has
/// been fed afterwards depends on what it had been fed before and on the text,
/// and on nothing else.
#[verifier::external_body]
fn hash_text(text: &str, state: &mut DefaultHasher)
    ensures
        final(state)@ == fed(old(state)@, text@),
{
    text.hash(state)
}

} // verus!
