//! The fixed word list and the random choice of one word from it.

use vstd::prelude::*;
use rand::Rng;
use crate::game::{lower, word_ok};

verus! {

/// Relies on rand::Rng::gen_range on rand::thread_rng: for a non-empty
/// range `0..n` it returns a value of the range (it panics only on an
/// empty range, which the precondition rules out).
#[verifier::external_body]
fn pick_index(n: usize) -> (r: usize)
    requires
        0 < n,
    ensures
        r < n,
{
    rand::thread_rng().gen_range(0..n)
}

/// A three-letter sequence of lowercase letters is a well-formed word.
proof fn lemma_word_ok3(s: Seq<u8>)
    requires
        s.len() == 3,
        lower(s[0]),
        lower(s[1]),
        lower(s[2]),
    ensures
        word_ok(s),
{
    assert forall|i: int| 0 <= i < s.len() implies lower(#[trigger] s[i]) by {
        if i == 0 {
        } else if i == 1 {
        } else {
            assert(i == 2);
        }
    }
}

/// The fixed candidate list, as a mathematical value.
pub open spec fn word_model() -> Seq<Seq<u8>> {
    seq![
        seq![99u8, 97u8, 116u8],
        seq![100u8, 111u8, 103u8],
        seq![98u8, 101u8, 101u8],
        seq![102u8, 111u8, 120u8],
        seq![111u8, 119u8, 108u8],
        seq![97u8, 110u8, 116u8],
    ]
}

/// The candidate words: exactly the fixed list, each entry non-empty and
/// lowercase.
pub fn word_list() -> (words: Vec<Vec<u8>>)
    ensures
        words@.len() == word_model().len(),
        forall|i: int| 0 <= i < words@.len() ==> #[trigger] words@[i]@ == word_model()[i],
        forall|i: int| 0 <= i < words@.len() ==> word_ok(#[trigger] words@[i]@),
{
    let mut words: Vec<Vec<u8>> = Vec::new();
    let cat: Vec<u8> = vec![99u8, 97u8, 116u8];
    proof {
        lemma_word_ok3(cat@);
    }
    words.push(cat);
    let dog: Vec<u8> = vec![100u8, 111u8, 103u8];
    proof {
        lemma_word_ok3(dog@);
    }
    words.push(dog);
    let bee: Vec<u8> = vec![98u8, 101u8, 101u8];
    proof {
        lemma_word_ok3(bee@);
    }
    words.push(bee);
    let fox: Vec<u8> = vec![102u8, 111u8, 120u8];
    proof {
        lemma_word_ok3(fox@);
    }
    words.push(fox);
    let owl: Vec<u8> = vec![111u8, 119u8, 108u8];
    proof {
        lemma_word_ok3(owl@);
    }
    words.push(owl);
    let ant: Vec<u8> = vec![97u8, 110u8, 116u8];
    proof {
        lemma_word_ok3(ant@);
    }
    words.push(ant);
    proof {
        assert(cat@ =~= word_model()[0]);
        assert(dog@ =~= word_model()[1]);
        assert(bee@ =~= word_model()[2]);
        assert(fox@ =~= word_model()[3]);
        assert(owl@ =~= word_model()[4]);
        assert(ant@ =~= word_model()[5]);
    }
    words
}

/// One word drawn at random: a member of the fixed list, so always well
/// formed. Which member comes back is up to the randomness source.
pub fn get_random_word() -> (w: Vec<u8>)
    ensures
        word_ok(w@),
        exists|i: int| 0 <= i < word_model().len() && w@ == word_model()[i],
{
    let mut words = word_list();
    let i = pick_index(words.len());
    words.swap_remove(i)
}

} // verus!
