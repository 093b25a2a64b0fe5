//! Two-word names, such as `sassy-clocks`, drawn from lists of adjectives
//! and nouns.

use crate::models::opt_text;
use crate::namegen::texts;
use crate::text::{lemma_text_le_order, lt, text_lt};
use vstd::prelude::*;

verus! {

/// Whether every text of a list comes strictly before the next: the list
/// is sorted and holds nothing twice.
pub open spec fn increasing(list: Seq<Seq<char>>) -> bool {
    forall|i: int, j: int| 0 <= i < j < list.len() ==> text_lt(#[trigger] list[i], #[trigger] list[j])
}

/// A list with a text put in holds what it held before, and that text.
pub proof fn lemma_insert_contains(list: Seq<Seq<char>>, p: int, x: Seq<char>, t: Seq<char>)
    requires
        0 <= p <= list.len(),
    ensures
        list.insert(p, x).contains(t) <==> list.contains(t) || t == x,
{
    let next = list.insert(p, x);
    if next.contains(t) {
        let k = choose|k: int| 0 <= k < next.len() && next[k] == t;
        if k < p {
            assert(list[k] == t);
        } else if k > p {
            assert(list[k - 1] == t);
        }
    }
    if list.contains(t) {
        let k = choose|k: int| 0 <= k < list.len() && list[k] == t;
        if k < p {
            assert(next[k] == t);
        } else {
            assert(next[k + 1] == t);
        }
    }
    if t == x {
        assert(next[p] == t);
    }
}

/// The first `k + 1` texts of a list are the first `k` and the one after
/// them.
pub proof fn lemma_take_contains(list: Seq<Seq<char>>, k: int, t: Seq<char>)
    requires
        0 <= k < list.len(),
    ensures
        list.take(k + 1).contains(t) <==> list.take(k).contains(t) || t == list[k],
{
    let more = list.take(k + 1);
    let less = list.take(k);
    if more.contains(t) {
        let i = choose|i: int| 0 <= i < more.len() && more[i] == t;
        if i < k {
            assert(less[i] == t);
        }
    }
    if less.contains(t) {
        let i = choose|i: int| 0 <= i < less.len() && less[i] == t;
        assert(more[i] == t);
    }
    if t == list[k] {
        assert(more[k] == t);
    }
}

/// The words of a list, sorted, each of them once.
pub fn combined(words: &Vec<String>) -> (out: Vec<String>)
    ensures
        increasing(texts(out@)),
        forall|t: Seq<char>| texts(out@).contains(t) <==> texts(words@).contains(t),
{
    let ghost all = texts(words@);
    let mut out: Vec<String> = Vec::new();
    let mut k: usize = 0;
    assert(texts(out@) =~= Seq::empty());
    assert(all.take(0) =~= Seq::empty());
    while k < words.len()
        invariant
            k <= words.len(),
            all == texts(words@),
            increasing(texts(out@)),
            forall|t: Seq<char>| texts(out@).contains(t) <==> all.take(k as int).contains(t),
        decreases words.len() - k,
    {
        let ghost sorted = texts(out@);
        let word = &words[k];
        let ghost x = word@;
        assert(x == all[k as int]);
        let mut p: usize = 0;
        while p < out.len() && lt(&out[p], word)
            invariant
                p <= out.len(),
                sorted == texts(out@),
                x == word@,
                forall|j: int| 0 <= j < p ==> text_lt(#[trigger] sorted[j], x),
            decreases out.len() - p,
        {
            p += 1;
        }
        if p < out.len() && out[p] == *word {
            proof {
                assert(sorted[p as int] == x);
                assert forall|t: Seq<char>| sorted.contains(t) <==> all.take(
                    k as int + 1,
                ).contains(t) by {
                    lemma_take_contains(all, k as int, t);
                }
            }
        } else {
            proof {
                let next = sorted.insert(p as int, x);
                assert forall|i: int, j: int| 0 <= i < j < next.len() implies text_lt(
                    #[trigger] next[i],
                    #[trigger] next[j],
                ) by {
                    if j < p {
                        assert(text_lt(sorted[i], sorted[j]));
                    } else if j == p {
                        assert(text_lt(sorted[i], x));
                    } else if i == p {
                        let at = sorted[p as int];
                        lemma_text_le_order(at, x, sorted[j - 1]);
                        lemma_text_le_order(x, at, sorted[j - 1]);
                        lemma_text_le_order(x, sorted[j - 1], at);
                        if j - 1 > p {
                            assert(text_lt(at, sorted[j - 1]));
                        }
                    } else if i < p {
                        assert(text_lt(sorted[i], sorted[j - 1]));
                    } else {
                        assert(text_lt(sorted[i - 1], sorted[j - 1]));
                    }
                }
                assert forall|t: Seq<char>| next.contains(t) <==> all.take(
                    k as int + 1,
                ).contains(t) by {
                    lemma_take_contains(all, k as int, t);
                    lemma_insert_contains(sorted, p as int, x, t);
                }
            }
            out.insert(p, word.clone());
            assert(texts(out@) =~= sorted.insert(p as int, x));
        }
        k += 1;
    }
    assert(all.take(k as int) =~= all);
    out
}

/// What a draw from two lists of words can give: nothing where a list is
/// empty, else an adjective and a noun with a hyphen between them.
pub open spec fn may_name(
    adjectives: Seq<Seq<char>>,
    nouns: Seq<Seq<char>>,
    out: Option<Seq<char>>,
) -> bool {
    if adjectives.len() == 0 || nouns.len() == 0 {
        out is None
    } else {
        out is Some && exists|i: int, j: int|
            0 <= i < adjectives.len() && 0 <= j < nouns.len() && out->0 == #[trigger] adjectives[i]
                + "-"@ + #[trigger] nouns[j]
    }
}

/// Calls `Iterator::next` on a `names::Generator` made by
/// `Generator::new` with the naming `Name::Plain`. The generator picks one
/// adjective and one noun at random and joins them with a hyphen. It fails
/// on an empty list, which the precondition leaves out.
#[verifier::external_body]
fn generate(adjectives: &Vec<String>, nouns: &Vec<String>) -> (out: Option<String>)
    requires
        adjectives.len() > 0,
        nouns.len() > 0,
    ensures
        may_name(texts(adjectives@), texts(nouns@), opt_text(out)),
{
    let adjectives: Vec<&str> = adjectives.iter().map(|s| s.as_str()).collect();
    let nouns: Vec<&str> = nouns.iter().map(|s| s.as_str()).collect();
    names::Generator::new(&adjectives, &nouns, names::Name::Plain).next()
}

/// A random two-word name from the given adjectives and nouns.
pub fn unique_monster(adjectives: &Vec<String>, nouns: &Vec<String>) -> (out: Option<String>)
    ensures
        may_name(texts(adjectives@), texts(nouns@), opt_text(out)),
{
    if adjectives.len() == 0 || nouns.len() == 0 {
        None
    } else {
        generate(adjectives, nouns)
    }
}

} // verus!
