//! Names for instances whose request gives none, drawn from a list of
//! candidates that is kept as a JSON array of strings.

use rand::Rng;
use vstd::prelude::*;

verus! {

/// The views of a list of texts.
pub open spec fn texts(list: Seq<String>) -> Seq<Seq<char>> {
    list.map_values(|s: String| s@)
}

/// The views of a list of texts that may be missing.
pub open spec fn opt_texts(list: Option<Vec<String>>) -> Option<Seq<Seq<char>>> {
    match list {
        Some(l) => Some(texts(l@)),
        None => None,
    }
}

/// What `serde_json::from_slice::<Vec<String>>` makes of a document: the
/// strings of the array, or nothing where the document is not a JSON array
/// of strings.
pub uninterp spec fn parsed_names(data: Seq<u8>) -> Option<Seq<Seq<char>>>;

/// Calls `serde_json::from_slice::<Vec<String>>`. The result depends on
/// the bytes alone; an error becomes `None`.
#[verifier::external_body]
fn parse_names(data: &Vec<u8>) -> (out: Option<Vec<String>>)
    ensures
        opt_texts(out) == parsed_names(data@),
{
    serde_json::from_slice::<Vec<String>>(data.as_slice()).ok()
}

/// Calls `Rng::gen::<usize>` on `rand::thread_rng()`: a random number, of
/// which nothing is claimed.
#[verifier::external_body]
fn random_index() -> (out: usize) {
    rand::thread_rng().gen::<usize>()
}

/// The candidate that a draw selects: the one at the draw's remainder by
/// the length of the list. An empty list yields nothing.
pub open spec fn chosen(names: Seq<Seq<char>>, draw: int) -> Option<Seq<char>> {
    if names.len() == 0 {
        None
    } else {
        Some(names[draw % names.len() as int])
    }
}

/// Picks the candidate that a draw selects.
pub fn pick(names: &Vec<String>, draw: usize) -> (out: Option<String>)
    ensures
        crate::models::opt_text(out) == chosen(texts(names@), draw as int),
{
    if names.len() == 0 {
        None
    } else {
        let k = draw % names.len();
        Some(names[k].clone())
    }
}

/// What a draw from a document of candidates can give: nothing where the
/// document does not parse or holds no name, one of its names otherwise.
pub open spec fn may_draw(data: Seq<u8>, out: Option<Seq<char>>) -> bool {
    match parsed_names(data) {
        None => out is None,
        Some(names) => if names.len() == 0 {
            out is None
        } else {
            out is Some && names.contains(out->0)
        },
    }
}

/// A random name from a document of candidates.
pub fn next(data: &Vec<u8>) -> (out: Option<String>)
    ensures
        may_draw(data@, crate::models::opt_text(out)),
{
    match parse_names(data) {
        None => None,
        Some(names) => {
            let draw = random_index();
            let out = pick(&names, draw);
            proof {
                let list = texts(names@);
                if list.len() > 0 {
                    assert(list.contains(list[draw as int % list.len() as int]));
                }
            }
            out
        },
    }
}

} // verus!
