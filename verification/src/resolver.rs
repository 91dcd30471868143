use crate::page::{text_result, LookupError};
use crate::text::{replace_all, replace_text};
use vstd::prelude::*;

verus! {

/// One suggested word: its identifier, if it has one, and how many
/// translations it lists, if it lists them at all.
#[derive(Debug, Clone)]
pub struct Candidate {
    pub ru: Option<String>,
    pub translations: Option<usize>,
}

/// What the `serde_json` crate reads from a JSON text as a table: for each
/// element of the array under the keys `outer` and `list`, the string under
/// the keys `item` and `name`, if there is one, and the length of the array
/// under the keys `item` and `items`, if there is one; `None` where the text
/// is not JSON or holds no such array.
pub uninterp spec fn json_table(
    text: Seq<char>,
    outer: Seq<char>,
    list: Seq<char>,
    item: Seq<char>,
    name: Seq<char>,
    items: Seq<char>,
) -> Option<Seq<(Option<Seq<char>>, Option<nat>)>>;

/// The suggested words of an answer to the suggestion request, each as its
/// identifier and its number of translations: the words are listed under
/// `result.words`, and each holds its identifier under `word.ru` and its
/// translations under `word.tls`.
pub open spec fn suggested(text: Seq<char>) -> Option<Seq<(Option<Seq<char>>, Option<nat>)>> {
    json_table(text, "result"@, "words"@, "word"@, "ru"@, "tls"@)
}

/// The view of one suggested word.
pub open spec fn candidate_view(c: Candidate) -> (Option<Seq<char>>, Option<nat>) {
    (
        match c.ru {
            Some(s) => Some(s@),
            None => None,
        },
        match c.translations {
            Some(n) => Some(n as nat),
            None => None,
        },
    )
}

/// The views of suggested words.
pub open spec fn candidate_views(v: Seq<Candidate>) -> Seq<(Option<Seq<char>>, Option<nat>)> {
    Seq::new(v.len(), |i: int| candidate_view(v[i]))
}

/// The view of an optional list of suggested words.
pub open spec fn suggestion_views(o: Option<Vec<Candidate>>) -> Option<
    Seq<(Option<Seq<char>>, Option<nat>)>,
> {
    match o {
        Some(v) => Some(candidate_views(v@)),
        None => None,
    }
}

/// Reads a table out of a JSON text.
///
/// Trusted: parses the text with `serde_json::from_str` into a
/// `serde_json::Value`, takes the array under `outer` and `list` and, of
/// each element, the string under `item` and `name` and the length of the
/// array under `item` and `items`, with `Value`'s index operator, `as_array`
/// and `as_str`. The index operator gives null for a key that is not there,
/// and `as_array` and `as_str` give `None` for a value of another kind. The
/// contract only names the result.
#[verifier::external_body]
fn read_table(text: &str, outer: &str, list: &str, item: &str, name: &str, items: &str) -> (r:
    Option<Vec<Candidate>>)
    ensures
        suggestion_views(r) == json_table(text@, outer@, list@, item@, name@, items@),
{
    let value: serde_json::Value = serde_json::from_str(text).ok()?;
    let rows = value[outer][list].as_array()?;
    Some(rows.iter().map(|w| Candidate {
        ru: w[item][name].as_str().map(String::from),
        translations: w[item][items].as_array().map(|a| a.len()),
    }).collect())
}

/// The identifier of the first suggested word that has a translation and an
/// identifier. A word that does not list its translations at all, met before
/// such a word, makes the answer a bad one.
pub open spec fn picked(cands: Seq<(Option<Seq<char>>, Option<nat>)>) -> Result<
    Option<Seq<char>>,
    LookupError,
>
    decreases cands.len(),
{
    if cands.len() == 0 {
        Ok(None)
    } else {
        match cands[0].1 {
            None => Err(LookupError::BadResponse),
            Some(n) => if n > 0 && cands[0].0 is Some {
                Ok(cands[0].0)
            } else {
                picked(cands.skip(1))
            },
        }
    }
}

/// An identifier as the site's addresses take it: without apostrophes.
pub open spec fn without_apostrophes(id: Seq<char>) -> Seq<char> {
    replace_all(id, seq!['\''], Seq::empty())
}

/// The entry that the suggested words resolve to: the picked identifier
/// without apostrophes. There is no result where no word qualifies or
/// nothing is left of the identifier.
pub open spec fn entry_of(cands: Seq<(Option<Seq<char>>, Option<nat>)>) -> Result<
    Seq<char>,
    LookupError,
> {
    match picked(cands) {
        Err(e) => Err(e),
        Ok(None) => Err(LookupError::NoResult),
        Ok(Some(id)) => if without_apostrophes(id).len() == 0 {
            Err(LookupError::NoResult)
        } else {
            Ok(without_apostrophes(id))
        },
    }
}

/// The entry that an answer to the suggestion request resolves to.
pub open spec fn resolved(text: Seq<char>) -> Result<Seq<char>, LookupError> {
    match suggested(text) {
        None => Err(LookupError::BadResponse),
        Some(cands) => entry_of(cands),
    }
}

/// The view of an optional text or an error.
pub open spec fn pick_result(r: Result<Option<String>, LookupError>) -> Result<
    Option<Seq<char>>,
    LookupError,
> {
    match r {
        Ok(Some(s)) => Ok(Some(s@)),
        Ok(None) => Ok(None),
        Err(e) => Err(e),
    }
}

/// Picks the identifier of the first suggested word that has at least one
/// translation.
pub fn get_response_json_first_term(candidates: &Vec<Candidate>) -> (r: Result<
    Option<String>,
    LookupError,
>)
    ensures
        pick_result(r) == picked(candidate_views(candidates@)),
{
    let ghost all = candidate_views(candidates@);
    let mut i: usize = 0;
    assert(all.skip(0) =~= all);
    while i < candidates.len()
        invariant
            i <= candidates.len(),
            all == candidate_views(candidates@),
            picked(all.skip(i as int)) == picked(all),
        decreases candidates.len() - i,
    {
        let ghost rest = all.skip(i as int);
        assert(rest[0] == candidate_view(candidates@[i as int]));
        assert(rest.skip(1) =~= all.skip(i + 1));
        match candidates[i].translations {
            None => {
                return Err(LookupError::BadResponse);
            },
            Some(n) => {
                if n > 0 {
                    if let Some(id) = &candidates[i].ru {
                        return Ok(Some(id.clone()));
                    }
                }
            },
        }
        i += 1;
    }
    Ok(None)
}

/// Resolves suggested words to an entry.
pub fn resolve_candidates(candidates: &Vec<Candidate>) -> (r: Result<String, LookupError>)
    ensures
        text_result(r) == entry_of(candidate_views(candidates@)),
{
    match get_response_json_first_term(candidates) {
        Err(e) => Err(e),
        Ok(None) => Err(LookupError::NoResult),
        Ok(Some(id)) => {
            let apostrophe = "'";
            let nothing = "";
            proof {
                reveal_strlit("'");
                reveal_strlit("");
            }
            assert(apostrophe@ =~= seq!['\'']);
            assert(nothing@ =~= Seq::<char>::empty());
            let entry = replace_text(id.as_str(), apostrophe, nothing);
            if entry.as_str().is_empty() {
                Err(LookupError::NoResult)
            } else {
                Ok(entry)
            }
        },
    }
}

/// Resolves the answer to the suggestion request to an entry.
pub fn get_search_result(response: &str) -> (r: Result<String, LookupError>)
    ensures
        text_result(r) == resolved(response@),
{
    match read_table(response, "result", "words", "word", "ru", "tls") {
        None => Err(LookupError::BadResponse),
        Some(candidates) => resolve_candidates(&candidates),
    }
}

} // verus!
