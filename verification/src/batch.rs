use crate::record::{opt_view, StoreError};
use crate::text::{
    char_views, chars_of, join_chars, join_with, split_words, starts_with, string_of, views,
    words,
};
use vstd::prelude::*;

verus! {

/// One lookup that a batch file asks for.
#[derive(Debug, Clone)]
pub struct BatchEntry {
    /// The word to look up.
    pub query: String,
    /// The context phrase that the line gives after the word, if any.
    pub context: Option<String>,
}

/// How one lookup of a batch ended.
#[derive(Debug, Clone, Copy, PartialEq, Eq, Structural)]
pub enum Outcome {
    /// The record was fetched from the site.
    Fetched,
    /// The record was already in the store.
    Cached,
    /// The lookup gave no record, or the record could not be stored.
    Failed,
}

/// The queries of a batch by how their lookups ended, and the number of
/// lines of the batch file.
#[derive(Debug)]
pub struct FileResult {
    pub failed_results: Vec<String>,
    pub fetched_results: Vec<String>,
    pub existent_results: Vec<String>,
    pub n_total: u64,
}

/// The mark that makes a line a comment.
pub open spec fn comment_mark() -> Seq<char> {
    seq!['#']
}

/// The line asks for no lookup: it has no word, or its first word begins
/// with the comment mark.
pub open spec fn skipped(line: Seq<char>) -> bool {
    words(line).len() == 0 || starts_with(words(line)[0], comment_mark())
}

/// The lookup that a line asks for: its first word is the query, and the
/// other words, with one space between them, are the context phrase.
pub open spec fn entry_of_line(line: Seq<char>) -> Option<(Seq<char>, Option<Seq<char>>)> {
    if skipped(line) {
        None
    } else {
        Some(
            (
                words(line)[0],
                if words(line).len() > 1 {
                    Some(join_with(words(line).skip(1), seq![' ']))
                } else {
                    None
                },
            ),
        )
    }
}

/// The view of a batch entry.
pub open spec fn entry_view(e: BatchEntry) -> (Seq<char>, Option<Seq<char>>) {
    (e.query@, opt_view(e.context))
}

/// The view of an optional batch entry.
pub open spec fn opt_entry_view(o: Option<BatchEntry>) -> Option<(Seq<char>, Option<Seq<char>>)> {
    match o {
        Some(e) => Some(entry_view(e)),
        None => None,
    }
}

/// The views of batch entries.
pub open spec fn entry_views(v: Seq<BatchEntry>) -> Seq<(Seq<char>, Option<Seq<char>>)> {
    Seq::new(v.len(), |i: int| entry_view(v[i]))
}

/// The lookups that the lines ask for, in the lines' order.
pub open spec fn planned(lines: Seq<Seq<char>>) -> Seq<(Seq<char>, Option<Seq<char>>)>
    decreases lines.len(),
{
    if lines.len() == 0 {
        Seq::empty()
    } else {
        match entry_of_line(lines.last()) {
            Some(e) => planned(lines.drop_last()).push(e),
            None => planned(lines.drop_last()),
        }
    }
}

/// How a lookup ended, from whether its record came from the store and
/// what adding it to the store reported.
pub open spec fn outcome_of(cached: bool, stored: Result<bool, StoreError>) -> Outcome {
    if stored is Err {
        Outcome::Failed
    } else if cached {
        Outcome::Cached
    } else {
        Outcome::Fetched
    }
}

/// Reads one line of a batch file.
pub fn parse_batch_line(line: &str) -> (r: Option<BatchEntry>)
    ensures
        opt_entry_view(r) == entry_of_line(line@),
{
    let ws = split_words(&chars_of(line));
    assert(ws.len() == char_views(ws@).len());
    if ws.len() == 0 {
        return None;
    }
    assert(char_views(ws@)[0] == ws@[0]@);
    if ws[0].len() > 0 && ws[0][0] == '#' {
        assert(ws@[0]@.take(1) =~= comment_mark());
        return None;
    }
    assert(!starts_with(ws@[0]@, comment_mark())) by {
        if starts_with(ws@[0]@, comment_mark()) {
            assert(ws@[0]@.take(1)[0] == '#');
        }
    }
    let query = string_of(&ws[0]);
    if ws.len() == 1 {
        return Some(BatchEntry { query, context: None });
    }
    let mut rest: Vec<Vec<char>> = Vec::new();
    let mut i: usize = 1;
    while i < ws.len()
        invariant
            1 <= i <= ws.len(),
            rest.len() == i - 1,
            forall|j: int| 0 <= j < i - 1 ==> rest@[j]@ == ws@[j + 1]@,
        decreases ws.len() - i,
    {
        let mut word: Vec<char> = Vec::new();
        crate::text::extend_chars(&mut word, &ws[i]);
        assert(word@ =~= ws@[i as int]@);
        rest.push(word);
        i += 1;
    }
    assert(char_views(rest@) =~= char_views(ws@).skip(1));
    let space: Vec<char> = vec![' '];
    assert(space@ =~= seq![' ']);
    let context = string_of(&join_chars(&rest, &space));
    Some(BatchEntry { query, context: Some(context) })
}

/// The lookups that the lines of a batch file ask for, in order.
pub fn plan_batch(lines: &Vec<String>) -> (r: Vec<BatchEntry>)
    ensures
        entry_views(r@) == planned(views(lines@)),
        r.len() <= lines.len(),
{
    let ghost all = views(lines@);
    let mut out: Vec<BatchEntry> = Vec::new();
    let mut i: usize = 0;
    assert(all.take(0) =~= Seq::<Seq<char>>::empty());
    assert(entry_views(out@) =~= Seq::<(Seq<char>, Option<Seq<char>>)>::empty());
    while i < lines.len()
        invariant
            i <= lines.len(),
            out.len() <= i,
            all == views(lines@),
            entry_views(out@) == planned(all.take(i as int)),
        decreases lines.len() - i,
    {
        assert(all.take(i + 1).drop_last() =~= all.take(i as int));
        assert(all.take(i + 1).last() == lines@[i as int]@);
        let ghost before = entry_views(out@);
        match parse_batch_line(lines[i].as_str()) {
            Some(e) => {
                let ghost ev = entry_view(e);
                out.push(e);
                assert(entry_views(out@) =~= before.push(ev));
            },
            None => {},
        }
        i += 1;
    }
    assert(all.take(lines.len() as int) =~= all);
    out
}

/// Tells how a lookup ended, from whether its record came from the store
/// and what adding it to the store reported.
pub fn classify(cached: bool, stored: Result<bool, StoreError>) -> (r: Outcome)
    ensures
        r == outcome_of(cached, stored),
{
    match stored {
        Err(_) => Outcome::Failed,
        Ok(_) => if cached {
            Outcome::Cached
        } else {
            Outcome::Fetched
        },
    }
}

impl FileResult {
    /// The result of a batch of `n_total` lines before any lookup.
    pub fn new(n_total: u64) -> (r: Self)
        ensures
            r.failed_results@.len() == 0,
            r.fetched_results@.len() == 0,
            r.existent_results@.len() == 0,
            r.n_total == n_total,
    {
        FileResult {
            failed_results: Vec::new(),
            fetched_results: Vec::new(),
            existent_results: Vec::new(),
            n_total,
        }
    }

    /// How many lookups have been noted.
    pub open spec fn noted(&self) -> nat {
        self.failed_results@.len() + self.fetched_results@.len() + self.existent_results@.len()
    }

    /// Notes how the lookup of a query ended: the query joins exactly one of
    /// the three lists, and nothing else changes.
    pub fn record(&mut self, query: &str, outcome: Outcome)
        ensures
            final(self).n_total == old(self).n_total,
            final(self).noted() == old(self).noted() + 1,
            views(final(self).fetched_results@) == if outcome == Outcome::Fetched {
                views(old(self).fetched_results@).push(query@)
            } else {
                views(old(self).fetched_results@)
            },
            views(final(self).existent_results@) == if outcome == Outcome::Cached {
                views(old(self).existent_results@).push(query@)
            } else {
                views(old(self).existent_results@)
            },
            views(final(self).failed_results@) == if outcome == Outcome::Failed {
                views(old(self).failed_results@).push(query@)
            } else {
                views(old(self).failed_results@)
            },
    {
        match outcome {
            Outcome::Fetched => {
                self.fetched_results.push(query.to_owned());
                assert(views(self.fetched_results@) =~= views(old(self).fetched_results@).push(
                    query@,
                ));
            },
            Outcome::Cached => {
                self.existent_results.push(query.to_owned());
                assert(views(self.existent_results@) =~= views(old(self).existent_results@).push(
                    query@,
                ));
            },
            Outcome::Failed => {
                self.failed_results.push(query.to_owned());
                assert(views(self.failed_results@) =~= views(old(self).failed_results@).push(
                    query@,
                ));
            },
        }
    }

    /// How many lookups have been noted.
    pub fn n_done(&self) -> (n: u128)
        ensures
            n == self.noted(),
    {
        self.failed_results.len() as u128 + self.fetched_results.len() as u128
            + self.existent_results.len() as u128
    }
}

/// A line without a word and a line whose first word begins with the
/// comment mark ask for no lookup: a batch plans the same lookups with such a
/// line as without it.
pub proof fn lemma_skipped_line_plans_nothing(lines: Seq<Seq<char>>, line: Seq<char>)
    requires
        skipped(line),
    ensures
        entry_of_line(line) is None,
        planned(lines.push(line)) == planned(lines),
{
    assert(lines.push(line).drop_last() =~= lines);
}

/// A batch plans at most one lookup for each of its lines.
pub proof fn lemma_planned_at_most_lines(lines: Seq<Seq<char>>)
    ensures
        planned(lines).len() <= lines.len(),
    decreases lines.len(),
{
    if lines.len() > 0 {
        lemma_planned_at_most_lines(lines.drop_last());
    }
}

} // verus!
