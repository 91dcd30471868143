use crate::store::{row_views, Store};
use crate::text::{same_text, views};
use vstd::prelude::*;

verus! {

/// How many fields a flashcard has.
pub open spec fn note_width() -> nat {
    8
}

/// The row can make a flashcard that was not made before: it has all the
/// fields, and its entry is none of those seen.
pub open spec fn makes_note(row: Seq<Seq<char>>, seen: Seq<Seq<char>>) -> bool {
    row.len() >= note_width() && !seen.contains(row[1])
}

/// The flashcards that the rows make, where `seen` holds the entries that
/// already have one: each row with all the fields whose entry is new, cut to
/// the fields of a flashcard.
pub open spec fn notes_from(rows: Seq<Seq<Seq<char>>>, seen: Seq<Seq<char>>) -> Seq<
    Seq<Seq<char>>,
>
    decreases rows.len(),
{
    if rows.len() == 0 {
        Seq::empty()
    } else if makes_note(rows[0], seen) {
        seq![rows[0].take(note_width() as int)] + notes_from(rows.skip(1), seen.push(rows[0][1]))
    } else {
        notes_from(rows.skip(1), seen)
    }
}

/// The flashcards of a store: one for the first record of each entry.
pub open spec fn notes_of(rows: Seq<Seq<Seq<char>>>) -> Seq<Seq<Seq<char>>> {
    notes_from(rows, Seq::empty())
}

/// Whether `seen` holds the text `s`.
pub fn holds_text(seen: &Vec<String>, s: &str) -> (r: bool)
    ensures
        r == views(seen@).contains(s@),
{
    let mut i: usize = 0;
    while i < seen.len()
        invariant
            i <= seen.len(),
            forall|j: int| 0 <= j < i ==> views(seen@)[j] != s@,
        decreases seen.len() - i,
    {
        if same_text(seen[i].as_str(), s) {
            assert(views(seen@)[i as int] == s@);
            return true;
        }
        i += 1;
    }
    false
}

/// The first fields of a row, as many as a flashcard has.
pub fn note_fields(row: &Vec<String>) -> (r: Vec<String>)
    requires
        row.len() >= note_width(),
    ensures
        views(r@) == views(row@).take(note_width() as int),
{
    let mut r: Vec<String> = Vec::new();
    let mut i: usize = 0;
    while i < 8
        invariant
            i <= 8,
            row.len() >= 8,
            r.len() == i,
            forall|j: int| 0 <= j < i ==> r@[j]@ == row@[j]@,
        decreases 8 - i,
    {
        r.push(row[i].clone());
        i += 1;
    }
    assert(views(r@) =~= views(row@).take(note_width() as int));
    r
}

/// The fields of the flashcards to make of a store: one flashcard for the
/// first record of each entry, in the store's order; records without all the
/// fields make none.
pub fn notes_for_export(store: &Store) -> (r: Vec<Vec<String>>)
    ensures
        row_views(r@) == notes_of(store@.rows),
{
    let rows = store.rows();
    let ghost all = row_views(rows@);
    let mut seen: Vec<String> = Vec::new();
    let mut out: Vec<Vec<String>> = Vec::new();
    let mut i: usize = 0;
    assert(all.skip(0) =~= all);
    assert(views(seen@) =~= Seq::<Seq<char>>::empty());
    assert(row_views(out@) =~= Seq::<Seq<Seq<char>>>::empty());
    while i < rows.len()
        invariant
            i <= rows.len(),
            all == row_views(rows@),
            row_views(out@) + notes_from(all.skip(i as int), views(seen@)) == notes_of(all),
        decreases rows.len() - i,
    {
        let ghost rest = all.skip(i as int);
        let ghost before = row_views(out@);
        let ghost seen0 = views(seen@);
        let row = &rows[i];
        assert(rest[0] == views(row@));
        assert(rest.skip(1) =~= all.skip(i + 1));
        if row.len() >= 8 && !holds_text(&seen, row[1].as_str()) {
            let fields = note_fields(row);
            out.push(fields);
            seen.push(row[1].clone());
            assert(views(seen@) =~= seen0.push(rest[0][1]));
            assert(row_views(out@) =~= before + seq![rest[0].take(note_width() as int)]);
            assert(row_views(out@) + notes_from(all.skip(i + 1), views(seen@)) =~= before
                + notes_from(rest, seen0));
        }
        i += 1;
    }
    assert(row_views(out@) + Seq::<Seq<Seq<char>>>::empty() =~= row_views(out@));
    out
}

/// The entry of a flashcard: its second field.
pub open spec fn note_entry(note: Seq<Seq<char>>) -> Seq<char> {
    note[1]
}

/// Every flashcard made has all the fields and an entry that was not seen
/// before, and no two flashcards have the same entry.
pub proof fn lemma_notes_have_distinct_entries(rows: Seq<Seq<Seq<char>>>, seen: Seq<Seq<char>>)
    ensures
        forall|i: int|
            0 <= i < notes_from(rows, seen).len() ==> (#[trigger] notes_from(rows, seen)[i]).len()
                == note_width() && !seen.contains(note_entry(notes_from(rows, seen)[i])),
        forall|i: int, j: int|
            0 <= i < j < notes_from(rows, seen).len() ==> note_entry(
                #[trigger] notes_from(rows, seen)[i],
            ) != note_entry(#[trigger] notes_from(rows, seen)[j]),
    decreases rows.len(),
{
    let all = notes_from(rows, seen);
    if rows.len() > 0 {
        if makes_note(rows[0], seen) {
            let entry = rows[0][1];
            let first = rows[0].take(note_width() as int);
            let more = seen.push(entry);
            let rest = notes_from(rows.skip(1), more);
            lemma_notes_have_distinct_entries(rows.skip(1), more);
            assert(all =~= seq![first] + rest);
            assert(note_entry(first) == entry);
            assert(more[seen.len() as int] == entry);
            assert forall|k: int| 0 <= k < rest.len() implies !seen.contains(
                note_entry(#[trigger] rest[k]),
            ) && note_entry(rest[k]) != entry && rest[k].len() == note_width() by {
                assert(!more.contains(note_entry(rest[k])));
                if seen.contains(note_entry(rest[k])) {
                    let at = choose|at: int|
                        0 <= at < seen.len() && seen[at] == note_entry(rest[k]);
                    assert(more[at] == note_entry(rest[k]));
                }
            }
            assert forall|i: int| 0 <= i < all.len() implies (#[trigger] all[i]).len()
                == note_width() && !seen.contains(note_entry(all[i])) by {
                if i > 0 {
                    assert(all[i] == rest[i - 1]);
                }
            }
            assert forall|i: int, j: int| 0 <= i < j < all.len() implies note_entry(
                #[trigger] all[i],
            ) != note_entry(#[trigger] all[j]) by {
                assert(all[j] == rest[j - 1]);
                if i > 0 {
                    assert(all[i] == rest[i - 1]);
                }
            }
        } else {
            lemma_notes_have_distinct_entries(rows.skip(1), seen);
            assert(all == notes_from(rows.skip(1), seen));
        }
    } else {
        assert(all.len() == 0);
    }
}

/// Of the records of one entry only the first becomes a flashcard: no two
/// flashcards of a store have the same entry, and each has all the fields.
pub proof fn lemma_one_note_for_each_entry(rows: Seq<Seq<Seq<char>>>)
    ensures
        forall|i: int|
            0 <= i < notes_of(rows).len() ==> (#[trigger] notes_of(rows)[i]).len()
                == note_width(),
        forall|i: int, j: int|
            0 <= i < j < notes_of(rows).len() ==> note_entry(#[trigger] notes_of(rows)[i])
                != note_entry(#[trigger] notes_of(rows)[j]),
{
    lemma_notes_have_distinct_entries(rows, Seq::empty());
}

} // verus!
