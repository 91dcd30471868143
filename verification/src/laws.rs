use crate::lookup::{step_of, ActionView, EventView, StateView};
use crate::page::{
    document_first_inner, fragment_first_inner, other_translations_of, record_of_page,
    LookupError, Region,
};
use crate::record::{
    line_break, line_marker, list_separator, one_line, opt_text,
    parsed_fields, placeholder, record_fields, text_opt, InfoView,
};
use crate::resolver::{entry_of, picked, without_apostrophes};
use crate::store::StoreView;
use crate::text::{
    centered, contains, is_space, join_rest, join_with, replace_all, split_from, split_on,
    starts_with, word_done, words, words_from,
};
use vstd::prelude::*;

verus! {

/// A word: at least one character, and none of them white space.
pub open spec fn is_word(w: Seq<char>) -> bool {
    w.len() > 0 && forall|k: int| 0 <= k < w.len() ==> !is_space(#[trigger] w[k])
}

/// Each word found from a word under way that holds no white space is a
/// word.
pub proof fn lemma_words_from_are_words(s: Seq<char>, cur: Seq<char>)
    requires
        forall|k: int| 0 <= k < cur.len() ==> !is_space(#[trigger] cur[k]),
    ensures
        forall|i: int|
            0 <= i < words_from(s, cur).len() ==> is_word(#[trigger] words_from(s, cur)[i]),
    decreases s.len(),
{
    let all = words_from(s, cur);
    if s.len() == 0 {
        assert(all == word_done(cur));
    } else if is_space(s[0]) {
        let rest = words_from(s.skip(1), Seq::empty());
        lemma_words_from_are_words(s.skip(1), Seq::empty());
        assert(all == word_done(cur) + rest);
        assert forall|i: int| 0 <= i < all.len() implies is_word(#[trigger] all[i]) by {
            if i < word_done(cur).len() {
                assert(all[i] == cur);
            } else {
                assert(all[i] == rest[i - word_done(cur).len()]);
            }
        }
    } else {
        lemma_words_from_are_words(s.skip(1), cur.push(s[0]));
        assert(all == words_from(s.skip(1), cur.push(s[0])));
    }
}

/// Each of the words of a text has at least one character and holds no
/// white space.
pub proof fn lemma_words_are_words(s: Seq<char>)
    ensures
        forall|i: int| 0 <= i < words(s).len() ==> is_word(#[trigger] words(s)[i]),
{
    lemma_words_from_are_words(s, Seq::empty());
}

/// Splitting gives at least one piece.
pub proof fn lemma_split_is_not_empty(s: Seq<char>, sep: Seq<char>, cur: Seq<char>)
    ensures
        split_from(s, sep, cur).len() >= 1,
    decreases s.len(),
{
    if s.len() > 0 {
        if sep.len() > 0 && starts_with(s, sep) {
            lemma_split_is_not_empty(s.skip(sep.len() as int), sep, Seq::empty());
        } else {
            lemma_split_is_not_empty(s.skip(1), sep, cur.push(s[0]));
        }
    }
}

/// The pieces found from a piece under way, joined by the separator, are
/// the piece under way and the text.
pub proof fn lemma_join_split_from(s: Seq<char>, sep: Seq<char>, cur: Seq<char>)
    ensures
        join_with(split_from(s, sep, cur), sep) == cur + s,
    decreases s.len(),
{
    let all = split_from(s, sep, cur);
    if s.len() == 0 {
        assert(all == seq![cur]);
        assert(all.skip(1) =~= Seq::<Seq<char>>::empty());
        assert(join_with(all, sep) =~= cur + s);
    } else if sep.len() > 0 && starts_with(s, sep) {
        let after = s.skip(sep.len() as int);
        let pieces = split_from(after, sep, Seq::empty());
        lemma_split_is_not_empty(after, sep, Seq::empty());
        lemma_join_split_from(after, sep, Seq::empty());
        assert(all == seq![cur] + pieces);
        assert(all.skip(1) =~= pieces);
        assert(join_rest(pieces, sep) =~= sep + join_with(pieces, sep));
        assert(s =~= s.take(sep.len() as int) + after);
        assert(join_with(all, sep) =~= cur + s);
    } else {
        lemma_join_split_from(s.skip(1), sep, cur.push(s[0]));
        assert(all == split_from(s.skip(1), sep, cur.push(s[0])));
        assert(cur.push(s[0]) + s.skip(1) =~= cur + s);
    }
}

/// The pieces of a text, joined by the separator they were split at, are
/// the text.
pub proof fn lemma_join_split(s: Seq<char>, sep: Seq<char>)
    ensures
        split_on(s, sep).len() >= 1,
        join_with(split_on(s, sep), sep) == s,
{
    lemma_split_is_not_empty(s, sep, Seq::empty());
    lemma_join_split_from(s, sep, Seq::empty());
    assert(Seq::<char>::empty() + s =~= s);
}

/// A centred text fills its field exactly, unless it is longer than the
/// field.
pub proof fn lemma_centered_len(s: Seq<char>, width: nat)
    ensures
        centered(s, width).len() == if s.len() >= width {
            s.len()
        } else {
            width
        },
{
}

/// A text that holds no occurrence of a pattern holds none after its first
/// character either.
pub proof fn lemma_contains_skip(s: Seq<char>, pat: Seq<char>)
    requires
        s.len() > 0,
        !contains(s, pat),
    ensures
        !contains(s.skip(1), pat),
{
    assert forall|i: int| 0 <= i <= s.skip(1).len() implies !#[trigger] starts_with(
        s.skip(1).skip(i),
        pat,
    ) by {
        assert(s.skip(1).skip(i) =~= s.skip(i + 1));
    }
}

/// Splitting at a separator of two different characters runs through a
/// piece that holds no separator without cutting it: at the end of the text
/// the piece is the last one, and before a separator it is closed there.
pub proof fn lemma_split_piece(x: Seq<char>, sep: Seq<char>, rest: Seq<char>, cur: Seq<char>)
    requires
        sep.len() == 2,
        sep[0] != sep[1],
        !contains(x, sep),
    ensures
        split_from(x, sep, cur) == seq![cur + x],
        split_from(x + sep + rest, sep, cur) == seq![cur + x] + split_from(
            rest,
            sep,
            Seq::empty(),
        ),
    decreases x.len(),
{
    let whole = x + sep + rest;
    if x.len() == 0 {
        assert(cur + x =~= cur);
        assert(whole.take(2) =~= sep);
        assert(whole.skip(2) =~= rest);
    } else {
        assert(x.skip(0) =~= x);
        assert(!starts_with(x, sep));
        assert(!starts_with(whole, sep)) by {
            if starts_with(whole, sep) {
                assert(whole.take(2)[0] == sep[0]);
                assert(whole.take(2)[1] == sep[1]);
                if x.len() >= 2 {
                    assert(x.take(2) =~= whole.take(2));
                } else {
                    assert(whole[1] == sep[0]);
                }
            }
        }
        lemma_contains_skip(x, sep);
        lemma_split_piece(x.skip(1), sep, rest, cur.push(x[0]));
        assert(whole.skip(1) =~= x.skip(1) + sep + rest);
        assert(cur.push(x[0]) + x.skip(1) =~= cur + x);
    }
}

/// Joining pieces with a separator of two different characters and
/// splitting the result at it gives the pieces back, where there is at least
/// one piece and none holds the separator.
pub proof fn lemma_split_join(parts: Seq<Seq<char>>, sep: Seq<char>)
    requires
        parts.len() >= 1,
        sep.len() == 2,
        sep[0] != sep[1],
        forall|i: int| 0 <= i < parts.len() ==> !contains(#[trigger] parts[i], sep),
    ensures
        split_on(join_with(parts, sep), sep) == parts,
    decreases parts.len(),
{
    let tail = parts.skip(1);
    if parts.len() == 1 {
        lemma_split_piece(parts[0], sep, Seq::empty(), Seq::empty());
        assert(parts[0] + join_rest(tail, sep) =~= parts[0]);
        assert(Seq::<char>::empty() + parts[0] =~= parts[0]);
        assert(seq![parts[0]] =~= parts);
    } else {
        assert forall|i: int| 0 <= i < tail.len() implies !contains(#[trigger] tail[i], sep) by {
            assert(tail[i] == parts[i + 1]);
        }
        lemma_split_join(tail, sep);
        let after = join_with(tail, sep);
        assert(join_rest(tail, sep) =~= sep + after);
        assert(join_with(parts, sep) =~= parts[0] + sep + after);
        lemma_split_piece(parts[0], sep, after, Seq::empty());
        assert(Seq::<char>::empty() + parts[0] =~= parts[0]);
        assert(seq![parts[0]] + tail =~= parts);
    }
}

/// The one-line form of a text begins as the text does, with the marker's
/// first character in place of a line break.
pub proof fn lemma_one_line_head(s: Seq<char>)
    requires
        s.len() > 0,
    ensures
        one_line(s).len() > 0,
        one_line(s)[0] == if s[0] == '\n' {
            ';'
        } else {
            s[0]
        },
{
    assert(s.take(1) =~= seq![s[0]]);
    if s[0] == '\n' {
        assert(starts_with(s, line_break()));
    } else {
        assert(!starts_with(s, line_break())) by {
            if starts_with(s, line_break()) {
                assert(s.take(1)[0] == '\n');
            }
        }
    }
}

/// Putting an overview on one line and reading it back gives the overview,
/// where it holds no semicolon followed by a space.
pub proof fn lemma_overview_round_trip(s: Seq<char>)
    requires
        !contains(s, line_marker()),
    ensures
        replace_all(one_line(s), line_marker(), line_break()) == s,
    decreases s.len(),
{
    let brk = line_break();
    let mk = line_marker();
    if s.len() > 0 {
        let rest = s.skip(1);
        lemma_contains_skip(s, mk);
        lemma_overview_round_trip(rest);
        let fr = one_line(rest);
        assert(s.take(1) =~= seq![s[0]]);
        if s[0] == '\n' {
            assert(starts_with(s, brk));
            let t = mk + fr;
            assert(one_line(s) == t);
            assert(t.take(2) =~= mk);
            assert(t.skip(2) =~= fr);
            assert(brk + rest =~= s);
        } else {
            assert(!starts_with(s, brk)) by {
                if starts_with(s, brk) {
                    assert(s.take(1)[0] == '\n');
                }
            }
            let t = seq![s[0]] + fr;
            assert(one_line(s) == t);
            assert(t.skip(1) =~= fr);
            assert(!starts_with(t, mk)) by {
                if starts_with(t, mk) {
                    assert(t.take(2)[0] == ';');
                    assert(t.take(2)[1] == ' ');
                    assert(rest.len() > 0);
                    lemma_one_line_head(rest);
                    assert(t[1] == fr[0]);
                    assert(rest[0] == ' ');
                    assert(s.skip(0).take(2) =~= mk);
                    assert(starts_with(s.skip(0), mk));
                }
            }
            assert(seq![s[0]] + rest =~= s);
        }
    }
}

/// A record written as the fields of its store line and read back is the
/// same record, but for two things: where it had no alternate translations
/// it has the placeholder as the only one, and an optional field that was
/// present and empty is absent. This holds where no alternate translation
/// holds a comma followed by a space and the overview holds no semicolon
/// followed by a space.
pub proof fn lemma_record_round_trip(v: InfoView)
    requires
        forall|i: int|
            0 <= i < v.other_translations.len() ==> !contains(
                #[trigger] v.other_translations[i],
                list_separator(),
            ),
        !contains(v.overview, line_marker()),
    ensures
        parsed_fields(record_fields(v)).search_query == v.search_query,
        parsed_fields(record_fields(v)).search_result == v.search_result,
        parsed_fields(record_fields(v)).title == v.title,
        parsed_fields(record_fields(v)).main_translation == v.main_translation,
        parsed_fields(record_fields(v)).other_translations == if v.other_translations.len()
            == 0 {
            seq![placeholder()]
        } else {
            v.other_translations
        },
        parsed_fields(record_fields(v)).overview == v.overview,
        parsed_fields(record_fields(v)).context_phrase == text_opt(opt_text(v.context_phrase)),
        parsed_fields(record_fields(v)).context_phrase_translation == text_opt(
            opt_text(v.context_phrase_translation),
        ),
{
    let sep = list_separator();
    lemma_overview_round_trip(v.overview);
    if v.other_translations.len() == 0 {
        let only = seq![placeholder()];
        assert forall|i: int| 0 <= i < only.len() implies !contains(#[trigger] only[i], sep) by {
            assert forall|k: int| 0 <= k <= placeholder().len() implies !#[trigger] starts_with(
                placeholder().skip(k),
                sep,
            ) by {}
        }
        lemma_split_join(only, sep);
        assert(join_with(only, sep) =~= placeholder());
    } else {
        lemma_split_join(v.other_translations, sep);
    }
}

/// A suggested word without translations is passed over: where the first
/// word has none and the second has one and an identifier, the second is
/// picked.
pub proof fn lemma_resolver_skips_word_without_translations(
    cands: Seq<(Option<Seq<char>>, Option<nat>)>,
)
    requires
        cands.len() >= 2,
        cands[0].1 == Some(0nat),
        cands[1].1 matches Some(n) && n > 0,
        cands[1].0 is Some,
    ensures
        picked(cands) == Ok::<Option<Seq<char>>, LookupError>(cands[1].0),
        without_apostrophes(cands[1].0->0).len() > 0 ==> entry_of(cands) == Ok::<
            Seq<char>,
            LookupError,
        >(without_apostrophes(cands[1].0->0)),
{
    assert(cands.skip(1)[0] == cands[1]);
    assert(picked(cands) == picked(cands.skip(1)));
    assert(picked(cands.skip(1)) == Ok::<Option<Seq<char>>, LookupError>(cands[1].0));
}

/// A translations section without a label for alternates gives the
/// placeholder as the only alternate translation, and no error.
pub proof fn lemma_missing_alternates_give_placeholder(translations: Seq<char>)
    requires
        fragment_first_inner(".tl-also"@, translations) is None,
    ensures
        other_translations_of(translations) == Ok::<Seq<Seq<char>>, LookupError>(
            seq![placeholder()],
        ),
{
}

/// The record that a page gives carries the query it was looked up for and
/// the entry whose page it is.
pub proof fn lemma_record_carries_query(
    query: Seq<char>,
    entry: Seq<char>,
    supplied: Option<Seq<char>>,
    page: Seq<char>,
)
    ensures
        record_of_page(query, entry, supplied, page) matches Ok(v) ==> v.search_query == query
            && v.search_result == entry,
        supplied is Some ==> (record_of_page(query, entry, supplied, page) matches Ok(v)
            ==> v.context_phrase == supplied && v.context_phrase_translation is None),
{
}

/// A page without the basics section gives no record, whatever else it
/// holds: the lookup that waits for it ends with that failure, and so has no
/// record to add to the store.
pub proof fn lemma_page_without_basics_fails(
    store: StoreView,
    query: Seq<char>,
    entry: Seq<char>,
    supplied: Option<Seq<char>>,
    page: Seq<char>,
)
    requires
        document_first_inner(".basics"@, page) is None,
    ensures
        record_of_page(query, entry, supplied, page) == Err::<InfoView, LookupError>(
            LookupError::NotFound(Region::Basics),
        ),
        step_of(
            store,
            query,
            supplied,
            StateView::AwaitingPage(entry),
            EventView::Response(page),
        ) == (StateView::Finished, ActionView::Fail(LookupError::NotFound(Region::Basics))),
{
}

} // verus!
