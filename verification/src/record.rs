use crate::text::{
    centered, char_views, chars_of, count_char, count_of, extend_chars, framed, framed_centered,
    framed_rule, join_chars, join_text, join_with, repeated, replace_all, replace_text,
    split_chars, split_on, split_text, string_of, views,
};
use vstd::prelude::*;

verus! {

/// What is wrong with a stored record or with the store it came from.
#[derive(Debug, Clone, Copy, PartialEq, Eq, Structural)]
pub enum StoreError {
    /// A record has fewer fields than a translation record needs.
    ShortRecord,
    /// A line of the store could not be read as a record.
    Unreadable,
}

/// The mathematical value of a translation record.
pub struct InfoView {
    pub search_query: Seq<char>,
    pub search_result: Seq<char>,
    pub title: Seq<char>,
    pub main_translation: Seq<char>,
    pub other_translations: Seq<Seq<char>>,
    pub overview: Seq<char>,
    pub context_phrase: Option<Seq<char>>,
    pub context_phrase_translation: Option<Seq<char>>,
}

/// One looked-up word: what was asked, the dictionary entry it resolved to,
/// and what the entry's page says.
#[derive(Debug, Clone)]
pub struct TranslationInfo {
    search_query: String,
    search_result: String,
    context_phrase: Option<String>,
    context_phrase_translation: Option<String>,
    title: String,
    main_translation: String,
    other_translations: Vec<String>,
    overview: String,
}

/// The view of an optional string.
pub open spec fn opt_view(o: Option<String>) -> Option<Seq<char>> {
    match o {
        Some(s) => Some(s@),
        None => None,
    }
}

/// The text of an optional field in a record: nothing where it is absent.
pub open spec fn opt_text(o: Option<Seq<char>>) -> Seq<char> {
    match o {
        Some(s) => s,
        None => Seq::empty(),
    }
}

/// The optional field that a stored text stands for: absent where it is empty.
pub open spec fn text_opt(s: Seq<char>) -> Option<Seq<char>> {
    if s.len() == 0 {
        None
    } else {
        Some(s)
    }
}

/// The placeholder written where a record has no alternate translations.
pub open spec fn placeholder() -> Seq<char> {
    seq!['-']
}

/// What separates alternate translations in one field.
pub open spec fn list_separator() -> Seq<char> {
    seq![',', ' ']
}

/// What stands for a line break of the overview in one field.
pub open spec fn line_marker() -> Seq<char> {
    seq![';', ' ']
}

/// A line break.
pub open spec fn line_break() -> Seq<char> {
    seq!['\n']
}

/// The alternate translations as one text: joined by a comma and a space, or
/// the placeholder where there are none.
pub open spec fn joined_translations(others: Seq<Seq<char>>) -> Seq<char> {
    if others.len() == 0 {
        placeholder()
    } else {
        join_with(others, list_separator())
    }
}

/// The overview on one line: each line break replaced by the line marker.
pub open spec fn one_line(overview: Seq<char>) -> Seq<char> {
    replace_all(overview, line_break(), line_marker())
}

/// The joined alternate translations in round brackets.
pub open spec fn bracketed_translations(others: Seq<Seq<char>>) -> Seq<char> {
    seq!['('] + joined_translations(others) + seq![')']
}

/// The eight fields of the record's line in the store.
pub open spec fn record_fields(v: InfoView) -> Seq<Seq<char>> {
    seq![
        v.search_query,
        v.search_result,
        v.title,
        v.main_translation,
        joined_translations(v.other_translations),
        one_line(v.overview),
        opt_text(v.context_phrase),
        opt_text(v.context_phrase_translation),
    ]
}

/// All the texts of `fields` one after another, with nothing between them.
pub open spec fn concat_all(fields: Seq<Seq<char>>) -> Seq<char>
    decreases fields.len(),
{
    if fields.len() == 0 {
        Seq::empty()
    } else {
        concat_all(fields.drop_last()) + fields.last()
    }
}

/// The record as one text: its eight fields with nothing between them.
pub open spec fn flattened(v: InfoView) -> Seq<char> {
    concat_all(record_fields(v))
}

/// The record that the fields of a stored line stand for. The eighth field
/// may be missing: the record then has no translation of its context phrase.
pub open spec fn parsed_fields(fields: Seq<Seq<char>>) -> InfoView
    recommends
        fields.len() >= 7,
{
    InfoView {
        search_query: fields[0],
        search_result: fields[1],
        title: fields[2],
        main_translation: fields[3],
        other_translations: split_on(fields[4], list_separator()),
        overview: replace_all(fields[5], line_marker(), line_break()),
        context_phrase: text_opt(fields[6]),
        context_phrase_translation: if fields.len() >= 8 {
            text_opt(fields[7])
        } else {
            None
        },
    }
}

/// The length of the longest of `lines`.
pub open spec fn longest(lines: Seq<Seq<char>>) -> nat
    decreases lines.len(),
{
    if lines.len() == 0 {
        0
    } else {
        let before = longest(lines.drop_last());
        if lines.last().len() > before {
            lines.last().len()
        } else {
            before
        }
    }
}

/// The larger of two numbers.
pub open spec fn larger(a: nat, b: nat) -> nat {
    if a >= b {
        a
    } else {
        b
    }
}

/// The length of the widest thing that the box shows: the title, the main
/// translation, the bracketed alternates, or the longest line of the overview.
pub open spec fn widest(v: InfoView) -> nat {
    larger(
        larger(v.title.len(), v.main_translation.len()),
        larger(
            bracketed_translations(v.other_translations).len(),
            longest(split_on(v.overview, line_break())),
        ),
    )
}

/// The combining acute accent, which takes no room of its own when shown.
pub open spec fn accent() -> char {
    '\u{301}'
}

/// One line between the box's walls, centred in `width` columns; each
/// accent in it widens the field by one.
pub open spec fn wall_line(line: Seq<char>, width: nat) -> Seq<char> {
    framed('\u{2502}', centered(line, width + count_of(line, accent())), '\u{2502}')
}

/// Each line between the box's walls.
pub open spec fn wall_lines(lines: Seq<Seq<char>>, width: nat) -> Seq<Seq<char>> {
    Seq::new(lines.len(), |i: int| wall_line(lines[i], width))
}

/// The overview as the box shows it.
pub open spec fn walled_overview(v: InfoView) -> Seq<char> {
    join_with(wall_lines(split_on(v.overview, line_break()), widest(v) + 2), line_break())
}

/// What follows the box: an empty line and the context phrase, then its
/// translation, each only where the record has it.
pub open spec fn context_lines(v: InfoView) -> Seq<char> {
    (match v.context_phrase {
        Some(c) => seq!['\n', '\n'] + c,
        None => Seq::empty(),
    }) + (match v.context_phrase_translation {
        Some(t) => seq!['\n'] + t,
        None => Seq::empty(),
    })
}

/// The rows of the box from top to bottom: the upper edge, the title, the
/// main translation, the bracketed alternates, a rule, the overview and the
/// lower edge. Only the title's field is widened by its accents.
pub open spec fn box_rows(v: InfoView) -> Seq<Seq<char>> {
    let width = widest(v) + 2;
    let rule = repeated('\u{2500}', width);
    seq![
        framed('\u{250c}', rule, '\u{2510}'),
        wall_line(v.title, width),
        framed('\u{2502}', centered(v.main_translation, width), '\u{2502}'),
        framed(
            '\u{2502}',
            centered(bracketed_translations(v.other_translations), width),
            '\u{2502}',
        ),
        framed('\u{2502}', rule, '\u{2502}'),
        walled_overview(v),
        framed('\u{2514}', rule, '\u{2518}'),
    ]
}

/// The record drawn as a box for the console, with the context lines below.
pub open spec fn rendered(v: InfoView) -> Seq<char> {
    join_with(box_rows(v), line_break()) + context_lines(v)
}

impl View for TranslationInfo {
    type V = InfoView;

    closed spec fn view(&self) -> InfoView {
        InfoView {
            search_query: self.search_query@,
            search_result: self.search_result@,
            title: self.title@,
            main_translation: self.main_translation@,
            other_translations: views(self.other_translations@),
            overview: self.overview@,
            context_phrase: opt_view(self.context_phrase),
            context_phrase_translation: opt_view(self.context_phrase_translation),
        }
    }
}

/// A copy of a list of strings.
pub fn copy_strings(v: &Vec<String>) -> (r: Vec<String>)
    ensures
        r@ == v@,
{
    let mut r: Vec<String> = Vec::new();
    let mut i: usize = 0;
    while i < v.len()
        invariant
            i <= v.len(),
            r@ == v@.take(i as int),
        decreases v.len() - i,
    {
        r.push(v[i].clone());
        i += 1;
        assert(v@.take(i as int) =~= v@.take(i as int - 1).push(v@[i as int - 1]));
    }
    assert(v@.take(v.len() as int) =~= v@);
    r
}

impl TranslationInfo {
    /// A record of the given parts.
    pub fn new(
        search_query: String,
        search_result: String,
        title: String,
        main_translation: String,
        other_translations: Vec<String>,
        overview: String,
        context_phrase: Option<String>,
        context_phrase_translation: Option<String>,
    ) -> (r: Self)
        ensures
            r@ == (InfoView {
                search_query: search_query@,
                search_result: search_result@,
                title: title@,
                main_translation: main_translation@,
                other_translations: views(other_translations@),
                overview: overview@,
                context_phrase: opt_view(context_phrase),
                context_phrase_translation: opt_view(context_phrase_translation),
            }),
    {
        TranslationInfo {
            search_query,
            search_result,
            context_phrase,
            context_phrase_translation,
            title,
            main_translation,
            other_translations,
            overview,
        }
    }

    /// What the user asked for.
    pub fn search_query(&self) -> (r: &String)
        ensures
            r@ == self@.search_query,
    {
        &self.search_query
    }

    /// The dictionary entry that the query resolved to.
    pub fn search_result(&self) -> (r: &String)
        ensures
            r@ == self@.search_result,
    {
        &self.search_result
    }

    /// The headword as the entry's page shows it.
    pub fn title(&self) -> (r: &String)
        ensures
            r@ == self@.title,
    {
        &self.title
    }

    /// The primary translation.
    pub fn main_translation(&self) -> (r: &String)
        ensures
            r@ == self@.main_translation,
    {
        &self.main_translation
    }

    /// The alternate translations, in the page's order.
    pub fn other_translations(&self) -> (r: &Vec<String>)
        ensures
            views(r@) == self@.other_translations,
    {
        &self.other_translations
    }

    /// The definition text, one paragraph per line.
    pub fn overview(&self) -> (r: &String)
        ensures
            r@ == self@.overview,
    {
        &self.overview
    }

    /// The example sentence, if the record has one.
    pub fn context_phrase(&self) -> (r: &Option<String>)
        ensures
            opt_view(*r) == self@.context_phrase,
    {
        &self.context_phrase
    }

    /// The translation of the example sentence, if the record has one.
    pub fn context_phrase_translation(&self) -> (r: &Option<String>)
        ensures
            opt_view(*r) == self@.context_phrase_translation,
    {
        &self.context_phrase_translation
    }

    /// How many combining acute accents `field_str` holds.
    pub fn get_n_of_diacritics(&self, field_str: &str) -> (n: usize)
        ensures
            n == count_of(field_str@, accent()),
    {
        count_char(&chars_of(field_str), '\u{301}')
    }

    /// The alternate translations joined by a comma and a space; the
    /// placeholder where there are none.
    pub fn other_translations_joined(&self) -> (r: String)
        ensures
            r@ == joined_translations(self@.other_translations),
    {
        if self.other_translations.len() == 0 {
            let dash = "-";
            proof {
                reveal_strlit("-");
            }
            assert(dash@ =~= placeholder());
            dash.to_owned()
        } else {
            let sep = ", ";
            proof {
                reveal_strlit(", ");
            }
            assert(sep@ =~= list_separator());
            join_text(&self.other_translations, sep)
        }
    }

    /// The overview on one line, each line break replaced by a semicolon and
    /// a space.
    pub fn overview_in_one_line(&self) -> (r: String)
        ensures
            r@ == one_line(self@.overview),
    {
        let brk = "\n";
        let marker = "; ";
        proof {
            reveal_strlit("\n");
            reveal_strlit("; ");
        }
        assert(brk@ =~= line_break());
        assert(marker@ =~= line_marker());
        replace_text(self.overview.as_str(), brk, marker)
    }

    /// The joined alternate translations in round brackets.
    pub fn other_translations_concatenated(&self) -> (r: String)
        ensures
            r@ == bracketed_translations(self@.other_translations),
    {
        let mut out: Vec<char> = Vec::new();
        out.push('(');
        let joined = self.other_translations_joined();
        extend_chars(&mut out, &chars_of(joined.as_str()));
        out.push(')');
        assert(out@ =~= bracketed_translations(self@.other_translations));
        string_of(&out)
    }

    /// The length of the widest of the title, the main translation, the
    /// bracketed alternates and the lines of the overview.
    pub fn max_field_len(&self) -> (n: usize)
        ensures
            n == widest(self@),
    {
        let a: usize = chars_of(self.title.as_str()).len();
        let b: usize = chars_of(self.main_translation.as_str()).len();
        let c: usize = chars_of(self.other_translations_concatenated().as_str()).len();
        let brk: Vec<char> = vec!['\n'];
        assert(brk@ =~= line_break());
        let lines = split_chars(&chars_of(self.overview.as_str()), &brk);
        let mut d: usize = 0;
        let mut i: usize = 0;
        assert(char_views(lines@).take(0) =~= Seq::<Seq<char>>::empty());
        while i < lines.len()
            invariant
                i <= lines.len(),
                d == longest(char_views(lines@).take(i as int)),
            decreases lines.len() - i,
        {
            assert(char_views(lines@).take(i + 1).drop_last() =~= char_views(lines@).take(
                i as int,
            ));
            if lines[i].len() > d {
                d = lines[i].len();
            }
            i += 1;
        }
        assert(char_views(lines@).take(lines.len() as int) =~= char_views(lines@));
        let ab: usize = if a >= b {
            a
        } else {
            b
        };
        let cd: usize = if c >= d {
            c
        } else {
            d
        };
        if ab >= cd {
            ab
        } else {
            cd
        }
    }

    /// The overview as the box shows it: each line centred between two
    /// walls, in a field two columns wider than the widest thing shown.
    pub fn overview_centered_with_walls(&self) -> (r: String)
        ensures
            r@ == walled_overview(self@),
    {
        let out = self.walled_chars();
        string_of(&out)
    }

    fn walled_chars(&self) -> (out: Vec<char>)
        ensures
            out@ == walled_overview(self@),
    {
        let width: u128 = self.max_field_len() as u128 + 2;
        let brk: Vec<char> = vec!['\n'];
        assert(brk@ =~= line_break());
        let lines = split_chars(&chars_of(self.overview.as_str()), &brk);
        let mut rows: Vec<Vec<char>> = Vec::new();
        let mut i: usize = 0;
        while i < lines.len()
            invariant
                i <= lines.len(),
                rows.len() == i,
                width <= usize::MAX + 2,
                forall|j: int| 0 <= j < i ==> rows@[j]@ == wall_line(lines@[j]@, width as nat),
            decreases lines.len() - i,
        {
            let n: usize = count_char(&lines[i], '\u{301}');
            rows.push(framed_centered('\u{2502}', &lines[i], width + n as u128, '\u{2502}'));
            i += 1;
        }
        assert(char_views(rows@) =~= wall_lines(char_views(lines@), width as nat));
        join_chars(&rows, &brk)
    }

    /// The record as one text, its eight fields with nothing between them:
    /// what two records are compared by before one is stored.
    pub fn to_csv_string_record_slice(&self) -> (r: String)
        ensures
            r@ == flattened(self@),
    {
        let fields = self.to_csv_record();
        let mut out = String::new();
        let mut i: usize = 0;
        assert(views(fields@).take(0) =~= Seq::<Seq<char>>::empty());
        while i < fields.len()
            invariant
                i <= fields.len(),
                out@ == concat_all(views(fields@).take(i as int)),
            decreases fields.len() - i,
        {
            assert(views(fields@).take(i + 1).drop_last() =~= views(fields@).take(i as int));
            out.append(fields[i].as_str());
            i += 1;
        }
        assert(views(fields@).take(fields.len() as int) =~= views(fields@));
        out
    }

    /// The eight fields of the record's line in the store.
    pub fn to_csv_record(&self) -> (r: Vec<String>)
        ensures
            views(r@) == record_fields(self@),
    {
        let mut r: Vec<String> = Vec::new();
        r.push(self.search_query.clone());
        r.push(self.search_result.clone());
        r.push(self.title.clone());
        r.push(self.main_translation.clone());
        r.push(self.other_translations_joined());
        r.push(self.overview_in_one_line());
        r.push(
            match &self.context_phrase {
                Some(c) => c.clone(),
                None => String::new(),
            },
        );
        r.push(
            match &self.context_phrase_translation {
                Some(c) => c.clone(),
                None => String::new(),
            },
        );
        assert(views(r@) =~= record_fields(self@));
        r
    }

    /// The record that the fields of a stored line stand for. At least seven
    /// fields are needed; an eighth, the translation of the context phrase,
    /// may be missing. An empty optional field is an absent one.
    pub fn from_csv_string_record_slice(record: &Vec<String>) -> (r: Result<Self, StoreError>)
        ensures
            record.len() >= 7 ==> (r matches Ok(t) && t@ == parsed_fields(views(record@))),
            record.len() < 7 ==> r == Err::<Self, StoreError>(StoreError::ShortRecord),
    {
        if record.len() < 7 {
            return Err(StoreError::ShortRecord);
        }
        let sep = ", ";
        let marker = "; ";
        let brk = "\n";
        proof {
            reveal_strlit(", ");
            reveal_strlit("; ");
            reveal_strlit("\n");
        }
        assert(sep@ =~= list_separator());
        assert(marker@ =~= line_marker());
        assert(brk@ =~= line_break());
        let other_translations = split_text(record[4].as_str(), sep);
        let overview = replace_text(record[5].as_str(), marker, brk);
        let context_phrase = if record[6].as_str().is_empty() {
            None
        } else {
            Some(record[6].clone())
        };
        let context_phrase_translation = if record.len() >= 8 && !record[7].as_str().is_empty() {
            Some(record[7].clone())
        } else {
            None
        };
        Ok(
            TranslationInfo {
                search_query: record[0].clone(),
                search_result: record[1].clone(),
                title: record[2].clone(),
                main_translation: record[3].clone(),
                other_translations,
                overview,
                context_phrase,
                context_phrase_translation,
            },
        )
    }

    /// The record drawn as a box for the console: the title, the main
    /// translation and the bracketed alternates, each centred, a rule, the
    /// overview, and below the box the context phrase and its translation.
    pub fn render(&self) -> (r: String)
        ensures
            r@ == rendered(self@),
    {
        let width: u128 = self.max_field_len() as u128 + 2;
        let title = chars_of(self.title.as_str());
        let n: usize = count_char(&title, '\u{301}');
        let brk: Vec<char> = vec!['\n'];
        assert(brk@ =~= line_break());
        let mut rows: Vec<Vec<char>> = Vec::new();
        rows.push(framed_rule('\u{250c}', '\u{2500}', width, '\u{2510}'));
        rows.push(framed_centered('\u{2502}', &title, width + n as u128, '\u{2502}'));
        rows.push(
            framed_centered(
                '\u{2502}',
                &chars_of(self.main_translation.as_str()),
                width,
                '\u{2502}',
            ),
        );
        rows.push(
            framed_centered(
                '\u{2502}',
                &chars_of(self.other_translations_concatenated().as_str()),
                width,
                '\u{2502}',
            ),
        );
        rows.push(framed_rule('\u{2502}', '\u{2500}', width, '\u{2502}'));
        rows.push(self.walled_chars());
        rows.push(framed_rule('\u{2514}', '\u{2500}', width, '\u{2518}'));
        assert(char_views(rows@) =~= box_rows(self@));
        let mut out = join_chars(&rows, &brk);
        let ghost boxed = out@;
        if let Some(c) = &self.context_phrase {
            out.push('\n');
            out.push('\n');
            extend_chars(&mut out, &chars_of(c.as_str()));
        }
        let ghost mid = out@;
        if let Some(t) = &self.context_phrase_translation {
            out.push('\n');
            extend_chars(&mut out, &chars_of(t.as_str()));
        }
        assert(mid =~= boxed + (match self@.context_phrase {
            Some(c) => seq!['\n', '\n'] + c,
            None => Seq::empty(),
        }));
        assert(out@ =~= boxed + context_lines(self@));
        string_of(&out)
    }
}

} // verus!
