use crate::record::{
    concat_all, copy_strings, flattened, opt_view, parsed_fields, record_fields, InfoView,
    StoreError, TranslationInfo,
};
use crate::text::{same_text, views};
use vstd::prelude::*;

verus! {

/// The records that the `csv` crate reads from a text with the given field
/// delimiter, in the order in which its reader yields them, the header line
/// left out; `None` stands for a line that the reader rejects.
pub uninterp spec fn csv_rows(delimiter: u8, text: Seq<char>) -> Seq<Option<Seq<Seq<char>>>>;

/// The line that the `csv` crate writes for a record of the given fields
/// with the given field delimiter, or `None` where its writer fails.
pub uninterp spec fn csv_line(delimiter: u8, fields: Seq<Seq<char>>) -> Option<Seq<char>>;

/// What stands between the fields of a line of the store: a pipe, since a
/// translation may hold commas and quotes.
pub const FIELD_DELIMITER: u8 = 0x7c;

/// The view of rows as they come from the reader.
pub open spec fn read_views(rows: Seq<Option<Vec<String>>>) -> Seq<Option<Seq<Seq<char>>>> {
    Seq::new(
        rows.len(),
        |i: int|
            match rows[i] {
                Some(r) => Some(views(r@)),
                None => None,
            },
    )
}

/// The view of stored rows.
pub open spec fn row_views(rows: Seq<Vec<String>>) -> Seq<Seq<Seq<char>>> {
    Seq::new(rows.len(), |i: int| views(rows[i]@))
}

/// Reads every record of a delimited text.
///
/// Trusted: builds a `csv::Reader` with the delimiter over the text's bytes
/// and walks `Reader::records`. The reader takes the first line as the
/// header and yields the others in order, each as its fields or, where its
/// number of fields differs from the first line's, as an error; the contract
/// only names that sequence.
#[verifier::external_body]
fn read_rows(delimiter: u8, text: &str) -> (rows: Vec<Option<Vec<String>>>)
    ensures
        read_views(rows@) == csv_rows(delimiter, text@),
{
    let mut reader = csv::ReaderBuilder::new().delimiter(delimiter).from_reader(text.as_bytes());
    reader.records().map(|row| row.ok().map(|r| r.iter().map(String::from).collect())).collect()
}

/// Writes one record as a delimited line.
///
/// Trusted: builds a `csv::Writer` with the delimiter over a byte vector,
/// calls `Writer::write_record` with the fields and takes the bytes back
/// with `Writer::into_inner`; the contract only names the text that comes
/// out.
#[verifier::external_body]
fn write_row(delimiter: u8, fields: &Vec<String>) -> (line: Option<String>)
    ensures
        opt_view(line) == csv_line(delimiter, views(fields@)),
{
    let mut writer = csv::WriterBuilder::new().delimiter(delimiter).from_writer(Vec::new());
    writer.write_record(fields).ok()?;
    let bytes = writer.into_inner().ok()?;
    String::from_utf8(bytes).ok()
}

/// The mathematical value of a store: the records that could be read, in
/// order, and whether a line that could not be read follows them.
pub struct StoreView {
    pub rows: Seq<Seq<Seq<char>>>,
    pub damaged: bool,
}

/// The cache of looked-up words: the records of the store file in order.
#[derive(Debug)]
pub struct Store {
    rows: Vec<Vec<String>>,
    damaged: bool,
}

impl View for Store {
    type V = StoreView;

    closed spec fn view(&self) -> StoreView {
        StoreView { rows: row_views(self.rows@), damaged: self.damaged }
    }
}

/// The rows before the first one that could not be read.
pub open spec fn readable_rows(rows: Seq<Option<Seq<Seq<char>>>>) -> Seq<Seq<Seq<char>>>
    decreases rows.len(),
{
    if rows.len() == 0 {
        Seq::empty()
    } else {
        match rows[0] {
            Some(r) => seq![r] + readable_rows(rows.skip(1)),
            None => Seq::empty(),
        }
    }
}

/// Some row could not be read.
pub open spec fn any_unreadable(rows: Seq<Option<Seq<Seq<char>>>>) -> bool {
    exists|i: int| 0 <= i < rows.len() && rows[i] is None
}

/// The store that a reader's rows make.
pub open spec fn store_of(rows: Seq<Option<Seq<Seq<char>>>>) -> StoreView {
    StoreView { rows: readable_rows(rows), damaged: any_unreadable(rows) }
}

/// The row is the record of the query: its first field is the query.
pub open spec fn answers(row: Seq<Seq<char>>, query: Seq<char>) -> bool {
    row.len() > 0 && row[0] == query
}

/// The first row that is the record of the query.
pub open spec fn first_answer(rows: Seq<Seq<Seq<char>>>, query: Seq<char>) -> Option<
    Seq<Seq<char>>,
>
    decreases rows.len(),
{
    if rows.len() == 0 {
        None
    } else if answers(rows[0], query) {
        Some(rows[0])
    } else {
        first_answer(rows.skip(1), query)
    }
}

/// What a lookup of the query gives: the first record of the query, read as
/// a translation record; an error where that record is too short to be one;
/// where no record is of the query, an error if the store is damaged, and
/// nothing otherwise.
pub open spec fn lookup_of(store: StoreView, query: Seq<char>) -> Result<
    Option<InfoView>,
    StoreError,
> {
    match first_answer(store.rows, query) {
        Some(row) => if row.len() >= 7 {
            Ok(Some(parsed_fields(row)))
        } else {
            Err(StoreError::ShortRecord)
        },
        None => if store.damaged {
            Err(StoreError::Unreadable)
        } else {
            Ok(None)
        },
    }
}

/// The view of a lookup's result.
pub open spec fn found_view(r: Result<Option<TranslationInfo>, StoreError>) -> Result<
    Option<InfoView>,
    StoreError,
> {
    match r {
        Ok(Some(t)) => Ok(Some(t@)),
        Ok(None) => Ok(None),
        Err(e) => Err(e),
    }
}

/// How many rows, taken as one text each, equal `flat`.
pub open spec fn count_flat(rows: Seq<Seq<Seq<char>>>, flat: Seq<char>) -> nat
    decreases rows.len(),
{
    if rows.len() == 0 {
        0
    } else {
        count_flat(rows.drop_last(), flat) + if concat_all(rows.last()) == flat {
            1nat
        } else {
            0nat
        }
    }
}

/// The store after an attempt to add the record: unchanged where a row
/// already equals it as one text, or where the store is damaged; otherwise
/// with the record's fields as its new last row.
pub open spec fn appended(store: StoreView, v: InfoView) -> StoreView {
    if count_flat(store.rows, flattened(v)) > 0 || store.damaged {
        store
    } else {
        StoreView { rows: store.rows.push(record_fields(v)), damaged: false }
    }
}

/// What an attempt to add the record reports: `false` where a row already
/// equals it as one text; an error where none does and the store is damaged;
/// `true` where the record was added.
pub open spec fn append_outcome(store: StoreView, v: InfoView) -> Result<bool, StoreError> {
    if count_flat(store.rows, flattened(v)) > 0 {
        Ok(false)
    } else if store.damaged {
        Err(StoreError::Unreadable)
    } else {
        Ok(true)
    }
}

/// All the fields of a row one after another.
pub fn concat_fields(fields: &Vec<String>) -> (r: String)
    ensures
        r@ == concat_all(views(fields@)),
{
    let mut out = String::new();
    let mut i: usize = 0;
    assert(views(fields@).take(0) =~= Seq::<Seq<char>>::empty());
    while i < fields.len()
        invariant
            i <= fields.len(),
            out@ == concat_all(views(fields@).take(i as int)),
        decreases fields.len() - i,
    {
        assert(views(fields@).take(i + 1).drop_last() =~= views(fields@).take(i as int));
        out.append(fields[i].as_str());
        i += 1;
    }
    assert(views(fields@).take(fields.len() as int) =~= views(fields@));
    out
}

impl Store {
    /// A store without records.
    pub fn new() -> (r: Self)
        ensures
            r@ == (StoreView { rows: Seq::empty(), damaged: false }),
    {
        let r = Store { rows: Vec::new(), damaged: false };
        assert(row_views(r.rows@) =~= Seq::<Seq<Seq<char>>>::empty());
        r
    }

    /// The store made of the rows that a reader yielded: those before the
    /// first that could not be read, and the note that one could not.
    pub fn from_rows(rows: &Vec<Option<Vec<String>>>) -> (r: Self)
        ensures
            r@ == store_of(read_views(rows@)),
    {
        let ghost all = read_views(rows@);
        let mut kept: Vec<Vec<String>> = Vec::new();
        let mut i: usize = 0;
        assert(all.skip(0) =~= all);
        assert(row_views(kept@) =~= Seq::<Seq<Seq<char>>>::empty());
        while i < rows.len()
            invariant
                i <= rows.len(),
                all == read_views(rows@),
                row_views(kept@) + readable_rows(all.skip(i as int)) == readable_rows(all),
                forall|j: int| 0 <= j < i ==> all[j] is Some,
            decreases rows.len() - i,
        {
            let ghost before = row_views(kept@);
            let ghost rest = all.skip(i as int);
            assert(rest[0] == all[i as int]);
            match &rows[i] {
                Some(row) => {
                    kept.push(copy_strings(row));
                    assert(rest.skip(1) =~= all.skip(i + 1));
                    assert(row_views(kept@) =~= before + seq![views(row@)]);
                    assert(row_views(kept@) + readable_rows(all.skip(i + 1)) =~= before
                        + readable_rows(rest));
                },
                None => {
                    assert(before + Seq::<Seq<Seq<char>>>::empty() =~= before);
                    assert(any_unreadable(all));
                    return Store { rows: kept, damaged: true };
                },
            }
            i += 1;
        }
        assert(row_views(kept@) + Seq::<Seq<Seq<char>>>::empty() =~= row_views(kept@));
        Store { rows: kept, damaged: false }
    }

    /// The store that a store file's text holds, as the `csv` crate reads it
    /// with `|` between fields and the first line as header.
    pub fn parse(text: &str) -> (r: Self)
        ensures
            r@ == store_of(csv_rows(FIELD_DELIMITER, text@)),
    {
        let rows = read_rows(FIELD_DELIMITER, text);
        Store::from_rows(&rows)
    }

    /// How many records the store holds.
    pub fn len(&self) -> (n: usize)
        ensures
            n == self@.rows.len(),
    {
        self.rows.len()
    }

    /// Whether a line that could not be read follows the records.
    pub fn is_damaged(&self) -> (r: bool)
        ensures
            r == self@.damaged,
    {
        self.damaged
    }

    /// The fields of each record, in the store's order.
    pub fn rows(&self) -> (r: &Vec<Vec<String>>)
        ensures
            row_views(r@) == self@.rows,
    {
        &self.rows
    }
}

/// The header line of a store file, which names the eight fields.
pub fn store_header() -> (r: String)
    ensures
        r@ == "search_query|search_result|title|main_translation|other_translations|overview|context_phrase|context_phrase_translation\n"@,
{
    "search_query|search_result|title|main_translation|other_translations|overview|context_phrase|context_phrase_translation\n".to_owned()
}

/// The line that stores the record, as the `csv` crate writes its eight
/// fields with `|` between them.
pub fn record_line(translation_info: &TranslationInfo) -> (r: Option<String>)
    ensures
        opt_view(r) == csv_line(FIELD_DELIMITER, record_fields(translation_info@)),
{
    let fields = translation_info.to_csv_record();
    write_row(FIELD_DELIMITER, &fields)
}

/// Looks the query up in the store: the first record whose first field is
/// the query, read as a translation record.
pub fn get_cached_translation_info_for_query(store: &Store, search_query: &str) -> (r: Result<
    Option<TranslationInfo>,
    StoreError,
>)
    ensures
        found_view(r) == lookup_of(store@, search_query@),
{
    let ghost all = store@.rows;
    let mut i: usize = 0;
    assert(all.skip(0) =~= all);
    while i < store.rows.len()
        invariant
            i <= store.rows.len(),
            all == store@.rows,
            first_answer(all.skip(i as int), search_query@) == first_answer(all, search_query@),
        decreases store.rows.len() - i,
    {
        let row = &store.rows[i];
        let ghost rest = all.skip(i as int);
        assert(rest[0] == views(row@));
        assert(rest.skip(1) =~= all.skip(i + 1));
        if row.len() > 0 && same_text(row[0].as_str(), search_query) {
            let r = TranslationInfo::from_csv_string_record_slice(row);
            return match r {
                Ok(t) => Ok(Some(t)),
                Err(e) => Err(e),
            };
        }
        i += 1;
    }
    if store.damaged {
        Err(StoreError::Unreadable)
    } else {
        Ok(None)
    }
}

/// Adds the record to the store unless a stored record, taken as one text,
/// already equals it. Tells whether the record was added, so that its line is
/// written to the store file only then.
pub fn append_translation_info(store: &mut Store, translation_info: &TranslationInfo) -> (r:
    Result<bool, StoreError>)
    ensures
        final(store)@ == appended(old(store)@, translation_info@),
        r == append_outcome(old(store)@, translation_info@),
{
    let flat = translation_info.to_csv_string_record_slice();
    let ghost all = store@.rows;
    let mut i: usize = 0;
    assert(all.take(0) =~= Seq::<Seq<Seq<char>>>::empty());
    while i < store.rows.len()
        invariant
            i <= store.rows.len(),
            all == store@.rows,
            *store == *old(store),
            flat@ == flattened(translation_info@),
            count_flat(all.take(i as int), flat@) == 0,
        decreases store.rows.len() - i,
    {
        let other = concat_fields(&store.rows[i]);
        assert(all.take(i + 1).drop_last() =~= all.take(i as int));
        assert(all.take(i + 1).last() == views(store.rows@[i as int]@));
        if same_text(other.as_str(), flat.as_str()) {
            proof {
                lemma_count_flat_grows(all, i + 1, flat@);
            }
            return Ok(false);
        }
        i += 1;
    }
    assert(all.take(all.len() as int) =~= all);
    if store.damaged {
        return Err(StoreError::Unreadable);
    }
    let fields = translation_info.to_csv_record();
    store.rows.push(fields);
    assert(row_views(store.rows@) =~= all.push(record_fields(translation_info@)));
    Ok(true)
}

/// A prefix of the rows holds no more matching rows than all of them.
pub proof fn lemma_count_flat_grows(rows: Seq<Seq<Seq<char>>>, n: int, flat: Seq<char>)
    requires
        0 <= n <= rows.len(),
    ensures
        count_flat(rows.take(n), flat) <= count_flat(rows, flat),
    decreases rows.len(),
{
    if n == rows.len() {
        assert(rows.take(n) =~= rows);
    } else {
        assert(rows.drop_last().take(n) =~= rows.take(n));
        lemma_count_flat_grows(rows.drop_last(), n, flat);
    }
}

/// Adding a record a second time changes nothing, whatever the store
/// holds, and never reports that the record was added.
pub proof fn lemma_append_is_idempotent(store: StoreView, v: InfoView)
    ensures
        appended(appended(store, v), v) == appended(store, v),
        append_outcome(appended(store, v), v) != Ok::<bool, StoreError>(true),
{
    if count_flat(store.rows, flattened(v)) == 0 && !store.damaged {
        assert(store.rows.push(record_fields(v)).drop_last() =~= store.rows);
    }
}

/// Adding the same record twice leaves exactly one stored record equal to
/// it. This holds of a store that is not damaged (to a damaged one nothing
/// is added) and that does not already hold the record more than once.
pub proof fn lemma_append_twice_keeps_one(store: StoreView, v: InfoView)
    requires
        !store.damaged,
        count_flat(store.rows, flattened(v)) <= 1,
    ensures
        count_flat(appended(store, v).rows, flattened(v)) == 1,
        count_flat(appended(appended(store, v), v).rows, flattened(v)) == 1,
        append_outcome(appended(store, v), v) == Ok::<bool, StoreError>(false),
{
    lemma_append_is_idempotent(store, v);
    if count_flat(store.rows, flattened(v)) == 0 {
        assert(store.rows.push(record_fields(v)).drop_last() =~= store.rows);
    }
}

} // verus!
