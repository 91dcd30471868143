use crate::record::{opt_view, InfoView, TranslationInfo};
use crate::text::{join_text, join_with, replace_all, replace_text, split_on, split_text, views};
use vstd::prelude::*;

verus! {

/// A part of an entry's page that a record cannot do without.
#[derive(Debug, Clone, Copy, PartialEq, Eq, Structural)]
pub enum Region {
    /// The section with the headword and its overview.
    Basics,
    /// The headword inside the basics.
    Title,
    /// The overview inside the basics.
    Overview,
    /// The section with the translations.
    Translations,
    /// The primary translation inside the translations.
    MainTranslation,
}

/// Why a lookup gave no record.
#[derive(Debug, Clone, Copy, PartialEq, Eq, Structural)]
pub enum LookupError {
    /// The query was empty.
    EmptyQuery,
    /// A request failed in transport.
    Network,
    /// The answer to the suggestion request was not of the expected shape.
    BadResponse,
    /// No suggested word has a translation.
    NoResult,
    /// The page lacks a part that a record cannot do without.
    NotFound(Region),
    /// The label pattern was refused.
    Pattern,
    /// An event arrived that the lookup was not waiting for.
    Unexpected,
}

/// The selector of a part of the page.
pub open spec fn region_selector(region: Region) -> Seq<char> {
    match region {
        Region::Basics => ".basics"@,
        Region::Title => ".bare span"@,
        Region::Overview => ".overview"@,
        Region::Translations => ".translations"@,
        Region::MainTranslation => ".tl"@,
    }
}

/// What is told of a failed lookup of `query`.
pub open spec fn message_of(e: LookupError, query: Seq<char>) -> Seq<char> {
    match e {
        LookupError::EmptyQuery => "Nothing to search for."@,
        LookupError::Network => "Couldn't find search result for term `"@ + query
            + "`: the request failed."@,
        LookupError::BadResponse => "Couldn't find search result for term `"@ + query
            + "`: the answer could not be read."@,
        LookupError::NoResult => "No results found for "@ + query + "."@,
        LookupError::NotFound(region) => "No element for \""@ + region_selector(region)
            + "\" found."@,
        LookupError::Pattern => "The label pattern was refused."@,
        LookupError::Unexpected => "The lookup was not waiting for this."@,
    }
}

impl Region {
    /// The selector that finds this part of the page.
    pub fn selector(&self) -> (r: &'static str)
        ensures
            r@ == region_selector(*self),
    {
        match self {
            Region::Basics => ".basics",
            Region::Title => ".bare span",
            Region::Overview => ".overview",
            Region::Translations => ".translations",
            Region::MainTranslation => ".tl",
        }
    }
}

impl LookupError {
    /// What to tell the user of a failed lookup of `search_query`. Where no
    /// suggested word qualified, the message names the query.
    pub fn message(&self, search_query: &str) -> (r: String)
        ensures
            r@ == message_of(*self, search_query@),
    {
        match self {
            LookupError::EmptyQuery => "Nothing to search for.".to_owned(),
            LookupError::Network => {
                let mut m = "Couldn't find search result for term `".to_owned();
                m.append(search_query);
                m.append("`: the request failed.");
                m
            },
            LookupError::BadResponse => {
                let mut m = "Couldn't find search result for term `".to_owned();
                m.append(search_query);
                m.append("`: the answer could not be read.");
                m
            },
            LookupError::NoResult => {
                let mut m = "No results found for ".to_owned();
                m.append(search_query);
                m.append(".");
                m
            },
            LookupError::NotFound(region) => {
                let mut m = "No element for \"".to_owned();
                m.append(region.selector());
                m.append("\" found.");
                m
            },
            LookupError::Pattern => "The label pattern was refused.".to_owned(),
            LookupError::Unexpected => "The lookup was not waiting for this.".to_owned(),
        }
    }
}

/// The inner HTML of the first element that `selector` matches in `html`
/// parsed as a whole document by the `scraper` crate; `None` where nothing
/// matches or the selector is refused.
pub uninterp spec fn document_first_inner(selector: Seq<char>, html: Seq<char>) -> Option<
    Seq<char>,
>;

/// The same for `html` parsed as a fragment.
pub uninterp spec fn fragment_first_inner(selector: Seq<char>, html: Seq<char>) -> Option<
    Seq<char>,
>;

/// The text nodes below the elements that `selector` matches in `html`
/// parsed as a fragment by the `scraper` crate, in document order; `None`
/// where the selector is refused.
pub uninterp spec fn fragment_texts(selector: Seq<char>, html: Seq<char>) -> Option<
    Seq<Seq<char>>,
>;

/// `text` with the leftmost match of the regular expression `pattern`
/// replaced by `rep`, as the `regex` crate does it; `None` where it refuses
/// the pattern.
pub uninterp spec fn regex_replaced(pattern: Seq<char>, text: Seq<char>, rep: Seq<char>) -> Option<
    Seq<char>,
>;

/// Selects in a document.
///
/// Trusted: parses the selector with `scraper::Selector::parse` and the text
/// with `scraper::Html::parse_document`, takes the first element of
/// `Html::select` and serialises its children with `ElementRef::inner_html`.
/// The contract only names that result.
#[verifier::external_body]
fn select_in_document(selector: &str, html: &str) -> (r: Option<String>)
    ensures
        opt_view(r) == document_first_inner(selector@, html@),
{
    let selector = scraper::Selector::parse(selector).ok()?;
    scraper::Html::parse_document(html).select(&selector).next().map(|e| e.inner_html())
}

/// Selects in a fragment.
///
/// Trusted: as for a document, with `scraper::Html::parse_fragment`.
#[verifier::external_body]
fn select_in_fragment(selector: &str, html: &str) -> (r: Option<String>)
    ensures
        opt_view(r) == fragment_first_inner(selector@, html@),
{
    let selector = scraper::Selector::parse(selector).ok()?;
    scraper::Html::parse_fragment(html).select(&selector).next().map(|e| e.inner_html())
}

/// The view of an optional list of strings.
pub open spec fn opt_views(o: Option<Vec<String>>) -> Option<Seq<Seq<char>>> {
    match o {
        Some(v) => Some(views(v@)),
        None => None,
    }
}

/// Collects text nodes in a fragment.
///
/// Trusted: parses the selector with `scraper::Selector::parse` and the text
/// with `scraper::Html::parse_fragment`, and collects what
/// `ElementRef::text` yields for each element of `Html::select` in turn. The
/// contract only names that result.
#[verifier::external_body]
fn texts_in_fragment(selector: &str, html: &str) -> (r: Option<Vec<String>>)
    ensures
        opt_views(r) == fragment_texts(selector@, html@),
{
    let selector = scraper::Selector::parse(selector).ok()?;
    let fragment = scraper::Html::parse_fragment(html);
    Some(fragment.select(&selector).flat_map(|e| e.text()).map(String::from).collect())
}

/// Replaces the first match of a pattern.
///
/// Trusted: compiles the pattern with `regex::Regex::new` and calls
/// `Regex::replace`, which replaces the leftmost match. The contract only
/// names that result.
#[verifier::external_body]
fn replace_first_match(pattern: &str, text: &str, rep: &str) -> (r: Option<String>)
    ensures
        opt_view(r) == regex_replaced(pattern@, text@, rep@),
{
    let re = regex::Regex::new(pattern).ok()?;
    Some(re.replace(text, rep).into_owned())
}

/// The overview made of the texts of its paragraphs: one per line, and a
/// line that holds one space only merged with its neighbours into one line.
pub open spec fn tidied(paragraphs: Seq<Seq<char>>) -> Seq<char> {
    replace_all(join_with(paragraphs, seq!['\n']), seq!['\n', ' ', '\n'], seq![' '])
}

/// The overview of the basics section.
pub open spec fn overview_of(basics: Seq<char>) -> Result<Seq<char>, LookupError> {
    match document_first_inner(".overview"@, basics) {
        None => Err(LookupError::NotFound(Region::Overview)),
        Some(inner) => match fragment_texts("p"@, inner) {
            None => Err(LookupError::NotFound(Region::Overview)),
            Some(paragraphs) => Ok(tidied(paragraphs)),
        },
    }
}

/// The alternate translations that a label's text lists, the label's
/// heading already taken away.
pub open spec fn listed(label: Seq<char>) -> Seq<Seq<char>> {
    split_on(label, seq![',', ' '])
}

/// The pattern of the heading that a label of alternate translations
/// begins with.
pub open spec fn heading_pattern() -> Seq<char> {
    "Also<.*>"@
}

/// A label without its heading: the label with the first match of the
/// pattern taken away, or an error where the pattern is refused.
pub open spec fn stripped_label(pattern: Seq<char>, label: Seq<char>) -> Result<
    Seq<char>,
    LookupError,
> {
    match regex_replaced(pattern, label, Seq::empty()) {
        None => Err(LookupError::Pattern),
        Some(stripped) => Ok(stripped),
    }
}

/// The alternate translations of the translations section: the placeholder
/// alone where the section has no label for them.
pub open spec fn other_translations_of(translations: Seq<char>) -> Result<
    Seq<Seq<char>>,
    LookupError,
> {
    match fragment_first_inner(".tl-also"@, translations) {
        None => Ok(seq![seq!['-']]),
        Some(label) => match stripped_label(heading_pattern(), label) {
            Err(e) => Err(e),
            Ok(stripped) => Ok(listed(stripped)),
        },
    }
}

/// The first example sentence of the page and its translation, where the
/// page has both.
pub open spec fn first_sentence_of(page: Seq<char>) -> Option<(Seq<char>, Seq<char>)> {
    match document_first_inner("ul.sentences > li"@, page) {
        None => None,
        Some(item) => match document_first_inner(".ru"@, item) {
            None => None,
            Some(ru) => match fragment_texts("a,span"@, ru) {
                None => None,
                Some(parts) => match document_first_inner(".tl span"@, item) {
                    None => None,
                    Some(en) => Some((join_with(parts, Seq::empty()), en)),
                },
            },
        },
    }
}

/// The context phrase and its translation: the caller's phrase, which has
/// no translation, where one was given; otherwise the page's sentence.
pub open spec fn context_of(
    supplied: Option<Seq<char>>,
    sentence: Option<(Seq<char>, Seq<char>)>,
) -> (Option<Seq<char>>, Option<Seq<char>>) {
    match supplied {
        Some(c) => (Some(c), None),
        None => match sentence {
            Some(pair) => (Some(pair.0), Some(pair.1)),
            None => (None, None),
        },
    }
}

/// The record that an entry's page gives, or the first part that it lacks.
pub open spec fn record_of_page(
    query: Seq<char>,
    entry: Seq<char>,
    supplied: Option<Seq<char>>,
    page: Seq<char>,
) -> Result<InfoView, LookupError> {
    match document_first_inner(".basics"@, page) {
        None => Err(LookupError::NotFound(Region::Basics)),
        Some(basics) => match document_first_inner(".bare span"@, basics) {
            None => Err(LookupError::NotFound(Region::Title)),
            Some(title) => match overview_of(basics) {
                Err(e) => Err(e),
                Ok(overview) => match document_first_inner(".translations"@, page) {
                    None => Err(LookupError::NotFound(Region::Translations)),
                    Some(translations) => match document_first_inner(".tl"@, translations) {
                        None => Err(LookupError::NotFound(Region::MainTranslation)),
                        Some(main) => match other_translations_of(translations) {
                            Err(e) => Err(e),
                            Ok(others) => Ok(
                                InfoView {
                                    search_query: query,
                                    search_result: entry,
                                    title: title,
                                    main_translation: main,
                                    other_translations: others,
                                    overview: overview,
                                    context_phrase: context_of(
                                        supplied,
                                        first_sentence_of(page),
                                    ).0,
                                    context_phrase_translation: context_of(
                                        supplied,
                                        first_sentence_of(page),
                                    ).1,
                                },
                            ),
                        },
                    },
                },
            },
        },
    }
}

/// The view of a text or an error.
pub open spec fn text_result(r: Result<String, LookupError>) -> Result<Seq<char>, LookupError> {
    match r {
        Ok(s) => Ok(s@),
        Err(e) => Err(e),
    }
}

/// The view of a list of texts or an error.
pub open spec fn list_result(r: Result<Vec<String>, LookupError>) -> Result<
    Seq<Seq<char>>,
    LookupError,
> {
    match r {
        Ok(v) => Ok(views(v@)),
        Err(e) => Err(e),
    }
}

/// The view of a record or an error.
pub open spec fn record_result(r: Result<TranslationInfo, LookupError>) -> Result<
    InfoView,
    LookupError,
> {
    match r {
        Ok(t) => Ok(t@),
        Err(e) => Err(e),
    }
}

/// The view of an optional pair of strings.
pub open spec fn pair_view(o: Option<(String, String)>) -> Option<(Seq<char>, Seq<char>)> {
    match o {
        Some(p) => Some((p.0@, p.1@)),
        None => None,
    }
}

/// The inner HTML of the first element of `bigger_text` that the selector
/// matches, or `None`.
pub fn get_selector_text_from_bigger_text(selector_str: &str, bigger_text: &str) -> (r: Option<
    String,
>)
    ensures
        opt_view(r) == document_first_inner(selector_str@, bigger_text@),
{
    select_in_document(selector_str, bigger_text)
}

/// Makes the overview of the texts of its paragraphs.
pub fn tidy_overview(paragraphs: &Vec<String>) -> (r: String)
    ensures
        r@ == tidied(views(paragraphs@)),
{
    let brk = "\n";
    let lone = "\n \n";
    let space = " ";
    proof {
        reveal_strlit("\n");
        reveal_strlit("\n \n");
        reveal_strlit(" ");
    }
    assert(brk@ =~= seq!['\n']);
    assert(lone@ =~= seq!['\n', ' ', '\n']);
    assert(space@ =~= seq![' ']);
    let joined = join_text(paragraphs, brk);
    replace_text(joined.as_str(), lone, space)
}

/// The overview of the basics section: the texts of the paragraphs of its
/// overview element, tidied.
pub fn get_overview_from_basics_text(basics_text: &str) -> (r: Result<String, LookupError>)
    ensures
        text_result(r) == overview_of(basics_text@),
{
    match select_in_document(".overview", basics_text) {
        None => Err(LookupError::NotFound(Region::Overview)),
        Some(inner) => match texts_in_fragment("p", inner.as_str()) {
            None => Err(LookupError::NotFound(Region::Overview)),
            Some(paragraphs) => Ok(tidy_overview(&paragraphs)),
        },
    }
}

/// Splits a label's text, its heading already taken away, into the
/// alternate translations that it lists.
pub fn split_translations(label: &str) -> (r: Vec<String>)
    ensures
        views(r@) == listed(label@),
        r.len() >= 1,
{
    let sep = ", ";
    proof {
        reveal_strlit(", ");
    }
    assert(sep@ =~= seq![',', ' ']);
    split_text(label, sep)
}

/// Takes the heading away from a label: the first match of the pattern.
pub fn strip_label(pattern: &str, label: &str) -> (r: Result<String, LookupError>)
    ensures
        text_result(r) == stripped_label(pattern@, label@),
{
    let nothing = "";
    proof {
        reveal_strlit("");
    }
    assert(nothing@ =~= Seq::<char>::empty());
    match replace_first_match(pattern, label, nothing) {
        None => Err(LookupError::Pattern),
        Some(stripped) => Ok(stripped),
    }
}

/// The alternate translations of the translations section. A section
/// without a label for them gives the placeholder alone.
pub fn get_other_translations_from_translations_text(translations_text: &str) -> (r: Result<
    Vec<String>,
    LookupError,
>)
    ensures
        list_result(r) == other_translations_of(translations_text@),
{
    match select_in_fragment(".tl-also", translations_text) {
        None => {
            let dash = "-";
            proof {
                reveal_strlit("-");
            }
            assert(dash@ =~= seq!['-']);
            let mut only: Vec<String> = Vec::new();
            only.push(dash.to_owned());
            assert(views(only@) =~= seq![seq!['-']]);
            Ok(only)
        },
        Some(label) => match strip_label("Also<.*>", label.as_str()) {
            Err(e) => Err(e),
            Ok(stripped) => Ok(split_translations(stripped.as_str())),
        },
    }
}

/// The first example sentence of the page with its translation, or `None`
/// where the page lacks either.
pub fn get_first_sentence_and_translation_from_response_text(response_text: &str) -> (r: Option<
    (String, String),
>)
    ensures
        pair_view(r) == first_sentence_of(response_text@),
{
    let item = select_in_document("ul.sentences > li", response_text)?;
    let ru = select_in_document(".ru", item.as_str())?;
    let parts = texts_in_fragment("a,span", ru.as_str())?;
    let en = select_in_document(".tl span", item.as_str())?;
    let none = "";
    proof {
        reveal_strlit("");
    }
    assert(none@ =~= Seq::<char>::empty());
    Some((join_text(&parts, none), en))
}

/// Puts a record together from the parts that a page gave. A context phrase
/// of the caller's stands in place of the page's sentence and has no
/// translation.
pub fn assemble_record(
    search_query: &str,
    search_result: &str,
    supplied_context: &Option<String>,
    title: String,
    main_translation: String,
    other_translations: Vec<String>,
    overview: String,
    sentence: Option<(String, String)>,
) -> (r: TranslationInfo)
    ensures
        r@ == (InfoView {
            search_query: search_query@,
            search_result: search_result@,
            title: title@,
            main_translation: main_translation@,
            other_translations: views(other_translations@),
            overview: overview@,
            context_phrase: context_of(opt_view(*supplied_context), pair_view(sentence)).0,
            context_phrase_translation: context_of(
                opt_view(*supplied_context),
                pair_view(sentence),
            ).1,
        }),
{
    let (context_phrase, context_phrase_translation) = match supplied_context {
        Some(c) => (Some(c.clone()), None),
        None => match sentence {
            Some(pair) => (Some(pair.0), Some(pair.1)),
            None => (None, None),
        },
    };
    TranslationInfo::new(
        search_query.to_owned(),
        search_result.to_owned(),
        title,
        main_translation,
        other_translations,
        overview,
        context_phrase,
        context_phrase_translation,
    )
}

/// Reads the record of an entry from its page. The basics, the title, the
/// overview, the translations and the main translation must be there, and
/// the first of them that is missing is reported; alternate translations and
/// an example sentence are taken where the page has them.
pub fn record_from_page(
    search_query: &str,
    search_result: &str,
    supplied_context: &Option<String>,
    response_text: &str,
) -> (r: Result<TranslationInfo, LookupError>)
    ensures
        record_result(r) == record_of_page(
            search_query@,
            search_result@,
            opt_view(*supplied_context),
            response_text@,
        ),
{
    let basics = match select_in_document(".basics", response_text) {
        Some(b) => b,
        None => { return Err(LookupError::NotFound(Region::Basics)); },
    };
    let sentence = get_first_sentence_and_translation_from_response_text(response_text);
    let title = match select_in_document(".bare span", basics.as_str()) {
        Some(t) => t,
        None => { return Err(LookupError::NotFound(Region::Title)); },
    };
    let overview = match get_overview_from_basics_text(basics.as_str()) {
        Ok(o) => o,
        Err(e) => { return Err(e); },
    };
    let translations = match select_in_document(".translations", response_text) {
        Some(t) => t,
        None => { return Err(LookupError::NotFound(Region::Translations)); },
    };
    let main_translation = match select_in_document(".tl", translations.as_str()) {
        Some(t) => t,
        None => { return Err(LookupError::NotFound(Region::MainTranslation)); },
    };
    let other_translations = match get_other_translations_from_translations_text(
        translations.as_str(),
    ) {
        Ok(o) => o,
        Err(e) => { return Err(e); },
    };
    Ok(
        assemble_record(
            search_query,
            search_result,
            supplied_context,
            title,
            main_translation,
            other_translations,
            overview,
            sentence,
        ),
    )
}

} // verus!
