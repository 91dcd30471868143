use oraki::page::{
    assemble_record, get_first_sentence_and_translation_from_response_text,
    get_other_translations_from_translations_text, get_overview_from_basics_text,
    get_selector_text_from_bigger_text, record_from_page, split_translations, strip_label,
    tidy_overview,
    LookupError, Region,
};

fn strings(items: &[&str]) -> Vec<String> {
    items.iter().map(|s| s.to_string()).collect()
}

const BASICS: &str = "<div class=\"basics\"><div class=\"bare\"><span>дом</span></div>\
<div class=\"overview\"><p>noun</p><p>masculine</p></div></div>";

const TRANSLATIONS: &str = "<div class=\"translations\"><p class=\"tl\">house</p>\
<p class=\"tl-also\">Also<!-- -->: <!-- -->home, building</p></div>";

const TRANSLATIONS_ALONE: &str = "<div class=\"translations\"><p class=\"tl\">house</p></div>";

const SENTENCES: &str = "<ul class=\"sentences\"><li><span class=\"ru\"><a>Это </a>\
<span>мой </span><a>дом</a></span><span class=\"tl\"><span>This is my house</span></span></li>\
<li><span class=\"ru\"><a>Другое</a></span><span class=\"tl\"><span>Other</span></span></li></ul>";

fn page(parts: &[&str]) -> String {
    format!("<html><head></head><body>{}</body></html>", parts.concat())
}

#[test]
fn selector_gives_the_inner_html_of_the_first_match() {
    let html = "<div><p class=\"x\">one <b>two</b></p><p class=\"x\">three</p></div>";
    assert_eq!(
        get_selector_text_from_bigger_text(".x", html),
        Some("one <b>two</b>".to_string())
    );
    assert_eq!(get_selector_text_from_bigger_text("div > p b", html), Some("two".to_string()));
    assert_eq!(get_selector_text_from_bigger_text(".y", html), None);
}

#[test]
fn refused_selector_matches_nothing() {
    assert_eq!(get_selector_text_from_bigger_text("<<<", "<p>x</p>"), None);
}

#[test]
fn heading_is_taken_from_a_label() {
    assert_eq!(
        strip_label("Also<.*>", "Also<!-- -->: <!-- -->home, flat"),
        Ok("home, flat".to_string())
    );
    assert_eq!(strip_label("Also<.*>", "home, flat"), Ok("home, flat".to_string()));
    assert_eq!(strip_label("a+", "baab aa"), Ok("bb aa".to_string()));
}

#[test]
fn refused_pattern_is_an_error() {
    assert_eq!(strip_label("(", "home"), Err(LookupError::Pattern));
}

#[test]
fn overview_is_one_paragraph_per_line() {
    let basics = get_selector_text_from_bigger_text(".basics", &page(&[BASICS])).unwrap();
    assert_eq!(get_overview_from_basics_text(&basics), Ok("noun\nmasculine".to_string()));
}

#[test]
fn overview_must_be_there() {
    assert_eq!(
        get_overview_from_basics_text("<div class=\"bare\"><span>дом</span></div>"),
        Err(LookupError::NotFound(Region::Overview))
    );
}

#[test]
fn overview_without_paragraphs_is_empty() {
    assert_eq!(
        get_overview_from_basics_text("<div class=\"overview\">text only</div>"),
        Ok(String::new())
    );
}

#[test]
fn tidy_overview_merges_a_lone_blank() {
    assert_eq!(tidy_overview(&strings(&["noun", " ", "masculine"])), "noun masculine");
    assert_eq!(tidy_overview(&strings(&["noun", "masculine"])), "noun\nmasculine");
    assert_eq!(tidy_overview(&strings(&[])), "");
    assert_eq!(tidy_overview(&strings(&["a", " ", "b", " ", "c"])), "a b c");
}

#[test]
fn split_translations_cuts_at_comma_and_space() {
    assert_eq!(split_translations("home, building"), strings(&["home", "building"]));
    assert_eq!(split_translations("home"), strings(&["home"]));
    assert_eq!(split_translations("-"), strings(&["-"]));
}

#[test]
fn other_translations_lose_their_heading() {
    let translations =
        get_selector_text_from_bigger_text(".translations", &page(&[TRANSLATIONS])).unwrap();
    assert_eq!(
        get_other_translations_from_translations_text(&translations),
        Ok(strings(&["home", "building"]))
    );
}

#[test]
fn other_translations_without_heading_are_split_as_they_are() {
    assert_eq!(
        get_other_translations_from_translations_text("<p class=\"tl-also\">home, flat</p>"),
        Ok(strings(&["home", "flat"]))
    );
}

#[test]
fn missing_other_translations_give_the_placeholder() {
    let translations =
        get_selector_text_from_bigger_text(".translations", &page(&[TRANSLATIONS_ALONE])).unwrap();
    assert_eq!(
        get_other_translations_from_translations_text(&translations),
        Ok(strings(&["-"]))
    );
}

#[test]
fn first_sentence_and_its_translation() {
    assert_eq!(
        get_first_sentence_and_translation_from_response_text(&page(&[BASICS, SENTENCES])),
        Some(("Это мой дом".to_string(), "This is my house".to_string()))
    );
}

#[test]
fn sentence_is_absent_where_a_part_is_missing() {
    assert_eq!(get_first_sentence_and_translation_from_response_text(&page(&[BASICS])), None);
    let no_translation = "<ul class=\"sentences\"><li><span class=\"ru\"><a>Это</a></span></li></ul>";
    assert_eq!(
        get_first_sentence_and_translation_from_response_text(&page(&[no_translation])),
        None
    );
    let no_source =
        "<ul class=\"sentences\"><li><span class=\"tl\"><span>This</span></span></li></ul>";
    assert_eq!(get_first_sentence_and_translation_from_response_text(&page(&[no_source])), None);
}

#[test]
fn record_of_a_full_page() {
    let t = record_from_page("house", "дом", &None, &page(&[BASICS, TRANSLATIONS, SENTENCES]))
        .unwrap();
    assert_eq!(t.search_query(), "house");
    assert_eq!(t.search_result(), "дом");
    assert_eq!(t.title(), "дом");
    assert_eq!(t.main_translation(), "house");
    assert_eq!(t.other_translations(), &strings(&["home", "building"]));
    assert_eq!(t.overview(), "noun\nmasculine");
    assert_eq!(t.context_phrase(), &Some("Это мой дом".to_string()));
    assert_eq!(t.context_phrase_translation(), &Some("This is my house".to_string()));
}

#[test]
fn page_without_other_translations_still_gives_a_record() {
    let t = record_from_page("house", "дом", &None, &page(&[BASICS, TRANSLATIONS_ALONE])).unwrap();
    assert_eq!(t.other_translations(), &strings(&["-"]));
    assert_eq!(t.main_translation(), "house");
    assert_eq!(t.context_phrase(), &None);
    assert_eq!(t.context_phrase_translation(), &None);
}

#[test]
fn supplied_context_stands_in_place_of_the_sentence() {
    let supplied = Some("в моём доме".to_string());
    let t = record_from_page("house", "дом", &supplied, &page(&[BASICS, TRANSLATIONS, SENTENCES]))
        .unwrap();
    assert_eq!(t.context_phrase(), &supplied);
    assert_eq!(t.context_phrase_translation(), &None);
}

#[test]
fn page_without_basics_fails() {
    assert_eq!(
        record_from_page("house", "дом", &None, &page(&[TRANSLATIONS, SENTENCES])).err(),
        Some(LookupError::NotFound(Region::Basics))
    );
}

#[test]
fn page_without_title_fails() {
    let basics = "<div class=\"basics\"><div class=\"overview\"><p>noun</p></div></div>";
    assert_eq!(
        record_from_page("house", "дом", &None, &page(&[basics, TRANSLATIONS])).err(),
        Some(LookupError::NotFound(Region::Title))
    );
}

#[test]
fn page_without_overview_fails() {
    let basics = "<div class=\"basics\"><div class=\"bare\"><span>дом</span></div></div>";
    assert_eq!(
        record_from_page("house", "дом", &None, &page(&[basics, TRANSLATIONS])).err(),
        Some(LookupError::NotFound(Region::Overview))
    );
}

#[test]
fn page_without_translations_fails() {
    assert_eq!(
        record_from_page("house", "дом", &None, &page(&[BASICS])).err(),
        Some(LookupError::NotFound(Region::Translations))
    );
}

#[test]
fn page_without_main_translation_fails() {
    let translations = "<div class=\"translations\"><p class=\"tl-also\">home</p></div>";
    assert_eq!(
        record_from_page("house", "дом", &None, &page(&[BASICS, translations])).err(),
        Some(LookupError::NotFound(Region::MainTranslation))
    );
}

#[test]
fn assembled_record_takes_the_sentence() {
    let t = assemble_record(
        "q",
        "r",
        &None,
        "t".to_string(),
        "m".to_string(),
        strings(&["a"]),
        "o".to_string(),
        Some(("ru".to_string(), "en".to_string())),
    );
    assert_eq!(t.context_phrase(), &Some("ru".to_string()));
    assert_eq!(t.context_phrase_translation(), &Some("en".to_string()));
    assert_eq!(t.to_csv_string_record_slice(), "qrtmaoruen");
}

#[test]
fn messages_of_errors() {
    assert_eq!(LookupError::NoResult.message("дом"), "No results found for дом.");
    assert_eq!(
        LookupError::NotFound(Region::Basics).message("дом"),
        "No element for \".basics\" found."
    );
    assert_eq!(
        LookupError::NotFound(Region::MainTranslation).message("дом"),
        "No element for \".tl\" found."
    );
    assert_eq!(
        LookupError::Network.message("дом"),
        "Couldn't find search result for term `дом`: the request failed."
    );
    assert_eq!(
        LookupError::BadResponse.message("дом"),
        "Couldn't find search result for term `дом`: the answer could not be read."
    );
    assert_eq!(LookupError::EmptyQuery.message(""), "Nothing to search for.");
    assert_eq!(LookupError::Pattern.message("дом"), "The label pattern was refused.");
    assert_eq!(LookupError::Unexpected.message("дом"), "The lookup was not waiting for this.");
    assert_eq!(Region::Title.selector(), ".bare span");
    assert_eq!(Region::Overview.selector(), ".overview");
    assert_eq!(Region::Translations.selector(), ".translations");
}
