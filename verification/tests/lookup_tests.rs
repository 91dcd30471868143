use oraki::batch::{classify, parse_batch_line, plan_batch, FileResult, Outcome};
use oraki::lookup::{
    get_translation_info, make_entry_url, make_suggestions_url, LookupAction, LookupEvent,
    LookupState,
};
use oraki::page::{LookupError, Region};
use oraki::record::{StoreError, TranslationInfo};
use oraki::resolver::{get_response_json_first_term, get_search_result, resolve_candidates, Candidate};
use oraki::store::{append_translation_info, Store};

fn strings(items: &[&str]) -> Vec<String> {
    items.iter().map(|s| s.to_string()).collect()
}

const SUGGESTIONS: &str = "{\"result\":{\"words\":[\
{\"word\":{\"ru\":\"ничего\",\"tls\":[]}},\
{\"word\":{\"ru\":\"до'м\",\"tls\":[{\"tl\":\"house\"}]}},\
{\"word\":{\"ru\":\"дома\",\"tls\":[{\"tl\":\"at home\"}]}}]}}";

const NO_SUGGESTIONS: &str = "{\"result\":{\"words\":[]}}";

const PAGE: &str = "<html><body><div class=\"basics\"><div class=\"bare\"><span>дом</span></div>\
<div class=\"overview\"><p>noun</p><p>masculine</p></div></div>\
<div class=\"translations\"><p class=\"tl\">house</p></div></body></html>";

const PAGE_WITHOUT_BASICS: &str =
    "<html><body><div class=\"translations\"><p class=\"tl\">house</p></div></body></html>";

fn web(url: &str) -> Option<String> {
    if url == make_suggestions_url("house") {
        Some(SUGGESTIONS.to_string())
    } else if url == make_suggestions_url("zzzz") {
        Some(NO_SUGGESTIONS.to_string())
    } else if url == make_suggestions_url("broken") {
        Some(SUGGESTIONS.replace("до'м", "сломано"))
    } else if url == make_entry_url("дом") {
        Some(PAGE.to_string())
    } else if url == make_entry_url("сломано") {
        Some(PAGE_WITHOUT_BASICS.to_string())
    } else {
        None
    }
}

fn look_up(
    store: &Store,
    query: &str,
    context: &Option<String>,
    requests: &mut usize,
) -> Result<(TranslationInfo, bool), LookupError> {
    let (mut state, mut action) =
        get_translation_info(store, query, context, LookupState::Start, LookupEvent::Begin);
    loop {
        match action {
            LookupAction::Found(info, cached) => return Ok((info, cached)),
            LookupAction::Fail(e) => return Err(e),
            LookupAction::Fetch(url) => {
                *requests += 1;
                let event = match web(&url) {
                    Some(text) => LookupEvent::Response(text),
                    None => LookupEvent::TransportFailed,
                };
                let next = get_translation_info(store, query, context, state, event);
                state = next.0;
                action = next.1;
            }
        }
    }
}

fn run(store: &mut Store, query: &str, context: &Option<String>, requests: &mut usize) -> Outcome {
    match look_up(store, query, context, requests) {
        Ok((info, cached)) => classify(cached, append_translation_info(store, &info)),
        Err(_) => Outcome::Failed,
    }
}

#[test]
fn addresses() {
    assert_eq!(
        make_suggestions_url("дом"),
        "https://api.openrussian.org/suggestions?q=дом&dummy=1654996242200&lang=en"
    );
    assert_eq!(make_entry_url("дом"), "https://en.openrussian.org/ru/дом");
}

#[test]
fn resolver_skips_a_word_without_translations() {
    let candidates = vec![
        Candidate { ru: Some("первый".to_string()), translations: Some(0) },
        Candidate { ru: Some("второй".to_string()), translations: Some(1) },
    ];
    assert_eq!(get_response_json_first_term(&candidates), Ok(Some("второй".to_string())));
    assert_eq!(resolve_candidates(&candidates), Ok("второй".to_string()));
}

#[test]
fn resolver_takes_the_first_that_qualifies() {
    let candidates = vec![
        Candidate { ru: None, translations: Some(3) },
        Candidate { ru: Some("а".to_string()), translations: Some(2) },
        Candidate { ru: Some("б".to_string()), translations: Some(5) },
    ];
    assert_eq!(get_response_json_first_term(&candidates), Ok(Some("а".to_string())));
}

#[test]
fn resolver_finds_nothing_where_no_word_qualifies() {
    let candidates = vec![Candidate { ru: Some("первый".to_string()), translations: Some(0) }];
    assert_eq!(get_response_json_first_term(&candidates), Ok(None));
    assert_eq!(resolve_candidates(&candidates), Err(LookupError::NoResult));
    assert_eq!(get_response_json_first_term(&Vec::new()), Ok(None));
    assert_eq!(resolve_candidates(&Vec::new()), Err(LookupError::NoResult));
}

#[test]
fn resolver_refuses_a_word_that_lists_no_translations_at_all() {
    let candidates = vec![
        Candidate { ru: Some("первый".to_string()), translations: None },
        Candidate { ru: Some("второй".to_string()), translations: Some(1) },
    ];
    assert_eq!(get_response_json_first_term(&candidates), Err(LookupError::BadResponse));
    let later = vec![
        Candidate { ru: Some("второй".to_string()), translations: Some(1) },
        Candidate { ru: Some("первый".to_string()), translations: None },
    ];
    assert_eq!(resolve_candidates(&later), Ok("второй".to_string()));
}

#[test]
fn resolver_strips_apostrophes() {
    let candidates = vec![Candidate { ru: Some("до'ма'шний".to_string()), translations: Some(1) }];
    assert_eq!(resolve_candidates(&candidates), Ok("домашний".to_string()));
    let only = vec![Candidate { ru: Some("''".to_string()), translations: Some(1) }];
    assert_eq!(resolve_candidates(&only), Err(LookupError::NoResult));
}

#[test]
fn search_result_of_an_answer() {
    assert_eq!(get_search_result(SUGGESTIONS), Ok("дом".to_string()));
    assert_eq!(get_search_result(NO_SUGGESTIONS), Err(LookupError::NoResult));
    assert_eq!(get_search_result("not json"), Err(LookupError::BadResponse));
    assert_eq!(get_search_result("{\"result\":{}}"), Err(LookupError::BadResponse));
    assert_eq!(
        get_search_result("{\"result\":{\"words\":[{\"word\":{\"ru\":\"дом\"}}]}}"),
        Err(LookupError::BadResponse)
    );
}

#[test]
fn fresh_query_is_fetched_in_two_requests() {
    let store = Store::new();
    let mut requests = 0;
    let (info, cached) = look_up(&store, "house", &None, &mut requests).unwrap();
    assert!(!cached);
    assert_eq!(requests, 2);
    assert_eq!(info.search_query(), "house");
    assert_eq!(info.search_result(), "дом");
    assert_eq!(info.title(), "дом");
    assert_eq!(info.main_translation(), "house");
    assert_eq!(info.other_translations(), &strings(&["-"]));
    assert_eq!(info.overview(), "noun\nmasculine");
}

#[test]
fn steps_of_a_fetched_lookup() {
    let store = Store::new();
    let (state, action) =
        get_translation_info(&store, "house", &None, LookupState::Start, LookupEvent::Begin);
    assert!(matches!(state, LookupState::AwaitingSuggestions));
    assert!(matches!(&action, LookupAction::Fetch(url) if *url == make_suggestions_url("house")));
    let (state, action) = get_translation_info(
        &store,
        "house",
        &None,
        state,
        LookupEvent::Response(SUGGESTIONS.to_string()),
    );
    assert!(matches!(&state, LookupState::AwaitingPage { search_result } if search_result == "дом"));
    assert!(matches!(&action, LookupAction::Fetch(url) if *url == make_entry_url("дом")));
    let (state, action) =
        get_translation_info(&store, "house", &None, state, LookupEvent::Response(PAGE.to_string()));
    assert!(matches!(state, LookupState::Finished));
    assert!(matches!(action, LookupAction::Found(_, false)));
}

#[test]
fn second_lookup_is_served_from_the_store() {
    let mut store = Store::new();
    let mut requests = 0;
    assert_eq!(run(&mut store, "house", &None, &mut requests), Outcome::Fetched);
    assert_eq!(requests, 2);
    assert_eq!(store.len(), 1);
    let (info, cached) = look_up(&store, "house", &None, &mut requests).unwrap();
    assert!(cached);
    assert_eq!(requests, 2);
    assert_eq!(info.search_result(), "дом");
    assert_eq!(run(&mut store, "house", &None, &mut requests), Outcome::Cached);
    assert_eq!(requests, 2);
    assert_eq!(store.len(), 1);
}

#[test]
fn page_without_basics_fails_and_nothing_is_stored() {
    let mut store = Store::new();
    let mut requests = 0;
    assert_eq!(
        look_up(&store, "broken", &None, &mut requests).err(),
        Some(LookupError::NotFound(Region::Basics))
    );
    assert_eq!(run(&mut store, "broken", &None, &mut requests), Outcome::Failed);
    assert_eq!(store.len(), 0);
}

#[test]
fn failed_transport_ends_the_lookup() {
    let store = Store::new();
    let mut requests = 0;
    assert_eq!(look_up(&store, "offline", &None, &mut requests).err(), Some(LookupError::Network));
    assert_eq!(requests, 1);
    let (state, action) = get_translation_info(
        &store,
        "house",
        &None,
        LookupState::AwaitingPage { search_result: "дом".to_string() },
        LookupEvent::TransportFailed,
    );
    assert!(matches!(state, LookupState::Finished));
    assert!(matches!(action, LookupAction::Fail(LookupError::Network)));
}

#[test]
fn unresolvable_query_fails_with_no_result() {
    let store = Store::new();
    let mut requests = 0;
    assert_eq!(look_up(&store, "zzzz", &None, &mut requests).err(), Some(LookupError::NoResult));
    assert_eq!(requests, 1);
}

#[test]
fn empty_query_is_refused_without_a_request() {
    let store = Store::new();
    let mut requests = 0;
    assert_eq!(look_up(&store, "", &None, &mut requests).err(), Some(LookupError::EmptyQuery));
    assert_eq!(requests, 0);
}

#[test]
fn unexpected_event_ends_the_lookup() {
    let store = Store::new();
    let (state, action) = get_translation_info(
        &store,
        "house",
        &None,
        LookupState::Start,
        LookupEvent::Response(PAGE.to_string()),
    );
    assert!(matches!(state, LookupState::Finished));
    assert!(matches!(action, LookupAction::Fail(LookupError::Unexpected)));
    let (state, action) =
        get_translation_info(&store, "house", &None, LookupState::Finished, LookupEvent::Begin);
    assert!(matches!(state, LookupState::Finished));
    assert!(matches!(action, LookupAction::Fail(LookupError::Unexpected)));
}

#[test]
fn supplied_context_reaches_the_record() {
    let store = Store::new();
    let mut requests = 0;
    let context = Some("мой дом".to_string());
    let (info, _) = look_up(&store, "house", &context, &mut requests).unwrap();
    assert_eq!(info.context_phrase(), &context);
    assert_eq!(info.context_phrase_translation(), &None);
}

#[test]
fn batch_line_gives_query_and_context() {
    let e = parse_batch_line("дом  в моём   доме ").unwrap();
    assert_eq!(e.query, "дом");
    assert_eq!(e.context, Some("в моём доме".to_string()));
    let e = parse_batch_line("  house").unwrap();
    assert_eq!(e.query, "house");
    assert_eq!(e.context, None);
    let e = parse_batch_line("a#b # c").unwrap();
    assert_eq!(e.query, "a#b");
    assert_eq!(e.context, Some("# c".to_string()));
}

#[test]
fn comment_and_blank_lines_ask_for_nothing() {
    assert!(parse_batch_line("# comment").is_none());
    assert!(parse_batch_line("#comment").is_none());
    assert!(parse_batch_line("   #comment with words").is_none());
    assert!(parse_batch_line("").is_none());
    assert!(parse_batch_line(" \t ").is_none());
    let plan = plan_batch(&strings(&["# comment", "", "house", "  ", "#x", "cat on a mat"]));
    assert_eq!(plan.len(), 2);
    assert_eq!(plan[0].query, "house");
    assert_eq!(plan[0].context, None);
    assert_eq!(plan[1].query, "cat");
    assert_eq!(plan[1].context, Some("on a mat".to_string()));
    assert_eq!(plan_batch(&strings(&["# comment", ""])).len(), 0);
}

#[test]
fn outcomes_are_classified() {
    assert_eq!(classify(false, Ok(true)), Outcome::Fetched);
    assert_eq!(classify(false, Ok(false)), Outcome::Fetched);
    assert_eq!(classify(true, Ok(false)), Outcome::Cached);
    assert_eq!(classify(true, Err(StoreError::Unreadable)), Outcome::Failed);
    assert_eq!(classify(false, Err(StoreError::Unreadable)), Outcome::Failed);
}

#[test]
fn file_result_notes_each_query_once() {
    let mut r = FileResult::new(5);
    assert_eq!(r.n_done(), 0);
    r.record("a", Outcome::Fetched);
    r.record("b", Outcome::Failed);
    r.record("c", Outcome::Cached);
    r.record("d", Outcome::Fetched);
    assert_eq!(r.fetched_results, strings(&["a", "d"]));
    assert_eq!(r.failed_results, strings(&["b"]));
    assert_eq!(r.existent_results, strings(&["c"]));
    assert_eq!(r.n_total, 5);
    assert_eq!(r.n_done(), 4);
}

#[test]
fn batch_of_fresh_repeated_and_unresolvable() {
    let lines = strings(&["house", "house", "zzzz"]);
    let mut store = Store::new();
    let mut requests = 0;
    let mut result = FileResult::new(lines.len() as u64);
    for entry in plan_batch(&lines) {
        let outcome = run(&mut store, &entry.query, &entry.context, &mut requests);
        result.record(&entry.query, outcome);
    }
    assert_eq!(result.fetched_results, strings(&["house"]));
    assert_eq!(result.existent_results, strings(&["house"]));
    assert_eq!(result.failed_results, strings(&["zzzz"]));
    assert_eq!(result.n_total, 3);
    assert_eq!(requests, 3);
    assert_eq!(store.len(), 1);
}
