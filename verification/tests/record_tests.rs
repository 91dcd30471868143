use oraki::record::{StoreError, TranslationInfo};

fn strings(items: &[&str]) -> Vec<String> {
    items.iter().map(|s| s.to_string()).collect()
}

fn sample() -> TranslationInfo {
    TranslationInfo::new(
        "house".to_string(),
        "дом".to_string(),
        "до\u{301}м".to_string(),
        "house".to_string(),
        strings(&["home", "building"]),
        "noun\nmasculine".to_string(),
        Some("Это мой дом".to_string()),
        Some("This is my house".to_string()),
    )
}

fn bare() -> TranslationInfo {
    TranslationInfo::new(
        "q".to_string(),
        "r".to_string(),
        "t".to_string(),
        "m".to_string(),
        Vec::new(),
        "single".to_string(),
        None,
        None,
    )
}

#[test]
fn getters_give_the_parts() {
    let t = sample();
    assert_eq!(t.search_query(), "house");
    assert_eq!(t.search_result(), "дом");
    assert_eq!(t.title(), "до\u{301}м");
    assert_eq!(t.main_translation(), "house");
    assert_eq!(t.other_translations(), &strings(&["home", "building"]));
    assert_eq!(t.overview(), "noun\nmasculine");
    assert_eq!(t.context_phrase(), &Some("Это мой дом".to_string()));
    assert_eq!(t.context_phrase_translation(), &Some("This is my house".to_string()));
}

#[test]
fn diacritics_are_counted() {
    let t = sample();
    assert_eq!(t.get_n_of_diacritics("до\u{301}м"), 1);
    assert_eq!(t.get_n_of_diacritics("дом"), 0);
    assert_eq!(t.get_n_of_diacritics("\u{301}\u{301}"), 2);
    assert_eq!(t.get_n_of_diacritics(""), 0);
}

#[test]
fn joined_translations() {
    assert_eq!(sample().other_translations_joined(), "home, building");
}

#[test]
fn joined_translations_of_none_is_the_placeholder() {
    assert_eq!(bare().other_translations_joined(), "-");
    assert_eq!(bare().other_translations_concatenated(), "(-)");
}

#[test]
fn overview_on_one_line() {
    assert_eq!(sample().overview_in_one_line(), "noun; masculine");
    assert_eq!(bare().overview_in_one_line(), "single");
}

#[test]
fn concatenated_translations_are_bracketed() {
    assert_eq!(sample().other_translations_concatenated(), "(home, building)");
}

#[test]
fn widest_field() {
    assert_eq!(sample().max_field_len(), 16);
    assert_eq!(bare().max_field_len(), 6);
    let long_title = TranslationInfo::new(
        "q".to_string(),
        "r".to_string(),
        "a very long title indeed".to_string(),
        "m".to_string(),
        strings(&["x"]),
        "o".to_string(),
        None,
        None,
    );
    assert_eq!(long_title.max_field_len(), 24);
    let long_main = TranslationInfo::new(
        "q".to_string(),
        "r".to_string(),
        "t".to_string(),
        "main translation".to_string(),
        strings(&["x"]),
        "a\nline that is the longest\nb".to_string(),
        None,
        None,
    );
    assert_eq!(long_main.max_field_len(), 24);
}

#[test]
fn overview_between_walls() {
    let expected = format!("\u{2502}{:^18}\u{2502}\n\u{2502}{:^18}\u{2502}", "noun", "masculine");
    assert_eq!(sample().overview_centered_with_walls(), expected);
    assert_eq!(
        sample().overview_centered_with_walls(),
        "\u{2502}       noun       \u{2502}\n\u{2502}    masculine     \u{2502}"
    );
}

#[test]
fn accents_widen_a_wall_line() {
    let t = TranslationInfo::new(
        "q".to_string(),
        "r".to_string(),
        "t".to_string(),
        "m".to_string(),
        strings(&["x"]),
        "до\u{301}м\nab".to_string(),
        None,
        None,
    );
    assert_eq!(t.max_field_len(), 4);
    let expected = format!("\u{2502}{:^7}\u{2502}\n\u{2502}{:^6}\u{2502}", "до\u{301}м", "ab");
    assert_eq!(t.overview_centered_with_walls(), expected);
}

#[test]
fn rendered_box() {
    let t = sample();
    let rule = "\u{2500}".repeat(18);
    let mut expected = format!(
        "\u{250c}{}\u{2510}\n\u{2502}{:^19}\u{2502}\n\u{2502}{:^18}\u{2502}\n\u{2502}{:^18}\u{2502}\n\u{2502}{}\u{2502}\n{}\n\u{2514}{}\u{2518}",
        rule,
        "до\u{301}м",
        "house",
        "(home, building)",
        rule,
        t.overview_centered_with_walls(),
        rule,
    );
    expected.push_str("\n\nЭто мой дом");
    expected.push_str("\nThis is my house");
    assert_eq!(t.render(), expected);
}

#[test]
fn rendered_box_without_context() {
    let t = bare();
    let expected = "\u{250c}\u{2500}\u{2500}\u{2500}\u{2500}\u{2500}\u{2500}\u{2500}\u{2500}\u{2510}\n\
\u{2502}   t    \u{2502}\n\
\u{2502}   m    \u{2502}\n\
\u{2502}  (-)   \u{2502}\n\
\u{2502}\u{2500}\u{2500}\u{2500}\u{2500}\u{2500}\u{2500}\u{2500}\u{2500}\u{2502}\n\
\u{2502} single \u{2502}\n\
\u{2514}\u{2500}\u{2500}\u{2500}\u{2500}\u{2500}\u{2500}\u{2500}\u{2500}\u{2518}";
    assert_eq!(t.render(), expected);
}

#[test]
fn rendered_box_with_translation_only() {
    let t = TranslationInfo::new(
        "q".to_string(),
        "r".to_string(),
        "t".to_string(),
        "m".to_string(),
        Vec::new(),
        "single".to_string(),
        None,
        Some("tr".to_string()),
    );
    assert!(t.render().ends_with("\u{2518}\ntr"));
}

#[test]
fn flattened_record() {
    assert_eq!(
        sample().to_csv_string_record_slice(),
        "houseдомдо\u{301}мhousehome, buildingnoun; masculineЭто мой домThis is my house"
    );
    assert_eq!(bare().to_csv_string_record_slice(), "qrtm-single");
}

#[test]
fn record_fields_of_a_record() {
    assert_eq!(
        sample().to_csv_record(),
        strings(&[
            "house",
            "дом",
            "до\u{301}м",
            "house",
            "home, building",
            "noun; masculine",
            "Это мой дом",
            "This is my house",
        ])
    );
    assert_eq!(bare().to_csv_record(), strings(&["q", "r", "t", "m", "-", "single", "", ""]));
}

#[test]
fn record_from_eight_fields() {
    let fields = strings(&["q", "r", "t", "m", "a, b, c", "x; y; z", "ctx", "tr"]);
    let t = TranslationInfo::from_csv_string_record_slice(&fields).unwrap();
    assert_eq!(t.search_query(), "q");
    assert_eq!(t.search_result(), "r");
    assert_eq!(t.title(), "t");
    assert_eq!(t.main_translation(), "m");
    assert_eq!(t.other_translations(), &strings(&["a", "b", "c"]));
    assert_eq!(t.overview(), "x\ny\nz");
    assert_eq!(t.context_phrase(), &Some("ctx".to_string()));
    assert_eq!(t.context_phrase_translation(), &Some("tr".to_string()));
}

#[test]
fn empty_optional_fields_are_absent() {
    let fields = strings(&["q", "r", "t", "m", "-", "o", "", ""]);
    let t = TranslationInfo::from_csv_string_record_slice(&fields).unwrap();
    assert_eq!(t.other_translations(), &strings(&["-"]));
    assert_eq!(t.context_phrase(), &None);
    assert_eq!(t.context_phrase_translation(), &None);
}

#[test]
fn record_from_seven_fields_has_no_phrase_translation() {
    let fields = strings(&["q", "r", "t", "m", "a", "o", "ctx"]);
    let t = TranslationInfo::from_csv_string_record_slice(&fields).unwrap();
    assert_eq!(t.context_phrase(), &Some("ctx".to_string()));
    assert_eq!(t.context_phrase_translation(), &None);
}

#[test]
fn record_from_too_few_fields_is_refused() {
    let fields = strings(&["q", "r", "t", "m", "a", "o"]);
    let r = TranslationInfo::from_csv_string_record_slice(&fields);
    assert_eq!(r.err(), Some(StoreError::ShortRecord));
    let none = TranslationInfo::from_csv_string_record_slice(&Vec::new());
    assert_eq!(none.err(), Some(StoreError::ShortRecord));
}

#[test]
fn fields_round_trip() {
    let t = sample();
    let back = TranslationInfo::from_csv_string_record_slice(&t.to_csv_record()).unwrap();
    assert_eq!(back.other_translations(), t.other_translations());
    assert_eq!(back.overview(), t.overview());
    assert_eq!(back.search_query(), t.search_query());
    assert_eq!(back.context_phrase(), t.context_phrase());
    assert_eq!(back.context_phrase_translation(), t.context_phrase_translation());
}

#[test]
fn fields_round_trip_substitutes_the_placeholder() {
    let back = TranslationInfo::from_csv_string_record_slice(&bare().to_csv_record()).unwrap();
    assert_eq!(back.other_translations(), &strings(&["-"]));
    assert_eq!(back.overview(), "single");
}

#[test]
fn overview_with_a_semicolon_before_a_break_round_trips() {
    let t = TranslationInfo::new(
        "q".to_string(),
        "r".to_string(),
        "t".to_string(),
        "m".to_string(),
        strings(&["a,", "b"]),
        "one;\ntwo;;\n\nthree".to_string(),
        None,
        None,
    );
    let back = TranslationInfo::from_csv_string_record_slice(&t.to_csv_record()).unwrap();
    assert_eq!(back.overview(), "one;\ntwo;;\n\nthree");
    assert_eq!(back.other_translations(), &strings(&["a,", "b"]));
}
