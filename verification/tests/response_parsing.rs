use liaisons::clients::llm::response::{parse_relation, parse_summary, Field, ParseError};
use liaisons::models::RelationType;

fn fields(text: &str) -> (String, String) {
    let info = parse_summary(text).expect("a summary");
    (info.title, info.summary)
}

#[test]
fn a_title_line_and_a_summary_line_are_read_back() {
    assert_eq!(fields("Title: T1\nSummary: S1"), (String::from("T1"), String::from("S1")));
    assert_eq!(
        fields("Title: Taxes and growth\nSummary: Lower taxes do not always bring growth."),
        (String::from("Taxes and growth"), String::from("Lower taxes do not always bring growth."))
    );
}

#[test]
fn fields_may_be_empty() {
    assert_eq!(fields("Title: \nSummary: "), (String::new(), String::new()));
}

#[test]
fn fields_end_with_their_line() {
    assert_eq!(
        fields("Here you are.\nTitle: T\nSummary: S\nAnything else?"),
        (String::from("T"), String::from("S"))
    );
}

#[test]
fn fields_count_characters_not_bytes() {
    assert_eq!(
        fields("Voilà :\nTitle: Énergie nucléaire\nSummary: Un résumé — bref.\nFin"),
        (String::from("Énergie nucléaire"), String::from("Un résumé — bref."))
    );
}

#[test]
fn a_label_need_not_begin_its_line() {
    assert_eq!(fields("**Title: T\nSummary: S"), (String::from("T"), String::from("S")));
}

#[test]
fn the_leftmost_summary_counts() {
    assert_eq!(
        fields("Title: first\nSummary: one\nTitle: second\nSummary: two"),
        (String::from("first"), String::from("one"))
    );
    assert_eq!(
        fields("Title: alone\nTitle: T\nSummary: S"),
        (String::from("T"), String::from("S"))
    );
    assert_eq!(
        fields("Title: Title: T\nSummary: S"),
        (String::from("Title: T"), String::from("S"))
    );
}

#[test]
fn a_text_without_a_summary_line_lacks_the_summary() {
    assert_eq!(
        parse_summary("Title: only a title").unwrap_err(),
        ParseError::MissingField(Field::Summary)
    );
    assert_eq!(
        parse_summary("Title: T\nsummary: lower case").unwrap_err(),
        ParseError::MissingField(Field::Summary)
    );
}

#[test]
fn a_text_without_a_title_line_lacks_the_title() {
    assert_eq!(
        parse_summary("Summary: only a summary").unwrap_err(),
        ParseError::MissingField(Field::Title)
    );
}

#[test]
fn a_text_without_any_label_is_malformed() {
    assert_eq!(parse_summary("").unwrap_err(), ParseError::MalformedResponse);
    assert_eq!(
        parse_summary("I cannot help with that.").unwrap_err(),
        ParseError::MalformedResponse
    );
    assert_eq!(parse_summary("Title:T\nSummary:S").unwrap_err(), ParseError::MalformedResponse);
}

#[test]
fn both_labels_in_the_wrong_place_are_malformed() {
    assert_eq!(
        parse_summary("Summary: S\nTitle: T").unwrap_err(),
        ParseError::MalformedResponse
    );
    assert_eq!(
        parse_summary("Title: T\n\nSummary: S").unwrap_err(),
        ParseError::MalformedResponse
    );
    assert_eq!(
        parse_summary("Title: T\n Summary: S").unwrap_err(),
        ParseError::MalformedResponse
    );
}

#[test]
fn a_relation_line_names_the_kind() {
    assert_eq!(parse_relation("Relation: Support"), RelationType::Support);
    assert_eq!(parse_relation("Relation: attack"), RelationType::Attack);
    assert_eq!(parse_relation("Relation: ATTACK"), RelationType::Attack);
    assert_eq!(parse_relation("Relation: not related"), RelationType::NotRelated);
    assert_eq!(parse_relation("Relation: Not Related"), RelationType::NotRelated);
}

#[test]
fn what_names_no_kind_is_unrelated() {
    assert_eq!(parse_relation("Relation: gibberish"), RelationType::NotRelated);
    assert_eq!(parse_relation("Relation: "), RelationType::NotRelated);
    assert_eq!(parse_relation("Relation: support."), RelationType::NotRelated);
    assert_eq!(parse_relation("Relation:  support"), RelationType::NotRelated);
    assert_eq!(parse_relation("Support"), RelationType::NotRelated);
    assert_eq!(parse_relation(""), RelationType::NotRelated);
    assert_eq!(parse_relation("relation: support"), RelationType::NotRelated);
}

#[test]
fn the_kind_ends_with_its_line_and_the_leftmost_line_counts() {
    assert_eq!(parse_relation("Let me think.\nRelation: Attack\nBecause."), RelationType::Attack);
    assert_eq!(parse_relation("Relation: Support\nRelation: Attack"), RelationType::Support);
    assert_eq!(parse_relation("Relation: Attack Relation: Support"), RelationType::NotRelated);
    assert_eq!(parse_relation("The Relation: Support"), RelationType::Support);
}

#[test]
fn case_is_lowered_as_the_standard_library_lowers_it() {
    assert_eq!(RelationType::from("SUPPORT"), RelationType::Support);
    assert_eq!(RelationType::from("attac\u{212A}"), RelationType::Attack);
    assert_eq!(RelationType::from_lowercase("support"), RelationType::Support);
    assert_eq!(RelationType::from_lowercase("attack"), RelationType::Attack);
    assert_eq!(RelationType::from_lowercase("Support"), RelationType::NotRelated);
    assert_eq!(RelationType::from_lowercase("not related"), RelationType::NotRelated);
}

#[test]
fn kinds_have_their_canonical_encoding() {
    assert_eq!(RelationType::Support.to_str(), "Support");
    assert_eq!(RelationType::Attack.to_str(), "Attack");
    assert_eq!(RelationType::NotRelated.to_str(), "NotRelated");
    assert_eq!(RelationType::from(RelationType::Support.to_str()), RelationType::Support);
    assert_eq!(RelationType::from(RelationType::Attack.to_str()), RelationType::Attack);
    assert_eq!(RelationType::from(RelationType::NotRelated.to_str()), RelationType::NotRelated);
}
