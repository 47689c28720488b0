use bson::RawDocumentBuf;
use pisa_query::error::QueryError;
use pisa_query::terms::extract_text_query_terms;

fn search_clause(search: &str) -> RawDocumentBuf {
    let mut clause = RawDocumentBuf::new();
    clause.append("$search", search);
    clause
}

fn text_filter(search: &str) -> RawDocumentBuf {
    let mut filter = RawDocumentBuf::new();
    filter.append("$text", search_clause(search));
    filter
}

fn request_with_filter(filter: RawDocumentBuf) -> RawDocumentBuf {
    let mut request = RawDocumentBuf::new();
    request.append("find", "things");
    request.append("filter", filter);
    request
}

fn strings(words: &[&str]) -> Vec<String> {
    words.iter().map(|word| word.to_string()).collect()
}

/// A document whose frame is sound and whose only entry is cut short.
fn truncated_document() -> RawDocumentBuf {
    RawDocumentBuf::from_bytes(vec![7, 0, 0, 0, 0x10, b'a', 0]).unwrap()
}

#[test]
fn terms_are_the_words_of_the_search_string() {
    let request = request_with_filter(text_filter("red bicycle"));
    assert_eq!(extract_text_query_terms(&request).unwrap(), strings(&["red", "bicycle"]));
}

#[test]
fn case_punctuation_and_repetitions_are_kept() {
    let request = request_with_filter(text_filter("Red, red! RED \"bike\" red"));
    assert_eq!(
        extract_text_query_terms(&request).unwrap(),
        strings(&["Red,", "red!", "RED", "\"bike\"", "red"])
    );
}

#[test]
fn any_amount_of_white_space_separates() {
    let request =
        request_with_filter(text_filter("  one\ttwo\n\nthree\u{a0}four\u{3000}five \r\n "));
    assert_eq!(
        extract_text_query_terms(&request).unwrap(),
        strings(&["one", "two", "three", "four", "five"])
    );
}

#[test]
fn empty_and_blank_search_strings_have_no_terms() {
    let request = request_with_filter(text_filter(""));
    assert!(extract_text_query_terms(&request).unwrap().is_empty());
    let request = request_with_filter(text_filter(" \t\n "));
    assert!(extract_text_query_terms(&request).unwrap().is_empty());
}

#[test]
fn request_without_filter_has_no_terms() {
    let mut request = RawDocumentBuf::new();
    request.append("find", "things");
    assert!(extract_text_query_terms(&request).unwrap().is_empty());
    assert!(extract_text_query_terms(&RawDocumentBuf::new()).unwrap().is_empty());
}

#[test]
fn filter_that_is_no_document_has_no_terms() {
    let mut request = RawDocumentBuf::new();
    request.append("filter", "$text $search red");
    assert!(extract_text_query_terms(&request).unwrap().is_empty());
    let mut request = RawDocumentBuf::new();
    request.append("filter", 7i32);
    assert!(extract_text_query_terms(&request).unwrap().is_empty());
}

#[test]
fn filter_without_text_clause_has_no_terms() {
    let mut filter = RawDocumentBuf::new();
    filter.append("name", "red bicycle");
    filter.append("$search", "red bicycle");
    filter.append("text", text_filter("red"));
    let request = request_with_filter(filter);
    assert!(extract_text_query_terms(&request).unwrap().is_empty());
}

#[test]
fn text_clause_that_is_no_document_has_no_terms() {
    let mut filter = RawDocumentBuf::new();
    filter.append("$text", "red bicycle");
    let request = request_with_filter(filter);
    assert!(extract_text_query_terms(&request).unwrap().is_empty());
}

#[test]
fn search_value_that_is_no_string_has_no_terms() {
    let mut clause = RawDocumentBuf::new();
    clause.append("$search", 42i32);
    clause.append("$language", "en us");
    let mut filter = RawDocumentBuf::new();
    filter.append("$text", clause);
    let request = request_with_filter(filter);
    assert!(extract_text_query_terms(&request).unwrap().is_empty());
}

#[test]
fn text_clause_below_the_top_level_is_not_read() {
    let mut nested = RawDocumentBuf::new();
    nested.append("inner", text_filter("red bicycle"));
    let request = request_with_filter(nested);
    assert!(extract_text_query_terms(&request).unwrap().is_empty());
    let mut request = RawDocumentBuf::new();
    request.append("$text", text_filter("red"));
    assert!(extract_text_query_terms(&request).unwrap().is_empty());
}

#[test]
fn several_clauses_contribute_in_order() {
    let mut first = RawDocumentBuf::new();
    first.append("$search", "one two");
    first.append("$caseSensitive", true);
    first.append("$search", "three");
    let mut second = RawDocumentBuf::new();
    second.append("$search", "four one");
    let mut filter = RawDocumentBuf::new();
    filter.append("$text", first);
    filter.append("price", 3i32);
    filter.append("$text", second);
    let request = request_with_filter(filter);
    assert_eq!(
        extract_text_query_terms(&request).unwrap(),
        strings(&["one", "two", "three", "four", "one"])
    );
}

#[test]
fn only_the_first_filter_field_is_read() {
    let mut request = RawDocumentBuf::new();
    request.append("filter", text_filter("first"));
    request.append("filter", text_filter("second"));
    assert_eq!(extract_text_query_terms(&request).unwrap(), strings(&["first"]));
}

#[test]
fn malformed_request_is_a_decode_error() {
    let request = truncated_document();
    assert!(matches!(extract_text_query_terms(&request), Err(QueryError::Decode(_))));
}

#[test]
fn malformed_filter_is_a_decode_error() {
    let request = request_with_filter(truncated_document());
    assert!(matches!(extract_text_query_terms(&request), Err(QueryError::Decode(_))));
}

#[test]
fn malformed_text_clause_is_a_decode_error() {
    let mut filter = RawDocumentBuf::new();
    filter.append("$text", search_clause("found before"));
    filter.append("$text", truncated_document());
    let request = request_with_filter(filter);
    assert!(matches!(extract_text_query_terms(&request), Err(QueryError::Decode(_))));
}

#[test]
fn malformed_document_under_another_key_is_not_read() {
    let mut filter = RawDocumentBuf::new();
    filter.append("other", truncated_document());
    filter.append("$text", search_clause("kept"));
    let request = request_with_filter(filter);
    assert_eq!(extract_text_query_terms(&request).unwrap(), strings(&["kept"]));
}

#[test]
fn decode_error_is_the_decoders_own() {
    let request = truncated_document();
    let expected = request.get("filter").unwrap_err();
    match extract_text_query_terms(&request) {
        Err(QueryError::Decode(error)) => assert_eq!(error, expected),
        other => panic!("expected a decode error, got {:?}", other),
    }
}
