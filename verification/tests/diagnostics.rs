use bson::RawDocumentBuf;
use pisa_query::diagnostics::optimize_query_execution_plan;
use pisa_query::error::QueryError;

fn request_for(search: &str) -> RawDocumentBuf {
    let mut clause = RawDocumentBuf::new();
    clause.append("$search", search);
    let mut filter = RawDocumentBuf::new();
    filter.append("$text", clause);
    let mut request = RawDocumentBuf::new();
    request.append("filter", filter);
    request
}

#[test]
fn report_describes_the_plan() {
    let mut request = request_for("red mountain bicycle");
    let mut sort = RawDocumentBuf::new();
    sort.append("price", 1i32);
    request.append("sort", sort);
    request.append("limit", 25i32);
    let report = optimize_query_execution_plan(&request, 10).unwrap();
    let plan = report.plan.unwrap();
    assert_eq!(plan.pisa_algorithm, "BlockMaxWand");
    assert_eq!(plan.estimated_cost, 200);
    assert!(plan.use_block_max);
    assert_eq!(plan.essential_terms_count, 2);
    assert!(report.has_sort);
    assert_eq!(report.limit, Some(25));
}

#[test]
fn report_plans_for_the_probe_value_not_the_limit() {
    let mut request = request_for("one two three");
    request.append("limit", 5i32);
    let report = optimize_query_execution_plan(&request, 101).unwrap();
    assert_eq!(report.plan.unwrap().pisa_algorithm, "Wand");
    let report = optimize_query_execution_plan(&request, 100).unwrap();
    assert_eq!(report.plan.unwrap().pisa_algorithm, "BlockMaxWand");
}

#[test]
fn report_without_terms_has_no_plan() {
    let mut request = RawDocumentBuf::new();
    request.append("limit", 3i32);
    let report = optimize_query_execution_plan(&request, 10).unwrap();
    assert!(report.plan.is_none());
    assert!(!report.has_sort);
    assert_eq!(report.limit, Some(3));

    let report = optimize_query_execution_plan(&RawDocumentBuf::new(), 10).unwrap();
    assert!(report.plan.is_none());
    assert!(!report.has_sort);
    assert_eq!(report.limit, None);
}

#[test]
fn sort_must_be_a_document_and_limit_a_32_bit_integer() {
    let mut request = request_for("bicycle");
    request.append("sort", "price");
    request.append("limit", 25i64);
    let report = optimize_query_execution_plan(&request, 10).unwrap();
    assert!(!report.has_sort);
    assert_eq!(report.limit, None);
    let plan = report.plan.unwrap();
    assert_eq!(plan.pisa_algorithm, "Wand");
    assert_eq!(plan.estimated_cost, 100);
    assert!(!plan.use_block_max);
    assert_eq!(plan.essential_terms_count, 1);
}

#[test]
fn fields_that_do_not_decode_count_as_missing() {
    let mut bytes = request_for("red bicycle").into_bytes();
    bytes.pop();
    bytes.extend_from_slice(&[0x10, b'x', 0]);
    let length = bytes.len() as i32;
    bytes[..4].copy_from_slice(&length.to_le_bytes());
    let request = RawDocumentBuf::from_bytes(bytes).unwrap();
    let report = optimize_query_execution_plan(&request, 10).unwrap();
    assert!(report.plan.is_some());
    assert!(!report.has_sort);
    assert_eq!(report.limit, None);
}

#[test]
fn report_on_a_malformed_request_fails() {
    let request = RawDocumentBuf::from_bytes(vec![7, 0, 0, 0, 0x10, b'a', 0]).unwrap();
    assert!(matches!(optimize_query_execution_plan(&request, 10), Err(QueryError::Decode(_))));
}
