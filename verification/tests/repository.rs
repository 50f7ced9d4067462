use job_board::address::Address;
use job_board::attr::{AttrMap, AttrValue};
use job_board::entity::DynamoDbEntity;
use job_board::error::AppError;
use job_board::job_posting::{ExpectedHoursRange, JobPosting};
use job_board::repository::{create_request, get_outcome, list_outcome, update_request};

fn posting(id: &str, title: &str) -> JobPosting {
    JobPosting::new(
        id.to_string(),
        title.to_string(),
        "Bread & Co".to_string(),
        "https://bread.example".to_string(),
        Address::new(
            "9 Oak Ave".to_string(),
            None,
            "Springfield".to_string(),
            "IL".to_string(),
            "USA".to_string(),
            "62704".to_string(),
        ),
        None,
        "FULL_TIME".to_string(),
        None,
        "Bake bread".to_string(),
        None,
        None,
        None,
        ExpectedHoursRange::new(35, 40),
    )
    .unwrap()
}

#[test]
fn get_on_an_absent_key_is_no_value_and_no_error() {
    let r: Result<Option<JobPosting>, AppError> = get_outcome(None);
    match r {
        Ok(None) => {}
        _ => panic!("absent key must yield no value and no error"),
    }
}

#[test]
fn get_on_a_stored_item_yields_the_decoded_entity() {
    let p = posting("job_posting-get", "Baker");
    let item = p.to_item();
    let r: Result<Option<JobPosting>, AppError> = get_outcome(Some(item));
    let fetched = r.expect("well-formed item must not error").expect("must be present");
    assert_eq!(fetched.id, "job_posting-get");
    assert_eq!(fetched.job_title, "Baker");
}

#[test]
fn get_on_a_corrupt_item_is_an_error_not_no_value() {
    let mut corrupt = AttrMap::new();
    corrupt.insert("id".to_string(), AttrValue::S("job_posting-x".to_string()));
    let r: Result<Option<JobPosting>, AppError> = get_outcome(Some(corrupt));
    match r {
        Err(AppError::DecodeError(_)) => {}
        _ => panic!("a corrupt stored item must be a decode error"),
    }
}

#[test]
fn list_returns_the_well_formed_item_and_skips_the_malformed_one() {
    let good = posting("job_posting-good", "Baker");
    let mut malformed = AttrMap::new();
    malformed.insert("id".to_string(), AttrValue::S("job_posting-bad".to_string()));
    malformed.insert("job_title".to_string(), AttrValue::N("7".to_string()));
    let page = vec![good.to_item(), malformed];
    let listed: Vec<JobPosting> = list_outcome(page);
    assert_eq!(listed.len(), 1);
    assert_eq!(listed[0].id, "job_posting-good");
}

#[test]
fn list_keeps_page_order() {
    let first = posting("job_posting-1", "Baker");
    let second = posting("job_posting-2", "Miller");
    let listed: Vec<JobPosting> = list_outcome(vec![first.to_item(), second.to_item()]);
    assert_eq!(listed.len(), 2);
    assert_eq!(listed[0].id, "job_posting-1");
    assert_eq!(listed[1].id, "job_posting-2");
}

#[test]
fn create_request_targets_the_entity_table_with_its_full_encoding() {
    let p = posting("job_posting-create", "Baker");
    let (table, item) = create_request(&p);
    assert_eq!(table, "JobPostings");
    match item.get("id") {
        Some(AttrValue::S(s)) => assert_eq!(s, "job_posting-create"),
        _ => panic!("encoded item must carry the primary key"),
    }
}

#[test]
fn update_request_refreshes_the_stamp_and_preserves_everything_else() {
    let mut p = posting("job_posting-update", "Baker");
    let created = p.created_at;
    let (table, item) = update_request(&mut p, created + 1000);
    assert_eq!(table, "JobPostings");
    assert_eq!(p.id, "job_posting-update");
    assert_eq!(p.created_at, created);
    assert_eq!(p.updated_at, created + 1000);
    let decoded = JobPosting::from_item(&item).expect("update encoding must decode");
    assert_eq!(decoded.id, "job_posting-update");
    assert_eq!(decoded.updated_at, created + 1000);
}

#[test]
fn an_empty_page_lists_nothing() {
    let listed: Vec<JobPosting> = list_outcome(Vec::new());
    assert!(listed.is_empty());
}
