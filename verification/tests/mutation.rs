use job_board::address::AddressInput;
use job_board::attr::AttrValue;
use job_board::entity::DynamoDbEntity;
use job_board::error::AppError;
use job_board::job_posting::{ExpectedHoursRangeInput, JobPosting, JobTypeOption};
use job_board::repository::get_outcome;
use job_board::resolver::JobPostingMutation;

fn address_input() -> AddressInput {
    AddressInput {
        street: "12 Rye Road".to_string(),
        unit: None,
        city: "Springfield".to_string(),
        state: "IL".to_string(),
        country: "USA".to_string(),
        zip: "62704".to_string(),
    }
}

fn create_baker() -> Result<JobPosting, AppError> {
    JobPostingMutation.create_job_posting(
        "Baker".to_string(),
        "Bread & Co".to_string(),
        "https://bread.example".to_string(),
        address_input(),
        None,
        "FULL_TIME".to_string(),
        None,
        "Bake bread daily".to_string(),
        None,
        None,
        None,
        ExpectedHoursRangeInput { min: 35, max: 40 },
    )
}

#[test]
fn creating_a_baker_without_pay_stores_the_full_time_token_and_fetches_back() {
    let created = create_baker().expect("creation must succeed");
    assert!(matches!(created.job_type, JobTypeOption::FullTime));
    assert!(created.pay.is_none());

    let item = created.to_item();
    match item.get("job_type") {
        Some(AttrValue::S(token)) => assert_eq!(token, "FULL_TIME"),
        _ => panic!("the stored job_type attribute must be the literal token string"),
    }

    let fetched: JobPosting = get_outcome(Some(item))
        .expect("stored item must decode")
        .expect("the key just written must be present");
    assert_eq!(fetched.id, created.id);
    assert!(fetched.pay.is_none());
    assert!(matches!(fetched.job_type, JobTypeOption::FullTime));
}

#[test]
fn generated_keys_carry_the_posting_prefix_and_are_never_empty() {
    let a = create_baker().unwrap();
    let b = create_baker().unwrap();
    assert!(a.id.starts_with("job_posting-"));
    assert_eq!(a.id.len(), "job_posting-".len() + 36);
    assert_ne!(a.id, b.id);
    assert_eq!(a.primary_key(), a.id);
    assert_eq!(JobPosting::table_name(), "JobPostings");
}

#[test]
fn an_unknown_job_type_token_rejects_the_mutation_before_any_store_write() {
    let r = JobPostingMutation.create_job_posting(
        "Baker".to_string(),
        "Bread & Co".to_string(),
        "https://bread.example".to_string(),
        address_input(),
        None,
        "GIG".to_string(),
        None,
        "Bake bread daily".to_string(),
        None,
        None,
        None,
        ExpectedHoursRangeInput { min: 35, max: 40 },
    );
    assert!(matches!(r, Err(AppError::ValidationError(_))));
}
