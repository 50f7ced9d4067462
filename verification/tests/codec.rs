use job_board::address::Address;
use job_board::attr::{AttrMap, AttrValue};
use job_board::entity::DynamoDbEntity;
use job_board::error::AppError;
use job_board::job_posting::{ExpectedHoursRange, JobPosting, JobTypeOption};
use job_board::num::{format_u64, parse_u64};
use job_board::pay::{CadenceOption, Pay};

fn sample_address() -> Address {
    Address::new(
        "123 Main St".to_string(),
        Some("4B".to_string()),
        "Springfield".to_string(),
        "IL".to_string(),
        "USA".to_string(),
        "62704".to_string(),
    )
}

fn full_posting() -> JobPosting {
    JobPosting::new(
        "job_posting-test-1".to_string(),
        "Senior Baker".to_string(),
        "Bread & Co".to_string(),
        "https://bread.example".to_string(),
        sample_address(),
        Some(Pay::new("HOUR".to_string(), 25).unwrap()),
        "PART_TIME".to_string(),
        Some("https://bread.example/apply".to_string()),
        "Bake bread".to_string(),
        Some(vec!["Knead dough".to_string(), "Run ovens".to_string()]),
        Some(vec!["Two years baking".to_string()]),
        Some("Early shifts".to_string()),
        ExpectedHoursRange::new(20, 30),
    )
    .unwrap()
}

#[test]
fn round_trip_preserves_every_field() {
    let original = full_posting();
    let item = original.to_item();
    let decoded = JobPosting::from_item(&item).expect("round trip must decode");
    assert_eq!(decoded.id, original.id);
    assert_eq!(decoded.job_title, original.job_title);
    assert_eq!(decoded.employer_name, original.employer_name);
    assert_eq!(decoded.employer_url, original.employer_url);
    assert_eq!(decoded.address.street, original.address.street);
    assert_eq!(decoded.address.unit, original.address.unit);
    assert_eq!(decoded.address.city, original.address.city);
    assert_eq!(decoded.address.state, original.address.state);
    assert_eq!(decoded.address.country, original.address.country);
    assert_eq!(decoded.address.zip, original.address.zip);
    let pay = decoded.pay.expect("pay must survive");
    assert!(matches!(pay.cadence, CadenceOption::Hour));
    assert_eq!(pay.min_base_pay, 25);
    assert!(matches!(decoded.job_type, JobTypeOption::PartTime));
    assert_eq!(decoded.link_to_application, original.link_to_application);
    assert_eq!(decoded.job_description, original.job_description);
    assert_eq!(
        decoded.employee_responsibilities,
        original.employee_responsibilities
    );
    assert_eq!(
        decoded.experience_requirements,
        original.experience_requirements
    );
    assert_eq!(decoded.extra_info, original.extra_info);
    assert_eq!(decoded.expected_hours.min, 20);
    assert_eq!(decoded.expected_hours.max, 30);
    assert_eq!(decoded.created_at, original.created_at);
    assert_eq!(decoded.updated_at, original.updated_at);
}

#[test]
fn absent_optional_fields_produce_no_attribute_and_round_trip_as_absent() {
    let original = JobPosting::new(
        "job_posting-test-2".to_string(),
        "Baker".to_string(),
        "Bread & Co".to_string(),
        "https://bread.example".to_string(),
        Address::new(
            "9 Oak Ave".to_string(),
            None,
            "Springfield".to_string(),
            "IL".to_string(),
            "USA".to_string(),
            "62704".to_string(),
        ),
        None,
        "FULL_TIME".to_string(),
        None,
        "Bake bread".to_string(),
        None,
        None,
        None,
        ExpectedHoursRange::new(35, 40),
    )
    .unwrap();
    let item = original.to_item();
    assert!(item.get("pay").is_none());
    assert!(item.get("link_to_application").is_none());
    assert!(item.get("employee_responsibilities").is_none());
    assert!(item.get("experience_requirements").is_none());
    assert!(item.get("extra_info").is_none());
    let decoded = JobPosting::from_item(&item).expect("must decode");
    assert!(decoded.pay.is_none());
    assert!(decoded.link_to_application.is_none());
    assert!(decoded.employee_responsibilities.is_none());
    assert!(decoded.experience_requirements.is_none());
    assert!(decoded.extra_info.is_none());
}

#[test]
fn city_is_mirrored_for_the_location_index() {
    let item = full_posting().to_item();
    match item.get("city") {
        Some(AttrValue::S(c)) => assert_eq!(c, "Springfield"),
        _ => panic!("city mirror must be a string attribute"),
    }
}

#[test]
fn job_type_tokens_round_trip_and_unknown_tokens_fail() {
    let tokens = [
        "FULL_TIME",
        "PART_TIME",
        "CONTRACT",
        "TEMPORARY",
        "SEASONAL",
        "REMOTE",
    ];
    for token in tokens.iter() {
        let v = JobTypeOption::from_string(token).expect("closed-set token must parse");
        assert_eq!(v.to_string(), token.to_string());
        assert_eq!(v.to_str(), *token);
    }
    let err = JobTypeOption::from_string("FREELANCE").unwrap_err();
    match err {
        AppError::ValidationError(m) => {
            assert_eq!(m, "Cannot perform from_string on JobTypeOption input")
        }
        _ => panic!("unknown token must be a validation error"),
    }
    assert!(JobTypeOption::from_string("full_time").is_err());
    assert!(JobTypeOption::from_string("").is_err());
}

#[test]
fn cadence_tokens_round_trip_and_unknown_tokens_fail() {
    let tokens = ["HOUR", "DAY", "WEEK", "MONTH", "YEAR"];
    for token in tokens.iter() {
        let v = CadenceOption::from_string(token).expect("closed-set token must parse");
        assert_eq!(v.to_string(), token.to_string());
        assert_eq!(v.to_str(), *token);
    }
    let err = CadenceOption::from_string("FORTNIGHT").unwrap_err();
    match err {
        AppError::ValidationError(m) => {
            assert_eq!(m, "Cannot perform from_string on CadenceOption input")
        }
        _ => panic!("unknown token must be a validation error"),
    }
}

#[test]
fn pay_decode_fails_on_unknown_cadence_or_bad_number() {
    let good = Pay::new("WEEK".to_string(), 900).unwrap();
    let av = good.to_attribute_value();
    let back = Pay::from_attribute_value(&av).unwrap();
    assert!(matches!(back.cadence, CadenceOption::Week));
    assert_eq!(back.min_base_pay, 900);

    let mut bad_cadence = AttrMap::new();
    bad_cadence.insert("cadence".to_string(), AttrValue::S("FORTNIGHT".to_string()));
    bad_cadence.insert("min_base_pay".to_string(), AttrValue::N("900".to_string()));
    assert!(Pay::from_attribute_value(&AttrValue::M(bad_cadence)).is_none());

    let mut bad_number = AttrMap::new();
    bad_number.insert("cadence".to_string(), AttrValue::S("WEEK".to_string()));
    bad_number.insert("min_base_pay".to_string(), AttrValue::N("lots".to_string()));
    assert!(Pay::from_attribute_value(&AttrValue::M(bad_number)).is_none());

    assert!(Pay::from_attribute_value(&AttrValue::S("WEEK".to_string())).is_none());
}

#[test]
fn pay_new_rejects_tokens_outside_the_closed_set() {
    assert!(Pay::new("HOUR".to_string(), 1).is_ok());
    assert!(Pay::new("hour".to_string(), 1).is_err());
}

#[test]
fn hours_decode_fails_out_of_range() {
    let mut m = AttrMap::new();
    m.insert("min".to_string(), AttrValue::N("300".to_string()));
    m.insert("max".to_string(), AttrValue::N("40".to_string()));
    assert!(ExpectedHoursRange::from_attribute_value(&AttrValue::M(m)).is_none());
}

#[test]
fn malformed_optional_fields_fail_the_whole_decode() {
    let original = full_posting();
    let mut item = original.to_item();
    item.insert("extra_info".to_string(), AttrValue::N("7".to_string()));
    assert!(JobPosting::from_item(&item).is_none());

    let mut item2 = original.to_item();
    item2.insert(
        "employee_responsibilities".to_string(),
        AttrValue::L(vec![
            AttrValue::S("fine".to_string()),
            AttrValue::N("7".to_string()),
        ]),
    );
    assert!(JobPosting::from_item(&item2).is_none());

    let mut item3 = original.to_item();
    item3.insert("pay".to_string(), AttrValue::Null);
    assert!(JobPosting::from_item(&item3).is_none());
}

#[test]
fn missing_required_fields_fail_the_decode() {
    let mut m = AttrMap::new();
    m.insert("id".to_string(), AttrValue::S("job_posting-x".to_string()));
    assert!(JobPosting::from_item(&m).is_none());
}

#[test]
fn address_unit_null_reads_as_absent() {
    let mut m = AttrMap::new();
    m.insert("street".to_string(), AttrValue::S("9 Oak Ave".to_string()));
    m.insert("unit".to_string(), AttrValue::Null);
    m.insert("city".to_string(), AttrValue::S("Springfield".to_string()));
    m.insert("state".to_string(), AttrValue::S("IL".to_string()));
    m.insert("country".to_string(), AttrValue::S("USA".to_string()));
    m.insert("zip".to_string(), AttrValue::S("62704".to_string()));
    let a = Address::from_attribute_value(&AttrValue::M(m)).expect("must decode");
    assert!(a.unit.is_none());
}

#[test]
fn address_malformed_unit_fails_the_decode() {
    let mut m = AttrMap::new();
    m.insert("street".to_string(), AttrValue::S("9 Oak Ave".to_string()));
    m.insert("unit".to_string(), AttrValue::N("4".to_string()));
    m.insert("city".to_string(), AttrValue::S("Springfield".to_string()));
    m.insert("state".to_string(), AttrValue::S("IL".to_string()));
    m.insert("country".to_string(), AttrValue::S("USA".to_string()));
    m.insert("zip".to_string(), AttrValue::S("62704".to_string()));
    assert!(Address::from_attribute_value(&AttrValue::M(m)).is_none());
}

#[test]
fn digit_strings_format_and_parse_exactly() {
    assert_eq!(format_u64(0), "0");
    assert_eq!(format_u64(7), "7");
    assert_eq!(format_u64(1234567890), "1234567890");
    assert_eq!(format_u64(u64::MAX), "18446744073709551615");
    assert_eq!(parse_u64("0"), Some(0));
    assert_eq!(parse_u64("007"), Some(7));
    assert_eq!(parse_u64("18446744073709551615"), Some(u64::MAX));
    assert_eq!(parse_u64("18446744073709551616"), None);
    assert_eq!(parse_u64(""), None);
    assert_eq!(parse_u64("12a"), None);
    assert_eq!(parse_u64("-5"), None);
    assert_eq!(parse_u64(" 5"), None);
    assert_eq!(parse_u64(&format_u64(u64::MAX - 1)), Some(u64::MAX - 1));
}

#[test]
fn timestamps_are_stamped_equal_on_creation() {
    let p = full_posting();
    assert_eq!(p.created_at, p.updated_at);
    let item = p.to_item();
    match item.get("created_at") {
        Some(AttrValue::N(s)) => assert_eq!(parse_u64(s), Some(p.created_at)),
        _ => panic!("created_at must be a numeric attribute"),
    }
}

#[test]
fn error_messages_are_carried_by_every_category() {
    assert_eq!(
        AppError::ValidationError("bad input".to_string()).message(),
        "bad input"
    );
    assert_eq!(
        AppError::DecodeError("corrupt".to_string()).message(),
        "corrupt"
    );
    assert_eq!(AppError::DatabaseError("down".to_string()).message(), "down");
    assert_eq!(
        AppError::ProvisioningError("cannot create".to_string()).message(),
        "cannot create"
    );
    assert_eq!(
        AppError::InternalServerError("oops".to_string()).message(),
        "oops"
    );
}

#[test]
fn the_newest_binding_of_an_attribute_key_wins() {
    let mut m = AttrMap::new();
    m.insert("k".to_string(), AttrValue::S("old".to_string()));
    m.insert("k".to_string(), AttrValue::S("new".to_string()));
    match m.get("k") {
        Some(AttrValue::S(s)) => assert_eq!(s, "new"),
        _ => panic!("the key must be present as a string attribute"),
    }
    assert!(m.get("absent").is_none());
}
