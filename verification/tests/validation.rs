use job_board::address::Address;

fn base_address(street: &str) -> Address {
    Address::new(
        street.to_string(),
        None,
        "Springfield".to_string(),
        "IL".to_string(),
        "USA".to_string(),
        "62704".to_string(),
    )
}

#[test]
fn a_street_address_with_a_house_number_is_valid() {
    assert!(base_address("123 Main St").validate().is_ok());
}

#[test]
fn a_post_office_box_is_valid() {
    assert!(base_address("PO Box 42").validate().is_ok());
    assert!(base_address("P.O. Box 42").validate().is_ok());
    assert!(base_address("Post Office Box 7").validate().is_ok());
}

#[test]
fn surrounding_whitespace_is_ignored_before_the_shape_check() {
    assert!(base_address("   123 Main St   ").validate().is_ok());
}

#[test]
fn a_blank_street_is_rejected_with_the_empty_field_message() {
    assert_eq!(
        base_address("   ").validate().unwrap_err(),
        "Street field cannot be empty"
    );
}

#[test]
fn a_street_with_no_house_number_and_no_box_is_rejected() {
    assert_eq!(
        base_address("Main Street").validate().unwrap_err(),
        "Street value invalid"
    );
}

#[test]
fn blank_remaining_fields_are_rejected_each_with_its_message() {
    let mut a = base_address("123 Main St");
    a.city = " ".to_string();
    assert_eq!(a.validate().unwrap_err(), "City field cannot be empty");

    let mut a = base_address("123 Main St");
    a.state = "".to_string();
    assert_eq!(a.validate().unwrap_err(), "State field cannot be empty");

    let mut a = base_address("123 Main St");
    a.country = "\t".to_string();
    assert_eq!(a.validate().unwrap_err(), "Country field cannot be empty");

    let mut a = base_address("123 Main St");
    a.zip = "  ".to_string();
    assert_eq!(a.validate().unwrap_err(), "Zip field cannot be empty");
}
