use job_board::provision::tables_to_create;
use job_board::schema::{registry, BillingKind, ProjectionKind, ScalarKind, TableSchema};

fn names(plan: &[TableSchema]) -> Vec<String> {
    plan.iter().map(|t| t.table_name.clone()).collect()
}

#[test]
fn an_empty_store_gets_exactly_the_declared_tables_in_order() {
    let plan = tables_to_create(registry(), &Vec::new());
    assert_eq!(
        names(&plan),
        vec!["JobPostings", "JobCategories", "JobApplications"]
    );
    assert_eq!(plan[0].indexes.len(), 4);
    assert_eq!(plan[1].indexes.len(), 1);
    assert_eq!(plan[2].indexes.len(), 3);
}

#[test]
fn an_existing_table_is_skipped_without_error() {
    let existing = vec!["JobPostings".to_string()];
    let plan = tables_to_create(registry(), &existing);
    assert_eq!(names(&plan), vec!["JobCategories", "JobApplications"]);
}

#[test]
fn a_second_run_against_the_provisioned_store_plans_nothing() {
    let mut store: Vec<String> = vec!["SomeoneElsesTable".to_string()];
    let first = tables_to_create(registry(), &store);
    assert_eq!(first.len(), 3);
    for t in &first {
        store.push(t.table_name.clone());
    }
    let second = tables_to_create(registry(), &store);
    assert!(second.is_empty());
}

#[test]
fn unknown_tables_in_the_store_are_left_alone() {
    let existing = vec![
        "JobPostings".to_string(),
        "JobCategories".to_string(),
        "JobApplications".to_string(),
        "Unrelated".to_string(),
    ];
    let plan = tables_to_create(registry(), &existing);
    assert!(plan.is_empty());
}

#[test]
fn declared_schemas_carry_their_keys_and_indexes() {
    let tables = registry();
    let postings = &tables[0];
    assert_eq!(postings.table_name, "JobPostings");
    assert_eq!(postings.hash_key, "id");
    let index_names: Vec<&str> = postings
        .indexes
        .iter()
        .map(|ix| ix.index_name.as_str())
        .collect();
    assert_eq!(
        index_names,
        vec![
            "EmployerIndex",
            "JobTypeIndex",
            "LocationIndex",
            "CreatedAtIndex"
        ]
    );
    let key_attrs: Vec<&str> = postings
        .indexes
        .iter()
        .map(|ix| ix.key_attr.as_str())
        .collect();
    assert_eq!(
        key_attrs,
        vec!["employer_name", "job_type", "city", "created_at"]
    );
    let applications = &tables[2];
    assert_eq!(applications.hash_key, "id");
    assert_eq!(applications.indexes[2].index_name, "StatusIndex");
    assert_eq!(applications.indexes[2].key_attr, "application_status");
}

#[test]
fn every_table_is_on_demand_and_every_index_projects_all_attributes() {
    for table in registry() {
        assert_eq!(table.billing, BillingKind::OnDemand);
        for index in &table.indexes {
            assert_eq!(index.projection, ProjectionKind::All);
        }
    }
}

#[test]
fn the_creation_time_index_key_is_numeric_like_the_encoded_timestamp() {
    let tables = registry();
    let created_at = &tables[0].indexes[3];
    assert_eq!(created_at.index_name, "CreatedAtIndex");
    assert_eq!(created_at.key_kind, ScalarKind::N);
}

#[test]
fn attribute_definitions_cover_the_hash_key_and_every_index_key() {
    let tables = registry();
    let defs = tables[0].attribute_definitions();
    let got: Vec<(&str, ScalarKind)> = defs.iter().map(|d| (d.0.as_str(), d.1)).collect();
    assert_eq!(
        got,
        vec![
            ("id", ScalarKind::S),
            ("employer_name", ScalarKind::S),
            ("job_type", ScalarKind::S),
            ("city", ScalarKind::S),
            ("created_at", ScalarKind::N),
        ]
    );
}
