//! The table schema registry: static descriptions of each table's
//! primary key, billing mode and secondary indexes.
//!
//! Every table is keyed by a single string hash key and billed
//! on demand, every index projects all attributes, and the registry is
//! assembled once and never mutated.  It is consulted only by the
//! provisioning plan; the create-table request is built from it
//! attribute for attribute.

use vstd::prelude::*;

verus! {

/// The scalar type of a key attribute.
#[derive(Clone, Copy, Debug, PartialEq, Eq, Structural)]
pub enum ScalarKind {
    S,
    N,
}

/// How a secondary index projects item attributes into itself.  Every
/// index of this system projects all attributes, trading storage cost
/// for avoiding extra lookups.
#[derive(Clone, Copy, Debug, PartialEq, Eq, Structural)]
pub enum ProjectionKind {
    All,
}

/// The capacity model a table is created with.  Every table of this
/// system is billed on demand: no pre-provisioned throughput.
#[derive(Clone, Copy, Debug, PartialEq, Eq, Structural)]
pub enum BillingKind {
    OnDemand,
}

/// The mathematical content of a `SecondaryIndex`.
pub ghost struct SecondaryIndexV {
    pub index_name: Seq<char>,
    pub key_attr: Seq<char>,
    pub key_kind: ScalarKind,
    pub projection: ProjectionKind,
}

/// A global secondary index: a named, non-unique alternate lookup path
/// keyed on one attribute; all attributes are projected.
#[derive(Debug)]
pub struct SecondaryIndex {
    pub index_name: String,
    pub key_attr: String,
    pub key_kind: ScalarKind,
    pub projection: ProjectionKind,
}

impl View for SecondaryIndex {
    type V = SecondaryIndexV;

    open spec fn view(&self) -> SecondaryIndexV {
        SecondaryIndexV {
            index_name: self.index_name@,
            key_attr: self.key_attr@,
            key_kind: self.key_kind,
            projection: self.projection,
        }
    }
}

/// The mathematical content of a `TableSchema`.
pub ghost struct TableSchemaV {
    pub table_name: Seq<char>,
    pub hash_key: Seq<char>,
    pub billing: BillingKind,
    pub indexes: Seq<SecondaryIndexV>,
}

/// A table: its name, its single string hash key, its billing mode,
/// and its secondary indexes.
#[derive(Debug)]
pub struct TableSchema {
    pub table_name: String,
    pub hash_key: String,
    pub billing: BillingKind,
    pub indexes: Vec<SecondaryIndex>,
}

impl View for TableSchema {
    type V = TableSchemaV;

    open spec fn view(&self) -> TableSchemaV {
        TableSchemaV {
            table_name: self.table_name@,
            hash_key: self.hash_key@,
            billing: self.billing,
            indexes: self.indexes@.map_values(|ix: SecondaryIndex| ix@),
        }
    }
}

/// The declared job postings table: keyed by id, billed on demand,
/// with employer, job type, location and creation time indexes.  The
/// creation time key is numeric, matching the codec's encoding of
/// `created_at`.
pub open spec fn job_postings_schema_v() -> TableSchemaV {
    TableSchemaV {
        table_name: "JobPostings"@,
        hash_key: "id"@,
        billing: BillingKind::OnDemand,
        indexes: seq![
            SecondaryIndexV {
                index_name: "EmployerIndex"@,
                key_attr: "employer_name"@,
                key_kind: ScalarKind::S,
                projection: ProjectionKind::All,
            },
            SecondaryIndexV {
                index_name: "JobTypeIndex"@,
                key_attr: "job_type"@,
                key_kind: ScalarKind::S,
                projection: ProjectionKind::All,
            },
            SecondaryIndexV {
                index_name: "LocationIndex"@,
                key_attr: "city"@,
                key_kind: ScalarKind::S,
                projection: ProjectionKind::All,
            },
            SecondaryIndexV {
                index_name: "CreatedAtIndex"@,
                key_attr: "created_at"@,
                key_kind: ScalarKind::N,
                projection: ProjectionKind::All,
            },
        ],
    }
}

/// The declared job categories table: keyed by id, with a category
/// name index.
pub open spec fn job_categories_schema_v() -> TableSchemaV {
    TableSchemaV {
        table_name: "JobCategories"@,
        hash_key: "id"@,
        billing: BillingKind::OnDemand,
        indexes: seq![
            SecondaryIndexV {
                index_name: "CategoryNameIndex"@,
                key_attr: "category_name"@,
                key_kind: ScalarKind::S,
                projection: ProjectionKind::All,
            },
        ],
    }
}

/// The declared job applications table: keyed by id, with posting,
/// applicant and status indexes.
pub open spec fn job_applications_schema_v() -> TableSchemaV {
    TableSchemaV {
        table_name: "JobApplications"@,
        hash_key: "id"@,
        billing: BillingKind::OnDemand,
        indexes: seq![
            SecondaryIndexV {
                index_name: "JobPostingIndex"@,
                key_attr: "job_posting_id"@,
                key_kind: ScalarKind::S,
                projection: ProjectionKind::All,
            },
            SecondaryIndexV {
                index_name: "ApplicantIndex"@,
                key_attr: "applicant_email"@,
                key_kind: ScalarKind::S,
                projection: ProjectionKind::All,
            },
            SecondaryIndexV {
                index_name: "StatusIndex"@,
                key_attr: "application_status"@,
                key_kind: ScalarKind::S,
                projection: ProjectionKind::All,
            },
        ],
    }
}

/// The full declared set, in the fixed order provisioning walks it.
pub open spec fn spec_registry() -> Seq<TableSchemaV> {
    seq![job_postings_schema_v(), job_categories_schema_v(), job_applications_schema_v()]
}

fn make_index(index_name: &str, key_attr: &str, key_kind: ScalarKind) -> (r: SecondaryIndex)
    ensures
        r@ == (SecondaryIndexV {
            index_name: index_name@,
            key_attr: key_attr@,
            key_kind,
            projection: ProjectionKind::All,
        }),
{
    SecondaryIndex {
        index_name: index_name.to_owned(),
        key_attr: key_attr.to_owned(),
        key_kind,
        projection: ProjectionKind::All,
    }
}

/// Builds the job postings table description.
pub fn job_postings_schema() -> (r: TableSchema)
    ensures
        r@ == job_postings_schema_v(),
{
    let mut indexes: Vec<SecondaryIndex> = Vec::new();
    indexes.push(make_index("EmployerIndex", "employer_name", ScalarKind::S));
    indexes.push(make_index("JobTypeIndex", "job_type", ScalarKind::S));
    indexes.push(make_index("LocationIndex", "city", ScalarKind::S));
    indexes.push(make_index("CreatedAtIndex", "created_at", ScalarKind::N));
    let r = TableSchema {
        table_name: "JobPostings".to_owned(),
        hash_key: "id".to_owned(),
        billing: BillingKind::OnDemand,
        indexes,
    };
    proof {
        assert(r@.indexes =~= job_postings_schema_v().indexes);
    }
    r
}

/// Builds the job categories table description.
pub fn job_categories_schema() -> (r: TableSchema)
    ensures
        r@ == job_categories_schema_v(),
{
    let mut indexes: Vec<SecondaryIndex> = Vec::new();
    indexes.push(make_index("CategoryNameIndex", "category_name", ScalarKind::S));
    let r = TableSchema {
        table_name: "JobCategories".to_owned(),
        hash_key: "id".to_owned(),
        billing: BillingKind::OnDemand,
        indexes,
    };
    proof {
        assert(r@.indexes =~= job_categories_schema_v().indexes);
    }
    r
}

/// Builds the job applications table description.
pub fn job_applications_schema() -> (r: TableSchema)
    ensures
        r@ == job_applications_schema_v(),
{
    let mut indexes: Vec<SecondaryIndex> = Vec::new();
    indexes.push(make_index("JobPostingIndex", "job_posting_id", ScalarKind::S));
    indexes.push(make_index("ApplicantIndex", "applicant_email", ScalarKind::S));
    indexes.push(make_index("StatusIndex", "application_status", ScalarKind::S));
    let r = TableSchema {
        table_name: "JobApplications".to_owned(),
        hash_key: "id".to_owned(),
        billing: BillingKind::OnDemand,
        indexes,
    };
    proof {
        assert(r@.indexes =~= job_applications_schema_v().indexes);
    }
    r
}

/// Builds the full declared registry, in provisioning order.
pub fn registry() -> (r: Vec<TableSchema>)
    ensures
        r@.map_values(|t: TableSchema| t@) == spec_registry(),
{
    let mut r: Vec<TableSchema> = Vec::new();
    r.push(job_postings_schema());
    r.push(job_categories_schema());
    r.push(job_applications_schema());
    proof {
        assert(r@.map_values(|t: TableSchema| t@) =~= spec_registry());
    }
    r
}

impl TableSchema {
    /// The attribute-type declarations a create-table request carries:
    /// the string hash key first, then each index key with its type, in
    /// index order.
    pub fn attribute_definitions(&self) -> (r: Vec<(String, ScalarKind)>)
        ensures
            r@.len() == 1 + self.indexes@.len(),
            r@[0].0@ == self.hash_key@,
            r@[0].1 == ScalarKind::S,
            forall|i: int|
                0 <= i < self.indexes@.len() ==> (#[trigger] r@[i + 1]).0@
                    == self.indexes@[i]@.key_attr && r@[i + 1].1 == self.indexes@[i]@.key_kind,
    {
        let mut r: Vec<(String, ScalarKind)> = Vec::new();
        r.push((self.hash_key.clone(), ScalarKind::S));
        let n = self.indexes.len();
        let mut i: usize = 0;
        while i < n
            invariant
                0 <= i <= n,
                n == self.indexes@.len(),
                r@.len() == 1 + i,
                r@[0].0@ == self.hash_key@,
                r@[0].1 == ScalarKind::S,
                forall|j: int|
                    0 <= j < i ==> (#[trigger] r@[j + 1]).0@ == self.indexes@[j]@.key_attr && r@[j
                        + 1].1 == self.indexes@[j]@.key_kind,
            decreases n - i,
        {
            let ghost prev = r@;
            r.push((self.indexes[i].key_attr.clone(), self.indexes[i].key_kind));
            proof {
                assert(r@[i as int + 1].0@ == self.indexes@[i as int]@.key_attr);
                assert(r@[i as int + 1].1 == self.indexes@[i as int]@.key_kind);
                assert(forall|j: int| 0 <= j < i ==> #[trigger] r@[j + 1] == prev[j + 1]);
            }
            i = i + 1;
        }
        r
    }
}

} // verus!
