//! The mutation surface the request layer invokes: the computed half of
//! creating a job posting.
//!
//! The transport, the schema wiring and the store write live in the
//! surrounding application; this half generates the identifier,
//! validates the job type token, stamps the timestamps, and builds the
//! entity to be written.

use vstd::prelude::*;
use vstd::string::StringExecFns;

use crate::address::{Address, AddressInput};
use crate::error::AppError;
use crate::job_posting::{
    ExpectedHoursRange, ExpectedHoursRangeInput, JobPosting, JobTypeOption,
};
use crate::pay::{Pay, PayInput};

verus! {

/// Relies on `uuid::Uuid::new_v4` and its `Display` rendering: a fresh
/// random identifier in hyphenated form, 36 characters long.  Nothing
/// else is assumed of the value.
#[verifier::external_body]
fn new_uuid_string() -> (r: String)
    ensures
        r@.len() == 36,
{
    uuid::Uuid::new_v4().to_string()
}

/// The mutation resolvers for job postings.
#[derive(Debug, Default)]
pub struct JobPostingMutation;

impl JobPostingMutation {
    /// Creates a new posting from caller input: generates a fresh,
    /// never-empty primary key with the posting prefix, stamps both
    /// timestamps, and fails exactly on a job type token outside the
    /// closed set - before the store would be contacted.
    pub fn create_job_posting(
        &self,
        job_title: String,
        employer_name: String,
        employer_url: String,
        address: AddressInput,
        pay: Option<PayInput>,
        job_type: String,
        link_to_application: Option<String>,
        job_description: String,
        employee_responsibilities: Option<Vec<String>>,
        experience_requirements: Option<Vec<String>>,
        extra_info: Option<String>,
        expected_hours: ExpectedHoursRangeInput,
    ) -> (r: Result<JobPosting, AppError>)
        ensures
            match r {
                Ok(p) => {
                    &&& JobTypeOption::spec_from_token(job_type@) == Some(p.job_type)
                    &&& p.id@.len() == "job_posting-"@.len() + 36
                    &&& p.id@.len() > 0
                    &&& p.id@.take("job_posting-"@.len() as int) == "job_posting-"@
                    &&& p.job_title == job_title
                    &&& p.employer_name == employer_name
                    &&& p.employer_url == employer_url
                    &&& p.address == (Address {
                        street: address.street,
                        unit: address.unit,
                        city: address.city,
                        state: address.state,
                        country: address.country,
                        zip: address.zip,
                    })
                    &&& match pay {
                        Some(pi) => p.pay == Some(
                            Pay { cadence: pi.cadence, min_base_pay: pi.min_base_pay },
                        ),
                        None => p.pay is None,
                    }
                    &&& p.link_to_application == link_to_application
                    &&& p.job_description == job_description
                    &&& p.employee_responsibilities == employee_responsibilities
                    &&& p.experience_requirements == experience_requirements
                    &&& p.extra_info == extra_info
                    &&& p.expected_hours == (ExpectedHoursRange {
                        min: expected_hours.min,
                        max: expected_hours.max,
                    })
                    &&& p.created_at == p.updated_at
                },
                Err(e) => JobTypeOption::spec_from_token(job_type@) is None && e matches AppError::ValidationError(_),
            },
    {
        let uuid = new_uuid_string();
        let id = String::from_str("job_posting-").concat(uuid.as_str());
        proof {
            reveal_strlit("job_posting-");
            assert("job_posting-"@.len() == 12);
            assert(id@.take("job_posting-"@.len() as int) =~= "job_posting-"@);
        }
        let pay_value = match pay {
            Some(p) => Some(Pay::from(p)),
            None => None,
        };
        JobPosting::new(
            id,
            job_title,
            employer_name,
            employer_url,
            Address::from(address),
            pay_value,
            job_type,
            link_to_application,
            job_description,
            employee_responsibilities,
            experience_requirements,
            extra_info,
            ExpectedHoursRange::from(expected_hours),
        )
    }
}

} // verus!
