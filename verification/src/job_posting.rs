//! Job postings: the primary entity of the board.
//!
//! A posting is keyed by its generated identifier and carries required
//! text fields, optional fields that are omitted entirely when absent,
//! a closed-set job type token, nested composites (address, pay,
//! expected hours), and its timestamps.  The city is additionally
//! mirrored to a top-level attribute solely to support the location
//! index; decoding reads the nested address, never the mirror.
//!
//! Timestamps are carried as milliseconds since the epoch and encoded
//! as numeric attributes.

use vstd::prelude::*;

use crate::address::{opt_view, Address};
use crate::attr::{is_n_u64, is_s, is_string_list, lookup, strings_view, AttrMap, AttrValue};
use crate::entity::DynamoDbEntity;
use crate::error::AppError;
use crate::num::{
    format_u64, lemma_parse_format_round_trip, parse_u64, spec_parse_u64,
};
use crate::pay::{Pay, PayV};

verus! {

/// The kind of engagement: a closed set of job type tokens.
#[derive(Clone, Copy, Debug, PartialEq, Eq, Hash, Structural)]
pub enum JobTypeOption {
    FullTime,
    PartTime,
    Contract,
    Temporary,
    Seasonal,
    Remote,
}

impl JobTypeOption {
    /// The fixed token this job type is stored as.
    pub open spec fn spec_token(self) -> Seq<char> {
        match self {
            JobTypeOption::FullTime => "FULL_TIME"@,
            JobTypeOption::PartTime => "PART_TIME"@,
            JobTypeOption::Contract => "CONTRACT"@,
            JobTypeOption::Temporary => "TEMPORARY"@,
            JobTypeOption::Seasonal => "SEASONAL"@,
            JobTypeOption::Remote => "REMOTE"@,
        }
    }

    /// The job type a token denotes; nothing outside the closed set.
    pub open spec fn spec_from_token(s: Seq<char>) -> Option<JobTypeOption> {
        if s == "FULL_TIME"@ {
            Some(JobTypeOption::FullTime)
        } else if s == "PART_TIME"@ {
            Some(JobTypeOption::PartTime)
        } else if s == "CONTRACT"@ {
            Some(JobTypeOption::Contract)
        } else if s == "TEMPORARY"@ {
            Some(JobTypeOption::Temporary)
        } else if s == "SEASONAL"@ {
            Some(JobTypeOption::Seasonal)
        } else if s == "REMOTE"@ {
            Some(JobTypeOption::Remote)
        } else {
            None
        }
    }

    pub fn to_string(&self) -> (r: String)
        ensures
            r@ == self.spec_token(),
    {
        match self {
            JobTypeOption::FullTime => "FULL_TIME".to_owned(),
            JobTypeOption::PartTime => "PART_TIME".to_owned(),
            JobTypeOption::Contract => "CONTRACT".to_owned(),
            JobTypeOption::Temporary => "TEMPORARY".to_owned(),
            JobTypeOption::Seasonal => "SEASONAL".to_owned(),
            JobTypeOption::Remote => "REMOTE".to_owned(),
        }
    }

    pub fn to_str(&self) -> (r: &str)
        ensures
            r@ == self.spec_token(),
    {
        match self {
            JobTypeOption::FullTime => "FULL_TIME",
            JobTypeOption::PartTime => "PART_TIME",
            JobTypeOption::Contract => "CONTRACT",
            JobTypeOption::Temporary => "TEMPORARY",
            JobTypeOption::Seasonal => "SEASONAL",
            JobTypeOption::Remote => "REMOTE",
        }
    }

    /// Reads a token back; fails on anything outside the closed set.
    pub fn from_string(s: &str) -> (r: Result<JobTypeOption, AppError>)
        ensures
            match r {
                Ok(v) => Self::spec_from_token(s@) == Some(v),
                Err(e) => Self::spec_from_token(s@) is None && (e matches AppError::ValidationError(m)
                    && m@ == "Cannot perform from_string on JobTypeOption input"@),
            },
    {
        let t: String = s.to_owned();
        if t == "FULL_TIME".to_owned() {
            Ok(JobTypeOption::FullTime)
        } else if t == "PART_TIME".to_owned() {
            Ok(JobTypeOption::PartTime)
        } else if t == "CONTRACT".to_owned() {
            Ok(JobTypeOption::Contract)
        } else if t == "TEMPORARY".to_owned() {
            Ok(JobTypeOption::Temporary)
        } else if t == "SEASONAL".to_owned() {
            Ok(JobTypeOption::Seasonal)
        } else if t == "REMOTE".to_owned() {
            Ok(JobTypeOption::Remote)
        } else {
            Err(AppError::ValidationError("Cannot perform from_string on JobTypeOption input".to_owned()))
        }
    }
}

/// Encoding any job type and decoding the token yields that type again.
pub proof fn lemma_job_type_token_round_trip(v: JobTypeOption)
    ensures
        JobTypeOption::spec_from_token(v.spec_token()) == Some(v),
{
    reveal_strlit("FULL_TIME");
    reveal_strlit("PART_TIME");
    reveal_strlit("CONTRACT");
    reveal_strlit("TEMPORARY");
    reveal_strlit("SEASONAL");
    reveal_strlit("REMOTE");
    assert("PART_TIME"@[0] != "FULL_TIME"@[0]);
    assert("CONTRACT"@.len() != "FULL_TIME"@.len());
    assert("TEMPORARY"@[0] != "FULL_TIME"@[0]);
    assert("TEMPORARY"@[0] != "PART_TIME"@[0]);
    assert("TEMPORARY"@.len() != "CONTRACT"@.len());
    assert("SEASONAL"@.len() != "FULL_TIME"@.len());
    assert("SEASONAL"@[0] != "CONTRACT"@[0]);
    assert("REMOTE"@.len() != "FULL_TIME"@.len());
    assert("REMOTE"@.len() != "CONTRACT"@.len());
}

/// The mathematical content of an `ExpectedHoursRange`.
pub ghost struct ExpectedHoursRangeV {
    pub min: u8,
    pub max: u8,
}

/// Weekly hours the role expects, as an inclusive range.
#[derive(Clone, Copy, Debug)]
pub struct ExpectedHoursRange {
    pub min: u8,
    pub max: u8,
}

/// Caller-facing input carrying the same fields as `ExpectedHoursRange`.
#[derive(Clone, Copy, Debug)]
pub struct ExpectedHoursRangeInput {
    pub min: u8,
    pub max: u8,
}

impl View for ExpectedHoursRange {
    type V = ExpectedHoursRangeV;

    open spec fn view(&self) -> ExpectedHoursRangeV {
        ExpectedHoursRangeV { min: self.min, max: self.max }
    }
}

impl From<ExpectedHoursRangeInput> for ExpectedHoursRange {
    fn from(input: ExpectedHoursRangeInput) -> (r: Self) {
        ExpectedHoursRange { min: input.min, max: input.max }
    }
}

impl vstd::std_specs::convert::FromSpecImpl<ExpectedHoursRangeInput> for ExpectedHoursRange {
    open spec fn obeys_from_spec() -> bool {
        true
    }

    open spec fn from_spec(input: ExpectedHoursRangeInput) -> ExpectedHoursRange {
        ExpectedHoursRange { min: input.min, max: input.max }
    }
}

impl From<ExpectedHoursRange> for ExpectedHoursRangeInput {
    fn from(expected_hours: ExpectedHoursRange) -> (r: Self) {
        ExpectedHoursRangeInput { min: expected_hours.min, max: expected_hours.max }
    }
}

impl vstd::std_specs::convert::FromSpecImpl<ExpectedHoursRange> for ExpectedHoursRangeInput {
    open spec fn obeys_from_spec() -> bool {
        true
    }

    open spec fn from_spec(expected_hours: ExpectedHoursRange) -> ExpectedHoursRangeInput {
        ExpectedHoursRangeInput { min: expected_hours.min, max: expected_hours.max }
    }
}

impl ExpectedHoursRange {
    pub fn new(min: u8, max: u8) -> (r: Self)
        ensures
            r == (ExpectedHoursRange { min, max }),
    {
        ExpectedHoursRange { min, max }
    }

    /// Does the nested map `m` encode exactly this range?
    pub open spec fn encodes(self, m: Map<Seq<char>, AttrValue>) -> bool {
        &&& m.dom() == set!["min"@, "max"@]
        &&& is_n_u64(m["min"@], self.min as u64)
        &&& is_n_u64(m["max"@], self.max as u64)
    }

    /// The range a nested map decodes to, if any.
    pub open spec fn spec_decode_map(m: Map<Seq<char>, AttrValue>) -> Option<ExpectedHoursRangeV> {
        match (req_n(m, "min"@), req_n(m, "max"@)) {
            (Some(lo), Some(hi)) => if lo <= u8::MAX as u64 && hi <= u8::MAX as u64 {
                Some(ExpectedHoursRangeV { min: lo as u8, max: hi as u8 })
            } else {
                None
            },
            _ => None,
        }
    }

    /// The range an attribute decodes to: a nested map that parses,
    /// else nothing.
    pub open spec fn spec_decode(av: AttrValue) -> Option<ExpectedHoursRangeV> {
        match av {
            AttrValue::M(m) => Self::spec_decode_map(m@),
            _ => None,
        }
    }

    /// Encodes this range as a nested attribute map of two numbers.
    pub fn to_attribute_value(&self) -> (r: AttrValue)
        ensures
            r matches AttrValue::M(m) && self.encodes(m@),
    {
        let mut item = AttrMap::new();
        item.insert("min".to_owned(), AttrValue::N(format_u64(self.min as u64)));
        item.insert("max".to_owned(), AttrValue::N(format_u64(self.max as u64)));
        proof {
            reveal_strlit("min");
            reveal_strlit("max");
            assert("min"@[1] != "max"@[1]);
            assert(item@.dom() =~= set!["min"@, "max"@]);
        }
        AttrValue::M(item)
    }

    /// Reads a range back; fails on a wrong shape or a bound out of
    /// range.
    pub fn from_attribute_value(av: &AttrValue) -> (r: Option<Self>)
        ensures
            r is Some <==> Self::spec_decode(*av) is Some,
            r matches Some(h) ==> Self::spec_decode(*av) == Some(h@),
    {
        match av {
            AttrValue::M(item) => {
                let min = match item.get("min") {
                    Some(AttrValue::N(s)) => match parse_u64(s.as_str()) {
                        Some(v) => {
                            if v <= u8::MAX as u64 {
                                v as u8
                            } else {
                                return None;
                            }
                        },
                        None => {
                            return None;
                        },
                    },
                    _ => {
                        return None;
                    },
                };
                let max = match item.get("max") {
                    Some(AttrValue::N(s)) => match parse_u64(s.as_str()) {
                        Some(v) => {
                            if v <= u8::MAX as u64 {
                                v as u8
                            } else {
                                return None;
                            }
                        },
                        None => {
                            return None;
                        },
                    },
                    _ => {
                        return None;
                    },
                };
                Some(ExpectedHoursRange { min, max })
            },
            _ => None,
        }
    }
}

/// Round-trip: any encoding of an hours range decodes back to it.
pub proof fn lemma_hours_round_trip(h: ExpectedHoursRange, m: Map<Seq<char>, AttrValue>)
    requires
        h.encodes(m),
    ensures
        ExpectedHoursRange::spec_decode_map(m) == Some(h@),
{
    lemma_parse_format_round_trip(h.min as u64);
    lemma_parse_format_round_trip(h.max as u64);
}

/// A required string attribute's characters, if rightly shaped.
pub open spec fn req_s(m: Map<Seq<char>, AttrValue>, k: Seq<char>) -> Option<Seq<char>> {
    match lookup(m, k) {
        Some(AttrValue::S(s)) => Some(s@),
        _ => None,
    }
}

/// An optional string attribute: absent is fine; a present non-string
/// fails.
pub open spec fn opt_s(m: Map<Seq<char>, AttrValue>, k: Seq<char>) -> Option<
    Option<Seq<char>>,
> {
    match lookup(m, k) {
        None => Some(None),
        Some(AttrValue::S(s)) => Some(Some(s@)),
        Some(_) => None,
    }
}

/// A required numeric attribute's value, if it parses.
pub open spec fn req_n(m: Map<Seq<char>, AttrValue>, k: Seq<char>) -> Option<u64> {
    match lookup(m, k) {
        Some(AttrValue::N(s)) => spec_parse_u64(s@),
        _ => None,
    }
}

/// The contents of an all-string attribute list; any other element
/// shape fails.
pub open spec fn string_list_of(items: Seq<AttrValue>) -> Option<Seq<Seq<char>>> {
    if forall|i: int| 0 <= i < items.len() ==> #[trigger] items[i] is S {
        Some(
            items.map_values(
                |v: AttrValue|
                    match v {
                        AttrValue::S(s) => s@,
                        _ => Seq::empty(),
                    },
            ),
        )
    } else {
        None
    }
}

/// An optional list attribute of strings: absent is fine; a present
/// non-list, or a list with a non-string element, fails.
pub open spec fn opt_string_list(m: Map<Seq<char>, AttrValue>, k: Seq<char>) -> Option<
    Option<Seq<Seq<char>>>,
> {
    match lookup(m, k) {
        None => Some(None),
        Some(AttrValue::L(items)) => match string_list_of(items@) {
            Some(l) => Some(Some(l)),
            None => None,
        },
        Some(_) => None,
    }
}

/// Encodes a string vector as a list attribute, element for element.
fn encode_string_list(items: &Vec<String>) -> (r: AttrValue)
    ensures
        is_string_list(r, strings_view(items@)),
{
    let mut out: Vec<AttrValue> = Vec::new();
    let n = items.len();
    let mut i: usize = 0;
    while i < n
        invariant
            0 <= i <= n,
            n == items@.len(),
            out@.len() == i,
            forall|j: int| 0 <= j < i ==> is_s(#[trigger] out@[j], items@[j]@),
        decreases n - i,
    {
        out.push(AttrValue::S(items[i].clone()));
        i = i + 1;
    }
    proof {
        assert(forall|j: int|
            0 <= j < items@.len() ==> #[trigger] strings_view(items@)[j] == items@[j]@);
    }
    AttrValue::L(out)
}

/// Decodes a list attribute's elements; fails on any non-string
/// element rather than skipping it.
fn decode_string_list(items: &Vec<AttrValue>) -> (r: Option<Vec<String>>)
    ensures
        r is Some <==> string_list_of(items@) is Some,
        r matches Some(v) ==> string_list_of(items@) == Some(strings_view(v@)),
{
    let mut out: Vec<String> = Vec::new();
    let n = items.len();
    let mut i: usize = 0;
    while i < n
        invariant
            0 <= i <= n,
            n == items@.len(),
            out@.len() == i,
            forall|j: int| 0 <= j < i ==> #[trigger] items@[j] is S,
            forall|j: int|
                0 <= j < i ==> #[trigger] out@[j]@ == (match items@[j] {
                    AttrValue::S(s) => s@,
                    _ => Seq::empty(),
                }),
        decreases n - i,
    {
        match &items[i] {
            AttrValue::S(s) => {
                out.push(s.clone());
            },
            _ => {
                proof {
                    assert(!(items@[i as int] is S));
                }
                return None;
            },
        }
        i = i + 1;
    }
    proof {
        let f = |v: AttrValue|
            match v {
                AttrValue::S(s) => s@,
                _ => Seq::<char>::empty(),
            };
        assert(strings_view(out@) =~= items@.map_values(f));
    }
    Some(out)
}

/// If a list attribute encodes given contents, decoding yields exactly
/// those contents.
pub proof fn lemma_string_list_round_trip(av: AttrValue, contents: Seq<Seq<char>>)
    requires
        is_string_list(av, contents),
    ensures
        av matches AttrValue::L(items) && string_list_of(items@) == Some(contents),
{
    let items = av->L_0;
    let f = |v: AttrValue|
        match v {
            AttrValue::S(s) => s@,
            _ => Seq::<char>::empty(),
        };
    assert(items@.map_values(f) =~= contents);
}

/// The mathematical content of a `JobPosting`.
pub ghost struct JobPostingV {
    pub id: Seq<char>,
    pub job_title: Seq<char>,
    pub employer_name: Seq<char>,
    pub employer_url: Seq<char>,
    pub address: crate::address::AddressV,
    pub pay: Option<PayV>,
    pub job_type: JobTypeOption,
    pub link_to_application: Option<Seq<char>>,
    pub job_description: Seq<char>,
    pub employee_responsibilities: Option<Seq<Seq<char>>>,
    pub experience_requirements: Option<Seq<Seq<char>>>,
    pub extra_info: Option<Seq<char>>,
    pub expected_hours: ExpectedHoursRangeV,
    pub created_at: u64,
    pub updated_at: u64,
}

/// A job posting as persisted in the store.
#[derive(Clone, Debug)]
pub struct JobPosting {
    pub id: String,
    pub job_title: String,
    pub employer_name: String,
    pub employer_url: String,
    pub address: Address,
    pub pay: Option<Pay>,
    pub job_type: JobTypeOption,
    pub link_to_application: Option<String>,
    pub job_description: String,
    pub employee_responsibilities: Option<Vec<String>>,
    pub experience_requirements: Option<Vec<String>>,
    pub extra_info: Option<String>,
    pub expected_hours: ExpectedHoursRange,
    pub created_at: u64,
    pub updated_at: u64,
}

/// The view of an optional string vector.
pub open spec fn opt_strings_view(v: Option<Vec<String>>) -> Option<Seq<Seq<char>>> {
    match v {
        Some(items) => Some(strings_view(items@)),
        None => None,
    }
}

/// The view of an optional pay.
pub open spec fn opt_pay_view(p: Option<Pay>) -> Option<PayV> {
    match p {
        Some(pay) => Some(pay@),
        None => None,
    }
}

impl View for JobPosting {
    type V = JobPostingV;

    open spec fn view(&self) -> JobPostingV {
        JobPostingV {
            id: self.id@,
            job_title: self.job_title@,
            employer_name: self.employer_name@,
            employer_url: self.employer_url@,
            address: self.address@,
            pay: opt_pay_view(self.pay),
            job_type: self.job_type,
            link_to_application: opt_view(self.link_to_application),
            job_description: self.job_description@,
            employee_responsibilities: opt_strings_view(self.employee_responsibilities),
            experience_requirements: opt_strings_view(self.experience_requirements),
            extra_info: opt_view(self.extra_info),
            expected_hours: self.expected_hours@,
            created_at: self.created_at,
            updated_at: self.updated_at,
        }
    }
}

impl JobPosting {
    /// Builds a posting, stamping both timestamps with the current
    /// time; fails exactly on a job type token outside the closed set,
    /// before any store interaction.  The identifier becomes the
    /// primary key, so it must not be empty.
    pub fn new(
        id: String,
        job_title: String,
        employer_name: String,
        employer_url: String,
        address: Address,
        pay: Option<Pay>,
        job_type_string: String,
        link_to_application: Option<String>,
        job_description: String,
        employee_responsibilities: Option<Vec<String>>,
        experience_requirements: Option<Vec<String>>,
        extra_info: Option<String>,
        expected_hours: ExpectedHoursRange,
    ) -> (r: Result<Self, AppError>)
        requires
            id@.len() > 0,
        ensures
            match r {
                Ok(p) => {
                    &&& JobTypeOption::spec_from_token(job_type_string@) == Some(p.job_type)
                    &&& p.id == id
                    &&& p.spec_primary_key().len() > 0
                    &&& p.job_title == job_title
                    &&& p.employer_name == employer_name
                    &&& p.employer_url == employer_url
                    &&& p.address == address
                    &&& p.pay == pay
                    &&& p.link_to_application == link_to_application
                    &&& p.job_description == job_description
                    &&& p.employee_responsibilities == employee_responsibilities
                    &&& p.experience_requirements == experience_requirements
                    &&& p.extra_info == extra_info
                    &&& p.expected_hours == expected_hours
                    &&& p.created_at == p.updated_at
                },
                Err(e) => JobTypeOption::spec_from_token(job_type_string@) is None && (e matches AppError::ValidationError(m)
                    && m@ == "Cannot perform from_string on JobTypeOption input"@),
            },
    {
        let now: u64 = crate::time::current_millis();
        let job_type = match JobTypeOption::from_string(job_type_string.as_str()) {
            Ok(t) => t,
            Err(e) => {
                return Err(e);
            },
        };
        Ok(
            JobPosting {
                id,
                job_title,
                employer_name,
                employer_url,
                address,
                pay,
                job_type,
                link_to_application,
                job_description,
                employee_responsibilities,
                experience_requirements,
                extra_info,
                expected_hours,
                created_at: now,
                updated_at: now,
            },
        )
    }

    /// The attribute names an encoding of this posting carries: the
    /// required ones, plus one for each populated optional field.
    pub open spec fn spec_key_set(&self) -> Set<Seq<char>> {
        let base = set![
            "id"@,
            "job_title"@,
            "employer_name"@,
            "employer_url"@,
            "address"@,
            "city"@,
            "job_type"@,
            "job_description"@,
            "expected_hours"@,
            "created_at"@,
            "updated_at"@,
        ];
        let s1 = if self.pay is Some {
            base.insert("pay"@)
        } else {
            base
        };
        let s2 = if self.link_to_application is Some {
            s1.insert("link_to_application"@)
        } else {
            s1
        };
        let s3 = if self.employee_responsibilities is Some {
            s2.insert("employee_responsibilities"@)
        } else {
            s2
        };
        let s4 = if self.experience_requirements is Some {
            s3.insert("experience_requirements"@)
        } else {
            s3
        };
        if self.extra_info is Some {
            s4.insert("extra_info"@)
        } else {
            s4
        }
    }
}

impl DynamoDbEntity for JobPosting {
    open spec fn spec_table_name() -> Seq<char> {
        "JobPostings"@
    }

    open spec fn spec_primary_key(&self) -> Seq<char> {
        self.id@
    }

    open spec fn encodes(&self, m: Map<Seq<char>, AttrValue>) -> bool {
        &&& m.dom() == self.spec_key_set()
        &&& is_s(m["id"@], self.id@)
        &&& is_s(m["job_title"@], self.job_title@)
        &&& is_s(m["employer_name"@], self.employer_name@)
        &&& is_s(m["employer_url"@], self.employer_url@)
        &&& (m["address"@] matches AttrValue::M(am) && self.address.encodes(am@))
        &&& is_s(m["city"@], self.address.city@)
        &&& (self.pay matches Some(p) ==> (m["pay"@] matches AttrValue::M(pm) && p.encodes(pm@)))
        &&& is_s(m["job_type"@], self.job_type.spec_token())
        &&& (self.link_to_application matches Some(l) ==> is_s(m["link_to_application"@], l@))
        &&& is_s(m["job_description"@], self.job_description@)
        &&& (self.employee_responsibilities matches Some(v) ==> is_string_list(
            m["employee_responsibilities"@],
            strings_view(v@),
        ))
        &&& (self.experience_requirements matches Some(v) ==> is_string_list(
            m["experience_requirements"@],
            strings_view(v@),
        ))
        &&& (self.extra_info matches Some(x) ==> is_s(m["extra_info"@], x@))
        &&& (m["expected_hours"@] matches AttrValue::M(hm) && self.expected_hours.encodes(hm@))
        &&& is_n_u64(m["created_at"@], self.created_at)
        &&& is_n_u64(m["updated_at"@], self.updated_at)
    }

    open spec fn spec_decode(m: Map<Seq<char>, AttrValue>) -> Option<JobPostingV> {
        match (
            req_s(m, "id"@),
            req_s(m, "job_title"@),
            req_s(m, "employer_name"@),
            req_s(m, "employer_url"@),
            req_s(m, "job_description"@),
        ) {
            (Some(id), Some(job_title), Some(employer_name), Some(employer_url), Some(
                job_description,
            )) => match lookup(m, "address"@) {
                Some(address_av) => match Address::spec_decode(address_av) {
                    Some(address) => match req_s(m, "job_type"@) {
                        Some(token) => match JobTypeOption::spec_from_token(token) {
                            Some(job_type) => match (
                                opt_pay(m),
                                opt_s(m, "link_to_application"@),
                                opt_string_list(m, "employee_responsibilities"@),
                                opt_string_list(m, "experience_requirements"@),
                                opt_s(m, "extra_info"@),
                            ) {
                                (Some(pay), Some(link_to_application), Some(
                                    employee_responsibilities,
                                ), Some(experience_requirements), Some(extra_info)) => match lookup(
                                    m,
                                    "expected_hours"@,
                                ) {
                                    Some(hours_av) => match ExpectedHoursRange::spec_decode(
                                        hours_av,
                                    ) {
                                        Some(expected_hours) => match (
                                            req_n(m, "created_at"@),
                                            req_n(m, "updated_at"@),
                                        ) {
                                            (Some(created_at), Some(updated_at)) => Some(
                                                JobPostingV {
                                                    id,
                                                    job_title,
                                                    employer_name,
                                                    employer_url,
                                                    address,
                                                    pay,
                                                    job_type,
                                                    link_to_application,
                                                    job_description,
                                                    employee_responsibilities,
                                                    experience_requirements,
                                                    extra_info,
                                                    expected_hours,
                                                    created_at,
                                                    updated_at,
                                                },
                                            ),
                                            _ => None,
                                        },
                                        None => None,
                                    },
                                    _ => None,
                                },
                                _ => None,
                            },
                            None => None,
                        },
                        None => None,
                    },
                    None => None,
                },
                _ => None,
            },
            _ => None,
        }
    }

    open spec fn spec_touched(&self, now_millis: u64) -> JobPostingV {
        JobPostingV { updated_at: now_millis, ..self.view() }
    }

    fn table_name() -> (r: String) {
        "JobPostings".to_owned()
    }

    fn primary_key(&self) -> (r: String) {
        self.id.clone()
    }

    fn to_item(&self) -> (r: AttrMap) {
        let mut item = AttrMap::new();
        item.insert("id".to_owned(), AttrValue::S(self.id.clone()));
        item.insert("job_title".to_owned(), AttrValue::S(self.job_title.clone()));
        item.insert("employer_name".to_owned(), AttrValue::S(self.employer_name.clone()));
        item.insert("employer_url".to_owned(), AttrValue::S(self.employer_url.clone()));
        item.insert("address".to_owned(), self.address.to_attribute_value());
        item.insert("city".to_owned(), AttrValue::S(self.address.city.clone()));
        if let Some(pay) = &self.pay {
            item.insert("pay".to_owned(), pay.to_attribute_value());
        }
        item.insert("job_type".to_owned(), AttrValue::S(self.job_type.to_string()));
        if let Some(link_to_application) = &self.link_to_application {
            item.insert(
                "link_to_application".to_owned(),
                AttrValue::S(link_to_application.clone()),
            );
        }
        item.insert("job_description".to_owned(), AttrValue::S(self.job_description.clone()));
        if let Some(employee_responsibilities) = &self.employee_responsibilities {
            item.insert(
                "employee_responsibilities".to_owned(),
                encode_string_list(employee_responsibilities),
            );
        }
        if let Some(experience_requirements) = &self.experience_requirements {
            item.insert(
                "experience_requirements".to_owned(),
                encode_string_list(experience_requirements),
            );
        }
        if let Some(extra_info) = &self.extra_info {
            item.insert("extra_info".to_owned(), AttrValue::S(extra_info.clone()));
        }
        item.insert("expected_hours".to_owned(), self.expected_hours.to_attribute_value());
        item.insert("created_at".to_owned(), AttrValue::N(format_u64(self.created_at)));
        item.insert("updated_at".to_owned(), AttrValue::N(format_u64(self.updated_at)));
        proof {
            lemma_posting_keys_distinct();
            assert(item@.dom() =~= self.spec_key_set());
        }
        item
    }

    fn from_item(item: &AttrMap) -> (r: Option<Self>) {
        let id = match item.get("id") {
            Some(AttrValue::S(s)) => s.clone(),
            _ => {
                return None;
            },
        };
        let job_title = match item.get("job_title") {
            Some(AttrValue::S(s)) => s.clone(),
            _ => {
                return None;
            },
        };
        let employer_name = match item.get("employer_name") {
            Some(AttrValue::S(s)) => s.clone(),
            _ => {
                return None;
            },
        };
        let employer_url = match item.get("employer_url") {
            Some(AttrValue::S(s)) => s.clone(),
            _ => {
                return None;
            },
        };
        let job_description = match item.get("job_description") {
            Some(AttrValue::S(s)) => s.clone(),
            _ => {
                return None;
            },
        };
        let address = match item.get("address") {
            Some(av) => match Address::from_attribute_value(av) {
                Some(a) => a,
                None => {
                    return None;
                },
            },
            None => {
                return None;
            },
        };
        let job_type = match item.get("job_type") {
            Some(AttrValue::S(s)) => match JobTypeOption::from_string(s.as_str()) {
                Ok(t) => t,
                Err(_) => {
                    return None;
                },
            },
            _ => {
                return None;
            },
        };
        let pay = match item.get("pay") {
            None => None,
            Some(av) => match Pay::from_attribute_value(av) {
                Some(p) => Some(p),
                None => {
                    return None;
                },
            },
        };
        let link_to_application = match item.get("link_to_application") {
            None => None,
            Some(AttrValue::S(s)) => Some(s.clone()),
            Some(_) => {
                return None;
            },
        };
        let employee_responsibilities = match item.get("employee_responsibilities") {
            None => None,
            Some(AttrValue::L(items)) => match decode_string_list(items) {
                Some(v) => Some(v),
                None => {
                    return None;
                },
            },
            Some(_) => {
                return None;
            },
        };
        let experience_requirements = match item.get("experience_requirements") {
            None => None,
            Some(AttrValue::L(items)) => match decode_string_list(items) {
                Some(v) => Some(v),
                None => {
                    return None;
                },
            },
            Some(_) => {
                return None;
            },
        };
        let extra_info = match item.get("extra_info") {
            None => None,
            Some(AttrValue::S(s)) => Some(s.clone()),
            Some(_) => {
                return None;
            },
        };
        let expected_hours = match item.get("expected_hours") {
            Some(av) => match ExpectedHoursRange::from_attribute_value(av) {
                Some(h) => h,
                None => {
                    return None;
                },
            },
            None => {
                return None;
            },
        };
        let created_at = match item.get("created_at") {
            Some(AttrValue::N(s)) => match parse_u64(s.as_str()) {
                Some(v) => v,
                None => {
                    return None;
                },
            },
            _ => {
                return None;
            },
        };
        let updated_at = match item.get("updated_at") {
            Some(AttrValue::N(s)) => match parse_u64(s.as_str()) {
                Some(v) => v,
                None => {
                    return None;
                },
            },
            _ => {
                return None;
            },
        };
        Some(
            JobPosting {
                id,
                job_title,
                employer_name,
                employer_url,
                address,
                pay,
                job_type,
                link_to_application,
                job_description,
                employee_responsibilities,
                experience_requirements,
                extra_info,
                expected_hours,
                created_at,
                updated_at,
            },
        )
    }

    fn touch(&mut self, now_millis: u64) {
        self.updated_at = now_millis;
    }

    proof fn lemma_round_trip(&self, m: Map<Seq<char>, AttrValue>) {
        lemma_posting_keys_distinct();
        let am = m["address"@]->M_0;
        crate::address::lemma_address_round_trip(self.address, am@);
        match self.pay {
            Some(p) => {
                let pm = m["pay"@]->M_0;
                crate::pay::lemma_pay_round_trip(p, pm@);
            },
            None => {},
        }
        lemma_job_type_token_round_trip(self.job_type);
        match self.employee_responsibilities {
            Some(v) => {
                lemma_string_list_round_trip(m["employee_responsibilities"@], strings_view(v@));
            },
            None => {},
        }
        match self.experience_requirements {
            Some(v) => {
                lemma_string_list_round_trip(m["experience_requirements"@], strings_view(v@));
            },
            None => {},
        }
        let hm = m["expected_hours"@]->M_0;
        lemma_hours_round_trip(self.expected_hours, hm@);
        lemma_parse_format_round_trip(self.created_at);
        lemma_parse_format_round_trip(self.updated_at);
        assert(Self::spec_decode(m) == Some(self.view()));
    }
}

/// An optional nested pay attribute: absent is fine; a present value
/// that does not decode as a pay fails.
pub open spec fn opt_pay(m: Map<Seq<char>, AttrValue>) -> Option<Option<PayV>> {
    match lookup(m, "pay"@) {
        None => Some(None),
        Some(av) => match Pay::spec_decode(av) {
            Some(p) => Some(Some(p)),
            None => None,
        },
    }
}

/// The top-level attribute names of a posting are pairwise distinct.
proof fn lemma_posting_keys_distinct()
    ensures
        "id"@.len() == 2,
        "job_title"@.len() == 9,
        "employer_name"@.len() == 13,
        "employer_url"@.len() == 12,
        "address"@.len() == 7,
        "city"@.len() == 4,
        "pay"@.len() == 3,
        "job_type"@.len() == 8,
        "link_to_application"@.len() == 19,
        "job_description"@.len() == 15,
        "employee_responsibilities"@.len() == 25,
        "experience_requirements"@.len() == 23,
        "extra_info"@.len() == 10,
        "expected_hours"@.len() == 14,
        "created_at"@.len() == 10,
        "updated_at"@.len() == 10,
        "extra_info"@ != "created_at"@,
        "extra_info"@ != "updated_at"@,
        "created_at"@ != "updated_at"@,
{
    reveal_strlit("id");
    reveal_strlit("job_title");
    reveal_strlit("employer_name");
    reveal_strlit("employer_url");
    reveal_strlit("address");
    reveal_strlit("city");
    reveal_strlit("pay");
    reveal_strlit("job_type");
    reveal_strlit("link_to_application");
    reveal_strlit("job_description");
    reveal_strlit("employee_responsibilities");
    reveal_strlit("experience_requirements");
    reveal_strlit("extra_info");
    reveal_strlit("expected_hours");
    reveal_strlit("created_at");
    reveal_strlit("updated_at");
    assert("extra_info"@[0] != "created_at"@[0]);
    assert("extra_info"@[0] != "updated_at"@[0]);
    assert("created_at"@[0] != "updated_at"@[0]);
}

} // verus!
