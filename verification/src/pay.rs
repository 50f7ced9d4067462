//! Pay: a cadence drawn from a closed token set, and a minimum base pay.
//!
//! The cadence is encoded as one of five fixed uppercase tokens; decoding
//! any other token is a hard failure, never a default.  The minimum base
//! pay is encoded as a numeric attribute.  (The cadence's siblings were
//! once carried as string-encoded numbers; this module settles on the
//! native numeric representation for every numeric field.)

use vstd::prelude::*;

use crate::attr::{is_n_u64, is_s, lookup, AttrMap, AttrValue};
use crate::error::AppError;
use crate::num::{
    format_u64, lemma_parse_format_round_trip, parse_u64, spec_parse_u64,
};

verus! {

/// How often the pay is disbursed: a closed set of cadences.
#[derive(Clone, Copy, Debug, PartialEq, Eq, Hash, Structural)]
pub enum CadenceOption {
    Hour,
    Day,
    Week,
    Month,
    Year,
}

impl CadenceOption {
    /// The fixed token this cadence is stored as.
    pub open spec fn spec_token(self) -> Seq<char> {
        match self {
            CadenceOption::Hour => "HOUR"@,
            CadenceOption::Day => "DAY"@,
            CadenceOption::Week => "WEEK"@,
            CadenceOption::Month => "MONTH"@,
            CadenceOption::Year => "YEAR"@,
        }
    }

    /// The cadence a token denotes; nothing outside the closed set.
    pub open spec fn spec_from_token(s: Seq<char>) -> Option<CadenceOption> {
        if s == "HOUR"@ {
            Some(CadenceOption::Hour)
        } else if s == "DAY"@ {
            Some(CadenceOption::Day)
        } else if s == "WEEK"@ {
            Some(CadenceOption::Week)
        } else if s == "MONTH"@ {
            Some(CadenceOption::Month)
        } else if s == "YEAR"@ {
            Some(CadenceOption::Year)
        } else {
            None
        }
    }

    pub fn to_string(&self) -> (r: String)
        ensures
            r@ == self.spec_token(),
    {
        match self {
            CadenceOption::Hour => "HOUR".to_owned(),
            CadenceOption::Day => "DAY".to_owned(),
            CadenceOption::Week => "WEEK".to_owned(),
            CadenceOption::Month => "MONTH".to_owned(),
            CadenceOption::Year => "YEAR".to_owned(),
        }
    }

    pub fn to_str(&self) -> (r: &str)
        ensures
            r@ == self.spec_token(),
    {
        match self {
            CadenceOption::Hour => "HOUR",
            CadenceOption::Day => "DAY",
            CadenceOption::Week => "WEEK",
            CadenceOption::Month => "MONTH",
            CadenceOption::Year => "YEAR",
        }
    }

    /// Reads a token back; fails on anything outside the closed set.
    pub fn from_string(s: &str) -> (r: Result<CadenceOption, AppError>)
        ensures
            match r {
                Ok(v) => Self::spec_from_token(s@) == Some(v),
                Err(e) => Self::spec_from_token(s@) is None && (e matches AppError::ValidationError(m)
                    && m@ == "Cannot perform from_string on CadenceOption input"@),
            },
    {
        let t: String = s.to_owned();
        if t == "HOUR".to_owned() {
            Ok(CadenceOption::Hour)
        } else if t == "DAY".to_owned() {
            Ok(CadenceOption::Day)
        } else if t == "WEEK".to_owned() {
            Ok(CadenceOption::Week)
        } else if t == "MONTH".to_owned() {
            Ok(CadenceOption::Month)
        } else if t == "YEAR".to_owned() {
            Ok(CadenceOption::Year)
        } else {
            Err(AppError::ValidationError("Cannot perform from_string on CadenceOption input".to_owned()))
        }
    }
}

/// Encoding any cadence and decoding the token yields that cadence again.
pub proof fn lemma_cadence_token_round_trip(v: CadenceOption)
    ensures
        CadenceOption::spec_from_token(v.spec_token()) == Some(v),
{
    reveal_strlit("HOUR");
    reveal_strlit("DAY");
    reveal_strlit("WEEK");
    reveal_strlit("MONTH");
    reveal_strlit("YEAR");
    assert("DAY"@.len() != "HOUR"@.len());
    assert("WEEK"@[0] != "HOUR"@[0]);
    assert("MONTH"@.len() != "HOUR"@.len());
    assert("MONTH"@.len() != "DAY"@.len());
    assert("MONTH"@.len() != "WEEK"@.len());
    assert("YEAR"@[0] != "HOUR"@[0]);
    assert("YEAR"@.len() != "DAY"@.len());
    assert("YEAR"@[0] != "WEEK"@[0]);
}

/// The mathematical content of a `Pay`.
pub ghost struct PayV {
    pub cadence: CadenceOption,
    pub min_base_pay: u32,
}

/// What the job pays: a cadence and a minimum base amount.
#[derive(Clone, Copy, Debug)]
pub struct Pay {
    pub cadence: CadenceOption,
    pub min_base_pay: u32,
}

/// Caller-facing input carrying the same fields as `Pay`.
#[derive(Clone, Copy, Debug)]
pub struct PayInput {
    pub cadence: CadenceOption,
    pub min_base_pay: u32,
}

impl View for Pay {
    type V = PayV;

    open spec fn view(&self) -> PayV {
        PayV { cadence: self.cadence, min_base_pay: self.min_base_pay }
    }
}

impl From<PayInput> for Pay {
    fn from(input: PayInput) -> (r: Self) {
        Pay { cadence: input.cadence, min_base_pay: input.min_base_pay }
    }
}

impl vstd::std_specs::convert::FromSpecImpl<PayInput> for Pay {
    open spec fn obeys_from_spec() -> bool {
        true
    }

    open spec fn from_spec(input: PayInput) -> Pay {
        Pay { cadence: input.cadence, min_base_pay: input.min_base_pay }
    }
}

impl From<Pay> for PayInput {
    fn from(pay: Pay) -> (r: Self) {
        PayInput { cadence: pay.cadence, min_base_pay: pay.min_base_pay }
    }
}

impl vstd::std_specs::convert::FromSpecImpl<Pay> for PayInput {
    open spec fn obeys_from_spec() -> bool {
        true
    }

    open spec fn from_spec(pay: Pay) -> PayInput {
        PayInput { cadence: pay.cadence, min_base_pay: pay.min_base_pay }
    }
}

impl Pay {
    /// Builds a pay from a cadence token; fails on a token outside the
    /// closed set, before any store interaction.
    pub fn new(cadence: String, min_base_pay: u32) -> (r: Result<Self, AppError>)
        ensures
            match r {
                Ok(p) => CadenceOption::spec_from_token(cadence@) == Some(p.cadence)
                    && p.min_base_pay == min_base_pay,
                Err(e) => CadenceOption::spec_from_token(cadence@) is None && (e matches AppError::ValidationError(m)
                    && m@ == "Cannot perform from_string on CadenceOption input"@),
            },
    {
        let cadence_option = match CadenceOption::from_string(cadence.as_str()) {
            Ok(c) => c,
            Err(e) => {
                return Err(e);
            },
        };
        Ok(Pay { cadence: cadence_option, min_base_pay })
    }

    /// Does the nested map `m` encode exactly this pay?
    pub open spec fn encodes(self, m: Map<Seq<char>, AttrValue>) -> bool {
        &&& m.dom() == set!["cadence"@, "min_base_pay"@]
        &&& is_s(m["cadence"@], self.cadence.spec_token())
        &&& is_n_u64(m["min_base_pay"@], self.min_base_pay as u64)
    }

    /// The pay a nested map decodes to, if any.
    pub open spec fn spec_decode_map(m: Map<Seq<char>, AttrValue>) -> Option<PayV> {
        match lookup(m, "cadence"@) {
            Some(AttrValue::S(cs)) => match CadenceOption::spec_from_token(cs@) {
                Some(c) => match lookup(m, "min_base_pay"@) {
                    Some(AttrValue::N(ns)) => match spec_parse_u64(ns@) {
                        Some(v) => if v <= u32::MAX as u64 {
                            Some(PayV { cadence: c, min_base_pay: v as u32 })
                        } else {
                            None
                        },
                        None => None,
                    },
                    _ => None,
                },
                None => None,
            },
            _ => None,
        }
    }

    /// The pay an attribute decodes to: a nested map that parses, else
    /// nothing.
    pub open spec fn spec_decode(av: AttrValue) -> Option<PayV> {
        match av {
            AttrValue::M(m) => Self::spec_decode_map(m@),
            _ => None,
        }
    }

    /// Encodes this pay as a nested attribute map.
    pub fn to_attribute_value(&self) -> (r: AttrValue)
        ensures
            r matches AttrValue::M(m) && self.encodes(m@),
    {
        let mut item = AttrMap::new();
        item.insert("cadence".to_owned(), AttrValue::S(self.cadence.to_string()));
        item.insert("min_base_pay".to_owned(), AttrValue::N(format_u64(self.min_base_pay as u64)));
        proof {
            reveal_strlit("cadence");
            reveal_strlit("min_base_pay");
            assert("cadence"@.len() != "min_base_pay"@.len());
            assert(item@.dom() =~= set!["cadence"@, "min_base_pay"@]);
        }
        AttrValue::M(item)
    }

    /// Reads a pay back from an attribute; fails, never defaults, on a
    /// wrong shape, an unknown cadence token, or a number out of range.
    pub fn from_attribute_value(av: &AttrValue) -> (r: Option<Self>)
        ensures
            r is Some <==> Self::spec_decode(*av) is Some,
            r matches Some(p) ==> Self::spec_decode(*av) == Some(p@),
    {
        match av {
            AttrValue::M(item) => {
                let cadence = match item.get("cadence") {
                    Some(AttrValue::S(cs)) => match CadenceOption::from_string(cs.as_str()) {
                        Ok(c) => c,
                        Err(_) => {
                            return None;
                        },
                    },
                    _ => {
                        return None;
                    },
                };
                let min_base_pay = match item.get("min_base_pay") {
                    Some(AttrValue::N(ns)) => match parse_u64(ns.as_str()) {
                        Some(v) => {
                            if v <= u32::MAX as u64 {
                                v as u32
                            } else {
                                return None;
                            }
                        },
                        None => {
                            return None;
                        },
                    },
                    _ => {
                        return None;
                    },
                };
                Some(Pay { cadence, min_base_pay })
            },
            _ => None,
        }
    }
}

/// Round-trip: any encoding of a pay decodes back to the same pay.
pub proof fn lemma_pay_round_trip(p: Pay, m: Map<Seq<char>, AttrValue>)
    requires
        p.encodes(m),
    ensures
        Pay::spec_decode_map(m) == Some(p@),
{
    lemma_cadence_token_round_trip(p.cadence);
    lemma_parse_format_round_trip(p.min_base_pay as u64);
}

} // verus!
