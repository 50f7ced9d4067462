//! Postal addresses: a nested composite field of an entity.
//!
//! An address is encoded as a nested attribute map, never flattened.
//! Every field is required except the unit; an absent unit produces no
//! attribute, and an explicit null reads back as absent.  A malformed
//! nested address fails the whole parent decode.

use vstd::prelude::*;

use crate::attr::{is_s, lookup, AttrMap, AttrValue};

verus! {

/// What `str::trim` returns for the given characters: the input without
/// leading and trailing whitespace.
pub uninterp spec fn trimmed_of(s: Seq<char>) -> Seq<char>;

/// Does the fixed street-address pattern `^\d+\s+\w+.*` (a house number,
/// whitespace, then a word) match the given characters?
pub uninterp spec fn street_address_like(s: Seq<char>) -> bool;

/// Does the fixed post-office-box pattern match the given characters:
/// a case-insensitive `P.O. Box` at the start, or a `Post Office Box`
/// or `Postal Box` anywhere, each followed by a number?
pub uninterp spec fn po_box_like(s: Seq<char>) -> bool;

/// Relies on `str::trim`: removes leading and trailing whitespace; the
/// result depends on the characters alone, never grows, and an empty
/// input stays empty.
#[verifier::external_body]
fn trim_str(s: &str) -> (r: &str)
    ensures
        r@ == trimmed_of(s@),
        r@.len() <= s@.len(),
        s@.len() == 0 ==> r@.len() == 0,
{
    s.trim()
}

/// Relies on `regex::Regex::new` and `regex::Regex::is_match` with the
/// fixed pattern `^\d+\s+\w+.*`: the verdict depends on the input
/// characters alone.
#[verifier::external_body]
fn matches_street_address(s: &str) -> (r: bool)
    ensures
        r == street_address_like(s@),
{
    match regex::Regex::new(r"^\d+\s+\w+.*") {
        Ok(re) => re.is_match(s),
        Err(_) => false,
    }
}

/// Relies on `regex::Regex::new` and `regex::Regex::is_match` with the
/// fixed post-office-box pattern: the verdict depends on the input
/// characters alone.
#[verifier::external_body]
fn matches_po_box(s: &str) -> (r: bool)
    ensures
        r == po_box_like(s@),
{
    match regex::Regex::new(r"(?i)^P\.?O\.?\s*Box\s+\d+|Post\s*Office\s*Box\s+\d+|Postal\s*Box\s+\d+") {
        Ok(re) => re.is_match(s),
        Err(_) => false,
    }
}

/// The mathematical content of an `Address`.
pub ghost struct AddressV {
    pub street: Seq<char>,
    pub unit: Option<Seq<char>>,
    pub city: Seq<char>,
    pub state: Seq<char>,
    pub country: Seq<char>,
    pub zip: Seq<char>,
}

/// A postal address; only the unit is optional.
#[derive(Clone, Debug)]
pub struct Address {
    pub street: String,
    pub unit: Option<String>,
    pub city: String,
    pub state: String,
    pub country: String,
    pub zip: String,
}

/// Caller-facing input carrying the same fields as `Address`.
#[derive(Clone, Debug)]
pub struct AddressInput {
    pub street: String,
    pub unit: Option<String>,
    pub city: String,
    pub state: String,
    pub country: String,
    pub zip: String,
}

/// The view of an optional string: the characters, if present.
pub open spec fn opt_view(s: Option<String>) -> Option<Seq<char>> {
    match s {
        Some(v) => Some(v@),
        None => None,
    }
}

impl View for Address {
    type V = AddressV;

    open spec fn view(&self) -> AddressV {
        AddressV {
            street: self.street@,
            unit: opt_view(self.unit),
            city: self.city@,
            state: self.state@,
            country: self.country@,
            zip: self.zip@,
        }
    }
}

impl From<AddressInput> for Address {
    fn from(input: AddressInput) -> (r: Self) {
        Address {
            street: input.street,
            unit: input.unit,
            city: input.city,
            state: input.state,
            country: input.country,
            zip: input.zip,
        }
    }
}

impl vstd::std_specs::convert::FromSpecImpl<AddressInput> for Address {
    open spec fn obeys_from_spec() -> bool {
        true
    }

    open spec fn from_spec(input: AddressInput) -> Address {
        Address {
            street: input.street,
            unit: input.unit,
            city: input.city,
            state: input.state,
            country: input.country,
            zip: input.zip,
        }
    }
}

impl From<Address> for AddressInput {
    fn from(address: Address) -> (r: Self) {
        AddressInput {
            street: address.street,
            unit: address.unit,
            city: address.city,
            state: address.state,
            country: address.country,
            zip: address.zip,
        }
    }
}

impl vstd::std_specs::convert::FromSpecImpl<Address> for AddressInput {
    open spec fn obeys_from_spec() -> bool {
        true
    }

    open spec fn from_spec(address: Address) -> AddressInput {
        AddressInput {
            street: address.street,
            unit: address.unit,
            city: address.city,
            state: address.state,
            country: address.country,
            zip: address.zip,
        }
    }
}

impl Address {
    pub fn new(
        street: String,
        unit: Option<String>,
        city: String,
        state: String,
        country: String,
        zip: String,
    ) -> (r: Self)
        ensures
            r == (Address { street, unit, city, state, country, zip }),
    {
        Address { street, unit, city, state, country, zip }
    }

    /// Does this address pass validation: every field nonblank, and the
    /// street shaped like a street address or a post-office box?
    pub open spec fn spec_valid(&self) -> bool {
        &&& trimmed_of(self.street@).len() > 0
        &&& (street_address_like(trimmed_of(self.street@)) || po_box_like(
            trimmed_of(self.street@),
        ))
        &&& trimmed_of(self.city@).len() > 0
        &&& trimmed_of(self.state@).len() > 0
        &&& trimmed_of(self.country@).len() > 0
        &&& trimmed_of(self.zip@).len() > 0
    }

    /// The message for the first failing validation check.
    pub open spec fn spec_validation_error(&self) -> Seq<char> {
        if trimmed_of(self.street@).len() == 0 {
            "Street field cannot be empty"@
        } else if !(street_address_like(trimmed_of(self.street@)) || po_box_like(
            trimmed_of(self.street@),
        )) {
            "Street value invalid"@
        } else if trimmed_of(self.city@).len() == 0 {
            "City field cannot be empty"@
        } else if trimmed_of(self.state@).len() == 0 {
            "State field cannot be empty"@
        } else if trimmed_of(self.country@).len() == 0 {
            "Country field cannot be empty"@
        } else {
            "Zip field cannot be empty"@
        }
    }

    /// Checks the address before any store interaction: succeeds exactly
    /// when every field is nonblank and the street is plausibly shaped.
    pub fn validate(&self) -> (r: Result<(), String>)
        ensures
            r is Ok <==> self.spec_valid(),
            r matches Err(msg) ==> msg@ == self.spec_validation_error(),
    {
        let street_trimmed = trim_str(self.street.as_str());
        if street_trimmed.is_empty() {
            return Err("Street field cannot be empty".to_owned());
        }
        if !matches_street_address(street_trimmed) && !matches_po_box(street_trimmed) {
            return Err("Street value invalid".to_owned());
        }
        if trim_str(self.city.as_str()).is_empty() {
            return Err("City field cannot be empty".to_owned());
        }
        if trim_str(self.state.as_str()).is_empty() {
            return Err("State field cannot be empty".to_owned());
        }
        if trim_str(self.country.as_str()).is_empty() {
            return Err("Country field cannot be empty".to_owned());
        }
        if trim_str(self.zip.as_str()).is_empty() {
            return Err("Zip field cannot be empty".to_owned());
        }
        Ok(())
    }

    /// Does the nested map `m` encode exactly this address, with the
    /// unit attribute present exactly when the unit is?
    pub open spec fn encodes(self, m: Map<Seq<char>, AttrValue>) -> bool {
        &&& match self.unit {
            Some(u) => m.dom() == set![
                "street"@,
                "unit"@,
                "city"@,
                "state"@,
                "country"@,
                "zip"@,
            ] && is_s(m["unit"@], u@),
            None => m.dom() == set!["street"@, "city"@, "state"@, "country"@, "zip"@],
        }
        &&& is_s(m["street"@], self.street@)
        &&& is_s(m["city"@], self.city@)
        &&& is_s(m["state"@], self.state@)
        &&& is_s(m["country"@], self.country@)
        &&& is_s(m["zip"@], self.zip@)
    }

    /// The address a nested map decodes to, if any: required fields must
    /// be string attributes; the unit may be absent or an explicit null,
    /// but any other shape fails the decode.
    pub open spec fn spec_decode_map(m: Map<Seq<char>, AttrValue>) -> Option<AddressV> {
        match (
            lookup(m, "street"@),
            lookup(m, "city"@),
            lookup(m, "state"@),
            lookup(m, "country"@),
            lookup(m, "zip"@),
        ) {
            (
                Some(AttrValue::S(street)),
                Some(AttrValue::S(city)),
                Some(AttrValue::S(state)),
                Some(AttrValue::S(country)),
                Some(AttrValue::S(zip)),
            ) => {
                let base = AddressV {
                    street: street@,
                    unit: None,
                    city: city@,
                    state: state@,
                    country: country@,
                    zip: zip@,
                };
                match lookup(m, "unit"@) {
                    None => Some(base),
                    Some(AttrValue::S(u)) => Some(AddressV { unit: Some(u@), ..base }),
                    Some(AttrValue::Null) => Some(base),
                    Some(_) => None,
                }
            },
            _ => None,
        }
    }

    /// The address an attribute decodes to: a nested map that parses,
    /// else nothing.
    pub open spec fn spec_decode(av: AttrValue) -> Option<AddressV> {
        match av {
            AttrValue::M(m) => Self::spec_decode_map(m@),
            _ => None,
        }
    }

    /// Encodes this address as a nested attribute map; an absent unit
    /// produces no attribute, never a null marker.
    pub fn to_attribute_value(&self) -> (r: AttrValue)
        ensures
            r matches AttrValue::M(m) && self.encodes(m@),
    {
        let mut item = AttrMap::new();
        item.insert("street".to_owned(), AttrValue::S(self.street.clone()));
        if let Some(unit) = &self.unit {
            item.insert("unit".to_owned(), AttrValue::S(unit.clone()));
        }
        item.insert("city".to_owned(), AttrValue::S(self.city.clone()));
        item.insert("state".to_owned(), AttrValue::S(self.state.clone()));
        item.insert("country".to_owned(), AttrValue::S(self.country.clone()));
        item.insert("zip".to_owned(), AttrValue::S(self.zip.clone()));
        proof {
            reveal_strlit("street");
            reveal_strlit("unit");
            reveal_strlit("city");
            reveal_strlit("state");
            reveal_strlit("country");
            reveal_strlit("zip");
            assert("street"@.len() == 6);
            assert("unit"@.len() == 4);
            assert("city"@.len() == 4);
            assert("state"@.len() == 5);
            assert("country"@.len() == 7);
            assert("zip"@.len() == 3);
            assert("unit"@[0] != "city"@[0]);
            if self.unit is Some {
                assert(item@.dom() =~= set![
                    "street"@,
                    "unit"@,
                    "city"@,
                    "state"@,
                    "country"@,
                    "zip"@,
                ]);
            } else {
                assert(item@.dom() =~= set!["street"@, "city"@, "state"@, "country"@, "zip"@]);
            }
        }
        AttrValue::M(item)
    }

    /// Reads an address back from an attribute; fails, never defaults,
    /// when a required field is missing or of the wrong shape.
    pub fn from_attribute_value(av: &AttrValue) -> (r: Option<Self>)
        ensures
            r is Some <==> Self::spec_decode(*av) is Some,
            r matches Some(a) ==> Self::spec_decode(*av) == Some(a@),
    {
        match av {
            AttrValue::M(item) => {
                let street = match item.get("street") {
                    Some(AttrValue::S(s)) => s.clone(),
                    _ => {
                        return None;
                    },
                };
                let city = match item.get("city") {
                    Some(AttrValue::S(s)) => s.clone(),
                    _ => {
                        return None;
                    },
                };
                let state = match item.get("state") {
                    Some(AttrValue::S(s)) => s.clone(),
                    _ => {
                        return None;
                    },
                };
                let country = match item.get("country") {
                    Some(AttrValue::S(s)) => s.clone(),
                    _ => {
                        return None;
                    },
                };
                let zip = match item.get("zip") {
                    Some(AttrValue::S(s)) => s.clone(),
                    _ => {
                        return None;
                    },
                };
                let unit = match item.get("unit") {
                    None => None,
                    Some(AttrValue::S(u)) => Some(u.clone()),
                    Some(AttrValue::Null) => None,
                    Some(_) => {
                        return None;
                    },
                };
                Some(Address { street, unit, city, state, country, zip })
            },
            _ => None,
        }
    }
}

/// Round-trip: any encoding of an address decodes back to the same
/// address, absent unit included.
pub proof fn lemma_address_round_trip(a: Address, m: Map<Seq<char>, AttrValue>)
    requires
        a.encodes(m),
    ensures
        Address::spec_decode_map(m) == Some(a@),
{
    reveal_strlit("street");
    reveal_strlit("unit");
    reveal_strlit("city");
    reveal_strlit("state");
    reveal_strlit("country");
    reveal_strlit("zip");
    assert("street"@.len() == 6);
    assert("unit"@.len() == 4);
    assert("city"@.len() == 4);
    assert("state"@.len() == 5);
    assert("country"@.len() == 7);
    assert("zip"@.len() == 3);
    assert("unit"@[0] != "city"@[0]);
}

} // verus!
