//! The capability every storable type implements: identify its table,
//! produce its primary key, encode itself, decode itself.
//!
//! The encoding relation and the decode function are the type's codec
//! contract; the round-trip law is part of the capability, so the
//! repository may rely on it for any entity.

use vstd::prelude::*;

use crate::attr::{AttrMap, AttrValue};

verus! {

/// A domain record persisted in the store under a single primary key.
pub trait DynamoDbEntity: View + Sized {
    /// The table this type is stored in; constant per type.
    spec fn spec_table_name() -> Seq<char>;

    /// The key identifying this instance.
    spec fn spec_primary_key(&self) -> Seq<char>;

    /// Does `m` encode exactly this instance?
    spec fn encodes(&self, m: Map<Seq<char>, AttrValue>) -> bool;

    /// The instance content an item decodes to, if any.
    spec fn spec_decode(m: Map<Seq<char>, AttrValue>) -> Option<Self::V>;

    /// The content of this instance after its update time is refreshed
    /// to `now_millis`; everything else is unchanged.
    spec fn spec_touched(&self, now_millis: u64) -> Self::V;

    fn table_name() -> (r: String)
        ensures
            r@ == Self::spec_table_name(),
    ;

    fn primary_key(&self) -> (r: String)
        ensures
            r@ == self.spec_primary_key(),
    ;

    /// Encodes this instance; total for every instance.
    fn to_item(&self) -> (r: AttrMap)
        ensures
            self.encodes(r@),
    ;

    /// Decodes an item; partial, failing rather than defaulting.
    fn from_item(item: &AttrMap) -> (r: Option<Self>)
        ensures
            r is Some <==> Self::spec_decode(item@) is Some,
            r matches Some(e) ==> Self::spec_decode(item@) == Some(e@),
    ;

    /// Refreshes the update time, preserving the primary key and every
    /// other field.
    fn touch(&mut self, now_millis: u64)
        ensures
            final(self)@ == old(self).spec_touched(now_millis),
            final(self).spec_primary_key() == old(self).spec_primary_key(),
    ;

    /// Round-trip law: decoding any encoding of an instance yields that
    /// instance, absent optional fields included.
    proof fn lemma_round_trip(&self, m: Map<Seq<char>, AttrValue>)
        requires
            self.encodes(m),
        ensures
            Self::spec_decode(m) == Some(self@),
    ;
}

} // verus!
