//! The pure halves of the repository's CRUD operations.
//!
//! The store client and its network calls live outside the library; the
//! surrounding application fetches raw items and hands them here, and
//! takes encoded requests back.  What is verified is everything the
//! operations decide: what is written for a create or an update, how a
//! fetched item becomes "no value", a value, or a corruption error, and
//! which items of a scanned page survive decoding.  Deletion is pure
//! I/O, keyed by table name and primary key, and has no computed half.

use vstd::prelude::*;

use crate::attr::AttrMap;
use crate::entity::DynamoDbEntity;
use crate::error::AppError;

verus! {

/// The views of the items of a scanned page that decode, in page order;
/// the rest are skipped.
pub open spec fn decoded_views<E: DynamoDbEntity>(items: Seq<AttrMap>) -> Seq<E::V>
    decreases items.len(),
{
    if items.len() == 0 {
        Seq::empty()
    } else {
        let rest = decoded_views::<E>(items.drop_last());
        match E::spec_decode(items.last()@) {
            Some(v) => rest.push(v),
            None => rest,
        }
    }
}

/// The write a create performs: the entity's table and its full
/// encoding, keyed by the entity's primary key attribute.
pub fn create_request<E: DynamoDbEntity>(entity: &E) -> (r: (String, AttrMap))
    ensures
        r.0@ == E::spec_table_name(),
        entity.encodes(r.1@),
{
    (E::table_name(), entity.to_item())
}

/// The write an update performs: the update time is refreshed to the
/// given clock reading, the primary key and every other field are
/// preserved, and the entity is re-encoded whole.  The caller reads
/// the clock once (`time::current_millis`) and hands the reading in.
pub fn update_request<E: DynamoDbEntity>(entity: &mut E, now_millis: u64) -> (r: (
    String,
    AttrMap,
))
    ensures
        final(entity)@ == old(entity).spec_touched(now_millis),
        final(entity).spec_primary_key() == old(entity).spec_primary_key(),
        r.0@ == E::spec_table_name(),
        final(entity).encodes(r.1@),
{
    entity.touch(now_millis);
    (E::table_name(), entity.to_item())
}

/// What a fetch by primary key yields: no value and no error when the
/// key is absent, the decoded entity when the stored item parses, and a
/// decode error - never "no value" - when the item exists but is
/// corrupt.
pub fn get_outcome<E: DynamoDbEntity>(fetched: Option<AttrMap>) -> (r: Result<
    Option<E>,
    AppError,
>)
    ensures
        match r {
            Ok(None) => fetched is None,
            Ok(Some(e)) => fetched matches Some(m) && E::spec_decode(m@) == Some(e@),
            Err(err) => (fetched matches Some(m) && E::spec_decode(m@) is None) && err matches AppError::DecodeError(_),
        },
{
    match fetched {
        None => Ok(None),
        Some(m) => match E::from_item(&m) {
            Some(e) => Ok(Some(e)),
            None => Err(AppError::DecodeError("stored item failed to decode".to_owned())),
        },
    }
}

/// What a scan yields: exactly the items of the page that decode, in
/// page order; a malformed item is skipped, never an error.
pub fn list_outcome<E: DynamoDbEntity>(items: Vec<AttrMap>) -> (r: Vec<E>)
    ensures
        r@.map_values(|e: E| e@) == decoded_views::<E>(items@),
{
    let mut out: Vec<E> = Vec::new();
    let n = items.len();
    let mut i: usize = 0;
    proof {
        assert(items@.take(0) =~= Seq::<AttrMap>::empty());
        assert(out@.map_values(|e: E| e@) =~= decoded_views::<E>(items@.take(0)));
    }
    while i < n
        invariant
            0 <= i <= n,
            n == items@.len(),
            out@.map_values(|e: E| e@) == decoded_views::<E>(items@.take(i as int)),
        decreases n - i,
    {
        proof {
            assert(items@.take(i as int + 1).drop_last() =~= items@.take(i as int));
            assert(items@.take(i as int + 1).last() == items@[i as int]);
        }
        let ghost prev = out@;
        match E::from_item(&items[i]) {
            Some(e) => {
                out.push(e);
                proof {
                    assert(out@.map_values(|e: E| e@) =~= prev.map_values(|e: E| e@).push(
                        out@.last()@,
                    ));
                }
            },
            None => {},
        }
        i = i + 1;
    }
    proof {
        assert(items@.take(n as int) =~= items@);
    }
    out
}

} // verus!
