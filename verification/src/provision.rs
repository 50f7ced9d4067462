//! The provisioning plan: which declared tables a startup run must
//! create, given one live listing of the store's tables.
//!
//! The listing is retrieved once per run; the plan walks the declared
//! registry in its fixed order and keeps exactly the tables whose names
//! are absent, so a table that already exists is skipped and never
//! created twice.  The create-table calls themselves, and the fail-fast
//! handling of their results, belong to the surrounding application;
//! `lemma_plan_idempotent` and `lemma_plan_empty_store` state the laws
//! the plan obeys.

use vstd::prelude::*;

use crate::attr::strings_view;
use crate::schema::{TableSchema, TableSchemaV};

verus! {

/// The tables a run must create: the declared tables whose names are
/// absent from the listing, in declared order.
pub open spec fn spec_plan(declared: Seq<TableSchemaV>, existing: Seq<Seq<char>>) -> Seq<
    TableSchemaV,
> {
    declared.filter(|t: TableSchemaV| !existing.contains(t.table_name))
}

/// Does the live listing contain the given table name?
fn contains_name(existing: &Vec<String>, name: &String) -> (r: bool)
    ensures
        r == strings_view(existing@).contains(name@),
{
    let n = existing.len();
    let mut i: usize = 0;
    while i < n
        invariant
            0 <= i <= n,
            n == existing@.len(),
            forall|k: int| 0 <= k < i ==> (#[trigger] existing@[k])@ != name@,
        decreases n - i,
    {
        if existing[i] == *name {
            proof {
                assert(strings_view(existing@)[i as int] == existing@[i as int]@);
                assert(strings_view(existing@).contains(name@));
            }
            return true;
        }
        i = i + 1;
    }
    proof {
        if strings_view(existing@).contains(name@) {
            let k = choose|k: int|
                0 <= k < strings_view(existing@).len() && strings_view(existing@)[k] == name@;
            assert(strings_view(existing@)[k] == existing@[k]@);
            assert(false);
        }
    }
    false
}

/// Computes the provisioning plan from the declared registry and one
/// live listing: exactly the declared tables that do not exist yet, in
/// declared order.
pub fn tables_to_create(declared: Vec<TableSchema>, existing: &Vec<String>) -> (r: Vec<
    TableSchema,
>)
    ensures
        r@.map_values(|t: TableSchema| t@) == spec_plan(
            declared@.map_values(|t: TableSchema| t@),
            strings_view(existing@),
        ),
{
    let ghost d0 = declared@.map_values(|t: TableSchema| t@);
    let ghost names = strings_view(existing@);
    let mut rest = declared;
    let mut r: Vec<TableSchema> = Vec::new();
    let ghost mut j: int = 0;
    proof {
        assert(rest@.map_values(|t: TableSchema| t@) =~= d0.skip(0));
        assert(d0.take(0) =~= Seq::<TableSchemaV>::empty());
        assert(r@.map_values(|t: TableSchema| t@) =~= spec_plan(d0.take(0), names));
    }
    while rest.len() > 0
        invariant
            0 <= j <= d0.len(),
            names == strings_view(existing@),
            rest@.map_values(|t: TableSchema| t@) == d0.skip(j),
            r@.map_values(|t: TableSchema| t@) == spec_plan(d0.take(j), names),
        decreases rest@.len(),
    {
        let ghost prev_r = r@;
        let ghost old_rest = rest@;
        proof {
            assert(old_rest.map_values(|t: TableSchema| t@).len() == old_rest.len());
            assert(d0.skip(j).len() == d0.len() - j);
            assert(0 <= j < d0.len());
        }
        let t = rest.remove(0);
        proof {
            assert(t == old_rest[0]);
            assert(t@ == old_rest.map_values(|t: TableSchema| t@)[0]);
            assert(t@ == d0.skip(j)[0]);
            assert(t@ == d0[j]);
            assert(rest@ =~= old_rest.subrange(1, old_rest.len() as int));
            assert forall|k: int| 0 <= k < rest@.len() implies (#[trigger] rest@[k])@ == d0.skip(
                j + 1,
            )[k] by {
                assert(rest@[k] == old_rest[k + 1]);
                assert(old_rest.map_values(|t: TableSchema| t@)[k + 1] == old_rest[k + 1]@);
                assert(d0.skip(j)[k + 1] == d0[j + 1 + k]);
                assert(d0.skip(j + 1)[k] == d0[j + 1 + k]);
            }
            assert(rest@.map_values(|t: TableSchema| t@) =~= d0.skip(j + 1));
            assert(d0.take(j + 1).drop_last() =~= d0.take(j));
            assert(d0.take(j + 1).last() == d0[j]);
        }
        let keep = !contains_name(existing, &t.table_name);
        proof {
            assert(t@.table_name == t.table_name@);
            assert(keep == !names.contains(d0[j].table_name));
        }
        if keep {
            r.push(t);
            proof {
                assert(r@.map_values(|t: TableSchema| t@) =~= prev_r.map_values(
                    |t: TableSchema| t@,
                ).push(d0[j]));
            }
        }
        proof {
            reveal(Seq::filter);
            assert(d0.take(j + 1).len() == j + 1);
            assert(d0.take(j + 1).drop_last() =~= d0.take(j));
            assert(d0.take(j + 1).last() == d0[j]);
            assert(spec_plan(d0.take(j + 1), names) == if keep {
                spec_plan(d0.take(j), names).push(d0[j])
            } else {
                spec_plan(d0.take(j), names)
            });
            j = j + 1;
        }
    }
    proof {
        assert(d0.take(d0.len() as int) =~= d0);
    }
    r
}

/// No element of `s` satisfying `p` means an empty filtering.
proof fn lemma_filter_none<A>(s: Seq<A>, p: spec_fn(A) -> bool)
    requires
        forall|i: int| 0 <= i < s.len() ==> !p(#[trigger] s[i]),
    ensures
        s.filter(p) == Seq::<A>::empty(),
    decreases s.len(),
{
    reveal(Seq::filter);
    if s.len() == 0 {
        assert(s.filter(p) =~= Seq::<A>::empty());
    } else {
        lemma_filter_none(s.drop_last(), p);
    }
}

/// Every element of `s` satisfying `p` means filtering keeps `s` whole.
proof fn lemma_filter_all<A>(s: Seq<A>, p: spec_fn(A) -> bool)
    requires
        forall|i: int| 0 <= i < s.len() ==> p(#[trigger] s[i]),
    ensures
        s.filter(p) == s,
    decreases s.len(),
{
    reveal(Seq::filter);
    if s.len() == 0 {
        assert(s.filter(p) =~= s);
    } else {
        lemma_filter_all(s.drop_last(), p);
        assert(s.filter(p) =~= s);
    }
}

/// A kept element is in the filtering.
proof fn lemma_filter_mem<A>(s: Seq<A>, p: spec_fn(A) -> bool, i: int)
    requires
        0 <= i < s.len(),
        p(s[i]),
    ensures
        s.filter(p).contains(s[i]),
    decreases s.len(),
{
    reveal(Seq::filter);
    if i == s.len() - 1 {
        assert(s.filter(p).last() == s[i]);
    } else {
        lemma_filter_mem(s.drop_last(), p, i);
        let f = s.drop_last().filter(p);
        let k = choose|k: int| 0 <= k < f.len() && f[k] == s[i];
        if p(s.last()) {
            assert(s.filter(p)[k] == s[i]);
        }
    }
}

/// Idempotent provisioning: once every planned table exists - and
/// nothing that existed has gone away - a second run plans nothing, so
/// no table is ever created twice.
pub proof fn lemma_plan_idempotent(
    declared: Seq<TableSchemaV>,
    existing: Seq<Seq<char>>,
    after: Seq<Seq<char>>,
)
    requires
        forall|n: Seq<char>| existing.contains(n) ==> after.contains(n),
        forall|t: TableSchemaV|
            spec_plan(declared, existing).contains(t) ==> after.contains(t.table_name),
    ensures
        spec_plan(declared, after) == Seq::<TableSchemaV>::empty(),
{
    assert forall|i: int| 0 <= i < declared.len() implies after.contains(
        #[trigger] declared[i].table_name,
    ) by {
        if existing.contains(declared[i].table_name) {
        } else {
            lemma_filter_mem(
                declared,
                |t: TableSchemaV| !existing.contains(t.table_name),
                i,
            );
            assert(spec_plan(declared, existing).contains(declared[i]));
        }
    }
    lemma_filter_none(declared, |t: TableSchemaV| !after.contains(t.table_name));
}

/// A run against an empty store plans exactly the declared set, in
/// declared order, each table carrying exactly its declared indexes.
pub proof fn lemma_plan_empty_store(declared: Seq<TableSchemaV>)
    ensures
        spec_plan(declared, Seq::<Seq<char>>::empty()) == declared,
{
    lemma_filter_all(
        declared,
        |t: TableSchemaV| !Seq::<Seq<char>>::empty().contains(t.table_name),
    );
}

} // verus!
