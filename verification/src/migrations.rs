//! Schema migrations: which registered migrations run, and in what order.
//!
//! Each migration targets one schema version. Given the versions of all
//! registered migrations and the schema version found on disk, the pending
//! ones are exactly those targeting a later version, and they run in
//! ascending version order. Executing a migration touches the settings
//! store on disk, so the runner lives outside the verified core; this
//! module decides the schedule.

use vstd::multiset::Multiset;
use vstd::prelude::*;

verus! {

/// Version number of the settings schema.
pub type SchemaVersion = u32;

/// The schema version this build of the application writes.
pub const SCHEMA_VERSION: SchemaVersion = 1;

/// Relies on `anyhow::Error` only as an opaque error carrier in result
/// types; nothing is assumed about its contents.
#[verifier::external_type_specification]
#[verifier::external_body]
pub struct ExAnyhowError(anyhow::Error);

/// Runs all built-in migrations from the given schema version.
///
/// No built-in migration is registered in this build, so the call always
/// succeeds having applied none.
pub fn run(from_schema: SchemaVersion) -> (r: Result<usize, anyhow::Error>)
    ensures
        r matches Ok(applied) && applied == 0,
{
    Ok(0)
}

/// The schema version a stored settings value denotes: the stored number,
/// truncated to 32 bits, or zero when the key is missing or malformed.
pub fn schema_version_from(stored: Option<u64>) -> (v: u32)
    ensures
        v == match stored {
            Some(n) => n as u32,
            None => 0u32,
        },
{
    match stored {
        Some(n) => #[verifier::truncate] (n as u32),
        None => 0,
    }
}

/// The versions greater than `from` among `vs`, as a multiset.
pub open spec fn pending_of(vs: Seq<u32>, from: u32) -> Multiset<u32>
    decreases vs.len(),
{
    if vs.len() == 0 {
        Multiset::empty()
    } else if vs.last() > from {
        pending_of(vs.drop_last(), from).insert(vs.last())
    } else {
        pending_of(vs.drop_last(), from)
    }
}

/// A sequence that never decreases from left to right.
pub open spec fn sorted(s: Seq<u32>) -> bool {
    forall|i: int, j: int| 0 <= i <= j < s.len() ==> s[i] <= s[j]
}

/// Extending the prefix under consideration by one version adds it to the
/// pending multiset exactly when it is greater than `from`.
proof fn lemma_pending_of_take_succ(vs: Seq<u32>, from: u32, i: int)
    requires
        0 <= i < vs.len(),
    ensures
        pending_of(vs.take(i + 1), from) =~= if vs[i] > from {
            pending_of(vs.take(i), from).insert(vs[i])
        } else {
            pending_of(vs.take(i), from)
        },
{
    assert(vs.take(i + 1).drop_last() =~= vs.take(i));
    assert(vs.take(i + 1).last() == vs[i]);
}

/// The migrations that must still run when the on-disk schema is
/// `from_schema`: exactly the registered versions greater than it, in
/// ascending order.
pub fn pending_versions(versions: &Vec<u32>, from_schema: u32) -> (pending: Vec<u32>)
    ensures
        pending@.to_multiset() == pending_of(versions@, from_schema),
        sorted(pending@),
        forall|i: int| 0 <= i < pending@.len() ==> #[trigger] pending@[i] > from_schema,
{
    broadcast use vstd::seq_lib::group_to_multiset_ensures;

    let ghost all = versions@;
    let mut rest: Vec<u32> = Vec::new();
    let n = versions.len();
    let mut i: usize = 0;
    while i < n
        invariant
            i <= n,
            n == all.len(),
            versions@ == all,
            rest@.to_multiset() =~= pending_of(all.take(i as int), from_schema),
            forall|k: int| 0 <= k < rest@.len() ==> #[trigger] rest@[k] > from_schema,
        decreases n - i,
    {
        let v = versions[i];
        let ghost prev = rest@;
        if v > from_schema {
            rest.push(v);
            proof {
                assert(prev.push(v).to_multiset() =~= prev.to_multiset().insert(v)) by {
                    prev.to_multiset_ensures();
                }
            }
        }
        proof {
            lemma_pending_of_take_succ(all, from_schema, i as int);
        }
        i = i + 1;
    }
    proof {
        assert(all.take(n as int) =~= all);
    }
    // Selection sort: repeatedly move the smallest remaining version over.
    let mut pending: Vec<u32> = Vec::new();
    let ghost whole = rest@.to_multiset();
    while rest.len() > 0
        invariant
            pending@.to_multiset().add(rest@.to_multiset()) =~= whole,
            whole =~= pending_of(all, from_schema),
            sorted(pending@),
            forall|k: int, l: int|
                0 <= k < pending@.len() && 0 <= l < rest@.len() ==> #[trigger] pending@[k]
                    <= #[trigger] rest@[l],
            forall|k: int| 0 <= k < pending@.len() ==> #[trigger] pending@[k] > from_schema,
            forall|k: int| 0 <= k < rest@.len() ==> #[trigger] rest@[k] > from_schema,
        decreases rest.len(),
    {
        let mut m: usize = 0;
        let mut j: usize = 1;
        while j < rest.len()
            invariant
                m < j,
                j <= rest@.len(),
                forall|k: int| 0 <= k < j ==> rest@[m as int] <= #[trigger] rest@[k],
            decreases rest.len() - j,
        {
            if rest[j] < rest[m] {
                m = j;
            }
            j = j + 1;
        }
        let ghost rest_prev = rest@;
        let ghost pending_prev = pending@;
        let v = rest.remove(m);
        pending.push(v);
        proof {
            assert(rest_prev.remove(m as int).to_multiset() =~= rest_prev.to_multiset().remove(v))
                by {
                rest_prev.to_multiset_ensures();
            }
            assert(pending_prev.push(v).to_multiset() =~= pending_prev.to_multiset().insert(v)) by {
                pending_prev.to_multiset_ensures();
            }
            assert(rest_prev.to_multiset().count(v) > 0) by {
                rest_prev.to_multiset_ensures();
            }
            assert(pending_prev.to_multiset().insert(v).add(
                rest_prev.to_multiset().remove(v),
            ) =~= pending_prev.to_multiset().add(rest_prev.to_multiset()));
        }
    }
    pending
}

} // verus!
