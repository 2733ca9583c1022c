//! The MX outcome classifier: turns a raw DNS answer into the `mx` field.
//! An empty record set is a `NoRecord` failure, never success with an empty
//! list; a non-empty one yields the exchanges sorted by preference.

use vstd::prelude::*;
use vstd::multiset::Multiset;
use vstd::seq_lib::group_to_multiset_ensures;
use vstd::string::*;

use crate::output::{MxDetails, MxError};

verus! {

/// A DNS answer ordered by preference, the most preferred (lowest) first.
pub open spec fn sorted_by_pref(s: Seq<(u16, String)>) -> bool {
    forall|i: int, j: int| 0 <= i < j < s.len() ==> (#[trigger] s[i]).0 <= (#[trigger] s[j]).0
}

/// The host names of an answer, in its order.
pub open spec fn hosts_of(s: Seq<(u16, String)>) -> Seq<String> {
    s.map_values(|p: (u16, String)| p.1)
}

/// Sorts a DNS answer by preference.
fn sort_by_pref(answer: Vec<(u16, String)>) -> (r: Vec<(u16, String)>)
    ensures
        sorted_by_pref(r@),
        r@.to_multiset() == answer@.to_multiset(),
{
    broadcast use group_to_multiset_ensures;
    broadcast use vstd::multiset::group_multiset_axioms;

    let ghost orig = answer@;
    let mut rest = answer;
    let mut out: Vec<(u16, String)> = Vec::new();
    while rest.len() > 0
        invariant
            sorted_by_pref(out@),
            out@.to_multiset().add(rest@.to_multiset()) =~= orig.to_multiset(),
        decreases rest@.len(),
    {
        let ghost rest0 = rest@;
        let item = rest.remove(0);
        proof {
            assert(rest0.contains(rest0[0]));
            assert(rest@ =~= rest0.remove(0));
        }
        let mut j: usize = 0;
        while j < out.len() && out[j].0 <= item.0
            invariant
                0 <= j <= out@.len(),
                forall|k: int| 0 <= k < j ==> (#[trigger] out@[k]).0 <= item.0,
            decreases out@.len() - j,
        {
            j += 1;
        }
        let ghost out0 = out@;
        out.insert(j, item);
        proof {
            assert forall|a: int, b: int| 0 <= a < b < out@.len() implies (#[trigger] out@[a]).0
                <= (#[trigger] out@[b]).0 by {
                if a < j && b > j {
                    assert(out@[a] == out0[a] && out@[b] == out0[b - 1]);
                }
            }
            vstd::seq_lib::to_multiset_insert(out0, j as int, item);
            assert(out@ == out0.insert(j as int, item));
            assert(out@.to_multiset() =~= out0.to_multiset().insert(item));
            vstd::seq_lib::to_multiset_contains(rest0, item);
            assert(rest0.to_multiset().count(item) >= 1);
            vstd::seq_lib::to_multiset_remove(rest0, 0);
            assert(rest@.to_multiset() =~= rest0.to_multiset().remove(item));
            assert(out@.to_multiset().add(rest@.to_multiset()) =~= orig.to_multiset());
        }
    }
    proof {
        assert(rest@.to_multiset() =~= Multiset::<(u16, String)>::empty());
        assert(out@.to_multiset() =~= orig.to_multiset());
    }
    out
}

/// Classifies a raw DNS MX answer: an empty record set is a `NoRecord`
/// failure, never success with an empty list; otherwise the exchanges come
/// out as the hosts of the answer, sorted by preference.
pub fn classify_mx(answer: Vec<(u16, String)>) -> (r: Result<MxDetails, MxError>)
    ensures
        r is Err <==> answer@.len() == 0,
        r matches Err(e) ==> (e matches MxError::NoRecord(m) && m@ == "no MX records found"@),
        r matches Ok(m) ==> (m.records@.len() == answer@.len() && (exists|s: Seq<(u16, String)>|
            sorted_by_pref(s) && s.to_multiset() == answer@.to_multiset() && #[trigger] hosts_of(
                s,
            ) == m.records@)),
{
    broadcast use group_to_multiset_ensures;

    if answer.len() == 0 {
        return Err(MxError::NoRecord(String::from_str("no MX records found")));
    }
    let ghost orig = answer@;
    let sorted = sort_by_pref(answer);
    let mut records: Vec<String> = Vec::new();
    let n = sorted.len();
    let mut i: usize = 0;
    while i < n
        invariant
            n == sorted@.len(),
            0 <= i <= n,
            records@ == hosts_of(sorted@.subrange(0, i as int)),
        decreases n - i,
    {
        records.push(sorted[i].1.clone());
        proof {
            assert(hosts_of(sorted@.subrange(0, i + 1 as int)) =~= hosts_of(
                sorted@.subrange(0, i as int),
            ).push(sorted@[i as int].1));
        }
        i += 1;
    }
    proof {
        assert(sorted@.subrange(0, n as int) =~= sorted@);
        assert(hosts_of(sorted@).len() == sorted@.len());
        assert(sorted@.to_multiset().len() == orig.to_multiset().len());
    }
    Ok(MxDetails { records })
}

} // verus!
