//! Broker listings.

use vstd::prelude::*;
use crate::order::{is_permutation, is_reordering};
use crate::types::ListBrokerEntry;

verus! {

/// Brokers in ascending order of id.
pub open spec fn ids_sorted(brokers: Seq<ListBrokerEntry>) -> bool {
    forall|i: int, j: int| 0 <= i < j < brokers.len() ==> (#[trigger] brokers[i]).id <= (#[trigger] brokers[j]).id
}

fn copy_broker(b: &ListBrokerEntry) -> (r: ListBrokerEntry)
    ensures
        r == *b,
{
    ListBrokerEntry { id: b.id, host: b.host.clone(), port: b.port }
}

/// The brokers, each once, in ascending order of id; brokers with equal ids keep
/// their order.
pub fn list_brokers(brokers: &Vec<ListBrokerEntry>) -> (r: Vec<ListBrokerEntry>)
    ensures
        ids_sorted(r@),
        is_reordering(r@, brokers@),
{
    let mut order: Vec<usize> = Vec::new();
    let mut i: usize = 0;
    while i < brokers.len()
        invariant
            i <= brokers@.len(),
            order@.len() == i,
            forall|k: int| 0 <= k < order@.len() ==> #[trigger] order@[k] < i,
            forall|k: int, l: int| 0 <= k < l < order@.len() ==> #[trigger] order@[k] != #[trigger] order@[l],
            forall|k: int, l: int|
                0 <= k < l < order@.len() ==> (#[trigger] brokers@[order@[k] as int]).id
                    <= (#[trigger] brokers@[order@[l] as int]).id,
        decreases brokers@.len() - i,
    {
        let mut pos: usize = 0;
        while pos < order.len() && brokers[order[pos]].id <= brokers[i].id
            invariant
                pos <= order@.len(),
                i < brokers@.len(),
                forall|k: int| 0 <= k < order@.len() ==> #[trigger] order@[k] < i,
                forall|k: int| 0 <= k < pos ==> (#[trigger] brokers@[order@[k] as int]).id <= brokers@[i as int].id,
            decreases order@.len() - pos,
        {
            pos = pos + 1;
        }
        let ghost before = order@;
        order.insert(pos, i);
        proof {
            let after = order@;
            assert(after =~= before.insert(pos as int, i));
            assert forall|k: int, l: int| 0 <= k < l < after.len() implies (#[trigger] brokers@[after[k] as int]).id
                <= (#[trigger] brokers@[after[l] as int]).id by {
                if k < pos && l == pos {
                } else if k < pos && l > pos {
                    assert(after[l] == before[l - 1]);
                } else if k == pos {
                    assert(after[l] == before[l - 1]);
                    assert(brokers@[before[pos as int] as int].id <= brokers@[before[l - 1] as int].id || l - 1 == pos);
                } else if k > pos {
                    assert(after[k] == before[k - 1]);
                    assert(after[l] == before[l - 1]);
                }
            }
            assert forall|k: int, l: int| 0 <= k < l < after.len() implies #[trigger] after[k] != #[trigger] after[l] by {
                if k > pos {
                    assert(after[k] == before[k - 1]);
                }
                if l > pos {
                    assert(after[l] == before[l - 1]);
                }
            }
        }
        i = i + 1;
    }
    let mut r: Vec<ListBrokerEntry> = Vec::new();
    let mut k: usize = 0;
    while k < order.len()
        invariant
            order@.len() == brokers@.len(),
            forall|j: int| 0 <= j < order@.len() ==> #[trigger] order@[j] < brokers@.len(),
            forall|a: int, b: int|
                0 <= a < b < order@.len() ==> (#[trigger] brokers@[order@[a] as int]).id
                    <= (#[trigger] brokers@[order@[b] as int]).id,
            k <= order@.len(),
            r@.len() == k,
            forall|j: int| 0 <= j < k ==> #[trigger] r@[j] == brokers@[order@[j] as int],
        decreases order@.len() - k,
    {
        r.push(copy_broker(&brokers[order[k]]));
        k = k + 1;
    }
    proof {
        let p = order@.map_values(|x: usize| x as int);
        assert forall|j: int| 0 <= j < r@.len() implies r@[j] == brokers@[#[trigger] p[j]] by {}
        assert forall|a: int, b: int| 0 <= a < b < p.len() implies #[trigger] p[a] != #[trigger] p[b] by {
            assert(order@[a] != order@[b]);
        }
        assert(is_permutation(p, brokers@.len()));
        assert forall|a: int, b: int| 0 <= a < b < r@.len() implies (#[trigger] r@[a]).id <= (#[trigger] r@[b]).id by {
            assert(r@[a] == brokers@[order@[a] as int]);
            assert(r@[b] == brokers@[order@[b] as int]);
        }
    }
    r
}

} // verus!
