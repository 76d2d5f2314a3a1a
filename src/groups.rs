//! Consumer-group listings and deletion targets.

use vstd::prelude::*;
use crate::order::{
    filter_group, filter_view, is_permutation, is_reordering, matches_filter, name_order, names_sorted, views,
};
use crate::types::ListConsumerGroupEntry;

verus! {

/// The groups whose names pass the filter, in their order.
pub open spec fn matching_groups(groups: Seq<ListConsumerGroupEntry>, filter: Option<Seq<char>>) -> Seq<
    ListConsumerGroupEntry,
>
    decreases groups.len(),
{
    if groups.len() == 0 {
        Seq::empty()
    } else {
        let rest = matching_groups(groups.drop_last(), filter);
        if matches_filter(groups.last().name@, filter) {
            rest.push(groups.last())
        } else {
            rest
        }
    }
}

/// Names of a sequence of groups.
pub open spec fn group_names(groups: Seq<ListConsumerGroupEntry>) -> Seq<Seq<char>> {
    groups.map_values(|g: ListConsumerGroupEntry| g.name@)
}

fn copy_group(g: &ListConsumerGroupEntry) -> (r: ListConsumerGroupEntry)
    ensures
        r == *g,
{
    ListConsumerGroupEntry { name: g.name.clone(), state: g.state.clone() }
}

/// The groups whose names start with `consumer_group` (all of them without a
/// filter), in ascending byte order of name.
pub fn list(groups: &Vec<ListConsumerGroupEntry>, consumer_group: &Option<String>) -> (r: Vec<
    ListConsumerGroupEntry,
>)
    ensures
        names_sorted(group_names(r@)),
        is_reordering(r@, matching_groups(groups@, filter_view(*consumer_group))),
{
    let ghost filter = filter_view(*consumer_group);
    let mut kept: Vec<ListConsumerGroupEntry> = Vec::new();
    let mut names: Vec<String> = Vec::new();
    let mut i: usize = 0;
    while i < groups.len()
        invariant
            i <= groups@.len(),
            filter == filter_view(*consumer_group),
            kept@ == matching_groups(groups@.subrange(0, i as int), filter),
            names@.len() == kept@.len(),
            forall|j: int| 0 <= j < names@.len() ==> #[trigger] names@[j] == kept@[j].name,
        decreases groups@.len() - i,
    {
        assert(groups@.subrange(0, i + 1).drop_last() =~= groups@.subrange(0, i as int));
        if filter_group(groups[i].name.as_str(), consumer_group) {
            kept.push(copy_group(&groups[i]));
            names.push(groups[i].name.clone());
        }
        i = i + 1;
    }
    assert(groups@.subrange(0, groups@.len() as int) =~= groups@);
    let order = name_order(&names);
    let mut r: Vec<ListConsumerGroupEntry> = Vec::new();
    let mut k: usize = 0;
    while k < order.len()
        invariant
            names@.len() == kept@.len(),
            is_permutation(order@.map_values(|x: usize| x as int), names@.len()),
            k <= order@.len(),
            r@.len() == k,
            forall|j: int| 0 <= j < k ==> #[trigger] r@[j] == kept@[order@[j] as int],
        decreases order@.len() - k,
    {
        assert(order@.map_values(|x: usize| x as int)[k as int] == order@[k as int] as int);
        r.push(copy_group(&kept[order[k]]));
        k = k + 1;
    }
    proof {
        let p = order@.map_values(|x: usize| x as int);
        assert forall|j: int| 0 <= j < r@.len() implies r@[j] == kept@[#[trigger] p[j]] by {
            assert(p[j] == order@[j] as int);
        }
        assert(is_permutation(p, kept@.len()));
        assert forall|a: int, b: int| 0 <= a < b < r@.len() implies crate::order::name_le(
            #[trigger] group_names(r@)[a],
            #[trigger] group_names(r@)[b],
        ) by {
            assert(p[a] == order@[a] as int && p[b] == order@[b] as int);
            assert(names@[order@[a] as int]@ == r@[a].name@);
            assert(names@[order@[b] as int]@ == r@[b].name@);
        }
    }
    r
}

/// Names of the groups that `consumers delete` removes: every group whose name
/// starts with `consumer_group`, and every group when there is no filter; in
/// ascending byte order.
pub fn groups_to_delete(groups: &Vec<ListConsumerGroupEntry>, consumer_group: &Option<String>) -> (r: Vec<
    String,
>)
    ensures
        names_sorted(views(r@)),
        is_reordering(views(r@), group_names(matching_groups(groups@, filter_view(*consumer_group)))),
{
    let listed = list(groups, consumer_group);
    let ghost m = matching_groups(groups@, filter_view(*consumer_group));
    let mut r: Vec<String> = Vec::new();
    let mut k: usize = 0;
    while k < listed.len()
        invariant
            k <= listed@.len(),
            r@.len() == k,
            forall|j: int| 0 <= j < k ==> #[trigger] r@[j] == listed@[j].name,
        decreases listed@.len() - k,
    {
        r.push(listed[k].name.clone());
        k = k + 1;
    }
    proof {
        assert(is_reordering(listed@, m));
        let p = choose|p: Seq<int>|
            is_permutation(p, m.len()) && forall|k: int| 0 <= k < listed@.len() ==> listed@[k] == m[#[trigger] p[k]];
        assert forall|j: int| 0 <= j < r@.len() implies views(r@)[j] == group_names(m)[#[trigger] p[j]] by {
            assert(0 <= p[j] < m.len());
            assert(listed@[j] == m[p[j]]);
        }
        assert(views(r@) =~= group_names(listed@));
    }
    r
}

} // verus!
