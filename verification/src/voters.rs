//! Which nodes of an authority list took part in an aggregated signature.

use crate::types::{addresses_of, bytes_of, nodes_of, Node, NodeView};
use vstd::prelude::*;
use vstd::relations::{
    antisymmetric, reflexive, sorted_by, strongly_connected, total_ordering, transitive,
};

verus! {

/// The lexicographic order of byte strings.
pub open spec fn bytes_le(a: Seq<u8>, b: Seq<u8>) -> bool
    decreases a.len(),
{
    if a.len() == 0 {
        true
    } else if b.len() == 0 {
        false
    } else if a[0] != b[0] {
        a[0] < b[0]
    } else {
        bytes_le(a.drop_first(), b.drop_first())
    }
}

/// The order that an authority list is sorted in before votes are counted.
pub open spec fn address_order() -> spec_fn(Seq<u8>, Seq<u8>) -> bool {
    |a: Seq<u8>, b: Seq<u8>| bytes_le(a, b)
}

/// The addresses of an authority list in ascending order.
pub open spec fn sorted_addresses(nodes: Seq<NodeView>) -> Seq<Seq<u8>> {
    addresses_of(nodes).sort_by(address_order())
}

/// Whether the bit at an index of a bitmap is set. The most significant bit of a
/// byte comes first, and there are no bits set behind the end.
pub open spec fn bit_is_set(bitmap: Seq<u8>, index: int) -> bool {
    &&& 0 <= index < bitmap.len() * 8
    &&& (bitmap[index / 8] >> (7 - index % 8) as u8) & 1 == 1
}

/// The items whose bits in a bitmap are set, in their order.
pub open spec fn selected(items: Seq<Seq<u8>>, bitmap: Seq<u8>) -> Seq<Seq<u8>>
    decreases items.len(),
{
    if items.len() == 0 {
        Seq::empty()
    } else {
        let before = selected(items.drop_last(), bitmap);
        if bit_is_set(bitmap, items.len() - 1) {
            before.push(items.last())
        } else {
            before
        }
    }
}

/// The addresses of the nodes that a bitmap says took part.
pub open spec fn voters_of(nodes: Seq<NodeView>, bitmap: Seq<u8>) -> Seq<Seq<u8>> {
    selected(sorted_addresses(nodes), bitmap)
}

/// The voters that a bitmap marks, by `overlord::extract_voters`: the authority
/// list is sorted by address, and the addresses whose bits are set come out. It
/// always succeeds. The bits of the bitmap are counted with a `usize`.
#[verifier::external_body]
pub(crate) fn extract_voters(nodes: &Vec<Node>, bitmap: &Vec<u8>) -> (res: Option<Vec<Vec<u8>>>)
    requires
        bitmap@.len() * 8 <= usize::MAX,
    ensures
        res is Some,
        res matches Some(voters) ==> bytes_of(voters@) == voters_of(nodes_of(nodes@), bitmap@),
{
    let mut list = nodes.iter().map(|node| overlord::types::Node {
        address: node.address.clone().into(),
        propose_weight: node.propose_weight,
        vote_weight: node.vote_weight,
    }).collect::<Vec<_>>();
    let voters = overlord::extract_voters(&mut list, &bitmap.clone().into()).ok()?;
    Some(voters.iter().map(|address| address.to_vec()).collect())
}

proof fn lemma_bytes_le_reflexive(a: Seq<u8>)
    ensures
        bytes_le(a, a),
    decreases a.len(),
{
    if a.len() > 0 {
        lemma_bytes_le_reflexive(a.drop_first());
    }
}

proof fn lemma_bytes_le_antisymmetric(a: Seq<u8>, b: Seq<u8>)
    requires
        bytes_le(a, b),
        bytes_le(b, a),
    ensures
        a == b,
    decreases a.len(),
{
    if a.len() > 0 && b.len() > 0 {
        lemma_bytes_le_antisymmetric(a.drop_first(), b.drop_first());
        assert(a =~= seq![a[0]] + a.drop_first());
        assert(b =~= seq![b[0]] + b.drop_first());
    } else {
        assert(a =~= b);
    }
}

proof fn lemma_bytes_le_transitive(a: Seq<u8>, b: Seq<u8>, c: Seq<u8>)
    requires
        bytes_le(a, b),
        bytes_le(b, c),
    ensures
        bytes_le(a, c),
    decreases a.len(),
{
    if a.len() > 0 && a[0] == b[0] && b[0] == c[0] {
        lemma_bytes_le_transitive(a.drop_first(), b.drop_first(), c.drop_first());
    }
}

proof fn lemma_bytes_le_connected(a: Seq<u8>, b: Seq<u8>)
    ensures
        bytes_le(a, b) || bytes_le(b, a),
    decreases a.len(),
{
    if a.len() > 0 && b.len() > 0 && a[0] == b[0] {
        lemma_bytes_le_connected(a.drop_first(), b.drop_first());
    }
}

/// Any two addresses can be compared: the order of an authority list is total.
pub proof fn lemma_address_order_is_total()
    ensures
        total_ordering(address_order()),
{
    let leq = address_order();
    assert forall|a: Seq<u8>| #[trigger] leq(a, a) by {
        lemma_bytes_le_reflexive(a);
    }
    assert forall|a: Seq<u8>, b: Seq<u8>| #[trigger] leq(a, b) && #[trigger] leq(b, a) implies a
        == b by {
        lemma_bytes_le_antisymmetric(a, b);
    }
    assert forall|a: Seq<u8>, b: Seq<u8>, c: Seq<u8>| #[trigger]
        leq(a, b) && #[trigger] leq(b, c) implies leq(a, c) by {
        lemma_bytes_le_transitive(a, b, c);
    }
    assert forall|a: Seq<u8>, b: Seq<u8>| #[trigger] leq(a, b) || #[trigger] leq(b, a) by {
        lemma_bytes_le_connected(a, b);
    }
    assert(reflexive(leq));
    assert(antisymmetric(leq));
    assert(transitive(leq));
    assert(strongly_connected(leq));
}

/// The selection depends on the bits alone: an item comes out exactly if it stands
/// at a place whose bit is set.
pub proof fn lemma_selected_members(items: Seq<Seq<u8>>, bitmap: Seq<u8>, item: Seq<u8>)
    ensures
        selected(items, bitmap).contains(item) <==> exists|i: int|
            0 <= i < items.len() && bit_is_set(bitmap, i) && #[trigger] items[i] == item,
    decreases items.len(),
{
    if items.len() > 0 {
        let last = items.len() - 1;
        let before = selected(items.drop_last(), bitmap);
        lemma_selected_members(items.drop_last(), bitmap, item);
        if selected(items, bitmap).contains(item) {
            if before.contains(item) {
                let i = choose|i: int|
                    0 <= i < last && bit_is_set(bitmap, i) && #[trigger] items.drop_last()[i]
                        == item;
                assert(items[i] == item);
            } else {
                let k = choose|k: int|
                    0 <= k < selected(items, bitmap).len() && selected(items, bitmap)[k] == item;
                if k < before.len() {
                    assert(before[k] == item);
                }
                assert(items[last] == item);
            }
        }
        if exists|i: int|
            0 <= i < items.len() && bit_is_set(bitmap, i) && #[trigger] items[i] == item {
            let i = choose|i: int|
                0 <= i < items.len() && bit_is_set(bitmap, i) && #[trigger] items[i] == item;
            if i < last {
                assert(items.drop_last()[i] == item);
                let k = choose|k: int| 0 <= k < before.len() && before[k] == item;
                assert(selected(items, bitmap)[k] == item);
            } else {
                assert(selected(items, bitmap).last() == item);
            }
        }
    }
}

/// The order of an authority list does not matter: two lists of the same nodes
/// have the same voters under every bitmap.
pub proof fn lemma_voters_ignore_list_order(
    nodes: Seq<NodeView>,
    others: Seq<NodeView>,
    bitmap: Seq<u8>,
)
    requires
        nodes.to_multiset() == others.to_multiset(),
    ensures
        voters_of(nodes, bitmap) == voters_of(others, bitmap),
{
    lemma_address_order_is_total();
    lemma_addresses_of_permutation(nodes, others);
    addresses_of(nodes).lemma_sort_by_ensures(address_order());
    addresses_of(others).lemma_sort_by_ensures(address_order());
    vstd::seq_lib::lemma_sorted_unique(
        sorted_addresses(nodes),
        sorted_addresses(others),
        address_order(),
    );
}

proof fn lemma_addresses_of_permutation(nodes: Seq<NodeView>, others: Seq<NodeView>)
    requires
        nodes.to_multiset() == others.to_multiset(),
    ensures
        addresses_of(nodes).to_multiset() == addresses_of(others).to_multiset(),
    decreases nodes.len(),
{
    broadcast use vstd::seq_lib::group_to_multiset_ensures;

    nodes.to_multiset_ensures();
    others.to_multiset_ensures();
    if nodes.len() == 0 {
        assert(addresses_of(nodes) =~= addresses_of(others));
    } else {
        let node = nodes.last();
        assert(nodes.contains(node));
        assert(others.to_multiset().contains(node));
        let k = choose|k: int| 0 <= k < others.len() && others[k] == node;
        let rest = others.remove(k);
        assert(nodes.drop_last() =~= nodes.remove(nodes.len() - 1));
        assert(nodes.drop_last().to_multiset() =~= rest.to_multiset());
        lemma_addresses_of_permutation(nodes.drop_last(), rest);
        assert(addresses_of(nodes.drop_last()) =~= addresses_of(nodes).remove(nodes.len() - 1));
        assert(addresses_of(rest) =~= addresses_of(others).remove(k));
        let a = addresses_of(nodes);
        let b = addresses_of(others);
        assert(a.remove(nodes.len() - 1).to_multiset() =~= a.to_multiset().remove(node.address));
        assert(b.remove(k).to_multiset() =~= b.to_multiset().remove(node.address));
        assert(a[nodes.len() - 1] == node.address);
        assert(b[k] == node.address);
        assert(a.to_multiset() =~= a.to_multiset().remove(node.address).insert(node.address));
        assert(b.to_multiset() =~= b.to_multiset().remove(node.address).insert(node.address));
    }
}

/// Every voter is a node of the authority list.
pub proof fn lemma_voters_are_nodes(nodes: Seq<NodeView>, bitmap: Seq<u8>, voter: Seq<u8>)
    requires
        voters_of(nodes, bitmap).contains(voter),
    ensures
        exists|i: int| 0 <= i < nodes.len() && (#[trigger] nodes[i]).address == voter,
{
    lemma_address_order_is_total();
    lemma_selected_members(sorted_addresses(nodes), bitmap, voter);
    addresses_of(nodes).lemma_sort_by_ensures(address_order());
    assert(sorted_addresses(nodes).contains(voter));
    assert(addresses_of(nodes).contains(voter));
    let i = choose|i: int| 0 <= i < addresses_of(nodes).len() && addresses_of(nodes)[i] == voter;
    assert(nodes[i].address == voter);
}

/// A bitmap that marks every node has all of them as voters.
pub proof fn lemma_full_bitmap(nodes: Seq<NodeView>, bitmap: Seq<u8>)
    requires
        forall|i: int| 0 <= i < nodes.len() ==> #[trigger] bit_is_set(bitmap, i),
    ensures
        voters_of(nodes, bitmap) == sorted_addresses(nodes),
        voters_of(nodes, bitmap).to_multiset() == addresses_of(nodes).to_multiset(),
{
    lemma_address_order_is_total();
    addresses_of(nodes).lemma_sort_by_ensures(address_order());
    addresses_of(nodes).to_multiset_ensures();
    sorted_addresses(nodes).to_multiset_ensures();
    lemma_all_selected(sorted_addresses(nodes), bitmap);
}

proof fn lemma_all_selected(items: Seq<Seq<u8>>, bitmap: Seq<u8>)
    requires
        forall|i: int| 0 <= i < items.len() ==> #[trigger] bit_is_set(bitmap, i),
    ensures
        selected(items, bitmap) == items,
    decreases items.len(),
{
    if items.len() > 0 {
        lemma_all_selected(items.drop_last(), bitmap);
        assert(items =~= items.drop_last().push(items.last()));
    } else {
        assert(selected(items, bitmap) =~= items);
    }
}

/// The voters come out in ascending order of their addresses.
pub proof fn lemma_voters_ascend(nodes: Seq<NodeView>, bitmap: Seq<u8>)
    ensures
        sorted_by(voters_of(nodes, bitmap), address_order()),
{
    lemma_address_order_is_total();
    addresses_of(nodes).lemma_sort_by_ensures(address_order());
    lemma_selected_sorted(sorted_addresses(nodes), bitmap);
}

proof fn lemma_selected_sorted(items: Seq<Seq<u8>>, bitmap: Seq<u8>)
    requires
        sorted_by(items, address_order()),
    ensures
        sorted_by(selected(items, bitmap), address_order()),
    decreases items.len(),
{
    let leq = address_order();
    if items.len() > 0 {
        let before = selected(items.drop_last(), bitmap);
        assert(sorted_by(items.drop_last(), leq)) by {
            assert forall|i: int, j: int| 0 <= i < j < items.drop_last().len() implies #[trigger] leq(
                items.drop_last()[i],
                items.drop_last()[j],
            ) by {
                assert(leq(items[i], items[j]));
            }
        }
        lemma_selected_sorted(items.drop_last(), bitmap);
        let all = selected(items, bitmap);
        assert forall|i: int, j: int| 0 <= i < j < all.len() implies #[trigger] leq(
            all[i],
            all[j],
        ) by {
            if j < before.len() {
                assert(leq(before[i], before[j]));
            } else {
                assert(before.contains(before[i]));
                lemma_selected_members(items.drop_last(), bitmap, before[i]);
                let k = choose|k: int|
                    0 <= k < items.drop_last().len() && bit_is_set(bitmap, k)
                        && #[trigger] items.drop_last()[k] == before[i];
                assert(leq(items[k], items[items.len() - 1]));
            }
        }
    }
}

} // verus!
