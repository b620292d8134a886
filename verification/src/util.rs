use crate::types::{bytes_of, nodes_of, DurationConfig, Node, NodeView};
use vstd::prelude::*;

verus! {

/// Length of an SM3 digest in bytes.
pub const HASH_BYTES_LEN: usize = 32;

/// The SM3 digest of `input`.
pub uninterp spec fn sm3_digest(input: Seq<u8>) -> Seq<u8>;

/// Calls `libsm::sm3::hash::Sm3Hash::new` and its `get_hash`: the result is the
/// SM3 digest of the input, and nothing else goes into it. A digest has
/// thirty-two bytes.
#[verifier::external_body]
pub fn sm3_hash(input: &[u8]) -> (digest: [u8; HASH_BYTES_LEN])
    ensures
        digest@ == sm3_digest(input@),
        digest@.len() == HASH_BYTES_LEN,
{
    libsm::sm3::hash::Sm3Hash::new(input).get_hash()
}

/// The authority list of a list of validators: every validator is a node of
/// weight one, in the order given.
pub open spec fn nodes_for(validators: Seq<Seq<u8>>) -> Seq<NodeView> {
    validators.map_values(
        |address: Seq<u8>| NodeView { address, propose_weight: 1u32, vote_weight: 1u32 },
    )
}

/// The authority list of a list of validators.
pub fn validators_to_nodes(validators: &[Vec<u8>]) -> (nodes: Vec<Node>)
    ensures
        nodes_of(nodes@) == nodes_for(bytes_of(validators@)),
{
    let mut nodes: Vec<Node> = Vec::new();
    for i in 0..validators.len()
        invariant
            nodes@.len() == i,
            forall|j: int|
                0 <= j < i ==> (#[trigger] nodes@[j])@ == (NodeView {
                    address: validators@[j]@,
                    propose_weight: 1u32,
                    vote_weight: 1u32,
                }),
    {
        let address = vstd::slice::slice_to_vec(validators[i].as_slice());
        nodes.push(Node { address, propose_weight: 1, vote_weight: 1 });
    }
    assert(nodes_of(nodes@) =~= nodes_for(bytes_of(validators@)));
    nodes
}

/// Whether two byte strings are the same.
pub fn bytes_eq(a: &[u8], b: &[u8]) -> (res: bool)
    ensures
        res == (a@ == b@),
{
    if a.len() != b.len() {
        return false;
    }
    for i in 0..a.len()
        invariant
            a@.len() == b@.len(),
            forall|j: int| 0 <= j < i ==> a@[j] == b@[j],
    {
        if a[i] != b[i] {
            return false;
        }
    }
    assert(a@ =~= b@);
    true
}

/// Whether a string holds a text.
pub fn text_is(string: &String, text: &str) -> (res: bool)
    ensures
        res == (string@ == text@),
{
    *string == text.to_owned()
}

/// A copy of an authority list.
pub fn copy_nodes(nodes: &Vec<Node>) -> (copy: Vec<Node>)
    ensures
        nodes_of(copy@) == nodes_of(nodes@),
{
    let mut copy: Vec<Node> = Vec::new();
    for i in 0..nodes.len()
        invariant
            copy@.len() == i,
            forall|j: int| 0 <= j < i ==> (#[trigger] copy@[j])@ == nodes@[j]@,
    {
        let node = &nodes[i];
        copy.push(
            Node {
                address: vstd::slice::slice_to_vec(node.address.as_slice()),
                propose_weight: node.propose_weight,
                vote_weight: node.vote_weight,
            },
        );
    }
    assert(nodes_of(copy@) =~= nodes_of(nodes@));
    copy
}

/// A copy of a list of addresses.
pub fn copy_addresses(addresses: &[Vec<u8>]) -> (copy: Vec<Vec<u8>>)
    ensures
        bytes_of(copy@) == bytes_of(addresses@),
{
    let mut copy: Vec<Vec<u8>> = Vec::new();
    for i in 0..addresses.len()
        invariant
            copy@.len() == i,
            forall|j: int| 0 <= j < i ==> (#[trigger] copy@[j])@ == addresses@[j]@,
    {
        copy.push(vstd::slice::slice_to_vec(addresses[i].as_slice()));
    }
    assert(bytes_of(copy@) =~= bytes_of(addresses@));
    copy
}

/// The timeouts that every height starts with.
pub fn timer_config() -> (config: Option<DurationConfig>)
    ensures
        config == default_timer_config(),
{
    Some(DurationConfig::new(15, 10, 10, 7))
}

/// Propose, prevote, precommit and brake, in tenths of the block interval.
pub open spec fn default_timer_config() -> Option<DurationConfig> {
    Some(
        DurationConfig {
            propose_ratio: 15,
            prevote_ratio: 10,
            precommit_ratio: 10,
            brake_ratio: 7,
        },
    )
}

/// The number that a sequence of bytes writes, most significant byte first.
pub open spec fn big_endian(bytes: Seq<u8>) -> nat
    decreases bytes.len(),
{
    if bytes.len() == 0 {
        0
    } else {
        big_endian(bytes.drop_last()) * 256 + bytes.last() as nat
    }
}

/// The network origin of a validator: the first eight bytes of its address, as a
/// number.
pub fn validator_to_origin(validator_address: &[u8]) -> (origin: u64)
    requires
        validator_address@.len() >= 8,
    ensures
        origin == big_endian(validator_address@.take(8)),
{
    let mut origin: u64 = 0;
    for i in 0..8usize
        invariant
            validator_address@.len() >= 8,
            origin == big_endian(validator_address@.take(i as int)),
            big_endian(validator_address@.take(i as int)) < power_of_256(i as nat),
    {
        let ghost before = validator_address@.take(i as int);
        proof {
            let after = validator_address@.take(i + 1);
            assert(after.drop_last() =~= before);
            assert(after.last() == validator_address@[i as int]);
            reveal_with_fuel(power_of_256, 9);
            assert(power_of_256(i as nat) <= 0x100_0000_0000_0000);
            assert(power_of_256((i + 1) as nat) == 256 * power_of_256(i as nat));
        }
        origin = origin * 256 + validator_address[i] as u64;
    }
    origin
}

/// How many numbers can be written with `n` bytes.
pub open spec fn power_of_256(n: nat) -> nat
    decreases n,
{
    if n == 0 {
        1
    } else {
        256 * power_of_256((n - 1) as nat)
    }
}

} // verus!
