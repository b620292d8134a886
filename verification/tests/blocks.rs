use consensus_overlord::config::ConsensusConfig;
use consensus_overlord::consensus::{precommit_of, proof_is_for, Consensus};
use consensus_overlord::crypto::ConsensusCrypto;
use consensus_overlord::proposal::ConsensusProposal;
use consensus_overlord::server::ConsensusServer;
use consensus_overlord::types::{
    AggregatedSignature, ConsensusConfiguration, Proof, Proposal, ProposalWithProof, VoteType,
};
use consensus_overlord::util::sm3_hash;
use consensus_overlord::wal::ConsensusWal;

const KEYS: [&str; 4] = [
    "0000000000000000000000000000000000000000000000000000000000000001",
    "2b7e151628aed2a6abf7158809cf4f3c762e7160f38b4da56a784d9045190cfe",
    "1b7e151628aed2a6abf7158809cf4f3c762e7160f38b4da56a784d9045190cfe",
    "0b7e151628aed2a6abf7158809cf4f3c762e7160f38b4da56a784d9045190cfe",
];

fn signers() -> Vec<ConsensusCrypto> {
    KEYS.iter().map(|key| ConsensusCrypto::try_new(key).unwrap()).collect()
}

fn names() -> Vec<Vec<u8>> {
    signers().iter().map(|s| s.name().to_vec()).collect()
}

/// A service whose authority list holds `validators`, in that order.
fn consensus_with(validators: Vec<Vec<u8>>) -> Consensus {
    let mut consensus = Consensus::try_new(ConsensusConfig::default(), ConsensusWal::new(), KEYS[0]).unwrap();
    let configuration = ConsensusConfiguration { height: 1, block_interval: 3, validators };
    consensus.proc_reconfigure(configuration);
    consensus
}

/// The hash that the signers of a proof sign.
fn vote_hash(height: u64, round: u64, vote_type: overlord::types::VoteType, hash: &[u8]) -> Vec<u8> {
    let vote = overlord::types::Vote {
        height,
        round,
        vote_type,
        block_hash: hash.to_vec().into(),
    };
    sm3_hash(&rlp::encode(&vote)).to_vec()
}

/// A proof for a block, signed by the signers that `bitmap` marks in the sorted
/// authority list.
fn proof_for(data: &[u8], height: u64, round: u64, bitmap: u8) -> Proof {
    let hash = sm3_hash(data).to_vec();
    let mut sorted = signers();
    sorted.sort_by(|a, b| a.name().cmp(b.name()));
    let to_sign = vote_hash(height, round, overlord::types::VoteType::Precommit, &hash);
    let mut signatures = vec![];
    let mut voters = vec![];
    for (i, signer) in sorted.iter().enumerate() {
        if bitmap & (0x80 >> i) != 0 {
            signatures.push(signer.sign(&to_sign).unwrap());
            voters.push(signer.name().to_vec());
        }
    }
    let signature = sorted[0].aggregate_signatures(&signatures, &voters).unwrap();
    Proof {
        height,
        round,
        block_hash: hash,
        signature: AggregatedSignature { signature, address_bitmap: vec![bitmap] },
    }
}

fn block(consensus: &Consensus, data: &[u8], height: u64, proof: &Proof) -> ProposalWithProof {
    let content = ConsensusProposal::decode(data.to_vec()).unwrap();
    consensus.brain.commit_request(height, &content, proof)
}

#[test]
fn agreed_block_is_accepted() {
    let consensus = consensus_with(names());
    for bitmap in [0xf0, 0xe0, 0xb0, 0x70, 0x80, 0x10] {
        let proof = proof_for(b"block", 9, 2, bitmap);
        assert!(consensus.check_block(&block(&consensus, b"block", 9, &proof)));
    }
}

#[test]
fn acceptance_ignores_the_order_of_the_list() {
    let proof = proof_for(b"block", 9, 0, 0xd0);
    let mut validators = names();
    for _ in 0..4 {
        validators.rotate_left(1);
        let consensus = consensus_with(validators.clone());
        assert!(consensus.check_block(&block(&consensus, b"block", 9, &proof)));
    }
    validators.reverse();
    let consensus = consensus_with(validators);
    assert!(consensus.check_block(&block(&consensus, b"block", 9, &proof)));
}

#[test]
fn order_of_the_signatures_does_not_matter() {
    let consensus = consensus_with(names());
    let hash = sm3_hash(b"block").to_vec();
    let to_sign = vote_hash(9, 2, overlord::types::VoteType::Precommit, &hash);
    let mut order = signers();
    for _ in 0..4 {
        order.rotate_left(1);
        let signatures: Vec<Vec<u8>> = order.iter().map(|s| s.sign(&to_sign).unwrap()).collect();
        let voters: Vec<Vec<u8>> = order.iter().map(|s| s.name().to_vec()).collect();
        let mut proof = proof_for(b"block", 9, 2, 0xf0);
        proof.signature.signature =
            order[0].aggregate_signatures(&signatures, &voters).unwrap();
        assert!(consensus.check_block(&block(&consensus, b"block", 9, &proof)));
    }
}

#[test]
fn block_without_a_proposal_is_refused() {
    let consensus = consensus_with(names());
    let proof = proof_for(b"block", 9, 2, 0xf0);
    let mut sent = block(&consensus, b"block", 9, &proof);
    sent.proposal = None;
    assert!(!consensus.check_block(&sent));
}

#[test]
fn proof_has_to_decode() {
    let consensus = consensus_with(names());
    for proof in [vec![], vec![0xc0], vec![1, 2, 3]] {
        let sent = ProposalWithProof {
            proposal: Some(Proposal { height: 9, data: b"block".to_vec() }),
            proof,
        };
        assert!(!consensus.check_block(&sent));
    }
}

#[test]
fn proof_has_to_be_for_the_block() {
    let consensus = consensus_with(names());
    let proof = proof_for(b"block", 9, 2, 0xf0);
    assert!(!consensus.check_block(&block(&consensus, b"blocks", 9, &proof)));
    assert!(!consensus.check_block(&block(&consensus, b"block", 10, &proof)));
    let hash = sm3_hash(b"block");
    assert!(proof_is_for(&proof, 9, &hash));
    assert!(!proof_is_for(&proof, 8, &hash));
    assert!(!proof_is_for(&proof, 9, &hash[1..]));
}

#[test]
fn signature_has_to_be_by_the_marked_nodes() {
    let consensus = consensus_with(names());
    let mut proof = proof_for(b"block", 9, 2, 0xe0);
    for bitmap in [vec![], vec![0], vec![0xf0], vec![0xc0], vec![0x70]] {
        proof.signature.address_bitmap = bitmap;
        assert!(!consensus.check_block(&block(&consensus, b"block", 9, &proof)));
    }
    // Bits behind the end of the list do not count.
    for bitmap in [vec![0xe0], vec![0xef], vec![0xe0, 0xff]] {
        proof.signature.address_bitmap = bitmap;
        assert!(consensus.check_block(&block(&consensus, b"block", 9, &proof)));
    }
}

#[test]
fn signature_has_to_be_of_the_precommit() {
    let consensus = consensus_with(names());
    let mut proof = proof_for(b"block", 9, 2, 0x80);
    proof.round = 3;
    assert!(!consensus.check_block(&block(&consensus, b"block", 9, &proof)));

    let hash = sm3_hash(b"block").to_vec();
    let mut sorted = signers();
    sorted.sort_by(|a, b| a.name().cmp(b.name()));
    let prevote = vote_hash(9, 2, overlord::types::VoteType::Prevote, &hash);
    let mut proof = proof_for(b"block", 9, 2, 0x80);
    proof.signature.signature = sorted[0].sign(&prevote).unwrap();
    assert!(!consensus.check_block(&block(&consensus, b"block", 9, &proof)));
    proof.signature.signature = vec![1, 2, 3];
    assert!(!consensus.check_block(&block(&consensus, b"block", 9, &proof)));
}

#[test]
fn another_authority_list_does_not_accept() {
    let proof = proof_for(b"block", 9, 2, 0xf0);
    let consensus = consensus_with(names()[..3].to_vec());
    assert!(!consensus.check_block(&block(&consensus, b"block", 9, &proof)));
    let consensus = consensus_with(vec![]);
    assert!(!consensus.check_block(&block(&consensus, b"block", 9, &proof)));
}

#[test]
fn vote_of_a_proof() {
    let vote = precommit_of(&proof_for(b"block", 9, 2, 0xf0));
    assert_eq!(vote.height, 9);
    assert_eq!(vote.round, 2);
    assert_eq!(vote.vote_type, VoteType::Precommit);
    assert_eq!(vote.block_hash, sm3_hash(b"block").to_vec());
}

#[test]
fn committed_proof_can_be_read_back() {
    let consensus = consensus_with(names());
    let proof = proof_for(b"block", u64::MAX, 0, 0xf0);
    let sent = block(&consensus, b"block", u64::MAX, &proof);
    assert_eq!(sent.proposal.as_ref().unwrap().height, u64::MAX);
    assert_eq!(sent.proposal.as_ref().unwrap().data, b"block".to_vec());
    let read: overlord::types::Proof = rlp::decode(&sent.proof).unwrap();
    assert_eq!(read.height, proof.height);
    assert_eq!(read.round, proof.round);
    assert_eq!(read.block_hash.to_vec(), proof.block_hash);
    assert_eq!(read.signature.signature.to_vec(), proof.signature.signature);
    assert_eq!(read.signature.address_bitmap.to_vec(), vec![0xf0]);
    assert!(consensus.check_block(&sent));
}

#[test]
fn answers_to_a_check() {
    let fresh = Consensus::try_new(ConsensusConfig::default(), ConsensusWal::new(), KEYS[0]).unwrap();
    let proof = proof_for(b"block", 9, 2, 0xf0);
    let sent = block(&fresh, b"block", 9, &proof);
    assert_eq!(ConsensusServer::new(fresh).check_block(&sent).code, 200);

    let server = ConsensusServer::new(consensus_with(names()));
    assert_eq!(server.check_block(&sent).code, 0);
    let empty = ProposalWithProof { proposal: None, proof: vec![] };
    assert_eq!(server.check_block(&empty).code, 130);
}
