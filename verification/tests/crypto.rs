use consensus_overlord::crypto::{
    aggregate_verdict, pair_verdict, parse_public_keys, signature_verdict, ConsensusCrypto,
};
use consensus_overlord::error::{ConsensusError, CryptoError};
use consensus_overlord::util::{
    bytes_eq, copy_addresses, copy_nodes, sm3_hash, text_is, timer_config, validator_to_origin,
    validators_to_nodes, HASH_BYTES_LEN,
};

const KEY_ONE: &str = "0000000000000000000000000000000000000000000000000000000000000001";
const KEY_TWO: &str = "2b7e151628aed2a6abf7158809cf4f3c762e7160f38b4da56a784d9045190cfe";
const KEY_THREE: &str = "1B7E151628AED2A6ABF7158809CF4F3C762E7160F38B4DA56A784D9045190CFE";

/// The public key of the private key one: the generator of the group.
const GENERATOR: &str = "97f1d3a73197d7942695638c4fa9ac0fc3688c4f9774b905a14e3a3f171bac586c55e83ff97a1aeffb3af00adb22c6bb";

fn crypto(text: &str) -> ConsensusCrypto {
    ConsensusCrypto::try_new(text).unwrap()
}

fn is_other(res: &Result<(), ConsensusError>, text: &str) -> bool {
    matches!(res, Err(ConsensusError::Other(t)) if t == text)
}

fn is_crypto(res: &Result<(), ConsensusError>, error: CryptoError) -> bool {
    matches!(res, Err(ConsensusError::CryptoErr(e)) if *e == error)
}

#[test]
fn sm3_of_abc() {
    assert_eq!(
        hex::encode(sm3_hash(b"abc")),
        "66c7f0f462eeedd9d1f2d46bdc10e4e24167c4875cf2f7a2297da02b8f4ba8e0"
    );
    assert_eq!(sm3_hash(b"").len(), HASH_BYTES_LEN);
    assert_eq!(crypto(KEY_ONE).hash(b"abc"), sm3_hash(b"abc").to_vec());
}

#[test]
fn name_is_the_public_key() {
    assert_eq!(hex::encode(crypto(KEY_ONE).name()), GENERATOR);
    assert_eq!(hex::encode(ConsensusCrypto::new(KEY_ONE).name()), GENERATOR);
    assert_ne!(crypto(KEY_TWO).name(), crypto(KEY_THREE).name());
}

#[test]
fn key_text_is_strict() {
    assert!(ConsensusCrypto::try_new("").is_none());
    assert!(ConsensusCrypto::try_new("0").is_none());
    assert!(ConsensusCrypto::try_new("zz").is_none());
    assert!(ConsensusCrypto::try_new("01").is_none());
    assert!(ConsensusCrypto::try_new(&format!("{}\n", KEY_ONE)).is_none());
    assert!(ConsensusCrypto::try_new(&format!("0x{}", KEY_ONE)).is_none());
    assert!(ConsensusCrypto::try_new(&"00".repeat(32)).is_none());
    assert!(ConsensusCrypto::try_new(&"ff".repeat(32)).is_none());
    let lower = KEY_THREE.to_lowercase();
    assert_eq!(crypto(KEY_THREE).name(), crypto(&lower).name());
}

#[test]
fn private_keys_are_below_the_group_order() {
    let order = "73eda753299d7d483339d80809a1d80553bda402fffe5bfeffffffff00000001";
    let last = "73eda753299d7d483339d80809a1d80553bda402fffe5bfeffffffff00000000";
    assert!(ConsensusCrypto::try_new(order).is_none());
    assert!(ConsensusCrypto::try_new(last).is_some());
    assert!(ConsensusCrypto::try_new(&last[2..]).is_none());
    assert!(ConsensusCrypto::try_new(&format!("00{}", last)).is_none());
}

#[test]
fn own_signature_is_accepted() {
    let signer = crypto(KEY_TWO);
    let hash = signer.hash(b"block");
    let signature = signer.sign(&hash).unwrap();
    assert!(signer.verify_signature(&signature, &hash, signer.name()).is_ok());
    assert!(crypto(KEY_ONE).verify_signature(&signature, &hash, signer.name()).is_ok());
    assert_eq!(signature, crypto(KEY_TWO).sign(&hash).unwrap());
}

#[test]
fn signing_wants_a_hash() {
    let signer = crypto(KEY_TWO);
    for hash in [vec![], vec![7; 31], vec![7; 33]] {
        assert!(matches!(
            signer.sign(&hash),
            Err(ConsensusError::Other(t)) if t == "failed to convert hash value"
        ));
    }
}

#[test]
fn faults_of_a_signature_in_order() {
    let signer = crypto(KEY_TWO);
    let stranger = crypto(KEY_THREE);
    let hash = signer.hash(b"block");
    let signature = signer.sign(&hash).unwrap();
    let check = |signature: &[u8], hash: &[u8], voter: &[u8]| {
        signer.verify_signature(signature, hash, voter)
    };
    assert!(is_other(&check(b"", b"", b""), "failed to convert hash value"));
    assert!(is_other(&check(b"", &hash, b""), "lose public key"));
    assert!(is_crypto(&check(b"", &hash, signer.name()), CryptoError::Deserialize));
    assert!(is_crypto(
        &check(&signature, &signer.hash(b"other"), signer.name()),
        CryptoError::InvalidSignature
    ));
    assert!(is_crypto(&check(&signature, &hash, stranger.name()), CryptoError::InvalidSignature));
}

#[test]
fn verdicts_by_their_parts() {
    assert!(is_other(&signature_verdict(false, true, true, true), "failed to convert hash value"));
    assert!(is_other(&signature_verdict(true, false, true, true), "lose public key"));
    assert!(is_crypto(&signature_verdict(true, true, false, true), CryptoError::Deserialize));
    assert!(is_crypto(&signature_verdict(true, true, true, false), CryptoError::InvalidSignature));
    assert!(signature_verdict(true, true, true, true).is_ok());

    assert!(is_crypto(&aggregate_verdict(false, false, false, false), CryptoError::AggregatePublicKey));
    assert!(is_crypto(&aggregate_verdict(true, false, false, false), CryptoError::Deserialize));
    assert!(is_other(&aggregate_verdict(true, true, false, false), "failed to convert hash value"));
    assert!(is_crypto(&aggregate_verdict(true, true, true, false), CryptoError::InvalidSignature));
    assert!(aggregate_verdict(true, true, true, true).is_ok());

    assert!(is_crypto(&pair_verdict(false, false), CryptoError::Deserialize));
    assert!(is_other(&pair_verdict(true, false), "lose public key"));
    assert!(pair_verdict(true, true).is_ok());
}

#[test]
fn aggregated_signature_is_accepted() {
    let signers = [crypto(KEY_ONE), crypto(KEY_TWO), crypto(KEY_THREE)];
    let hash = signers[0].hash(b"block");
    let signatures: Vec<Vec<u8>> = signers.iter().map(|s| s.sign(&hash).unwrap()).collect();
    let voters: Vec<Vec<u8>> = signers.iter().map(|s| s.name().to_vec()).collect();
    let sum = signers[0].aggregate_signatures(&signatures, &voters).unwrap();
    assert!(signers[1].verify_aggregated_signature(&sum, &hash, &voters).is_ok());
    assert!(signers[1].inner_verify_aggregated_signature(&hash, &voters, &sum).is_ok());

    let fewer = voters[..2].to_vec();
    assert!(is_crypto(
        &signers[1].verify_aggregated_signature(&sum, &hash, &fewer),
        CryptoError::InvalidSignature
    ));
    let other = signers[0].hash(b"other");
    assert!(is_crypto(
        &signers[1].verify_aggregated_signature(&sum, &other, &voters),
        CryptoError::InvalidSignature
    ));
    let mut turned = voters.clone();
    turned.reverse();
    assert!(signers[1].verify_aggregated_signature(&sum, &hash, &turned).is_ok());
}

#[test]
fn keys_that_cancel_out_accept_nothing() {
    let last = "73eda753299d7d483339d80809a1d80553bda402fffe5bfeffffffff00000000";
    let signers = [crypto(KEY_ONE), crypto(last)];
    let hash = signers[0].hash(b"block");
    let signatures: Vec<Vec<u8>> = signers.iter().map(|s| s.sign(&hash).unwrap()).collect();
    let voters: Vec<Vec<u8>> = signers.iter().map(|s| s.name().to_vec()).collect();
    let sum = signers[0].aggregate_signatures(&signatures, &voters).unwrap();
    assert!(is_crypto(
        &signers[0].verify_aggregated_signature(&sum, &hash, &voters),
        CryptoError::InvalidSignature
    ));
}

#[test]
fn one_signature_adds_up_to_itself() {
    let signer = crypto(KEY_TWO);
    let hash = signer.hash(b"block");
    let signature = signer.sign(&hash).unwrap();
    let sum = signer
        .aggregate_signatures(&vec![signature.clone()], &vec![signer.name().to_vec()])
        .unwrap();
    assert_eq!(sum, signature);
}

#[test]
fn faults_of_an_aggregation() {
    let signer = crypto(KEY_TWO);
    let hash = signer.hash(b"block");
    let signature = signer.sign(&hash).unwrap();
    let name = signer.name().to_vec();
    let text = |res: Result<Vec<u8>, ConsensusError>| match res {
        Err(ConsensusError::Other(t)) => t,
        _ => "no text".to_string(),
    };
    let error = |res: Result<Vec<u8>, ConsensusError>| match res {
        Err(ConsensusError::CryptoErr(e)) => Some(e),
        _ => None,
    };
    assert_eq!(
        text(signer.aggregate_signatures(&vec![signature.clone()], &vec![])),
        "signatures length does not match voters length"
    );
    assert_eq!(
        error(signer.aggregate_signatures(&vec![vec![1]], &vec![vec![2]])),
        Some(CryptoError::Deserialize)
    );
    assert_eq!(
        text(signer.aggregate_signatures(&vec![signature.clone()], &vec![vec![2]])),
        "lose public key"
    );
    // The first pair with a fault counts.
    assert_eq!(
        text(signer.aggregate_signatures(
            &vec![signature.clone(), vec![1]],
            &vec![vec![2], name.clone()]
        )),
        "lose public key"
    );
    assert_eq!(
        error(signer.aggregate_signatures(
            &vec![signature.clone(), vec![1]],
            &vec![name.clone(), vec![2]]
        )),
        Some(CryptoError::Deserialize)
    );
    assert_eq!(
        error(signer.aggregate_signatures(&vec![], &vec![])),
        Some(CryptoError::AggregateSignature)
    );
}

#[test]
fn faults_of_an_aggregated_signature_in_order() {
    let signer = crypto(KEY_TWO);
    let hash = signer.hash(b"block");
    let signature = signer.sign(&hash).unwrap();
    let name = signer.name().to_vec();
    let check = |signature: &[u8], hash: &[u8], voters: &Vec<Vec<u8>>| {
        signer.verify_aggregated_signature(signature, hash, voters)
    };
    assert!(is_other(&check(b"", b"", &vec![name.clone(), vec![1]]), "lose public key"));
    assert!(is_crypto(&check(&signature, &hash, &vec![]), CryptoError::AggregatePublicKey));
    let mut infinity = vec![0; 48];
    infinity[0] = 0xc0;
    assert!(is_crypto(&check(&signature, &hash, &vec![infinity]), CryptoError::AggregatePublicKey));
    let voters = vec![name];
    assert!(is_crypto(&check(b"", b"", &voters), CryptoError::Deserialize));
    assert!(is_other(&check(&signature, b"", &voters), "failed to convert hash value"));
    assert!(is_crypto(
        &check(&signature, &signer.hash(b"other"), &voters),
        CryptoError::InvalidSignature
    ));
    assert!(check(&signature, &hash, &voters).is_ok());
}

#[test]
fn keys_of_validators() {
    let mut crypto_one = crypto(KEY_ONE);
    let names = vec![crypto(KEY_TWO).name().to_vec(), crypto(KEY_THREE).name().to_vec()];
    assert!(parse_public_keys(&vec![]));
    assert!(parse_public_keys(&names));
    assert!(!parse_public_keys(&vec![names[0].clone(), vec![0; 48]]));
    crypto_one.update_pubkeys(names);
    assert_eq!(hex::encode(crypto_one.name()), GENERATOR);
}

#[test]
fn nodes_of_validators() {
    let nodes = validators_to_nodes(&[vec![3], vec![1, 2], vec![]]);
    assert_eq!(nodes.len(), 3);
    assert_eq!(nodes[0].address, vec![3]);
    assert_eq!(nodes[1].address, vec![1, 2]);
    assert!(nodes[2].address.is_empty());
    for node in &nodes {
        assert_eq!((node.propose_weight, node.vote_weight), (1, 1));
    }
    let copy = copy_nodes(&nodes);
    assert_eq!(copy.len(), 3);
    assert_eq!(copy[1].address, vec![1, 2]);
    assert_eq!(copy_addresses(&[vec![3], vec![1, 2]]), vec![vec![3], vec![1, 2]]);
}

#[test]
fn timeouts_of_a_round() {
    let config = timer_config().unwrap();
    assert_eq!(config.propose_ratio, 15);
    assert_eq!(config.prevote_ratio, 10);
    assert_eq!(config.precommit_ratio, 10);
    assert_eq!(config.brake_ratio, 7);
}

#[test]
fn origin_of_a_validator() {
    assert_eq!(validator_to_origin(&[0, 0, 0, 0, 0, 0, 1, 2]), 258);
    assert_eq!(validator_to_origin(&[1, 2, 3, 4, 5, 6, 7, 8, 9, 9]), 0x0102030405060708);
    assert_eq!(validator_to_origin(&[255; 8]), u64::MAX);
    assert_eq!(
        validator_to_origin(&[1, 2, 3, 4, 5, 6, 7, 8, 0]),
        validator_to_origin(&[1, 2, 3, 4, 5, 6, 7, 8, 1])
    );
}

#[test]
fn comparisons() {
    assert!(bytes_eq(b"abc", b"abc"));
    assert!(!bytes_eq(b"abc", b"abd"));
    assert!(!bytes_eq(b"abc", b"ab"));
    assert!(text_is(&"consensus".to_string(), "consensus"));
    assert!(!text_is(&"Consensus".to_string(), "consensus"));
}
