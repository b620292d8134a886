use crate::bls::{
    aggregate_key, aggregate_public_keys, all_accepted, combination_accepted, combine_signatures,
    combined_signature, hash_value, is_private_key, is_proven_key, is_public_key, is_signature,
    keys_cancel_out, parse_private_key, parse_public_key, parse_signature, public_key,
    public_key_of, sign_message, signature_accepts, signature_by, sum_ignores_order, verify,
};
use crate::error::{bytes_outcome, other, outcome, ConsensusError, CryptoError, ErrorView};
use crate::types::bytes_of;
use crate::util::{sm3_digest, sm3_hash, HASH_BYTES_LEN};
use vstd::prelude::*;

verus! {

/// Whether a character is a hexadecimal digit, in either case.
pub open spec fn is_hex_digit(c: char) -> bool {
    '0' <= c <= '9' || 'a' <= c <= 'f' || 'A' <= c <= 'F'
}

/// The value of a hexadecimal digit.
pub open spec fn hex_value(c: char) -> int {
    if '0' <= c <= '9' {
        c as int - '0' as int
    } else if 'a' <= c <= 'f' {
        c as int - 'a' as int + 10
    } else {
        c as int - 'A' as int + 10
    }
}

/// Whether a text writes bytes in hexadecimal: two digits for each.
pub open spec fn is_hex(text: Seq<char>) -> bool {
    text.len() % 2 == 0 && forall|i: int| 0 <= i < text.len() ==> is_hex_digit(#[trigger] text[i])
}

/// The bytes that a text writes in hexadecimal.
pub open spec fn hex_bytes(text: Seq<char>) -> Seq<u8> {
    Seq::new(
        text.len() / 2,
        |i: int| (16 * hex_value(text[2 * i]) + hex_value(text[2 * i + 1])) as u8,
    )
}

/// Decodes hexadecimal text, by `hex::decode`: two digits of either case for each
/// byte, and nothing else, not even space around them.
#[verifier::external_body]
fn decode_hex(text: &str) -> (res: Option<Vec<u8>>)
    ensures
        res is Some <==> is_hex(text@),
        res matches Some(bytes) ==> bytes@ == hex_bytes(text@),
{
    hex::decode(text).ok()
}

/// Whether a text writes a private key in hexadecimal.
pub open spec fn is_key_text(text: Seq<char>) -> bool {
    is_hex(text) && is_private_key(hex_bytes(text))
}

/// What a check of one signature says, by what was found of its parts: whether the
/// hash has the right length, whether the voter's address is a key, whether the
/// signature decodes, and whether the key accepts it. The first fault counts.
pub open spec fn signature_verdict_of(
    hash_fits: bool,
    voter_is_key: bool,
    signature_decodes: bool,
    accepted: bool,
) -> Result<(), ErrorView> {
    if !hash_fits {
        Err(ErrorView::Other("failed to convert hash value"@))
    } else if !voter_is_key {
        Err(ErrorView::Other("lose public key"@))
    } else if !signature_decodes {
        Err(ErrorView::CryptoErr(CryptoError::Deserialize))
    } else if !accepted {
        Err(ErrorView::CryptoErr(CryptoError::InvalidSignature))
    } else {
        Ok(())
    }
}

/// What a check of one signature says, by what was found of its parts.
pub fn signature_verdict(
    hash_fits: bool,
    voter_is_key: bool,
    signature_decodes: bool,
    accepted: bool,
) -> (res: Result<(), ConsensusError>)
    ensures
        outcome(res) == signature_verdict_of(hash_fits, voter_is_key, signature_decodes, accepted),
{
    if !hash_fits {
        Err(other("failed to convert hash value"))
    } else if !voter_is_key {
        Err(other("lose public key"))
    } else if !signature_decodes {
        Err(ConsensusError::CryptoErr(CryptoError::Deserialize))
    } else if !accepted {
        Err(ConsensusError::CryptoErr(CryptoError::InvalidSignature))
    } else {
        Ok(())
    }
}

/// What the check of a signature of `hash` by `voter` says.
pub open spec fn signature_check(signature: Seq<u8>, hash: Seq<u8>, voter: Seq<u8>) -> Result<
    (),
    ErrorView,
> {
    signature_verdict_of(
        hash.len() == HASH_BYTES_LEN,
        is_public_key(voter),
        is_signature(signature),
        signature_accepts(signature, hash, voter),
    )
}

/// What a check of an aggregated signature says, by what was found of its parts:
/// whether the keys add up, whether the signature decodes, whether the hash has
/// the right length, and whether the sum of the keys accepts the signature. The
/// first fault counts.
pub open spec fn aggregate_verdict_of(
    keys_add_up: bool,
    signature_decodes: bool,
    hash_fits: bool,
    accepted: bool,
) -> Result<(), ErrorView> {
    if !keys_add_up {
        Err(ErrorView::CryptoErr(CryptoError::AggregatePublicKey))
    } else if !signature_decodes {
        Err(ErrorView::CryptoErr(CryptoError::Deserialize))
    } else if !hash_fits {
        Err(ErrorView::Other("failed to convert hash value"@))
    } else if !accepted {
        Err(ErrorView::CryptoErr(CryptoError::InvalidSignature))
    } else {
        Ok(())
    }
}

/// What a check of an aggregated signature says, by what was found of its parts.
pub fn aggregate_verdict(
    keys_add_up: bool,
    signature_decodes: bool,
    hash_fits: bool,
    accepted: bool,
) -> (res: Result<(), ConsensusError>)
    ensures
        outcome(res) == aggregate_verdict_of(keys_add_up, signature_decodes, hash_fits, accepted),
{
    if !keys_add_up {
        Err(ConsensusError::CryptoErr(CryptoError::AggregatePublicKey))
    } else if !signature_decodes {
        Err(ConsensusError::CryptoErr(CryptoError::Deserialize))
    } else if !hash_fits {
        Err(other("failed to convert hash value"))
    } else if !accepted {
        Err(ConsensusError::CryptoErr(CryptoError::InvalidSignature))
    } else {
        Ok(())
    }
}

/// What the check of an aggregated signature of `hash` by the holders of `keys`
/// says.
pub open spec fn aggregate_check(hash: Seq<u8>, keys: Seq<Seq<u8>>, signature: Seq<u8>) -> Result<
    (),
    ErrorView,
> {
    aggregate_verdict_of(
        aggregate_key(keys) is Some,
        is_signature(signature),
        hash.len() == HASH_BYTES_LEN,
        aggregate_key(keys) matches Some(key) && signature_accepts(signature, hash, key),
    )
}

/// Whether every entry of a list is a public key.
pub open spec fn all_public_keys(list: Seq<Seq<u8>>) -> bool {
    forall|i: int| 0 <= i < list.len() ==> is_public_key(#[trigger] list[i])
}

/// Whether every entry of a list has the length of a public key, in the compressed
/// or in the uncompressed form.
pub open spec fn all_key_sized(list: Seq<Seq<u8>>) -> bool {
    forall|i: int|
        0 <= i < list.len() ==> (#[trigger] list[i]).len() == 48 || list[i].len() == 96
}

/// What the check of an aggregated signature of `hash` by `voters` says: every
/// voter's address has to be a key first.
pub open spec fn voters_check(signature: Seq<u8>, hash: Seq<u8>, voters: Seq<Seq<u8>>) -> Result<
    (),
    ErrorView,
> {
    if all_public_keys(voters) {
        aggregate_check(hash, voters, signature)
    } else {
        Err(ErrorView::Other("lose public key"@))
    }
}

/// What is said of a signature and the voter beside it before they are aggregated,
/// by whether they decode.
pub open spec fn pair_verdict_of(signature_decodes: bool, voter_is_key: bool) -> Result<
    (),
    ErrorView,
> {
    if !signature_decodes {
        Err(ErrorView::CryptoErr(CryptoError::Deserialize))
    } else if !voter_is_key {
        Err(ErrorView::Other("lose public key"@))
    } else {
        Ok(())
    }
}

/// What is said of a signature and the voter beside it, by whether they decode.
pub fn pair_verdict(signature_decodes: bool, voter_is_key: bool) -> (res: Result<
    (),
    ConsensusError,
>)
    ensures
        outcome(res) == pair_verdict_of(signature_decodes, voter_is_key),
{
    if !signature_decodes {
        Err(ConsensusError::CryptoErr(CryptoError::Deserialize))
    } else if !voter_is_key {
        Err(other("lose public key"))
    } else {
        Ok(())
    }
}

/// What is said of signatures and the voters beside them: the first pair with a
/// fault counts.
pub open spec fn pairs_check(signatures: Seq<Seq<u8>>, voters: Seq<Seq<u8>>) -> Result<
    (),
    ErrorView,
>
    decreases signatures.len(),
{
    if signatures.len() == 0 || voters.len() == 0 {
        Ok(())
    } else {
        match pair_verdict_of(is_signature(signatures[0]), is_public_key(voters[0])) {
            Err(e) => Err(e),
            Ok(()) => pairs_check(signatures.drop_first(), voters.drop_first()),
        }
    }
}

/// What the aggregation of signatures gives.
pub open spec fn aggregation(signatures: Seq<Seq<u8>>, voters: Seq<Seq<u8>>) -> Result<
    Seq<u8>,
    ErrorView,
> {
    if signatures.len() != voters.len() {
        Err(ErrorView::Other("signatures length does not match voters length"@))
    } else {
        match pairs_check(signatures, voters) {
            Err(e) => Err(e),
            Ok(()) => match combined_signature(signatures) {
                Some(sum) => Ok(sum),
                None => Err(ErrorView::CryptoErr(CryptoError::AggregateSignature)),
            },
        }
    }
}

/// Whether every signature is a good one of `hash` by the signer beside it.
pub open spec fn all_signed(
    signatures: Seq<Seq<u8>>,
    signers: Seq<Seq<u8>>,
    hash: Seq<u8>,
) -> bool {
    &&& signatures.len() == signers.len()
    &&& forall|i: int|
        0 <= i < signers.len() ==> signature_check(
            #[trigger] signatures[i],
            hash,
            signers[i],
        ) is Ok
}

/// Whether `sum` is what the aggregation of good signatures of `hash` by `signers`
/// gives.
pub open spec fn is_sum_of(
    sum: Seq<u8>,
    signatures: Seq<Seq<u8>>,
    signers: Seq<Seq<u8>>,
    hash: Seq<u8>,
) -> bool {
    &&& signers.len() > 0
    &&& all_signed(signatures, signers, hash)
    &&& is_signature(sum)
    &&& combination_accepted(signatures, signers, sum)
}

/// Whether `sum` was aggregated from good signatures of `hash` by just the voters,
/// in whatever order.
pub open spec fn is_agreed(sum: Seq<u8>, hash: Seq<u8>, voters: Seq<Seq<u8>>) -> bool {
    exists|signatures: Seq<Seq<u8>>, signers: Seq<Seq<u8>>|
        #[trigger] is_sum_of(sum, signatures, signers, hash) && signers.to_multiset()
            == voters.to_multiset()
}

/// Those that agreed are at least one, and each has a key that accepted a signature.
pub proof fn lemma_agreed_voters(sum: Seq<u8>, hash: Seq<u8>, voters: Seq<Seq<u8>>)
    requires
        is_agreed(sum, hash, voters),
    ensures
        voters.len() > 0,
        all_public_keys(voters),
        forall|i: int| 0 <= i < voters.len() ==> is_proven_key(#[trigger] voters[i]),
{
    let (signatures, signers) = choose|signatures: Seq<Seq<u8>>, signers: Seq<Seq<u8>>|
        #[trigger] is_sum_of(sum, signatures, signers, hash) && signers.to_multiset()
            == voters.to_multiset();
    signers.to_multiset_ensures();
    voters.to_multiset_ensures();
    assert forall|i: int| 0 <= i < voters.len() implies is_public_key(#[trigger] voters[i])
        && is_proven_key(voters[i]) by {
        assert(voters.contains(voters[i]));
        assert(voters.to_multiset().count(voters[i]) > 0);
        assert(signers.contains(voters[i]));
        let k = choose|k: int| 0 <= k < signers.len() && signers[k] == voters[i];
        assert(signature_check(signatures[k], hash, signers[k]) is Ok);
        assert(signature_accepts(signatures[k], hash, signers[k]));
    }
}

/// What was agreed is accepted by the voters, in whatever order they are named,
/// unless their keys cancel out. That their keys add up, in every order to the same
/// sum, is what a check of an aggregated signature finds out.
pub proof fn lemma_agreed_is_accepted(sum: Seq<u8>, hash: Seq<u8>, voters: Seq<Seq<u8>>)
    requires
        is_agreed(sum, hash, voters),
        aggregate_key(voters) is Some,
        sum_ignores_order(voters),
        !keys_cancel_out(voters),
    ensures
        voters_check(sum, hash, voters) is Ok,
{
    lemma_agreed_voters(sum, hash, voters);
    let (signatures, signers) = choose|signatures: Seq<Seq<u8>>, signers: Seq<Seq<u8>>|
        #[trigger] is_sum_of(sum, signatures, signers, hash) && signers.to_multiset()
            == voters.to_multiset();
    let key = aggregate_key(voters)->0;
    assert(aggregate_key(signers) == Some(key));
    assert(signature_check(signatures[0], hash, signers[0]) is Ok);
    assert forall|i: int| 0 <= i < signers.len() implies #[trigger] signature_accepts(
        signatures[i],
        hash,
        signers[i],
    ) by {
        assert(signature_check(signatures[i], hash, signers[i]) is Ok);
    }
    assert(all_accepted(signatures, signers, hash));
    assert(signature_accepts(sum, hash, key));
}

proof fn lemma_keys_entry_by_entry(list: Seq<Vec<u8>>)
    ensures
        all_public_keys(bytes_of(list)) <==> forall|i: int|
            0 <= i < list.len() ==> is_public_key(#[trigger] list[i]@),
{
    assert forall|i: int| 0 <= i < list.len() implies #[trigger] bytes_of(list)[i] == list[i]@ by {}
    if all_public_keys(bytes_of(list)) {
        assert forall|i: int| 0 <= i < list.len() implies is_public_key(#[trigger] list[i]@) by {
            assert(is_public_key(bytes_of(list)[i]));
        }
    }
}

proof fn lemma_pairs_check_step(signatures: Seq<Seq<u8>>, voters: Seq<Seq<u8>>, i: int)
    requires
        0 <= i < signatures.len(),
        signatures.len() == voters.len(),
    ensures
        pairs_check(signatures.skip(i), voters.skip(i)) == (match pair_verdict_of(
            is_signature(signatures[i]),
            is_public_key(voters[i]),
        ) {
            Err(e) => Err(e),
            Ok(()) => pairs_check(signatures.skip(i + 1), voters.skip(i + 1)),
        }),
{
    assert(signatures.skip(i).drop_first() =~= signatures.skip(i + 1));
    assert(voters.skip(i).drop_first() =~= voters.skip(i + 1));
}

/// The keys of a validator, and the signature scheme that the engine signs and
/// checks votes with.
pub struct ConsensusCrypto {
    private_key: Vec<u8>,
    pubkeys: Vec<Vec<u8>>,
    common_ref: String,
    name: Vec<u8>,
}

pub struct CryptoView {
    pub private_key: Seq<u8>,
    /// The keys of the current validators.
    pub pubkeys: Seq<Seq<u8>>,
    pub common_ref: Seq<char>,
    /// The validator's own public key, which is its address.
    pub name: Seq<u8>,
}

impl View for ConsensusCrypto {
    type V = CryptoView;

    closed spec fn view(&self) -> CryptoView {
        CryptoView {
            private_key: self.private_key@,
            pubkeys: bytes_of(self.pubkeys@),
            common_ref: self.common_ref@,
            name: self.name@,
        }
    }
}

impl CryptoView {
    /// What a private key starts with: its own address, and no other keys.
    pub open spec fn of_key(private_key: Seq<u8>) -> CryptoView {
        CryptoView {
            private_key,
            pubkeys: Seq::empty(),
            common_ref: ""@,
            name: public_key_of(private_key),
        }
    }

    /// The private key decodes, the name is its public key, and all other keys
    /// decode.
    pub open spec fn wf(self) -> bool {
        &&& is_private_key(self.private_key)
        &&& self.name == public_key_of(self.private_key)
        &&& self.name.len() == 48
        &&& is_public_key(self.name)
        &&& self.common_ref == ""@
        &&& all_public_keys(self.pubkeys)
    }
}

impl ConsensusCrypto {
    #[verifier::type_invariant]
    spec fn inv(self) -> bool {
        self@.wf()
    }

    /// The keys for the private key that `private_key_text` writes in hexadecimal.
    pub fn new(private_key_text: &str) -> (crypto: Self)
        requires
            is_key_text(private_key_text@),
        ensures
            crypto@ == CryptoView::of_key(hex_bytes(private_key_text@)),
            crypto@.wf(),
    {
        let private_key = decode_hex(private_key_text).unwrap();
        let common_ref = "".to_string();
        let name = public_key(private_key.as_slice(), &common_ref);
        let pubkeys: Vec<Vec<u8>> = Vec::new();
        assert(bytes_of(pubkeys@) =~= Seq::empty());
        ConsensusCrypto { private_key, pubkeys, common_ref, name }
    }

    /// The keys for the private key that `private_key_text` writes in hexadecimal,
    /// or nothing if it does not write one.
    pub fn try_new(private_key_text: &str) -> (res: Option<Self>)
        ensures
            res is Some <==> is_key_text(private_key_text@),
            res matches Some(crypto) ==> crypto@ == CryptoView::of_key(
                hex_bytes(private_key_text@),
            ) && crypto@.wf(),
    {
        match decode_hex(private_key_text) {
            Some(private_key) => match parse_private_key(private_key.as_slice()) {
                Ok(_) => Some(ConsensusCrypto::new(private_key_text)),
                Err(_) => None,
            },
            None => None,
        }
    }

    /// The validator's address.
    pub fn name(&self) -> (name: &[u8])
        ensures
            name@ == self@.name,
            self@.wf(),
    {
        proof {
            use_type_invariant(self);
        }
        self.name.as_slice()
    }

    /// Replaces the keys of the current validators.
    pub fn update_pubkeys(&mut self, new_pubkeys: Vec<Vec<u8>>)
        requires
            all_public_keys(bytes_of(new_pubkeys@)),
        ensures
            final(self)@ == (CryptoView { pubkeys: bytes_of(new_pubkeys@), ..old(self)@ }),
    {
        proof {
            use_type_invariant(&*self);
        }
        self.pubkeys = new_pubkeys;
    }

    /// Checks an aggregated signature of `hash` by the holders of `pub_keys`.
    pub fn inner_verify_aggregated_signature(
        &self,
        hash: &[u8],
        pub_keys: &Vec<Vec<u8>>,
        signature: &[u8],
    ) -> (res: Result<(), ConsensusError>)
        requires
            all_public_keys(bytes_of(pub_keys@)),
        ensures
            outcome(res) == aggregate_check(hash@, bytes_of(pub_keys@), signature@),
            res is Ok <==> {
                &&& hash@.len() == 32
                &&& is_signature(signature@)
                &&& aggregate_key(bytes_of(pub_keys@)) matches Some(key)
                &&& signature_accepts(signature@, hash@, key)
            },
            sum_ignores_order(bytes_of(pub_keys@)),
            pub_keys@.len() == 0 ==> aggregate_key(bytes_of(pub_keys@)) is None,
            pub_keys@.len() > 0 && (forall|i: int|
                0 <= i < pub_keys@.len() ==> is_proven_key(#[trigger] bytes_of(pub_keys@)[i]))
                ==> aggregate_key(bytes_of(pub_keys@)) is Some,
    {
        let aggregated = aggregate_public_keys(pub_keys);
        let signature_decodes = parse_signature(signature).is_ok();
        let hash_value = hash_value(hash);
        let accepted = match (&aggregated, &hash_value) {
            (Ok(key), Some(hash)) => signature_decodes && verify(
                signature,
                hash,
                key.as_slice(),
                &self.common_ref,
            ).is_ok(),
            _ => false,
        };
        aggregate_verdict(aggregated.is_ok(), signature_decodes, hash_value.is_some(), accepted)
    }

    /// The hash of a message.
    pub fn hash(&self, msg: &[u8]) -> (hash: Vec<u8>)
        ensures
            hash@ == sm3_digest(msg@),
            hash@.len() == HASH_BYTES_LEN,
    {
        let digest = sm3_hash(msg);
        vstd::slice::slice_to_vec(digest.as_slice())
    }

    /// Signs a hash. The validator's own address accepts what it signed.
    pub fn sign(&self, hash: &[u8]) -> (res: Result<Vec<u8>, ConsensusError>)
        ensures
            bytes_outcome(res) == (if hash@.len() == HASH_BYTES_LEN {
                Ok(signature_by(self@.private_key, hash@))
            } else {
                Err(ErrorView::Other("failed to convert hash value"@))
            }),
            res matches Ok(signature) ==> signature_check(signature@, hash@, self@.name) == Ok::<
                (),
                ErrorView,
            >(()),
    {
        proof {
            use_type_invariant(self);
        }
        match hash_value(hash) {
            Some(hash) => Ok(sign_message(self.private_key.as_slice(), &hash)),
            None => Err(other("failed to convert hash value")),
        }
    }

    /// Checks a signature of `hash` by `voter`.
    pub fn verify_signature(&self, signature: &[u8], hash: &[u8], voter: &[u8]) -> (res: Result<
        (),
        ConsensusError,
    >)
        ensures
            outcome(res) == signature_check(signature@, hash@, voter@),
            res is Ok <==> hash@.len() == 32 && is_public_key(voter@) && is_signature(signature@)
                && signature_accepts(signature@, hash@, voter@),
    {
        let hash_value = hash_value(hash);
        let voter_is_key = parse_public_key(voter).is_ok();
        let signature_decodes = parse_signature(signature).is_ok();
        let accepted = match &hash_value {
            Some(hash) => voter_is_key && signature_decodes && verify(
                signature,
                hash,
                voter,
                &self.common_ref,
            ).is_ok(),
            None => false,
        };
        signature_verdict(hash_value.is_some(), voter_is_key, signature_decodes, accepted)
    }

    /// Adds up signatures of one hash by different voters. Good signatures always
    /// add up, and what comes out is accepted by the sum of the voters' keys.
    pub fn aggregate_signatures(&self, signatures: &Vec<Vec<u8>>, voters: &Vec<Vec<u8>>) -> (res:
        Result<Vec<u8>, ConsensusError>)
        ensures
            bytes_outcome(res) == aggregation(bytes_of(signatures@), bytes_of(voters@)),
            res is Ok <==> {
                &&& signatures@.len() == voters@.len()
                &&& forall|i: int|
                    0 <= i < signatures@.len() ==> is_signature(#[trigger] signatures@[i]@)
                &&& forall|i: int| 0 <= i < voters@.len() ==> is_public_key(#[trigger] voters@[i]@)
                &&& combined_signature(bytes_of(signatures@)) is Some
            },
            res matches Ok(sum) ==> combined_signature(bytes_of(signatures@)) == Some(sum@),
            res matches Ok(sum) ==> is_signature(sum@) && combination_accepted(
                bytes_of(signatures@),
                bytes_of(voters@),
                sum@,
            ),
            signatures@.len() > 0 && (exists|hash: Seq<u8>|
                all_signed(bytes_of(signatures@), bytes_of(voters@), hash)) ==> res is Ok,
    {
        if signatures.len() != voters.len() {
            return Err(other("signatures length does not match voters length"));
        }
        let ghost all_signatures = bytes_of(signatures@);
        let ghost all_voters = bytes_of(voters@);
        assert(all_signatures.skip(0) =~= all_signatures);
        assert(all_voters.skip(0) =~= all_voters);
        for i in 0..signatures.len()
            invariant
                signatures@.len() == voters@.len(),
                all_signatures == bytes_of(signatures@),
                all_voters == bytes_of(voters@),
                pairs_check(all_signatures, all_voters) == pairs_check(
                    all_signatures.skip(i as int),
                    all_voters.skip(i as int),
                ),
                forall|j: int| 0 <= j < i ==> is_signature(#[trigger] all_signatures[j]),
                forall|j: int| 0 <= j < i ==> is_public_key(#[trigger] all_voters[j]),
        {
            proof {
                lemma_pairs_check_step(all_signatures, all_voters, i as int);
            }
            let signature_decodes = parse_signature(signatures[i].as_slice()).is_ok();
            let voter_is_key = parse_public_key(voters[i].as_slice()).is_ok();
            match pair_verdict(signature_decodes, voter_is_key) {
                Ok(_) => {},
                Err(e) => {
                    assert forall|hash: Seq<u8>| !all_signed(all_signatures, all_voters, hash) by {
                        assert(signature_check(
                            all_signatures[i as int],
                            hash,
                            all_voters[i as int],
                        ) is Err);
                    }
                    return Err(e);
                },
            }
        }
        proof {
            lemma_keys_entry_by_entry(voters@);
            assert forall|i: int| 0 <= i < signatures@.len() implies is_signature(
                #[trigger] signatures@[i]@,
            ) by {
                assert(is_signature(all_signatures[i]));
            }
            if signatures@.len() > 0 && exists|hash: Seq<u8>|
                all_signed(all_signatures, all_voters, hash) {
                let hash = choose|hash: Seq<u8>| all_signed(all_signatures, all_voters, hash);
                assert(signature_check(all_signatures[0], hash, all_voters[0]) is Ok);
                assert forall|i: int| 0 <= i < all_voters.len() implies #[trigger] signature_accepts(
                    all_signatures[i],
                    hash,
                    all_voters[i],
                ) by {
                    assert(signature_check(all_signatures[i], hash, all_voters[i]) is Ok);
                }
                assert(all_accepted(all_signatures, all_voters, hash));
            }
        }
        match combine_signatures(signatures, voters) {
            Ok(sum) => Ok(sum),
            Err(_) => Err(ConsensusError::CryptoErr(CryptoError::AggregateSignature)),
        }
    }

    /// Checks an aggregated signature of `hash` by `voters`. What was aggregated from
    /// good signatures by just these voters is accepted, in whatever order they
    /// signed and are named, unless their keys cancel out.
    pub fn verify_aggregated_signature(
        &self,
        aggregated_signature: &[u8],
        hash: &[u8],
        voters: &Vec<Vec<u8>>,
    ) -> (res: Result<(), ConsensusError>)
        ensures
            outcome(res) == voters_check(aggregated_signature@, hash@, bytes_of(voters@)),
            res is Ok <==> {
                &&& forall|i: int| 0 <= i < voters@.len() ==> is_public_key(#[trigger] voters@[i]@)
                &&& hash@.len() == 32
                &&& is_signature(aggregated_signature@)
                &&& aggregate_key(bytes_of(voters@)) matches Some(key)
                &&& signature_accepts(aggregated_signature@, hash@, key)
            },
            voters@.len() == 0 ==> res is Err,
            is_agreed(aggregated_signature@, hash@, bytes_of(voters@)) && !keys_cancel_out(
                bytes_of(voters@),
            ) ==> res is Ok,
            all_public_keys(bytes_of(voters@)) ==> sum_ignores_order(bytes_of(voters@)),
            is_agreed(aggregated_signature@, hash@, bytes_of(voters@)) ==> aggregate_key(
                bytes_of(voters@),
            ) is Some,
    {
        proof {
            lemma_keys_entry_by_entry(voters@);
            if is_agreed(aggregated_signature@, hash@, bytes_of(voters@)) {
                lemma_agreed_voters(aggregated_signature@, hash@, bytes_of(voters@));
            }
        }
        if parse_public_keys(voters) {
            let res = self.inner_verify_aggregated_signature(hash, voters, aggregated_signature);
            proof {
                if is_agreed(aggregated_signature@, hash@, bytes_of(voters@)) && !keys_cancel_out(
                    bytes_of(voters@),
                ) {
                    lemma_agreed_is_accepted(aggregated_signature@, hash@, bytes_of(voters@));
                }
            }
            res
        } else {
            Err(other("lose public key"))
        }
    }
}

/// Whether every entry of a list is a public key. Public keys have either of two
/// lengths.
pub fn parse_public_keys(list: &Vec<Vec<u8>>) -> (res: bool)
    ensures
        res == all_public_keys(bytes_of(list@)),
        res ==> all_key_sized(bytes_of(list@)),
{
    for i in 0..list.len()
        invariant
            forall|j: int| 0 <= j < i ==> is_public_key(#[trigger] bytes_of(list@)[j]),
            forall|j: int|
                0 <= j < i ==> (#[trigger] bytes_of(list@)[j]).len() == 48 || bytes_of(
                    list@,
                )[j].len() == 96,
    {
        match parse_public_key(list[i].as_slice()) {
            Ok(_) => {},
            Err(_) => {
                assert(!is_public_key(bytes_of(list@)[i as int]));
                return false;
            },
        }
    }
    true
}

} // verus!
