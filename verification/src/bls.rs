//! The BLS signature scheme of `ophelia` and `ophelia_blst`, over plain bytes.
//! Keys and signatures are held in the encoded form they are exchanged in.

use crate::types::bytes_of;
use crate::util::{big_endian, HASH_BYTES_LEN};
use ophelia::{BlsSignatureVerify, HashValue, PrivateKey, PublicKey, Signature, ToBlsPublicKey};
use ophelia_blst::{BlsError, BlsPrivateKey, BlsPublicKey, BlsSignature};
use vstd::prelude::*;

verus! {

#[verifier::external_type_specification]
#[verifier::external_body]
pub struct ExCryptoError(ophelia::Error);

#[verifier::external_type_specification]
#[verifier::external_body]
pub struct ExBlsError(BlsError);

/// Whether bytes decode to a public key.
pub uninterp spec fn is_public_key(bytes: Seq<u8>) -> bool;

/// Whether bytes decode to a signature.
pub uninterp spec fn is_signature(bytes: Seq<u8>) -> bool;

/// The number of elements of the groups that keys and signatures are from.
pub open spec fn group_order() -> nat {
    0x73eda753299d7d483339d80809a1d80553bda402fffe5bfeffffffff00000001nat
}

/// Whether bytes are a private key: a number of thirty-two bytes, most significant
/// byte first, that is neither zero nor as great as the group order.
pub open spec fn is_private_key(bytes: Seq<u8>) -> bool {
    bytes.len() == 32 && 0 < big_endian(bytes) < group_order()
}

/// The encoded public key of an encoded private key.
pub uninterp spec fn public_key_of(private_key: Seq<u8>) -> Seq<u8>;

/// The encoded signature of a hash by an encoded private key.
pub uninterp spec fn signature_by(private_key: Seq<u8>, hash: Seq<u8>) -> Seq<u8>;

/// Whether an encoded signature of a hash is one by the holder of an encoded
/// public key.
pub uninterp spec fn signature_accepts(signature: Seq<u8>, hash: Seq<u8>, key: Seq<u8>) -> bool;

/// The encoded sum of encoded public keys, if they can be added up.
pub uninterp spec fn aggregate_key(keys: Seq<Seq<u8>>) -> Option<Seq<u8>>;

/// The encoded sum of encoded signatures, if they can be added up.
pub uninterp spec fn combined_signature(signatures: Seq<Seq<u8>>) -> Option<Seq<u8>>;

/// A hash of a fixed length, by `ophelia::HashValue::try_from`: exactly the bytes
/// that are as many as a digest has are taken, and they are taken unchanged.
#[verifier::external_body]
pub(crate) fn hash_value(bytes: &[u8]) -> (res: Option<[u8; HASH_BYTES_LEN]>)
    ensures
        res is Some <==> bytes@.len() == HASH_BYTES_LEN,
        res matches Some(hash) ==> hash@ == bytes@,
{
    HashValue::try_from(bytes).ok().map(|hash| hash.to_bytes())
}

/// Decodes a public key, by `ophelia_blst::BlsPublicKey::try_from`: whether that
/// succeeds is named. A key that decodes is in the compressed or in the
/// uncompressed form, of forty-eight or ninety-six bytes.
#[verifier::external_body]
pub(crate) fn parse_public_key(bytes: &[u8]) -> (res: Result<(), ophelia::Error>)
    ensures
        res is Ok <==> is_public_key(bytes@),
        res is Ok ==> bytes@.len() == 48 || bytes@.len() == 96,
{
    BlsPublicKey::try_from(bytes).map(|_| ())
}

/// Decodes a signature, by `ophelia_blst::BlsSignature::try_from`: whether that
/// succeeds is named.
#[verifier::external_body]
pub(crate) fn parse_signature(bytes: &[u8]) -> (res: Result<(), ophelia::Error>)
    ensures
        res is Ok <==> is_signature(bytes@),
{
    BlsSignature::try_from(bytes).map(|_| ())
}

/// Decodes a private key, by `ophelia_blst::BlsPrivateKey::try_from`: thirty-two
/// bytes are read as a number, which has to be in range.
#[verifier::external_body]
pub(crate) fn parse_private_key(bytes: &[u8]) -> (res: Result<(), ophelia::Error>)
    ensures
        res is Ok <==> is_private_key(bytes@),
{
    BlsPrivateKey::try_from(bytes).map(|_| ())
}

/// The public key of a private key, by `ToBlsPublicKey::pub_key` of
/// `ophelia_blst::BlsPrivateKey`, in the compressed form, which decodes. The
/// common reference does not go into it.
#[verifier::external_body]
pub(crate) fn public_key(private_key: &[u8], common_ref: &String) -> (key: Vec<u8>)
    requires
        is_private_key(private_key@),
    ensures
        key@ == public_key_of(private_key@),
        key@.len() == 48,
        is_public_key(key@),
{
    BlsPrivateKey::try_from(private_key).unwrap().pub_key(common_ref).to_bytes().to_vec()
}

/// Signs a hash, by `PrivateKey::sign_message` of `ophelia_blst::BlsPrivateKey`.
/// The signature decodes, and the public key of the signer accepts it.
#[verifier::external_body]
pub(crate) fn sign_message(private_key: &[u8], hash: &[u8; HASH_BYTES_LEN]) -> (signature: Vec<u8>)
    requires
        is_private_key(private_key@),
    ensures
        signature@ == signature_by(private_key@, hash@),
        is_signature(signature@),
        signature_accepts(signature@, hash@, public_key_of(private_key@)),
{
    let key = BlsPrivateKey::try_from(private_key).unwrap();
    key.sign_message(&HashValue::from_bytes_unchecked(*hash)).to_bytes().to_vec()
}

/// Checks a signature, by `BlsSignatureVerify::verify` of
/// `ophelia_blst::BlsSignature`: whether that succeeds is named. The common
/// reference does not go into it.
#[verifier::external_body]
pub(crate) fn verify(
    signature: &[u8],
    hash: &[u8; HASH_BYTES_LEN],
    key: &[u8],
    common_ref: &String,
) -> (res: Result<(), ophelia::Error>)
    requires
        is_signature(signature@),
        is_public_key(key@),
    ensures
        res is Ok <==> signature_accepts(signature@, hash@, key@),
{
    let key = BlsPublicKey::try_from(key).unwrap();
    let hash = HashValue::from_bytes_unchecked(*hash);
    BlsSignature::try_from(signature).unwrap().verify(&hash, &key, common_ref)
}

/// Adds public keys up, by `ophelia_blst::BlsPublicKey::aggregate`. The sum is in
/// the compressed form, which decodes. There is no sum of no keys. Keys that have
/// each accepted a signature add up: a check of a signature checks the key in the
/// same way. In another order the keys have the same sum: points are added, and
/// the sum is written in one form.
#[verifier::external_body]
pub(crate) fn aggregate_public_keys(keys: &Vec<Vec<u8>>) -> (res: Result<Vec<u8>, BlsError>)
    requires
        forall|i: int| 0 <= i < keys@.len() ==> is_public_key(#[trigger] bytes_of(keys@)[i]),
    ensures
        res is Ok <==> aggregate_key(bytes_of(keys@)) is Some,
        res matches Ok(key) ==> aggregate_key(bytes_of(keys@)) == Some(key@) && is_public_key(key@),
        res matches Ok(key) ==> forall|other: Seq<Seq<u8>>|
            other.to_multiset() == bytes_of(keys@).to_multiset() ==> #[trigger] aggregate_key(other)
                == Some(key@),
        res is Err ==> forall|other: Seq<Seq<u8>>|
            other.to_multiset() == bytes_of(keys@).to_multiset() ==> #[trigger] aggregate_key(
                other,
            ) is None,
        keys@.len() == 0 ==> res is Err,
        keys@.len() > 0 && (forall|i: int|
            0 <= i < keys@.len() ==> is_proven_key(#[trigger] bytes_of(keys@)[i])) ==> res is Ok,
{
    let keys = keys.iter().map(|key| BlsPublicKey::try_from(key.as_slice()).unwrap()).collect();
    BlsPublicKey::aggregate(keys).map(|key| key.to_bytes().to_vec())
}

/// Adds signatures up, by `ophelia_blst::BlsSignature::combine`, which takes the
/// public keys along and leaves them unread. The sum is in the compressed form,
/// which decodes. There is no sum of no signatures.
///
/// If every signature is one of the same hash by the key beside it, then there is
/// a sum of them, and the sum of the keys accepts it, unless the keys cancel out:
/// a key that is no sum even of itself alone accepts nothing.
#[verifier::external_body]
pub(crate) fn combine_signatures(signatures: &Vec<Vec<u8>>, keys: &Vec<Vec<u8>>) -> (res: Result<
    Vec<u8>,
    BlsError,
>)
    requires
        signatures@.len() == keys@.len(),
        forall|i: int|
            0 <= i < signatures@.len() ==> is_signature(#[trigger] bytes_of(signatures@)[i]),
        forall|i: int| 0 <= i < keys@.len() ==> is_public_key(#[trigger] bytes_of(keys@)[i]),
    ensures
        res is Ok <==> combined_signature(bytes_of(signatures@)) is Some,
        res matches Ok(sum) ==> combined_signature(bytes_of(signatures@)) == Some(sum@)
            && is_signature(sum@),
        res matches Ok(sum) ==> combination_accepted(
            bytes_of(signatures@),
            bytes_of(keys@),
            sum@,
        ),
        signatures@.len() == 0 ==> res is Err,
        signatures@.len() > 0 && (exists|hash: Seq<u8>|
            all_accepted(bytes_of(signatures@), bytes_of(keys@), hash)) ==> res is Ok,
{
    let pairs = signatures.iter().zip(keys.iter()).map(|(sig, key)| (
        BlsSignature::try_from(sig.as_slice()).unwrap(),
        BlsPublicKey::try_from(key.as_slice()).unwrap(),
    )).collect();
    BlsSignature::combine(pairs).map(|sum| sum.to_bytes().to_vec())
}

/// Whether keys have the same sum in every order.
pub open spec fn sum_ignores_order(keys: Seq<Seq<u8>>) -> bool {
    forall|other: Seq<Seq<u8>>|
        other.to_multiset() == keys.to_multiset() ==> #[trigger] aggregate_key(other)
            == aggregate_key(keys)
}

/// Whether keys add up to one that accepts nothing: it is no sum even of itself
/// alone.
pub open spec fn keys_cancel_out(keys: Seq<Seq<u8>>) -> bool {
    aggregate_key(keys) matches Some(key) && aggregate_key(seq![key]) is None
}

/// Whether a public key has accepted some signature of some hash.
pub open spec fn is_proven_key(key: Seq<u8>) -> bool {
    exists|signature: Seq<u8>, hash: Seq<u8>|
        hash.len() == HASH_BYTES_LEN && is_signature(signature) && #[trigger] signature_accepts(
            signature,
            hash,
            key,
        )
}

/// Whether every signature is one of `hash` by the key beside it.
pub open spec fn all_accepted(
    signatures: Seq<Seq<u8>>,
    keys: Seq<Seq<u8>>,
    hash: Seq<u8>,
) -> bool {
    &&& hash.len() == HASH_BYTES_LEN
    &&& signatures.len() == keys.len()
    &&& forall|i: int|
        0 <= i < keys.len() ==> #[trigger] signature_accepts(signatures[i], hash, keys[i])
}

/// Whether `sum` is accepted by the sum of the keys for every hash that all the
/// signatures are of, each by the key beside it. A sum of keys that cancelled out
/// is left aside.
pub open spec fn combination_accepted(
    signatures: Seq<Seq<u8>>,
    keys: Seq<Seq<u8>>,
    sum: Seq<u8>,
) -> bool {
    forall|hash: Seq<u8>, key: Seq<u8>|
        #![trigger signature_accepts(sum, hash, key)]
        all_accepted(signatures, keys, hash) && aggregate_key(keys) == Some(key)
            && aggregate_key(seq![key]) is Some ==> signature_accepts(sum, hash, key)
}

} // verus!
