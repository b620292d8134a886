//! What a signature has to be to be accepted, and what is said of one that is not.

use crate::bls::{
    aggregate_key, combined_signature, group_order, is_private_key, is_public_key, is_signature,
    public_key_of, signature_accepts,
};
use crate::crypto::{
    aggregate_check, aggregate_verdict_of, aggregation, all_public_keys, hex_bytes, hex_value,
    is_hex, is_hex_digit, is_key_text, pair_verdict_of, pairs_check, signature_check,
    signature_verdict_of, voters_check, CryptoView,
};
use crate::error::{ErrorView, CryptoError};
use crate::util::big_endian;
use vstd::prelude::*;

verus! {

/// A signature is accepted exactly if the hash has 32 bytes, the voter is a public
/// key, the signature decodes, and the voter's key accepts it for the hash.
pub proof fn law_accepted_signature(signature: Seq<u8>, hash: Seq<u8>, voter: Seq<u8>)
    ensures
        signature_check(signature, hash, voter) is Ok <==> {
            &&& hash.len() == 32
            &&& is_public_key(voter)
            &&& is_signature(signature)
            &&& signature_accepts(signature, hash, voter)
        },
{
}

/// A signature that is not accepted is refused for its first fault.
pub proof fn law_refused_signature(signature: Seq<u8>, hash: Seq<u8>, voter: Seq<u8>)
    ensures
        hash.len() != 32 ==> (signature_check(signature, hash, voter) matches Err(
            ErrorView::Other(text),
        ) && text == "failed to convert hash value"@),
        hash.len() == 32 && !is_public_key(voter) ==> (signature_check(
            signature,
            hash,
            voter,
        ) matches Err(ErrorView::Other(text)) && text == "lose public key"@),
        hash.len() == 32 && is_public_key(voter) && !is_signature(signature) ==> (signature_check(
            signature,
            hash,
            voter,
        ) matches Err(ErrorView::CryptoErr(e)) && e == CryptoError::Deserialize),
        hash.len() == 32 && is_public_key(voter) && is_signature(signature) && !signature_accepts(
            signature,
            hash,
            voter,
        ) ==> (signature_check(signature, hash, voter) matches Err(ErrorView::CryptoErr(e)) && e
            == CryptoError::InvalidSignature),
{
}

/// The verdict on one signature is the first fault of its parts, whatever the later
/// ones are.
pub proof fn law_signature_verdict(key: bool, decodes: bool, accepted: bool)
    ensures
        signature_verdict_of(true, true, true, true) is Ok,
        signature_verdict_of(false, key, decodes, accepted) matches Err(ErrorView::Other(text))
            && text == "failed to convert hash value"@,
        signature_verdict_of(true, false, decodes, accepted) matches Err(ErrorView::Other(text))
            && text == "lose public key"@,
        signature_verdict_of(true, true, false, accepted) matches Err(ErrorView::CryptoErr(e)) && e
            == CryptoError::Deserialize,
        signature_verdict_of(true, true, true, false) matches Err(ErrorView::CryptoErr(e)) && e
            == CryptoError::InvalidSignature,
{
}

/// An aggregated signature is accepted exactly if all voters are public keys, these
/// add up, the signature decodes, the hash has 32 bytes, and the sum of the keys
/// accepts the signature for the hash, however many voters there are.
pub proof fn law_accepted_aggregate(signature: Seq<u8>, hash: Seq<u8>, voters: Seq<Seq<u8>>)
    ensures
        voters_check(signature, hash, voters) is Ok <==> {
            &&& forall|i: int| 0 <= i < voters.len() ==> is_public_key(#[trigger] voters[i])
            &&& hash.len() == 32
            &&& is_signature(signature)
            &&& aggregate_key(voters) matches Some(key)
            &&& signature_accepts(signature, hash, key)
        },
        aggregate_check(hash, voters, signature) is Ok <==> {
            &&& hash.len() == 32
            &&& is_signature(signature)
            &&& aggregate_key(voters) matches Some(key)
            &&& signature_accepts(signature, hash, key)
        },
{
}

/// An aggregated signature that is not accepted is refused for its first fault: a
/// voter without a key, keys that do not add up, a signature that does not decode, a
/// hash of another length, or a signature that the sum does not accept.
pub proof fn law_refused_aggregate(
    signature: Seq<u8>,
    hash: Seq<u8>,
    voters: Seq<Seq<u8>>,
    i: int,
)
    ensures
        0 <= i < voters.len() && !is_public_key(voters[i]) ==> (voters_check(
            signature,
            hash,
            voters,
        ) matches Err(ErrorView::Other(text)) && text == "lose public key"@),
        (forall|j: int| 0 <= j < voters.len() ==> is_public_key(#[trigger] voters[j]))
            ==> voters_check(signature, hash, voters) == aggregate_check(hash, voters, signature),
        aggregate_key(voters) is None ==> (aggregate_check(hash, voters, signature) matches Err(
            ErrorView::CryptoErr(e),
        ) && e == CryptoError::AggregatePublicKey),
        aggregate_key(voters) is Some && !is_signature(signature) ==> (aggregate_check(
            hash,
            voters,
            signature,
        ) matches Err(ErrorView::CryptoErr(e)) && e == CryptoError::Deserialize),
        aggregate_key(voters) is Some && is_signature(signature) && hash.len() != 32 ==> (
        aggregate_check(hash, voters, signature) matches Err(ErrorView::Other(text)) && text
            == "failed to convert hash value"@),
        aggregate_key(voters) is Some && is_signature(signature) && hash.len() == 32
            && !signature_accepts(signature, hash, aggregate_key(voters)->0) ==> (aggregate_check(
            hash,
            voters,
            signature,
        ) matches Err(ErrorView::CryptoErr(e)) && e == CryptoError::InvalidSignature),
{
    if 0 <= i < voters.len() && !is_public_key(voters[i]) {
        assert(!all_public_keys(voters));
    }
}

/// The verdict on an aggregated signature is the first fault of its parts, whatever
/// the later ones are.
pub proof fn law_aggregate_verdict(decodes: bool, fits: bool, accepted: bool)
    ensures
        aggregate_verdict_of(true, true, true, true) is Ok,
        aggregate_verdict_of(false, decodes, fits, accepted) matches Err(ErrorView::CryptoErr(e))
            && e == CryptoError::AggregatePublicKey,
        aggregate_verdict_of(true, false, fits, accepted) matches Err(ErrorView::CryptoErr(e)) && e
            == CryptoError::Deserialize,
        aggregate_verdict_of(true, true, false, accepted) matches Err(ErrorView::Other(text))
            && text == "failed to convert hash value"@,
        aggregate_verdict_of(true, true, true, false) matches Err(ErrorView::CryptoErr(e)) && e
            == CryptoError::InvalidSignature,
{
}

/// The verdict on a signature and the voter beside it is the first fault.
pub proof fn law_pair_verdict(key: bool)
    ensures
        pair_verdict_of(true, true) is Ok,
        pair_verdict_of(false, key) matches Err(ErrorView::CryptoErr(e)) && e
            == CryptoError::Deserialize,
        pair_verdict_of(true, false) matches Err(ErrorView::Other(text)) && text
            == "lose public key"@,
{
}

/// Signatures add up exactly if there are as many voters, every signature decodes,
/// every voter is a public key, and there is a sum of just these signatures.
pub proof fn law_aggregation_result(signatures: Seq<Seq<u8>>, voters: Seq<Seq<u8>>)
    ensures
        aggregation(signatures, voters) is Ok <==> {
            &&& signatures.len() == voters.len()
            &&& forall|i: int| 0 <= i < signatures.len() ==> is_signature(#[trigger] signatures[i])
            &&& forall|i: int| 0 <= i < voters.len() ==> is_public_key(#[trigger] voters[i])
            &&& combined_signature(signatures) is Some
        },
        aggregation(signatures, voters) matches Ok(sum) ==> combined_signature(signatures) == Some(
            sum,
        ),
{
    if signatures.len() == voters.len() {
        lemma_pairs_in_order(signatures, voters);
    }
}

proof fn lemma_pairs_in_order(signatures: Seq<Seq<u8>>, voters: Seq<Seq<u8>>)
    requires
        signatures.len() == voters.len(),
    ensures
        pairs_check(signatures, voters) is Ok <==> {
            &&& forall|i: int| 0 <= i < signatures.len() ==> is_signature(#[trigger] signatures[i])
            &&& forall|i: int| 0 <= i < voters.len() ==> is_public_key(#[trigger] voters[i])
        },
    decreases signatures.len(),
{
    if signatures.len() > 0 {
        let s = signatures.drop_first();
        let v = voters.drop_first();
        lemma_pairs_in_order(s, v);
        assert(forall|i: int| 0 < i < signatures.len() ==> signatures[i] == s[i - 1]);
        assert(forall|i: int| 0 < i < voters.len() ==> voters[i] == v[i - 1]);
        if pairs_check(signatures, voters) is Ok {
            assert forall|i: int| 0 <= i < signatures.len() implies is_signature(
                #[trigger] signatures[i],
            ) by {
                if i > 0 {
                    assert(is_signature(s[i - 1]));
                }
            }
            assert forall|i: int| 0 <= i < voters.len() implies is_public_key(
                #[trigger] voters[i],
            ) by {
                if i > 0 {
                    assert(is_public_key(v[i - 1]));
                }
            }
        }
    }
}

/// Signatures that do not add up are refused for the first pair with a fault, where
/// the signature counts before the voter; without such a pair, for the sum.
pub proof fn law_refused_aggregation(signatures: Seq<Seq<u8>>, voters: Seq<Seq<u8>>, at: int)
    requires
        signatures.len() == voters.len(),
        0 <= at <= signatures.len(),
        forall|i: int| 0 <= i < at ==> is_signature(#[trigger] signatures[i]),
        forall|i: int| 0 <= i < at ==> is_public_key(#[trigger] voters[i]),
    ensures
        at < signatures.len() && !is_signature(signatures[at]) ==> (aggregation(
            signatures,
            voters,
        ) matches Err(ErrorView::CryptoErr(e)) && e == CryptoError::Deserialize),
        at < signatures.len() && is_signature(signatures[at]) && !is_public_key(voters[at]) ==> (
        aggregation(signatures, voters) matches Err(ErrorView::Other(text)) && text
            == "lose public key"@),
        at == signatures.len() && combined_signature(signatures) is None ==> (aggregation(
            signatures,
            voters,
        ) matches Err(ErrorView::CryptoErr(e)) && e == CryptoError::AggregateSignature),
{
    lemma_first_pair(signatures, voters, at);
}

proof fn lemma_first_pair(signatures: Seq<Seq<u8>>, voters: Seq<Seq<u8>>, at: int)
    requires
        signatures.len() == voters.len(),
        0 <= at <= signatures.len(),
        forall|i: int| 0 <= i < at ==> is_signature(#[trigger] signatures[i]),
        forall|i: int| 0 <= i < at ==> is_public_key(#[trigger] voters[i]),
    ensures
        at < signatures.len() ==> (pair_verdict_of(
            is_signature(signatures[at]),
            is_public_key(voters[at]),
        ) matches Err(e) ==> pairs_check(signatures, voters) == Err::<(), ErrorView>(e)),
        at == signatures.len() ==> pairs_check(signatures, voters) is Ok,
    decreases signatures.len(),
{
    if at > 0 {
        assert(is_signature(signatures[0]));
        assert(is_public_key(voters[0]));
        let s = signatures.drop_first();
        let v = voters.drop_first();
        assert(forall|i: int| 0 <= i < s.len() ==> s[i] == signatures[i + 1]);
        assert(forall|i: int| 0 <= i < v.len() ==> v[i] == voters[i + 1]);
        lemma_first_pair(s, v, at - 1);
    }
}

/// Signatures and voters that are not equally many are not looked at.
pub proof fn law_unequal_aggregation(signatures: Seq<Seq<u8>>, voters: Seq<Seq<u8>>)
    requires
        signatures.len() != voters.len(),
    ensures
        aggregation(signatures, voters) matches Err(ErrorView::Other(text)) && text
            == "signatures length does not match voters length"@,
{
}

/// The sixteen digits, six of them in two cases, and their values. No other
/// character is one.
pub proof fn law_hexadecimal_digits(c: char)
    ensures
        is_hex_digit(c) <==> (c == '0' || c == '1' || c == '2' || c == '3' || c == '4' || c == '5'
            || c == '6' || c == '7' || c == '8' || c == '9' || c == 'a' || c == 'b' || c == 'c' || c
            == 'd' || c == 'e' || c == 'f' || c == 'A' || c == 'B' || c == 'C' || c == 'D' || c
            == 'E' || c == 'F'),
        hex_value('0') == 0 && hex_value('1') == 1 && hex_value('2') == 2 && hex_value('3') == 3,
        hex_value('4') == 4 && hex_value('5') == 5 && hex_value('6') == 6 && hex_value('7') == 7,
        hex_value('8') == 8 && hex_value('9') == 9 && hex_value('a') == 10 && hex_value('b') == 11,
        hex_value('c') == 12 && hex_value('d') == 13 && hex_value('e') == 14,
        hex_value('f') == 15 && hex_value('A') == 10 && hex_value('B') == 11,
        hex_value('C') == 12 && hex_value('D') == 13 && hex_value('E') == 14,
        hex_value('F') == 15,
{
}

/// A text in hexadecimal writes one byte with every two digits.
pub proof fn law_hexadecimal_text(text: Seq<char>, i: int)
    requires
        is_hex(text),
    ensures
        text.len() == 2 * hex_bytes(text).len(),
        0 <= i < hex_bytes(text).len() ==> hex_bytes(text)[i] == 16 * hex_value(text[2 * i])
            + hex_value(text[2 * i + 1]),
        0 <= i < text.len() ==> is_hex_digit(text[i]),
{
    if 0 <= i < hex_bytes(text).len() {
        assert(is_hex_digit(text[2 * i]));
        assert(is_hex_digit(text[2 * i + 1]));
    }
}

/// A text is in hexadecimal as soon as it has an even length and digits alone.
pub proof fn law_texts_in_hexadecimal(text: Seq<char>)
    requires
        text.len() % 2 == 0,
        forall|i: int| 0 <= i < text.len() ==> is_hex_digit(#[trigger] text[i]),
    ensures
        is_hex(text),
{
}

/// A text writes a private key exactly if it has sixty-four digits in hexadecimal,
/// and their number is neither zero nor as great as the group order.
pub proof fn law_key_texts(text: Seq<char>)
    ensures
        is_key_text(text) <==> {
            &&& text.len() == 64
            &&& forall|i: int| 0 <= i < text.len() ==> is_hex_digit(#[trigger] text[i])
            &&& big_endian(hex_bytes(text)) != 0
            &&& big_endian(hex_bytes(text))
                < 0x73eda753299d7d483339d80809a1d80553bda402fffe5bfeffffffff00000001nat
        },
{
}

/// A private key is any number of thirty-two bytes from one up to below the group
/// order.
pub proof fn law_private_keys(bytes: Seq<u8>)
    ensures
        group_order() == 0x73eda753299d7d483339d80809a1d80553bda402fffe5bfeffffffff00000001nat,
        is_private_key(bytes) <==> bytes.len() == 32 && 1 <= big_endian(bytes) && big_endian(bytes)
            < group_order(),
{
}

/// No bytes write zero, and a byte more multiplies by 256 and adds itself.
pub proof fn law_big_endian(bytes: Seq<u8>, byte: u8)
    ensures
        big_endian(Seq::empty()) == 0,
        big_endian(bytes.push(byte)) == 256 * big_endian(bytes) + byte,
{
    assert(bytes.push(byte).drop_last() =~= bytes);
}

/// A key alone knows its own name, and no other keys.
pub proof fn law_keys_of_one_validator(private_key: Seq<u8>)
    ensures
        CryptoView::of_key(private_key).private_key == private_key,
        CryptoView::of_key(private_key).name == public_key_of(private_key),
        CryptoView::of_key(private_key).pubkeys.len() == 0,
        CryptoView::of_key(private_key).common_ref == ""@,
{
}

/// Keys in order: a private key, its public key as name, and public keys of others.
pub proof fn law_keys_in_order(crypto: CryptoView, i: int)
    requires
        crypto.wf(),
    ensures
        is_private_key(crypto.private_key),
        crypto.name == public_key_of(crypto.private_key),
        is_public_key(crypto.name),
        crypto.common_ref == ""@,
        0 <= i < crypto.pubkeys.len() ==> is_public_key(crypto.pubkeys[i]),
{
}

} // verus!
