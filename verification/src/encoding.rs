//! The byte forms in which keys and commitments travel between servers and
//! clients: compressed points.
use vstd::prelude::*;
use curve25519_dalek::ristretto::RistrettoPoint;
use frost_dalek::{GroupKey, IndividualPublicKey};
use crate::crypto::{
    group_key_decoded, group_key_encoding, group_key_from_bytes, group_key_to_bytes, point_decoded, point_encoding,
    point_from_bytes, point_to_bytes, public_key_from_parts, public_key_owner, public_key_share, public_key_share_of,
    same_group_key,
};

verus! {

/// A group key as its compressed point; decoding it again gives the same key.
pub fn encode_group_key(key: &GroupKey) -> (res: [u8; 32])
    ensures
        res@ == group_key_encoding(*key),
        group_key_decoded(res@) is Some,
        same_group_key(group_key_decoded(res@)->Some_0, *key),
{
    group_key_to_bytes(key)
}

/// The group key whose compressed point `bytes` are, if they are one.
pub fn decode_group_key(bytes: [u8; 32]) -> (res: Option<GroupKey>)
    ensures
        res == group_key_decoded(bytes@),
{
    group_key_from_bytes(bytes)
}

/// An individual public key as its index and its compressed point.
pub fn encode_public_key(key: &IndividualPublicKey) -> (res: (u32, [u8; 32]))
    ensures
        res.0 == public_key_owner(*key),
        res.1@ == point_encoding(public_key_share(*key)),
        point_decoded(res.1@) is Some,
{
    let share = public_key_share_of(key);
    (crate::crypto::public_key_index(key), point_to_bytes(&share))
}

/// The individual public key with index `index` whose point compresses to
/// `share`, if `share` is a compressed point.
pub fn decode_public_key(index: u32, share: [u8; 32]) -> (res: Option<IndividualPublicKey>)
    ensures
        match point_decoded(share@) {
            None => res is None,
            Some(point) => res matches Some(key) && public_key_owner(key) == index && public_key_share(key) == point,
        },
{
    match point_from_bytes(share) {
        None => None,
        Some(point) => Some(public_key_from_parts(index, point)),
    }
}

/// A published commitment pair as its two compressed points.
pub fn encode_commitment(pair: &(RistrettoPoint, RistrettoPoint)) -> (res: ([u8; 32], [u8; 32]))
    ensures
        res.0@ == point_encoding(pair.0),
        res.1@ == point_encoding(pair.1),
        point_decoded(res.0@) is Some,
        point_decoded(res.1@) is Some,
{
    (point_to_bytes(&pair.0), point_to_bytes(&pair.1))
}

/// The commitment pair whose compressed points are `hiding` and `binding`,
/// if both are compressed points.
pub fn decode_commitment(hiding: [u8; 32], binding: [u8; 32]) -> (res: Option<(RistrettoPoint, RistrettoPoint)>)
    ensures
        match (point_decoded(hiding@), point_decoded(binding@)) {
            (Some(h), Some(b)) => res == Some((h, b)),
            _ => res is None,
        },
{
    match (point_from_bytes(hiding), point_from_bytes(binding)) {
        (Some(h), Some(b)) => Some((h, b)),
        _ => None,
    }
}

} // verus!
