//! The calls into FROST (`frost_dalek`), SHA-256 (`sha2`), hex decoding (`hex`)
//! and the clock (`chrono`) that the protocol makes.  The code of these crates
//! is not proved here: every item in this file is trusted, and its doc comment
//! says what its contract claims of the outside code.
use vstd::prelude::*;
use curve25519_dalek::ristretto::RistrettoPoint;
use frost_dalek::keygen::{Coefficients, RoundOne, RoundTwo, SecretShare};
use frost_dalek::precomputation::{CommitmentShare, SecretCommitmentShareList};
use frost_dalek::signature::{Finalized, Initial, PartialThresholdSignature, Signer, ThresholdSignature};
use frost_dalek::{DistributedKeyGeneration, GroupKey, IndividualPublicKey, IndividualSecretKey, Participant, SignatureAggregator};
use sha2::Digest;
use vstd::string::StringSliceAdditionalSpecFns;
use crate::types::{Parameters, PublicCommitments};

verus! {

#[verifier::external_type_specification]
#[verifier::external_body]
pub struct ExRistrettoPoint(RistrettoPoint);

#[verifier::external_type_specification]
#[verifier::external_body]
pub struct ExParticipant(Participant);

#[verifier::external_type_specification]
#[verifier::external_body]
pub struct ExCoefficients(Coefficients);

#[verifier::external_type_specification]
#[verifier::external_body]
pub struct ExSecretShare(SecretShare);

#[verifier::external_type_specification]
#[verifier::external_body]
pub struct ExGroupKey(GroupKey);

#[verifier::external_type_specification]
#[verifier::external_body]
pub struct ExIndividualSecretKey(IndividualSecretKey);

#[verifier::external_type_specification]
#[verifier::external_body]
pub struct ExIndividualPublicKey(IndividualPublicKey);

#[verifier::external_type_specification]
#[verifier::external_body]
pub struct ExSecretCommitmentShareList(SecretCommitmentShareList);

#[verifier::external_type_specification]
#[verifier::external_body]
pub struct ExSigner(Signer);

#[verifier::external_type_specification]
#[verifier::external_body]
pub struct ExCommitmentShare(CommitmentShare);

#[verifier::external_type_specification]
#[verifier::external_body]
pub struct ExPartialThresholdSignature(PartialThresholdSignature);

#[verifier::external_type_specification]
#[verifier::external_body]
pub struct ExThresholdSignature(ThresholdSignature);

/// The state of this server after the first round of the distributed key
/// generation: `DistributedKeyGeneration<RoundOne>`.  That type is generic over
/// a sealed trait of `frost_dalek`, which Verus cannot declare, so it is held
/// here, opaque.
#[verifier::external_body]
pub struct RoundOneState {
    dkg: DistributedKeyGeneration<RoundOne>,
}

/// The state of this server after the second round of the distributed key
/// generation: `DistributedKeyGeneration<RoundTwo>`, held opaque for the same
/// reason as [`RoundOneState`].
#[verifier::external_body]
pub struct RoundTwoState {
    dkg: DistributedKeyGeneration<RoundTwo>,
}

/// A signature aggregator that collects signers and their partial signatures:
/// `SignatureAggregator<Initial>`, generic over a sealed trait, held opaque.
#[verifier::external_body]
pub struct SigningRound<'a> {
    aggregator: SignatureAggregator<Initial<'a>>,
}

/// A signature aggregator that has checked that every signer contributed:
/// `SignatureAggregator<Finalized>`, held opaque.
#[verifier::external_body]
pub struct FinalizedRound {
    aggregator: SignatureAggregator<Finalized>,
}

/// What SHA-256 gives for `data`.
pub uninterp spec fn sha256_digest(data: Seq<u8>) -> Seq<u8>;

/// What `frost_dalek::compute_message_hash` gives for `context` and `message`
/// (SHA-512 of the two, one after the other).
pub uninterp spec fn frost_message_hash(context: Seq<u8>, message: Seq<u8>) -> Seq<u8>;

/// The secret commitments that a `SecretCommitmentShareList` holds: its
/// `commitments`, in order.
pub uninterp spec fn secret_commitments(list: SecretCommitmentShareList) -> Seq<CommitmentShare>;

/// How many secret commitments a list still holds.
pub open spec fn unused_commitments(list: SecretCommitmentShareList) -> nat {
    secret_commitments(list).len()
}

/// `CommitmentShare::ct_eq`: whether two commitment shares hold the same
/// commitments (the same nonces and the same points).
pub uninterp spec fn same_commitment(a: CommitmentShare, b: CommitmentShare) -> bool;

/// What `SecretKey::sign` gives with `key` for `message_hash`, the group key,
/// the commitment `share` and `signers`: the partial signature, or `None` when
/// the signers are inconsistent with the key.
pub uninterp spec fn partial_signature_of(
    key: IndividualSecretKey,
    message_hash: Seq<u8>,
    group_key: GroupKey,
    share: CommitmentShare,
    signers: Seq<Signer>,
) -> Option<PartialThresholdSignature>;

/// The public field `Participant::index`.
pub uninterp spec fn participant_index_of(participant: Participant) -> u32;

/// The public field `Participant::commitments`, in order.
pub uninterp spec fn participant_commitments(participant: Participant) -> Seq<RistrettoPoint>;

/// The commitments to polynomial coefficients that `Participant::new`
/// computes: `a_j * B` for each coefficient `a_j`, in order.
pub uninterp spec fn coefficient_commitments(coefficients: Coefficients) -> Seq<RistrettoPoint>;

/// `CommitmentShare::publish`: the hiding and binding commitments of a
/// secret commitment share.
pub uninterp spec fn commitment_pair(share: CommitmentShare) -> (RistrettoPoint, RistrettoPoint);

/// `Participant::public_key`: its first commitment, if it has one.
pub uninterp spec fn participant_key(participant: Participant) -> Option<RistrettoPoint>;

/// The verdict of `NizkOfSecretKey::verify` on a participant's proof, its
/// index and `public_key`.
pub uninterp spec fn proof_checks(participant: Participant, public_key: RistrettoPoint) -> bool;

/// Whether a participant passes the first round's check: it has a public key
/// and its proof checks against it.
pub open spec fn participant_passes(participant: Participant) -> bool {
    match participant_key(participant) {
        Some(key) => proof_checks(participant, key),
        None => false,
    }
}

/// Whether the first round accepts `others`: there are `n - 1` of them and
/// every one passes.
pub open spec fn round_one_accepts(parameters: Parameters, others: Seq<Participant>) -> bool {
    &&& others.len() + 1 == parameters.n
    &&& forall|k: int| 0 <= k < others.len() ==> participant_passes(#[trigger] others[k])
}

/// The indices of the participants of `others` that do not pass, in order.
pub open spec fn failing_participants(others: Seq<Participant>) -> Seq<u32>
    decreases others.len(),
{
    if others.len() == 0 {
        Seq::empty()
    } else {
        let before = failing_participants(others.drop_last());
        if participant_passes(others.last()) {
            before
        } else {
            before.push(participant_index_of(others.last()))
        }
    }
}

/// The first-round state that `DistributedKeyGeneration::<RoundOne>::new`
/// makes from its arguments.
pub uninterp spec fn round_one_of(parameters: Parameters, my_index: u32, coefficients: Coefficients, others: Seq<Participant>) -> RoundOneState;

/// The secret shares that a first-round state holds for the others
/// (`their_secret_shares`), in order.
pub uninterp spec fn round_one_shares_held(state: RoundOneState) -> Seq<SecretShare>;

/// `SecretShare::evaluate_polynomial`: the secret share for the server with
/// index `index` of the polynomial with `coefficients`.
pub uninterp spec fn share_for(coefficients: Coefficients, index: u32) -> SecretShare;

/// What `DistributedKeyGeneration::to_round_two` gives for a first-round state
/// and the secret shares received: the second-round state, or `None` when it
/// refuses them.
pub uninterp spec fn round_two_of(state: RoundOneState, shares: Seq<SecretShare>) -> Option<RoundTwoState>;

/// What `DistributedKeyGeneration::<RoundTwo>::finish` gives for a
/// second-round state and this server's commitment: the group key and the
/// secret key, or `None` when it fails.
pub uninterp spec fn keys_of(state: RoundTwoState, my_commitment: RistrettoPoint) -> Option<(GroupKey, IndividualSecretKey)>;

/// `GroupKey`'s `==`: whether the two keys are the same point.
pub uninterp spec fn same_group_key(a: GroupKey, b: GroupKey) -> bool;

/// `GroupKey::to_bytes`: the compressed point of a group key.
pub uninterp spec fn group_key_encoding(key: GroupKey) -> Seq<u8>;

/// `GroupKey::from_bytes`: the group key whose compressed point the bytes
/// are, if they are one.
pub uninterp spec fn group_key_decoded(bytes: Seq<u8>) -> Option<GroupKey>;

/// `RistrettoPoint::compress`, as bytes.
pub uninterp spec fn point_encoding(point: RistrettoPoint) -> Seq<u8>;

/// `CompressedRistretto::decompress`: the point whose compression the bytes
/// are, if they are one.
pub uninterp spec fn point_decoded(bytes: Seq<u8>) -> Option<RistrettoPoint>;

/// The public field `IndividualPublicKey::share`.
pub uninterp spec fn public_key_share(key: IndividualPublicKey) -> RistrettoPoint;

/// `SecretKey::to_public`: the public verification share of a secret key.
pub uninterp spec fn public_key_of(key: IndividualSecretKey) -> IndividualPublicKey;

/// The public field `IndividualPublicKey::index`.
pub uninterp spec fn public_key_owner(key: IndividualPublicKey) -> u32;

/// The round that `SignatureAggregator::include_partial_signature` leaves.
pub uninterp spec fn with_partial(round: SigningRound<'_>, partial: PartialThresholdSignature) -> SigningRound<'_>;

/// What `SignatureAggregator::finalize` gives: the finalized round, or `None`
/// when a signer has no partial signature or no public key.
pub uninterp spec fn finalized_of(round: SigningRound<'_>) -> Option<FinalizedRound>;

/// The message hash that a finalized round signs (`Finalized::message_hash`).
pub uninterp spec fn finalized_message_hash(round: FinalizedRound) -> Seq<u8>;

/// Whether `SignatureAggregator::aggregate` succeeds: every partial
/// signature checks.
pub uninterp spec fn aggregate_succeeds(round: FinalizedRound) -> bool;

/// The 64-byte encoding (`to_bytes`) of the signature that
/// `SignatureAggregator::aggregate` gives.  The encoding compresses the
/// signature's point, so it does not depend on how the point is held.
pub uninterp spec fn aggregate_encoding(round: FinalizedRound) -> Seq<u8>;

/// The verdict of `ThresholdSignature::verify` under `group_key` for
/// `message_hash`.
pub uninterp spec fn signature_valid(signature: ThresholdSignature, group_key: GroupKey, message_hash: Seq<u8>) -> bool;

/// `ThresholdSignature::to_bytes`.
pub uninterp spec fn signature_encoding(signature: ThresholdSignature) -> Seq<u8>;

/// `ThresholdSignature::from_bytes`: the signature that the bytes encode.
pub uninterp spec fn signature_decoded(bytes: Seq<u8>) -> Option<ThresholdSignature>;

/// Whether 64 bytes are the encoding of a threshold signature: a compressed
/// Ristretto point followed by a canonical scalar.
pub open spec fn encodes_threshold_signature(bytes: Seq<u8>) -> bool {
    signature_decoded(bytes) is Some
}

/// Whether `token` encodes a threshold signature that is valid under
/// `group_key` for `message_hash`.
pub open spec fn token_verifies(token: Seq<u8>, group_key: GroupKey, message_hash: Seq<u8>) -> bool {
    match signature_decoded(token) {
        Some(signature) => signature_valid(signature, group_key, message_hash),
        None => false,
    }
}

/// The servers that the secret shares held by a first-round state are for,
/// in the order in which the state holds them: the `index` of each share of
/// `their_secret_shares`.
pub uninterp spec fn round_one_recipients(state: RoundOneState) -> Seq<u32>;

/// The signers that a signing round holds (`state.signers`), in order.
pub uninterp spec fn round_signer_entries(round: SigningRound<'_>) -> Seq<Signer>;

/// The public field `Signer::participant_index`.
pub uninterp spec fn signer_index_of(signer: Signer) -> u32;

/// The public field `Signer::published_commitment_share`.
pub uninterp spec fn signer_commitment(signer: Signer) -> (RistrettoPoint, RistrettoPoint);

/// The context string that a signing round was made with.
pub uninterp spec fn round_context(round: SigningRound<'_>) -> Seq<u8>;

/// The message that a signing round was made with.
pub uninterp spec fn round_message(round: SigningRound<'_>) -> Seq<u8>;

/// The group key that a signing round was made with.
pub uninterp spec fn round_group_key(round: SigningRound<'_>) -> GroupKey;

/// The participant indices of the signers that a signing round holds, in
/// the order in which it holds them.
pub open spec fn round_signers(round: SigningRound<'_>) -> Seq<u32> {
    round_signer_entries(round).map_values(|s: Signer| signer_index_of(s))
}

/// The context, message and group key of two rounds agree.
pub open spec fn same_round_setting(a: SigningRound<'_>, b: SigningRound<'_>) -> bool {
    &&& round_context(a) == round_context(b)
    &&& round_message(a) == round_message(b)
    &&& round_group_key(a) == round_group_key(b)
}

/// The value of an ASCII hexadecimal digit, upper or lower case.
pub open spec fn hex_digit_value(c: u8) -> Option<u8> {
    if 48 <= c <= 57 {
        Some((c - 48) as u8)
    } else if 65 <= c <= 70 {
        Some((c - 55) as u8)
    } else if 97 <= c <= 102 {
        Some((c - 87) as u8)
    } else {
        None
    }
}

/// The bytes that hex text encodes, two digits per byte, high digit first;
/// `None` for text of odd length or with a character that is no hex digit.
pub open spec fn hex_decoded(text: Seq<u8>) -> Option<Seq<u8>>
    decreases text.len(),
{
    if text.len() % 2 != 0 {
        None
    } else if text.len() == 0 {
        Some(Seq::empty())
    } else {
        match (hex_digit_value(text[0]), hex_digit_value(text[1]), hex_decoded(text.subrange(2, text.len() as int))) {
            (Some(high), Some(low), Some(rest)) => Some(seq![(high * 16 + low) as u8] + rest),
            _ => None,
        }
    }
}

/// `Participant::new`: a fresh participant for server `index`, which carries
/// that index, and the secret coefficients of its polynomial, drawn at
/// random; the random values are not claimed.  The participant has a public
/// key (its first commitment, as `t >= 1`) and an honest proof of its secret
/// key, which checks against it; its `t` commitments are those of the
/// coefficients returned with it.  The call indexes the first of
/// `t` coefficients, so `t` is at least 1.
#[verifier::external_body]
pub(crate) fn new_participant(parameters: &Parameters, index: u32) -> (res: (Participant, Coefficients))
    requires
        parameters.t >= 1,
    ensures
        participant_index_of(res.0) == index,
        participant_key(res.0) matches Some(key) && proof_checks(res.0, key),
        participant_commitments(res.0) == coefficient_commitments(res.1),
        participant_commitments(res.0).len() == parameters.t,
{
    Participant::new(&frost_dalek::Parameters { t: parameters.t, n: parameters.n }, index)
}

/// Reads the public field `Participant::index`.
#[verifier::external_body]
pub(crate) fn participant_index(participant: &Participant) -> (res: u32)
    ensures
        res == participant_index_of(*participant),
{
    participant.index
}

/// `Participant::public_key`, copied out: the first commitment, if there is
/// one.
#[verifier::external_body]
pub(crate) fn participant_public_key(participant: &Participant) -> (res: Option<RistrettoPoint>)
    ensures
        res == participant_key(*participant),
        res == (if participant_commitments(*participant).len() > 0 {
            Some(participant_commitments(*participant)[0])
        } else {
            None
        }),
{
    participant.public_key().copied()
}

/// `NizkOfSecretKey::verify` on the participant's proof, its index and
/// `public_key`: whether the proof checks.
#[verifier::external_body]
pub(crate) fn proof_of_secret_key_holds(participant: &Participant, public_key: &RistrettoPoint) -> (res: bool)
    ensures
        res == proof_checks(*participant, *public_key),
{
    participant.proof_of_secret_key.verify(&participant.index, public_key).is_ok()
}

/// The derived `Clone` of `Participant`: an equal value.
#[verifier::external_body]
pub(crate) fn clone_participant(participant: &Participant) -> (res: Participant)
    ensures
        res == *participant,
{
    participant.clone()
}

/// The derived `Clone` of `SecretShare`: an equal value.
#[verifier::external_body]
pub(crate) fn clone_secret_share(share: &SecretShare) -> (res: SecretShare)
    ensures
        res == *share,
{
    share.clone()
}

/// `DistributedKeyGeneration::<RoundOne>::new`: checks the other participants'
/// proofs and computes their secret shares.  The call reads
/// `other_participants` and leaves it as it was.  It fails with no culprits
/// when their number is not `n - 1`, and otherwise with the indices of those
/// that have no public key or whose proof does not check, in order.  On
/// success the state holds, for each participant in order, the share of this
/// server's polynomial for that participant's index.
#[verifier::external_body]
pub(crate) fn dkg_round_one(
    parameters: &Parameters,
    my_index: u32,
    my_coefficients: &Coefficients,
    other_participants: &mut Vec<Participant>,
) -> (res: Result<RoundOneState, Vec<u32>>)
    requires
        parameters.n >= 1,
    ensures
        final(other_participants)@ == old(other_participants)@,
        res is Ok <==> round_one_accepts(*parameters, old(other_participants)@),
        res matches Err(culprits) ==> culprits@ == (if old(other_participants)@.len() + 1 != parameters.n {
            Seq::<u32>::empty()
        } else {
            failing_participants(old(other_participants)@)
        }),
        res matches Ok(state) ==> {
            &&& state == round_one_of(*parameters, my_index, *my_coefficients, old(other_participants)@)
            &&& round_one_shares_held(state).len() == old(other_participants)@.len()
            &&& round_one_recipients(state) == old(other_participants)@.map_values(|p: Participant| participant_index_of(p))
            &&& forall|k: int| 0 <= k < old(other_participants)@.len() ==> #[trigger] round_one_shares_held(state)[k]
                == share_for(*my_coefficients, participant_index_of(old(other_participants)@[k]))
        },
{
    let p = frost_dalek::Parameters { t: parameters.t, n: parameters.n };
    DistributedKeyGeneration::<RoundOne>::new(&p, &my_index, my_coefficients, other_participants)
        .map(|dkg| RoundOneState { dkg })
}

/// The derived `Clone` of `DistributedKeyGeneration<RoundOne>`: an equal value.
#[verifier::external_body]
pub(crate) fn clone_round_one(state: &RoundOneState) -> (res: RoundOneState)
    ensures
        res == *state,
{
    RoundOneState { dkg: state.dkg.clone() }
}

/// `DistributedKeyGeneration::their_secret_shares`, cloned, each share with
/// the index of the server it is for (its public field `index`).  A
/// first-round state is only made by `new`, which always fills the shares,
/// so they are always there.
#[verifier::external_body]
pub(crate) fn round_one_secret_shares(state: &RoundOneState) -> (res: Option<Vec<(u32, SecretShare)>>)
    ensures
        res matches Some(shares) && shares@.len() == round_one_recipients(*state).len()
            && shares@.len() == round_one_shares_held(*state).len()
            && forall|k: int| 0 <= k < shares@.len() ==> {
                &&& (#[trigger] shares@[k]).0 == round_one_recipients(*state)[k]
                &&& shares@[k].1 == round_one_shares_held(*state)[k]
            },
{
    state.dkg.their_secret_shares().ok().map(|shares| shares.iter().map(|share| (share.index, share.clone())).collect())
}

/// `DistributedKeyGeneration::to_round_two`: checks the shares that this
/// server received against the senders' commitments, and gives the
/// second-round state, or fails (when their number is not `n - 1` or one does
/// not check).
#[verifier::external_body]
pub(crate) fn dkg_round_two(state: RoundOneState, my_secret_shares: Vec<SecretShare>) -> (res: Result<RoundTwoState, ()>)
    ensures
        match round_two_of(state, my_secret_shares@) {
            Some(round_two) => res == Ok::<RoundTwoState, ()>(round_two),
            None => res is Err,
        },
{
    state.dkg.to_round_two(my_secret_shares).map(|dkg| RoundTwoState { dkg })
}

/// The derived `Clone` of `DistributedKeyGeneration<RoundTwo>`: an equal value.
#[verifier::external_body]
pub(crate) fn clone_round_two(state: &RoundTwoState) -> (res: RoundTwoState)
    ensures
        res == *state,
{
    RoundTwoState { dkg: state.dkg.clone() }
}

/// `DistributedKeyGeneration::<RoundTwo>::finish`: the group key and this
/// server's long-lived secret key, or a failure.
#[verifier::external_body]
pub(crate) fn dkg_finish(state: RoundTwoState, my_commitment: &RistrettoPoint) -> (res: Result<(GroupKey, IndividualSecretKey), ()>)
    ensures
        match keys_of(state, *my_commitment) {
            Some(keys) => res == Ok::<(GroupKey, IndividualSecretKey), ()>(keys),
            None => res is Err,
        },
{
    state.dkg.finish(my_commitment)
}

/// `GroupKey`'s `==`, which compares the compressed points: whether the two
/// keys are the same point; equal values are.
#[verifier::external_body]
pub(crate) fn group_keys_equal(a: &GroupKey, b: &GroupKey) -> (res: bool)
    ensures
        res == same_group_key(*a, *b),
        *a == *b ==> res,
{
    a == b
}

/// `SecretKey::to_public`: the public verification share of a secret key.
#[verifier::external_body]
pub(crate) fn secret_key_to_public(key: &IndividualSecretKey) -> (res: IndividualPublicKey)
    ensures
        res == public_key_of(*key),
{
    key.to_public()
}

/// Reads the public field `IndividualPublicKey::index`.
#[verifier::external_body]
pub(crate) fn public_key_index(key: &IndividualPublicKey) -> (res: u32)
    ensures
        res == public_key_owner(*key),
{
    key.index
}

/// `generate_commitment_share_lists` with the operating system's random
/// source: `number_of_shares` commitment pairs of server `participant_index`,
/// the public ones in the library's own type and the secret ones, as many of
/// each: the `k`-th public pair is what the `k`-th secret share publishes.
/// The values are random: nothing more is claimed of them.
#[verifier::external_body]
pub(crate) fn commitment_share_lists(participant_index: u32, number_of_shares: usize) -> (res: (PublicCommitments, SecretCommitmentShareList))
    ensures
        res.0.participant_index == participant_index,
        res.0.commitments@.len() == number_of_shares,
        secret_commitments(res.1).len() == number_of_shares,
        forall|k: int| 0 <= k < number_of_shares ==> #[trigger] res.0.commitments@[k] == commitment_pair(secret_commitments(res.1)[k]),
{
    let (public, secret) = frost_dalek::generate_commitment_share_lists(&mut rand::rngs::OsRng, participant_index, number_of_shares);
    (PublicCommitments { participant_index: public.participant_index, commitments: public.commitments }, secret)
}

/// `SecretKey::sign`: this server's partial signature of `message_hash`,
/// with its commitment number `commitment_index`.  Per the source, the call
/// fails, leaving `commitments` as it was, when there is no such commitment
/// (it computes `commitment_index + 1`, hence the bound) or the signers are
/// inconsistent with the key; on success it returns the signature and
/// removes from `commitments` the last commitment equal (`ct_eq`) to the one
/// used (`drop_share`); the one used is equal to itself, as `ct_eq` compares
/// its nonces and compressed points.
#[verifier::external_body]
pub(crate) fn sign_partially(
    key: &IndividualSecretKey,
    message_hash: &[u8; 64],
    group_key: &GroupKey,
    commitments: &mut SecretCommitmentShareList,
    commitment_index: usize,
    signers: &Vec<Signer>,
) -> (res: Result<PartialThresholdSignature, &'static str>)
    requires
        commitment_index < usize::MAX,
    ensures
        commitment_index >= secret_commitments(*old(commitments)).len() ==> res is Err,
        res is Err ==> *final(commitments) == *old(commitments),
        commitment_index < secret_commitments(*old(commitments)).len() ==> {
            let list = secret_commitments(*old(commitments));
            match partial_signature_of(*key, message_hash@, *group_key, list[commitment_index as int], signers@) {
                None => res is Err,
                Some(signature) => {
                    &&& res == Ok::<PartialThresholdSignature, &'static str>(signature)
                    &&& same_commitment(list[commitment_index as int], list[commitment_index as int])
                    &&& exists|j: int| {
                        &&& 0 <= j < list.len()
                        &&& #[trigger] same_commitment(list[j], list[commitment_index as int])
                        &&& forall|i: int| j < i < list.len() ==> !same_commitment(#[trigger] list[i], list[commitment_index as int])
                        &&& secret_commitments(*final(commitments)) == list.remove(j)
                    }
                },
            }
        },
{
    key.sign(message_hash, group_key, commitments, commitment_index, signers)
}

/// `GroupKey::to_bytes`: the key's compressed point, which decompresses to a
/// key that `==` finds equal to this one.
#[verifier::external_body]
pub(crate) fn group_key_to_bytes(key: &GroupKey) -> (res: [u8; 32])
    ensures
        res@ == group_key_encoding(*key),
        group_key_decoded(res@) is Some,
        same_group_key(group_key_decoded(res@)->Some_0, *key),
{
    key.to_bytes()
}

/// `GroupKey::from_bytes`.
#[verifier::external_body]
pub(crate) fn group_key_from_bytes(bytes: [u8; 32]) -> (res: Option<GroupKey>)
    ensures
        res == group_key_decoded(bytes@),
{
    GroupKey::from_bytes(bytes).ok()
}

/// `RistrettoPoint::compress`, as bytes; the compression of a point always
/// decompresses.
#[verifier::external_body]
pub(crate) fn point_to_bytes(point: &RistrettoPoint) -> (res: [u8; 32])
    ensures
        res@ == point_encoding(*point),
        point_decoded(res@) is Some,
{
    point.compress().to_bytes()
}

/// `CompressedRistretto::decompress` of 32 bytes.
#[verifier::external_body]
pub(crate) fn point_from_bytes(bytes: [u8; 32]) -> (res: Option<RistrettoPoint>)
    ensures
        res == point_decoded(bytes@),
{
    curve25519_dalek::ristretto::CompressedRistretto(bytes).decompress()
}

/// Reads the public field `IndividualPublicKey::share`.
#[verifier::external_body]
pub(crate) fn public_key_share_of(key: &IndividualPublicKey) -> (res: RistrettoPoint)
    ensures
        res == public_key_share(*key),
{
    key.share
}

/// An `IndividualPublicKey` built from its two public fields.
#[verifier::external_body]
pub(crate) fn public_key_from_parts(index: u32, share: RistrettoPoint) -> (res: IndividualPublicKey)
    ensures
        public_key_owner(res) == index,
        public_key_share(res) == share,
{
    IndividualPublicKey { index, share }
}

/// `frost_dalek::compute_message_hash`: the hash that is signed.
#[verifier::external_body]
pub(crate) fn message_hash(context: &[u8], message: &[u8]) -> (res: [u8; 64])
    ensures
        res@ == frost_message_hash(context@, message@),
{
    frost_dalek::compute_message_hash(context, message)
}

/// `Sha256::digest`: the 32-byte SHA-256 hash of `data`.
#[verifier::external_body]
pub(crate) fn sha256(data: &[u8]) -> (res: Vec<u8>)
    ensures
        res@ == sha256_digest(data@),
        res@.len() == 32,
{
    sha2::Sha256::digest(data).to_vec()
}

/// `hex::decode` of the bytes of `text`: per its source, `hex_decoded` of
/// them, the error turned into `None`.
#[verifier::external_body]
pub(crate) fn hex_decode(text: &str) -> (res: Option<Vec<u8>>)
    ensures
        match res {
            Some(bytes) => hex_decoded(text.spec_bytes()) == Some(bytes@),
            None => hex_decoded(text.spec_bytes()) is None,
        },
{
    hex::decode(text).ok()
}

/// `chrono::Utc::now`, formatted with the `chrono` format string `format`,
/// which must be the RFC 3161 one (`%Y%m%d%H%M%SZ`): another string could be
/// invalid, and formatting it panics.  The time itself depends on the clock
/// and is not claimed; the shape is: the year (at least four digits, as the
/// clock reads no earlier than 1970), then two digits each for month, day,
/// hour, minute and second, then `Z`, so at least 15 characters ending in
/// `Z`.  (The call panics if the clock reads before 1970, which no argument
/// can rule out.)
#[verifier::external_body]
pub(crate) fn utc_now_formatted(format: &str) -> (res: String)
    requires
        format@ == "%Y%m%d%H%M%SZ"@,
    ensures
        res@.len() >= 15,
        res@.last() == 'Z',
{
    chrono::Utc::now().format(format).to_string()
}

impl<'a> SigningRound<'a> {
    /// `SignatureAggregator::new` for `message` under `context` with
    /// `group_key`: it holds no signer yet.
    #[verifier::external_body]
    pub(crate) fn new(parameters: &Parameters, group_key: GroupKey, context: &'a [u8], message: &'a [u8]) -> (res: SigningRound<'a>)
        ensures
            round_signer_entries(res) == Seq::<Signer>::empty(),
            round_context(res) == context@,
            round_message(res) == message@,
            round_group_key(res) == group_key,
    {
        let p = frost_dalek::Parameters { t: parameters.t, n: parameters.n };
        SigningRound { aggregator: SignatureAggregator::new(p, group_key, context, message) }
    }

    /// `SignatureAggregator::include_signer`, with the index that the public
    /// key carries, so that the call's check that the two agree holds: the
    /// round then holds one more signer, after the others, with that index
    /// (which is returned) and `commitment`.
    #[verifier::external_body]
    pub(crate) fn include_signer(&mut self, commitment: (RistrettoPoint, RistrettoPoint), public_key: IndividualPublicKey) -> (index: u32)
        ensures
            index == public_key_owner(public_key),
            round_signer_entries(*final(self)).len() == round_signer_entries(*old(self)).len() + 1,
            round_signer_entries(*final(self)).drop_last() == round_signer_entries(*old(self)),
            signer_index_of(round_signer_entries(*final(self)).last()) == index,
            signer_commitment(round_signer_entries(*final(self)).last()) == commitment,
            same_round_setting(*final(self), *old(self)),
    {
        let index = public_key.index;
        self.aggregator.include_signer(index, commitment, public_key);
        index
    }

    /// `SignatureAggregator::get_signers`, copied.  The call sorts the held
    /// signers by index and drops those whose index repeats (`Signer`'s `==`
    /// and order compare indices only), so the round then holds one signer per
    /// index, the first it held with that index (the sort is stable and
    /// `dedup` keeps the first of equal neighbours), in increasing order of
    /// index; the copy returned is exactly those signers.
    #[verifier::external_body]
    pub(crate) fn get_signers(&mut self) -> (res: Vec<Signer>)
        ensures
            round_signers(*final(self)).to_set() == round_signers(*old(self)).to_set(),
            forall|i: int, j: int| 0 <= i < j < round_signers(*final(self)).len()
                ==> round_signers(*final(self))[i] < round_signers(*final(self))[j],
            forall|k: int| 0 <= k < round_signer_entries(*final(self)).len() ==> exists|j: int|
                0 <= j < round_signer_entries(*old(self)).len()
                    && #[trigger] round_signer_entries(*final(self))[k] == round_signer_entries(*old(self))[j]
                    && forall|i: int| 0 <= i < j ==> signer_index_of(#[trigger] round_signer_entries(*old(self))[i])
                        != signer_index_of(round_signer_entries(*old(self))[j]),
            res@ == round_signer_entries(*final(self)),
            same_round_setting(*final(self), *old(self)),
    {
        self.aggregator.get_signers().clone()
    }

    /// `SignatureAggregator::include_partial_signature`: it stores the
    /// partial signature and leaves the signers as they were.
    #[verifier::external_body]
    pub(crate) fn include_partial_signature(&mut self, partial_signature: PartialThresholdSignature)
        ensures
            *final(self) == with_partial(*old(self), partial_signature),
            round_signer_entries(*final(self)) == round_signer_entries(*old(self)),
            same_round_setting(*final(self), *old(self)),
    {
        self.aggregator.include_partial_signature(partial_signature)
    }

    /// `SignatureAggregator::finalize`: fails when a signer has no partial
    /// signature or no public key; the finalized round signs the message hash
    /// of the round's context and message.
    #[verifier::external_body]
    pub(crate) fn finalize(self) -> (res: Option<FinalizedRound>)
        ensures
            res == finalized_of(self),
            res matches Some(finalized) ==> finalized_message_hash(finalized) == frost_message_hash(round_context(self), round_message(self)),
    {
        self.aggregator.finalize().ok().map(|aggregator| FinalizedRound { aggregator })
    }
}

impl FinalizedRound {
    /// `SignatureAggregator::aggregate`: fails when a partial signature does
    /// not check.  The point of the signature is a sum over a hash map, so how
    /// it is held may differ from call to call; only the outcome and the
    /// signature's encoding are claimed.
    #[verifier::external_body]
    pub(crate) fn aggregate(&self) -> (res: Option<ThresholdSignature>)
        ensures
            res is Some == aggregate_succeeds(*self),
            res matches Some(signature) ==> signature_encoding(signature) == aggregate_encoding(*self),
    {
        self.aggregator.aggregate().ok()
    }
}

/// `ThresholdSignature::verify`: whether the signature checks against the
/// group key.
#[verifier::external_body]
pub(crate) fn signature_verifies(signature: &ThresholdSignature, group_key: &GroupKey, message_hash: &[u8; 64]) -> (res: bool)
    ensures
        res == signature_valid(*signature, *group_key, message_hash@),
{
    signature.verify(group_key, message_hash).is_ok()
}

/// `ThresholdSignature::to_bytes`: the 64-byte encoding, the compressed point
/// then the scalar.  A signature's point is a valid point and its scalar is
/// reduced, so the encoding decodes again, to the same point and scalar:
/// `verify` (which compares compressed points) gives the same verdict on it,
/// under every key and for every hash.
#[verifier::external_body]
pub(crate) fn signature_to_bytes(signature: &ThresholdSignature) -> (res: [u8; 64])
    ensures
        res@ == signature_encoding(*signature),
        signature_decoded(res@) is Some,
        forall|group_key: GroupKey, message_hash: Seq<u8>|
            #[trigger] signature_valid(signature_decoded(res@)->Some_0, group_key, message_hash)
                == signature_valid(*signature, group_key, message_hash),
{
    signature.to_bytes()
}

/// `ThresholdSignature::from_bytes`: the signature that 64 bytes encode,
/// exactly when they encode one.  The signature itself is not claimed.
#[verifier::external_body]
pub(crate) fn signature_from_bytes(bytes: [u8; 64]) -> (res: Option<ThresholdSignature>)
    ensures
        res == signature_decoded(bytes@),
{
    ThresholdSignature::from_bytes(bytes).ok()
}

} // verus!
