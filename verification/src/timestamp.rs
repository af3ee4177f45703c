//! Signing timestamps: what is signed, who signs, and the answer to the client.
use vstd::prelude::*;
use vstd::string::{StringExecFns, StringSliceAdditionalSpecFns};
use curve25519_dalek::ristretto::RistrettoPoint;
use frost_dalek::signature::{PartialThresholdSignature, Signer};
use frost_dalek::{GroupKey, IndividualPublicKey};
use crate::bytes::to_array;
use crate::crypto::{
    frost_message_hash, hex_decode, hex_decoded, message_hash, public_key_index, secret_key_to_public, sha256,
    sha256_digest, encodes_threshold_signature, round_signers, signature_from_bytes, public_key_of, public_key_owner,
    with_partial, finalized_of, aggregate_succeeds, aggregate_encoding, round_signer_entries, signer_index_of,
    signer_commitment, round_context, round_message, round_group_key, same_round_setting, signature_valid, signature_encoding, signature_decoded, token_verifies, signature_to_bytes, signature_verifies, utc_now_formatted, SigningRound,
};
use crate::state::{same_config, same_deliveries, same_keys, same_peers, ServerState};
use crate::types::{Parameters, PartialSignatureRequest, TimeStampResp, TimestampStruct};

verus! {

/// The context string that timestamps are signed under, `diks-tits`.
pub open spec fn signing_context_bytes() -> Seq<u8> {
    seq![100u8, 105u8, 107u8, 115u8, 45u8, 116u8, 105u8, 116u8, 115u8]
}

/// The context string that timestamps are signed under.
pub fn signing_context() -> (res: Vec<u8>)
    ensures
        res@ == signing_context_bytes(),
{
    let res: Vec<u8> = vec![100u8, 105u8, 107u8, 115u8, 45u8, 116u8, 105u8, 116u8, 115u8];
    assert(res@ =~= signing_context_bytes());
    res
}

/// What a timestamp signs.
pub struct TimestampDigest {
    /// SHA-256 of the client's hash followed by the time.
    pub final_hash: Vec<u8>,
    /// The hash of `final_hash` under the signing context; the signature is
    /// made over it.
    pub message_hash: [u8; 64],
    /// The time that was hashed after the client's hash.
    pub time: String,
}

/// The final hash and the signed hash for a client's hex encoded hash, given
/// as its bytes, and the bytes of the time: `None` when the hex does not decode.
pub open spec fn digest_of(hashed_message: Seq<u8>, time: Seq<u8>) -> Option<(Seq<u8>, Seq<u8>)> {
    match hex_decoded(hashed_message) {
        None => None,
        Some(file_hash) => {
            let final_hash = sha256_digest(file_hash + time);
            Some((final_hash, frost_message_hash(signing_context_bytes(), final_hash)))
        },
    }
}

/// What a timestamp of the hex encoded `hashed_message` at time `timestr`
/// signs, or `None` when the hex does not decode.
pub fn timestamp_digest(hashed_message: &str, timestr: &str) -> (res: Option<TimestampDigest>)
    ensures
        match digest_of(hashed_message.spec_bytes(), timestr.spec_bytes()) {
            None => res is None,
            Some((final_hash, signed)) => res matches Some(d) && d.final_hash@ == final_hash && d.message_hash@ == signed,
        },
        res matches Some(d) ==> d.time@ == timestr@,
{
    let mut data = match hex_decode(hashed_message) {
        Some(bytes) => bytes,
        None => {
            return None;
        },
    };
    let ghost file_hash = data@;
    data.extend_from_slice(timestr.as_bytes());
    assert(data@ =~= file_hash + timestr.spec_bytes());
    let final_hash = sha256(data.as_slice());
    let context = signing_context();
    let signed = message_hash(context.as_slice(), final_hash.as_slice());
    Some(TimestampDigest { final_hash, message_hash: signed, time: String::from_str(timestr) })
}

/// The shape of a time written as RFC 3161 writes it (`YYYYMMDDhhmmssZ`,
/// with more year digits after the year 9999): at least 15 characters,
/// ending in `Z`.
pub open spec fn is_timestamp_time(time: Seq<char>) -> bool {
    time.len() >= 15 && time.last() == 'Z'
}

/// What a timestamp of the hex encoded `hashed_message` signs, at the time
/// read from the clock now in UTC, written as RFC 3161 writes it
/// (`YYYYMMDDhhmmssZ`); `None` when the hex does not decode.
pub fn prepare_timestamp(hashed_message: &str) -> (res: Option<TimestampDigest>)
    ensures
        match hex_decoded(hashed_message.spec_bytes()) {
            None => res is None,
            Some(file_hash) => res matches Some(d) && exists|time: Seq<char>| {
                &&& is_timestamp_time(time)
                &&& d.final_hash@ == sha256_digest(#[trigger] (file_hash + vstd::utf8::encode_utf8(time)))
                &&& d.message_hash@ == frost_message_hash(signing_context_bytes(), d.final_hash@)
            },
        },
        res matches Some(d) ==> {
            &&& is_timestamp_time(d.time@)
            &&& hex_decoded(hashed_message.spec_bytes()) matches Some(file_hash)
            &&& d.final_hash@ == sha256_digest(file_hash + vstd::utf8::encode_utf8(d.time@))
            &&& d.message_hash@ == frost_message_hash(signing_context_bytes(), d.final_hash@)
        },
{
    let format = "%Y%m%d%H%M%SZ";
    let timestr = utc_now_formatted(format);
    let time = timestr.as_str();
    let res = timestamp_digest(hashed_message, time);
    proof {
        if let Some(file_hash) = hex_decoded(hashed_message.spec_bytes()) {
            assert(is_timestamp_time(time@));
            assert(sha256_digest(file_hash + vstd::utf8::encode_utf8(time@)) == res->Some_0.final_hash@);
        }
    }
    res
}

/// The answer to a request whose hash does not decode.
pub fn failed_response() -> (res: TimeStampResp)
    ensures
        res.status@ == "fail"@,
        res.timeStampToken@.len() == 0,
        res.final_hash@.len() == 0,
{
    TimeStampResp { status: String::from_str("fail"), timeStampToken: Vec::new(), final_hash: Vec::new() }
}

/// The answer carrying the threshold signature `token` of `message_hash`.
pub fn signed_response(token: [u8; 64], message_hash: [u8; 64]) -> (res: TimeStampResp)
    ensures
        res.status@ == "Ok?"@,
        res.timeStampToken@ == token@,
        res.final_hash@ == message_hash@,
{
    TimeStampResp {
        status: String::from_str("Ok?"),
        timeStampToken: vstd::slice::slice_to_vec(token.as_slice()),
        final_hash: vstd::slice::slice_to_vec(message_hash.as_slice()),
    }
}

impl TimeStampResp {
    /// Whether the answer carries a signature.
    pub fn is_signed(&self) -> (res: bool)
        ensures
            res == (self.status@ == "Ok?"@),
    {
        self.status == String::from_str("Ok?")
    }
}

/// How many servers sign a timestamp: the threshold `t`, or every server
/// when the group has fewer than `t`.
pub open spec fn signer_count(parameters: Parameters) -> nat {
    if parameters.t <= parameters.n { parameters.t as nat } else { parameters.n as nat }
}

/// The servers that sign a timestamp: a fixed subset of the group, the
/// first `t` servers (all of them when the group has fewer than `t`).
pub fn get_random_signers(parameters: &Parameters) -> (res: Vec<usize>)
    ensures
        res@ == Seq::new(signer_count(*parameters), |i: int| i as usize),
        res@.len() == signer_count(*parameters),
        forall|i: int, j: int| 0 <= i < j < res@.len() ==> res@[i] < res@[j],
        forall|i: int| 0 <= i < res@.len() ==> res@[i] < parameters.n,
{
    let count: u32 = if parameters.t <= parameters.n { parameters.t } else { parameters.n };
    let mut res: Vec<usize> = Vec::new();
    let mut i: u32 = 0;
    while i < count
        invariant
            i <= count,
            count as nat == signer_count(*parameters),
            res@ == Seq::new(i as nat, |k: int| k as usize),
        decreases count - i,
    {
        res.push(i as usize);
        i = i + 1;
        assert(res@ =~= Seq::new(i as nat, |k: int| k as usize));
    }
    res
}

/// What `/timestamp` does next while it gathers a signature.
#[derive(Clone, Copy, Debug, PartialEq, Eq, Structural)]
pub enum TimestampAction {
    /// Get the commitment and public key of this signer: from this server's
    /// own state when it is this server, else by asking it.
    GatherContribution { signer: usize },
    /// Ask this signer for its partial signature.
    GatherPartialSignature { signer: usize },
    /// Every contribution and partial signature is in: aggregate them.
    Aggregate,
}

/// The step of `/timestamp` after `contributions` contributions and then
/// `partials` partial signatures have been gathered from `signers`, in order:
/// first every signer's contribution, then every signer's partial signature.
pub fn next_timestamp_action(signers: &Vec<usize>, contributions: usize, partials: usize) -> (res: TimestampAction)
    requires
        contributions <= signers@.len(),
        partials <= signers@.len(),
        partials > 0 ==> contributions == signers@.len(),
    ensures
        contributions < signers@.len() ==> res == (TimestampAction::GatherContribution { signer: signers@[contributions as int] }),
        contributions == signers@.len() && partials < signers@.len()
            ==> res == (TimestampAction::GatherPartialSignature { signer: signers@[partials as int] }),
        contributions == signers@.len() && partials == signers@.len() ==> res == TimestampAction::Aggregate,
{
    if contributions < signers.len() {
        TimestampAction::GatherContribution { signer: signers[contributions] }
    } else if partials < signers.len() {
        TimestampAction::GatherPartialSignature { signer: signers[partials] }
    } else {
        TimestampAction::Aggregate
    }
}

/// What a signer brings to a signature before it signs: its commitment for
/// this signature and its public key.
pub struct SignerContribution {
    /// The index of the signer.
    pub signer_index: usize,
    /// The signer's published commitment pair that it signs with.
    pub commitment: (RistrettoPoint, RistrettoPoint),
    /// The signer's public verification key.
    pub public_key: IndividualPublicKey,
}

/// Why a threshold signature could not be made.
#[derive(Clone, Copy, Debug, PartialEq, Eq, Structural)]
pub enum SigningError {
    /// A signer's public key carries another index than the signer's.
    SignerMismatch,
    /// A signer did not contribute a partial signature, or has no public key.
    MissingPartialSignature,
    /// A partial signature does not check.
    InvalidPartialSignature,
    /// The aggregated signature does not check against the group key.
    SignatureRejected,
}

/// What a server settles before it gathers the signatures for a timestamp.
pub struct TimestampPlan {
    /// The index of the commitment that every signer signs with.
    pub commitment_index: usize,
    /// What is signed, or `None` when the client's hash is no hex: then the
    /// request fails.
    pub digest: Option<TimestampDigest>,
    /// The servers that sign.
    pub signers: Vec<usize>,
}

/// The names of the hash algorithm that timestamps are made with, SHA-256:
/// `SHA2`, `SHA256` or `SHA-256`.
pub open spec fn supported_hash_algorithm(name: Seq<char>) -> bool {
    name == "SHA2"@ || name == "SHA256"@ || name == "SHA-256"@
}

/// Whether `name` names the hash algorithm that timestamps are made with.
pub fn is_supported_hash_algorithm(name: &str) -> (res: bool)
    ensures
        res == supported_hash_algorithm(name@),
{
    let name = String::from_str(name);
    name == String::from_str("SHA2") || name == String::from_str("SHA256") || name == String::from_str("SHA-256")
}

impl ServerState {
    /// `/timestamp` up to the signing: takes the next commitment index, even
    /// for a request that then fails, computes what is signed, with the
    /// requested hash algorithm, at the time read from the clock, and picks
    /// the signers.  A request for another algorithm, or whose hash is no
    /// hex, gets no digest: it is answered with the failed response.
    pub fn begin_timestamp(&mut self, request: &TimestampStruct) -> (res: TimestampPlan)
        requires
            old(self).commitment_index < usize::MAX,
        ensures
            res.commitment_index == old(self).commitment_index,
            final(self).commitment_index == old(self).commitment_index + 1,
            res.signers@ == Seq::new(signer_count(old(self).parameters), |i: int| i as usize),
            !supported_hash_algorithm(request.hashAlgorithm@) ==> res.digest is None,
            supported_hash_algorithm(request.hashAlgorithm@) ==> match hex_decoded(vstd::utf8::encode_utf8(request.hashedMessage@)) {
                None => res.digest is None,
                Some(file_hash) => res.digest matches Some(d) && exists|time: Seq<char>| {
                    &&& is_timestamp_time(time)
                    &&& d.final_hash@ == sha256_digest(#[trigger] (file_hash + vstd::utf8::encode_utf8(time)))
                    &&& d.message_hash@ == frost_message_hash(signing_context_bytes(), d.final_hash@)
                },
            },
            res.digest matches Some(d) ==> {
                &&& supported_hash_algorithm(request.hashAlgorithm@)
                &&& is_timestamp_time(d.time@)
                &&& hex_decoded(vstd::utf8::encode_utf8(request.hashedMessage@)) matches Some(file_hash)
                &&& d.final_hash@ == sha256_digest(file_hash + vstd::utf8::encode_utf8(d.time@))
                &&& d.message_hash@ == frost_message_hash(signing_context_bytes(), d.final_hash@)
            },
            same_config(*final(self), *old(self)),
            same_peers(*final(self), *old(self)),
            same_deliveries(*final(self), *old(self)),
            same_keys(*final(self), *old(self)),
            final(self).public_commitment_shares == old(self).public_commitment_shares,
            final(self).secret_commitment_shares == old(self).secret_commitment_shares,
            final(self).state == old(self).state,
    {
        let commitment_index: usize = self.get_and_increment_comiitment_index();
        let digest = if is_supported_hash_algorithm(request.hashAlgorithm.as_str()) {
            prepare_timestamp(request.hashedMessage.as_str())
        } else {
            None
        };
        let signers = get_random_signers(&self.parameters);
        TimestampPlan { commitment_index, digest, signers }
    }

    /// A signing round for `message` under `context`, with this server's
    /// parameters and group key; it holds no signer yet.
    pub fn signing_round<'a>(&self, context: &'a [u8], message: &'a [u8]) -> (res: SigningRound<'a>)
        requires
            self.group_key is Some,
        ensures
            round_signer_entries(res) == Seq::<Signer>::empty(),
            round_signers(res) == Seq::<u32>::empty(),
            round_context(res) == context@,
            round_message(res) == message@,
            round_group_key(res) == self.group_key->Some_0,
    {
        SigningRound::new(&self.parameters, self.group_key.unwrap(), context, message)
    }

    /// This server's contribution to a signature when it is the signer
    /// `signer_index`: its commitment number `commitment_index` and its public
    /// key; `None` for another signer, whose contribution is asked of it.
    pub fn own_contribution(&self, signer_index: usize, commitment_index: usize) -> (res: Option<SignerContribution>)
        requires
            signer_index == self.this_server_index ==> {
                &&& self.public_commitment_shares is Some
                &&& commitment_index < self.public_commitment_shares->Some_0.commitments@.len()
                &&& self.secret_key is Some
            },
        ensures
            res is Some <==> signer_index == self.this_server_index,
            res matches Some(c) ==> {
                &&& c.signer_index == signer_index
                &&& c.commitment == self.public_commitment_shares->Some_0.commitments@[commitment_index as int]
                &&& c.public_key == public_key_of(self.secret_key->Some_0)
            },
    {
        if signer_index != self.this_server_index {
            return None;
        }
        let commitment = self.commitment_at(commitment_index).unwrap();
        let public_key = secret_key_to_public(self.secret_key.as_ref().unwrap());
        Some(SignerContribution { signer_index, commitment, public_key })
    }
}

impl<'a> SigningRound<'a> {
    /// Includes a signer, after checking that its public key is its own: a
    /// mismatch is refused and leaves the round as it was; otherwise the
    /// round holds one more signer, after those it held.
    pub fn add_signer(&mut self, contribution: SignerContribution) -> (res: Result<(), SigningError>)
        ensures
            res is Err <==> public_key_owner(contribution.public_key) != contribution.signer_index as u32,
            res matches Err(e) ==> e == SigningError::SignerMismatch && *final(self) == *old(self),
            res is Ok ==> {
                &&& round_signer_entries(*final(self)).len() == round_signer_entries(*old(self)).len() + 1
                &&& round_signer_entries(*final(self)).drop_last() == round_signer_entries(*old(self))
                &&& signer_index_of(round_signer_entries(*final(self)).last()) == contribution.signer_index as u32
                &&& signer_commitment(round_signer_entries(*final(self)).last()) == contribution.commitment
                &&& same_round_setting(*final(self), *old(self))
            },
    {
        if public_key_index(&contribution.public_key) != contribution.signer_index as u32 {
            return Err(SigningError::SignerMismatch);
        }
        self.include_signer(contribution.commitment, contribution.public_key);
        Ok(())
    }
}

/// The signer index of each contribution, in order.
pub open spec fn contribution_indices(contributions: Seq<SignerContribution>) -> Seq<u32> {
    contributions.map_values(|c: SignerContribution| c.signer_index as u32)
}

/// Whether a contribution's public key is that of its signer.
pub open spec fn contribution_matches(c: SignerContribution) -> bool {
    public_key_owner(c.public_key) == c.signer_index as u32
}

/// Whether `signer` is one of `held`, or is made of the index and commitment
/// of one of `contributions`.
pub open spec fn signer_from(signer: Signer, held: Seq<Signer>, contributions: Seq<SignerContribution>) -> bool {
    ||| exists|j: int| 0 <= j < held.len() && signer == #[trigger] held[j]
    ||| exists|j: int| 0 <= j < contributions.len() && {
        &&& signer_index_of(signer) == (#[trigger] contributions[j]).signer_index as u32
        &&& signer_commitment(signer) == contributions[j].commitment
    }
}

/// Includes every contribution in `round`, in order, and gives the signers
/// that the partial signatures are asked for; stops at the first signer
/// whose public key is not its own.  On success the round holds one signer
/// per index among those it held and those of the contributions, in
/// increasing order of index, each one it held or one made of a
/// contribution's index and commitment, and the signers given are exactly
/// those.
pub fn collect_signers(round: &mut SigningRound, contributions: Vec<SignerContribution>) -> (res: Result<Vec<Signer>, SigningError>)
    ensures
        res is Err <==> exists|k: int| 0 <= k < contributions@.len() && !contribution_matches(#[trigger] contributions@[k]),
        res matches Err(e) ==> e == SigningError::SignerMismatch,
        res matches Ok(signers) ==> {
            &&& signers@ == round_signer_entries(*final(round))
            &&& round_signers(*final(round)).to_set()
                == (round_signers(*old(round)) + contribution_indices(contributions@)).to_set()
            &&& forall|i: int, j: int| 0 <= i < j < round_signers(*final(round)).len()
                ==> round_signers(*final(round))[i] < round_signers(*final(round))[j]
            &&& forall|k: int| 0 <= k < signers@.len()
                ==> signer_from(#[trigger] signers@[k], round_signer_entries(*old(round)), contributions@)
            &&& same_round_setting(*final(round), *old(round))
        },
{
    let ghost start = round_signer_entries(*round);
    let ghost first = *round;
    let ghost all = contributions@;
    let mut rest = contributions;
    let total: usize = rest.len();
    let mut done: usize = 0;
    while rest.len() > 0
        invariant
            all == contributions@,
            all.len() == total,
            done + rest@.len() == all.len(),
            rest@ == all.subrange(done as int, all.len() as int),
            round_signer_entries(*round).len() == start.len() + done,
            round_signer_entries(*round).subrange(0, start.len() as int) == start,
            forall|k: int| 0 <= k < done ==> {
                &&& signer_index_of(#[trigger] round_signer_entries(*round)[start.len() + k]) == all[k].signer_index as u32
                &&& signer_commitment(round_signer_entries(*round)[start.len() + k]) == all[k].commitment
            },
            forall|k: int| 0 <= k < done ==> contribution_matches(#[trigger] all[k]),
            same_round_setting(*round, first),
        decreases rest@.len(),
    {
        let contribution = rest.remove(0);
        proof {
            assert(contribution == all[done as int]);
        }
        let ghost before = round_signer_entries(*round);
        match round.add_signer(contribution) {
            Ok(()) => {},
            Err(e) => {
                assert(!contribution_matches(contributions@[done as int]));
                return Err(e);
            },
        }
        proof {
            let after = round_signer_entries(*round);
            assert(after.subrange(0, start.len() as int) =~= before.subrange(0, start.len() as int)) by {
                assert forall|i: int| 0 <= i < start.len() implies after[i] == before[i] by {
                    assert(after.drop_last()[i] == after[i]);
                }
            }
            assert forall|k: int| 0 <= k < done + 1 implies {
                &&& signer_index_of(#[trigger] round_signer_entries(*round)[start.len() + k]) == all[k].signer_index as u32
                &&& signer_commitment(round_signer_entries(*round)[start.len() + k]) == all[k].commitment
            } by {
                if k < done {
                    assert(after.drop_last()[start.len() + k] == after[start.len() + k]);
                    assert(before[start.len() + k] == after[start.len() + k]);
                }
            }
        }
        done = done + 1;
    }
    let ghost held = round_signer_entries(*round);
    proof {
        assert(all.subrange(0, done as int) =~= all);
        assert(round_signers(*round) =~= round_signers(first) + contribution_indices(all)) by {
            assert forall|i: int| 0 <= i < held.len() implies #[trigger] round_signers(*round)[i]
                == (round_signers(first) + contribution_indices(all))[i] by {
                if i < start.len() {
                    assert(held.subrange(0, start.len() as int)[i] == held[i]);
                } else {
                    let k = i - start.len();
                    assert(signer_index_of(round_signer_entries(*round)[start.len() + k]) == all[k].signer_index as u32);
                }
            }
        }
    }
    let signers = round.get_signers();
    proof {
        assert forall|k: int| 0 <= k < signers@.len()
            implies signer_from(#[trigger] signers@[k], start, all) by {
            let j = choose|j: int| 0 <= j < held.len() && #[trigger] round_signer_entries(*round)[k] == held[j];
            if j < start.len() {
                assert(held.subrange(0, start.len() as int)[j] == held[j]);
                assert(signers@[k] == start[j]);
            } else {
                let c = j - start.len();
                assert(signer_index_of(held[start.len() + c]) == all[c].signer_index as u32);
                assert(signer_commitment(signers@[k]) == all[c].commitment);
                assert(signer_index_of(signers@[k]) == all[c].signer_index as u32);
            }
        }
    }
    Ok(signers)
}

/// The request that asks a signer for its partial signature of a timestamp:
/// the hash that is signed, the commitment index of this timestamp, and the
/// signers that take part, as they were collected.
pub fn partial_signature_request(digest: &TimestampDigest, commitment_index: usize, signers: &Vec<Signer>) -> (res: PartialSignatureRequest)
    ensures
        res.message_hash@ == digest.message_hash@,
        res.commitment_index == commitment_index,
        res.signers@ == signers@,
{
    let mut copied: Vec<Signer> = Vec::new();
    let mut i: usize = 0;
    while i < signers.len()
        invariant
            i <= signers@.len(),
            copied@ == signers@.subrange(0, i as int),
        decreases signers@.len() - i,
    {
        copied.push(signers[i]);
        i = i + 1;
    }
    assert(copied@ =~= signers@);
    PartialSignatureRequest {
        message_hash: vstd::slice::slice_to_vec(digest.message_hash.as_slice()),
        signers: copied,
        commitment_index,
    }
}

/// The round after the partial signatures `partials` are included, in order.
pub open spec fn with_partials<'a>(round: SigningRound<'a>, partials: Seq<PartialThresholdSignature>) -> SigningRound<'a>
    decreases partials.len(),
{
    if partials.len() == 0 {
        round
    } else {
        with_partial(with_partials(round, partials.drop_last()), partials.last())
    }
}

/// Including no partial signature leaves the round as it is.
pub proof fn lemma_with_no_partials<'a>(round: SigningRound<'a>)
    ensures
        with_partials(round, Seq::empty()) == round,
{
}

/// Including a single partial signature is one `include_partial_signature`.
pub proof fn lemma_with_one_partial<'a>(round: SigningRound<'a>, partial: PartialThresholdSignature)
    ensures
        with_partials(round, seq![partial]) == with_partial(round, partial),
{
    let single = seq![partial];
    assert(single.drop_last() =~= Seq::<PartialThresholdSignature>::empty());
    assert(with_partials(round, single.drop_last()) == round);
    assert(single.last() == partial);
}

/// Including `first` and then `then` is including `first + then`: every
/// partial signature given is included, in order, whatever their number.
pub proof fn lemma_with_partials_in_turn<'a>(
    round: SigningRound<'a>,
    first: Seq<PartialThresholdSignature>,
    then: Seq<PartialThresholdSignature>,
)
    ensures
        with_partials(round, first + then) == with_partials(with_partials(round, first), then),
    decreases then.len(),
{
    if then.len() == 0 {
        assert(first + then =~= first);
    } else {
        lemma_with_partials_in_turn(round, first, then.drop_last());
        assert((first + then).drop_last() =~= first + then.drop_last());
        assert((first + then).last() == then.last());
    }
}

/// What signing gives for a round once the partial signatures are in: the
/// encoded signature, or why none is made.
pub open spec fn signing_outcome(round: SigningRound<'_>, group_key: GroupKey, message_hash: Seq<u8>) -> Result<Seq<u8>, SigningError> {
    match finalized_of(round) {
        None => Err(SigningError::MissingPartialSignature),
        Some(finalized) => if !aggregate_succeeds(finalized) {
            Err(SigningError::InvalidPartialSignature)
        } else if token_verifies(aggregate_encoding(finalized), group_key, message_hash) {
            Ok(aggregate_encoding(finalized))
        } else {
            Err(SigningError::SignatureRejected)
        },
    }
}

/// Aggregates the partial signatures in `round` into a threshold signature
/// and checks it against the group key: its 64-byte encoding, which then
/// verifies under the group key for the hash.
pub fn finish_signing(
    round: SigningRound,
    partial_signatures: Vec<PartialThresholdSignature>,
    group_key: &GroupKey,
    message_hash: &[u8; 64],
) -> (res: Result<[u8; 64], SigningError>)
    ensures
        match signing_outcome(with_partials(round, partial_signatures@), *group_key, message_hash@) {
            Ok(encoding) => res matches Ok(token) && token@ == encoding,
            Err(e) => res == Err::<[u8; 64], SigningError>(e),
        },
        res matches Err(e) ==> e != SigningError::SignerMismatch,
        res matches Ok(token) ==> encodes_threshold_signature(token@) && token_verifies(token@, *group_key, message_hash@),
{
    let ghost start = round;
    let ghost all = partial_signatures@;
    let mut round = round;
    let mut rest = partial_signatures;
    let total: usize = rest.len();
    let mut done: usize = 0;
    while rest.len() > 0
        invariant
            all.len() == total,
            done + rest@.len() == all.len(),
            rest@ == all.subrange(done as int, all.len() as int),
            round == with_partials(start, all.subrange(0, done as int)),
        decreases rest@.len(),
    {
        let partial = rest.remove(0);
        proof {
            assert(partial == all[done as int]);
            assert(all.subrange(0, done + 1).drop_last() =~= all.subrange(0, done as int));
        }
        round.include_partial_signature(partial);
        done = done + 1;
    }
    assert(all.subrange(0, done as int) =~= all);
    let finalized = match round.finalize() {
        Some(finalized) => finalized,
        None => {
            return Err(SigningError::MissingPartialSignature);
        },
    };
    let signature = match finalized.aggregate() {
        Some(signature) => signature,
        None => {
            return Err(SigningError::InvalidPartialSignature);
        },
    };
    let token = signature_to_bytes(&signature);
    let valid = signature_verifies(&signature, group_key, message_hash);
    assert(valid == signature_valid(signature_decoded(token@)->Some_0, *group_key, message_hash@));
    if !valid {
        return Err(SigningError::SignatureRejected);
    }
    Ok(token)
}

/// How a timestamp token fared against the group key.
#[derive(Clone, Copy, Debug, PartialEq, Eq, Structural)]
pub enum TokenCheck {
    /// The token is a valid signature of the hash.
    Verified,
    /// The token is a signature, but not of the hash under the group key.
    Rejected,
    /// The token encodes no signature.
    Malformed,
}

/// Checks a timestamp's 64-byte `token` against its 64-byte `final_hash` and
/// the group key: `Malformed` exactly when the token encodes no signature,
/// `Verified` when the signature is valid under the key for the hash, and
/// `Rejected` otherwise.
pub fn check_timestamp_token(token: &Vec<u8>, final_hash: &Vec<u8>, group_key: &GroupKey) -> (res: TokenCheck)
    requires
        token@.len() == 64,
        final_hash@.len() == 64,
    ensures
        res == TokenCheck::Malformed <==> !encodes_threshold_signature(token@),
        res == (match signature_decoded(token@) {
            None => TokenCheck::Malformed,
            Some(signature) => if signature_valid(signature, *group_key, final_hash@) {
                TokenCheck::Verified
            } else {
                TokenCheck::Rejected
            },
        }),
        res == TokenCheck::Verified <==> token_verifies(token@, *group_key, final_hash@),
{
    let signature = match signature_from_bytes(to_array(token)) {
        Some(signature) => signature,
        None => {
            return TokenCheck::Malformed;
        },
    };
    let hash = to_array(final_hash);
    if signature_verifies(&signature, group_key, &hash) {
        TokenCheck::Verified
    } else {
        TokenCheck::Rejected
    }
}

} // verus!
