//! The decisions that the endpoints of a server take on its state.
use vstd::prelude::*;
use curve25519_dalek::ristretto::RistrettoPoint;
use frost_dalek::precomputation::CommitmentShare;
use frost_dalek::signature::PartialThresholdSignature;
use frost_dalek::{GroupKey, IndividualPublicKey, Participant};
use crate::bytes::to_array;
use crate::crypto::{
    commitment_pair, commitment_share_lists, participant_passes, group_keys_equal, participant_index_of, participant_key, proof_checks, same_group_key,
    public_key_of, secret_commitments, partial_signature_of, same_commitment, unused_commitments, participant_index, participant_public_key,
    proof_of_secret_key_holds, secret_key_to_public, sign_partially,
};
use crate::state::{
    all_present, all_present_except, commitments_to_generate, same_config, same_deliveries, same_keys,
    same_peers, same_signing, ServerState,
};
use crate::types::{phase_rank, PartialSignatureRequest, SecretShareMessage, State};

verus! {

/// How a participant's proof of knowledge of its secret key fared.
#[derive(Clone, Copy, Debug, PartialEq, Eq, Structural)]
pub enum ProofCheck {
    /// The proof checks against the participant's public key.
    Valid,
    /// The proof does not check.
    Invalid,
    /// The participant has no public key to check the proof against.
    MissingPublicKey,
}

/// The answer to a participant sent to `/init`.
#[derive(Clone, Copy, Debug, PartialEq, Eq, Structural)]
pub enum InitReply {
    /// The server is not collecting participants.
    Forbidden,
    /// The participant's proof does not check.
    Unauthorized,
    /// The participant has no public key.
    MissingPublicKey,
    /// The participant's index names no server of the group.
    UnknownServer,
    /// The participant is stored; the flags say what to start next.
    Accepted {
        /// This server's own participant has not been sent out yet.
        share_pubkey: bool,
        /// Every participant is known: the first key generation round can run.
        start_round_one: bool,
    },
}

/// The answer to a secret share sent to `/keygen_phase1`.
#[derive(Clone, Copy, Debug, PartialEq, Eq, Structural)]
pub enum ShareReply {
    /// The server is not collecting secret shares.
    Forbidden,
    /// The share is stored.
    Accepted {
        /// Every other server's share is here: the second round can run.
        enter_phase_two: bool,
    },
}

/// The answer to a group key sent to `/keygen_phase2`.
#[derive(Clone, Copy, Debug, PartialEq, Eq, Structural)]
pub enum GroupKeyReply {
    /// The server is not waiting for the group key.
    Forbidden,
    /// The server now signs timestamps.
    Accepted {
        /// The key that was sent is this server's own.
        matches: bool,
    },
}

/// What `/init` does with a `participant` whose index is `index` and whose
/// proof fared as `verdict`, from state `pre` to state `post`, answering `res`.
pub open spec fn admits(pre: ServerState, post: ServerState, participant: Participant, index: u32, verdict: ProofCheck, res: InitReply) -> bool {
    if pre.state != State::Init {
        res == InitReply::Forbidden && post == pre
    } else if verdict == ProofCheck::MissingPublicKey {
        res == InitReply::MissingPublicKey && post == pre
    } else if verdict == ProofCheck::Invalid {
        res == InitReply::Unauthorized && post == pre
    } else if index >= pre.participants@.len() {
        res == InitReply::UnknownServer && post == pre
    } else {
        let participants = pre.participants@.update(index as int, Some(participant));
        &&& post.participants@ == participants
        &&& post.state == (if all_present(participants) { State::Phase1 } else { State::Init })
        &&& res == (InitReply::Accepted { share_pubkey: !pre.pubkey_sent, start_round_one: all_present(participants) })
        &&& same_config(post, pre)
        &&& post.secretShares == pre.secretShares
        &&& same_deliveries(post, pre)
        &&& same_keys(post, pre)
        &&& same_signing(post, pre)
    }
}

/// How a participant's proof fares: against its public key, if it has one.
pub open spec fn proof_verdict(participant: Participant) -> ProofCheck {
    match participant_key(participant) {
        None => ProofCheck::MissingPublicKey,
        Some(key) => if proof_checks(participant, key) {
            ProofCheck::Valid
        } else {
            ProofCheck::Invalid
        },
    }
}

/// Whether no two commitments of `list` are equal (`ct_eq`).
pub open spec fn distinct_commitments(list: Seq<CommitmentShare>) -> bool {
    forall|a: int, b: int| 0 <= a < list.len() && 0 <= b < list.len() && a != b
        ==> !same_commitment(#[trigger] list[a], #[trigger] list[b])
}

/// A commitment that has signed is gone: when the secret commitments are
/// distinct, removing the last one equal to the commitment used (as a
/// partial signature does) leaves no copy of it, so its nonces cannot sign
/// again.
pub proof fn lemma_used_commitment_gone(list: Seq<CommitmentShare>, index: int, j: int)
    requires
        0 <= index < list.len(),
        0 <= j < list.len(),
        distinct_commitments(list),
        same_commitment(list[index], list[index]),
        same_commitment(list[j], list[index]),
    ensures
        !list.remove(j).contains(list[index]),
        j == index,
{
    let after = list.remove(j);
    assert(j == index) by {
        if j != index {
            assert(!same_commitment(list[j], list[index]));
        }
    }
    if after.contains(list[index]) {
        let i = choose|i: int| 0 <= i < after.len() && after[i] == list[index];
        let k = if i < j { i } else { i + 1 };
        assert(after[i] == list[k]);
        assert(k != index);
        assert(same_commitment(list[k], list[index]));
        assert(!same_commitment(list[k], list[index]));
    }
}

impl ServerState {
    /// `/init` for a participant whose proof verdict is known: it is stored
    /// under its own index.
    pub fn admit_participant(&mut self, participant: Participant, verdict: ProofCheck) -> (res: InitReply)
        requires
            old(self).wf(),
        ensures
            final(self).wf(),
            admits(*old(self), *final(self), participant, participant_index_of(participant), verdict, res),
            old(self).state != State::Init ==> res == InitReply::Forbidden && *final(self) == *old(self),
            res is Accepted ==> old(self).state == State::Init && verdict == ProofCheck::Valid,
            phase_rank(old(self).state) <= phase_rank(final(self).state),
    {
        let index: u32 = participant_index(&participant);
        if self.state != State::Init {
            return InitReply::Forbidden;
        }
        match verdict {
            ProofCheck::MissingPublicKey => {
                return InitReply::MissingPublicKey;
            },
            ProofCheck::Invalid => {
                return InitReply::Unauthorized;
            },
            ProofCheck::Valid => {},
        }
        if index as usize >= self.participants.len() {
            return InitReply::UnknownServer;
        }
        self.participants.set(index as usize, Some(participant));
        let all = self.have_all_pubkeys();
        if self.state != State::Phase1 && all {
            self.state = State::Phase1;
        }
        InitReply::Accepted { share_pubkey: !self.pubkey_sent, start_round_one: self.state == State::Phase1 }
    }

    /// `/init`: checks the participant's proof of its secret key and stores
    /// it under its own index, while the server collects participants.
    pub fn receive_participant(&mut self, participant: Participant) -> (res: InitReply)
        requires
            old(self).wf(),
        ensures
            final(self).wf(),
            admits(*old(self), *final(self), participant, participant_index_of(participant), proof_verdict(participant), res),
            old(self).state != State::Init ==> res == InitReply::Forbidden && *final(self) == *old(self),
            res is Accepted ==> old(self).state == State::Init && participant_passes(participant),
            res is Accepted ==> final(self).participants@
                == old(self).participants@.update(participant_index_of(participant) as int, Some(participant)),
            !(res is Accepted) ==> *final(self) == *old(self),
            phase_rank(old(self).state) <= phase_rank(final(self).state),
    {
        if self.state != State::Init {
            return InitReply::Forbidden;
        }
        let verdict = match participant_public_key(&participant) {
            None => ProofCheck::MissingPublicKey,
            Some(key) => if proof_of_secret_key_holds(&participant, &key) {
                ProofCheck::Valid
            } else {
                ProofCheck::Invalid
            },
        };
        self.admit_participant(participant, verdict)
    }

    /// `/keygen_phase1`: stores a secret share, while the server collects
    /// them, and enters the second phase once every other server's is here.
    pub fn receive_secret_share(&mut self, message: SecretShareMessage) -> (res: ShareReply)
        requires
            old(self).wf(),
            old(self).state == State::Phase1 ==> message.from < old(self).secretShares@.len(),
        ensures
            final(self).wf(),
            phase_rank(old(self).state) <= phase_rank(final(self).state),
            old(self).state != State::Phase1 ==> res == ShareReply::Forbidden && *final(self) == *old(self),
            old(self).state == State::Phase1 ==> {
                let shares = old(self).secretShares@.update(message.from as int, Some(message.val));
                let complete = all_present_except(shares, old(self).this_server_index as int);
                &&& final(self).secretShares@ == shares
                &&& final(self).state == (if complete { State::Phase2 } else { State::Phase1 })
                &&& res == (ShareReply::Accepted { enter_phase_two: complete })
                &&& same_config(*final(self), *old(self))
                &&& final(self).participants == old(self).participants
                &&& same_deliveries(*final(self), *old(self))
                &&& same_keys(*final(self), *old(self))
                &&& same_signing(*final(self), *old(self))
            },
    {
        if self.state != State::Phase1 {
            return ShareReply::Forbidden;
        }
        self.secretShares.set(message.from, Some(message.val));
        let complete = self.have_all_shares();
        if complete {
            self.state = State::Phase2;
        }
        ShareReply::Accepted { enter_phase_two: complete }
    }

    /// `/keygen_phase2`: compares the group key that another server derived
    /// with this one's, moves to signing timestamps and, the first time,
    /// publishes this server's commitments.
    pub fn receive_group_key(&mut self, received: GroupKey) -> (res: GroupKeyReply)
        requires
            old(self).wf(),
            old(self).state == State::Phase2 ==> old(self).group_key is Some,
        ensures
            final(self).wf(),
            phase_rank(old(self).state) <= phase_rank(final(self).state),
            old(self).state != State::Phase2 ==> res == GroupKeyReply::Forbidden && *final(self) == *old(self),
            old(self).state == State::Phase2 ==> {
                &&& final(self).state == State::Timestamping
                &&& res == (GroupKeyReply::Accepted { matches: same_group_key(received, old(self).group_key->Some_0) })
                &&& (received == old(self).group_key->Some_0 ==> res == (GroupKeyReply::Accepted { matches: true }))
                &&& same_config(*final(self), *old(self))
                &&& same_peers(*final(self), *old(self))
                &&& same_deliveries(*final(self), *old(self))
                &&& same_keys(*final(self), *old(self))
                &&& final(self).commitment_index == old(self).commitment_index
                &&& (old(self).public_commitment_shares is Some ==> {
                    &&& final(self).public_commitment_shares == old(self).public_commitment_shares
                    &&& final(self).secret_commitment_shares == old(self).secret_commitment_shares
                })
                &&& (old(self).public_commitment_shares is None ==> {
                    &&& final(self).public_commitment_shares matches Some(published)
                    &&& published.participant_index == old(self).this_server_index as u32
                    &&& published.commitments@.len() == commitments_to_generate
                    &&& final(self).secret_commitment_shares matches Some(secret)
                    &&& unused_commitments(secret) == commitments_to_generate
                    &&& forall|k: int| 0 <= k < commitments_to_generate
                        ==> #[trigger] published.commitments@[k] == commitment_pair(secret_commitments(secret)[k])
                })
            },
    {
        if self.state != State::Phase2 {
            return GroupKeyReply::Forbidden;
        }
        let own = self.group_key.unwrap();
        let matches = group_keys_equal(&received, &own);
        self.state = State::Timestamping;
        if self.public_commitment_shares.is_none() {
            let (public, secret) = commitment_share_lists(self.this_server_index as u32, commitments_to_generate);
            self.public_commitment_shares = Some(public);
            self.secret_commitment_shares = Some(secret);
        }
        GroupKeyReply::Accepted { matches }
    }

    /// `/partial_signature`: this server's part of the signature of the
    /// requested hash, with its secret commitment number `commitment_index`.
    /// On success that commitment is removed from the secret list (the last
    /// one equal to it), so its nonces cannot sign again; the commitments
    /// after it move down by one.  A number past the secret commitments is
    /// refused, as are signers inconsistent with the key; then nothing changes.
    pub fn partial_signature(&mut self, request: &PartialSignatureRequest) -> (res: Result<PartialThresholdSignature, &'static str>)
        requires
            old(self).secret_key is Some,
            old(self).group_key is Some,
            old(self).secret_commitment_shares is Some,
            request.message_hash@.len() == 64,
            request.commitment_index < usize::MAX,
        ensures
            final(self).secret_commitment_shares is Some,
            request.commitment_index >= unused_commitments(old(self).secret_commitment_shares->Some_0) ==> res is Err,
            res is Err ==> final(self).secret_commitment_shares == old(self).secret_commitment_shares,
            request.commitment_index < unused_commitments(old(self).secret_commitment_shares->Some_0) ==> {
                let list = secret_commitments(old(self).secret_commitment_shares->Some_0);
                let used = list[request.commitment_index as int];
                match partial_signature_of(old(self).secret_key->Some_0, request.message_hash@, old(self).group_key->Some_0, used, request.signers@) {
                    None => res is Err,
                    Some(signature) => {
                        &&& res == Ok::<PartialThresholdSignature, &'static str>(signature)
                        &&& same_commitment(used, used)
                        &&& exists|j: int| {
                            &&& 0 <= j < list.len()
                            &&& #[trigger] same_commitment(list[j], used)
                            &&& forall|i: int| j < i < list.len() ==> !same_commitment(#[trigger] list[i], used)
                            &&& secret_commitments(final(self).secret_commitment_shares->Some_0) == list.remove(j)
                        }
                    },
                }
            },
            res is Ok ==> unused_commitments(final(self).secret_commitment_shares->Some_0) + 1
                == unused_commitments(old(self).secret_commitment_shares->Some_0),
            same_config(*final(self), *old(self)),
            same_peers(*final(self), *old(self)),
            same_deliveries(*final(self), *old(self)),
            same_keys(*final(self), *old(self)),
            final(self).state == old(self).state,
            final(self).public_commitment_shares == old(self).public_commitment_shares,
            final(self).commitment_index == old(self).commitment_index,
    {
        let hash = to_array(&request.message_hash);
        let group_key = self.group_key.unwrap();
        let mut shares = self.secret_commitment_shares.take().unwrap();
        let res = sign_partially(
            self.secret_key.as_ref().unwrap(),
            &hash,
            &group_key,
            &mut shares,
            request.commitment_index,
            &request.signers,
        );
        self.secret_commitment_shares = Some(shares);
        res
    }

    /// `/pubkey`: this server's public verification key, that of its secret
    /// key.
    pub fn individual_public_key(&self) -> (res: IndividualPublicKey)
        requires
            self.secret_key is Some,
        ensures
            res == public_key_of(self.secret_key->Some_0),
    {
        secret_key_to_public(self.secret_key.as_ref().unwrap())
    }

    /// `/commitment/{i}`: the commitment pair number `commitment_index` that
    /// this server published, or `None` for a number past them (answered with
    /// an error).
    pub fn commitment_at(&self, commitment_index: usize) -> (res: Option<(RistrettoPoint, RistrettoPoint)>)
        requires
            self.public_commitment_shares is Some,
        ensures
            commitment_index < self.public_commitment_shares->Some_0.commitments@.len()
                ==> res == Some(self.public_commitment_shares->Some_0.commitments@[commitment_index as int]),
            commitment_index >= self.public_commitment_shares->Some_0.commitments@.len() ==> res is None,
    {
        let published = self.public_commitment_shares.as_ref().unwrap();
        if commitment_index < published.commitments.len() {
            Some(published.commitments[commitment_index])
        } else {
            None
        }
    }
}

} // verus!
