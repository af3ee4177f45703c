//! The distributed key generation: its two rounds, and the bookkeeping of
//! what this server has sent to which of the others.
use vstd::prelude::*;
use curve25519_dalek::ristretto::RistrettoPoint;
use frost_dalek::keygen::SecretShare;
use frost_dalek::Participant;
use crate::crypto::{
    clone_round_one, clone_round_two, dkg_finish, dkg_round_one, dkg_round_two, participant_index,
    clone_secret_share, failing_participants, keys_of, participant_key, participant_public_key, round_one_accepts,
    round_one_of, round_one_recipients, round_one_secret_shares, round_one_shares_held, round_two_of, share_for,
    RoundOneState, RoundTwoState,
};
use crate::state::{
    all_present, all_present_except, present_values, present_values_except, same_config, same_deliveries, same_keys, same_peers,
    same_signing, ServerState,
};
use crate::types::{phase_rank, Event, SecretShareMessage, State};

verus! {

/// How many times a message is tried before its delivery is given up.
pub const DELIVERY_ATTEMPTS: u32 = 5;

/// Why a key generation step did not complete.
#[derive(Debug)]
pub enum KeygenError {
    /// The first round refused the other participants; it names the ones
    /// whose proofs failed (none when some were missing).
    Misbehaving(Vec<u32>),
    /// The first round's state holds no shares for the others.
    NoRoundOneShares,
    /// The second round refused the secret shares that arrived.
    SharesRejected,
    /// This server's own participant has no public key.
    NoPublicKey,
    /// The group key or the secret key could not be derived.
    FinishFailed,
}

/// How one attempt to deliver a message to a peer went.
#[derive(Clone, Copy, Debug, PartialEq, Eq, Structural)]
pub enum Delivery {
    /// The peer answered `200 OK`.
    Delivered,
    /// The peer answered with another status.
    Refused,
    /// The peer could not be reached.
    Unreachable,
}

/// What to do after an attempt to deliver a message.
#[derive(Clone, Copy, Debug, PartialEq, Eq, Structural)]
pub struct NextAttempt {
    /// Wait a moment first.
    pub pause: bool,
    /// Try again.
    pub retry: bool,
}

/// What follows attempt number `attempt` that went as `outcome`: a refused
/// message waits, and any failure is retried until the attempts run out.
pub open spec fn next_attempt(attempt: u32, outcome: Delivery) -> NextAttempt {
    match outcome {
        Delivery::Delivered => NextAttempt { pause: false, retry: false },
        Delivery::Refused => NextAttempt { pause: true, retry: attempt < DELIVERY_ATTEMPTS },
        Delivery::Unreachable => NextAttempt { pause: false, retry: attempt < DELIVERY_ATTEMPTS },
    }
}

/// A peer's confirmation after attempt number `attempt` to send it its
/// secret share went as `outcome`: it falls back to `Init` when the peer was
/// unreachable, or when the last attempt was refused.
pub open spec fn share_confirmation(before: Option<Event>, attempt: u32, outcome: Delivery) -> Option<Event> {
    match outcome {
        Delivery::Delivered => before,
        Delivery::Refused => if attempt == DELIVERY_ATTEMPTS { Some(Event::Init) } else { before },
        Delivery::Unreachable => Some(Event::Init),
    }
}

/// A peer's confirmation after an attempt to send it the group key went as
/// `outcome`: it falls back to `KeygenPhase1` when the peer was unreachable.
pub open spec fn group_key_confirmation(before: Option<Event>, outcome: Delivery) -> Option<Event> {
    match outcome {
        Delivery::Unreachable => Some(Event::KeygenPhase1),
        _ => before,
    }
}

/// Whether server `server_index` is still to be sent this server's
/// participant: it is another server that has been sent nothing.
pub open spec fn pubkey_delivery_needed(confirmations: Seq<Option<Event>>, server_index: int, this_server_index: int) -> bool {
    server_index != this_server_index && confirmations[server_index] is None
}

/// Whether server `server_index` is still to be sent its secret share.
pub open spec fn share_delivery_needed(confirmations: Seq<Option<Event>>, server_index: int) -> bool {
    confirmations[server_index] != Some(Event::KeygenPhase1)
}

/// Whether server `server_index` is still to be sent the group key.
pub open spec fn group_key_delivery_needed(confirmations: Seq<Option<Event>>, server_index: int, this_server_index: int) -> bool {
    server_index != this_server_index && confirmations[server_index] != Some(Event::KeygenPhase2)
}

/// Only the confirmations may differ between `a` and `b`.
pub open spec fn same_but_confirmations(a: ServerState, b: ServerState) -> bool {
    &&& same_config(a, b)
    &&& same_peers(a, b)
    &&& same_keys(a, b)
    &&& same_signing(a, b)
    &&& a.state == b.state
    &&& a.pubkey_sent == b.pubkey_sent
    &&& a.round_1_sent == b.round_1_sent
}

/// There are as many values as slots besides `skip` when those slots are all
/// filled, and fewer when one of them is empty.
pub proof fn lemma_present_values_count<T>(slots: Seq<Option<T>>, skip: int)
    ensures
        present_values_except(slots, skip).len() <= slots.len() - (if 0 <= skip < slots.len() { 1int } else { 0int }),
        all_present_except(slots, skip)
            ==> present_values_except(slots, skip).len() == slots.len() - (if 0 <= skip < slots.len() { 1int } else { 0int }),
        !all_present_except(slots, skip)
            ==> present_values_except(slots, skip).len() < slots.len() - (if 0 <= skip < slots.len() { 1int } else { 0int }),
    decreases slots.len(),
{
    if slots.len() > 0 {
        let before = slots.drop_last();
        lemma_present_values_count(before, skip);
        if all_present_except(slots, skip) {
            assert(all_present_except(before, skip)) by {
                assert forall|i: int| 0 <= i < before.len() && i != skip implies (#[trigger] before[i]) is Some by {
                    assert(before[i] == slots[i]);
                }
            }
        }
        if !all_present_except(slots, skip) {
            let i: int = choose|i: int| 0 <= i < slots.len() && i != skip && !(slots[i] is Some);
            if i < slots.len() - 1 {
                assert(before[i] == slots[i]);
                assert(!all_present_except(before, skip));
            }
        }
    }
}

/// The participants of the other servers that `state` knows, in index order.
pub open spec fn known_others(state: ServerState) -> Seq<Participant> {
    present_values_except(state.participants@, state.this_server_index as int)
}

/// The culprits that the first round names when it refuses what `state`
/// knows: none when some participant is missing, else those that fail.
pub open spec fn round_one_culprits(state: ServerState) -> Seq<u32> {
    if known_others(state).len() + 1 != state.parameters.n {
        Seq::empty()
    } else {
        failing_participants(known_others(state))
    }
}

/// The first-round state that this server computes from what `state` knows.
pub open spec fn round_one_result(state: ServerState) -> RoundOneState {
    round_one_of(state.parameters, state.this_server_index as u32, state.coefficients, known_others(state))
}

/// The second round on the secret shares that `state` received.
pub open spec fn round_two_result(state: ServerState) -> Option<RoundTwoState> {
    round_two_of(state.round_one_struct->Some_0, present_values(state.secretShares@))
}

/// This server's own commitment: its participant's public key.
pub open spec fn own_commitment(state: ServerState) -> Option<RistrettoPoint> {
    participant_key(state.participants@[state.this_server_index as int]->Some_0)
}

/// Runs the first key generation round over the participants that `state`
/// knows, keeps its result and enters `Phase1`.  The round must accept them
/// (there are `n - 1` and every proof checks): on other participants the
/// round is refused, see [`try_compute_distributed_struct`].
pub fn compute_distributed_struct(state: &mut ServerState)
    requires
        old(state).wf(),
        round_one_accepts(old(state).parameters, known_others(*old(state))),
    ensures
        final(state).wf(),
        final(state).round_one_struct == Some(round_one_result(*old(state))),
        round_one_recipients(round_one_result(*old(state))).len() + 1 == final(state).parameters.n,
        final(state).state == State::Phase1,
        same_config(*final(state), *old(state)),
        same_peers(*final(state), *old(state)),
        same_deliveries(*final(state), *old(state)),
        same_signing(*final(state), *old(state)),
        final(state).server_state == old(state).server_state,
        final(state).group_key == old(state).group_key,
        final(state).secret_key == old(state).secret_key,
{
    match state.build_round_one() {
        Ok(round) => {
            state.round_one_struct = Some(round);
            state.state = State::Phase1;
        },
        Err(_) => {},
    }
}

/// Runs the first key generation round over the participants that `state`
/// knows when it accepts them, as [`compute_distributed_struct`] does; when
/// it refuses them the culprits are returned and the state is left as it was.
pub fn try_compute_distributed_struct(state: &mut ServerState) -> (res: Result<(), Vec<u32>>)
    requires
        old(state).wf(),
    ensures
        final(state).wf(),
        res is Ok <==> round_one_accepts(old(state).parameters, known_others(*old(state))),
        res matches Err(culprits) ==> culprits@ == round_one_culprits(*old(state)),
        res is Ok ==> {
            &&& final(state).round_one_struct == Some(round_one_result(*old(state)))
            &&& final(state).round_one_struct matches Some(round)
            &&& round_one_recipients(round).len() + 1 == final(state).parameters.n
            &&& final(state).state == State::Phase1
            &&& same_config(*final(state), *old(state))
            &&& same_peers(*final(state), *old(state))
            &&& same_deliveries(*final(state), *old(state))
            &&& same_signing(*final(state), *old(state))
            &&& final(state).server_state == old(state).server_state
            &&& final(state).group_key == old(state).group_key
            &&& final(state).secret_key == old(state).secret_key
        },
        res is Err ==> *final(state) == *old(state),
        phase_rank(old(state).state) <= phase_rank(State::Phase1) ==> phase_rank(old(state).state) <= phase_rank(final(state).state),
        !all_present_except(old(state).participants@, old(state).this_server_index as int)
            ==> (res matches Err(culprits) && culprits@.len() == 0),
{
    match state.build_round_one() {
        Err(culprits) => {
            return Err(culprits);
        },
        Ok(_) => {},
    }
    compute_distributed_struct(state);
    Ok(())
}

/// Runs the second key generation round on the secret shares that `state`
/// received and derives the group key and this server's secret key.  The
/// second round's state is kept as soon as the round succeeds, even when the
/// keys cannot be derived from it.
pub fn to_phase_2(state: &mut ServerState) -> (res: Result<(), KeygenError>)
    requires
        old(state).wf(),
        old(state).round_one_struct is Some,
    ensures
        final(state).wf(),
        same_config(*final(state), *old(state)),
        same_peers(*final(state), *old(state)),
        same_deliveries(*final(state), *old(state)),
        same_signing(*final(state), *old(state)),
        final(state).state == old(state).state,
        final(state).round_one_struct == old(state).round_one_struct,
        match round_two_result(*old(state)) {
            None => res matches Err(KeygenError::SharesRejected),
            Some(round_two) => {
                &&& final(state).server_state == Some(round_two)
                &&& match own_commitment(*old(state)) {
                    None => res matches Err(KeygenError::NoPublicKey),
                    Some(commitment) => match keys_of(round_two, commitment) {
                        None => res matches Err(KeygenError::FinishFailed),
                        Some((group_key, secret_key)) => {
                            &&& res is Ok
                            &&& final(state).group_key == Some(group_key)
                            &&& final(state).secret_key == Some(secret_key)
                        },
                    },
                }
            },
        },
        match res {
            Ok(()) => {
                &&& final(state).server_state is Some
                &&& final(state).group_key is Some
                &&& final(state).secret_key is Some
            },
            Err(KeygenError::SharesRejected) => *final(state) == *old(state),
            Err(KeygenError::NoPublicKey) | Err(KeygenError::FinishFailed) => {
                &&& final(state).server_state is Some
                &&& final(state).group_key == old(state).group_key
                &&& final(state).secret_key == old(state).secret_key
            },
            Err(_) => false,
        },
{
    let round_one = clone_round_one(state.round_one_struct.as_ref().unwrap());
    let secret_shares = state.get_secret_shares();
    let round_two = match dkg_round_two(round_one, secret_shares) {
        Ok(round_two) => round_two,
        Err(()) => {
            return Err(KeygenError::SharesRejected);
        },
    };
    state.server_state = Some(clone_round_two(&round_two));
    let this_participant = state.get_this_participant();
    let my_commitment = match participant_public_key(&this_participant) {
        Some(key) => key,
        None => {
            return Err(KeygenError::NoPublicKey);
        },
    };
    match dkg_finish(round_two, &my_commitment) {
        Ok((group_key, secret_key)) => {
            state.group_key = Some(group_key);
            state.secret_key = Some(secret_key);
            Ok(())
        },
        Err(()) => Err(KeygenError::FinishFailed),
    }
}

/// Skipping an empty slot leaves the same values.
pub proof fn lemma_skip_empty_slot<T>(slots: Seq<Option<T>>, skip: int)
    requires
        0 <= skip < slots.len() ==> slots[skip] is None,
    ensures
        present_values_except(slots, skip) == present_values(slots),
    decreases slots.len(),
{
    if slots.len() > 0 {
        let before = slots.drop_last();
        lemma_skip_empty_slot(before, skip);
    }
}

/// Once the participant of every server is known, the first round is handed
/// exactly the `n - 1` others.
pub proof fn lemma_all_pubkeys_give_all_others<T>(participants: Seq<Option<T>>, this_server_index: int)
    requires
        0 <= this_server_index < participants.len(),
        all_present(participants),
    ensures
        present_values_except(participants, this_server_index).len() == participants.len() - 1,
{
    lemma_present_values_count(participants, this_server_index);
}

/// Once the share of every other server is here, and none claims to come
/// from this server, the second round is handed exactly `n - 1` shares; a
/// share stored under this server's own index makes them `n`.
pub proof fn lemma_all_shares_give_round_two<T>(shares: Seq<Option<T>>, this_server_index: int)
    requires
        0 <= this_server_index < shares.len(),
        all_present_except(shares, this_server_index),
    ensures
        shares[this_server_index] is None ==> present_values(shares).len() == shares.len() - 1,
        shares[this_server_index] is Some ==> present_values(shares).len() == shares.len(),
{
    lemma_present_values_count(shares, this_server_index);
    if shares[this_server_index] is None {
        lemma_skip_empty_slot(shares, this_server_index);
    } else {
        assert(all_present_except(shares, -1));
        lemma_present_values_count(shares, -1);
    }
}

/// A server that has been handed this server's participant is not handed it
/// again, and one whose delivery failed is handed it again.
pub proof fn lemma_pubkey_delivery_once(confirmations: Seq<Option<Event>>, server_index: int, this_server_index: int)
    requires
        0 <= server_index < confirmations.len(),
    ensures
        !pubkey_delivery_needed(confirmations.update(server_index, Some(Event::Init)), server_index, this_server_index),
        server_index != this_server_index
            ==> pubkey_delivery_needed(confirmations.update(server_index, None), server_index, this_server_index),
{
}

/// The confirmation of a secret share after a run of attempts, numbered from
/// `first`, that went as `outcomes`.
pub open spec fn share_confirmation_after(before: Option<Event>, first: u32, outcomes: Seq<Delivery>) -> Option<Event>
    decreases outcomes.len(),
{
    if outcomes.len() == 0 {
        before
    } else {
        share_confirmation_after(share_confirmation(before, first, outcomes[0]), (first + 1) as u32, outcomes.drop_first())
    }
}

/// A share that the peer refuses on some attempts before the last and then
/// accepts stays delivered: refusals below the limit and a delivery leave the
/// confirmation as it was, so a server marked `KeygenPhase1` is not sent its
/// share again.  A refusal on the last attempt, or an unreachable peer,
/// marks it `Init`, to be sent again.
pub proof fn lemma_refusals_then_delivery(before: Option<Event>, first: u32, refusals: nat)
    requires
        1 <= first,
        first + refusals < DELIVERY_ATTEMPTS,
    ensures
        share_confirmation_after(before, first, Seq::new(refusals, |i: int| Delivery::Refused).push(Delivery::Delivered)) == before,
        forall|attempt: u32| 1 <= attempt < DELIVERY_ATTEMPTS ==> #[trigger] share_confirmation(before, attempt, Delivery::Refused) == before,
        forall|attempt: u32| #[trigger] share_confirmation(before, attempt, Delivery::Delivered) == before,
        share_confirmation(before, DELIVERY_ATTEMPTS, Delivery::Refused) == Some(Event::Init),
        forall|attempt: u32| #[trigger] share_confirmation(before, attempt, Delivery::Unreachable) == Some(Event::Init),
        before == Some(Event::KeygenPhase1) ==> !share_delivery_needed(
            seq![share_confirmation_after(before, first, Seq::new(refusals, |i: int| Delivery::Refused).push(Delivery::Delivered))],
            0,
        ),
    decreases refusals,
{
    let run = Seq::new(refusals, |i: int| Delivery::Refused).push(Delivery::Delivered);
    if refusals == 0 {
        assert(run.drop_first() =~= Seq::<Delivery>::empty());
        assert(run[0] == Delivery::Delivered);
        assert(share_confirmation(before, first, Delivery::Delivered) == before);
        assert(share_confirmation_after(before, first, run)
            == share_confirmation_after(before, (first + 1) as u32, Seq::<Delivery>::empty()));
    } else {
        let rest = Seq::new((refusals - 1) as nat, |i: int| Delivery::Refused).push(Delivery::Delivered);
        assert(run.drop_first() =~= rest);
        assert(run[0] == Delivery::Refused);
        assert(share_confirmation(before, first, Delivery::Refused) == before);
        lemma_refusals_then_delivery(before, (first + 1) as u32, (refusals - 1) as nat);
        assert(share_confirmation_after(before, first, run)
            == share_confirmation_after(before, (first + 1) as u32, rest));
    }
}

/// A server that has been handed its secret share is not handed it again, and
/// one that was unreachable, or refused it on the last attempt, is handed it
/// again.
pub proof fn lemma_share_delivery_once(confirmations: Seq<Option<Event>>, server_index: int, attempt: u32, outcome: Delivery)
    requires
        0 <= server_index < confirmations.len(),
    ensures
        !share_delivery_needed(confirmations.update(server_index, Some(Event::KeygenPhase1)), server_index),
        (outcome == Delivery::Unreachable || (outcome == Delivery::Refused && attempt == DELIVERY_ATTEMPTS))
            ==> share_delivery_needed(
                confirmations.update(server_index, share_confirmation(Some(Event::KeygenPhase1), attempt, outcome)),
                server_index,
            ),
        outcome == Delivery::Delivered ==> !share_delivery_needed(
            confirmations.update(server_index, share_confirmation(Some(Event::KeygenPhase1), attempt, outcome)),
            server_index,
        ),
{
}

/// A server that has been handed the group key is not handed it again, and
/// one that was unreachable is handed it again.
pub proof fn lemma_group_key_delivery_once(confirmations: Seq<Option<Event>>, server_index: int, this_server_index: int, outcome: Delivery)
    requires
        0 <= server_index < confirmations.len(),
    ensures
        !group_key_delivery_needed(confirmations.update(server_index, Some(Event::KeygenPhase2)), server_index, this_server_index),
        server_index != this_server_index ==> (group_key_delivery_needed(
            confirmations.update(server_index, group_key_confirmation(Some(Event::KeygenPhase2), outcome)),
            server_index,
            this_server_index,
        ) <==> outcome == Delivery::Unreachable),
{
}

/// Once every other server has been sent the group key, a further pass of
/// deliveries sends it to no one: no server needs it, so each delivery
/// decision answers "do not send" and leaves the state as it was.
pub proof fn lemma_group_key_delivery_complete(confirmations: Seq<Option<Event>>, this_server_index: int)
    requires
        forall|j: int| 0 <= j < confirmations.len() && j != this_server_index
            ==> confirmations[j] == Some(Event::KeygenPhase2),
    ensures
        forall|j: int| 0 <= j < confirmations.len()
            ==> !#[trigger] group_key_delivery_needed(confirmations, j, this_server_index),
{
    assert forall|j: int| 0 <= j < confirmations.len()
        implies !#[trigger] group_key_delivery_needed(confirmations, j, this_server_index) by {
        if j != this_server_index {
            assert(confirmations[j] == Some(Event::KeygenPhase2));
        }
    }
}

/// A message is tried at most `DELIVERY_ATTEMPTS` times, and never again
/// once it is delivered.
pub proof fn lemma_attempts_bounded(attempt: u32, outcome: Delivery)
    ensures
        attempt >= DELIVERY_ATTEMPTS ==> !next_attempt(attempt, outcome).retry,
        outcome == Delivery::Delivered ==> !next_attempt(attempt, outcome).retry,
        attempt < DELIVERY_ATTEMPTS && outcome != Delivery::Delivered ==> next_attempt(attempt, outcome).retry,
{
}

impl ServerState {
    /// The first key generation round over the participants known now: it
    /// checks their proofs and computes their secret shares.
    pub fn build_round_one(&self) -> (res: Result<RoundOneState, Vec<u32>>)
        requires
            self.wf(),
        ensures
            !all_present_except(self.participants@, self.this_server_index as int)
                ==> (res matches Err(culprits) && culprits@.len() == 0),
            res is Ok <==> round_one_accepts(self.parameters, known_others(*self)),
            res matches Err(culprits) ==> culprits@ == round_one_culprits(*self),
            res matches Ok(round) ==> {
                &&& round == round_one_result(*self)
                &&& round_one_recipients(round).len() + 1 == self.parameters.n
                &&& round_one_shares_held(round).len() == round_one_recipients(round).len()
                &&& forall|k: int| 0 <= k < round_one_shares_held(round).len()
                    ==> #[trigger] round_one_shares_held(round)[k] == share_for(self.coefficients, round_one_recipients(round)[k])
            },
    {
        let this_participant = self.get_this_participant();
        let my_index: u32 = participant_index(&this_participant);
        let mut others = self.get_other_participants();
        proof {
            lemma_present_values_count(self.participants@, self.this_server_index as int);
        }
        dkg_round_one(&self.parameters, my_index, &self.coefficients, &mut others)
    }

    /// The secret shares that the first round computes for the others, as
    /// `/keygen` computes them.
    pub fn round_one_shares(&self) -> (res: Result<Vec<SecretShare>, KeygenError>)
        requires
            self.wf(),
        ensures
            !all_present_except(self.participants@, self.this_server_index as int)
                ==> (res matches Err(KeygenError::Misbehaving(culprits)) && culprits@.len() == 0),
            res is Ok <==> round_one_accepts(self.parameters, known_others(*self)),
            res matches Err(e) ==> (e matches KeygenError::Misbehaving(culprits) && culprits@ == round_one_culprits(*self)),
            res matches Ok(shares) ==> {
                &&& shares@ == round_one_shares_held(round_one_result(*self))
                &&& shares@.len() + 1 == self.parameters.n
                &&& forall|k: int| 0 <= k < shares@.len() ==> #[trigger] shares@[k]
                    == share_for(self.coefficients, round_one_recipients(round_one_result(*self))[k])
            },
    {
        match self.build_round_one() {
            Err(culprits) => Err(KeygenError::Misbehaving(culprits)),
            Ok(round) => match round_one_secret_shares(&round) {
                Some(indexed) => {
                    let mut shares: Vec<SecretShare> = Vec::new();
                    let mut i: usize = 0;
                    while i < indexed.len()
                        invariant
                            i <= indexed@.len(),
                            indexed@.len() == round_one_shares_held(round).len(),
                            forall|k: int| 0 <= k < indexed@.len() ==> (#[trigger] indexed@[k]).1 == round_one_shares_held(round)[k],
                            shares@ == round_one_shares_held(round).subrange(0, i as int),
                        decreases indexed@.len() - i,
                    {
                        shares.push(clone_secret_share(&indexed[i].1));
                        i = i + 1;
                    }
                    assert(shares@ =~= round_one_shares_held(round));
                    Ok(shares)
                },
                None => Err(KeygenError::NoRoundOneShares),
            },
        }
    }

    /// The secret shares of the first round, each with the index of the
    /// server it is for, as messages from this server: one delivery per share
    /// that the first round holds, in its order.
    pub fn phase1_deliveries(&self) -> (res: Result<Vec<(usize, SecretShareMessage)>, KeygenError>)
        requires
            self.round_one_struct is Some,
        ensures
            res matches Ok(deliveries) && {
                let recipients = round_one_recipients(self.round_one_struct->Some_0);
                &&& deliveries@.len() == recipients.len()
                &&& forall|k: int| 0 <= k < deliveries@.len() ==> {
                    &&& (#[trigger] deliveries@[k]).0 == recipients[k] as usize
                    &&& deliveries@[k].1.from == self.this_server_index
                    &&& deliveries@[k].1.val == round_one_shares_held(self.round_one_struct->Some_0)[k]
                    &&& self.wf() ==> deliveries@[k].1.val == share_for(self.coefficients, recipients[k])
                }
            },
    {
        let round = self.round_one_struct.as_ref().unwrap();
        let shares = match round_one_secret_shares(round) {
            Some(shares) => shares,
            None => {
                return Err(KeygenError::NoRoundOneShares);
            },
        };
        let ghost recipients = round_one_recipients(*round);
        let ghost held = round_one_shares_held(*round);
        let mut deliveries: Vec<(usize, SecretShareMessage)> = Vec::new();
        let mut i: usize = 0;
        while i < shares.len()
            invariant
                i <= shares@.len(),
                shares@.len() == recipients.len(),
                forall|k: int| 0 <= k < shares@.len() ==> (#[trigger] shares@[k]).0 == recipients[k],
                forall|k: int| 0 <= k < shares@.len() ==> (#[trigger] shares@[k]).1 == held[k],
                shares@.len() == held.len(),
                deliveries@.len() == i,
                forall|k: int| 0 <= k < i ==> {
                    &&& (#[trigger] deliveries@[k]).0 == recipients[k] as usize
                    &&& deliveries@[k].1.from == self.this_server_index
                    &&& deliveries@[k].1.val == held[k]
                },
            decreases shares@.len() - i,
        {
            let to: usize = shares[i].0 as usize;
            let val = clone_secret_share(&shares[i].1);
            deliveries.push((to, SecretShareMessage { from: self.this_server_index, val }));
            i = i + 1;
        }
        Ok(deliveries)
    }

    /// Whether to send this server's participant to server `server_index`:
    /// not to itself, nor to a server that has been sent something already.
    /// A server that is to be sent it is marked `Init` first.
    pub fn begin_pubkey_delivery(&mut self, server_index: usize) -> (send: bool)
        requires
            old(self).wf(),
            server_index < old(self).parameters.n,
        ensures
            final(self).wf(),
            send == pubkey_delivery_needed(old(self).confirmations@, server_index as int, old(self).this_server_index as int),
            final(self).confirmations@ == (if send {
                old(self).confirmations@.update(server_index as int, Some(Event::Init))
            } else {
                old(self).confirmations@
            }),
            same_but_confirmations(*final(self), *old(self)),
    {
        if server_index == self.this_server_index || self.confirmations[server_index].is_some() {
            return false;
        }
        self.confirmations.set(server_index, Some(Event::Init));
        true
    }

    /// The participant could not be sent to server `server_index`: it is
    /// marked as sent nothing.
    pub fn pubkey_delivery_failed(&mut self, server_index: usize)
        requires
            old(self).wf(),
            server_index < old(self).parameters.n,
        ensures
            final(self).wf(),
            final(self).confirmations@ == old(self).confirmations@.update(server_index as int, None),
            same_but_confirmations(*final(self), *old(self)),
    {
        self.confirmations.set(server_index, None);
    }

    /// The participant has been offered to every server.
    pub fn finish_pubkey_delivery(&mut self)
        ensures
            final(self).pubkey_sent,
            same_config(*final(self), *old(self)),
            same_peers(*final(self), *old(self)),
            same_keys(*final(self), *old(self)),
            same_signing(*final(self), *old(self)),
            final(self).state == old(self).state,
            final(self).confirmations == old(self).confirmations,
            final(self).round_1_sent == old(self).round_1_sent,
    {
        self.pubkey_sent = true;
    }

    /// Whether to send server `server_index` its secret share: not when it
    /// has been sent it already.  A server that is to be sent it is marked
    /// `KeygenPhase1` first.
    pub fn begin_share_delivery(&mut self, server_index: usize) -> (send: bool)
        requires
            old(self).wf(),
            server_index < old(self).parameters.n,
        ensures
            final(self).wf(),
            send == share_delivery_needed(old(self).confirmations@, server_index as int),
            final(self).confirmations@ == old(self).confirmations@.update(server_index as int, Some(Event::KeygenPhase1)),
            same_but_confirmations(*final(self), *old(self)),
    {
        let send = match self.confirmations[server_index] {
            Some(Event::KeygenPhase1) => false,
            _ => true,
        };
        if send {
            self.confirmations.set(server_index, Some(Event::KeygenPhase1));
        }
        proof {
            assert(old(self).confirmations@.update(server_index as int, Some(Event::KeygenPhase1))
                =~= self.confirmations@);
        }
        send
    }

    /// Attempt number `attempt` to send server `server_index` its secret share
    /// went as `outcome`: updates its confirmation and says what to do next.
    pub fn after_share_attempt(&mut self, server_index: usize, attempt: u32, outcome: Delivery) -> (next: NextAttempt)
        requires
            old(self).wf(),
            server_index < old(self).parameters.n,
            1 <= attempt <= DELIVERY_ATTEMPTS,
        ensures
            final(self).wf(),
            next == next_attempt(attempt, outcome),
            next.retry == (outcome != Delivery::Delivered && attempt < DELIVERY_ATTEMPTS),
            next.pause == (outcome == Delivery::Refused),
            final(self).confirmations@ == old(self).confirmations@.update(
                server_index as int,
                share_confirmation(old(self).confirmations@[server_index as int], attempt, outcome),
            ),
            outcome == Delivery::Delivered ==> final(self).confirmations@ == old(self).confirmations@,
            outcome == Delivery::Refused && attempt < DELIVERY_ATTEMPTS ==> final(self).confirmations@ == old(self).confirmations@,
            outcome == Delivery::Unreachable || (outcome == Delivery::Refused && attempt == DELIVERY_ATTEMPTS)
                ==> final(self).confirmations@ == old(self).confirmations@.update(server_index as int, Some(Event::Init)),
            same_but_confirmations(*final(self), *old(self)),
    {
        let next = match outcome {
            Delivery::Delivered => NextAttempt { pause: false, retry: false },
            Delivery::Refused => NextAttempt { pause: true, retry: attempt < DELIVERY_ATTEMPTS },
            Delivery::Unreachable => {
                self.confirmations.set(server_index, Some(Event::Init));
                NextAttempt { pause: false, retry: attempt < DELIVERY_ATTEMPTS }
            },
        };
        if attempt == DELIVERY_ATTEMPTS && outcome != Delivery::Delivered {
            self.confirmations.set(server_index, Some(Event::Init));
        }
        proof {
            assert(old(self).confirmations@.update(
                server_index as int,
                share_confirmation(old(self).confirmations@[server_index as int], attempt, outcome),
            ) =~= self.confirmations@);
        }
        next
    }

    /// The secret shares have been offered to every server.
    pub fn finish_share_delivery(&mut self)
        ensures
            final(self).round_1_sent,
            same_config(*final(self), *old(self)),
            same_peers(*final(self), *old(self)),
            same_keys(*final(self), *old(self)),
            same_signing(*final(self), *old(self)),
            final(self).state == old(self).state,
            final(self).confirmations == old(self).confirmations,
            final(self).pubkey_sent == old(self).pubkey_sent,
    {
        self.round_1_sent = true;
    }

    /// Whether to send server `server_index` the group key: not to itself,
    /// nor when it has been sent it already.  A server that is to be sent it
    /// is marked `KeygenPhase2` first.
    pub fn begin_group_key_delivery(&mut self, server_index: usize) -> (send: bool)
        requires
            old(self).wf(),
            server_index < old(self).parameters.n,
        ensures
            final(self).wf(),
            send == group_key_delivery_needed(old(self).confirmations@, server_index as int, old(self).this_server_index as int),
            final(self).confirmations@ == (if send {
                old(self).confirmations@.update(server_index as int, Some(Event::KeygenPhase2))
            } else {
                old(self).confirmations@
            }),
            same_but_confirmations(*final(self), *old(self)),
    {
        if server_index == self.this_server_index {
            return false;
        }
        match self.confirmations[server_index] {
            Some(Event::KeygenPhase2) => {
                return false;
            },
            _ => {},
        }
        self.confirmations.set(server_index, Some(Event::KeygenPhase2));
        true
    }

    /// Attempt number `attempt` to send server `server_index` the group key
    /// went as `outcome`: updates its confirmation and says what to do next.
    pub fn after_group_key_attempt(&mut self, server_index: usize, attempt: u32, outcome: Delivery) -> (next: NextAttempt)
        requires
            old(self).wf(),
            server_index < old(self).parameters.n,
            1 <= attempt <= DELIVERY_ATTEMPTS,
        ensures
            final(self).wf(),
            next == next_attempt(attempt, outcome),
            next.retry == (outcome != Delivery::Delivered && attempt < DELIVERY_ATTEMPTS),
            next.pause == (outcome == Delivery::Refused),
            final(self).confirmations@ == old(self).confirmations@.update(
                server_index as int,
                group_key_confirmation(old(self).confirmations@[server_index as int], outcome),
            ),
            outcome != Delivery::Unreachable ==> final(self).confirmations@ == old(self).confirmations@,
            outcome == Delivery::Unreachable
                ==> final(self).confirmations@ == old(self).confirmations@.update(server_index as int, Some(Event::KeygenPhase1)),
            same_but_confirmations(*final(self), *old(self)),
    {
        let next = match outcome {
            Delivery::Delivered => NextAttempt { pause: false, retry: false },
            Delivery::Refused => NextAttempt { pause: true, retry: attempt < DELIVERY_ATTEMPTS },
            Delivery::Unreachable => {
                self.confirmations.set(server_index, Some(Event::KeygenPhase1));
                NextAttempt { pause: false, retry: attempt < DELIVERY_ATTEMPTS }
            },
        };
        proof {
            assert(old(self).confirmations@.update(
                server_index as int,
                group_key_confirmation(old(self).confirmations@[server_index as int], outcome),
            ) =~= self.confirmations@);
        }
        next
    }
}

} // verus!
