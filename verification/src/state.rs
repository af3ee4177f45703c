use vstd::prelude::*;
use frost_dalek::keygen::{Coefficients, SecretShare};
use frost_dalek::precomputation::SecretCommitmentShareList;
use frost_dalek::{GroupKey, IndividualSecretKey, Participant};
use crate::crypto::{
    clone_participant, clone_secret_share, coefficient_commitments, new_participant, participant_commitments,
    participant_index_of, participant_passes, round_one_recipients, round_one_shares_held,
    share_for, RoundOneState, RoundTwoState,
};
use crate::types::{Event, Parameters, PublicCommitments, State};

verus! {

/// Every slot of `slots` is filled.
pub open spec fn all_present<T>(slots: Seq<Option<T>>) -> bool {
    forall|i: int| 0 <= i < slots.len() ==> (#[trigger] slots[i]) is Some
}

/// Every slot of `slots` but the one at `skip` is filled.
pub open spec fn all_present_except<T>(slots: Seq<Option<T>>, skip: int) -> bool {
    forall|i: int| 0 <= i < slots.len() && i != skip ==> (#[trigger] slots[i]) is Some
}

/// The values in the filled slots of `slots`, in slot order, leaving out the
/// slot at `skip` (pass a negative `skip` to leave out none).
pub open spec fn present_values_except<T>(slots: Seq<Option<T>>, skip: int) -> Seq<T>
    decreases slots.len(),
{
    if slots.len() == 0 {
        Seq::empty()
    } else {
        let before = present_values_except(slots.drop_last(), skip);
        let last: int = slots.len() - 1;
        match slots.last() {
            Some(v) => if last != skip { before.push(v) } else { before },
            None => before,
        }
    }
}

/// The values in the filled slots of `slots`, in slot order.
pub open spec fn present_values<T>(slots: Seq<Option<T>>) -> Seq<T> {
    present_values_except(slots, -1)
}

/// The state of one server of the group: what it knows of the others, how far
/// the key generation has come, and its keys.
#[allow(non_snake_case)]
pub struct ServerState {
    /// The threshold configuration.
    pub parameters: Parameters,
    /// The addresses of the servers, by index.
    pub servers: Vec<String>,
    /// The participant of each server, once known, by index.
    pub participants: Vec<Option<Participant>>,
    /// The index of this server.
    pub this_server_index: usize,
    /// What each server has last been sent, by index.
    pub confirmations: Vec<Option<Event>>,
    /// The secret coefficients of this server's polynomial.
    pub coefficients: Coefficients,
    /// The protocol phase.
    pub state: State,
    /// Whether this server's participant has been sent to the others.
    pub pubkey_sent: bool,
    /// Whether the first round's secret shares have been sent.
    pub round_1_sent: bool,
    /// The key generation state after the first round.
    pub round_one_struct: Option<RoundOneState>,
    /// The secret share received from each server, by index.
    pub secretShares: Vec<Option<SecretShare>>,
    /// The key generation state after the second round.
    pub server_state: Option<RoundTwoState>,
    /// The group's public key, once generated.
    pub group_key: Option<GroupKey>,
    /// This server's long-lived secret key, once generated.
    pub secret_key: Option<IndividualSecretKey>,
    /// The commitments this server has published for signing.
    pub public_commitment_shares: Option<PublicCommitments>,
    /// The secret halves of the published commitments not used yet.
    pub secret_commitment_shares: Option<SecretCommitmentShareList>,
    /// The index of the next commitment to sign with.
    pub commitment_index: usize,
}

/// The number of commitments that a server publishes, one per timestamp it
/// can sign.
#[allow(non_upper_case_globals)]
pub const commitments_to_generate: usize = 100;

/// The fields that no protocol step changes: configuration and own secrets.
pub open spec fn same_config(a: ServerState, b: ServerState) -> bool {
    &&& a.parameters == b.parameters
    &&& a.servers == b.servers
    &&& a.this_server_index == b.this_server_index
    &&& a.coefficients == b.coefficients
}

/// What is known of the other servers.
pub open spec fn same_peers(a: ServerState, b: ServerState) -> bool {
    &&& a.participants == b.participants
    &&& a.secretShares == b.secretShares
}

/// What has been sent to the other servers.
pub open spec fn same_deliveries(a: ServerState, b: ServerState) -> bool {
    &&& a.confirmations == b.confirmations
    &&& a.pubkey_sent == b.pubkey_sent
    &&& a.round_1_sent == b.round_1_sent
}

/// The key generation results.
pub open spec fn same_keys(a: ServerState, b: ServerState) -> bool {
    &&& a.round_one_struct == b.round_one_struct
    &&& a.server_state == b.server_state
    &&& a.group_key == b.group_key
    &&& a.secret_key == b.secret_key
}

/// The material for signing.
pub open spec fn same_signing(a: ServerState, b: ServerState) -> bool {
    &&& a.public_commitment_shares == b.public_commitment_shares
    &&& a.secret_commitment_shares == b.secret_commitment_shares
    &&& a.commitment_index == b.commitment_index
}

impl ServerState {
    /// The shape every state keeps: one slot per server in each table, this
    /// server's own participant known, the participant in slot `i` the one
    /// with index `i`, the published and the secret commitments present
    /// together, and a first-round result holding, for each server it names,
    /// the share of this server's polynomial for that server.
    pub open spec fn wf(&self) -> bool {
        &&& self.participants@.len() == self.parameters.n
        &&& self.confirmations@.len() == self.parameters.n
        &&& self.secretShares@.len() == self.parameters.n
        &&& self.this_server_index < self.parameters.n
        &&& self.participants@[self.this_server_index as int] is Some
        &&& forall|i: int| 0 <= i < self.participants@.len() && (#[trigger] self.participants@[i]) is Some
            ==> participant_index_of(self.participants@[i]->Some_0) == i
        &&& (self.public_commitment_shares is Some <==> self.secret_commitment_shares is Some)
        &&& (self.round_one_struct matches Some(round) ==> {
            &&& round_one_shares_held(round).len() == round_one_recipients(round).len()
            &&& forall|k: int| 0 <= k < round_one_shares_held(round).len()
                ==> #[trigger] round_one_shares_held(round)[k] == share_for(self.coefficients, round_one_recipients(round)[k])
        })
    }

    /// A new server with index `this_server_index`: its own participant drawn
    /// at random, nothing known of the others, in the `Init` phase.
    pub fn new(parameters: Parameters, servers: Vec<String>, this_server_index: usize) -> (res: ServerState)
        requires
            parameters.t >= 1,
            this_server_index < parameters.n,
        ensures
            res.wf(),
            res.parameters == parameters,
            res.servers == servers,
            res.this_server_index == this_server_index,
            forall|i: int| 0 <= i < parameters.n ==> (#[trigger] res.participants@[i] is Some <==> i == this_server_index),
            participant_index_of(res.participants@[this_server_index as int]->Some_0) == this_server_index,
            participant_passes(res.participants@[this_server_index as int]->Some_0),
            participant_commitments(res.participants@[this_server_index as int]->Some_0) == coefficient_commitments(res.coefficients),
            participant_commitments(res.participants@[this_server_index as int]->Some_0).len() == parameters.t,
            forall|i: int| 0 <= i < parameters.n ==> #[trigger] res.confirmations@[i] is None,
            forall|i: int| 0 <= i < parameters.n ==> #[trigger] res.secretShares@[i] is None,
            res.state == State::Init,
            !res.pubkey_sent,
            !res.round_1_sent,
            res.round_one_struct is None,
            res.server_state is None,
            res.group_key is None,
            res.secret_key is None,
            res.public_commitment_shares is None,
            res.secret_commitment_shares is None,
            res.commitment_index == 0,
    {
        let n: usize = parameters.n as usize;
        let mut participants: Vec<Option<Participant>> = Vec::new();
        let mut confirmations: Vec<Option<Event>> = Vec::new();
        let mut shares: Vec<Option<SecretShare>> = Vec::new();
        let mut i: usize = 0;
        while i < n
            invariant
                i <= n,
                participants@.len() == i,
                confirmations@.len() == i,
                shares@.len() == i,
                forall|j: int| 0 <= j < i ==> #[trigger] participants@[j] is None,
                forall|j: int| 0 <= j < i ==> #[trigger] confirmations@[j] is None,
                forall|j: int| 0 <= j < i ==> #[trigger] shares@[j] is None,
            decreases n - i,
        {
            participants.push(None);
            confirmations.push(None);
            shares.push(None);
            i = i + 1;
        }
        let (part, coefficients) = new_participant(&parameters, this_server_index as u32);
        participants.set(this_server_index, Some(part));
        ServerState {
            parameters,
            servers,
            participants,
            this_server_index,
            confirmations,
            coefficients,
            state: State::Init,
            pubkey_sent: false,
            round_1_sent: false,
            round_one_struct: None,
            secretShares: shares,
            server_state: None,
            group_key: None,
            secret_key: None,
            public_commitment_shares: None,
            secret_commitment_shares: None,
            commitment_index: 0,
        }
    }

    /// The server with index 1 of a group of three that signs with two, with no
    /// addresses of the others.
    pub fn default() -> (res: ServerState)
        ensures
            res.wf(),
            res.parameters == (Parameters { t: 2, n: 3 }),
            res.servers@.len() == 0,
            res.this_server_index == 1,
            forall|i: int| 0 <= i < 3 ==> (#[trigger] res.participants@[i] is Some <==> i == 1),
            participant_index_of(res.participants@[1]->Some_0) == 1,
            participant_passes(res.participants@[1]->Some_0),
            participant_commitments(res.participants@[1]->Some_0) == coefficient_commitments(res.coefficients),
            participant_commitments(res.participants@[1]->Some_0).len() == 2,
            forall|i: int| 0 <= i < 3 ==> #[trigger] res.confirmations@[i] is None,
            forall|i: int| 0 <= i < 3 ==> #[trigger] res.secretShares@[i] is None,
            res.state == State::Init,
            !res.pubkey_sent,
            !res.round_1_sent,
            res.round_one_struct is None,
            res.server_state is None,
            res.group_key is None,
            res.secret_key is None,
            res.public_commitment_shares is None,
            res.secret_commitment_shares is None,
            res.commitment_index == 0,
    {
        let parameters = Parameters { t: 2, n: 3 };
        ServerState::new(parameters, Vec::new(), 1)
    }

    /// The participants of the other servers that are known, in index order.
    pub fn get_other_participants(&self) -> (res: Vec<Participant>)
        ensures
            res@ == present_values_except(self.participants@, self.this_server_index as int),
    {
        let mut res: Vec<Participant> = Vec::new();
        let mut i: usize = 0;
        while i < self.participants.len()
            invariant
                i <= self.participants@.len(),
                res@ == present_values_except(self.participants@.subrange(0, i as int), self.this_server_index as int),
            decreases self.participants@.len() - i,
        {
            proof {
                assert(self.participants@.subrange(0, i + 1).drop_last() =~= self.participants@.subrange(0, i as int));
            }
            if i != self.this_server_index {
                match &self.participants[i] {
                    Some(part) => {
                        res.push(clone_participant(part));
                    },
                    None => {},
                }
            }
            i = i + 1;
        }
        proof {
            assert(self.participants@.subrange(0, i as int) =~= self.participants@);
        }
        res
    }

    /// Whether the participant of every server, this one included, is known.
    pub fn have_all_pubkeys(&self) -> (res: bool)
        ensures
            res == all_present(self.participants@),
    {
        let mut i: usize = 0;
        while i < self.participants.len()
            invariant
                i <= self.participants@.len(),
                forall|j: int| 0 <= j < i ==> (#[trigger] self.participants@[j]) is Some,
            decreases self.participants@.len() - i,
        {
            if self.participants[i].is_none() {
                return false;
            }
            i = i + 1;
        }
        true
    }

    /// This server's own participant.
    pub fn get_this_participant(&self) -> (res: Participant)
        requires
            self.this_server_index < self.participants@.len(),
            self.participants@[self.this_server_index as int] is Some,
        ensures
            res == self.participants@[self.this_server_index as int]->Some_0,
            self.wf() ==> participant_index_of(res) == self.this_server_index,
    {
        let part = self.participants[self.this_server_index].as_ref().unwrap();
        clone_participant(part)
    }

    /// Whether the secret share of every other server has arrived (the slot
    /// of this server does not count).
    pub fn have_all_shares(&self) -> (res: bool)
        ensures
            res == all_present_except(self.secretShares@, self.this_server_index as int),
    {
        let mut i: usize = 0;
        while i < self.secretShares.len()
            invariant
                i <= self.secretShares@.len(),
                forall|j: int| 0 <= j < i && j != self.this_server_index ==> (#[trigger] self.secretShares@[j]) is Some,
            decreases self.secretShares@.len() - i,
        {
            if i != self.this_server_index && self.secretShares[i].is_none() {
                return false;
            }
            i = i + 1;
        }
        true
    }

    /// The index of the commitment to sign the next timestamp with; the
    /// following one is kept for the request after.
    pub fn get_and_increment_comiitment_index(&mut self) -> (res: usize)
        requires
            old(self).commitment_index < usize::MAX,
        ensures
            res == old(self).commitment_index,
            final(self).commitment_index == old(self).commitment_index + 1,
            same_config(*final(self), *old(self)),
            same_peers(*final(self), *old(self)),
            same_deliveries(*final(self), *old(self)),
            same_keys(*final(self), *old(self)),
            final(self).public_commitment_shares == old(self).public_commitment_shares,
            final(self).secret_commitment_shares == old(self).secret_commitment_shares,
            final(self).state == old(self).state,
    {
        let res: usize = self.commitment_index;
        self.commitment_index = self.commitment_index + 1;
        res
    }

    /// The group key, once generated.
    pub fn group_key(&self) -> (res: Option<GroupKey>)
        ensures
            res == self.group_key,
    {
        self.group_key
    }

    /// The secret shares that have arrived, in index order.
    pub fn get_secret_shares(&self) -> (res: Vec<SecretShare>)
        ensures
            res@ == present_values(self.secretShares@),
    {
        let mut res: Vec<SecretShare> = Vec::new();
        let mut i: usize = 0;
        while i < self.secretShares.len()
            invariant
                i <= self.secretShares@.len(),
                res@ == present_values(self.secretShares@.subrange(0, i as int)),
            decreases self.secretShares@.len() - i,
        {
            proof {
                assert(self.secretShares@.subrange(0, i + 1).drop_last() =~= self.secretShares@.subrange(0, i as int));
            }
            match &self.secretShares[i] {
                Some(share) => {
                    res.push(clone_secret_share(share));
                },
                None => {},
            }
            i = i + 1;
        }
        proof {
            assert(self.secretShares@.subrange(0, i as int) =~= self.secretShares@);
        }
        res
    }
}

} // verus!
