use timestamp_server::{
    check_timestamp_token, collect_signers, compute_distributed_struct, partial_signature_request, try_compute_distributed_struct, finish_signing, get_random_signers,
    signed_response, signing_context, timestamp_digest, to_phase_2, GroupKeyReply, InitReply, KeygenError,
    Parameters, PartialSignatureRequest, SecretShareMessage, ServerState, ShareReply, SignerContribution,
    SigningError, State, TokenCheck,
};

fn group() -> Vec<ServerState> {
    let params = Parameters { t: 2, n: 3 };
    let servers: Vec<String> = vec!["s0".to_string(), "s1".to_string(), "s2".to_string()];
    (0..3).map(|i| ServerState::new(params, servers.clone(), i)).collect()
}

fn exchange_participants(states: &mut Vec<ServerState>) {
    for from in 0..3 {
        let p = states[from].get_this_participant();
        for to in 0..3 {
            if to != from {
                let reply = states[to].receive_participant(p.clone());
                assert!(matches!(reply, InitReply::Accepted { .. }));
            }
        }
    }
}

fn run_round_one(states: &mut Vec<ServerState>) {
    for s in states.iter_mut() {
        compute_distributed_struct(s);
        assert!(s.state == State::Phase1);
    }
    for from in 0..3 {
        let deliveries = states[from].phase1_deliveries().ok().unwrap();
        assert_eq!(deliveries.len(), 2);
        for (to, message) in deliveries {
            assert_eq!(message.from, from);
            let reply = states[to].receive_secret_share(message);
            assert!(matches!(reply, ShareReply::Accepted { .. }));
        }
    }
}

fn full_keygen() -> Vec<ServerState> {
    let mut states = group();
    exchange_participants(&mut states);
    run_round_one(&mut states);
    for s in states.iter_mut() {
        assert!(s.state == State::Phase2);
        assert!(to_phase_2(s).is_ok());
    }
    let key0 = states[0].group_key().unwrap();
    for s in states.iter_mut() {
        assert_eq!(s.group_key().unwrap().to_bytes(), key0.to_bytes());
        assert_eq!(s.receive_group_key(key0), GroupKeyReply::Accepted { matches: true });
        assert!(s.state == State::Timestamping);
    }
    states
}

#[test]
fn participants_move_the_group_to_phase_one() {
    let mut states = group();
    let p0 = states[0].get_this_participant();
    let p2 = states[2].get_this_participant();
    let reply = states[1].receive_participant(p0);
    assert_eq!(reply, InitReply::Accepted { share_pubkey: true, start_round_one: false });
    assert!(states[1].state == State::Init);
    assert!(!states[1].have_all_pubkeys());
    states[1].finish_pubkey_delivery();
    let reply = states[1].receive_participant(p2);
    assert_eq!(reply, InitReply::Accepted { share_pubkey: false, start_round_one: true });
    assert!(states[1].state == State::Phase1);
    assert!(states[1].have_all_pubkeys());
    assert_eq!(states[1].get_other_participants().len(), 2);
    assert_eq!(states[1].get_other_participants()[0].index, 0);
    assert_eq!(states[1].get_other_participants()[1].index, 2);
}

#[test]
fn participant_is_forbidden_outside_init() {
    let mut states = group();
    let p0 = states[0].get_this_participant();
    states[1].state = State::Phase2;
    assert_eq!(states[1].receive_participant(p0), InitReply::Forbidden);
    assert!(states[1].participants[0].is_none());
    assert!(states[1].state == State::Phase2);
}

#[test]
fn participant_with_a_wrong_proof_is_unauthorized() {
    let mut states = group();
    let mut forged = states[0].get_this_participant();
    forged.commitments = states[2].get_this_participant().commitments;
    assert_eq!(states[1].receive_participant(forged), InitReply::Unauthorized);
    assert!(states[1].participants[0].is_none());
}

#[test]
fn participant_without_public_key_is_refused() {
    let mut states = group();
    let mut empty = states[0].get_this_participant();
    empty.commitments = vec![];
    assert_eq!(states[1].receive_participant(empty), InitReply::MissingPublicKey);
    assert!(states[1].participants[0].is_none());
}

#[test]
fn participant_of_an_unknown_server_is_refused() {
    let mut states = group();
    let (outsider, _) = frost_dalek::Participant::new(&frost_dalek::Parameters { t: 2, n: 3 }, 7);
    assert_eq!(states[1].receive_participant(outsider), InitReply::UnknownServer);
    assert!(states[1].state == State::Init);
}

#[test]
fn round_one_fails_without_all_participants() {
    let mut states = group();
    let result = try_compute_distributed_struct(&mut states[0]);
    match result {
        Err(culprits) => assert!(culprits.is_empty()),
        Ok(()) => panic!("round one ran without the other participants"),
    }
    assert!(states[0].state == State::Init);
    assert!(states[0].round_one_struct.is_none());
    match states[0].round_one_shares() {
        Err(KeygenError::Misbehaving(culprits)) => assert!(culprits.is_empty()),
        _ => panic!("expected a refused first round"),
    }
}

#[test]
fn round_one_shares_are_one_per_other_server() {
    let mut states = group();
    exchange_participants(&mut states);
    let shares = states[0].round_one_shares().ok().unwrap();
    assert_eq!(shares.len(), 2);
    let mut targets: Vec<u32> = shares.iter().map(|s| s.index).collect();
    targets.sort();
    assert_eq!(targets, vec![1, 2]);
}

#[test]
fn share_is_forbidden_outside_phase_one() {
    let mut states = group();
    exchange_participants(&mut states);
    compute_distributed_struct(&mut states[0]);
    let deliveries = states[0].phase1_deliveries().ok().unwrap();
    let (to, message) = deliveries.into_iter().next().unwrap();
    states[to].state = State::Init;
    assert_eq!(states[to].receive_secret_share(message), ShareReply::Forbidden);
    assert!(states[to].secretShares.iter().all(|s| s.is_none()));
}

#[test]
fn shares_move_the_group_to_phase_two() {
    let mut states = group();
    exchange_participants(&mut states);
    for s in states.iter_mut() {
        compute_distributed_struct(s);
    }
    let from0: Vec<(usize, SecretShareMessage)> = states[0].phase1_deliveries().ok().unwrap();
    let from2: Vec<(usize, SecretShareMessage)> = states[2].phase1_deliveries().ok().unwrap();
    let to1_from0 = from0.into_iter().find(|(to, _)| *to == 1).unwrap().1;
    let to1_from2 = from2.into_iter().find(|(to, _)| *to == 1).unwrap().1;
    assert_eq!(states[1].receive_secret_share(to1_from0), ShareReply::Accepted { enter_phase_two: false });
    assert!(states[1].state == State::Phase1);
    assert!(!states[1].have_all_shares());
    assert_eq!(states[1].receive_secret_share(to1_from2), ShareReply::Accepted { enter_phase_two: true });
    assert!(states[1].state == State::Phase2);
    assert!(states[1].have_all_shares());
    assert_eq!(states[1].get_secret_shares().len(), 2);
}

#[test]
fn round_two_rejects_missing_shares() {
    let mut states = group();
    exchange_participants(&mut states);
    compute_distributed_struct(&mut states[0]);
    match to_phase_2(&mut states[0]) {
        Err(KeygenError::SharesRejected) => {},
        _ => panic!("round two accepted no shares"),
    }
    assert!(states[0].server_state.is_none());
    assert!(states[0].group_key.is_none());
}

#[test]
fn group_key_is_forbidden_outside_phase_two() {
    let mut states = group();
    let key = full_keygen()[0].group_key().unwrap();
    assert_eq!(states[0].receive_group_key(key), GroupKeyReply::Forbidden);
    assert!(states[0].state == State::Init);
    assert!(states[0].public_commitment_shares.is_none());
}

#[test]
fn foreign_group_key_is_accepted_but_does_not_match() {
    let mut a = full_keygen();
    let b = full_keygen();
    a[1].state = State::Phase2;
    let foreign = b[0].group_key().unwrap();
    assert_eq!(a[1].receive_group_key(foreign), GroupKeyReply::Accepted { matches: false });
    assert!(a[1].state == State::Timestamping);
}

#[test]
fn commitments_are_published_once() {
    let mut states = full_keygen();
    let published = states[0].public_commitment_shares.as_ref().unwrap();
    assert_eq!(published.participant_index, 0);
    assert_eq!(published.commitments.len(), timestamp_server::commitments_to_generate);
    let first = states[0].commitment_at(0).unwrap();
    states[0].state = State::Phase2;
    let key = states[0].group_key().unwrap();
    assert_eq!(states[0].receive_group_key(key), GroupKeyReply::Accepted { matches: true });
    let again = states[0].commitment_at(0).unwrap();
    assert_eq!(first.0.compress(), again.0.compress());
    assert_eq!(first.1.compress(), again.1.compress());
}

#[test]
fn public_key_carries_the_server_index() {
    let states = full_keygen();
    for (i, s) in states.iter().enumerate() {
        assert_eq!(s.individual_public_key().index as usize, i);
    }
}

fn sign(states: &mut Vec<ServerState>, hashed_message: &str, time: &str) -> (Result<[u8; 64], SigningError>, [u8; 64]) {
    let commitment_index = states[0].get_and_increment_comiitment_index();
    let digest = timestamp_digest(hashed_message, time).unwrap();
    let context = signing_context();
    let group_key = states[0].group_key().unwrap();
    let mut round = states[0].signing_round(&context, &digest.final_hash);
    let mut contributions = Vec::new();
    for signer in get_random_signers(&states[0].parameters) {
        let contribution = match states[0].own_contribution(signer, commitment_index) {
            Some(c) => c,
            None => {
                assert!(states[signer].own_contribution(0, commitment_index).is_none() || signer == 0);
                SignerContribution {
                    signer_index: signer,
                    commitment: states[signer].commitment_at(commitment_index).unwrap(),
                    public_key: states[signer].individual_public_key(),
                }
            },
        };
        contributions.push(contribution);
    }
    let signers = collect_signers(&mut round, contributions).ok().unwrap();
    let mut partials = Vec::new();
    for signer in get_random_signers(&states[0].parameters) {
        let request = partial_signature_request(&digest, commitment_index, &signers);
        assert_eq!(request.message_hash, digest.message_hash.to_vec());
        assert_eq!(request.commitment_index, commitment_index);
        partials.push(states[signer].partial_signature(&request).unwrap());
    }
    (finish_signing(round, partials, &group_key, &digest.message_hash), digest.message_hash)
}

#[test]
fn group_signs_a_timestamp_that_verifies() {
    let mut states = full_keygen();
    let (token, message_hash) = sign(&mut states, "00112233445566778899aabbccddeeff", "20240102030405Z");
    let token = token.ok().unwrap();
    let response = signed_response(token, message_hash);
    assert!(response.is_signed());
    let group_key = states[1].group_key().unwrap();
    assert_eq!(check_timestamp_token(&response.timeStampToken, &response.final_hash, &group_key), TokenCheck::Verified);
    let mut other_hash = response.final_hash.clone();
    other_hash[0] ^= 1;
    assert_eq!(check_timestamp_token(&response.timeStampToken, &other_hash, &group_key), TokenCheck::Rejected);
    assert_eq!(check_timestamp_token(&vec![0xffu8; 64], &response.final_hash, &group_key), TokenCheck::Malformed);
    let signature = frost_dalek::signature::ThresholdSignature::from_bytes(token).unwrap();
    assert!(signature.verify(&group_key, &message_hash).is_ok());
}

#[test]
fn second_timestamp_uses_the_next_commitment() {
    // Signing removes the used secret commitment from the signer's list, so
    // the secret list no longer lines up with the published one: the second
    // signature's partial signatures do not check.
    let mut states = full_keygen();
    assert!(sign(&mut states, "aa", "20240102030405Z").0.is_ok());
    assert_eq!(commitments_left(&states[1]), timestamp_server::commitments_to_generate - 1);
    assert_eq!(sign(&mut states, "bb", "20240102030406Z").0, Err(SigningError::InvalidPartialSignature));
    assert_eq!(states[0].commitment_index, 2);
}

#[test]
fn signing_without_partial_signatures_fails() {
    let states = full_keygen();
    let digest = timestamp_digest("aa", "t").unwrap();
    let context = signing_context();
    let mut round = states[0].signing_round(&context, &digest.final_hash);
    let contributions = vec![states[0].own_contribution(0, 0).unwrap()];
    assert!(collect_signers(&mut round, contributions).is_ok());
    let group_key = states[0].group_key().unwrap();
    assert_eq!(finish_signing(round, vec![], &group_key, &digest.message_hash), Err(SigningError::MissingPartialSignature));
}

#[test]
fn contribution_with_another_servers_key_is_refused() {
    let states = full_keygen();
    let digest = timestamp_digest("aa", "t").unwrap();
    let context = signing_context();
    let mut round = states[0].signing_round(&context, &digest.final_hash);
    let mismatched = SignerContribution {
        signer_index: 0,
        commitment: states[0].commitment_at(0).unwrap(),
        public_key: states[1].individual_public_key(),
    };
    assert_eq!(round.add_signer(mismatched), Err(SigningError::SignerMismatch));
    assert!(collect_signers(&mut round, vec![]).ok().unwrap().is_empty());
}

#[test]
fn partial_signature_uses_up_the_commitment() {
    let mut states = full_keygen();
    assert_eq!(commitments_left(&states[1]), timestamp_server::commitments_to_generate);
    let request = PartialSignatureRequest { message_hash: vec![3u8; 64], signers: vec![], commitment_index: commitments_left(&states[1]) };
    assert!(states[1].partial_signature(&request).is_err());
    assert_eq!(commitments_left(&states[1]), timestamp_server::commitments_to_generate);
    assert!(sign(&mut states, "aa", "20240102030405Z").0.is_ok());
    assert_eq!(commitments_left(&states[1]), timestamp_server::commitments_to_generate - 1);
}

fn commitments_left(s: &ServerState) -> usize {
    s.secret_commitment_shares.as_ref().unwrap().commitments.len()
}

#[test]
fn share_claiming_the_own_index_spoils_round_two() {
    let mut states = group();
    exchange_participants(&mut states);
    for s in states.iter_mut() {
        compute_distributed_struct(s);
    }
    let from0: Vec<(usize, SecretShareMessage)> = states[0].phase1_deliveries().ok().unwrap();
    let from2: Vec<(usize, SecretShareMessage)> = states[2].phase1_deliveries().ok().unwrap();
    let mut from0 = from0.into_iter().filter(|(to, _)| *to == 1).map(|(_, m)| m);
    let genuine0 = from0.next().unwrap();
    let to1_from2 = from2.into_iter().find(|(to, _)| *to == 1).unwrap().1;
    let rogue = SecretShareMessage { from: 1, val: genuine0.val.clone() };
    assert_eq!(states[1].receive_secret_share(rogue), ShareReply::Accepted { enter_phase_two: false });
    assert_eq!(states[1].receive_secret_share(genuine0), ShareReply::Accepted { enter_phase_two: false });
    assert_eq!(states[1].receive_secret_share(to1_from2), ShareReply::Accepted { enter_phase_two: true });
    assert_eq!(states[1].get_secret_shares().len(), 3);
    match to_phase_2(&mut states[1]) {
        Err(KeygenError::SharesRejected) => {},
        _ => panic!("round two accepted three shares"),
    }
}

#[test]
fn phase1_deliveries_address_each_other_server_once() {
    let mut states = group();
    exchange_participants(&mut states);
    compute_distributed_struct(&mut states[1]);
    let deliveries = states[1].phase1_deliveries().ok().unwrap();
    let targets: Vec<usize> = deliveries.iter().map(|(to, _)| *to).collect();
    assert_eq!(targets, vec![0, 2]);
    for (to, message) in deliveries.iter() {
        assert_eq!(message.from, 1);
        assert_eq!(message.val.index as usize, *to);
    }
}

#[test]
fn collected_signers_are_one_per_index() {
    let states = full_keygen();
    let digest = timestamp_digest("aa", "t").unwrap();
    let context = signing_context();
    let mut round = states[0].signing_round(&context, &digest.final_hash);
    let contributions = vec![
        states[0].own_contribution(0, 0).unwrap(),
        states[0].own_contribution(0, 1).unwrap(),
        SignerContribution { signer_index: 1, commitment: states[1].commitment_at(0).unwrap(), public_key: states[1].individual_public_key() },
    ];
    let signers = collect_signers(&mut round, contributions).ok().unwrap();
    let indices: Vec<u32> = signers.iter().map(|s| s.participant_index).collect();
    assert_eq!(indices, vec![0, 1]);
}

#[test]
fn participants_sit_under_their_own_index() {
    let mut states = group();
    exchange_participants(&mut states);
    for s in states.iter() {
        for (i, p) in s.participants.iter().enumerate() {
            assert_eq!(p.as_ref().unwrap().index as usize, i);
        }
    }
}

#[test]
fn partial_signature_is_the_keys_signature_of_the_hash() {
    let mut states = full_keygen();
    let (token, message_hash) = sign(&mut states, "abcdef", "20240102030405Z");
    let token = token.ok().unwrap();
    let group_key = states[0].group_key().unwrap();
    assert_eq!(check_timestamp_token(&token.to_vec(), &message_hash.to_vec(), &group_key), TokenCheck::Verified);
    let mut zero_hash = vec![0u8; 64];
    zero_hash[0] = 1;
    assert_eq!(check_timestamp_token(&token.to_vec(), &zero_hash, &group_key), TokenCheck::Rejected);
}


#[test]
fn commitment_past_the_published_ones_is_none() {
    let states = full_keygen();
    assert!(states[0].commitment_at(timestamp_server::commitments_to_generate - 1).is_some());
    assert!(states[0].commitment_at(timestamp_server::commitments_to_generate).is_none());
}

#[test]
fn keys_and_commitments_survive_their_byte_forms() {
    let states = full_keygen();
    let group_key = states[0].group_key().unwrap();
    let bytes = timestamp_server::encode_group_key(&group_key);
    assert!(timestamp_server::decode_group_key(bytes).unwrap() == group_key);
    let public_key = states[1].individual_public_key();
    let (index, share) = timestamp_server::encode_public_key(&public_key);
    assert_eq!(index, 1);
    let decoded = timestamp_server::decode_public_key(index, share).unwrap();
    assert_eq!(decoded.index, 1);
    assert!(decoded.share.compress() == public_key.share.compress());
    let pair = states[0].commitment_at(3).unwrap();
    let (h, b) = timestamp_server::encode_commitment(&pair);
    let back = timestamp_server::decode_commitment(h, b).unwrap();
    assert!(back.0.compress() == pair.0.compress() && back.1.compress() == pair.1.compress());
    let mut bad = [0xffu8; 32];
    bad[31] = 0x7f;
    assert!(timestamp_server::decode_group_key(bad).is_none());
}

#[test]
fn published_commitments_are_those_of_the_secret_ones() {
    let states = full_keygen();
    let published = states[0].public_commitment_shares.as_ref().unwrap();
    let secret = states[0].secret_commitment_shares.as_ref().unwrap();
    for k in 0..timestamp_server::commitments_to_generate {
        let pair = secret.commitments[k].publish();
        assert!(published.commitments[k].0.compress() == pair.0.compress());
        assert!(published.commitments[k].1.compress() == pair.1.compress());
    }
}

#[test]
fn own_participant_commits_to_its_coefficients() {
    let s = ServerState::new(Parameters { t: 2, n: 3 }, vec![], 0);
    let own = s.get_this_participant();
    assert_eq!(own.commitments.len(), 2);
    assert!(own.public_key().is_some());
}
