use timestamp_server::{Delivery, Event, NextAttempt, Parameters, ServerState, State, TimestampStruct, DELIVERY_ATTEMPTS};

fn request(algorithm: &str, hashed: &str) -> TimestampStruct {
    TimestampStruct { hashAlgorithm: algorithm.to_string(), hashedMessage: hashed.to_string() }
}

fn fresh(index: usize) -> ServerState {
    ServerState::new(Parameters { t: 2, n: 3 }, vec!["a:1".to_string(), "b:2".to_string(), "c:3".to_string()], index)
}

#[test]
fn new_state_is_empty_but_for_its_own_participant() {
    let s = fresh(2);
    assert_eq!(s.participants.len(), 3);
    assert_eq!(s.participants[2].as_ref().unwrap().index, 2);
    assert!(s.participants[0].is_none() && s.participants[1].is_none());
    assert!(s.confirmations.iter().all(|c| c.is_none()));
    assert!(s.secretShares.iter().all(|c| c.is_none()));
    assert!(s.state == State::Init);
    assert!(!s.pubkey_sent && !s.round_1_sent);
    assert_eq!(s.commitment_index, 0);
    assert!(!s.have_all_pubkeys());
    assert!(!s.have_all_shares());
    assert_eq!(s.get_other_participants().len(), 0);
    assert_eq!(s.get_secret_shares().len(), 0);
    assert_eq!(s.get_this_participant().index, 2);
}

#[test]
fn default_state_is_server_one_of_three() {
    let s = ServerState::default();
    assert_eq!(s.parameters, Parameters { t: 2, n: 3 });
    assert_eq!(s.this_server_index, 1);
    assert!(s.servers.is_empty());
    assert!(s.participants[1].is_some());
    assert!(s.state == State::Init);
}

#[test]
fn commitment_indices_count_up() {
    let mut s = fresh(0);
    assert_eq!(s.get_and_increment_comiitment_index(), 0);
    assert_eq!(s.get_and_increment_comiitment_index(), 1);
    assert_eq!(s.get_and_increment_comiitment_index(), 2);
    assert_eq!(s.commitment_index, 3);
}

#[test]
fn pubkey_goes_once_to_each_other_server() {
    let mut s = fresh(1);
    assert!(!s.begin_pubkey_delivery(1));
    assert!(s.begin_pubkey_delivery(0));
    assert_eq!(s.confirmations[0], Some(Event::Init));
    assert!(!s.begin_pubkey_delivery(0));
    assert!(s.begin_pubkey_delivery(2));
    s.pubkey_delivery_failed(2);
    assert_eq!(s.confirmations[2], None);
    assert!(s.begin_pubkey_delivery(2));
    s.finish_pubkey_delivery();
    assert!(s.pubkey_sent);
}

#[test]
fn share_delivery_retries_then_falls_back() {
    let mut s = fresh(0);
    assert!(s.begin_share_delivery(1));
    assert_eq!(s.confirmations[1], Some(Event::KeygenPhase1));
    assert!(!s.begin_share_delivery(1));
    // A refused attempt waits and retries; the confirmation stays.
    assert_eq!(s.after_share_attempt(1, 1, Delivery::Refused), NextAttempt { pause: true, retry: true });
    assert_eq!(s.confirmations[1], Some(Event::KeygenPhase1));
    // The last refused attempt gives up and falls back to Init.
    assert_eq!(s.after_share_attempt(1, DELIVERY_ATTEMPTS, Delivery::Refused), NextAttempt { pause: true, retry: false });
    assert_eq!(s.confirmations[1], Some(Event::Init));
    // So the next round of deliveries sends it again.
    assert!(s.begin_share_delivery(1));
}

#[test]
fn unreachable_share_peer_falls_back_at_once() {
    let mut s = fresh(0);
    assert!(s.begin_share_delivery(2));
    assert_eq!(s.after_share_attempt(2, 2, Delivery::Unreachable), NextAttempt { pause: false, retry: true });
    assert_eq!(s.confirmations[2], Some(Event::Init));
    // A later success does not restore the confirmation.
    assert_eq!(s.after_share_attempt(2, 3, Delivery::Delivered), NextAttempt { pause: false, retry: false });
    assert_eq!(s.confirmations[2], Some(Event::Init));
    s.finish_share_delivery();
    assert!(s.round_1_sent);
}

#[test]
fn group_key_delivery_skips_self_and_delivered() {
    let mut s = fresh(2);
    assert!(!s.begin_group_key_delivery(2));
    assert!(s.begin_group_key_delivery(0));
    assert_eq!(s.confirmations[0], Some(Event::KeygenPhase2));
    assert!(!s.begin_group_key_delivery(0));
    assert_eq!(s.after_group_key_attempt(0, DELIVERY_ATTEMPTS, Delivery::Refused), NextAttempt { pause: true, retry: false });
    assert_eq!(s.confirmations[0], Some(Event::KeygenPhase2));
    assert_eq!(s.after_group_key_attempt(0, 1, Delivery::Unreachable), NextAttempt { pause: false, retry: true });
    assert_eq!(s.confirmations[0], Some(Event::KeygenPhase1));
    assert!(s.begin_group_key_delivery(0));
}

#[test]
fn attempts_stop_at_the_limit() {
    let mut s = fresh(0);
    assert!(s.begin_group_key_delivery(1));
    assert!(!s.after_group_key_attempt(1, DELIVERY_ATTEMPTS, Delivery::Unreachable).retry);
    assert!(s.after_group_key_attempt(1, DELIVERY_ATTEMPTS - 1, Delivery::Unreachable).retry);
    assert!(!s.after_group_key_attempt(1, 1, Delivery::Delivered).retry);
}

#[test]
fn timestamp_request_takes_a_commitment_even_when_it_fails() {
    let mut s = ServerState::default();
    let plan = s.begin_timestamp(&request("SHA2", "not hex"));
    assert_eq!(plan.commitment_index, 0);
    assert!(plan.digest.is_none());
    assert_eq!(plan.signers, vec![0, 1]);
    let plan = s.begin_timestamp(&request("SHA2", "abcd"));
    assert_eq!(plan.commitment_index, 1);
    assert_eq!(plan.digest.unwrap().final_hash.len(), 32);
    assert_eq!(s.commitment_index, 2);
}

#[test]
fn timestamp_request_with_an_unsupported_algorithm_fails() {
    let mut s = ServerState::default();
    let plan = s.begin_timestamp(&request("SHA3-512", "abcd"));
    assert_eq!(plan.commitment_index, 0);
    assert!(plan.digest.is_none());
    let plan = s.begin_timestamp(&request("bogus", "abcd"));
    assert!(plan.digest.is_none());
    for name in ["SHA2", "SHA256", "SHA-256"] {
        assert!(timestamp_server::timestamp::is_supported_hash_algorithm(name));
        assert!(s.begin_timestamp(&request(name, "abcd")).digest.is_some());
    }
    assert!(!timestamp_server::timestamp::is_supported_hash_algorithm("sha2"));
}

#[test]
fn default_state_is_fresh() {
    let s = ServerState::default();
    assert_eq!(s.this_server_index, 1);
    assert!(s.participants[1].as_ref().unwrap().index == 1);
    assert!(s.participants[0].is_none() && s.participants[2].is_none());
    assert!(s.confirmations.iter().all(|c| c.is_none()));
    assert!(s.secretShares.iter().all(|c| c.is_none()));
    assert!(!s.pubkey_sent && !s.round_1_sent);
    assert!(s.group_key.is_none() && s.secret_key.is_none() && s.round_one_struct.is_none());
    assert_eq!(s.commitment_index, 0);
}
