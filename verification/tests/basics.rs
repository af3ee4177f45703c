use timestamp_server::{next_timestamp_action, TimestampAction};
use timestamp_server::{
    build_address, failed_response, get_random_signers, signed_response, signing_context, timestamp_digest, to_array,
    Parameters, TimeStampResp,
};
use sha2::Digest;

#[test]
fn build_address_joins_protocol_host_and_endpoint() {
    assert_eq!(build_address("http", "127.0.0.1:8080", "init"), "http://127.0.0.1:8080/init");
    assert_eq!(build_address("https", "example.org", "commitment/7"), "https://example.org/commitment/7");
    assert_eq!(build_address("", "", ""), ":///");
}

#[test]
fn to_array_keeps_the_bytes() {
    let v: Vec<u8> = (0..64u8).collect();
    let a = to_array(&v);
    assert_eq!(a.to_vec(), v);
}

#[test]
fn signing_context_is_diks_tits() {
    assert_eq!(signing_context(), b"diks-tits".to_vec());
}

#[test]
fn fixed_signers_are_the_first_t() {
    assert_eq!(get_random_signers(&Parameters { t: 2, n: 3 }), vec![0, 1]);
    assert_eq!(get_random_signers(&Parameters { t: 5, n: 9 }), vec![0, 1, 2, 3, 4]);
    assert_eq!(get_random_signers(&Parameters { t: 3, n: 1 }), vec![0]);
    assert_eq!(get_random_signers(&Parameters { t: 0, n: 4 }), Vec::<usize>::new());
}

#[test]
fn failed_response_is_empty() {
    let r = failed_response();
    assert_eq!(r.status, "fail");
    assert!(r.timeStampToken.is_empty());
    assert!(r.final_hash.is_empty());
    assert!(!r.is_signed());
}

#[test]
fn signed_response_carries_token_and_hash() {
    let token = [7u8; 64];
    let hash = [9u8; 64];
    let r = signed_response(token, hash);
    assert_eq!(r.status, "Ok?");
    assert_eq!(r.timeStampToken, token.to_vec());
    assert_eq!(r.final_hash, hash.to_vec());
    assert!(r.is_signed());
}

#[test]
fn is_signed_only_for_ok() {
    let r = TimeStampResp { status: "ok".to_string(), timeStampToken: vec![], final_hash: vec![] };
    assert!(!r.is_signed());
}

#[test]
fn timestamp_digest_hashes_file_hash_then_time() {
    let file_hash = sha2::Sha256::digest(b"random text to be hashed, would be file otherwise");
    let hex_text = format!("{:x}", file_hash);
    let time = "20240102030405Z";
    let d = timestamp_digest(&hex_text, time).expect("valid hex");
    let mut hasher = sha2::Sha256::new();
    hasher.update(&file_hash[..]);
    hasher.update(time.as_bytes());
    let expected = hasher.finalize().to_vec();
    assert_eq!(d.final_hash, expected);
    assert_eq!(d.final_hash.len(), 32);
    let expected_message_hash = frost_dalek::compute_message_hash(b"diks-tits", &expected);
    assert_eq!(d.message_hash, expected_message_hash);
}

#[test]
fn timestamp_digest_accepts_upper_case_hex() {
    let lower = timestamp_digest("00ff10ab", "t").unwrap();
    let upper = timestamp_digest("00FF10AB", "t").unwrap();
    assert_eq!(lower.final_hash, upper.final_hash);
    let mut hasher = sha2::Sha256::new();
    hasher.update([0x00u8, 0xff, 0x10, 0xab]);
    hasher.update(b"t");
    assert_eq!(lower.final_hash, hasher.finalize().to_vec());
}

#[test]
fn timestamp_digest_of_empty_hex_hashes_the_time_alone() {
    let d = timestamp_digest("", "20240101000000Z").unwrap();
    assert_eq!(d.final_hash, sha2::Sha256::digest(b"20240101000000Z").to_vec());
}

#[test]
fn timestamp_digest_rejects_odd_length_hex() {
    assert!(timestamp_digest("abc", "20240101000000Z").is_none());
}

#[test]
fn timestamp_digest_rejects_non_hex_characters() {
    assert!(timestamp_digest("zz", "20240101000000Z").is_none());
    assert!(timestamp_digest("0g", "20240101000000Z").is_none());
    assert!(timestamp_digest("é1", "20240101000000Z").is_none());
}

#[test]
fn prepare_timestamp_decodes_and_rejects_like_the_digest() {
    assert!(timestamp_server::prepare_timestamp("xyz").is_none());
    let d = timestamp_server::prepare_timestamp("abcd").unwrap();
    assert_eq!(d.final_hash.len(), 32);
    assert_eq!(d.message_hash, frost_dalek::compute_message_hash(b"diks-tits", &d.final_hash));
}

#[test]
fn timestamp_steps_gather_contributions_then_partials() {
    let signers = vec![0usize, 1usize];
    assert_eq!(next_timestamp_action(&signers, 0, 0), TimestampAction::GatherContribution { signer: 0 });
    assert_eq!(next_timestamp_action(&signers, 1, 0), TimestampAction::GatherContribution { signer: 1 });
    assert_eq!(next_timestamp_action(&signers, 2, 0), TimestampAction::GatherPartialSignature { signer: 0 });
    assert_eq!(next_timestamp_action(&signers, 2, 1), TimestampAction::GatherPartialSignature { signer: 1 });
    assert_eq!(next_timestamp_action(&signers, 2, 2), TimestampAction::Aggregate);
}
