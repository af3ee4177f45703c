//! Distributed key signing timestamp server: the verified core.
//!
//! The servers of a group run a FROST distributed key generation, then sign
//! timestamps with a threshold of them.  This crate holds the protocol state of
//! one server and the decisions that every endpoint takes on it; the HTTP
//! plumbing lives outside.
pub mod address;
pub mod bytes;
pub mod crypto;
pub mod encoding;
pub mod keygen;
pub mod services;
pub mod state;
pub mod timestamp;
pub mod types;

pub use address::build_address;
pub use bytes::to_array;
pub use encoding::{decode_commitment, decode_group_key, decode_public_key, encode_commitment, encode_group_key, encode_public_key};
pub use crypto::{FinalizedRound, RoundOneState, RoundTwoState, SigningRound};
pub use keygen::{compute_distributed_struct, try_compute_distributed_struct, to_phase_2, Delivery, KeygenError, NextAttempt, DELIVERY_ATTEMPTS};
pub use services::{GroupKeyReply, InitReply, ProofCheck, ShareReply};
pub use state::{commitments_to_generate, ServerState};
pub use timestamp::{
    check_timestamp_token, collect_signers, failed_response, finish_signing, get_random_signers, is_supported_hash_algorithm,
    next_timestamp_action, partial_signature_request, prepare_timestamp,
    signed_response, signing_context, timestamp_digest, SignerContribution, SigningError, TimestampAction, TimestampDigest, TimestampPlan, TokenCheck,
};
pub use types::{
    Config, Event, Parameters, PartialSignatureRequest, PublicCommitments, SecretShareMessage, State, TimeStampResp,
    TimestampStruct,
};
