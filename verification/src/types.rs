use vstd::prelude::*;
use curve25519_dalek::ristretto::RistrettoPoint;
use frost_dalek::keygen::SecretShare;
use frost_dalek::signature::Signer;

verus! {

/// The threshold configuration of the group: `t` signers out of `n` servers.
#[derive(Clone, Copy, Debug, PartialEq, Eq, Structural)]
pub struct Parameters {
    /// How many servers must take part in a signature.
    pub t: u32,
    /// How many servers the group has.
    pub n: u32,
}

/// The configuration that a server is started with.
#[derive(Debug)]
pub struct Config {
    /// The addresses of all servers of the group, this one included.
    pub servers: Vec<String>,
    /// The port that this server listens on.
    pub port: u16,
    /// The signing threshold.
    pub t: u32,
    /// The number of servers.
    pub n: u32,
}

/// What a peer has been sent by this server, as far as it knows.
#[derive(Clone, Copy, Debug, PartialEq, Eq, PartialOrd, Structural)]
pub enum Event {
    /// The peer has been sent this server's participant (its public key).
    Init,
    /// The peer has been sent its secret share of the first key generation round.
    KeygenPhase1,
    /// The peer has been sent the group key.
    KeygenPhase2,
}

/// The phase of the key generation protocol that a server is in.
#[derive(Clone, Copy, Debug, PartialEq, Eq, PartialOrd, Structural)]
pub enum State {
    Reset,
    Init,
    Phase1,
    Phase2,
    Timestamping,
}

/// The place of a phase in the protocol's order.
pub open spec fn phase_rank(s: State) -> nat {
    match s {
        State::Reset => 0,
        State::Init => 1,
        State::Phase1 => 2,
        State::Phase2 => 3,
        State::Timestamping => 4,
    }
}

/// A secret share of the first key generation round, sent to its owner.
pub struct SecretShareMessage {
    /// The index of the server that computed the share.
    pub from: usize,
    /// The share.
    pub val: SecretShare,
}

/// A request to a signer for its part of a threshold signature.
pub struct PartialSignatureRequest {
    /// The 64-byte hash of the message to sign.
    pub message_hash: Vec<u8>,
    /// All signers of this signature, with the commitments that they use.
    pub signers: Vec<Signer>,
    /// The index of this signer's commitment to use.
    pub commitment_index: usize,
}

/// The commitments that a server publishes before it signs: one pair per
/// signature it can make.
pub struct PublicCommitments {
    /// The index of the server that published them.
    pub participant_index: u32,
    /// The published (hiding, binding) commitment pairs.
    pub commitments: Vec<(RistrettoPoint, RistrettoPoint)>,
}

/// A client's request for a timestamp.
#[allow(non_snake_case)]
pub struct TimestampStruct {
    /// The algorithm to be used for hashing: `SHA2` (SHA-256, also named
    /// `SHA256` or `SHA-256`) is the one supported; a request naming another
    /// is answered with the failed response.
    pub hashAlgorithm: String,
    /// The hash of the client's data, hex encoded.
    pub hashedMessage: String,
}

/// The answer to a timestamp request.
#[allow(non_snake_case)]
pub struct TimeStampResp {
    /// `"Ok?"` for a signed timestamp, `"fail"` otherwise.
    pub status: String,
    /// The 64-byte threshold signature, or nothing on failure.
    pub timeStampToken: Vec<u8>,
    /// The 64-byte hash that was signed, or nothing on failure.
    pub final_hash: Vec<u8>,
}

} // verus!
