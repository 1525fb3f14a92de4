//! Models of the domain payload types carried inside a message envelope.
//!
//! The envelope layer treats these payloads as opaque collaborators: it only
//! needs to move them, compare them, and read the chain identity embedded in
//! the chain-addressed ones. Each model therefore holds exactly those plain
//! values, and nothing of the consensus or storage machinery behind them.

use vstd::prelude::*;

verus! {

/// A 256-bit cryptographic content hash, carried as four 64-bit words.
#[derive(Clone, Copy, Debug, PartialEq, Eq)]
pub struct CryptoHash {
    pub part0: u64,
    pub part1: u64,
    pub part2: u64,
    pub part3: u64,
}

/// The identity of one independently-sequenced chain in the network.
#[derive(Clone, Copy, Debug, PartialEq, Eq)]
pub struct ChainId(pub CryptoHash);

/// The identifier of a content-addressed blob.
#[derive(Clone, Copy, Debug, PartialEq, Eq)]
pub struct BlobId {
    pub hash: CryptoHash,
}

/// A client's proposal of a new block on one chain.
#[derive(Clone, Debug, PartialEq, Eq)]
pub struct BlockProposal {
    /// The chain the proposed block extends.
    pub chain_id: ChainId,
    /// The height the proposed block would occupy.
    pub height: u64,
}

/// A single validator's signed vote on a block, lighter than a certificate.
#[derive(Clone, Debug, PartialEq, Eq)]
pub struct LiteVote {
    pub chain_id: ChainId,
    pub height: u64,
}

/// A quorum-signed attestation that a chain timed out at some height.
#[derive(Clone, Debug, PartialEq, Eq)]
pub struct TimeoutCertificate {
    pub chain_id: ChainId,
    pub height: u64,
}

/// A quorum-signed attestation that a block was validated.
#[derive(Clone, Debug, PartialEq, Eq)]
pub struct ValidatedCertificate {
    pub chain_id: ChainId,
    pub height: u64,
}

/// A quorum-signed attestation that a block was confirmed.
#[derive(Clone, Debug, PartialEq, Eq)]
pub struct ConfirmedBlockCertificate {
    pub chain_id: ChainId,
    pub height: u64,
    pub hash: CryptoHash,
}

/// A certificate reduced to the value's hash and chain identity.
#[derive(Clone, Debug, PartialEq, Eq)]
pub struct LiteCertificate {
    pub chain_id: ChainId,
    pub hash: CryptoHash,
}

/// A request that a validator handle a timeout certificate.
#[derive(Clone, Debug, PartialEq, Eq)]
pub struct HandleTimeoutCertificateRequest {
    pub certificate: TimeoutCertificate,
}

/// A request that a validator handle a validated-block certificate.
#[derive(Clone, Debug, PartialEq, Eq)]
pub struct HandleValidatedCertificateRequest {
    pub certificate: ValidatedCertificate,
}

/// A request that a validator handle a confirmed-block certificate.
#[derive(Clone, Debug, PartialEq, Eq)]
pub struct HandleConfirmedCertificateRequest {
    pub certificate: ConfirmedBlockCertificate,
}

/// A request that a validator handle a lite certificate.
#[derive(Clone, Debug, PartialEq, Eq)]
pub struct HandleLiteCertRequest {
    pub certificate: LiteCertificate,
    /// Whether the caller waits for the outgoing cross-chain messages.
    pub wait_for_outgoing_messages: bool,
}

/// A query about the authoritative state of one chain.
#[derive(Clone, Debug, PartialEq, Eq)]
pub struct ChainInfoQuery {
    pub chain_id: ChainId,
}

/// A validator's answer to a [`ChainInfoQuery`] or a certificate request.
#[derive(Clone, Debug, PartialEq, Eq)]
pub struct ChainInfoResponse {
    pub chain_id: ChainId,
    pub next_block_height: u64,
}

/// The version descriptor a node reports about itself.
#[derive(Clone, Debug, PartialEq, Eq)]
pub struct VersionInfo {
    pub crate_version: String,
    pub git_commit: String,
}

/// Content-addressed binary data referenced by chain execution.
#[derive(Clone, Debug, PartialEq, Eq)]
pub struct BlobContent {
    pub bytes: Vec<u8>,
}

/// A block that reached confirmed status on its chain.
#[derive(Clone, Debug, PartialEq, Eq)]
pub struct ConfirmedBlock {
    pub chain_id: ChainId,
    pub height: u64,
}

/// A domain error reported by the handling side, or a local protocol fault.
#[derive(Clone, Debug, PartialEq, Eq)]
pub enum NodeError {
    /// The received envelope's variant did not match the expected response
    /// kind: a local protocol violation, not a remote failure.
    UnexpectedMessage,
    /// A logical failure reported by the remote handler.
    Remote { message: String },
}

/// An internal validator-to-validator message moving effects between chains.
///
/// It resolves its own target chain: effects always travel to the recipient.
#[derive(Clone, Debug, PartialEq, Eq)]
pub enum CrossChainRequest {
    /// Deliver new message bundles from `sender` to `recipient`.
    UpdateRecipient { sender: ChainId, recipient: ChainId },
    /// Acknowledge that `recipient` processed `sender`'s bundles.
    ConfirmUpdatedRecipient { sender: ChainId, recipient: ChainId },
}

impl CrossChainRequest {
    /// The chain this request must be routed to: always the recipient.
    pub open spec fn spec_target_chain_id(self) -> ChainId {
        match self {
            CrossChainRequest::UpdateRecipient { recipient, .. } => recipient,
            CrossChainRequest::ConfirmUpdatedRecipient { recipient, .. } => recipient,
        }
    }

    /// Obtains the chain this request is targeted at.
    pub fn target_chain_id(&self) -> (r: ChainId)
        ensures
            r == self.spec_target_chain_id(),
    {
        match self {
            CrossChainRequest::UpdateRecipient { recipient, .. } => *recipient,
            CrossChainRequest::ConfirmUpdatedRecipient { recipient, .. } => *recipient,
        }
    }
}

} // verus!
