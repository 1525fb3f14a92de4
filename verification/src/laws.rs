//! The protocol laws the envelope layer guarantees, stated and proved once
//! for every envelope value.

use vstd::prelude::*;

use crate::data::{
    BlobContent, BlobId, ChainInfoResponse, ConfirmedBlock, ConfirmedBlockCertificate, CryptoHash,
    NodeError, VersionInfo,
};
use crate::message::RpcMessage;

verus! {

/// Round-trip law: for every response-bearing request kind, wrapping the
/// response payload and extracting the matching expected type returns the
/// payload unchanged.
pub proof fn lemma_wrap_extract_round_trip(
    info: ChainInfoResponse,
    version: VersionInfo,
    blob: BlobContent,
    block: ConfirmedBlock,
    certificates: Vec<ConfirmedBlockCertificate>,
    blob_last_use: CryptoHash,
    genesis_hash: CryptoHash,
    blob_ids: Vec<BlobId>,
)
    ensures
        RpcMessage::ChainInfoResponse(info).spec_extract_chain_info_response() == Ok::<
            ChainInfoResponse,
            NodeError,
        >(info),
        RpcMessage::VersionInfoResponse(version).spec_extract_version_info() == Ok::<
            VersionInfo,
            NodeError,
        >(version),
        RpcMessage::DownloadBlobContentResponse(blob).spec_extract_blob_content() == Ok::<
            BlobContent,
            NodeError,
        >(blob),
        RpcMessage::DownloadConfirmedBlockResponse(block).spec_extract_confirmed_block() == Ok::<
            ConfirmedBlock,
            NodeError,
        >(block),
        RpcMessage::DownloadCertificatesResponse(certificates).spec_extract_certificates() == Ok::<
            Vec<ConfirmedBlockCertificate>,
            NodeError,
        >(certificates),
        RpcMessage::BlobLastUsedByResponse(blob_last_use).spec_extract_hash() == Ok::<
            CryptoHash,
            NodeError,
        >(blob_last_use),
        RpcMessage::GenesisConfigHashResponse(genesis_hash).spec_extract_hash() == Ok::<
            CryptoHash,
            NodeError,
        >(genesis_hash),
        RpcMessage::MissingBlobIdsResponse(blob_ids).spec_extract_blob_ids() == Ok::<
            Vec<BlobId>,
            NodeError,
        >(blob_ids),
{
}

/// Error dominance: an error envelope propagates its embedded domain error
/// through every typed extractor, whatever type was expected.
pub proof fn lemma_error_dominance(error: NodeError)
    ensures
        RpcMessage::Error(error).spec_extract_chain_info_response() == Err::<
            ChainInfoResponse,
            NodeError,
        >(error),
        RpcMessage::Error(error).spec_extract_version_info() == Err::<VersionInfo, NodeError>(
            error,
        ),
        RpcMessage::Error(error).spec_extract_blob_content() == Err::<BlobContent, NodeError>(
            error,
        ),
        RpcMessage::Error(error).spec_extract_confirmed_block() == Err::<ConfirmedBlock, NodeError>(
            error,
        ),
        RpcMessage::Error(error).spec_extract_certificates() == Err::<
            Vec<ConfirmedBlockCertificate>,
            NodeError,
        >(error),
        RpcMessage::Error(error).spec_extract_hash() == Err::<CryptoHash, NodeError>(error),
        RpcMessage::Error(error).spec_extract_blob_ids() == Err::<Vec<BlobId>, NodeError>(error),
{
}

/// Protocol-violation law: every typed extractor applied to an envelope that
/// is neither the expected response variant nor the error variant yields the
/// distinct unexpected-message fault, never another payload.
pub proof fn lemma_mismatch_yields_unexpected_message(m: RpcMessage)
    ensures
        !(m is ChainInfoResponse) && !(m is Error) ==> m.spec_extract_chain_info_response()
            == Err::<ChainInfoResponse, NodeError>(NodeError::UnexpectedMessage),
        !(m is VersionInfoResponse) && !(m is Error) ==> m.spec_extract_version_info() == Err::<
            VersionInfo,
            NodeError,
        >(NodeError::UnexpectedMessage),
        !(m is DownloadBlobContentResponse) && !(m is Error) ==> m.spec_extract_blob_content()
            == Err::<BlobContent, NodeError>(NodeError::UnexpectedMessage),
        !(m is DownloadConfirmedBlockResponse) && !(m is Error) ==> m.spec_extract_confirmed_block()
            == Err::<ConfirmedBlock, NodeError>(NodeError::UnexpectedMessage),
        !(m is DownloadCertificatesResponse) && !(m is Error) ==> m.spec_extract_certificates()
            == Err::<Vec<ConfirmedBlockCertificate>, NodeError>(NodeError::UnexpectedMessage),
        !(m is BlobLastUsedByResponse) && !(m is GenesisConfigHashResponse) && !(m is Error)
            ==> m.spec_extract_hash() == Err::<CryptoHash, NodeError>(
            NodeError::UnexpectedMessage,
        ),
        !(m is MissingBlobIdsResponse) && !(m is Error) ==> m.spec_extract_blob_ids() == Err::<
            Vec<BlobId>,
            NodeError,
        >(NodeError::UnexpectedMessage),
{
}

/// Routing-table law: a message has a target chain exactly when it is one of
/// the six chain-addressed inbound kinds or a cross-chain request; every
/// content-addressed query and every response has none.
pub proof fn lemma_target_chain_exactly_chain_addressed(m: RpcMessage)
    ensures
        m.spec_target_chain_id() is Some <==> {
            ||| m is BlockProposal
            ||| m is LiteCertificate
            ||| m is TimeoutCertificate
            ||| m is ValidatedCertificate
            ||| m is ConfirmedCertificate
            ||| m is ChainInfoQuery
            ||| m is CrossChainRequest
        },
{
}

/// Locality-table law: a message is answerable locally exactly when it is one
/// of the seven read-only, content-addressed query kinds.
pub proof fn lemma_local_exactly_content_addressed(m: RpcMessage)
    ensures
        m.spec_is_local_message() <==> {
            ||| m is VersionInfoQuery
            ||| m is GenesisConfigHashQuery
            ||| m is DownloadBlobContent
            ||| m is DownloadConfirmedBlock
            ||| m is BlobLastUsedBy
            ||| m is MissingBlobIds
            ||| m is DownloadCertificates
        },
{
}

/// Disjointness law: a locally answerable message never carries a target
/// chain, so the proxy's local short-circuit never loses routing information.
pub proof fn lemma_local_messages_have_no_target(m: RpcMessage)
    ensures
        m.spec_is_local_message() ==> m.spec_target_chain_id() is None,
{
}

/// Chain-addressed values law: for each chain-addressed kind the target is
/// the chain identity embedded in its payload.
pub proof fn lemma_target_chain_value(m: RpcMessage)
    ensures
        m matches RpcMessage::BlockProposal(proposal) ==> m.spec_target_chain_id() == Some(
            proposal.chain_id,
        ),
        m matches RpcMessage::LiteCertificate(request) ==> m.spec_target_chain_id() == Some(
            request.certificate.chain_id,
        ),
        m matches RpcMessage::TimeoutCertificate(request) ==> m.spec_target_chain_id() == Some(
            request.certificate.chain_id,
        ),
        m matches RpcMessage::ValidatedCertificate(request) ==> m.spec_target_chain_id() == Some(
            request.certificate.chain_id,
        ),
        m matches RpcMessage::ConfirmedCertificate(request) ==> m.spec_target_chain_id() == Some(
            request.certificate.chain_id,
        ),
        m matches RpcMessage::ChainInfoQuery(query) ==> m.spec_target_chain_id() == Some(
            query.chain_id,
        ),
        m matches RpcMessage::CrossChainRequest(request) ==> m.spec_target_chain_id() == Some(
            request.spec_target_chain_id(),
        ),
{
}

} // verus!
