//! The closed message envelope and its routing and extraction functions.

use vstd::prelude::*;

use crate::data::{
    BlobContent, BlobId, BlockProposal, ChainId, ChainInfoQuery, ChainInfoResponse,
    ConfirmedBlock, ConfirmedBlockCertificate, CrossChainRequest, CryptoHash,
    HandleConfirmedCertificateRequest, HandleLiteCertRequest,
    HandleTimeoutCertificateRequest, HandleValidatedCertificateRequest, LiteVote, NodeError,
    VersionInfo,
};

verus! {

/// The closed set of messages exchanged between clients, proxies, and
/// validators. Exactly one variant is active at a time, and each variant
/// exclusively owns its payload.
#[derive(Clone, Debug, PartialEq, Eq)]
pub enum RpcMessage {
    // Inbound (client or validator to validator)
    BlockProposal(BlockProposal),
    TimeoutCertificate(HandleTimeoutCertificateRequest),
    ValidatedCertificate(HandleValidatedCertificateRequest),
    ConfirmedCertificate(HandleConfirmedCertificateRequest),
    LiteCertificate(HandleLiteCertRequest),
    ChainInfoQuery(ChainInfoQuery),
    DownloadBlobContent(BlobId),
    DownloadConfirmedBlock(CryptoHash),
    DownloadCertificates(Vec<CryptoHash>),
    BlobLastUsedBy(BlobId),
    MissingBlobIds(Vec<BlobId>),
    VersionInfoQuery,
    GenesisConfigHashQuery,
    // Outbound (validator to caller)
    Vote(LiteVote),
    ChainInfoResponse(ChainInfoResponse),
    Error(NodeError),
    VersionInfoResponse(VersionInfo),
    GenesisConfigHashResponse(CryptoHash),
    DownloadBlobContentResponse(BlobContent),
    DownloadConfirmedBlockResponse(ConfirmedBlock),
    DownloadCertificatesResponse(Vec<ConfirmedBlockCertificate>),
    BlobLastUsedByResponse(CryptoHash),
    MissingBlobIdsResponse(Vec<BlobId>),
    // Internal to a validator (fire-and-forget)
    CrossChainRequest(CrossChainRequest),
}

impl RpcMessage {
    /// The chain a message targets: the embedded chain identity of the six
    /// chain-addressed inbound kinds, the recipient of a cross-chain request,
    /// and nothing for every content-addressed query and every response.
    pub open spec fn spec_target_chain_id(self) -> Option<ChainId> {
        match self {
            RpcMessage::BlockProposal(proposal) => Some(proposal.chain_id),
            RpcMessage::LiteCertificate(request) => Some(request.certificate.chain_id),
            RpcMessage::TimeoutCertificate(request) => Some(request.certificate.chain_id),
            RpcMessage::ValidatedCertificate(request) => Some(request.certificate.chain_id),
            RpcMessage::ConfirmedCertificate(request) => Some(request.certificate.chain_id),
            RpcMessage::ChainInfoQuery(query) => Some(query.chain_id),
            RpcMessage::CrossChainRequest(request) => Some(request.spec_target_chain_id()),
            _ => None,
        }
    }

    /// Obtains the [`ChainId`] of the chain targeted by this message, if
    /// there is one. Only chain-addressed inbound messages have target chains.
    pub fn target_chain_id(&self) -> (r: Option<ChainId>)
        ensures
            r == self.spec_target_chain_id(),
    {
        match self {
            RpcMessage::BlockProposal(proposal) => Some(proposal.chain_id),
            RpcMessage::LiteCertificate(request) => Some(request.certificate.chain_id),
            RpcMessage::TimeoutCertificate(request) => Some(request.certificate.chain_id),
            RpcMessage::ValidatedCertificate(request) => Some(request.certificate.chain_id),
            RpcMessage::ConfirmedCertificate(request) => Some(request.certificate.chain_id),
            RpcMessage::ChainInfoQuery(query) => Some(query.chain_id),
            RpcMessage::CrossChainRequest(request) => Some(request.target_chain_id()),
            RpcMessage::Vote(_)
            | RpcMessage::Error(_)
            | RpcMessage::ChainInfoResponse(_)
            | RpcMessage::VersionInfoQuery
            | RpcMessage::VersionInfoResponse(_)
            | RpcMessage::GenesisConfigHashQuery
            | RpcMessage::GenesisConfigHashResponse(_)
            | RpcMessage::DownloadBlobContent(_)
            | RpcMessage::DownloadBlobContentResponse(_)
            | RpcMessage::DownloadConfirmedBlock(_)
            | RpcMessage::DownloadConfirmedBlockResponse(_)
            | RpcMessage::DownloadCertificates(_)
            | RpcMessage::BlobLastUsedBy(_)
            | RpcMessage::BlobLastUsedByResponse(_)
            | RpcMessage::MissingBlobIds(_)
            | RpcMessage::MissingBlobIdsResponse(_)
            | RpcMessage::DownloadCertificatesResponse(_) => None,
        }
    }

    /// Whether a proxy can answer this message locally: true exactly for the
    /// seven read-only, content-addressed query kinds.
    pub open spec fn spec_is_local_message(self) -> bool {
        match self {
            RpcMessage::VersionInfoQuery
            | RpcMessage::GenesisConfigHashQuery
            | RpcMessage::DownloadBlobContent(_)
            | RpcMessage::DownloadConfirmedBlock(_)
            | RpcMessage::BlobLastUsedBy(_)
            | RpcMessage::MissingBlobIds(_)
            | RpcMessage::DownloadCertificates(_) => true,
            _ => false,
        }
    }

    /// Whether this message is "local", i.e. will be executed locally on the
    /// proxy, or if it will be proxied to the server.
    pub fn is_local_message(&self) -> (r: bool)
        ensures
            r == self.spec_is_local_message(),
    {
        match self {
            RpcMessage::VersionInfoQuery
            | RpcMessage::GenesisConfigHashQuery
            | RpcMessage::DownloadBlobContent(_)
            | RpcMessage::DownloadConfirmedBlock(_)
            | RpcMessage::BlobLastUsedBy(_)
            | RpcMessage::MissingBlobIds(_)
            | RpcMessage::DownloadCertificates(_) => true,
            RpcMessage::BlockProposal(_)
            | RpcMessage::LiteCertificate(_)
            | RpcMessage::TimeoutCertificate(_)
            | RpcMessage::ValidatedCertificate(_)
            | RpcMessage::ConfirmedCertificate(_)
            | RpcMessage::ChainInfoQuery(_)
            | RpcMessage::CrossChainRequest(_)
            | RpcMessage::Vote(_)
            | RpcMessage::Error(_)
            | RpcMessage::ChainInfoResponse(_)
            | RpcMessage::VersionInfoResponse(_)
            | RpcMessage::GenesisConfigHashResponse(_)
            | RpcMessage::DownloadBlobContentResponse(_)
            | RpcMessage::DownloadConfirmedBlockResponse(_)
            | RpcMessage::BlobLastUsedByResponse(_)
            | RpcMessage::MissingBlobIdsResponse(_)
            | RpcMessage::DownloadCertificatesResponse(_) => false,
        }
    }
    /// Wraps a block proposal into its envelope variant.
    pub fn wrap_block_proposal(proposal: BlockProposal) -> (m: RpcMessage)
        ensures
            m == RpcMessage::BlockProposal(proposal),
    {
        RpcMessage::BlockProposal(proposal)
    }

    /// Wraps a timeout-certificate request into its envelope variant.
    pub fn wrap_timeout_certificate(request: HandleTimeoutCertificateRequest) -> (m: RpcMessage)
        ensures
            m == RpcMessage::TimeoutCertificate(request),
    {
        RpcMessage::TimeoutCertificate(request)
    }

    /// Wraps a validated-certificate request into its envelope variant.
    pub fn wrap_validated_certificate(request: HandleValidatedCertificateRequest) -> (m: RpcMessage)
        ensures
            m == RpcMessage::ValidatedCertificate(request),
    {
        RpcMessage::ValidatedCertificate(request)
    }

    /// Wraps a confirmed-certificate request into its envelope variant.
    pub fn wrap_confirmed_certificate(request: HandleConfirmedCertificateRequest) -> (m: RpcMessage)
        ensures
            m == RpcMessage::ConfirmedCertificate(request),
    {
        RpcMessage::ConfirmedCertificate(request)
    }

    /// Wraps a lite-certificate request into its envelope variant.
    pub fn wrap_lite_certificate(request: HandleLiteCertRequest) -> (m: RpcMessage)
        ensures
            m == RpcMessage::LiteCertificate(request),
    {
        RpcMessage::LiteCertificate(request)
    }

    /// Wraps a chain-info query into its envelope variant.
    pub fn wrap_chain_info_query(query: ChainInfoQuery) -> (m: RpcMessage)
        ensures
            m == RpcMessage::ChainInfoQuery(query),
    {
        RpcMessage::ChainInfoQuery(query)
    }

    /// Wraps a certificate-download request into its envelope variant.
    pub fn wrap_download_certificates(hashes: Vec<CryptoHash>) -> (m: RpcMessage)
        ensures
            m == RpcMessage::DownloadCertificates(hashes),
    {
        RpcMessage::DownloadCertificates(hashes)
    }

    /// Wraps a single vote into its envelope variant.
    pub fn wrap_vote(vote: LiteVote) -> (m: RpcMessage)
        ensures
            m == RpcMessage::Vote(vote),
    {
        RpcMessage::Vote(vote)
    }

    /// Wraps a chain-info response into its envelope variant.
    pub fn wrap_chain_info_response(response: ChainInfoResponse) -> (m: RpcMessage)
        ensures
            m == RpcMessage::ChainInfoResponse(response),
    {
        RpcMessage::ChainInfoResponse(response)
    }

    /// Wraps a domain error into the error envelope variant.
    pub fn wrap_error(error: NodeError) -> (m: RpcMessage)
        ensures
            m == RpcMessage::Error(error),
    {
        RpcMessage::Error(error)
    }

    /// Wraps a cross-chain request into its envelope variant.
    pub fn wrap_cross_chain_request(request: CrossChainRequest) -> (m: RpcMessage)
        ensures
            m == RpcMessage::CrossChainRequest(request),
    {
        RpcMessage::CrossChainRequest(request)
    }

    /// Wraps a version descriptor into its response envelope variant.
    pub fn wrap_version_info(version_info: VersionInfo) -> (m: RpcMessage)
        ensures
            m == RpcMessage::VersionInfoResponse(version_info),
    {
        RpcMessage::VersionInfoResponse(version_info)
    }

    /// Wraps blob content into its response envelope variant.
    pub fn wrap_blob_content(blob: BlobContent) -> (m: RpcMessage)
        ensures
            m == RpcMessage::DownloadBlobContentResponse(blob),
    {
        RpcMessage::DownloadBlobContentResponse(blob)
    }

    /// Wraps a confirmed block into its response envelope variant.
    pub fn wrap_confirmed_block(block: ConfirmedBlock) -> (m: RpcMessage)
        ensures
            m == RpcMessage::DownloadConfirmedBlockResponse(block),
    {
        RpcMessage::DownloadConfirmedBlockResponse(block)
    }

    /// Wraps a list of confirmed-block certificates into its response
    /// envelope variant.
    pub fn wrap_certificates(certificates: Vec<ConfirmedBlockCertificate>) -> (m: RpcMessage)
        ensures
            m == RpcMessage::DownloadCertificatesResponse(certificates),
    {
        RpcMessage::DownloadCertificatesResponse(certificates)
    }

    /// What extracting a [`ChainInfoResponse`] from an envelope yields.
    pub open spec fn spec_extract_chain_info_response(self) -> Result<
        ChainInfoResponse,
        NodeError,
    > {
        match self {
            RpcMessage::ChainInfoResponse(response) => Ok(response),
            RpcMessage::Error(error) => Err(error),
            _ => Err(NodeError::UnexpectedMessage),
        }
    }

    /// Consumes the envelope, expecting a chain-info response.
    pub fn into_chain_info_response(self) -> (r: Result<ChainInfoResponse, NodeError>)
        ensures
            r == self.spec_extract_chain_info_response(),
    {
        match self {
            RpcMessage::ChainInfoResponse(response) => Ok(response),
            RpcMessage::Error(error) => Err(error),
            _ => Err(NodeError::UnexpectedMessage),
        }
    }

    /// What extracting a [`VersionInfo`] from an envelope yields.
    pub open spec fn spec_extract_version_info(self) -> Result<VersionInfo, NodeError> {
        match self {
            RpcMessage::VersionInfoResponse(version_info) => Ok(version_info),
            RpcMessage::Error(error) => Err(error),
            _ => Err(NodeError::UnexpectedMessage),
        }
    }

    /// Consumes the envelope, expecting a version-info response.
    pub fn into_version_info(self) -> (r: Result<VersionInfo, NodeError>)
        ensures
            r == self.spec_extract_version_info(),
    {
        match self {
            RpcMessage::VersionInfoResponse(version_info) => Ok(version_info),
            RpcMessage::Error(error) => Err(error),
            _ => Err(NodeError::UnexpectedMessage),
        }
    }

    /// What extracting a [`BlobContent`] from an envelope yields.
    pub open spec fn spec_extract_blob_content(self) -> Result<BlobContent, NodeError> {
        match self {
            RpcMessage::DownloadBlobContentResponse(blob) => Ok(blob),
            RpcMessage::Error(error) => Err(error),
            _ => Err(NodeError::UnexpectedMessage),
        }
    }

    /// Consumes the envelope, expecting a blob-content response.
    pub fn into_blob_content(self) -> (r: Result<BlobContent, NodeError>)
        ensures
            r == self.spec_extract_blob_content(),
    {
        match self {
            RpcMessage::DownloadBlobContentResponse(blob) => Ok(blob),
            RpcMessage::Error(error) => Err(error),
            _ => Err(NodeError::UnexpectedMessage),
        }
    }

    /// What extracting a [`ConfirmedBlock`] from an envelope yields.
    pub open spec fn spec_extract_confirmed_block(self) -> Result<ConfirmedBlock, NodeError> {
        match self {
            RpcMessage::DownloadConfirmedBlockResponse(block) => Ok(block),
            RpcMessage::Error(error) => Err(error),
            _ => Err(NodeError::UnexpectedMessage),
        }
    }

    /// Consumes the envelope, expecting a confirmed-block response.
    pub fn into_confirmed_block(self) -> (r: Result<ConfirmedBlock, NodeError>)
        ensures
            r == self.spec_extract_confirmed_block(),
    {
        match self {
            RpcMessage::DownloadConfirmedBlockResponse(block) => Ok(block),
            RpcMessage::Error(error) => Err(error),
            _ => Err(NodeError::UnexpectedMessage),
        }
    }

    /// What extracting a certificate list from an envelope yields.
    pub open spec fn spec_extract_certificates(self) -> Result<
        Vec<ConfirmedBlockCertificate>,
        NodeError,
    > {
        match self {
            RpcMessage::DownloadCertificatesResponse(certificates) => Ok(certificates),
            RpcMessage::Error(error) => Err(error),
            _ => Err(NodeError::UnexpectedMessage),
        }
    }

    /// Consumes the envelope, expecting a certificate-download response.
    pub fn into_certificates(self) -> (r: Result<Vec<ConfirmedBlockCertificate>, NodeError>)
        ensures
            r == self.spec_extract_certificates(),
    {
        match self {
            RpcMessage::DownloadCertificatesResponse(certificates) => Ok(certificates),
            RpcMessage::Error(error) => Err(error),
            _ => Err(NodeError::UnexpectedMessage),
        }
    }

    /// What extracting a single hash from an envelope yields. One hash
    /// extractor serves both hash-valued responses.
    pub open spec fn spec_extract_hash(self) -> Result<CryptoHash, NodeError> {
        match self {
            RpcMessage::BlobLastUsedByResponse(hash) => Ok(hash),
            RpcMessage::GenesisConfigHashResponse(hash) => Ok(hash),
            RpcMessage::Error(error) => Err(error),
            _ => Err(NodeError::UnexpectedMessage),
        }
    }

    /// Consumes the envelope, expecting one of the two hash-valued responses:
    /// the last use of a blob, or the genesis configuration hash.
    pub fn into_hash(self) -> (r: Result<CryptoHash, NodeError>)
        ensures
            r == self.spec_extract_hash(),
    {
        match self {
            RpcMessage::BlobLastUsedByResponse(hash) => Ok(hash),
            RpcMessage::GenesisConfigHashResponse(hash) => Ok(hash),
            RpcMessage::Error(error) => Err(error),
            _ => Err(NodeError::UnexpectedMessage),
        }
    }

    /// What extracting a list of blob identifiers from an envelope yields.
    pub open spec fn spec_extract_blob_ids(self) -> Result<Vec<BlobId>, NodeError> {
        match self {
            RpcMessage::MissingBlobIdsResponse(blob_ids) => Ok(blob_ids),
            RpcMessage::Error(error) => Err(error),
            _ => Err(NodeError::UnexpectedMessage),
        }
    }

    /// Consumes the envelope, expecting a missing-blob-identifiers response.
    pub fn into_blob_ids(self) -> (r: Result<Vec<BlobId>, NodeError>)
        ensures
            r == self.spec_extract_blob_ids(),
    {
        match self {
            RpcMessage::MissingBlobIdsResponse(blob_ids) => Ok(blob_ids),
            RpcMessage::Error(error) => Err(error),
            _ => Err(NodeError::UnexpectedMessage),
        }
    }
}

} // verus!
