//! Typed-extraction tests: round trips, error dominance, and protocol
//! violations, for every expected response type.

use rpc_message::data::{
    BlobContent, BlobId, ChainId, ChainInfoResponse, ConfirmedBlock, ConfirmedBlockCertificate,
    CryptoHash, NodeError, VersionInfo,
};
use rpc_message::message::RpcMessage;

fn hash(seed: u64) -> CryptoHash {
    CryptoHash { part0: seed, part1: seed + 1, part2: seed + 2, part3: seed + 3 }
}

fn chain(seed: u64) -> ChainId {
    ChainId(hash(seed))
}

fn remote(message: &str) -> NodeError {
    NodeError::Remote { message: String::from(message) }
}

#[test]
fn round_trip_chain_info_response() {
    let response = ChainInfoResponse { chain_id: chain(1), next_block_height: 17 };
    let wrapped = RpcMessage::wrap_chain_info_response(response.clone());
    assert_eq!(wrapped.into_chain_info_response(), Ok(response));
}

#[test]
fn round_trip_version_info() {
    let version = VersionInfo {
        crate_version: String::from("2.3.4"),
        git_commit: String::from("deadbeef"),
    };
    let wrapped = RpcMessage::wrap_version_info(version.clone());
    assert_eq!(wrapped.into_version_info(), Ok(version));
}

#[test]
fn round_trip_blob_content() {
    let blob = BlobContent { bytes: vec![0, 255, 128, 7] };
    let wrapped = RpcMessage::wrap_blob_content(blob.clone());
    assert_eq!(wrapped.into_blob_content(), Ok(blob));
}

#[test]
fn round_trip_confirmed_block() {
    let block = ConfirmedBlock { chain_id: chain(2), height: 99 };
    let wrapped = RpcMessage::wrap_confirmed_block(block.clone());
    assert_eq!(wrapped.into_confirmed_block(), Ok(block));
}

#[test]
fn round_trip_certificates() {
    let certificates = vec![
        ConfirmedBlockCertificate { chain_id: chain(3), height: 1, hash: hash(30) },
        ConfirmedBlockCertificate { chain_id: chain(4), height: 2, hash: hash(40) },
    ];
    let wrapped = RpcMessage::wrap_certificates(certificates.clone());
    assert_eq!(wrapped.into_certificates(), Ok(certificates));
}

#[test]
fn round_trip_blob_last_used_by_hash() {
    let last_use = hash(5);
    let wrapped = RpcMessage::BlobLastUsedByResponse(last_use);
    assert_eq!(wrapped.into_hash(), Ok(last_use));
}

#[test]
fn round_trip_genesis_config_hash() {
    let genesis = hash(6);
    let wrapped = RpcMessage::GenesisConfigHashResponse(genesis);
    assert_eq!(wrapped.into_hash(), Ok(genesis));
}

#[test]
fn round_trip_missing_blob_ids() {
    let blob_ids = vec![BlobId { hash: hash(7) }, BlobId { hash: hash(8) }];
    let wrapped = RpcMessage::MissingBlobIdsResponse(blob_ids.clone());
    assert_eq!(wrapped.into_blob_ids(), Ok(blob_ids));
}

#[test]
fn error_dominates_every_extractor() {
    let error = remote("invalid certificate");
    let wrap = |e: NodeError| RpcMessage::wrap_error(e);
    assert_eq!(wrap(error.clone()).into_chain_info_response(), Err(error.clone()));
    assert_eq!(wrap(error.clone()).into_version_info(), Err(error.clone()));
    assert_eq!(wrap(error.clone()).into_blob_content(), Err(error.clone()));
    assert_eq!(wrap(error.clone()).into_confirmed_block(), Err(error.clone()));
    assert_eq!(wrap(error.clone()).into_certificates(), Err(error.clone()));
    assert_eq!(wrap(error.clone()).into_hash(), Err(error.clone()));
    assert_eq!(wrap(error.clone()).into_blob_ids(), Err(error));
}

#[test]
fn unexpected_message_dominated_by_remote_error() {
    // Even the unexpected-message fault travels as a remote error when it is
    // what the handler reported.
    let error = NodeError::UnexpectedMessage;
    let wrapped = RpcMessage::wrap_error(error.clone());
    assert_eq!(wrapped.into_version_info(), Err(error));
}

#[test]
fn mismatched_variant_yields_unexpected_message() {
    let vote_envelope = || {
        RpcMessage::Vote(rpc_message::data::LiteVote { chain_id: chain(9), height: 3 })
    };
    assert_eq!(vote_envelope().into_chain_info_response(), Err(NodeError::UnexpectedMessage));
    assert_eq!(vote_envelope().into_version_info(), Err(NodeError::UnexpectedMessage));
    assert_eq!(vote_envelope().into_blob_content(), Err(NodeError::UnexpectedMessage));
    assert_eq!(vote_envelope().into_confirmed_block(), Err(NodeError::UnexpectedMessage));
    assert_eq!(vote_envelope().into_certificates(), Err(NodeError::UnexpectedMessage));
    assert_eq!(vote_envelope().into_hash(), Err(NodeError::UnexpectedMessage));
    assert_eq!(vote_envelope().into_blob_ids(), Err(NodeError::UnexpectedMessage));
}

#[test]
fn request_variant_does_not_satisfy_response_extractor() {
    // The inbound missing-blob-identifiers query is not the response that the
    // blob-identifier extractor expects.
    let query = RpcMessage::MissingBlobIds(vec![BlobId { hash: hash(10) }]);
    assert_eq!(query.into_blob_ids(), Err(NodeError::UnexpectedMessage));
}

#[test]
fn download_blob_content_scenario() {
    let blob = BlobId { hash: hash(11) };
    let request = RpcMessage::DownloadBlobContent(blob);
    assert_eq!(request.target_chain_id(), None);
    assert!(request.is_local_message());
    let content = BlobContent { bytes: vec![42, 43] };
    let response = RpcMessage::wrap_blob_content(content.clone());
    assert_eq!(response.into_blob_content(), Ok(content));
}

#[test]
fn remote_error_wins_over_blob_content_expectation() {
    let not_found = remote("NotFound");
    let wrapped = RpcMessage::wrap_error(not_found.clone());
    let extracted = wrapped.into_blob_content();
    assert_eq!(extracted, Err(not_found));
    assert_ne!(extracted, Err(NodeError::UnexpectedMessage));
}

#[test]
fn version_info_response_is_unexpected_for_chain_info() {
    let version = VersionInfo {
        crate_version: String::from("1.0.0"),
        git_commit: String::from("0123abcd"),
    };
    let wrapped = RpcMessage::wrap_version_info(version);
    assert_eq!(wrapped.into_chain_info_response(), Err(NodeError::UnexpectedMessage));
}

#[test]
fn extraction_consumes_the_envelope_once() {
    let response = ChainInfoResponse { chain_id: chain(12), next_block_height: 1 };
    let wrapped = RpcMessage::wrap_chain_info_response(response.clone());
    let extracted = wrapped.into_chain_info_response();
    assert_eq!(extracted, Ok(response));
}
