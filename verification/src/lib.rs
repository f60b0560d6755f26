//! Resumable retrieval, hashing and round-by-round verification of the artifacts of a Powers of
//! Tau ceremony: the challenge and response files of its rounds, each round building on the
//! one before.
//!
//! The library decides and computes; it neither reads files nor talks to servers. A caller
//! that does both is told what to ask for ([`fetch`]), what a batch of transfers came to
//! ([`orchestrator`]), what the digest of an artifact is ([`hasher`]) and what the scan of the
//! rounds found ([`chain`]). The header of a partial response is parsed in [`content_range`],
//! and [`catalog`] holds where the artifacts are published.

pub mod catalog;
pub mod chain;
pub mod content_range;
pub mod convert;
pub mod fetch;
pub mod hasher;
pub mod orchestrator;
pub mod text;

pub use catalog::{
    challenge_paths, challenge_urls, parse_participant_name, response_paths, response_urls,
    urls_from_listing,
};
pub use chain::{
    digests_agree, embedded_challenge_hash, proof_bytes, Baseline, Chain, RoundEvidence,
    RoundStatus,
};
pub use content_range::{ContentRange, ContentRangeParseError};
pub use convert::into_array_unchecked;
pub use fetch::{
    advance_progress, plan_resume, range_header, FetchAction, FetchError, FetchEvent, FetchState,
};
pub use hasher::{calculate_hash, hash_in_chunks, StreamingHasher};
pub use orchestrator::{summarize, BatchReport, EntryOutcome, Probe};
pub use text::{parse_u64, FieldError};
