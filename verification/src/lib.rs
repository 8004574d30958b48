//! Utilities for working with the Mojang public API surface: the blocked
//! servers matching engine, user profile and texture data, sales metrics
//! selection, and username validation.
//!
//! The heart of the crate is the blocked servers engine: given a set of
//! one-way pattern digests, decide whether a queried address (hostname or
//! IPv4 literal) matches any blocked pattern, from most specific to least.

mod address;
mod blocked_servers;
mod digest;
mod error;
mod profile;
mod stats;
mod user;

pub use blocked_servers::candidates_spec;
pub use blocked_servers::first_blocked;
pub use blocked_servers::host_candidate;
pub use blocked_servers::ipv4_candidate;
pub use blocked_servers::lemma_exact_match;
pub use blocked_servers::lemma_first_blocked_characterization;
pub use blocked_servers::lemma_first_candidate_is_address;
pub use blocked_servers::lemma_query_deterministic;
pub use blocked_servers::pattern_blocked;
pub use blocked_servers::BlockedServers;

pub use address::decimal_value;
pub use address::digit_value;
pub use address::is_digit_char;
pub use address::is_ipv4;
pub use address::is_ipv4_spec;
pub use address::is_u8_octet;
pub use address::join_dots_spec;
pub use address::split_dots;
pub use address::split_dots_spec;

pub use digest::compute_pattern_hash;
pub use digest::hex_digits;
pub use digest::hex_lower_of;
pub use digest::pattern_hash;
pub use digest::sha1_of;

pub use profile::slim_model_spec;
pub use profile::CapeData;
pub use profile::Profile;
pub use profile::ProfileProperty;
pub use profile::SkinData;
pub use profile::SkinMetadata;
pub use profile::Textures;
pub use profile::TexturesEntry;
pub use profile::UsernameEntry;
pub use stats::metric_keys_spec;
pub use stats::Metrics;
pub use stats::Payload;

pub use error::UsernameError;
pub use user::first_invalid_char;
pub use user::valid_username_char;
pub use user::validate_username;
pub use user::validate_username_spec;
pub use user::User;
