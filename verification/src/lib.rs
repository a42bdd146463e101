//! An OAuth-style credential record: access token, optional refresh token,
//! expiry bookkeeping, and associated account/project identifiers.
//!
//! The record is built once, from raw grant data, deriving an absolute
//! expiry instant from the relative lifetime the authorization server
//! reported. A key-value encoding of the record, with omission semantics
//! for the optional identifiers, lives in [`codec`].

pub mod codec;
pub mod token;
