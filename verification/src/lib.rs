//! Wire-format codec and bounded call builder for token-program extension
//! instructions.
//!
//! Each extension augments a base account (a mint or a token account) with a
//! tagged, optional data region.  Operating on an extension means encoding a
//! flat byte instruction together with a list of account descriptors, then
//! handing both to the host's cross-program-call capability.  This crate
//! provides the verified core of that layer:
//!
//! * the extension registry ([`registry`]) mapping numeric extension
//!   identities to their payload layout and owning base-account kind,
//! * the tagged-length-value scanner ([`tlv`]) that locates an extension's
//!   payload inside a base account's byte buffer,
//! * the optional-value codec and little-endian field writers ([`codec`]),
//! * the per-extension instruction-byte encoders and the closed instruction
//!   union with its decoder ([`wire`] and the per-extension modules),
//! * the bounded account-descriptor builder ([`accounts`]) with its multisig
//!   authority fan-out.
//!
//! The host invocation itself (an opaque, synchronous capability of the
//! ledger runtime) is outside this crate; callers hand it the bytes and the
//! descriptor list that these functions produce.

use vstd::prelude::*;

pub mod accounts;
pub mod codec;
pub mod confidential_transfer_fee;
pub mod interest_bearing_mint;
pub mod memo_transfer;
pub mod metadata_pointer;
pub mod non_transferable;
pub mod pausable;
pub mod permanent_delegate;
pub mod registry;
pub mod tlv;
pub mod transfer_fee;
pub mod transfer_hook;
pub mod wire;

verus! {

/// Number of bytes in an on-chain account address.
pub const ADDRESS_LEN: usize = 32;

/// An on-chain account address: a raw 32-byte public key.
pub type Address = [u8; 32];

} // verus!
