//! The non-transferable extension: tokens of such a mint can never be
//! transferred.  The extension carries no payload; its presence alone is
//! the state.

use vstd::prelude::*;

verus! {

use crate::Address;
use crate::accounts::AccountDescriptor;
use crate::accounts::writable_desc;
use crate::registry::BaseState;
use crate::registry::Extension;
use crate::registry::ExtensionType;
use crate::tlv::get_extension_from_bytes;
use crate::tlv::locate_extension;

/// Discriminator of initializing a non-transferable mint.
pub const INITIALIZE_NON_TRANSFERABLE_MINT: u8 = 32;

/// Payload of initializing a non-transferable mint: the discriminator byte
/// alone.
pub open spec fn spec_initialize_non_transferable_mint_data() -> Seq<u8> {
    seq![INITIALIZE_NON_TRANSFERABLE_MINT]
}

/// Encode the 1-byte payload of initializing a non-transferable mint.
pub fn initialize_non_transferable_mint_instruction_data() -> (r: Vec<u8>)
    ensures
        r@ == spec_initialize_non_transferable_mint_data(),
{
    let mut data: Vec<u8> = Vec::new();
    data.push(INITIALIZE_NON_TRANSFERABLE_MINT);
    proof {
        assert(data@ =~= spec_initialize_non_transferable_mint_data());
    }
    data
}

/// The single writable mint of initializing a non-transferable mint.
pub fn initialize_non_transferable_mint_account_metas(mint: &Address) -> (r: Vec<
    AccountDescriptor,
>)
    ensures
        r@ == seq![writable_desc(*mint)],
{
    let mut accounts: Vec<AccountDescriptor> = Vec::new();
    accounts.push(AccountDescriptor::writable(mint));
    proof {
        assert(accounts@ =~= seq![writable_desc(*mint)]);
    }
    accounts
}

/// Marker state of the non-transferable extension on a mint: an empty
/// record whose presence says the mint's tokens cannot move.
#[derive(Clone, Copy, Debug, PartialEq, Eq, Structural)]
pub struct NonTransferable;

impl Extension for NonTransferable {
    open spec fn ext_type() -> ExtensionType {
        ExtensionType::NonTransferable
    }

    open spec fn base_len() -> nat {
        0
    }

    open spec fn base_state() -> BaseState {
        BaseState::Mint
    }
}

impl NonTransferable {
    /// Whether a mint account's byte buffer carries the non-transferable
    /// marker: an entry of that type with an empty payload.
    pub fn from_bytes(acc_data: &[u8]) -> (r: Option<NonTransferable>)
        ensures
            r is Some <==> locate_extension(
                acc_data@,
                BaseState::Mint,
                ExtensionType::NonTransferable,
                Some(0),
            ) is Some,
    {
        match get_extension_from_bytes(
            acc_data,
            BaseState::Mint,
            ExtensionType::NonTransferable,
            0,
        ) {
            Some(_) => Some(NonTransferable),
            None => None,
        }
    }
}

/// Marker state of the non-transferable extension on a token account: its
/// presence says the account's tokens belong to a non-transferable mint.
#[derive(Clone, Copy, Debug, PartialEq, Eq, Structural)]
pub struct NonTransferableAccount;

impl Extension for NonTransferableAccount {
    open spec fn ext_type() -> ExtensionType {
        ExtensionType::NonTransferableAccount
    }

    open spec fn base_len() -> nat {
        0
    }

    open spec fn base_state() -> BaseState {
        BaseState::TokenAccount
    }
}

impl NonTransferableAccount {
    /// Whether a token account's byte buffer carries the non-transferable
    /// marker: an entry of that type with an empty payload.
    pub fn from_bytes(acc_data: &[u8]) -> (r: Option<NonTransferableAccount>)
        ensures
            r is Some <==> locate_extension(
                acc_data@,
                BaseState::TokenAccount,
                ExtensionType::NonTransferableAccount,
                Some(0),
            ) is Some,
    {
        match get_extension_from_bytes(
            acc_data,
            BaseState::TokenAccount,
            ExtensionType::NonTransferableAccount,
            0,
        ) {
            Some(_) => Some(NonTransferableAccount),
            None => None,
        }
    }
}

} // verus!
