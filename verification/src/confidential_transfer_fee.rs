//! The confidential-transfer-fee extension: withheld fees are encrypted
//! under the withdraw authority's encryption key.

use vstd::prelude::*;

verus! {

use crate::Address;
use crate::accounts::AccountDescriptor;
use crate::accounts::readonly_signer_desc;
use crate::accounts::writable_desc;
use crate::codec::opt_view;
use crate::codec::read_array;
use crate::codec::write_address;
use crate::codec::write_optional_nonzero_pubkey;
use crate::codec::zero_fill_option_bytes;
use crate::registry::BaseState;
use crate::registry::Extension;
use crate::registry::ExtensionType;
use crate::tlv::get_extension_from_bytes;
use crate::tlv::locate_extension;

/// Discriminator of the confidential-transfer-fee extension instruction
/// family.
pub const CONFIDENTIAL_TRANSFER_FEE_EXTENSION: u8 = 37;

/// Sub-discriminator of initializing the confidential-transfer-fee
/// configuration.
pub const INITIALIZE_CONFIDENTIAL_TRANSFER_FEE_CONFIG: u8 = 0;

/// Byte length of an encryption public key.
pub const ELGAMAL_PUBKEY_LEN: usize = 32;

/// Byte length of an encrypted balance.
pub const ELGAMAL_CIPHERTEXT_LEN: usize = 64;

/// Byte length of the `ConfidentialTransferFeeConfig` extension record.
pub const CONFIDENTIAL_TRANSFER_FEE_CONFIG_LEN: usize = 129;

/// Payload of initializing the confidential-transfer-fee configuration:
/// the optional authority zero-filled, then the withdraw authority's
/// encryption key, 66 bytes.
pub open spec fn spec_initialize_confidential_transfer_fee_config_data(
    authority: Option<Seq<u8>>,
    withdraw_withheld_authority_elgamal_pubkey: Seq<u8>,
) -> Seq<u8> {
    seq![CONFIDENTIAL_TRANSFER_FEE_EXTENSION, INITIALIZE_CONFIDENTIAL_TRANSFER_FEE_CONFIG]
        + zero_fill_option_bytes(authority) + withdraw_withheld_authority_elgamal_pubkey
}

/// Encode the 66-byte payload of initializing the confidential-transfer-fee
/// configuration.
pub fn initialize_confidential_transfer_fee_config_instruction_data(
    authority: Option<&Address>,
    withdraw_withheld_authority_elgamal_pubkey: &[u8; 32],
) -> (r: Vec<u8>)
    ensures
        r@ == spec_initialize_confidential_transfer_fee_config_data(
            opt_view(authority),
            withdraw_withheld_authority_elgamal_pubkey@,
        ),
        r@.len() == 66,
{
    let mut data: Vec<u8> = Vec::new();
    data.push(CONFIDENTIAL_TRANSFER_FEE_EXTENSION);
    data.push(INITIALIZE_CONFIDENTIAL_TRANSFER_FEE_CONFIG);
    write_optional_nonzero_pubkey(&mut data, authority);
    write_address(&mut data, withdraw_withheld_authority_elgamal_pubkey);
    proof {
        assert(zero_fill_option_bytes(opt_view(authority)).len() == 32) by {
            if authority is Some {
                assert(opt_view(authority) matches Some(a) && a.len() == 32);
            }
        }
        assert(data@ =~= spec_initialize_confidential_transfer_fee_config_data(
            opt_view(authority),
            withdraw_withheld_authority_elgamal_pubkey@,
        ));
    }
    data
}

/// Descriptors of initializing the confidential-transfer-fee configuration:
/// the writable mint and the signing authority.
pub fn initialize_confidential_transfer_fee_config_account_metas(
    mint: &Address,
    authority: &Address,
) -> (r: Vec<AccountDescriptor>)
    ensures
        r@ == seq![writable_desc(*mint), readonly_signer_desc(*authority)],
{
    let mut accounts: Vec<AccountDescriptor> = Vec::new();
    accounts.push(AccountDescriptor::writable(mint));
    accounts.push(AccountDescriptor::readonly_signer(authority));
    proof {
        assert(accounts@ =~= seq![writable_desc(*mint), readonly_signer_desc(*authority)]);
    }
    accounts
}

/// State of the confidential-transfer-fee configuration extension on a
/// mint.
#[derive(Clone, Copy, Debug, PartialEq, Eq)]
pub struct ConfidentialTransferFeeConfig {
    /// Optional authority to set the withdraw authority's encryption key.
    pub authority: Address,
    /// Withheld fees must be encrypted under this key.
    pub withdraw_withheld_authority_elgamal_pubkey: [u8; 32],
    /// When zero, harvesting withheld tokens to the mint is rejected.
    pub harvest_to_mint_enabled: u8,
    /// Encrypted withheld fees already moved to the mint for withdrawal.
    pub withheld_amount: [u8; 64],
}

impl Extension for ConfidentialTransferFeeConfig {
    open spec fn ext_type() -> ExtensionType {
        ExtensionType::ConfidentialTransferFeeConfig
    }

    open spec fn base_len() -> nat {
        129
    }

    open spec fn base_state() -> BaseState {
        BaseState::Mint
    }
}

/// A `ConfidentialTransferFeeConfig` whose fields are the given payload
/// bytes, split at the record's fixed offsets.
pub open spec fn confidential_transfer_fee_config_fields(
    c: ConfidentialTransferFeeConfig,
    b: Seq<u8>,
) -> bool {
    &&& c.authority@ == b.subrange(0, 32)
    &&& c.withdraw_withheld_authority_elgamal_pubkey@ == b.subrange(32, 64)
    &&& c.harvest_to_mint_enabled == b[64]
    &&& c.withheld_amount@ == b.subrange(65, 129)
}

impl ConfidentialTransferFeeConfig {
    /// The confidential-transfer-fee configuration carried by a mint
    /// account's byte buffer, present exactly when the extension region
    /// holds an entry of that type and the declared length.
    pub fn from_bytes(acc_data: &[u8]) -> (r: Option<ConfidentialTransferFeeConfig>)
        ensures
            r is Some <==> locate_extension(
                acc_data@,
                BaseState::Mint,
                ExtensionType::ConfidentialTransferFeeConfig,
                Some(CONFIDENTIAL_TRANSFER_FEE_CONFIG_LEN as int),
            ) is Some,
            r matches Some(c) ==> (locate_extension(
                acc_data@,
                BaseState::Mint,
                ExtensionType::ConfidentialTransferFeeConfig,
                Some(CONFIDENTIAL_TRANSFER_FEE_CONFIG_LEN as int),
            ) matches Some(p) && confidential_transfer_fee_config_fields(
                c,
                acc_data@.subrange(p.0, p.0 + p.1),
            )),
    {
        match get_extension_from_bytes(
            acc_data,
            BaseState::Mint,
            ExtensionType::ConfidentialTransferFeeConfig,
            CONFIDENTIAL_TRANSFER_FEE_CONFIG_LEN,
        ) {
            Some(payload) => {
                let config = ConfidentialTransferFeeConfig {
                    authority: read_array(payload, 0),
                    withdraw_withheld_authority_elgamal_pubkey: read_array(payload, 32),
                    harvest_to_mint_enabled: payload[64],
                    withheld_amount: read_array(payload, 65),
                };
                Some(config)
            },
            None => None,
        }
    }
}

/// State of the confidential-transfer-fee amount extension on a token
/// account.
#[derive(Clone, Copy, Debug, PartialEq, Eq)]
pub struct ConfidentialTransferFeeAmount {
    /// Encrypted fees withheld during confidential transfers, waiting to be
    /// harvested to the mint.
    pub withheld_amount: [u8; 64],
}

impl Extension for ConfidentialTransferFeeAmount {
    open spec fn ext_type() -> ExtensionType {
        ExtensionType::ConfidentialTransferFeeAmount
    }

    open spec fn base_len() -> nat {
        64
    }

    open spec fn base_state() -> BaseState {
        BaseState::TokenAccount
    }
}

impl ConfidentialTransferFeeAmount {
    /// The encrypted withheld amount carried by a token account's byte
    /// buffer, present exactly when the extension region holds an entry of
    /// that type and the declared length.
    pub fn from_bytes(acc_data: &[u8]) -> (r: Option<ConfidentialTransferFeeAmount>)
        ensures
            r is Some <==> locate_extension(
                acc_data@,
                BaseState::TokenAccount,
                ExtensionType::ConfidentialTransferFeeAmount,
                Some(ELGAMAL_CIPHERTEXT_LEN as int),
            ) is Some,
            r matches Some(a) ==> (locate_extension(
                acc_data@,
                BaseState::TokenAccount,
                ExtensionType::ConfidentialTransferFeeAmount,
                Some(ELGAMAL_CIPHERTEXT_LEN as int),
            ) matches Some(p) && a.withheld_amount@ == acc_data@.subrange(p.0, p.0 + p.1)),
    {
        match get_extension_from_bytes(
            acc_data,
            BaseState::TokenAccount,
            ExtensionType::ConfidentialTransferFeeAmount,
            ELGAMAL_CIPHERTEXT_LEN,
        ) {
            Some(payload) => {
                let withheld_amount: [u8; 64] = read_array(payload, 0);
                proof {
                    assert(payload@.subrange(0, 64) =~= payload@);
                }
                Some(ConfidentialTransferFeeAmount { withheld_amount })
            },
            None => None,
        }
    }
}

/// An encrypted withheld balance reported for one account.
#[derive(Clone, Copy, Debug, PartialEq, Eq)]
pub struct WithheldTokensInfo {
    /// The encrypted available balance.
    pub withheld_amount: [u8; 64],
}

} // verus!
