//! The transfer-fee extension family: instruction-byte encoders, account
//! descriptor builders, and the on-chain state records.

use vstd::prelude::*;

verus! {

use vstd::bytes::lemma_auto_spec_u16_to_from_le_bytes;
use vstd::bytes::lemma_auto_spec_u64_to_from_le_bytes;
use vstd::bytes::spec_u16_to_le_bytes;
use vstd::bytes::spec_u64_to_le_bytes;

use crate::Address;
use crate::accounts::AccountDescriptor;
use crate::accounts::BuildError;
use crate::accounts::MAX_CPI_ACCOUNTS;
use crate::accounts::MAX_MULTISIG_SIGNERS;
use crate::accounts::authority_fanout;
use crate::accounts::push_authority_fanout;
use crate::accounts::push_writable_accounts;
use crate::accounts::readonly_desc;
use crate::accounts::writable_desc;
use crate::accounts::writable_descs;
use crate::codec::flagged_option_bytes;
use crate::codec::opt_view;
use crate::codec::read_array;
use crate::codec::write_optional_pubkey;
use crate::codec::write_u16_le;
use crate::codec::write_u64_le;
use crate::registry::BaseState;
use crate::registry::Extension;
use crate::registry::ExtensionType;
use crate::tlv::get_extension_from_bytes;
use crate::tlv::locate_extension;

/// Discriminator of the transfer-fee extension instruction family.
pub const TRANSFER_FEE_EXTENSION: u8 = 26;

/// Sub-discriminator of initializing the transfer-fee configuration.
pub const INITIALIZE_TRANSFER_FEE_CONFIG: u8 = 0;

/// Sub-discriminator of a checked transfer with an expected fee.
pub const TRANSFER_CHECKED_WITH_FEE: u8 = 1;

/// Sub-discriminator of withdrawing withheld tokens from the mint.
pub const WITHDRAW_WITHHELD_TOKENS_FROM_MINT: u8 = 2;

/// Sub-discriminator of withdrawing withheld tokens from accounts.
pub const WITHDRAW_WITHHELD_TOKENS_FROM_ACCOUNTS: u8 = 3;

/// Sub-discriminator of harvesting withheld tokens to the mint.
pub const HARVEST_WITHHELD_TOKENS_TO_MINT: u8 = 4;

/// Sub-discriminator of setting the transfer fee.
pub const SET_TRANSFER_FEE: u8 = 5;

/// Byte length of the `TransferFeeConfig` extension record.
pub const TRANSFER_FEE_CONFIG_LEN: usize = 108;

/// Payload of initializing the transfer-fee configuration: both optional
/// authorities under the presence-flag convention, then the fee fields.
pub open spec fn spec_initialize_transfer_fee_config_data(
    transfer_fee_config_authority: Option<Seq<u8>>,
    withdraw_withheld_authority: Option<Seq<u8>>,
    transfer_fee_basis_points: u16,
    maximum_fee: u16,
) -> Seq<u8> {
    seq![TRANSFER_FEE_EXTENSION, INITIALIZE_TRANSFER_FEE_CONFIG] + flagged_option_bytes(
        transfer_fee_config_authority,
    ) + flagged_option_bytes(withdraw_withheld_authority) + spec_u16_to_le_bytes(
        transfer_fee_basis_points,
    ) + spec_u16_to_le_bytes(maximum_fee)
}

/// Payload of a checked transfer with an expected fee.
pub open spec fn spec_transfer_checked_with_fee_data(amount: u64, decimals: u8, fee: u64) -> Seq<
    u8,
> {
    seq![TRANSFER_FEE_EXTENSION, TRANSFER_CHECKED_WITH_FEE] + spec_u64_to_le_bytes(amount) + seq![
        decimals,
    ] + spec_u64_to_le_bytes(fee)
}

/// Payload of setting the transfer fee.
pub open spec fn spec_set_transfer_fee_data(transfer_fee_basis_points: u16, maximum_fee: u64) -> Seq<
    u8,
> {
    seq![TRANSFER_FEE_EXTENSION, SET_TRANSFER_FEE] + spec_u16_to_le_bytes(
        transfer_fee_basis_points,
    ) + spec_u64_to_le_bytes(maximum_fee)
}

/// Payload of withdrawing withheld tokens from the mint.
pub open spec fn spec_withdraw_withheld_tokens_from_mint_data() -> Seq<u8> {
    seq![TRANSFER_FEE_EXTENSION, WITHDRAW_WITHHELD_TOKENS_FROM_MINT]
}

/// Payload of withdrawing withheld tokens from accounts, declaring how many
/// source accounts follow.
pub open spec fn spec_withdraw_withheld_tokens_from_accounts_data(num_token_accounts: u8) -> Seq<
    u8,
> {
    seq![TRANSFER_FEE_EXTENSION, WITHDRAW_WITHHELD_TOKENS_FROM_ACCOUNTS, num_token_accounts]
}

/// Payload of harvesting withheld tokens to the mint.
pub open spec fn spec_harvest_withheld_tokens_to_mint_data() -> Seq<u8> {
    seq![TRANSFER_FEE_EXTENSION, HARVEST_WITHHELD_TOKENS_TO_MINT]
}

/// Encode the payload of initializing the transfer-fee configuration.  Both
/// authorities use the presence-flag convention, so the result is 8, 40 or
/// 72 bytes long.
pub fn initialize_transfer_fee_config_instruction_data(
    transfer_fee_config_authority: Option<&Address>,
    withdraw_withheld_authority: Option<&Address>,
    transfer_fee_basis_points: u16,
    maximum_fee: u16,
) -> (r: Vec<u8>)
    ensures
        r@ == spec_initialize_transfer_fee_config_data(
            opt_view(transfer_fee_config_authority),
            opt_view(withdraw_withheld_authority),
            transfer_fee_basis_points,
            maximum_fee,
        ),
{
    let mut data: Vec<u8> = Vec::new();
    data.push(TRANSFER_FEE_EXTENSION);
    data.push(INITIALIZE_TRANSFER_FEE_CONFIG);
    write_optional_pubkey(&mut data, transfer_fee_config_authority);
    write_optional_pubkey(&mut data, withdraw_withheld_authority);
    write_u16_le(&mut data, transfer_fee_basis_points);
    write_u16_le(&mut data, maximum_fee);
    proof {
        assert(data@ =~= spec_initialize_transfer_fee_config_data(
            opt_view(transfer_fee_config_authority),
            opt_view(withdraw_withheld_authority),
            transfer_fee_basis_points,
            maximum_fee,
        ));
    }
    data
}

/// Encode the 19-byte payload of a checked transfer with an expected fee.
pub fn transfer_checked_with_fee_instruction_data(amount: u64, decimals: u8, fee: u64) -> (r: Vec<
    u8,
>)
    ensures
        r@ == spec_transfer_checked_with_fee_data(amount, decimals, fee),
        r@.len() == 19,
{
    let mut data: Vec<u8> = Vec::new();
    data.push(TRANSFER_FEE_EXTENSION);
    data.push(TRANSFER_CHECKED_WITH_FEE);
    write_u64_le(&mut data, amount);
    data.push(decimals);
    write_u64_le(&mut data, fee);
    proof {
        lemma_auto_spec_u64_to_from_le_bytes();
        assert(data@ =~= spec_transfer_checked_with_fee_data(amount, decimals, fee));
    }
    data
}

/// Encode the 12-byte payload of setting the transfer fee.
pub fn set_transfer_fee_instruction_data(transfer_fee_basis_points: u16, maximum_fee: u64) -> (r:
    Vec<u8>)
    ensures
        r@ == spec_set_transfer_fee_data(transfer_fee_basis_points, maximum_fee),
        r@.len() == 12,
{
    let mut data: Vec<u8> = Vec::new();
    data.push(TRANSFER_FEE_EXTENSION);
    data.push(SET_TRANSFER_FEE);
    write_u16_le(&mut data, transfer_fee_basis_points);
    write_u64_le(&mut data, maximum_fee);
    proof {
        lemma_auto_spec_u16_to_from_le_bytes();
        lemma_auto_spec_u64_to_from_le_bytes();
        assert(data@ =~= spec_set_transfer_fee_data(transfer_fee_basis_points, maximum_fee));
    }
    data
}

/// Encode the 3-byte payload of withdrawing withheld tokens from accounts.
pub fn withdraw_withheld_tokens_from_accounts_instruction_data(num_token_accounts: u8) -> (r: Vec<
    u8,
>)
    ensures
        r@ == spec_withdraw_withheld_tokens_from_accounts_data(num_token_accounts),
{
    let mut data: Vec<u8> = Vec::new();
    data.push(TRANSFER_FEE_EXTENSION);
    data.push(WITHDRAW_WITHHELD_TOKENS_FROM_ACCOUNTS);
    data.push(num_token_accounts);
    proof {
        assert(data@ =~= spec_withdraw_withheld_tokens_from_accounts_data(num_token_accounts));
    }
    data
}

/// Encode the 2-byte payload of withdrawing withheld tokens from the mint.
pub fn withdraw_withheld_tokens_from_mint_instruction_data() -> (r: Vec<u8>)
    ensures
        r@ == spec_withdraw_withheld_tokens_from_mint_data(),
{
    let mut data: Vec<u8> = Vec::new();
    data.push(TRANSFER_FEE_EXTENSION);
    data.push(WITHDRAW_WITHHELD_TOKENS_FROM_MINT);
    proof {
        assert(data@ =~= spec_withdraw_withheld_tokens_from_mint_data());
    }
    data
}

/// Encode the 2-byte payload of harvesting withheld tokens to the mint.
pub fn harvest_withheld_tokens_to_mint_instruction_data() -> (r: Vec<u8>)
    ensures
        r@ == spec_harvest_withheld_tokens_to_mint_data(),
{
    let mut data: Vec<u8> = Vec::new();
    data.push(TRANSFER_FEE_EXTENSION);
    data.push(HARVEST_WITHHELD_TOKENS_TO_MINT);
    proof {
        assert(data@ =~= spec_harvest_withheld_tokens_to_mint_data());
    }
    data
}

/// The single writable mint of initializing the transfer-fee configuration.
pub fn initialize_transfer_fee_config_account_metas(mint: &Address) -> (r: Vec<AccountDescriptor>)
    ensures
        r@ == seq![writable_desc(*mint)],
{
    let mut accounts: Vec<AccountDescriptor> = Vec::new();
    accounts.push(AccountDescriptor::writable(mint));
    proof {
        assert(accounts@ =~= seq![writable_desc(*mint)]);
    }
    accounts
}

/// Descriptors of setting the transfer fee: the writable mint, then the fee
/// authority's fan-out.  Rejected when the signer count exceeds its ceiling.
pub fn set_transfer_fee_account_metas(
    mint: &Address,
    fee_account_authority: &Address,
    signers: &[Address],
) -> (r: Result<Vec<AccountDescriptor>, BuildError>)
    ensures
        signers@.len() <= MAX_MULTISIG_SIGNERS ==> (r matches Ok(v) && v@ == seq![
            writable_desc(*mint),
        ] + authority_fanout(*fee_account_authority, signers@)),
        signers@.len() > MAX_MULTISIG_SIGNERS ==> (r matches Err(e) && e
            == BuildError::CapacityExceeded),
{
    if signers.len() > MAX_MULTISIG_SIGNERS {
        return Err(BuildError::CapacityExceeded);
    }
    let mut accounts: Vec<AccountDescriptor> = Vec::new();
    accounts.push(AccountDescriptor::writable(mint));
    push_authority_fanout(&mut accounts, fee_account_authority, signers);
    proof {
        assert(accounts@ =~= seq![writable_desc(*mint)] + authority_fanout(
            *fee_account_authority,
            signers@,
        ));
    }
    Ok(accounts)
}

/// Descriptors of a checked transfer with fee: writable source, read-only
/// mint, writable destination, then the owner's fan-out.
pub fn transfer_checked_with_fee_account_metas(
    source_account: &Address,
    mint: &Address,
    destination: &Address,
    source_account_authority: &Address,
    signers: &[Address],
) -> (r: Result<Vec<AccountDescriptor>, BuildError>)
    ensures
        signers@.len() <= MAX_MULTISIG_SIGNERS ==> (r matches Ok(v) && v@ == seq![
            writable_desc(*source_account),
            readonly_desc(*mint),
            writable_desc(*destination),
        ] + authority_fanout(*source_account_authority, signers@)),
        signers@.len() > MAX_MULTISIG_SIGNERS ==> (r matches Err(e) && e
            == BuildError::CapacityExceeded),
{
    if signers.len() > MAX_MULTISIG_SIGNERS {
        return Err(BuildError::CapacityExceeded);
    }
    let mut accounts: Vec<AccountDescriptor> = Vec::new();
    accounts.push(AccountDescriptor::writable(source_account));
    accounts.push(AccountDescriptor::readonly(mint));
    accounts.push(AccountDescriptor::writable(destination));
    push_authority_fanout(&mut accounts, source_account_authority, signers);
    proof {
        assert(accounts@ =~= seq![
            writable_desc(*source_account),
            readonly_desc(*mint),
            writable_desc(*destination),
        ] + authority_fanout(*source_account_authority, signers@));
    }
    Ok(accounts)
}

/// Descriptors of withdrawing withheld tokens from the mint: writable mint,
/// writable destination, then the withdraw authority's fan-out.
pub fn withdraw_withheld_tokens_from_mint_account_metas(
    mint: &Address,
    destination: &Address,
    withdraw_withheld_authority: &Address,
    signers: &[Address],
) -> (r: Result<Vec<AccountDescriptor>, BuildError>)
    ensures
        signers@.len() <= MAX_MULTISIG_SIGNERS ==> (r matches Ok(v) && v@ == seq![
            writable_desc(*mint),
            writable_desc(*destination),
        ] + authority_fanout(*withdraw_withheld_authority, signers@)),
        signers@.len() > MAX_MULTISIG_SIGNERS ==> (r matches Err(e) && e
            == BuildError::CapacityExceeded),
{
    if signers.len() > MAX_MULTISIG_SIGNERS {
        return Err(BuildError::CapacityExceeded);
    }
    let mut accounts: Vec<AccountDescriptor> = Vec::new();
    accounts.push(AccountDescriptor::writable(mint));
    accounts.push(AccountDescriptor::writable(destination));
    push_authority_fanout(&mut accounts, withdraw_withheld_authority, signers);
    proof {
        assert(accounts@ =~= seq![writable_desc(*mint), writable_desc(*destination)]
            + authority_fanout(*withdraw_withheld_authority, signers@));
    }
    Ok(accounts)
}

/// Descriptors of withdrawing withheld tokens from accounts: read-only
/// mint, writable destination, the withdraw authority's fan-out, then the
/// declared number of writable source accounts.  Rejected when the signer
/// count or total account count exceeds its ceiling, or when the declared
/// source count does not match the supplied list.
pub fn withdraw_withheld_tokens_from_accounts_account_metas(
    mint: &Address,
    destination: &Address,
    withdraw_withheld_authority: &Address,
    num_token_accounts: u8,
    signers: &[Address],
    source_accounts: &[Address],
) -> (r: Result<Vec<AccountDescriptor>, BuildError>)
    ensures
        signers@.len() > MAX_MULTISIG_SIGNERS ==> (r matches Err(e) && e
            == BuildError::CapacityExceeded),
        signers@.len() <= MAX_MULTISIG_SIGNERS && source_accounts@.len() != num_token_accounts
            ==> (r matches Err(e) && e == BuildError::ArityMismatch),
        signers@.len() <= MAX_MULTISIG_SIGNERS && source_accounts@.len() == num_token_accounts && 3
            + num_token_accounts + signers@.len() > MAX_CPI_ACCOUNTS ==> (r matches Err(e) && e
            == BuildError::CapacityExceeded),
        signers@.len() <= MAX_MULTISIG_SIGNERS && source_accounts@.len() == num_token_accounts && 3
            + num_token_accounts + signers@.len() <= MAX_CPI_ACCOUNTS ==> (r matches Ok(v) && v@
            == seq![readonly_desc(*mint), writable_desc(*destination)] + authority_fanout(
            *withdraw_withheld_authority,
            signers@,
        ) + writable_descs(source_accounts@)),
{
    if signers.len() > MAX_MULTISIG_SIGNERS {
        return Err(BuildError::CapacityExceeded);
    }
    if source_accounts.len() != num_token_accounts as usize {
        return Err(BuildError::ArityMismatch);
    }
    if 3 + num_token_accounts as usize + signers.len() > MAX_CPI_ACCOUNTS {
        return Err(BuildError::CapacityExceeded);
    }
    let mut accounts: Vec<AccountDescriptor> = Vec::new();
    accounts.push(AccountDescriptor::readonly(mint));
    accounts.push(AccountDescriptor::writable(destination));
    push_authority_fanout(&mut accounts, withdraw_withheld_authority, signers);
    push_writable_accounts(&mut accounts, source_accounts);
    proof {
        assert(accounts@ =~= seq![readonly_desc(*mint), writable_desc(*destination)]
            + authority_fanout(*withdraw_withheld_authority, signers@) + writable_descs(
            source_accounts@,
        ));
    }
    Ok(accounts)
}

/// Descriptors of harvesting withheld tokens to the mint: the writable
/// mint, then every source account writable.  Rejected when the total
/// account count exceeds the host's ceiling.
pub fn harvest_withheld_tokens_to_mint_account_metas(
    mint: &Address,
    source_accounts: &[Address],
) -> (r: Result<Vec<AccountDescriptor>, BuildError>)
    ensures
        1 + source_accounts@.len() <= MAX_CPI_ACCOUNTS ==> (r matches Ok(v) && v@ == seq![
            writable_desc(*mint),
        ] + writable_descs(source_accounts@)),
        1 + source_accounts@.len() > MAX_CPI_ACCOUNTS ==> (r matches Err(e) && e
            == BuildError::CapacityExceeded),
{
    if source_accounts.len() >= MAX_CPI_ACCOUNTS {
        return Err(BuildError::CapacityExceeded);
    }
    let mut accounts: Vec<AccountDescriptor> = Vec::new();
    accounts.push(AccountDescriptor::writable(mint));
    push_writable_accounts(&mut accounts, source_accounts);
    proof {
        assert(accounts@ =~= seq![writable_desc(*mint)] + writable_descs(source_accounts@));
    }
    Ok(accounts)
}

/// One transfer-fee schedule: the epoch it takes effect, the fee ceiling,
/// and the fee in basis points, all as their little-endian wire bytes.
#[derive(Clone, Copy, Debug, PartialEq, Eq)]
pub struct TransferFee {
    /// First epoch where the transfer fee takes effect.
    pub epoch: [u8; 8],
    /// Maximum fee assessed on transfers, expressed as an amount of tokens.
    pub maximum_fee: [u8; 8],
    /// Fee collected on transfers, in basis points of the transfer amount.
    pub transfer_fee_basis_points: [u8; 2],
}

/// State of the transfer-fee configuration extension on a mint.
#[derive(Clone, Copy, Debug, PartialEq, Eq)]
pub struct TransferFeeConfig {
    /// Optional authority to set the fee.
    pub transfer_fee_config_authority: Address,
    /// Withdraw-from-mint instructions must be signed by this key.
    pub withdraw_withheld_authority: Address,
    /// Withheld fees already moved to the mint for withdrawal.
    pub withheld_amount: [u8; 8],
    /// Fee schedule in force before `newer_transfer_fee.epoch`.
    pub older_transfer_fee: TransferFee,
    /// Fee schedule in force from `newer_transfer_fee.epoch` on.
    pub newer_transfer_fee: TransferFee,
}

impl Extension for TransferFeeConfig {
    open spec fn ext_type() -> ExtensionType {
        ExtensionType::TransferFeeConfig
    }

    open spec fn base_len() -> nat {
        108
    }

    open spec fn base_state() -> BaseState {
        BaseState::Mint
    }
}

/// A `TransferFee` whose fields are the given payload bytes, split at the
/// record's fixed offsets.
pub open spec fn transfer_fee_fields(f: TransferFee, b: Seq<u8>) -> bool {
    &&& f.epoch@ == b.subrange(0, 8)
    &&& f.maximum_fee@ == b.subrange(8, 16)
    &&& f.transfer_fee_basis_points@ == b.subrange(16, 18)
}

/// A `TransferFeeConfig` whose fields are the given payload bytes, split at
/// the record's fixed offsets.
pub open spec fn transfer_fee_config_fields(c: TransferFeeConfig, b: Seq<u8>) -> bool {
    &&& c.transfer_fee_config_authority@ == b.subrange(0, 32)
    &&& c.withdraw_withheld_authority@ == b.subrange(32, 64)
    &&& c.withheld_amount@ == b.subrange(64, 72)
    &&& transfer_fee_fields(c.older_transfer_fee, b.subrange(72, 90))
    &&& transfer_fee_fields(c.newer_transfer_fee, b.subrange(90, 108))
}

impl TransferFeeConfig {
    /// The transfer-fee configuration carried by a mint account's byte
    /// buffer, present exactly when the extension region holds a
    /// `TransferFeeConfig` entry of the declared length.
    pub fn from_bytes(acc_data: &[u8]) -> (r: Option<TransferFeeConfig>)
        ensures
            r is Some <==> locate_extension(
                acc_data@,
                BaseState::Mint,
                ExtensionType::TransferFeeConfig,
                Some(TRANSFER_FEE_CONFIG_LEN as int),
            ) is Some,
            r matches Some(c) ==> (locate_extension(
                acc_data@,
                BaseState::Mint,
                ExtensionType::TransferFeeConfig,
                Some(TRANSFER_FEE_CONFIG_LEN as int),
            ) matches Some(p) && transfer_fee_config_fields(
                c,
                acc_data@.subrange(p.0, p.0 + p.1),
            )),
    {
        match get_extension_from_bytes(
            acc_data,
            BaseState::Mint,
            ExtensionType::TransferFeeConfig,
            TRANSFER_FEE_CONFIG_LEN,
        ) {
            Some(payload) => {
                let config = TransferFeeConfig {
                    transfer_fee_config_authority: read_array(payload, 0),
                    withdraw_withheld_authority: read_array(payload, 32),
                    withheld_amount: read_array(payload, 64),
                    older_transfer_fee: TransferFee {
                        epoch: read_array(payload, 72),
                        maximum_fee: read_array(payload, 80),
                        transfer_fee_basis_points: read_array(payload, 88),
                    },
                    newer_transfer_fee: TransferFee {
                        epoch: read_array(payload, 90),
                        maximum_fee: read_array(payload, 98),
                        transfer_fee_basis_points: read_array(payload, 106),
                    },
                };
                proof {
                    assert(transfer_fee_config_fields(config, payload@)) by {
                        assert(payload@.subrange(72, 90).subrange(0, 8) =~= payload@.subrange(
                            72,
                            80,
                        ));
                        assert(payload@.subrange(72, 90).subrange(8, 16) =~= payload@.subrange(
                            80,
                            88,
                        ));
                        assert(payload@.subrange(72, 90).subrange(16, 18) =~= payload@.subrange(
                            88,
                            90,
                        ));
                        assert(payload@.subrange(90, 108).subrange(0, 8) =~= payload@.subrange(
                            90,
                            98,
                        ));
                        assert(payload@.subrange(90, 108).subrange(8, 16) =~= payload@.subrange(
                            98,
                            106,
                        ));
                        assert(payload@.subrange(90, 108).subrange(16, 18) =~= payload@.subrange(
                            106,
                            108,
                        ));
                    }
                }
                Some(config)
            },
            None => None,
        }
    }
}

} // verus!
