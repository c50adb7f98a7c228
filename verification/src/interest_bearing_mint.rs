//! The interest-bearing extension: tokens of such a mint accrue interest at
//! a signed rate that a rate authority may update.

use vstd::prelude::*;

verus! {

use vstd::bytes::spec_u16_to_le_bytes;

use crate::Address;
use crate::accounts::AccountDescriptor;
use crate::accounts::BuildError;
use crate::accounts::MAX_MULTISIG_SIGNERS;
use crate::accounts::authority_fanout;
use crate::accounts::push_authority_fanout;
use crate::accounts::writable_desc;
use crate::codec::flagged_option_bytes;
use crate::codec::opt_view;
use crate::codec::read_array;
use crate::codec::write_i16_le;
use crate::codec::write_optional_pubkey;
use crate::registry::BaseState;
use crate::registry::Extension;
use crate::registry::ExtensionType;
use crate::tlv::get_extension_from_bytes;
use crate::tlv::locate_extension;

/// Sub-instruction of the interest-bearing extension.
#[derive(Clone, Copy, Debug, PartialEq, Eq, Structural)]
pub enum InterestBearingMintInstruction {
    /// Attach the interest-bearing extension to a mint.
    Initialize,
    /// Change the mint's interest rate.
    UpdateRate,
}

/// The discriminator byte of an interest-bearing sub-instruction.
pub open spec fn interest_bearing_sub_code(i: InterestBearingMintInstruction) -> u8 {
    match i {
        InterestBearingMintInstruction::Initialize => 0,
        InterestBearingMintInstruction::UpdateRate => 1,
    }
}

impl InterestBearingMintInstruction {
    /// The discriminator byte of this sub-instruction.
    pub fn code(&self) -> (c: u8)
        ensures
            c == interest_bearing_sub_code(*self),
    {
        match *self {
            InterestBearingMintInstruction::Initialize => 0,
            InterestBearingMintInstruction::UpdateRate => 1,
        }
    }
}

/// Fields of initializing the interest-bearing extension.
#[derive(Clone, Copy, Debug, PartialEq, Eq)]
pub struct InitializeInstructionData {
    /// The authority allowed to update the rate.
    pub rate_authority: [u8; 32],
    /// The initial interest rate, in basis points.
    pub rate: i16,
}

/// Payload of initializing the interest-bearing extension: the optional
/// rate authority under the presence-flag convention, then the signed rate.
pub open spec fn spec_interest_bearing_initialize_data(
    rate_authority: Option<Seq<u8>>,
    rate: i16,
) -> Seq<u8> {
    seq![0u8] + flagged_option_bytes(rate_authority) + spec_u16_to_le_bytes(rate as u16)
}

/// Payload of updating the interest rate: the discriminator byte and the
/// signed rate, 3 bytes.
pub open spec fn spec_interest_bearing_update_rate_data(new_rate: i16) -> Seq<u8> {
    seq![1u8] + spec_u16_to_le_bytes(new_rate as u16)
}

/// Encode the payload of initializing the interest-bearing extension:
/// 4 bytes without a rate authority, 36 bytes with one.
pub fn initialize_interest_bearing_mint_instruction_data(
    rate_authority: Option<&Address>,
    rate: i16,
) -> (r: Vec<u8>)
    ensures
        r@ == spec_interest_bearing_initialize_data(opt_view(rate_authority), rate),
{
    let mut data: Vec<u8> = Vec::new();
    data.push(InterestBearingMintInstruction::Initialize.code());
    write_optional_pubkey(&mut data, rate_authority);
    write_i16_le(&mut data, rate);
    proof {
        assert(data@ =~= spec_interest_bearing_initialize_data(opt_view(rate_authority), rate));
    }
    data
}

/// Encode the 3-byte payload of updating the interest rate.
pub fn update_interest_bearing_mint_rate_instruction_data(new_rate: i16) -> (r: Vec<u8>)
    ensures
        r@ == spec_interest_bearing_update_rate_data(new_rate),
{
    let mut data: Vec<u8> = Vec::new();
    data.push(InterestBearingMintInstruction::UpdateRate.code());
    write_i16_le(&mut data, new_rate);
    proof {
        assert(data@ =~= spec_interest_bearing_update_rate_data(new_rate));
    }
    data
}

/// The single writable mint of initializing the interest-bearing extension.
pub fn initialize_interest_bearing_mint_account_metas(mint: &Address) -> (r: Vec<
    AccountDescriptor,
>)
    ensures
        r@ == seq![writable_desc(*mint)],
{
    let mut accounts: Vec<AccountDescriptor> = Vec::new();
    accounts.push(AccountDescriptor::writable(mint));
    proof {
        assert(accounts@ =~= seq![writable_desc(*mint)]);
    }
    accounts
}

/// Descriptors of updating the interest rate: the writable mint, then the
/// rate authority's fan-out — the authority signs directly, or stands
/// read-only with each designated multisig signer after it as a read-only
/// signer.  Rejected when the signer count exceeds its ceiling.
pub fn update_interest_bearing_mint_rate_account_metas(
    mint: &Address,
    rate_authority: &Address,
    signers: &[Address],
) -> (r: Result<Vec<AccountDescriptor>, BuildError>)
    ensures
        signers@.len() <= MAX_MULTISIG_SIGNERS ==> (r matches Ok(v) && v@ == seq![
            writable_desc(*mint),
        ] + authority_fanout(*rate_authority, signers@)),
        signers@.len() > MAX_MULTISIG_SIGNERS ==> (r matches Err(e) && e
            == BuildError::CapacityExceeded),
{
    if signers.len() > MAX_MULTISIG_SIGNERS {
        return Err(BuildError::CapacityExceeded);
    }
    let mut accounts: Vec<AccountDescriptor> = Vec::new();
    accounts.push(AccountDescriptor::writable(mint));
    push_authority_fanout(&mut accounts, rate_authority, signers);
    proof {
        assert(accounts@ =~= seq![writable_desc(*mint)] + authority_fanout(
            *rate_authority,
            signers@,
        ));
    }
    Ok(accounts)
}

/// Byte length of the `InterestBearingConfig` extension record.
pub const INTEREST_BEARING_CONFIG_LEN: usize = 52;

/// State of the interest-bearing extension on a mint: the rate authority,
/// the two bookkeeping timestamps, and the two rates, all as their
/// little-endian wire bytes.
#[derive(Clone, Copy, Debug, PartialEq, Eq)]
pub struct InterestBearingConfig {
    /// Optional authority allowed to update the rate; all-zero when absent.
    pub rate_authority: Address,
    /// When the extension was initialized.
    pub initialization_timestamp: [u8; 8],
    /// Average rate in force before the last update.
    pub pre_update_average_rate: [u8; 2],
    /// When the rate was last updated.
    pub last_update_timestamp: [u8; 8],
    /// The rate in force now, in basis points.
    pub current_rate: [u8; 2],
}

impl Extension for InterestBearingConfig {
    open spec fn ext_type() -> ExtensionType {
        ExtensionType::InterestBearingConfig
    }

    open spec fn base_len() -> nat {
        52
    }

    open spec fn base_state() -> BaseState {
        BaseState::Mint
    }
}

/// An `InterestBearingConfig` whose fields are the given payload bytes,
/// split at the record's fixed offsets.
pub open spec fn interest_bearing_config_fields(c: InterestBearingConfig, b: Seq<u8>) -> bool {
    &&& c.rate_authority@ == b.subrange(0, 32)
    &&& c.initialization_timestamp@ == b.subrange(32, 40)
    &&& c.pre_update_average_rate@ == b.subrange(40, 42)
    &&& c.last_update_timestamp@ == b.subrange(42, 50)
    &&& c.current_rate@ == b.subrange(50, 52)
}

impl InterestBearingConfig {
    /// The interest-bearing configuration carried by a mint account's byte
    /// buffer, present exactly when the extension region holds an
    /// `InterestBearingConfig` entry of the declared length.
    pub fn from_bytes(acc_data: &[u8]) -> (r: Option<InterestBearingConfig>)
        ensures
            r is Some <==> locate_extension(
                acc_data@,
                BaseState::Mint,
                ExtensionType::InterestBearingConfig,
                Some(INTEREST_BEARING_CONFIG_LEN as int),
            ) is Some,
            r matches Some(c) ==> (locate_extension(
                acc_data@,
                BaseState::Mint,
                ExtensionType::InterestBearingConfig,
                Some(INTEREST_BEARING_CONFIG_LEN as int),
            ) matches Some(p) && interest_bearing_config_fields(
                c,
                acc_data@.subrange(p.0, p.0 + p.1),
            )),
    {
        match get_extension_from_bytes(
            acc_data,
            BaseState::Mint,
            ExtensionType::InterestBearingConfig,
            INTEREST_BEARING_CONFIG_LEN,
        ) {
            Some(payload) => {
                let config = InterestBearingConfig {
                    rate_authority: read_array(payload, 0),
                    initialization_timestamp: read_array(payload, 32),
                    pre_update_average_rate: read_array(payload, 40),
                    last_update_timestamp: read_array(payload, 42),
                    current_rate: read_array(payload, 50),
                };
                Some(config)
            },
            None => None,
        }
    }
}

} // verus!
