//! The extension registry: every extension kind, its numeric identity, and
//! which base-account kind it attaches to.
//!
//! Extending the registry means adding one variant with one new code; the
//! lookup by raw 16-bit value returns the known variant or nothing, so
//! existing kinds keep their behaviour when new kinds appear.

use vstd::prelude::*;

verus! {

use vstd::bytes::spec_u16_from_le_bytes;
use vstd::bytes::spec_u16_to_le_bytes;
use vstd::bytes::u16_from_le_bytes;
use vstd::bytes::u16_to_le_bytes;

/// Number of bytes the fixed fields of a mint account occupy.
pub const MINT_BASE_LEN: usize = 82;

/// Number of bytes the fixed fields of a token account occupy.
pub const TOKEN_ACCOUNT_BASE_LEN: usize = 165;

/// Padding that follows a mint's fixed fields so that mint and token
/// accounts reach the same size before the account-kind byte.
pub const EXTENSIONS_PADDING: usize = 83;

/// One byte identifying the base-account kind, placed right before the
/// first extension header.
pub const EXTENSION_START_OFFSET: usize = 1;

/// Number of bytes of the type field of an extension header.
pub const EXTENSION_TYPE_LEN: usize = 2;

/// Number of bytes of the length field of an extension header.
pub const EXTENSION_LENGTH_LEN: usize = 2;

/// The kind of base account an extension attaches to.
#[derive(Clone, Copy, Debug, PartialEq, Eq, Structural)]
pub enum BaseState {
    /// A mint account.
    Mint,
    /// A token account.
    TokenAccount,
}

/// Every extension kind the registry knows, identified on the wire by a
/// 16-bit code.
#[derive(Clone, Copy, Debug, PartialEq, Eq, Structural)]
pub enum ExtensionType {
    /// Used as padding if the account size would otherwise be ambiguous, same as a multisig
    Uninitialized,
    /// Includes transfer fee rate info and accompanying authorities to withdraw and set the fee
    TransferFeeConfig,
    /// Includes withheld transfer fees
    TransferFeeAmount,
    /// Includes an optional mint close authority
    MintCloseAuthority,
    /// Auditor configuration for confidential transfers
    ConfidentialTransferMint,
    /// State for confidential transfers
    ConfidentialTransferAccount,
    /// Specifies the default account state for new accounts
    DefaultAccountState,
    /// Indicates that the account owner authority cannot be changed
    ImmutableOwner,
    /// Require inbound transfers to have a memo
    MemoTransfer,
    /// Indicates that the tokens from this mint cannot be transferred
    NonTransferable,
    /// Tokens accrue interest over time
    InterestBearingConfig,
    /// Locks privileged token operations from happening via cross-program call
    CpiGuard,
    /// Includes an optional permanent delegate
    PermanentDelegate,
    /// Indicates that the tokens in this account belong to a non-transferable mint
    NonTransferableAccount,
    /// Mint requires a cross-program call to a program implementing the transfer-hook interface
    TransferHook,
    /// Indicates that the tokens in this account belong to a mint with a transfer hook
    TransferHookAccount,
    /// Includes encrypted withheld fees and the encryption public key that they are encrypted under
    ConfidentialTransferFeeConfig,
    /// Includes confidential withheld transfer fees
    ConfidentialTransferFeeAmount,
    /// Mint contains a pointer to another account (or the same account) that holds metadata
    MetadataPointer,
    /// Mint contains token metadata
    TokenMetadata,
    /// Mint contains a pointer to another account (or the same account) that holds group configurations
    GroupPointer,
    /// Mint contains token group configurations
    TokenGroup,
    /// Mint contains a pointer to another account (or the same account) that holds group member configurations
    GroupMemberPointer,
    /// Mint contains token group member configurations
    TokenGroupMember,
    /// Mint allowing the minting and burning of confidential tokens
    ConfidentialMintBurn,
    /// Tokens whose displayed amount is scaled by a given factor
    ScaledUiAmount,
    /// Tokens where minting, burning and transferring can be paused
    Pausable,
    /// Indicates that the account belongs to a pausable mint
    PausableAccount,
}

/// The numeric identity of an extension kind.
pub open spec fn ext_type_code(t: ExtensionType) -> u16 {
    match t {
        ExtensionType::Uninitialized => 0,
        ExtensionType::TransferFeeConfig => 1,
        ExtensionType::TransferFeeAmount => 2,
        ExtensionType::MintCloseAuthority => 3,
        ExtensionType::ConfidentialTransferMint => 4,
        ExtensionType::ConfidentialTransferAccount => 5,
        ExtensionType::DefaultAccountState => 6,
        ExtensionType::ImmutableOwner => 7,
        ExtensionType::MemoTransfer => 8,
        ExtensionType::NonTransferable => 9,
        ExtensionType::InterestBearingConfig => 10,
        ExtensionType::CpiGuard => 11,
        ExtensionType::PermanentDelegate => 12,
        ExtensionType::NonTransferableAccount => 13,
        ExtensionType::TransferHook => 14,
        ExtensionType::TransferHookAccount => 15,
        ExtensionType::ConfidentialTransferFeeConfig => 16,
        ExtensionType::ConfidentialTransferFeeAmount => 17,
        ExtensionType::MetadataPointer => 18,
        ExtensionType::TokenMetadata => 19,
        ExtensionType::GroupPointer => 20,
        ExtensionType::TokenGroup => 21,
        ExtensionType::GroupMemberPointer => 22,
        ExtensionType::TokenGroupMember => 23,
        ExtensionType::ConfidentialMintBurn => 24,
        ExtensionType::ScaledUiAmount => 25,
        ExtensionType::Pausable => 26,
        ExtensionType::PausableAccount => 27,
    }
}

/// The extension kind a raw 16-bit value identifies, if any.
pub open spec fn spec_ext_type_from_code(code: u16) -> Option<ExtensionType> {
    if false {
        None
    } else if code == 0 {
        Some(ExtensionType::Uninitialized)
    } else if code == 1 {
        Some(ExtensionType::TransferFeeConfig)
    } else if code == 2 {
        Some(ExtensionType::TransferFeeAmount)
    } else if code == 3 {
        Some(ExtensionType::MintCloseAuthority)
    } else if code == 4 {
        Some(ExtensionType::ConfidentialTransferMint)
    } else if code == 5 {
        Some(ExtensionType::ConfidentialTransferAccount)
    } else if code == 6 {
        Some(ExtensionType::DefaultAccountState)
    } else if code == 7 {
        Some(ExtensionType::ImmutableOwner)
    } else if code == 8 {
        Some(ExtensionType::MemoTransfer)
    } else if code == 9 {
        Some(ExtensionType::NonTransferable)
    } else if code == 10 {
        Some(ExtensionType::InterestBearingConfig)
    } else if code == 11 {
        Some(ExtensionType::CpiGuard)
    } else if code == 12 {
        Some(ExtensionType::PermanentDelegate)
    } else if code == 13 {
        Some(ExtensionType::NonTransferableAccount)
    } else if code == 14 {
        Some(ExtensionType::TransferHook)
    } else if code == 15 {
        Some(ExtensionType::TransferHookAccount)
    } else if code == 16 {
        Some(ExtensionType::ConfidentialTransferFeeConfig)
    } else if code == 17 {
        Some(ExtensionType::ConfidentialTransferFeeAmount)
    } else if code == 18 {
        Some(ExtensionType::MetadataPointer)
    } else if code == 19 {
        Some(ExtensionType::TokenMetadata)
    } else if code == 20 {
        Some(ExtensionType::GroupPointer)
    } else if code == 21 {
        Some(ExtensionType::TokenGroup)
    } else if code == 22 {
        Some(ExtensionType::GroupMemberPointer)
    } else if code == 23 {
        Some(ExtensionType::TokenGroupMember)
    } else if code == 24 {
        Some(ExtensionType::ConfidentialMintBurn)
    } else if code == 25 {
        Some(ExtensionType::ScaledUiAmount)
    } else if code == 26 {
        Some(ExtensionType::Pausable)
    } else if code == 27 {
        Some(ExtensionType::PausableAccount)
    } else {
        None
    }
}

/// Looking a kind's own code up in the registry finds that kind again.
pub proof fn lemma_ext_type_code_roundtrip(t: ExtensionType)
    ensures
        spec_ext_type_from_code(ext_type_code(t)) == Some(t),
        ext_type_code(t) < 28,
{
    match t {
        ExtensionType::Uninitialized => {},
        ExtensionType::TransferFeeConfig => {},
        ExtensionType::TransferFeeAmount => {},
        ExtensionType::MintCloseAuthority => {},
        ExtensionType::ConfidentialTransferMint => {},
        ExtensionType::ConfidentialTransferAccount => {},
        ExtensionType::DefaultAccountState => {},
        ExtensionType::ImmutableOwner => {},
        ExtensionType::MemoTransfer => {},
        ExtensionType::NonTransferable => {},
        ExtensionType::InterestBearingConfig => {},
        ExtensionType::CpiGuard => {},
        ExtensionType::PermanentDelegate => {},
        ExtensionType::NonTransferableAccount => {},
        ExtensionType::TransferHook => {},
        ExtensionType::TransferHookAccount => {},
        ExtensionType::ConfidentialTransferFeeConfig => {},
        ExtensionType::ConfidentialTransferFeeAmount => {},
        ExtensionType::MetadataPointer => {},
        ExtensionType::TokenMetadata => {},
        ExtensionType::GroupPointer => {},
        ExtensionType::TokenGroup => {},
        ExtensionType::GroupMemberPointer => {},
        ExtensionType::TokenGroupMember => {},
        ExtensionType::ConfidentialMintBurn => {},
        ExtensionType::ScaledUiAmount => {},
        ExtensionType::Pausable => {},
        ExtensionType::PausableAccount => {},
    }
}

impl ExtensionType {
    /// The extension kind identified by a raw 16-bit code, or nothing when
    /// the code is unrecognized.
    pub fn from_code(code: u16) -> (r: Option<ExtensionType>)
        ensures
            r == spec_ext_type_from_code(code),
    {
        match code {
            0 => Some(ExtensionType::Uninitialized),
            1 => Some(ExtensionType::TransferFeeConfig),
            2 => Some(ExtensionType::TransferFeeAmount),
            3 => Some(ExtensionType::MintCloseAuthority),
            4 => Some(ExtensionType::ConfidentialTransferMint),
            5 => Some(ExtensionType::ConfidentialTransferAccount),
            6 => Some(ExtensionType::DefaultAccountState),
            7 => Some(ExtensionType::ImmutableOwner),
            8 => Some(ExtensionType::MemoTransfer),
            9 => Some(ExtensionType::NonTransferable),
            10 => Some(ExtensionType::InterestBearingConfig),
            11 => Some(ExtensionType::CpiGuard),
            12 => Some(ExtensionType::PermanentDelegate),
            13 => Some(ExtensionType::NonTransferableAccount),
            14 => Some(ExtensionType::TransferHook),
            15 => Some(ExtensionType::TransferHookAccount),
            16 => Some(ExtensionType::ConfidentialTransferFeeConfig),
            17 => Some(ExtensionType::ConfidentialTransferFeeAmount),
            18 => Some(ExtensionType::MetadataPointer),
            19 => Some(ExtensionType::TokenMetadata),
            20 => Some(ExtensionType::GroupPointer),
            21 => Some(ExtensionType::TokenGroup),
            22 => Some(ExtensionType::GroupMemberPointer),
            23 => Some(ExtensionType::TokenGroupMember),
            24 => Some(ExtensionType::ConfidentialMintBurn),
            25 => Some(ExtensionType::ScaledUiAmount),
            26 => Some(ExtensionType::Pausable),
            27 => Some(ExtensionType::PausableAccount),
            _ => None,
        }
    }

    /// The extension kind identified by a little-endian header type field,
    /// or nothing when the value is unrecognized.
    pub fn from_bytes(val: [u8; 2]) -> (r: Option<ExtensionType>)
        ensures
            r == spec_ext_type_from_code(spec_u16_from_le_bytes(val@)),
    {
        let code = u16_from_le_bytes(val.as_slice());
        ExtensionType::from_code(code)
    }

    /// The little-endian header type field of this extension kind.
    pub fn to_bytes(&self) -> (r: [u8; 2])
        ensures
            r@ == spec_u16_to_le_bytes(ext_type_code(*self)),
    {
        let code = self.code();
        let v = u16_to_le_bytes(code);
        let r: [u8; 2] = [v[0], v[1]];
        proof {
            assert(r@ =~= v@);
        }
        r
    }

    /// The numeric identity of this extension kind.
    pub fn code(&self) -> (c: u16)
        ensures
            c == ext_type_code(*self),
    {
        match *self {
            ExtensionType::Uninitialized => 0,
            ExtensionType::TransferFeeConfig => 1,
            ExtensionType::TransferFeeAmount => 2,
            ExtensionType::MintCloseAuthority => 3,
            ExtensionType::ConfidentialTransferMint => 4,
            ExtensionType::ConfidentialTransferAccount => 5,
            ExtensionType::DefaultAccountState => 6,
            ExtensionType::ImmutableOwner => 7,
            ExtensionType::MemoTransfer => 8,
            ExtensionType::NonTransferable => 9,
            ExtensionType::InterestBearingConfig => 10,
            ExtensionType::CpiGuard => 11,
            ExtensionType::PermanentDelegate => 12,
            ExtensionType::NonTransferableAccount => 13,
            ExtensionType::TransferHook => 14,
            ExtensionType::TransferHookAccount => 15,
            ExtensionType::ConfidentialTransferFeeConfig => 16,
            ExtensionType::ConfidentialTransferFeeAmount => 17,
            ExtensionType::MetadataPointer => 18,
            ExtensionType::TokenMetadata => 19,
            ExtensionType::GroupPointer => 20,
            ExtensionType::TokenGroup => 21,
            ExtensionType::GroupMemberPointer => 22,
            ExtensionType::TokenGroupMember => 23,
            ExtensionType::ConfidentialMintBurn => 24,
            ExtensionType::ScaledUiAmount => 25,
            ExtensionType::Pausable => 26,
            ExtensionType::PausableAccount => 27,
        }
    }
}

/// A fixed-size extension record: its kind, its declared payload length,
/// and the base-account kind it attaches to.
pub trait Extension {
    /// The extension's numeric kind.
    spec fn ext_type() -> ExtensionType;

    /// The declared byte length of the extension's fixed-size payload.
    spec fn base_len() -> nat;

    /// The base-account kind the extension attaches to.
    spec fn base_state() -> BaseState;
}

} // verus!
