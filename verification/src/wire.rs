//! The closed union of extension instructions with a total encoder and
//! decoder.
//!
//! Every instruction kind this layer can build is one variant; encoding
//! writes the exact wire bytes and decoding is its byte-exact inverse.  The
//! zero-fill optional fields reserve the all-zero address for "absent", so
//! a variant is well-formed only when none of its zero-fill options holds
//! the zero address.

use vstd::prelude::*;

verus! {

broadcast use vstd::array::group_array_axioms;

use vstd::array::spec_array_fill_for_copy_type;
use vstd::array::spec_array_update;
use vstd::bytes::lemma_auto_spec_u16_to_from_le_bytes;
use vstd::bytes::lemma_auto_spec_u64_to_from_le_bytes;
use vstd::bytes::spec_u16_from_le_bytes;
use vstd::bytes::spec_u16_to_le_bytes;
use vstd::bytes::spec_u64_from_le_bytes;
use vstd::bytes::spec_u64_to_le_bytes;

use crate::Address;
use crate::codec::flagged_option_bytes;
use crate::codec::opt_addr_view;
use crate::codec::zero_address;
use crate::codec::zero_fill_option_bytes;
use crate::confidential_transfer_fee::spec_initialize_confidential_transfer_fee_config_data;
use crate::interest_bearing_mint::spec_interest_bearing_initialize_data;
use crate::interest_bearing_mint::spec_interest_bearing_update_rate_data;
use crate::memo_transfer::RequiredMemoTransfersInstruction;
use crate::memo_transfer::spec_memo_transfer_data;
use crate::metadata_pointer::spec_metadata_pointer_initialize_data;
use crate::metadata_pointer::spec_metadata_pointer_update_data;
use crate::non_transferable::spec_initialize_non_transferable_mint_data;
use crate::pausable::spec_pausable_initialize_data;
use crate::pausable::spec_pause_data;
use crate::pausable::spec_resume_data;
use crate::permanent_delegate::spec_permanent_delegate_data;
use crate::transfer_fee::spec_harvest_withheld_tokens_to_mint_data;
use crate::transfer_fee::spec_initialize_transfer_fee_config_data;
use crate::transfer_fee::spec_set_transfer_fee_data;
use crate::transfer_fee::spec_transfer_checked_with_fee_data;
use crate::transfer_fee::spec_withdraw_withheld_tokens_from_accounts_data;
use crate::transfer_fee::spec_withdraw_withheld_tokens_from_mint_data;
use crate::transfer_hook::spec_transfer_hook_initialize_data;
use crate::transfer_hook::spec_transfer_hook_update_data;

/// One extension instruction of this layer, with its typed fields.
#[derive(Clone, Copy, Debug, PartialEq, Eq)]
pub enum ExtensionInstruction {
    /// Attach the pausable extension, naming the pause authority.
    PausableInitialize {
        /// The mint's pause authority.
        authority: Address,
    },
    /// Pause minting, burning and transferring.
    Pause,
    /// Resume minting, burning and transferring.
    Resume,
    /// Require memos on inbound transfers.
    MemoTransferEnable,
    /// Stop requiring memos on inbound transfers.
    MemoTransferDisable,
    /// Attach the metadata-pointer extension.
    MetadataPointerInitialize {
        /// Optional authority allowed to update the pointer (zero-fill).
        authority: Option<Address>,
        /// Optional initial metadata address (zero-fill).
        metadata_address: Option<Address>,
    },
    /// Re-point or clear the metadata pointer.
    MetadataPointerUpdate {
        /// The new metadata address, or nothing to clear it (zero-fill).
        new_metadata_address: Option<Address>,
    },
    /// Attach the transfer-hook extension.
    TransferHookInitialize {
        /// Optional authority allowed to update the hook (zero-fill).
        authority: Option<Address>,
        /// Optional hook program (zero-fill).
        transfer_hook_program_id: Option<Address>,
    },
    /// Change or clear the transfer-hook program.
    TransferHookUpdate {
        /// The new hook program, or nothing to disable it (zero-fill).
        transfer_hook_program_id: Option<Address>,
    },
    /// Attach the transfer-fee extension with its fee schedule.
    InitializeTransferFeeConfig {
        /// Optional authority allowed to set the fee (presence flag).
        transfer_fee_config_authority: Option<Address>,
        /// Optional authority allowed to withdraw withheld fees
        /// (presence flag).
        withdraw_withheld_authority: Option<Address>,
        /// Fee in basis points of the transfer amount.
        transfer_fee_basis_points: u16,
        /// Ceiling on the fee of one transfer.
        maximum_fee: u16,
    },
    /// Transfer with an expected fee, checked against the mint's decimals.
    TransferCheckedWithFee {
        /// Amount of tokens to transfer.
        amount: u64,
        /// Expected number of decimals of the mint.
        decimals: u8,
        /// Expected fee withheld from the transfer.
        fee: u64,
    },
    /// Move all withheld tokens out of the mint.
    WithdrawWithheldTokensFromMint,
    /// Move withheld tokens out of the declared number of accounts.
    WithdrawWithheldTokensFromAccounts {
        /// How many source accounts follow in the account list.
        num_token_accounts: u8,
    },
    /// Move withheld tokens from accounts into the mint.
    HarvestWithheldTokensToMint,
    /// Change the fee schedule of the transfer-fee extension.
    SetTransferFee {
        /// Fee in basis points of the transfer amount.
        transfer_fee_basis_points: u16,
        /// Ceiling on the fee of one transfer.
        maximum_fee: u64,
    },
    /// Mark a mint non-transferable.
    InitializeNonTransferableMint,
    /// Name a permanent delegate for the mint.
    InitializePermanentDelegate {
        /// The delegate allowed to transfer or burn any holder's tokens.
        delegate: Address,
    },
    /// Attach the interest-bearing extension.
    InterestBearingInitialize {
        /// Optional authority allowed to update the rate (presence flag).
        rate_authority: Option<Address>,
        /// Initial interest rate in basis points.
        rate: i16,
    },
    /// Change the interest rate.
    InterestBearingUpdateRate {
        /// The new interest rate in basis points.
        new_rate: i16,
    },
    /// Attach the confidential-transfer-fee configuration.
    InitializeConfidentialTransferFeeConfig {
        /// Optional authority allowed to rotate the encryption key
        /// (zero-fill).
        authority: Option<Address>,
        /// Encryption key that withheld fees must be encrypted under.
        withdraw_withheld_authority_elgamal_pubkey: [u8; 32],
    },
}

/// An optional zero-fill field never holds the reserved all-zero address.
pub open spec fn nonzero_opt(o: Option<Address>) -> bool {
    o matches Some(a) ==> a@ != zero_address()
}

/// A well-formed instruction: its zero-fill optional fields avoid the
/// reserved all-zero address, so absence and presence stay distinguishable
/// on the wire.
pub open spec fn wf_instruction(ix: ExtensionInstruction) -> bool {
    match ix {
        ExtensionInstruction::MetadataPointerInitialize { authority, metadata_address } => {
            nonzero_opt(authority) && nonzero_opt(metadata_address)
        },
        ExtensionInstruction::MetadataPointerUpdate { new_metadata_address } => {
            nonzero_opt(new_metadata_address)
        },
        ExtensionInstruction::TransferHookInitialize { authority, transfer_hook_program_id } => {
            nonzero_opt(authority) && nonzero_opt(transfer_hook_program_id)
        },
        ExtensionInstruction::TransferHookUpdate { transfer_hook_program_id } => {
            nonzero_opt(transfer_hook_program_id)
        },
        ExtensionInstruction::InitializeConfidentialTransferFeeConfig { authority, .. } => {
            nonzero_opt(authority)
        },
        _ => true,
    }
}

/// The exact wire bytes of an instruction.
pub open spec fn spec_encode(ix: ExtensionInstruction) -> Seq<u8> {
    match ix {
        ExtensionInstruction::PausableInitialize { authority } => spec_pausable_initialize_data(
            authority@,
        ),
        ExtensionInstruction::Pause => spec_pause_data(),
        ExtensionInstruction::Resume => spec_resume_data(),
        ExtensionInstruction::MemoTransferEnable => spec_memo_transfer_data(
            RequiredMemoTransfersInstruction::Enable,
        ),
        ExtensionInstruction::MemoTransferDisable => spec_memo_transfer_data(
            RequiredMemoTransfersInstruction::Disable,
        ),
        ExtensionInstruction::MetadataPointerInitialize { authority, metadata_address } => {
            spec_metadata_pointer_initialize_data(
                opt_addr_view(authority),
                opt_addr_view(metadata_address),
            )
        },
        ExtensionInstruction::MetadataPointerUpdate { new_metadata_address } => {
            spec_metadata_pointer_update_data(opt_addr_view(new_metadata_address))
        },
        ExtensionInstruction::TransferHookInitialize { authority, transfer_hook_program_id } => {
            spec_transfer_hook_initialize_data(
                opt_addr_view(authority),
                opt_addr_view(transfer_hook_program_id),
            )
        },
        ExtensionInstruction::TransferHookUpdate { transfer_hook_program_id } => {
            spec_transfer_hook_update_data(opt_addr_view(transfer_hook_program_id))
        },
        ExtensionInstruction::InitializeTransferFeeConfig {
            transfer_fee_config_authority,
            withdraw_withheld_authority,
            transfer_fee_basis_points,
            maximum_fee,
        } => {
            spec_initialize_transfer_fee_config_data(
                opt_addr_view(transfer_fee_config_authority),
                opt_addr_view(withdraw_withheld_authority),
                transfer_fee_basis_points,
                maximum_fee,
            )
        },
        ExtensionInstruction::TransferCheckedWithFee { amount, decimals, fee } => {
            spec_transfer_checked_with_fee_data(amount, decimals, fee)
        },
        ExtensionInstruction::WithdrawWithheldTokensFromMint => {
            spec_withdraw_withheld_tokens_from_mint_data()
        },
        ExtensionInstruction::WithdrawWithheldTokensFromAccounts { num_token_accounts } => {
            spec_withdraw_withheld_tokens_from_accounts_data(num_token_accounts)
        },
        ExtensionInstruction::HarvestWithheldTokensToMint => {
            spec_harvest_withheld_tokens_to_mint_data()
        },
        ExtensionInstruction::SetTransferFee { transfer_fee_basis_points, maximum_fee } => {
            spec_set_transfer_fee_data(transfer_fee_basis_points, maximum_fee)
        },
        ExtensionInstruction::InitializeNonTransferableMint => {
            spec_initialize_non_transferable_mint_data()
        },
        ExtensionInstruction::InitializePermanentDelegate { delegate } => {
            spec_permanent_delegate_data(delegate@)
        },
        ExtensionInstruction::InterestBearingInitialize { rate_authority, rate } => {
            spec_interest_bearing_initialize_data(opt_addr_view(rate_authority), rate)
        },
        ExtensionInstruction::InterestBearingUpdateRate { new_rate } => {
            spec_interest_bearing_update_rate_data(new_rate)
        },
        ExtensionInstruction::InitializeConfidentialTransferFeeConfig {
            authority,
            withdraw_withheld_authority_elgamal_pubkey,
        } => {
            spec_initialize_confidential_transfer_fee_config_data(
                opt_addr_view(authority),
                withdraw_withheld_authority_elgamal_pubkey@,
            )
        },
    }
}

/// The array whose positions `i` and above are taken from `s`, and whose
/// positions below `i` are taken from `a`.
pub open spec fn arr32_fill_from(a: Address, s: Seq<u8>, i: int) -> Address
    decreases 32 - i,
{
    if i < 0 || i >= 32 {
        a
    } else {
        arr32_fill_from(spec_array_update(a, i, s[i]), s, i + 1)
    }
}

/// The 32-byte array holding a 32-byte sequence.
pub open spec fn addr_from_seq(s: Seq<u8>) -> Address {
    arr32_fill_from(spec_array_fill_for_copy_type(0u8), s, 0)
}

proof fn lemma_arr32_fill_from(a: Address, s: Seq<u8>, i: int)
    requires
        0 <= i <= 32,
        s.len() == 32,
    ensures
        forall|j: int| 0 <= j < i ==> arr32_fill_from(a, s, i)@[j] == a@[j],
        forall|j: int| i <= j < 32 ==> arr32_fill_from(a, s, i)@[j] == s[j],
    decreases 32 - i,
{
    if i < 32 {
        let a2 = spec_array_update(a, i, s[i]);
        lemma_arr32_fill_from(a2, s, i + 1);
        assert(arr32_fill_from(a, s, i) == arr32_fill_from(a2, s, i + 1));
        assert(a2@ == a@.update(i, s[i]));
        assert forall|j: int| 0 <= j < i implies arr32_fill_from(a, s, i)@[j] == a@[j] by {
            assert(arr32_fill_from(a2, s, i + 1)@[j] == a2@[j]);
        }
        assert forall|j: int| i <= j < 32 implies arr32_fill_from(a, s, i)@[j] == s[j] by {
            if j == i {
                assert(arr32_fill_from(a2, s, i + 1)@[j] == a2@[j]);
            }
        }
    } else {
        assert(arr32_fill_from(a, s, i) == a);
    }
}

/// Reading a 32-byte sequence into an array keeps its bytes.
proof fn lemma_addr_from_seq(s: Seq<u8>)
    requires
        s.len() == 32,
    ensures
        addr_from_seq(s)@ == s,
{
    lemma_arr32_fill_from(spec_array_fill_for_copy_type(0u8), s, 0);
    assert(addr_from_seq(s)@ =~= s);
}

/// A zero-fill 32-byte field read back: the all-zero address means absent.
pub open spec fn spec_decode_zero_fill(s: Seq<u8>) -> Option<Address> {
    if s == zero_address() {
        None
    } else {
        Some(addr_from_seq(s))
    }
}

/// How many wire bytes a presence-flag optional field occupies.
pub open spec fn flagged_len(o: Option<Address>) -> int {
    match o {
        Some(_) => 33,
        None => 1,
    }
}

/// A presence-flag optional field read back from offset `i`: the value and
/// the offset just past it, or nothing when the flag byte is invalid or the
/// field is truncated.
pub open spec fn spec_decode_flagged(b: Seq<u8>, i: int) -> Option<(Option<Address>, int)> {
    if 0 <= i < b.len() {
        if b[i] == 0 {
            Some((None, i + 1))
        } else if b[i] == 1 && i + 33 <= b.len() {
            Some((Some(addr_from_seq(b.subrange(i + 1, i + 33))), i + 33))
        } else {
            None
        }
    } else {
        None
    }
}

/// The instruction a byte buffer holds, or nothing when the buffer is not
/// the exact encoding of any instruction of this union.
pub open spec fn spec_decode(b: Seq<u8>) -> Option<ExtensionInstruction> {
    if b.len() < 1 {
        None
    } else if b[0] == 0 {
        match spec_decode_flagged(b, 1) {
            Some((rate_authority, o)) => {
                if b.len() == o + 2 {
                    Some(
                        ExtensionInstruction::InterestBearingInitialize {
                            rate_authority,
                            rate: spec_u16_from_le_bytes(b.subrange(o, o + 2)) as i16,
                        },
                    )
                } else {
                    None
                }
            },
            None => None,
        }
    } else if b[0] == 1 {
        if b.len() == 3 {
            Some(
                ExtensionInstruction::InterestBearingUpdateRate {
                    new_rate: spec_u16_from_le_bytes(b.subrange(1, 3)) as i16,
                },
            )
        } else {
            None
        }
    } else if b[0] == 26 {
        if b.len() < 2 {
            None
        } else if b[1] == 0 {
            match spec_decode_flagged(b, 2) {
                Some((transfer_fee_config_authority, o1)) => {
                    match spec_decode_flagged(b, o1) {
                        Some((withdraw_withheld_authority, o2)) => {
                            if b.len() == o2 + 4 {
                                Some(
                                    ExtensionInstruction::InitializeTransferFeeConfig {
                                        transfer_fee_config_authority,
                                        withdraw_withheld_authority,
                                        transfer_fee_basis_points: spec_u16_from_le_bytes(
                                            b.subrange(o2, o2 + 2),
                                        ),
                                        maximum_fee: spec_u16_from_le_bytes(
                                            b.subrange(o2 + 2, o2 + 4),
                                        ),
                                    },
                                )
                            } else {
                                None
                            }
                        },
                        None => None,
                    }
                },
                None => None,
            }
        } else if b[1] == 1 {
            if b.len() == 19 {
                Some(
                    ExtensionInstruction::TransferCheckedWithFee {
                        amount: spec_u64_from_le_bytes(b.subrange(2, 10)),
                        decimals: b[10],
                        fee: spec_u64_from_le_bytes(b.subrange(11, 19)),
                    },
                )
            } else {
                None
            }
        } else if b[1] == 2 {
            if b.len() == 2 {
                Some(ExtensionInstruction::WithdrawWithheldTokensFromMint)
            } else {
                None
            }
        } else if b[1] == 3 {
            if b.len() == 3 {
                Some(
                    ExtensionInstruction::WithdrawWithheldTokensFromAccounts {
                        num_token_accounts: b[2],
                    },
                )
            } else {
                None
            }
        } else if b[1] == 4 {
            if b.len() == 2 {
                Some(ExtensionInstruction::HarvestWithheldTokensToMint)
            } else {
                None
            }
        } else if b[1] == 5 {
            if b.len() == 12 {
                Some(
                    ExtensionInstruction::SetTransferFee {
                        transfer_fee_basis_points: spec_u16_from_le_bytes(b.subrange(2, 4)),
                        maximum_fee: spec_u64_from_le_bytes(b.subrange(4, 12)),
                    },
                )
            } else {
                None
            }
        } else {
            None
        }
    } else if b[0] == 30 {
        if b.len() == 2 && b[1] == 0 {
            Some(ExtensionInstruction::MemoTransferEnable)
        } else if b.len() == 2 && b[1] == 1 {
            Some(ExtensionInstruction::MemoTransferDisable)
        } else {
            None
        }
    } else if b[0] == 32 {
        if b.len() == 1 {
            Some(ExtensionInstruction::InitializeNonTransferableMint)
        } else {
            None
        }
    } else if b[0] == 35 {
        if b.len() == 33 {
            Some(
                ExtensionInstruction::InitializePermanentDelegate {
                    delegate: addr_from_seq(b.subrange(1, 33)),
                },
            )
        } else {
            None
        }
    } else if b[0] == 36 {
        if b.len() == 66 && b[1] == 0 {
            Some(
                ExtensionInstruction::TransferHookInitialize {
                    authority: spec_decode_zero_fill(b.subrange(2, 34)),
                    transfer_hook_program_id: spec_decode_zero_fill(b.subrange(34, 66)),
                },
            )
        } else if b.len() == 34 && b[1] == 1 {
            Some(
                ExtensionInstruction::TransferHookUpdate {
                    transfer_hook_program_id: spec_decode_zero_fill(b.subrange(2, 34)),
                },
            )
        } else {
            None
        }
    } else if b[0] == 37 {
        if b.len() == 66 && b[1] == 0 {
            Some(
                ExtensionInstruction::InitializeConfidentialTransferFeeConfig {
                    authority: spec_decode_zero_fill(b.subrange(2, 34)),
                    withdraw_withheld_authority_elgamal_pubkey: addr_from_seq(b.subrange(34, 66)),
                },
            )
        } else {
            None
        }
    } else if b[0] == 39 {
        if b.len() == 66 && b[1] == 0 {
            Some(
                ExtensionInstruction::MetadataPointerInitialize {
                    authority: spec_decode_zero_fill(b.subrange(2, 34)),
                    metadata_address: spec_decode_zero_fill(b.subrange(34, 66)),
                },
            )
        } else if b.len() == 34 && b[1] == 1 {
            Some(
                ExtensionInstruction::MetadataPointerUpdate {
                    new_metadata_address: spec_decode_zero_fill(b.subrange(2, 34)),
                },
            )
        } else {
            None
        }
    } else if b[0] == 44 {
        if b.len() == 34 && b[1] == 0 {
            Some(
                ExtensionInstruction::PausableInitialize {
                    authority: addr_from_seq(b.subrange(2, 34)),
                },
            )
        } else if b.len() == 2 && b[1] == 1 {
            Some(ExtensionInstruction::Pause)
        } else if b.len() == 2 && b[1] == 2 {
            Some(ExtensionInstruction::Resume)
        } else {
            None
        }
    } else {
        None
    }
}

impl ExtensionInstruction {
    /// Encode this instruction to its exact wire bytes.
    pub fn encode(&self) -> (r: Vec<u8>)
        ensures
            r@ == spec_encode(*self),
    {
        match self {
            ExtensionInstruction::PausableInitialize { authority } => {
                crate::pausable::pausable_initialize_instruction_data(authority)
            },
            ExtensionInstruction::Pause => crate::pausable::pause_instruction_data(),
            ExtensionInstruction::Resume => crate::pausable::resume_instruction_data(),
            ExtensionInstruction::MemoTransferEnable => {
                let d = crate::memo_transfer::encode_instruction_data(
                    RequiredMemoTransfersInstruction::Enable,
                );
                let r = vstd::slice::slice_to_vec(d.as_slice());
                r
            },
            ExtensionInstruction::MemoTransferDisable => {
                let d = crate::memo_transfer::encode_instruction_data(
                    RequiredMemoTransfersInstruction::Disable,
                );
                let r = vstd::slice::slice_to_vec(d.as_slice());
                r
            },
            ExtensionInstruction::MetadataPointerInitialize { authority, metadata_address } => {
                crate::metadata_pointer::encode_initialize_instruction_data(
                    authority.as_ref(),
                    metadata_address.as_ref(),
                )
            },
            ExtensionInstruction::MetadataPointerUpdate { new_metadata_address } => {
                crate::metadata_pointer::encode_update_instruction_data(
                    new_metadata_address.as_ref(),
                )
            },
            ExtensionInstruction::TransferHookInitialize {
                authority,
                transfer_hook_program_id,
            } => {
                crate::transfer_hook::transfer_hook_initialize_instruction_data(
                    authority.as_ref(),
                    transfer_hook_program_id.as_ref(),
                )
            },
            ExtensionInstruction::TransferHookUpdate { transfer_hook_program_id } => {
                crate::transfer_hook::transfer_hook_update_instruction_data(
                    transfer_hook_program_id.as_ref(),
                )
            },
            ExtensionInstruction::InitializeTransferFeeConfig {
                transfer_fee_config_authority,
                withdraw_withheld_authority,
                transfer_fee_basis_points,
                maximum_fee,
            } => {
                crate::transfer_fee::initialize_transfer_fee_config_instruction_data(
                    transfer_fee_config_authority.as_ref(),
                    withdraw_withheld_authority.as_ref(),
                    *transfer_fee_basis_points,
                    *maximum_fee,
                )
            },
            ExtensionInstruction::TransferCheckedWithFee { amount, decimals, fee } => {
                crate::transfer_fee::transfer_checked_with_fee_instruction_data(
                    *amount,
                    *decimals,
                    *fee,
                )
            },
            ExtensionInstruction::WithdrawWithheldTokensFromMint => {
                crate::transfer_fee::withdraw_withheld_tokens_from_mint_instruction_data()
            },
            ExtensionInstruction::WithdrawWithheldTokensFromAccounts { num_token_accounts } => {
                crate::transfer_fee::withdraw_withheld_tokens_from_accounts_instruction_data(
                    *num_token_accounts,
                )
            },
            ExtensionInstruction::HarvestWithheldTokensToMint => {
                crate::transfer_fee::harvest_withheld_tokens_to_mint_instruction_data()
            },
            ExtensionInstruction::SetTransferFee { transfer_fee_basis_points, maximum_fee } => {
                crate::transfer_fee::set_transfer_fee_instruction_data(
                    *transfer_fee_basis_points,
                    *maximum_fee,
                )
            },
            ExtensionInstruction::InitializeNonTransferableMint => {
                crate::non_transferable::initialize_non_transferable_mint_instruction_data()
            },
            ExtensionInstruction::InitializePermanentDelegate { delegate } => {
                crate::permanent_delegate::permanent_delegate_instruction_data(delegate)
            },
            ExtensionInstruction::InterestBearingInitialize { rate_authority, rate } => {
                crate::interest_bearing_mint::initialize_interest_bearing_mint_instruction_data(
                    rate_authority.as_ref(),
                    *rate,
                )
            },
            ExtensionInstruction::InterestBearingUpdateRate { new_rate } => {
                crate::interest_bearing_mint::update_interest_bearing_mint_rate_instruction_data(
                    *new_rate,
                )
            },
            ExtensionInstruction::InitializeConfidentialTransferFeeConfig {
                authority,
                withdraw_withheld_authority_elgamal_pubkey,
            } => {
                crate::confidential_transfer_fee::initialize_confidential_transfer_fee_config_instruction_data(
                    authority.as_ref(),
                    withdraw_withheld_authority_elgamal_pubkey,
                )
            },
        }
    }
}

/// Whether an address is the reserved all-zero address.
fn is_zero_address(a: &Address) -> (r: bool)
    ensures
        r <==> a@ == zero_address(),
{
    let mut i: usize = 0;
    let mut all_zero = true;
    while i < 32
        invariant
            i <= 32,
            all_zero <==> (forall|j: int| 0 <= j < i ==> a@[j] == 0u8),
        decreases 32 - i,
    {
        if a[i] != 0 {
            all_zero = false;
        }
        i = i + 1;
    }
    proof {
        if all_zero {
            assert(a@ =~= zero_address());
        } else {
            assert(a@ != zero_address());
        }
    }
    all_zero
}

/// Read a zero-fill optional address at offset `i`.
fn read_zero_fill(b: &[u8], i: usize) -> (r: Option<Address>)
    requires
        i + 32 <= b@.len(),
    ensures
        r == spec_decode_zero_fill(b@.subrange(i as int, i as int + 32)),
{
    let a: Address = crate::codec::read_array(b, i);
    proof {
        lemma_addr_from_seq(b@.subrange(i as int, i as int + 32));
        assert(addr_from_seq(b@.subrange(i as int, i as int + 32)) =~= a);
    }
    if is_zero_address(&a) {
        None
    } else {
        Some(a)
    }
}

/// Read a presence-flag optional address at offset `i`, returning the value
/// and the offset just past it.
fn read_flagged(b: &[u8], i: usize) -> (r: Option<(Option<Address>, usize)>)
    ensures
        ({
            let s = spec_decode_flagged(b@, i as int);
            match r {
                Some(p) => s == Some((p.0, p.1 as int)) && p.1 <= b@.len(),
                None => s is None,
            }
        }),
{
    let n = b.len();
    if i >= n {
        return None;
    }
    let flag = b[i];
    if flag == 0 {
        Some((None, i + 1))
    } else if flag == 1 && n - i >= 33 {
        let a: Address = crate::codec::read_array(b, i + 1);
        proof {
            lemma_addr_from_seq(b@.subrange(i as int + 1, i as int + 33));
            assert(addr_from_seq(b@.subrange(i as int + 1, i as int + 33)) =~= a);
        }
        Some((Some(a), i + 33))
    } else {
        None
    }
}

impl ExtensionInstruction {
    /// Decode a byte buffer into the instruction it encodes, or nothing
    /// when the buffer is not the exact encoding of any instruction of this
    /// union.
    pub fn decode(data: &[u8]) -> (r: Option<ExtensionInstruction>)
        ensures
            r == spec_decode(data@),
    {
        let n = data.len();
        if n < 1 {
            return None;
        }
        let tag = data[0];
        if tag == 0 {
            match read_flagged(data, 1) {
                Some((rate_authority, o)) => {
                    if n - o == 2 {
                        let rate = vstd::bytes::u16_from_le_bytes(
                            vstd::slice::slice_subrange(data, o, o + 2),
                        ) as i16;
                        Some(ExtensionInstruction::InterestBearingInitialize {
                            rate_authority,
                            rate,
                        })
                    } else {
                        None
                    }
                },
                None => None,
            }
        } else if tag == 1 {
            if n == 3 {
                let new_rate = vstd::bytes::u16_from_le_bytes(
                    vstd::slice::slice_subrange(data, 1, 3),
                ) as i16;
                Some(ExtensionInstruction::InterestBearingUpdateRate { new_rate })
            } else {
                None
            }
        } else if tag == 26 {
            if n < 2 {
                return None;
            }
            let sub = data[1];
            if sub == 0 {
                match read_flagged(data, 2) {
                    Some((transfer_fee_config_authority, o1)) => {
                        match read_flagged(data, o1) {
                            Some((withdraw_withheld_authority, o2)) => {
                                if n - o2 == 4 {
                                    let transfer_fee_basis_points = vstd::bytes::u16_from_le_bytes(
                                        vstd::slice::slice_subrange(data, o2, o2 + 2),
                                    );
                                    let maximum_fee = vstd::bytes::u16_from_le_bytes(
                                        vstd::slice::slice_subrange(data, o2 + 2, o2 + 4),
                                    );
                                    Some(ExtensionInstruction::InitializeTransferFeeConfig {
                                        transfer_fee_config_authority,
                                        withdraw_withheld_authority,
                                        transfer_fee_basis_points,
                                        maximum_fee,
                                    })
                                } else {
                                    None
                                }
                            },
                            None => None,
                        }
                    },
                    None => None,
                }
            } else if sub == 1 {
                if n == 19 {
                    let amount = vstd::bytes::u64_from_le_bytes(
                        vstd::slice::slice_subrange(data, 2, 10),
                    );
                    let decimals = data[10];
                    let fee = vstd::bytes::u64_from_le_bytes(
                        vstd::slice::slice_subrange(data, 11, 19),
                    );
                    Some(ExtensionInstruction::TransferCheckedWithFee { amount, decimals, fee })
                } else {
                    None
                }
            } else if sub == 2 {
                if n == 2 {
                    Some(ExtensionInstruction::WithdrawWithheldTokensFromMint)
                } else {
                    None
                }
            } else if sub == 3 {
                if n == 3 {
                    Some(ExtensionInstruction::WithdrawWithheldTokensFromAccounts {
                        num_token_accounts: data[2],
                    })
                } else {
                    None
                }
            } else if sub == 4 {
                if n == 2 {
                    Some(ExtensionInstruction::HarvestWithheldTokensToMint)
                } else {
                    None
                }
            } else if sub == 5 {
                if n == 12 {
                    let transfer_fee_basis_points = vstd::bytes::u16_from_le_bytes(
                        vstd::slice::slice_subrange(data, 2, 4),
                    );
                    let maximum_fee = vstd::bytes::u64_from_le_bytes(
                        vstd::slice::slice_subrange(data, 4, 12),
                    );
                    Some(ExtensionInstruction::SetTransferFee {
                        transfer_fee_basis_points,
                        maximum_fee,
                    })
                } else {
                    None
                }
            } else {
                None
            }
        } else if tag == 30 {
            if n == 2 && data[1] == 0 {
                Some(ExtensionInstruction::MemoTransferEnable)
            } else if n == 2 && data[1] == 1 {
                Some(ExtensionInstruction::MemoTransferDisable)
            } else {
                None
            }
        } else if tag == 32 {
            if n == 1 {
                Some(ExtensionInstruction::InitializeNonTransferableMint)
            } else {
                None
            }
        } else if tag == 35 {
            if n == 33 {
                let delegate: Address = crate::codec::read_array(data, 1);
                proof {
                    lemma_addr_from_seq(data@.subrange(1, 33));
                    assert(addr_from_seq(data@.subrange(1, 33)) =~= delegate);
                }
                Some(ExtensionInstruction::InitializePermanentDelegate { delegate })
            } else {
                None
            }
        } else if tag == 36 {
            if n == 66 && data[1] == 0 {
                let authority = read_zero_fill(data, 2);
                let transfer_hook_program_id = read_zero_fill(data, 34);
                Some(ExtensionInstruction::TransferHookInitialize {
                    authority,
                    transfer_hook_program_id,
                })
            } else if n == 34 && data[1] == 1 {
                let transfer_hook_program_id = read_zero_fill(data, 2);
                Some(ExtensionInstruction::TransferHookUpdate { transfer_hook_program_id })
            } else {
                None
            }
        } else if tag == 37 {
            if n == 66 && data[1] == 0 {
                let authority = read_zero_fill(data, 2);
                let elgamal: [u8; 32] = crate::codec::read_array(data, 34);
                proof {
                    lemma_addr_from_seq(data@.subrange(34, 66));
                    assert(addr_from_seq(data@.subrange(34, 66)) =~= elgamal);
                }
                Some(ExtensionInstruction::InitializeConfidentialTransferFeeConfig {
                    authority,
                    withdraw_withheld_authority_elgamal_pubkey: elgamal,
                })
            } else {
                None
            }
        } else if tag == 39 {
            if n == 66 && data[1] == 0 {
                let authority = read_zero_fill(data, 2);
                let metadata_address = read_zero_fill(data, 34);
                Some(ExtensionInstruction::MetadataPointerInitialize {
                    authority,
                    metadata_address,
                })
            } else if n == 34 && data[1] == 1 {
                let new_metadata_address = read_zero_fill(data, 2);
                Some(ExtensionInstruction::MetadataPointerUpdate { new_metadata_address })
            } else {
                None
            }
        } else if tag == 44 {
            if n == 34 && data[1] == 0 {
                let authority: Address = crate::codec::read_array(data, 2);
                proof {
                    lemma_addr_from_seq(data@.subrange(2, 34));
                    assert(addr_from_seq(data@.subrange(2, 34)) =~= authority);
                }
                Some(ExtensionInstruction::PausableInitialize { authority })
            } else if n == 2 && data[1] == 1 {
                Some(ExtensionInstruction::Pause)
            } else if n == 2 && data[1] == 2 {
                Some(ExtensionInstruction::Resume)
            } else {
                None
            }
        } else {
            None
        }
    }
}

/// The zero-fill form of an optional address is always 32 bytes.
proof fn lemma_zero_fill_len(o: Option<Address>)
    ensures
        zero_fill_option_bytes(opt_addr_view(o)).len() == 32,
{
    if o is Some {
        assert(opt_addr_view(o) matches Some(a) && a.len() == 32);
    }
}

/// The flag form of an optional address is its declared length: one byte
/// when absent, 33 bytes when present.
proof fn lemma_flagged_len(o: Option<Address>)
    ensures
        flagged_option_bytes(opt_addr_view(o)).len() == flagged_len(o),
{
    if o is Some {
        assert(opt_addr_view(o) matches Some(a) && a.len() == 32);
    }
}

/// A presence-flag field written at offset `i` of a buffer reads back as
/// the value written, with the cursor just past it.
proof fn lemma_flagged_field(b: Seq<u8>, o: Option<Address>, i: int)
    requires
        0 <= i,
        i + flagged_len(o) <= b.len(),
        b.subrange(i, i + flagged_len(o)) == flagged_option_bytes(opt_addr_view(o)),
    ensures
        spec_decode_flagged(b, i) == Some((o, i + flagged_len(o))),
{
    lemma_flagged_len(o);
    match o {
        None => {
            assert(b[i] == flagged_option_bytes(opt_addr_view(o))[0]);
        },
        Some(a) => {
            assert(b[i] == flagged_option_bytes(opt_addr_view(o))[0]);
            assert(b[i] == 1);
            assert(b.subrange(i + 1, i + 33) =~= flagged_option_bytes(opt_addr_view(o)).subrange(
                1,
                33,
            ));
            assert(b.subrange(i + 1, i + 33) =~= a@);
            lemma_addr_from_seq(a@);
            assert(addr_from_seq(b.subrange(i + 1, i + 33)) =~= a);
        },
    }
}

/// A zero-fill field written by a well-formed option reads back as the
/// option written.
proof fn lemma_zero_fill_field(o: Option<Address>)
    requires
        nonzero_opt(o),
    ensures
        spec_decode_zero_fill(zero_fill_option_bytes(opt_addr_view(o))) == o,
{
    match o {
        None => {
        },
        Some(a) => {
            assert(zero_fill_option_bytes(opt_addr_view(o)) == a@);
            lemma_addr_from_seq(a@);
            assert(addr_from_seq(a@) =~= a);
        },
    }
}

/// Round trip: decoding the encoding of any well-formed instruction gives
/// back exactly the fields that were encoded, for every instruction kind
/// and under both optional-value conventions.
pub proof fn lemma_decode_encode_roundtrip(ix: ExtensionInstruction)
    requires
        wf_instruction(ix),
    ensures
        spec_decode(spec_encode(ix)) == Some(ix),
{
    lemma_auto_spec_u16_to_from_le_bytes();
    lemma_auto_spec_u64_to_from_le_bytes();
    let b = spec_encode(ix);
    match ix {
        ExtensionInstruction::PausableInitialize { authority } => {
            assert(b.len() == 34);
            assert(b.subrange(2, 34) =~= authority@);
            lemma_addr_from_seq(authority@);
            assert(addr_from_seq(authority@) =~= authority);
        },
        ExtensionInstruction::Pause => {
            assert(b.len() == 2);
        },
        ExtensionInstruction::Resume => {
            assert(b.len() == 2);
        },
        ExtensionInstruction::MemoTransferEnable => {
            assert(b.len() == 2);
        },
        ExtensionInstruction::MemoTransferDisable => {
            assert(b.len() == 2);
        },
        ExtensionInstruction::MetadataPointerInitialize { authority, metadata_address } => {
            lemma_zero_fill_len(authority);
            lemma_zero_fill_len(metadata_address);
            assert(b.len() == 66);
            assert(b.subrange(2, 34) =~= zero_fill_option_bytes(opt_addr_view(authority)));
            assert(b.subrange(34, 66) =~= zero_fill_option_bytes(opt_addr_view(metadata_address)));
            lemma_zero_fill_field(authority);
            lemma_zero_fill_field(metadata_address);
        },
        ExtensionInstruction::MetadataPointerUpdate { new_metadata_address } => {
            lemma_zero_fill_len(new_metadata_address);
            assert(b.len() == 34);
            assert(b.subrange(2, 34) =~= zero_fill_option_bytes(
                opt_addr_view(new_metadata_address),
            ));
            lemma_zero_fill_field(new_metadata_address);
        },
        ExtensionInstruction::TransferHookInitialize { authority, transfer_hook_program_id } => {
            lemma_zero_fill_len(authority);
            lemma_zero_fill_len(transfer_hook_program_id);
            assert(b.len() == 66);
            assert(b.subrange(2, 34) =~= zero_fill_option_bytes(opt_addr_view(authority)));
            assert(b.subrange(34, 66) =~= zero_fill_option_bytes(
                opt_addr_view(transfer_hook_program_id),
            ));
            lemma_zero_fill_field(authority);
            lemma_zero_fill_field(transfer_hook_program_id);
        },
        ExtensionInstruction::TransferHookUpdate { transfer_hook_program_id } => {
            lemma_zero_fill_len(transfer_hook_program_id);
            assert(b.len() == 34);
            assert(b.subrange(2, 34) =~= zero_fill_option_bytes(
                opt_addr_view(transfer_hook_program_id),
            ));
            lemma_zero_fill_field(transfer_hook_program_id);
        },
        ExtensionInstruction::InitializeTransferFeeConfig {
            transfer_fee_config_authority,
            withdraw_withheld_authority,
            transfer_fee_basis_points,
            maximum_fee,
        } => {
            lemma_flagged_len(transfer_fee_config_authority);
            lemma_flagged_len(withdraw_withheld_authority);
            let l1 = flagged_len(transfer_fee_config_authority);
            let l2 = flagged_len(withdraw_withheld_authority);
            assert(b.len() == 2 + l1 + l2 + 4);
            assert(b.subrange(2, 2 + l1) =~= flagged_option_bytes(
                opt_addr_view(transfer_fee_config_authority),
            ));
            assert(b.subrange(2 + l1, 2 + l1 + l2) =~= flagged_option_bytes(
                opt_addr_view(withdraw_withheld_authority),
            ));
            lemma_flagged_field(b, transfer_fee_config_authority, 2);
            lemma_flagged_field(b, withdraw_withheld_authority, 2 + l1);
            assert(b.subrange(2 + l1 + l2, 2 + l1 + l2 + 2) =~= spec_u16_to_le_bytes(
                transfer_fee_basis_points,
            ));
            assert(b.subrange(2 + l1 + l2 + 2, 2 + l1 + l2 + 4) =~= spec_u16_to_le_bytes(
                maximum_fee,
            ));
        },
        ExtensionInstruction::TransferCheckedWithFee { amount, decimals, fee } => {
            assert(b.len() == 19);
            assert(b.subrange(2, 10) =~= spec_u64_to_le_bytes(amount));
            assert(b[10] == decimals);
            assert(b.subrange(11, 19) =~= spec_u64_to_le_bytes(fee));
        },
        ExtensionInstruction::WithdrawWithheldTokensFromMint => {
            assert(b.len() == 2);
        },
        ExtensionInstruction::WithdrawWithheldTokensFromAccounts { num_token_accounts } => {
            assert(b.len() == 3);
        },
        ExtensionInstruction::HarvestWithheldTokensToMint => {
            assert(b.len() == 2);
        },
        ExtensionInstruction::SetTransferFee { transfer_fee_basis_points, maximum_fee } => {
            assert(b.len() == 12);
            assert(b.subrange(2, 4) =~= spec_u16_to_le_bytes(transfer_fee_basis_points));
            assert(b.subrange(4, 12) =~= spec_u64_to_le_bytes(maximum_fee));
        },
        ExtensionInstruction::InitializeNonTransferableMint => {
            assert(b.len() == 1);
        },
        ExtensionInstruction::InitializePermanentDelegate { delegate } => {
            assert(b.len() == 33);
            assert(b.subrange(1, 33) =~= delegate@);
            lemma_addr_from_seq(delegate@);
            assert(addr_from_seq(delegate@) =~= delegate);
        },
        ExtensionInstruction::InterestBearingInitialize { rate_authority, rate } => {
            lemma_flagged_len(rate_authority);
            let l1 = flagged_len(rate_authority);
            assert(b.len() == 1 + l1 + 2);
            assert(b.subrange(1, 1 + l1) =~= flagged_option_bytes(opt_addr_view(rate_authority)));
            lemma_flagged_field(b, rate_authority, 1);
            assert(b.subrange(1 + l1, 1 + l1 + 2) =~= spec_u16_to_le_bytes(rate as u16));
            assert(((rate as u16) as i16) == rate) by (bit_vector);
        },
        ExtensionInstruction::InterestBearingUpdateRate { new_rate } => {
            assert(b.len() == 3);
            assert(b.subrange(1, 3) =~= spec_u16_to_le_bytes(new_rate as u16));
            assert(((new_rate as u16) as i16) == new_rate) by (bit_vector);
        },
        ExtensionInstruction::InitializeConfidentialTransferFeeConfig {
            authority,
            withdraw_withheld_authority_elgamal_pubkey,
        } => {
            lemma_zero_fill_len(authority);
            assert(b.len() == 66);
            assert(b.subrange(2, 34) =~= zero_fill_option_bytes(opt_addr_view(authority)));
            assert(b.subrange(34, 66) =~= withdraw_withheld_authority_elgamal_pubkey@);
            lemma_zero_fill_field(authority);
            lemma_addr_from_seq(withdraw_withheld_authority_elgamal_pubkey@);
            assert(addr_from_seq(withdraw_withheld_authority_elgamal_pubkey@)
                =~= withdraw_withheld_authority_elgamal_pubkey);
        },
    }
}

} // verus!
