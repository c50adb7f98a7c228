//! The memo-transfer extension: a token account may require every inbound
//! transfer to carry a memo.

use vstd::prelude::*;

verus! {

use crate::Address;
use crate::accounts::AccountDescriptor;
use crate::accounts::readonly_signer_desc;
use crate::accounts::writable_desc;

/// Discriminator of the memo-transfer extension instruction family.
pub const MEMO_TRANSFER_EXTENSION: u8 = 30;

/// Sub-instruction of the memo-transfer extension.
#[derive(Clone, Copy, Debug, PartialEq, Eq, Structural)]
pub enum RequiredMemoTransfersInstruction {
    /// Require memos for transfers into this account.
    Enable,
    /// Stop requiring memos for transfers into this account.
    Disable,
}

/// The sub-discriminator byte of a memo-transfer sub-instruction.
pub open spec fn memo_transfer_sub_code(i: RequiredMemoTransfersInstruction) -> u8 {
    match i {
        RequiredMemoTransfersInstruction::Enable => 0,
        RequiredMemoTransfersInstruction::Disable => 1,
    }
}

/// Payload of a memo-transfer sub-instruction: the two discriminator bytes.
pub open spec fn spec_memo_transfer_data(i: RequiredMemoTransfersInstruction) -> Seq<u8> {
    seq![MEMO_TRANSFER_EXTENSION, memo_transfer_sub_code(i)]
}

impl RequiredMemoTransfersInstruction {
    /// The sub-discriminator byte of this sub-instruction.
    pub fn code(&self) -> (c: u8)
        ensures
            c == memo_transfer_sub_code(*self),
    {
        match *self {
            RequiredMemoTransfersInstruction::Enable => 0,
            RequiredMemoTransfersInstruction::Disable => 1,
        }
    }
}

/// Encode the 2-byte payload of a memo-transfer sub-instruction.
pub fn encode_instruction_data(instruction_type: RequiredMemoTransfersInstruction) -> (r: [u8; 2])
    ensures
        r@ == spec_memo_transfer_data(instruction_type),
{
    let sub: u8 = instruction_type.code();
    let r: [u8; 2] = [MEMO_TRANSFER_EXTENSION, sub];
    proof {
        assert(r@ =~= spec_memo_transfer_data(instruction_type));
    }
    r
}

/// Descriptors of disabling required transfer memos: the writable token
/// account and its signing owner.
pub fn disable_required_transfer_memos_account_metas(account: &Address, owner: &Address) -> (r:
    Vec<AccountDescriptor>)
    ensures
        r@ == seq![writable_desc(*account), readonly_signer_desc(*owner)],
{
    let mut accounts: Vec<AccountDescriptor> = Vec::new();
    accounts.push(AccountDescriptor::writable(account));
    accounts.push(AccountDescriptor::readonly_signer(owner));
    proof {
        assert(accounts@ =~= seq![writable_desc(*account), readonly_signer_desc(*owner)]);
    }
    accounts
}

} // verus!
