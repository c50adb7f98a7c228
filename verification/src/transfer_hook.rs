//! The transfer-hook extension: a mint may require a cross-program call to
//! a hook program on every transfer.  Both instruction payloads carry their
//! optional addresses under the zero-fill convention.

use vstd::prelude::*;

verus! {

use crate::Address;
use crate::accounts::AccountDescriptor;
use crate::accounts::readonly_signer_desc;
use crate::accounts::writable_desc;
use crate::codec::opt_view;
use crate::codec::write_optional_nonzero_pubkey;
use crate::codec::zero_fill_option_bytes;

/// Discriminator of the transfer-hook extension instruction family.
pub const TRANSFER_HOOK_EXTENSION_DISCRIMINATOR: u8 = 36;

/// Sub-discriminator of initializing the transfer hook.
pub const INITIALIZE_DISCRIMINATOR: u8 = 0;

/// Sub-discriminator of updating the transfer-hook program.
pub const UPDATE_DISCRIMINATOR: u8 = 1;

/// Payload of initializing the transfer hook: the optional update authority
/// and the optional hook program, both zero-filled, 66 bytes.
pub open spec fn spec_transfer_hook_initialize_data(
    authority: Option<Seq<u8>>,
    transfer_hook_program_id: Option<Seq<u8>>,
) -> Seq<u8> {
    seq![TRANSFER_HOOK_EXTENSION_DISCRIMINATOR, INITIALIZE_DISCRIMINATOR] + zero_fill_option_bytes(
        authority,
    ) + zero_fill_option_bytes(transfer_hook_program_id)
}

/// Payload of updating the transfer hook: the new optional hook program,
/// zero-filled, 34 bytes.
pub open spec fn spec_transfer_hook_update_data(transfer_hook_program_id: Option<Seq<u8>>) -> Seq<
    u8,
> {
    seq![TRANSFER_HOOK_EXTENSION_DISCRIMINATOR, UPDATE_DISCRIMINATOR] + zero_fill_option_bytes(
        transfer_hook_program_id,
    )
}

/// Encode the 66-byte payload of initializing the transfer hook.
pub fn transfer_hook_initialize_instruction_data(
    authority: Option<&Address>,
    transfer_hook_program_id: Option<&Address>,
) -> (r: Vec<u8>)
    ensures
        r@ == spec_transfer_hook_initialize_data(opt_view(authority), opt_view(
            transfer_hook_program_id,
        )),
        r@.len() == 66,
{
    let mut data: Vec<u8> = Vec::new();
    data.push(TRANSFER_HOOK_EXTENSION_DISCRIMINATOR);
    data.push(INITIALIZE_DISCRIMINATOR);
    write_optional_nonzero_pubkey(&mut data, authority);
    write_optional_nonzero_pubkey(&mut data, transfer_hook_program_id);
    proof {
        assert(data@ =~= spec_transfer_hook_initialize_data(
            opt_view(authority),
            opt_view(transfer_hook_program_id),
        ));
    }
    data
}

/// Encode the 34-byte payload of updating the transfer hook.
pub fn transfer_hook_update_instruction_data(transfer_hook_program_id: Option<&Address>) -> (r:
    Vec<u8>)
    ensures
        r@ == spec_transfer_hook_update_data(opt_view(transfer_hook_program_id)),
        r@.len() == 34,
{
    let mut data: Vec<u8> = Vec::new();
    data.push(TRANSFER_HOOK_EXTENSION_DISCRIMINATOR);
    data.push(UPDATE_DISCRIMINATOR);
    write_optional_nonzero_pubkey(&mut data, transfer_hook_program_id);
    proof {
        assert(data@ =~= spec_transfer_hook_update_data(opt_view(transfer_hook_program_id)));
    }
    data
}

/// The single writable mint of initializing the transfer hook.
pub fn transfer_hook_initialize_account_metas(mint: &Address) -> (r: Vec<AccountDescriptor>)
    ensures
        r@ == seq![writable_desc(*mint)],
{
    let mut accounts: Vec<AccountDescriptor> = Vec::new();
    accounts.push(AccountDescriptor::writable(mint));
    proof {
        assert(accounts@ =~= seq![writable_desc(*mint)]);
    }
    accounts
}

/// Descriptors of updating the transfer hook: the writable mint and the
/// signing hook authority.
pub fn transfer_hook_update_account_metas(mint: &Address, authority: &Address) -> (r: Vec<
    AccountDescriptor,
>)
    ensures
        r@ == seq![writable_desc(*mint), readonly_signer_desc(*authority)],
{
    let mut accounts: Vec<AccountDescriptor> = Vec::new();
    accounts.push(AccountDescriptor::writable(mint));
    accounts.push(AccountDescriptor::readonly_signer(authority));
    proof {
        assert(accounts@ =~= seq![writable_desc(*mint), readonly_signer_desc(*authority)]);
    }
    accounts
}

} // verus!
