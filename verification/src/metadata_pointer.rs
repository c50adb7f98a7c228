//! The metadata-pointer extension: a mint may point at the account that
//! holds its metadata.  Both instruction payloads carry their optional
//! addresses under the zero-fill convention.

use vstd::prelude::*;

verus! {

use crate::Address;
use crate::accounts::AccountDescriptor;
use crate::accounts::readonly_signer_desc;
use crate::accounts::writable_desc;
use crate::codec::opt_view;
use crate::codec::write_optional_nonzero_pubkey;
use crate::codec::zero_fill_option_bytes;

/// Discriminator of the metadata-pointer extension instruction family.
pub const METADATA_POINTER_EXTENSION_DISCRIMINATOR: u8 = 39;

/// Sub-instruction of the metadata-pointer extension.
#[derive(Clone, Copy, Debug, PartialEq, Eq, Structural)]
pub enum MetadataPointerInstruction {
    /// Attach the metadata-pointer extension to a mint.
    Initialize,
    /// Point the mint at another metadata address, or clear the pointer.
    Update,
}

/// The sub-discriminator byte of a metadata-pointer sub-instruction.
pub open spec fn metadata_pointer_sub_code(i: MetadataPointerInstruction) -> u8 {
    match i {
        MetadataPointerInstruction::Initialize => 0,
        MetadataPointerInstruction::Update => 1,
    }
}

impl MetadataPointerInstruction {
    /// The sub-discriminator byte of this sub-instruction.
    pub fn code(&self) -> (c: u8)
        ensures
            c == metadata_pointer_sub_code(*self),
    {
        match *self {
            MetadataPointerInstruction::Initialize => 0,
            MetadataPointerInstruction::Update => 1,
        }
    }
}

/// Payload of initializing the metadata pointer: the optional update
/// authority and the optional metadata address, both zero-filled, 66 bytes.
pub open spec fn spec_metadata_pointer_initialize_data(
    authority: Option<Seq<u8>>,
    metadata_address: Option<Seq<u8>>,
) -> Seq<u8> {
    seq![METADATA_POINTER_EXTENSION_DISCRIMINATOR, 0u8] + zero_fill_option_bytes(authority)
        + zero_fill_option_bytes(metadata_address)
}

/// Payload of updating the metadata pointer: the new optional metadata
/// address, zero-filled, 34 bytes.
pub open spec fn spec_metadata_pointer_update_data(new_metadata_address: Option<Seq<u8>>) -> Seq<
    u8,
> {
    seq![METADATA_POINTER_EXTENSION_DISCRIMINATOR, 1u8] + zero_fill_option_bytes(
        new_metadata_address,
    )
}

/// Encode the 66-byte payload of initializing the metadata pointer.
pub fn encode_initialize_instruction_data(
    authority: Option<&Address>,
    metadata_address: Option<&Address>,
) -> (r: Vec<u8>)
    ensures
        r@ == spec_metadata_pointer_initialize_data(opt_view(authority), opt_view(
            metadata_address,
        )),
        r@.len() == 66,
{
    let mut data: Vec<u8> = Vec::new();
    data.push(METADATA_POINTER_EXTENSION_DISCRIMINATOR);
    data.push(MetadataPointerInstruction::Initialize.code());
    write_optional_nonzero_pubkey(&mut data, authority);
    write_optional_nonzero_pubkey(&mut data, metadata_address);
    proof {
        assert(data@ =~= spec_metadata_pointer_initialize_data(
            opt_view(authority),
            opt_view(metadata_address),
        ));
    }
    data
}

/// Encode the 34-byte payload of updating the metadata pointer.
pub fn encode_update_instruction_data(new_metadata_address: Option<&Address>) -> (r: Vec<u8>)
    ensures
        r@ == spec_metadata_pointer_update_data(opt_view(new_metadata_address)),
        r@.len() == 34,
{
    let mut data: Vec<u8> = Vec::new();
    data.push(METADATA_POINTER_EXTENSION_DISCRIMINATOR);
    data.push(MetadataPointerInstruction::Update.code());
    write_optional_nonzero_pubkey(&mut data, new_metadata_address);
    proof {
        assert(data@ =~= spec_metadata_pointer_update_data(opt_view(new_metadata_address)));
    }
    data
}

/// The single writable mint of initializing the metadata pointer.
pub fn metadata_pointer_initialize_account_metas(mint: &Address) -> (r: Vec<AccountDescriptor>)
    ensures
        r@ == seq![writable_desc(*mint)],
{
    let mut accounts: Vec<AccountDescriptor> = Vec::new();
    accounts.push(AccountDescriptor::writable(mint));
    proof {
        assert(accounts@ =~= seq![writable_desc(*mint)]);
    }
    accounts
}

/// Descriptors of updating the metadata pointer: the writable mint and the
/// signing pointer authority.
pub fn metadata_pointer_update_account_metas(mint: &Address, authority: &Address) -> (r: Vec<
    AccountDescriptor,
>)
    ensures
        r@ == seq![writable_desc(*mint), readonly_signer_desc(*authority)],
{
    let mut accounts: Vec<AccountDescriptor> = Vec::new();
    accounts.push(AccountDescriptor::writable(mint));
    accounts.push(AccountDescriptor::readonly_signer(authority));
    proof {
        assert(accounts@ =~= seq![writable_desc(*mint), readonly_signer_desc(*authority)]);
    }
    accounts
}

} // verus!
