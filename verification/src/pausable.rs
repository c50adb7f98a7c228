//! The pausable extension: minting, burning and transferring against a mint
//! can be paused and resumed by a pause authority.

use vstd::prelude::*;

verus! {

use crate::Address;
use crate::accounts::AccountDescriptor;
use crate::accounts::BuildError;
use crate::accounts::MAX_MULTISIG_SIGNERS;
use crate::accounts::authority_fanout;
use crate::accounts::push_authority_fanout;
use crate::accounts::writable_desc;
use crate::codec::write_address;

/// Discriminator of the pausable extension instruction family.
pub const PAUSABLE_EXTENSION: u8 = 44;

/// Sub-discriminator of initializing the pausable extension.
pub const INITIALIZE: u8 = 0;

/// Sub-discriminator of pausing the mint.
pub const PAUSE: u8 = 1;

/// Sub-discriminator of resuming the mint.
pub const RESUME: u8 = 2;

/// Payload of initializing the pausable extension: the pause authority, 34
/// bytes.
pub open spec fn spec_pausable_initialize_data(authority: Seq<u8>) -> Seq<u8> {
    seq![PAUSABLE_EXTENSION, INITIALIZE] + authority
}

/// Payload of pausing the mint: the two discriminator bytes alone.
pub open spec fn spec_pause_data() -> Seq<u8> {
    seq![PAUSABLE_EXTENSION, PAUSE]
}

/// Payload of resuming the mint: the two discriminator bytes alone.
pub open spec fn spec_resume_data() -> Seq<u8> {
    seq![PAUSABLE_EXTENSION, RESUME]
}

/// Encode the 34-byte payload of initializing the pausable extension.
pub fn pausable_initialize_instruction_data(authority: &Address) -> (r: Vec<u8>)
    ensures
        r@ == spec_pausable_initialize_data(authority@),
        r@.len() == 34,
{
    let mut data: Vec<u8> = Vec::new();
    data.push(PAUSABLE_EXTENSION);
    data.push(INITIALIZE);
    write_address(&mut data, authority);
    proof {
        assert(data@ =~= spec_pausable_initialize_data(authority@));
    }
    data
}

/// Encode the 2-byte payload of pausing the mint.
pub fn pause_instruction_data() -> (r: Vec<u8>)
    ensures
        r@ == spec_pause_data(),
{
    let mut data: Vec<u8> = Vec::new();
    data.push(PAUSABLE_EXTENSION);
    data.push(PAUSE);
    proof {
        assert(data@ =~= spec_pause_data());
    }
    data
}

/// Encode the 2-byte payload of resuming the mint.
pub fn resume_instruction_data() -> (r: Vec<u8>)
    ensures
        r@ == spec_resume_data(),
{
    let mut data: Vec<u8> = Vec::new();
    data.push(PAUSABLE_EXTENSION);
    data.push(RESUME);
    proof {
        assert(data@ =~= spec_resume_data());
    }
    data
}

/// The single writable mint of initializing the pausable extension.
pub fn pausable_initialize_account_metas(mint: &Address) -> (r: Vec<AccountDescriptor>)
    ensures
        r@ == seq![writable_desc(*mint)],
{
    let mut accounts: Vec<AccountDescriptor> = Vec::new();
    accounts.push(AccountDescriptor::writable(mint));
    proof {
        assert(accounts@ =~= seq![writable_desc(*mint)]);
    }
    accounts
}

/// Descriptors of pausing the mint: the writable mint, then the pause
/// authority's fan-out.  Rejected when the signer count exceeds its ceiling.
pub fn pause_account_metas(mint: &Address, authority: &Address, signers: &[Address]) -> (r: Result<
    Vec<AccountDescriptor>,
    BuildError,
>)
    ensures
        signers@.len() <= MAX_MULTISIG_SIGNERS ==> (r matches Ok(v) && v@ == seq![
            writable_desc(*mint),
        ] + authority_fanout(*authority, signers@)),
        signers@.len() > MAX_MULTISIG_SIGNERS ==> (r matches Err(e) && e
            == BuildError::CapacityExceeded),
{
    if signers.len() > MAX_MULTISIG_SIGNERS {
        return Err(BuildError::CapacityExceeded);
    }
    let mut accounts: Vec<AccountDescriptor> = Vec::new();
    accounts.push(AccountDescriptor::writable(mint));
    push_authority_fanout(&mut accounts, authority, signers);
    proof {
        assert(accounts@ =~= seq![writable_desc(*mint)] + authority_fanout(*authority, signers@));
    }
    Ok(accounts)
}

/// Descriptors of resuming the mint: the same shape as pausing it.
pub fn resume_account_metas(mint: &Address, authority: &Address, signers: &[Address]) -> (r:
    Result<Vec<AccountDescriptor>, BuildError>)
    ensures
        signers@.len() <= MAX_MULTISIG_SIGNERS ==> (r matches Ok(v) && v@ == seq![
            writable_desc(*mint),
        ] + authority_fanout(*authority, signers@)),
        signers@.len() > MAX_MULTISIG_SIGNERS ==> (r matches Err(e) && e
            == BuildError::CapacityExceeded),
{
    pause_account_metas(mint, authority, signers)
}

} // verus!
