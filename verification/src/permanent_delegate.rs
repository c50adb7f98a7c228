//! The permanent-delegate extension: a mint may name a delegate that can
//! transfer or burn tokens from any account of that mint.

use vstd::prelude::*;

verus! {

use crate::Address;
use crate::accounts::AccountDescriptor;
use crate::accounts::writable_desc;
use crate::codec::read_array;
use crate::codec::write_address;
use crate::registry::BaseState;
use crate::registry::Extension;
use crate::registry::ExtensionType;
use crate::tlv::get_extension_from_bytes;
use crate::tlv::locate_extension;

/// Discriminator of initializing the permanent delegate.
pub const INITIALIZE_PERMANENT_DELEGATE: u8 = 35;

/// Byte length of the `PermanentDelegate` extension record.
pub const PERMANENT_DELEGATE_LEN: usize = 32;

/// Payload of initializing the permanent delegate: the discriminator byte
/// and the delegate's address, 33 bytes.
pub open spec fn spec_permanent_delegate_data(delegate: Seq<u8>) -> Seq<u8> {
    seq![INITIALIZE_PERMANENT_DELEGATE] + delegate
}

/// Encode the 33-byte payload of initializing the permanent delegate.
pub fn permanent_delegate_instruction_data(delegate: &Address) -> (r: Vec<u8>)
    ensures
        r@ == spec_permanent_delegate_data(delegate@),
        r@.len() == 33,
{
    let mut data: Vec<u8> = Vec::new();
    data.push(INITIALIZE_PERMANENT_DELEGATE);
    write_address(&mut data, delegate);
    proof {
        assert(data@ =~= spec_permanent_delegate_data(delegate@));
    }
    data
}

/// The single writable mint of initializing the permanent delegate.
pub fn initialize_permanent_delegate_account_metas(mint: &Address) -> (r: Vec<AccountDescriptor>)
    ensures
        r@ == seq![writable_desc(*mint)],
{
    let mut accounts: Vec<AccountDescriptor> = Vec::new();
    accounts.push(AccountDescriptor::writable(mint));
    proof {
        assert(accounts@ =~= seq![writable_desc(*mint)]);
    }
    accounts
}

/// State of the permanent-delegate extension on a mint.
#[derive(Clone, Copy, Debug, PartialEq, Eq)]
pub struct PermanentDelegate {
    /// Delegate allowed to transfer or burn tokens of this mint.
    pub delegate: Address,
}

impl Extension for PermanentDelegate {
    open spec fn ext_type() -> ExtensionType {
        ExtensionType::PermanentDelegate
    }

    open spec fn base_len() -> nat {
        32
    }

    open spec fn base_state() -> BaseState {
        BaseState::Mint
    }
}

impl PermanentDelegate {
    /// The permanent delegate carried by a mint account's byte buffer,
    /// present exactly when the extension region holds a
    /// `PermanentDelegate` entry of the declared length.
    pub fn from_bytes(acc_data: &[u8]) -> (r: Option<PermanentDelegate>)
        ensures
            r is Some <==> locate_extension(
                acc_data@,
                BaseState::Mint,
                ExtensionType::PermanentDelegate,
                Some(PERMANENT_DELEGATE_LEN as int),
            ) is Some,
            r matches Some(d) ==> (locate_extension(
                acc_data@,
                BaseState::Mint,
                ExtensionType::PermanentDelegate,
                Some(PERMANENT_DELEGATE_LEN as int),
            ) matches Some(p) && d.delegate@ == acc_data@.subrange(p.0, p.0 + p.1)),
    {
        match get_extension_from_bytes(
            acc_data,
            BaseState::Mint,
            ExtensionType::PermanentDelegate,
            PERMANENT_DELEGATE_LEN,
        ) {
            Some(payload) => {
                let delegate: Address = read_array(payload, 0);
                proof {
                    assert(payload@.subrange(0, 32) =~= payload@);
                }
                Some(PermanentDelegate { delegate })
            },
            None => None,
        }
    }
}

} // verus!
