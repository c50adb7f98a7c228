//! Account descriptors and the bounded descriptor-list builder.
//!
//! Every call into the token program carries a list of account descriptors,
//! one per participating account: `{address, is_writable, is_signer}`.  The
//! caller keeps a parallel list of live account handles in the same
//! positional order; the contracts here pin the descriptor order down exactly
//! so that the two lists cannot drift apart.
//!
//! The shared shape is: a fixed prefix of resource accounts, then the
//! authority fan-out, then any trailing variable-arity accounts.  When the
//! signer list is empty the authority itself signs (single-authority path);
//! otherwise the authority is listed read-only and each designated signer is
//! appended as a read-only signer (multisig path).  Ceilings are enforced
//! before any descriptor is produced: a violation is a hard rejection, never
//! a truncation.

use vstd::prelude::*;

verus! {

use crate::Address;

/// Upper bound on the number of designated signers backing a multisig
/// authority.
pub const MAX_MULTISIG_SIGNERS: usize = 11;

/// Upper bound on the number of accounts in one cross-program call,
/// enforced by the host runtime.
pub const MAX_CPI_ACCOUNTS: usize = 128;

/// The role one account plays in a call: its address, whether the invoked
/// program may write to it, and whether it must sign the transaction.
#[derive(Clone, Copy, Debug, PartialEq, Eq)]
pub struct AccountDescriptor {
    /// Address of the participating account.
    pub address: Address,
    /// The invoked program may mutate this account.
    pub is_writable: bool,
    /// This account must have signed the transaction.
    pub is_signer: bool,
}

/// Rejection raised by a descriptor-list builder before any descriptor is
/// produced.
#[derive(Clone, Copy, Debug, PartialEq, Eq, Structural)]
pub enum BuildError {
    /// A signer or account count exceeds its ceiling.
    CapacityExceeded,
    /// The declared count of a variable-arity account range does not match
    /// the supplied list's length.
    ArityMismatch,
}

/// Descriptor of a writable, non-signing account.
pub open spec fn writable_desc(a: Address) -> AccountDescriptor {
    AccountDescriptor { address: a, is_writable: true, is_signer: false }
}

/// Descriptor of a read-only, non-signing account.
pub open spec fn readonly_desc(a: Address) -> AccountDescriptor {
    AccountDescriptor { address: a, is_writable: false, is_signer: false }
}

/// Descriptor of a read-only signing account.
pub open spec fn readonly_signer_desc(a: Address) -> AccountDescriptor {
    AccountDescriptor { address: a, is_writable: false, is_signer: true }
}

/// One read-only-signer descriptor per address, in order.
pub open spec fn readonly_signer_descs(list: Seq<Address>) -> Seq<AccountDescriptor> {
    list.map_values(|a: Address| readonly_signer_desc(a))
}

/// One writable descriptor per address, in order.
pub open spec fn writable_descs(list: Seq<Address>) -> Seq<AccountDescriptor> {
    list.map_values(|a: Address| writable_desc(a))
}

/// The authority fan-out: with no designated signers the authority signs
/// directly; with designated signers the authority is read-only and each
/// signer follows as a read-only signer.
pub open spec fn authority_fanout(authority: Address, signers: Seq<Address>) -> Seq<
    AccountDescriptor,
> {
    if signers.len() == 0 {
        seq![readonly_signer_desc(authority)]
    } else {
        seq![readonly_desc(authority)] + readonly_signer_descs(signers)
    }
}

impl AccountDescriptor {
    /// A writable, non-signing account.
    pub fn writable(address: &Address) -> (d: Self)
        ensures
            d == writable_desc(*address),
    {
        AccountDescriptor { address: *address, is_writable: true, is_signer: false }
    }

    /// A read-only, non-signing account.
    pub fn readonly(address: &Address) -> (d: Self)
        ensures
            d == readonly_desc(*address),
    {
        AccountDescriptor { address: *address, is_writable: false, is_signer: false }
    }

    /// A read-only signing account.
    pub fn readonly_signer(address: &Address) -> (d: Self)
        ensures
            d == readonly_signer_desc(*address),
    {
        AccountDescriptor { address: *address, is_writable: false, is_signer: true }
    }
}

/// Append one read-only-signer descriptor per address, in order.
pub fn push_readonly_signers(accounts: &mut Vec<AccountDescriptor>, signers: &[Address])
    ensures
        final(accounts)@ == old(accounts)@ + readonly_signer_descs(signers@),
{
    let n = signers.len();
    let mut i: usize = 0;
    while i < n
        invariant
            i <= n,
            n == signers@.len(),
            accounts@ == old(accounts)@ + readonly_signer_descs(signers@.subrange(0, i as int)),
        decreases n - i,
    {
        accounts.push(AccountDescriptor::readonly_signer(&signers[i]));
        proof {
            assert(signers@.subrange(0, i as int + 1) =~= signers@.subrange(0, i as int) + seq![
                signers@[i as int],
            ]);
            assert(readonly_signer_descs(signers@.subrange(0, i as int + 1))
                =~= readonly_signer_descs(signers@.subrange(0, i as int)) + seq![
                readonly_signer_desc(signers@[i as int]),
            ]);
        }
        i = i + 1;
    }
    proof {
        assert(signers@.subrange(0, n as int) =~= signers@);
    }
}

/// Append one writable descriptor per address, in order.
pub fn push_writable_accounts(accounts: &mut Vec<AccountDescriptor>, list: &[Address])
    ensures
        final(accounts)@ == old(accounts)@ + writable_descs(list@),
{
    let n = list.len();
    let mut i: usize = 0;
    while i < n
        invariant
            i <= n,
            n == list@.len(),
            accounts@ == old(accounts)@ + writable_descs(list@.subrange(0, i as int)),
        decreases n - i,
    {
        accounts.push(AccountDescriptor::writable(&list[i]));
        proof {
            assert(list@.subrange(0, i as int + 1) =~= list@.subrange(0, i as int) + seq![
                list@[i as int],
            ]);
            assert(writable_descs(list@.subrange(0, i as int + 1)) =~= writable_descs(
                list@.subrange(0, i as int),
            ) + seq![writable_desc(list@[i as int])]);
        }
        i = i + 1;
    }
    proof {
        assert(list@.subrange(0, n as int) =~= list@);
    }
}

/// Append the authority fan-out for `authority` backed by `signers`.
pub fn push_authority_fanout(
    accounts: &mut Vec<AccountDescriptor>,
    authority: &Address,
    signers: &[Address],
)
    ensures
        final(accounts)@ == old(accounts)@ + authority_fanout(*authority, signers@),
{
    if signers.len() == 0 {
        accounts.push(AccountDescriptor::readonly_signer(authority));
        proof {
            assert(accounts@ =~= old(accounts)@ + authority_fanout(*authority, signers@));
        }
    } else {
        accounts.push(AccountDescriptor::readonly(authority));
        push_readonly_signers(accounts, signers);
        proof {
            assert(accounts@ =~= old(accounts)@ + authority_fanout(*authority, signers@));
        }
    }
}

} // verus!
