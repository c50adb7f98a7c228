use token_2022::accounts::AccountDescriptor;
use token_2022::accounts::BuildError;
use token_2022::accounts::MAX_CPI_ACCOUNTS;
use token_2022::accounts::MAX_MULTISIG_SIGNERS;
use token_2022::interest_bearing_mint::update_interest_bearing_mint_rate_account_metas;
use token_2022::pausable::pause_account_metas;
use token_2022::transfer_fee::harvest_withheld_tokens_to_mint_account_metas;
use token_2022::transfer_fee::set_transfer_fee_account_metas;
use token_2022::transfer_fee::transfer_checked_with_fee_account_metas;
use token_2022::transfer_fee::withdraw_withheld_tokens_from_accounts_account_metas;
use token_2022::transfer_fee::withdraw_withheld_tokens_from_mint_account_metas;
use token_2022::Address;

fn addr(b: u8) -> Address {
    [b; 32]
}

fn writable(a: Address) -> AccountDescriptor {
    AccountDescriptor { address: a, is_writable: true, is_signer: false }
}

fn readonly(a: Address) -> AccountDescriptor {
    AccountDescriptor { address: a, is_writable: false, is_signer: false }
}

fn readonly_signer(a: Address) -> AccountDescriptor {
    AccountDescriptor { address: a, is_writable: false, is_signer: true }
}

#[test]
fn pause_single_authority_descriptors() {
    let metas = pause_account_metas(&addr(1), &addr(2), &[]).unwrap();
    assert_eq!(metas, vec![writable(addr(1)), readonly_signer(addr(2))]);
}

#[test]
fn pause_multisig_descriptors() {
    let signers = [addr(3), addr(4)];
    let metas = pause_account_metas(&addr(1), &addr(2), &signers).unwrap();
    assert_eq!(
        metas,
        vec![
            writable(addr(1)),
            readonly(addr(2)),
            readonly_signer(addr(3)),
            readonly_signer(addr(4)),
        ]
    );
}

#[test]
fn signer_ceiling_enforced() {
    let too_many = vec![addr(7); MAX_MULTISIG_SIGNERS + 1];
    assert_eq!(
        pause_account_metas(&addr(1), &addr(2), &too_many),
        Err(BuildError::CapacityExceeded)
    );
    let at_limit = vec![addr(7); MAX_MULTISIG_SIGNERS];
    let metas = pause_account_metas(&addr(1), &addr(2), &at_limit).unwrap();
    assert_eq!(metas.len(), 2 + MAX_MULTISIG_SIGNERS);
}

#[test]
fn set_transfer_fee_descriptors() {
    let metas = set_transfer_fee_account_metas(&addr(1), &addr(2), &[addr(3)]).unwrap();
    assert_eq!(
        metas,
        vec![writable(addr(1)), readonly(addr(2)), readonly_signer(addr(3))]
    );
    let too_many = vec![addr(9); MAX_MULTISIG_SIGNERS + 1];
    assert_eq!(
        set_transfer_fee_account_metas(&addr(1), &addr(2), &too_many),
        Err(BuildError::CapacityExceeded)
    );
}

#[test]
fn transfer_checked_with_fee_descriptors() {
    let metas =
        transfer_checked_with_fee_account_metas(&addr(1), &addr(2), &addr(3), &addr(4), &[])
            .unwrap();
    assert_eq!(
        metas,
        vec![
            writable(addr(1)),
            readonly(addr(2)),
            writable(addr(3)),
            readonly_signer(addr(4)),
        ]
    );
    let metas2 =
        transfer_checked_with_fee_account_metas(&addr(1), &addr(2), &addr(3), &addr(4), &[addr(5)])
            .unwrap();
    assert_eq!(
        metas2,
        vec![
            writable(addr(1)),
            readonly(addr(2)),
            writable(addr(3)),
            readonly(addr(4)),
            readonly_signer(addr(5)),
        ]
    );
}

#[test]
fn withdraw_from_mint_descriptors() {
    let metas =
        withdraw_withheld_tokens_from_mint_account_metas(&addr(1), &addr(2), &addr(3), &[])
            .unwrap();
    assert_eq!(
        metas,
        vec![writable(addr(1)), writable(addr(2)), readonly_signer(addr(3))]
    );
}

#[test]
fn withdraw_from_accounts_arity_mismatch_rejected() {
    // Declared three source accounts, supplied two.
    let sources = [addr(8), addr(9)];
    let r = withdraw_withheld_tokens_from_accounts_account_metas(
        &addr(1),
        &addr(2),
        &addr(3),
        3,
        &[],
        &sources,
    );
    assert_eq!(r, Err(BuildError::ArityMismatch));
}

#[test]
fn withdraw_from_accounts_descriptors() {
    let sources = [addr(8), addr(9)];
    let signers = [addr(5)];
    let metas = withdraw_withheld_tokens_from_accounts_account_metas(
        &addr(1),
        &addr(2),
        &addr(3),
        2,
        &signers,
        &sources,
    )
    .unwrap();
    assert_eq!(
        metas,
        vec![
            readonly(addr(1)),
            writable(addr(2)),
            readonly(addr(3)),
            readonly_signer(addr(5)),
            writable(addr(8)),
            writable(addr(9)),
        ]
    );
}

#[test]
fn harvest_descriptors_and_total_ceiling() {
    let sources = [addr(4), addr(5)];
    let metas = harvest_withheld_tokens_to_mint_account_metas(&addr(1), &sources).unwrap();
    assert_eq!(
        metas,
        vec![writable(addr(1)), writable(addr(4)), writable(addr(5))]
    );
    let too_many = vec![addr(6); MAX_CPI_ACCOUNTS];
    assert_eq!(
        harvest_withheld_tokens_to_mint_account_metas(&addr(1), &too_many),
        Err(BuildError::CapacityExceeded)
    );
    let at_limit = vec![addr(6); MAX_CPI_ACCOUNTS - 1];
    let full = harvest_withheld_tokens_to_mint_account_metas(&addr(1), &at_limit).unwrap();
    assert_eq!(full.len(), MAX_CPI_ACCOUNTS);
}

#[test]
fn interest_rate_update_descriptors() {
    // Single authority: the rate authority itself signs.
    let metas = update_interest_bearing_mint_rate_account_metas(&addr(1), &addr(2), &[]).unwrap();
    assert_eq!(metas, vec![writable(addr(1)), readonly_signer(addr(2))]);

    // Multisig: the authority is read-only and each designated signer
    // follows as a read-only signer.
    let signers = [addr(3), addr(4)];
    let multi =
        update_interest_bearing_mint_rate_account_metas(&addr(1), &addr(2), &signers).unwrap();
    assert_eq!(
        multi,
        vec![
            writable(addr(1)),
            readonly(addr(2)),
            readonly_signer(addr(3)),
            readonly_signer(addr(4)),
        ]
    );
}
