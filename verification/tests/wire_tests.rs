use token_2022::interest_bearing_mint::initialize_interest_bearing_mint_instruction_data;
use token_2022::interest_bearing_mint::update_interest_bearing_mint_rate_instruction_data;
use token_2022::memo_transfer::encode_instruction_data;
use token_2022::memo_transfer::RequiredMemoTransfersInstruction;
use token_2022::metadata_pointer::encode_initialize_instruction_data;
use token_2022::metadata_pointer::encode_update_instruction_data;
use token_2022::non_transferable::initialize_non_transferable_mint_instruction_data;
use token_2022::pausable::pausable_initialize_instruction_data;
use token_2022::pausable::pause_instruction_data;
use token_2022::pausable::resume_instruction_data;
use token_2022::permanent_delegate::permanent_delegate_instruction_data;
use token_2022::transfer_fee::set_transfer_fee_instruction_data;
use token_2022::transfer_fee::transfer_checked_with_fee_instruction_data;
use token_2022::wire::ExtensionInstruction;
use token_2022::Address;

fn addr(b: u8) -> Address {
    [b; 32]
}

#[test]
fn set_transfer_fee_exact_bytes() {
    let data = set_transfer_fee_instruction_data(150, 1_000_000);
    assert_eq!(
        data,
        vec![26, 5, 0x96, 0x00, 0x40, 0x42, 0x0F, 0x00, 0x00, 0x00, 0x00, 0x00]
    );
    assert_eq!(data.len(), 12);
}

#[test]
fn metadata_pointer_update_none_exact_bytes() {
    let data = encode_update_instruction_data(None);
    assert_eq!(data.len(), 34);
    assert_eq!(data[0], 39);
    assert_eq!(data[1], 1);
    assert_eq!(&data[2..34], &[0u8; 32]);
}

#[test]
fn transfer_checked_with_fee_exact_bytes() {
    let data = transfer_checked_with_fee_instruction_data(0x0102030405060708, 9, 0x1122334455667788);
    let mut expected = vec![26u8, 1];
    expected.extend_from_slice(&[0x08, 0x07, 0x06, 0x05, 0x04, 0x03, 0x02, 0x01]);
    expected.push(9);
    expected.extend_from_slice(&[0x88, 0x77, 0x66, 0x55, 0x44, 0x33, 0x22, 0x11]);
    assert_eq!(data, expected);
}

#[test]
fn pausable_and_memo_data_bytes() {
    assert_eq!(pause_instruction_data(), vec![44, 1]);
    assert_eq!(resume_instruction_data(), vec![44, 2]);
    let init = pausable_initialize_instruction_data(&addr(5));
    assert_eq!(init.len(), 34);
    assert_eq!(init[0], 44);
    assert_eq!(init[1], 0);
    assert_eq!(&init[2..34], &[5u8; 32]);
    assert_eq!(
        encode_instruction_data(RequiredMemoTransfersInstruction::Enable),
        [30, 0]
    );
    assert_eq!(
        encode_instruction_data(RequiredMemoTransfersInstruction::Disable),
        [30, 1]
    );
}

#[test]
fn permanent_delegate_and_non_transferable_data_bytes() {
    let data = permanent_delegate_instruction_data(&addr(9));
    assert_eq!(data.len(), 33);
    assert_eq!(data[0], 35);
    assert_eq!(&data[1..33], &[9u8; 32]);
    assert_eq!(initialize_non_transferable_mint_instruction_data(), vec![32]);
}

#[test]
fn interest_bearing_data_bytes() {
    // Without a rate authority: flag byte zero, then the rate.
    let short = initialize_interest_bearing_mint_instruction_data(None, 250);
    assert_eq!(short, vec![0, 0, 250, 0]);

    // With a rate authority: flag byte one, the key, then the rate.
    let long = initialize_interest_bearing_mint_instruction_data(Some(&addr(4)), -1);
    assert_eq!(long.len(), 36);
    assert_eq!(long[0], 0);
    assert_eq!(long[1], 1);
    assert_eq!(&long[2..34], &[4u8; 32]);
    assert_eq!(&long[34..36], &(-1i16).to_le_bytes());

    let update = update_interest_bearing_mint_rate_instruction_data(-300);
    assert_eq!(update.len(), 3);
    assert_eq!(update[0], 1);
    assert_eq!(&update[1..3], &(-300i16).to_le_bytes());
}

#[test]
fn metadata_pointer_initialize_bytes() {
    let data = encode_initialize_instruction_data(Some(&addr(1)), Some(&addr(2)));
    assert_eq!(data.len(), 66);
    assert_eq!(data[0], 39);
    assert_eq!(data[1], 0);
    assert_eq!(&data[2..34], &[1u8; 32]);
    assert_eq!(&data[34..66], &[2u8; 32]);
}

#[test]
fn confidential_transfer_fee_config_data_bytes() {
    let data =
        token_2022::confidential_transfer_fee::initialize_confidential_transfer_fee_config_instruction_data(
            Some(&addr(3)),
            &[8u8; 32],
        );
    assert_eq!(data.len(), 66);
    assert_eq!(data[0], 37);
    assert_eq!(data[1], 0);
    assert_eq!(&data[2..34], &[3u8; 32]);
    assert_eq!(&data[34..66], &[8u8; 32]);
}

#[test]
fn decode_encode_round_trip_all_kinds() {
    let cases = vec![
        ExtensionInstruction::PausableInitialize { authority: addr(1) },
        ExtensionInstruction::Pause,
        ExtensionInstruction::Resume,
        ExtensionInstruction::MemoTransferEnable,
        ExtensionInstruction::MemoTransferDisable,
        ExtensionInstruction::MetadataPointerInitialize {
            authority: Some(addr(2)),
            metadata_address: Some(addr(3)),
        },
        ExtensionInstruction::MetadataPointerInitialize {
            authority: None,
            metadata_address: None,
        },
        ExtensionInstruction::MetadataPointerUpdate {
            new_metadata_address: Some(addr(4)),
        },
        ExtensionInstruction::MetadataPointerUpdate {
            new_metadata_address: None,
        },
        ExtensionInstruction::TransferHookInitialize {
            authority: Some(addr(5)),
            transfer_hook_program_id: None,
        },
        ExtensionInstruction::TransferHookUpdate {
            transfer_hook_program_id: Some(addr(6)),
        },
        ExtensionInstruction::InitializeTransferFeeConfig {
            transfer_fee_config_authority: Some(addr(7)),
            withdraw_withheld_authority: None,
            transfer_fee_basis_points: 250,
            maximum_fee: 12345,
        },
        ExtensionInstruction::InitializeTransferFeeConfig {
            transfer_fee_config_authority: None,
            withdraw_withheld_authority: Some(addr(8)),
            transfer_fee_basis_points: 0,
            maximum_fee: 65535,
        },
        ExtensionInstruction::TransferCheckedWithFee {
            amount: u64::MAX,
            decimals: 0,
            fee: 1,
        },
        ExtensionInstruction::WithdrawWithheldTokensFromMint,
        ExtensionInstruction::WithdrawWithheldTokensFromAccounts { num_token_accounts: 7 },
        ExtensionInstruction::HarvestWithheldTokensToMint,
        ExtensionInstruction::SetTransferFee {
            transfer_fee_basis_points: 150,
            maximum_fee: 1_000_000,
        },
        ExtensionInstruction::InitializeNonTransferableMint,
        ExtensionInstruction::InitializePermanentDelegate { delegate: addr(9) },
        ExtensionInstruction::InterestBearingInitialize {
            rate_authority: Some(addr(10)),
            rate: -42,
        },
        ExtensionInstruction::InterestBearingInitialize {
            rate_authority: None,
            rate: 42,
        },
        ExtensionInstruction::InterestBearingUpdateRate { new_rate: i16::MIN },
        ExtensionInstruction::InitializeConfidentialTransferFeeConfig {
            authority: Some(addr(11)),
            withdraw_withheld_authority_elgamal_pubkey: [12u8; 32],
        },
        ExtensionInstruction::InitializeConfidentialTransferFeeConfig {
            authority: None,
            withdraw_withheld_authority_elgamal_pubkey: [13u8; 32],
        },
    ];
    for ix in cases {
        let bytes = ix.encode();
        let back = ExtensionInstruction::decode(&bytes);
        assert_eq!(back, Some(ix));
    }
}

#[test]
fn decode_rejects_every_truncation() {
    // Only the exact encoding decodes; every proper prefix is rejected.
    let ix = ExtensionInstruction::MetadataPointerInitialize {
        authority: Some(addr(2)),
        metadata_address: Some(addr(3)),
    };
    let bytes = ix.encode();
    for cut in 0..bytes.len() {
        assert_eq!(ExtensionInstruction::decode(&bytes[..cut]), None);
    }
    assert_eq!(ExtensionInstruction::decode(&bytes), Some(ix));
}

#[test]
fn decode_rejects_malformed_buffers() {
    // Empty buffer, unknown tag, wrong length, bad presence flag.
    assert_eq!(ExtensionInstruction::decode(&[]), None);
    assert_eq!(ExtensionInstruction::decode(&[200]), None);
    assert_eq!(ExtensionInstruction::decode(&[26, 5, 0x96]), None);
    assert_eq!(ExtensionInstruction::decode(&[26, 0, 2, 0, 0, 0, 0, 0]), None);
    // A pause payload with a trailing byte is not a pause instruction.
    assert_eq!(ExtensionInstruction::decode(&[44, 1, 0]), None);
}
