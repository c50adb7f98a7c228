use token_2022::confidential_transfer_fee::ConfidentialTransferFeeAmount;
use token_2022::interest_bearing_mint::InterestBearingConfig;
use token_2022::non_transferable::NonTransferable;
use token_2022::permanent_delegate::PermanentDelegate;
use token_2022::registry::BaseState;
use token_2022::registry::ExtensionType;
use token_2022::tlv::get_extension_data_bytes_for_variable_pack;
use token_2022::tlv::get_extension_from_bytes;
use token_2022::transfer_fee::TransferFeeConfig;

const MINT_REGION_START: usize = 82 + 83 + 1;
const TOKEN_ACCOUNT_REGION_START: usize = 165 + 1;

fn push_entry(buf: &mut Vec<u8>, code: u16, payload: &[u8]) {
    buf.extend_from_slice(&code.to_le_bytes());
    buf.extend_from_slice(&(payload.len() as u16).to_le_bytes());
    buf.extend_from_slice(payload);
}

fn mint_buffer(entries: &[(u16, Vec<u8>)]) -> Vec<u8> {
    let mut buf = vec![0u8; MINT_REGION_START];
    for (code, payload) in entries {
        push_entry(&mut buf, *code, payload);
    }
    buf
}

#[test]
fn registry_code_round_trip() {
    assert_eq!(ExtensionType::from_code(12), Some(ExtensionType::PermanentDelegate));
    assert_eq!(ExtensionType::from_code(28), None);
    assert_eq!(ExtensionType::from_bytes([26, 0]), Some(ExtensionType::Pausable));
    assert_eq!(ExtensionType::from_bytes([255, 255]), None);
    assert_eq!(ExtensionType::MetadataPointer.to_bytes(), [18, 0]);
    assert_eq!(
        ExtensionType::from_bytes(ExtensionType::TransferFeeConfig.to_bytes()),
        Some(ExtensionType::TransferFeeConfig)
    );
}

#[test]
fn finds_fixed_size_extension() {
    let payload = vec![9u8; 32];
    let data = mint_buffer(&[(12, payload.clone())]);
    let found = get_extension_from_bytes(&data, BaseState::Mint, ExtensionType::PermanentDelegate, 32);
    assert_eq!(found, Some(payload.as_slice()));
}

#[test]
fn rejects_fixed_size_length_mismatch() {
    // A permanent-delegate entry whose declared length is wrong does not match.
    let data = mint_buffer(&[(12, vec![9u8; 31])]);
    let found = get_extension_from_bytes(&data, BaseState::Mint, ExtensionType::PermanentDelegate, 32);
    assert_eq!(found, None);
}

#[test]
fn scan_order_invariance() {
    // The payload found for one type is the same wherever it stands among
    // the others.
    let target_payload = vec![7u8; 32];
    let e_delegate = (12u16, target_payload.clone());
    let e_fee = (1u16, vec![1u8; 108]);
    let e_pointer = (18u16, vec![2u8; 64]);

    let orders: Vec<Vec<(u16, Vec<u8>)>> = vec![
        vec![e_delegate.clone(), e_fee.clone(), e_pointer.clone()],
        vec![e_fee.clone(), e_delegate.clone(), e_pointer.clone()],
        vec![e_fee.clone(), e_pointer.clone(), e_delegate.clone()],
        vec![e_pointer.clone(), e_delegate.clone(), e_fee.clone()],
    ];
    for order in orders {
        let data = mint_buffer(&order);
        let found =
            get_extension_from_bytes(&data, BaseState::Mint, ExtensionType::PermanentDelegate, 32);
        assert_eq!(found, Some(target_payload.as_slice()));
    }
}

#[test]
fn scan_overrun_terminates_not_found() {
    // A header whose length field runs past the buffer end means not found.
    let mut data = mint_buffer(&[]);
    data.extend_from_slice(&12u16.to_le_bytes());
    data.extend_from_slice(&200u16.to_le_bytes());
    data.extend_from_slice(&[9u8; 32]); // far fewer than 200 bytes follow
    let found = get_extension_from_bytes(&data, BaseState::Mint, ExtensionType::PermanentDelegate, 32);
    assert_eq!(found, None);
}

#[test]
fn scan_truncated_buffers_never_fault() {
    // Every truncation of a valid two-extension buffer scans without a
    // fault; the full buffer still finds the target.
    let target_payload = vec![5u8; 32];
    let full = mint_buffer(&[(1, vec![3u8; 108]), (12, target_payload.clone())]);
    for cut in 0..full.len() {
        let truncated = &full[..cut];
        let _ = get_extension_from_bytes(
            truncated,
            BaseState::Mint,
            ExtensionType::PermanentDelegate,
            32,
        );
    }
    assert_eq!(
        get_extension_from_bytes(&full, BaseState::Mint, ExtensionType::PermanentDelegate, 32),
        Some(target_payload.as_slice())
    );
    // Cutting anywhere before the payload's end loses the extension.
    let just_short = &full[..full.len() - 1];
    assert_eq!(
        get_extension_from_bytes(just_short, BaseState::Mint, ExtensionType::PermanentDelegate, 32),
        None
    );
}

#[test]
fn unknown_extension_type_terminates_scan() {
    // An unrecognized type code ends the walk before later entries.
    let mut data = mint_buffer(&[]);
    push_entry(&mut data, 999, &[1, 2, 3]);
    push_entry(&mut data, 12, &[9u8; 32]);
    let found = get_extension_from_bytes(&data, BaseState::Mint, ExtensionType::PermanentDelegate, 32);
    assert_eq!(found, None);
}

#[test]
fn variable_pack_returns_declared_range() {
    let payload = vec![1u8, 2, 3, 4, 5];
    let data = mint_buffer(&[(19, payload.clone())]);
    let found =
        get_extension_data_bytes_for_variable_pack(&data, BaseState::Mint, ExtensionType::TokenMetadata);
    assert_eq!(found, Some(payload.as_slice()));
}

#[test]
fn buffer_shorter_than_base_has_no_extensions() {
    let data = vec![0u8; 100];
    assert_eq!(
        get_extension_from_bytes(&data, BaseState::Mint, ExtensionType::PermanentDelegate, 32),
        None
    );
}

#[test]
fn parses_transfer_fee_config_record() {
    let mut payload = Vec::new();
    payload.extend_from_slice(&[1u8; 32]); // config authority
    payload.extend_from_slice(&[2u8; 32]); // withdraw authority
    payload.extend_from_slice(&[3u8; 8]); // withheld amount
    payload.extend_from_slice(&[4u8; 8]); // older epoch
    payload.extend_from_slice(&[5u8; 8]); // older maximum fee
    payload.extend_from_slice(&[6u8; 2]); // older basis points
    payload.extend_from_slice(&[7u8; 8]); // newer epoch
    payload.extend_from_slice(&[8u8; 8]); // newer maximum fee
    payload.extend_from_slice(&[9u8; 2]); // newer basis points
    assert_eq!(payload.len(), 108);
    let data = mint_buffer(&[(1, payload)]);
    let config = TransferFeeConfig::from_bytes(&data).unwrap();
    assert_eq!(config.transfer_fee_config_authority, [1u8; 32]);
    assert_eq!(config.withdraw_withheld_authority, [2u8; 32]);
    assert_eq!(config.withheld_amount, [3u8; 8]);
    assert_eq!(config.older_transfer_fee.epoch, [4u8; 8]);
    assert_eq!(config.older_transfer_fee.maximum_fee, [5u8; 8]);
    assert_eq!(config.older_transfer_fee.transfer_fee_basis_points, [6u8; 2]);
    assert_eq!(config.newer_transfer_fee.epoch, [7u8; 8]);
    assert_eq!(config.newer_transfer_fee.maximum_fee, [8u8; 8]);
    assert_eq!(config.newer_transfer_fee.transfer_fee_basis_points, [9u8; 2]);
}

#[test]
fn parses_marker_and_token_account_records() {
    let data = mint_buffer(&[(9, vec![])]);
    assert_eq!(NonTransferable::from_bytes(&data), Some(NonTransferable));
    assert_eq!(NonTransferable::from_bytes(&mint_buffer(&[])), None);

    let mut token_data = vec![0u8; TOKEN_ACCOUNT_REGION_START];
    push_entry(&mut token_data, 17, &[6u8; 64]);
    let amount = ConfidentialTransferFeeAmount::from_bytes(&token_data).unwrap();
    assert_eq!(amount.withheld_amount, [6u8; 64]);
}

#[test]
fn scan_returns_first_of_repeated_type() {
    // Two entries of the same type: the scan stops at the first.
    let first = vec![1u8; 32];
    let second = vec![2u8; 32];
    let data = mint_buffer(&[(12, first.clone()), (12, second)]);
    let found = get_extension_from_bytes(&data, BaseState::Mint, ExtensionType::PermanentDelegate, 32);
    assert_eq!(found, Some(first.as_slice()));
}

#[test]
fn parses_interest_bearing_config_record() {
    let mut payload = Vec::new();
    payload.extend_from_slice(&[1u8; 32]); // rate authority
    payload.extend_from_slice(&[2u8; 8]); // initialization timestamp
    payload.extend_from_slice(&[3u8; 2]); // pre-update average rate
    payload.extend_from_slice(&[4u8; 8]); // last update timestamp
    payload.extend_from_slice(&[5u8; 2]); // current rate
    assert_eq!(payload.len(), 52);
    let data = mint_buffer(&[(10, payload)]);
    let config = InterestBearingConfig::from_bytes(&data).unwrap();
    assert_eq!(config.rate_authority, [1u8; 32]);
    assert_eq!(config.initialization_timestamp, [2u8; 8]);
    assert_eq!(config.pre_update_average_rate, [3u8; 2]);
    assert_eq!(config.last_update_timestamp, [4u8; 8]);
    assert_eq!(config.current_rate, [5u8; 2]);
    assert_eq!(InterestBearingConfig::from_bytes(&mint_buffer(&[])), None);
}

#[test]
fn parses_permanent_delegate_record() {
    let data = mint_buffer(&[(12, vec![11u8; 32])]);
    let delegate = PermanentDelegate::from_bytes(&data).unwrap();
    assert_eq!(delegate.delegate, [11u8; 32]);
    assert_eq!(PermanentDelegate::from_bytes(&mint_buffer(&[])), None);
}
