use token_2022::codec::write_optional_pubkey;
use token_2022::transfer_hook::INITIALIZE_DISCRIMINATOR;
use token_2022::transfer_hook::TRANSFER_HOOK_EXTENSION_DISCRIMINATOR;
use token_2022::transfer_hook::UPDATE_DISCRIMINATOR;
use token_2022::Address;

#[test]
fn test_write_optional_pubkey_some() {
    let mut destination: Vec<u8> = Vec::new();

    // Create a known pubkey for testing
    let test_pubkey: Address = [42u8; 32];
    let pubkey = Some(&test_pubkey);

    let len = write_optional_pubkey(&mut destination, pubkey);

    // Check length
    assert_eq!(len, 33);

    // Check presence flag
    assert_eq!(destination[0], 1);

    // Check pubkey bytes
    let mut pubkey_bytes = [0u8; 32];
    for (i, b) in pubkey_bytes.iter_mut().enumerate() {
        *b = destination[1 + i];
    }
    assert_eq!(pubkey_bytes, test_pubkey);
}

#[test]
fn test_write_optional_pubkey_none() {
    let mut destination: Vec<u8> = Vec::new();
    let pubkey = None;

    let len = write_optional_pubkey(&mut destination, pubkey);

    // Check length
    assert_eq!(len, 1);

    // Check presence flag
    assert_eq!(destination[0], 0);
}

#[test]
fn test_transfer_hook_initialize_instruction_data() {
    // Test with both authority and program_id
    let authority: Address = [1u8; 32];
    let hook_program: Address = [2u8; 32];

    let mut instruction_data: Vec<u8> = Vec::new();
    let mut offset = 0;

    // Main discriminator
    instruction_data.push(TRANSFER_HOOK_EXTENSION_DISCRIMINATOR);
    offset += 1;

    // Sub discriminator
    instruction_data.push(INITIALIZE_DISCRIMINATOR);
    offset += 1;

    // Authority (Some)
    let auth_len = write_optional_pubkey(&mut instruction_data, Some(&authority));
    offset += auth_len;

    // Program ID (Some)
    let program_len = write_optional_pubkey(&mut instruction_data, Some(&hook_program));
    offset += program_len;

    // Verify the instruction data
    let expected_len = 2 + 33 + 33; // discriminators + authority + program_id
    assert_eq!(offset, expected_len);

    // Check discriminators
    assert_eq!(instruction_data[0], TRANSFER_HOOK_EXTENSION_DISCRIMINATOR);
    assert_eq!(instruction_data[1], INITIALIZE_DISCRIMINATOR);

    // Check authority presence and data
    assert_eq!(instruction_data[2], 1); // presence flag
    let mut auth_bytes = [0u8; 32];
    for i in 0..32 {
        auth_bytes[i] = instruction_data[3 + i];
    }
    assert_eq!(auth_bytes, authority);

    // Check program_id presence and data
    assert_eq!(instruction_data[35], 1); // presence flag
    let mut program_bytes = [0u8; 32];
    for i in 0..32 {
        program_bytes[i] = instruction_data[36 + i];
    }
    assert_eq!(program_bytes, hook_program);
}

#[test]
fn test_transfer_hook_initialize_minimal() {
    // Test with only authority (no program_id)
    let authority: Address = [1u8; 32];

    let mut instruction_data: Vec<u8> = Vec::new();
    let mut offset = 0;

    // Main discriminator
    instruction_data.push(TRANSFER_HOOK_EXTENSION_DISCRIMINATOR);
    offset += 1;

    // Sub discriminator
    instruction_data.push(INITIALIZE_DISCRIMINATOR);
    offset += 1;

    // Authority (Some)
    let auth_len = write_optional_pubkey(&mut instruction_data, Some(&authority));
    offset += auth_len;

    // Program ID (None)
    let program_len = write_optional_pubkey(&mut instruction_data, None);
    offset += program_len;

    // Verify the instruction data
    let expected_len = 2 + 33 + 1; // discriminators + authority + none program_id
    assert_eq!(offset, expected_len);

    // Check program_id is None
    assert_eq!(instruction_data[35], 0); // presence flag = false
}

#[test]
fn test_transfer_hook_update_instruction_data() {
    let new_program: Address = [3u8; 32];

    let mut instruction_data: Vec<u8> = Vec::new();
    let mut offset = 0;

    // Main discriminator
    instruction_data.push(TRANSFER_HOOK_EXTENSION_DISCRIMINATOR);
    offset += 1;

    // Sub discriminator
    instruction_data.push(UPDATE_DISCRIMINATOR);
    offset += 1;

    // New program ID (Some)
    let program_len = write_optional_pubkey(&mut instruction_data, Some(&new_program));
    offset += program_len;

    // Verify the instruction data
    let expected_len = 2 + 33; // discriminators + program_id
    assert_eq!(offset, expected_len);

    // Check discriminators
    assert_eq!(instruction_data[0], TRANSFER_HOOK_EXTENSION_DISCRIMINATOR);
    assert_eq!(instruction_data[1], UPDATE_DISCRIMINATOR);

    // Check program_id presence and data
    assert_eq!(instruction_data[2], 1); // presence flag
    let mut program_bytes = [0u8; 32];
    for i in 0..32 {
        program_bytes[i] = instruction_data[3 + i];
    }
    assert_eq!(program_bytes, new_program);
}

#[test]
fn test_transfer_hook_update_disable() {
    // Test disabling transfer hook (None program_id)
    let mut instruction_data: Vec<u8> = Vec::new();
    let mut offset = 0;

    // Main discriminator
    instruction_data.push(TRANSFER_HOOK_EXTENSION_DISCRIMINATOR);
    offset += 1;

    // Sub discriminator
    instruction_data.push(UPDATE_DISCRIMINATOR);
    offset += 1;

    // New program ID (None - disabling)
    let program_len = write_optional_pubkey(&mut instruction_data, None);
    offset += program_len;

    // Verify the instruction data
    let expected_len = 2 + 1; // discriminators + none program_id
    assert_eq!(offset, expected_len);

    // Check program_id is None
    assert_eq!(instruction_data[2], 0); // presence flag = false
}

#[test]
fn test_write_optional_nonzero_pubkey_conventions() {
    // Present: exactly the 32 address bytes.
    let addr: Address = [7u8; 32];
    let mut buf: Vec<u8> = Vec::new();
    let n = token_2022::codec::write_optional_nonzero_pubkey(&mut buf, Some(&addr));
    assert_eq!(n, 32);
    assert_eq!(buf, vec![7u8; 32]);

    // Absent: exactly 32 zero bytes.
    let mut buf2: Vec<u8> = Vec::new();
    let n2 = token_2022::codec::write_optional_nonzero_pubkey(&mut buf2, None);
    assert_eq!(n2, 32);
    assert_eq!(buf2, vec![0u8; 32]);
}
