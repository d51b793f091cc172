use delegated_transfer::error::TransferError;
use delegated_transfer::instruction::{
    TransferInstruction, TransferInstructionArgs, TRANSFER_LEN, TRANSFER_TAG,
};

fn transfer(value: u64) -> TransferInstruction {
    TransferInstruction::Transfer(TransferInstructionArgs { value })
}

fn encode(tag: u8, value: u64) -> Vec<u8> {
    let mut bytes = vec![tag];
    bytes.extend_from_slice(&borsh::to_vec(&value).unwrap());
    bytes
}

#[test]
fn unpack_reads_one_thousand() {
    let bytes = [0u8, 0xe8, 0x03, 0, 0, 0, 0, 0, 0];
    assert_eq!(TransferInstruction::unpack(&bytes), Ok(transfer(1000)));
}

#[test]
fn unpack_reads_the_least_significant_byte_first() {
    let bytes = [0u8, 1, 2, 3, 4, 5, 6, 7, 8];
    assert_eq!(
        TransferInstruction::unpack(&bytes),
        Ok(transfer(0x0807_0605_0403_0201))
    );
}

#[test]
fn unpack_reads_zero_and_the_largest_value() {
    assert_eq!(TransferInstruction::unpack(&[0u8; 9]), Ok(transfer(0)));
    let mut bytes = [0xffu8; 9];
    bytes[0] = 0;
    assert_eq!(TransferInstruction::unpack(&bytes), Ok(transfer(u64::MAX)));
}

#[test]
fn unpack_reads_what_borsh_writes() {
    for value in [0u64, 1, 255, 256, 1000, 1 << 32, u64::MAX - 1, u64::MAX] {
        let bytes = encode(TRANSFER_TAG, value);
        assert_eq!(bytes.len(), TRANSFER_LEN);
        assert_eq!(TransferInstruction::unpack(&bytes), Ok(transfer(value)));
    }
}

#[test]
fn unpack_refuses_empty_input() {
    assert_eq!(
        TransferInstruction::unpack(&[]),
        Err(TransferError::InvalidInstructionData)
    );
}

#[test]
fn unpack_refuses_every_other_tag() {
    for tag in 1..=255u8 {
        assert_eq!(
            TransferInstruction::unpack(&encode(tag, 1000)),
            Err(TransferError::InvalidInstructionData)
        );
    }
}

#[test]
fn unpack_refuses_a_short_payload() {
    let full = encode(TRANSFER_TAG, 1000);
    for len in 1..TRANSFER_LEN {
        assert_eq!(
            TransferInstruction::unpack(&full[..len]),
            Err(TransferError::InvalidInstructionData)
        );
    }
}

#[test]
fn unpack_refuses_trailing_bytes() {
    let mut bytes = encode(TRANSFER_TAG, 1000);
    bytes.push(0);
    assert_eq!(
        TransferInstruction::unpack(&bytes),
        Err(TransferError::InvalidInstructionData)
    );
    bytes.extend_from_slice(&[0; 7]);
    assert_eq!(
        TransferInstruction::unpack(&bytes),
        Err(TransferError::InvalidInstructionData)
    );
}

#[test]
fn unpack_is_a_function_of_its_input() {
    let bytes = encode(TRANSFER_TAG, 77);
    assert_eq!(
        TransferInstruction::unpack(&bytes),
        TransferInstruction::unpack(&bytes)
    );
}
