use escrow::error::EscrowError;
use escrow::little_endian::{read_u64, write_u64};
use escrow::pubkey::{read_key, same_key, write_key, Pubkey};
use escrow::state::{Escrow, ESCROW_LEN};

fn sample() -> Escrow {
    let mut initializer: Pubkey = [0; 32];
    let mut deposit: Pubkey = [0; 32];
    let mut receiver: Pubkey = [0; 32];
    for i in 0..32 {
        initializer[i] = i as u8;
        deposit[i] = 100 + i as u8;
        receiver[i] = 200 + i as u8;
    }
    Escrow {
        is_initialized: true,
        initializer_pubkey: initializer,
        temp_token_account_pubkey: deposit,
        initializer_token_to_receive_account_pubkey: receiver,
        expected_amount: 0x0102_0304_0506_0708,
    }
}

#[test]
fn record_has_105_bytes() {
    assert_eq!(ESCROW_LEN, 105);
    assert_eq!(ESCROW_LEN, 1 + 32 + 32 + 32 + 8);
}

#[test]
fn unpack_of_a_zeroed_slot_is_uninitialized() {
    let slot = [0u8; 105];
    let escrow = Escrow::unpack_from_slice(&slot).unwrap();
    assert!(!escrow.is_initialized);
    assert!(!escrow.is_initialized());
    assert_eq!(
        escrow,
        Escrow {
            is_initialized: false,
            initializer_pubkey: [0; 32],
            temp_token_account_pubkey: [0; 32],
            initializer_token_to_receive_account_pubkey: [0; 32],
            expected_amount: 0,
        }
    );
}

#[test]
fn unpack_rejects_every_other_flag() {
    for flag in 2..=255u8 {
        let mut slot = [0u8; 105];
        slot[0] = flag;
        assert_eq!(Escrow::unpack_from_slice(&slot), Err(EscrowError::InvalidData));
        assert_eq!(Escrow::unpack_unchecked(&slot), Err(EscrowError::InvalidData));
    }
}

#[test]
fn unpack_takes_flag_one_as_initialized() {
    let mut slot = [0u8; 105];
    slot[0] = 1;
    let escrow = Escrow::unpack_from_slice(&slot).unwrap();
    assert!(escrow.is_initialized());
}

#[test]
fn pack_lays_the_fields_out_in_order() {
    let mut slot = [0xeeu8; 105];
    sample().pack_into_slice(&mut slot);
    assert_eq!(slot[0], 1);
    for i in 0..32 {
        assert_eq!(slot[1 + i], i as u8);
        assert_eq!(slot[33 + i], 100 + i as u8);
        assert_eq!(slot[65 + i], 200 + i as u8);
    }
    assert_eq!(&slot[97..105], &[8u8, 7, 6, 5, 4, 3, 2, 1][..]);
}

#[test]
fn pack_writes_flag_zero_for_an_empty_record() {
    let mut record = sample();
    record.is_initialized = false;
    let mut slot = [0xeeu8; 105];
    record.pack_into_slice(&mut slot);
    assert_eq!(slot[0], 0);
}

#[test]
fn unpack_gives_back_what_pack_wrote() {
    let record = sample();
    let mut slot = [0u8; 105];
    record.pack_into_slice(&mut slot);
    assert_eq!(Escrow::unpack_from_slice(&slot), Ok(record));
    assert_eq!(Escrow::unpack_unchecked(&slot), Ok(record));
}

#[test]
fn round_trip_holds_for_many_records() {
    for seed in 0..50u64 {
        let amount = seed.wrapping_mul(0x9e37_79b9_7f4a_7c15) ^ (seed << 40);
        let record = Escrow {
            is_initialized: seed % 2 == 0,
            initializer_pubkey: [seed as u8; 32],
            temp_token_account_pubkey: [(seed * 3) as u8; 32],
            initializer_token_to_receive_account_pubkey: [(seed * 7 + 1) as u8; 32],
            expected_amount: amount,
        };
        let mut slot = vec![0u8; 105];
        assert_eq!(Escrow::pack(record, &mut slot), Ok(()));
        assert_eq!(&slot[97..], &amount.to_le_bytes()[..]);
        assert_eq!(Escrow::unpack_unchecked(&slot), Ok(record));
    }
}

#[test]
fn pack_into_slice_leaves_later_bytes_alone() {
    let mut buffer = [0xabu8; 120];
    sample().pack_into_slice(&mut buffer);
    assert_eq!(Escrow::unpack_from_slice(&buffer), Ok(sample()));
    assert!(buffer[105..].iter().all(|b| *b == 0xab));
}

#[test]
fn unpack_from_slice_reads_only_the_first_105_bytes() {
    let mut buffer = [0u8; 200];
    sample().pack_into_slice(&mut buffer);
    for b in buffer[105..].iter_mut() {
        *b = 0x5a;
    }
    assert_eq!(Escrow::unpack_from_slice(&buffer), Ok(sample()));
}

#[test]
fn unpack_unchecked_rejects_other_lengths() {
    assert_eq!(Escrow::unpack_unchecked(&[]), Err(EscrowError::InvalidData));
    assert_eq!(Escrow::unpack_unchecked(&[0u8; 104]), Err(EscrowError::InvalidData));
    assert_eq!(Escrow::unpack_unchecked(&[0u8; 106]), Err(EscrowError::InvalidData));
    assert!(Escrow::unpack_unchecked(&[0u8; 105]).is_ok());
}

#[test]
fn pack_rejects_other_lengths_and_writes_nothing() {
    let mut short = [0x11u8; 104];
    assert_eq!(Escrow::pack(sample(), &mut short), Err(EscrowError::InvalidData));
    assert_eq!(short, [0x11u8; 104]);
    let mut long = [0x22u8; 106];
    assert_eq!(Escrow::pack(sample(), &mut long), Err(EscrowError::InvalidData));
    assert_eq!(long, [0x22u8; 106]);
}

#[test]
fn read_u64_counts_the_first_byte_least() {
    let bytes = [9u8, 0x08, 0x07, 0x06, 0x05, 0x04, 0x03, 0x02, 0x01, 9];
    assert_eq!(read_u64(&bytes, 1), 0x0102_0304_0506_0708);
    assert_eq!(read_u64(&[255u8; 8], 0), u64::MAX);
    assert_eq!(read_u64(&[0u8; 8], 0), 0);
}

#[test]
fn write_u64_touches_eight_bytes() {
    let mut bytes = [0xccu8; 12];
    write_u64(&mut bytes, 2, 0x0102_0304_0506_0708);
    assert_eq!(bytes, [0xcc, 0xcc, 8, 7, 6, 5, 4, 3, 2, 1, 0xcc, 0xcc]);
    assert_eq!(read_u64(&bytes, 2), 0x0102_0304_0506_0708);
}

#[test]
fn write_u64_agrees_with_the_standard_library() {
    for value in [0u64, 1, 255, 256, 1 << 63, u64::MAX, 0xdead_beef_0bad_f00d] {
        let mut bytes = [0u8; 8];
        write_u64(&mut bytes, 0, value);
        assert_eq!(bytes, value.to_le_bytes());
        assert_eq!(read_u64(&bytes, 0), value);
    }
}

#[test]
fn keys_are_compared_byte_by_byte() {
    let a: Pubkey = [4; 32];
    let mut b: Pubkey = [4; 32];
    assert!(same_key(&a, &b));
    b[31] = 5;
    assert!(!same_key(&a, &b));
    b[31] = 4;
    b[0] = 0;
    assert!(!same_key(&a, &b));
}

#[test]
fn keys_are_read_and_written_in_place() {
    let mut bytes = [0u8; 40];
    let mut key: Pubkey = [0; 32];
    for i in 0..32 {
        key[i] = 10 + i as u8;
    }
    write_key(&mut bytes, 5, &key);
    assert_eq!(&bytes[..5], &[0u8; 5][..]);
    assert_eq!(&bytes[5..37], &key[..]);
    assert_eq!(&bytes[37..], &[0u8; 3][..]);
    assert_eq!(read_key(&bytes, 5), key);
}
