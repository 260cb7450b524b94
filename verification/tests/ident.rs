use pallet_token::ident::{push_le, read_le_u128, read_le_u64};
use pallet_token::Pallet;

#[test]
fn push_le_writes_least_significant_byte_first() {
    let mut out = vec![9u8];
    push_le(&mut out, 0x0102_0304_0506_0708, 8);
    assert_eq!(out, vec![9, 8, 7, 6, 5, 4, 3, 2, 1]);
}

#[test]
fn push_le_keeps_only_the_low_bytes() {
    let mut out = Vec::new();
    push_le(&mut out, 0x1234_5678, 4);
    assert_eq!(out, vec![0x78, 0x56, 0x34, 0x12]);
    let mut none = Vec::new();
    push_le(&mut none, 77, 0);
    assert!(none.is_empty());
}

#[test]
fn read_le_u64_reads_from_the_given_position() {
    let bytes: [u8; 10] = [0xff, 1, 0, 0, 0, 0, 0, 0, 0x80, 0xee];
    assert_eq!(read_le_u64(&bytes, 0), 0x0000_0000_0000_01ff);
    assert_eq!(read_le_u64(&bytes, 1), 0x8000_0000_0000_0001);
    assert_eq!(read_le_u64(&bytes, 2), 0xee80_0000_0000_0000);
}

#[test]
fn read_le_u64_at_the_limits() {
    assert_eq!(read_le_u64(&[0u8; 8], 0), 0);
    assert_eq!(read_le_u64(&[0xffu8; 8], 0), u64::MAX);
}

#[test]
fn read_le_u128_agrees_with_std() {
    let bytes: [u8; 16] = [1, 2, 3, 4, 5, 6, 7, 8, 9, 10, 11, 12, 13, 14, 15, 16];
    assert_eq!(read_le_u128(&bytes), u128::from_le_bytes(bytes));
    assert_eq!(read_le_u128(&[0xffu8; 16]), u128::MAX);
}

#[test]
fn random_number_known_values() {
    assert_eq!(Pallet::generate_random_number(0), 8460412714274268326);
    assert_eq!(Pallet::generate_random_number(1), 3565335302914681144);
    assert_eq!(Pallet::generate_random_number(1000), 13725311325996137465);
    assert_eq!(Pallet::generate_random_number(u32::MAX), 16537990468597525216);
}

#[test]
fn random_number_is_the_head_of_the_digest() {
    let mut input = vec![5u8, 0, 0, 0];
    input.extend_from_slice(b"random_seed");
    let digest = sp_io::hashing::blake2_256(&input);
    let mut head = [0u8; 8];
    head.copy_from_slice(&digest[0..8]);
    assert_eq!(Pallet::generate_random_number(5), u64::from_le_bytes(head));
}

#[test]
fn unique_id_known_values() {
    assert_eq!(Pallet::gen_unique_id(0, 0), 233480473834351548387583619566903026309);
    assert_eq!(Pallet::gen_unique_id(1, 0), 314245121710772047518544363039451676717);
    assert_eq!(Pallet::gen_unique_id(1, 1), 212018415109845979435025815044167503363);
    assert_eq!(Pallet::gen_unique_id(1000, 7), 315141637892301405258645664825751339368);
}

#[test]
fn unique_id_is_the_digest_of_the_payload() {
    let random = Pallet::generate_random_number(42);
    let mut payload = Vec::new();
    payload.extend_from_slice(&random.to_le_bytes());
    payload.extend_from_slice(&3u32.to_le_bytes());
    payload.extend_from_slice(&42u32.to_le_bytes());
    let digest = sp_io::hashing::blake2_128(&payload);
    assert_eq!(Pallet::gen_unique_id(42, 3), u128::from_le_bytes(digest));
}

#[test]
fn unique_id_depends_on_block_and_index() {
    assert_ne!(Pallet::gen_unique_id(1, 0), Pallet::gen_unique_id(1, 1));
    assert_ne!(Pallet::gen_unique_id(1, 0), Pallet::gen_unique_id(2, 0));
    assert_eq!(Pallet::gen_unique_id(9, 4), Pallet::gen_unique_id(9, 4));
}
