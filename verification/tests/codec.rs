use prayer_registry::codec::encode_sync_payload;
use prayer_registry::identity::Hash256;
use prayer_registry::identity::Identity;

#[test]
fn payload_layout_is_selector_and_seven_words() {
    let user = Identity { hi: 0x11111111, lo: 0x22222222222222222222222222222222 };
    let hash = Hash256 { hi: 0xAA, lo: 0xBB };
    let payload = encode_sync_payload(user, 1, 2, 3, 4, 5, hash);

    assert_eq!(payload.len(), 4 + 7 * 32);
    assert_eq!(&payload[0..4], &[0x3f, 0x10, 0x4d, 0xad]);

    // Identity word: 12 zero bytes, then the 20 identity bytes.
    assert_eq!(&payload[4..16], &[0u8; 12]);
    assert_eq!(&payload[16..20], &[0x11; 4]);
    assert_eq!(&payload[20..36], &[0x22; 16]);

    // streak, longest, total, milestones, score: widened big-endian words.
    assert_eq!(&payload[36..67], &[0u8; 31]);
    assert_eq!(payload[67], 1);
    assert_eq!(payload[99], 2);
    assert_eq!(payload[131], 3);
    assert_eq!(payload[163], 4);
    assert_eq!(payload[195], 5);

    // Event hash: kept as its 32 bytes.
    let mut expected_hash = [0u8; 32];
    expected_hash[15] = 0xAA;
    expected_hash[31] = 0xBB;
    assert_eq!(&payload[196..228], &expected_hash);
}

#[test]
fn payload_widens_full_width_values() {
    let user = Identity { hi: u32::MAX, lo: u128::MAX };
    let hash = Hash256 { hi: u128::MAX, lo: u128::MAX };
    let payload = encode_sync_payload(user, u32::MAX, u32::MAX, u32::MAX, u32::MAX, u16::MAX, hash);

    assert_eq!(payload.len(), 228);
    // Identity word keeps its 12 padding bytes even for an all-ones identity.
    assert_eq!(&payload[4..16], &[0u8; 12]);
    assert_eq!(&payload[16..36], &[0xFF; 20]);
    // streak word: 28 zero bytes, then 4 bytes of ones.
    assert_eq!(&payload[36..64], &[0u8; 28]);
    assert_eq!(&payload[64..68], &[0xFF; 4]);
    // score word: 30 zero bytes, then 2 bytes of ones.
    assert_eq!(&payload[164..194], &[0u8; 30]);
    assert_eq!(&payload[194..196], &[0xFF; 2]);
    assert_eq!(&payload[196..228], &[0xFF; 32]);
}

#[test]
fn payload_bytes_are_big_endian() {
    let user = Identity { hi: 0x01020304, lo: 0x05060708090A0B0C0D0E0F1011121314 };
    let hash = Hash256 { hi: 0, lo: 1 };
    let payload = encode_sync_payload(user, 0x01020304, 0, 0, 0, 0x0102, hash);

    let expected_id: [u8; 20] = [
        0x01, 0x02, 0x03, 0x04, 0x05, 0x06, 0x07, 0x08, 0x09, 0x0A, 0x0B, 0x0C, 0x0D, 0x0E, 0x0F,
        0x10, 0x11, 0x12, 0x13, 0x14,
    ];
    assert_eq!(&payload[16..36], &expected_id);
    assert_eq!(&payload[64..68], &[0x01, 0x02, 0x03, 0x04]);
    assert_eq!(&payload[194..196], &[0x01, 0x02]);
    assert_eq!(payload[227], 1);
}
