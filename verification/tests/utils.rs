use id3::utils::synchsafe_to_u32;

#[test]
fn it_converts() {
    assert_eq!(synchsafe_to_u32(&[0, 0, 0, 0]), Some(0));
    assert_eq!(synchsafe_to_u32(&[0, 0, 0, 0x1]), Some(0x1));
    assert_eq!(synchsafe_to_u32(&[0, 0, 0, 0x7F]), Some(0x7F));
    assert_eq!(synchsafe_to_u32(&[0, 0, 0x1, 0]), Some(0x80));
    assert_eq!(synchsafe_to_u32(&[0, 0, 0x1, 0x7F]), Some(0xFF));
    assert_eq!(synchsafe_to_u32(&[0, 0x3, 0x7F, 0x7F]), Some(0xFFFF));
    assert_eq!(synchsafe_to_u32(&[0x7, 0x7F, 0x7F, 0x7F]), Some(0xFFFFFF));
    assert_eq!(synchsafe_to_u32(&[0x7F, 0x7F, 0x7F, 0x7F]), Some(0xFFFFFFF));
}

#[test]
fn it_returns_none() {
    assert_eq!(synchsafe_to_u32(&[]), None);
}

#[test]
fn it_converts_the_documented_example() {
    let synchsafe: [u8; 4] = [0b0000_0000, 0b0000_0011, 0b0111_1111, 0b0111_1111];
    assert_eq!(synchsafe_to_u32(&synchsafe).unwrap(), 0b11111111_11111111);
}

#[test]
fn it_returns_none_for_every_other_length() {
    let bytes = [0x7Fu8; 9];
    for len in 0..bytes.len() + 1 {
        let value = synchsafe_to_u32(&bytes[..len]);
        if len == 4 {
            assert_eq!(value, Some(0xFFFFFFF));
        } else {
            assert_eq!(value, None);
        }
    }
}

#[test]
fn it_is_the_weighted_sum_when_no_bits_collide() {
    // A set high bit next to an even left neighbour adds its full weight.
    assert_eq!(synchsafe_to_u32(&[0, 0, 0, 0x80]), Some(0x80));
    assert_eq!(synchsafe_to_u32(&[0, 0, 2, 0x80]), Some(2 * 0x80 + 0x80));
    assert_eq!(synchsafe_to_u32(&[0x80, 0, 0, 0]), Some(0x80 * 0x20_0000));
    assert_eq!(
        synchsafe_to_u32(&[0xFE, 0x7E, 0x7E, 0x7F]),
        Some(0xFE * 0x20_0000 + 0x7E * 0x4000 + 0x7E * 0x80 + 0x7F)
    );
    for b0 in [0u32, 1, 0x40, 0x7F] {
        for b3 in [0u32, 1, 0x55, 0x7F] {
            let expected = b0 * 0x20_0000 + 0x12 * 0x4000 + 0x34 * 0x80 + b3;
            assert_eq!(synchsafe_to_u32(&[b0 as u8, 0x12, 0x34, b3 as u8]), Some(expected));
        }
    }
}

#[test]
fn it_merges_a_high_bit_with_an_odd_left_neighbour() {
    // Bit 7 of the last byte and bit 0 of the third meet at the same place.
    assert_eq!(synchsafe_to_u32(&[0, 0, 1, 0x80]), Some(0x80));
    assert_eq!(synchsafe_to_u32(&[0xFF, 0xFF, 0xFF, 0xFF]), Some(0x1FFF_FFFF));
}
