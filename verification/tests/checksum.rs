use rawnet::checksum::compute_checksum;

#[test]
fn checksum_known_vector() {
    // words 0x0001, 0xF203, 0xF4F5, 0xF6F7 sum to 0x2DDF0; folding the
    // carry gives 0xDDF2, whose one's complement is 0x220D
    let data = [0x00u8, 0x01, 0xF2, 0x03, 0xF4, 0xF5, 0xF6, 0xF7];
    assert_eq!(compute_checksum(&data), 0x220D);
}

#[test]
fn checksum_empty() {
    let data: [u8; 0] = [];
    assert_eq!(compute_checksum(&data), 0xFFFF);
}

#[test]
fn checksum_all_ones_words() {
    // 0xFFFF + 0xFFFF folds to 0xFFFF; complement is 0
    let data = [0xFFu8, 0xFF, 0xFF, 0xFF];
    assert_eq!(compute_checksum(&data), 0x0000);
}

#[test]
fn checksum_fill_then_recompute_is_zero() {
    // fill a zeroed checksum field with the computed checksum; the
    // checksum over the whole buffer, field included, must come out zero
    let mut data = [0x45u8, 0x00, 0x00, 0x4C, 0xCC, 0x80, 0x00, 0x00, 0x3C, 0x11, 0x00, 0x00,
        192, 168, 0, 2, 216, 239, 35, 12];
    let c = compute_checksum(&data);
    data[10] = (c >> 8) as u8;
    data[11] = (c & 0xFF) as u8;
    assert_eq!(compute_checksum(&data), 0x0000);
}

#[test]
fn checksum_single_bit_flip_changes_value() {
    let data = [0x45u8, 0x00, 0x00, 0x4C, 0xCC, 0x80, 0x00, 0x00, 0x3C, 0x11, 0x00, 0x00,
        192, 168, 0, 2, 216, 239, 35, 12];
    let base = compute_checksum(&data);
    for k in 0..data.len() {
        for t in 0..8 {
            let mut flipped = data;
            flipped[k] ^= 1 << t;
            assert_ne!(compute_checksum(&flipped), base);
        }
    }
}
