use cart::graphics::{pixel, targeting_indicator, FRAMEBUFFER_SIZE};

#[test]
fn pixel_sets_its_two_bits() {
    let mut framebuffer = vec![0u8; FRAMEBUFFER_SIZE];
    // (5, 2) lives in byte (2 * 160 + 5) / 4 = 81, at bits 2 and 3
    pixel(&mut framebuffer, 0x0002, 5, 2, 3);
    assert_eq!(framebuffer[81], 0b0000_1100);
    assert_eq!(framebuffer.iter().filter(|b| **b != 0).count(), 1);
}

#[test]
fn pixel_keeps_neighbours() {
    let mut framebuffer = vec![0xffu8; FRAMEBUFFER_SIZE];
    pixel(&mut framebuffer, 0x0002, 5, 2, 1);
    assert_eq!(framebuffer[81], 0b1111_0111);
    assert_eq!(framebuffer[80], 0xff);
}

#[test]
fn pixel_skips_off_screen_and_transparent() {
    let mut framebuffer = vec![0u8; FRAMEBUFFER_SIZE];
    pixel(&mut framebuffer, 0x0002, -1, 2, 1);
    pixel(&mut framebuffer, 0x0002, 160, 2, 1);
    pixel(&mut framebuffer, 0x0002, 3, 160, 1);
    pixel(&mut framebuffer, 0x0020, 3, 3, 1);
    assert!(framebuffer.iter().all(|b| *b == 0));
    pixel(&mut framebuffer, 0x0001, 159, 159, 2);
    assert_eq!(framebuffer[FRAMEBUFFER_SIZE - 1], 0b1000_0000);
}

#[test]
fn targeting_arrows_point_off_screen() {
    assert_eq!(targeting_indicator(-5, 200), Some((0x84, 2, 150)));
    assert_eq!(targeting_indicator(40, -9), Some((0x86, 40, 2)));
    assert_eq!(targeting_indicator(170, 30), Some((0x85, 151, 30)));
    assert_eq!(targeting_indicator(-3, -3), Some((0x84, 2, 0)));
    assert_eq!(targeting_indicator(80, 300), Some((0x87, 80, 151)));
    assert_eq!(targeting_indicator(80, 80), None);
    assert_eq!(targeting_indicator(160, 160), None);
}
