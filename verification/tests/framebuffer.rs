use toykit_dongle::address::ble_addr_from_device_id;
use toykit_dongle::framebuffer::{
    frame_batch, frame_batch_count, frame_batches, FramePixel, FRAME_BATCH_PIXELS,
};

#[test]
fn full_screen_comes_in_batches_of_256_in_row_order() {
    let width: u16 = 128;
    let height: u16 = 64;
    let mut bytes = vec![0u8; 128 * 8];
    // Pixel (5, 10): page 1, bit 2.
    bytes[128 + 5] = 0b0000_0100;
    // Pixel (127, 63): page 7, bit 7.
    bytes[7 * 128 + 127] = 0b1000_0000;
    let batches = frame_batches(&bytes, width, height);
    assert_eq!(batches.len(), 32);
    assert!(batches.iter().all(|b| b.len() == FRAME_BATCH_PIXELS));
    let flat: Vec<FramePixel> = batches.concat();
    assert_eq!(flat.len(), 128 * 64);
    for (k, p) in flat.iter().enumerate() {
        assert_eq!(p.x as usize, k % 128);
        assert_eq!(p.y as usize, k / 128);
        let lit = (p.x == 5 && p.y == 10) || (p.x == 127 && p.y == 63);
        assert_eq!(p.on, lit);
    }
    assert_eq!(batches[5][10 * 128 + 5 - 5 * 256], FramePixel { x: 5, y: 10, on: true });
    assert_eq!(batches[31][255], FramePixel { x: 127, y: 63, on: true });
}

#[test]
fn last_batch_holds_the_remainder() {
    let width: u16 = 17;
    let height: u16 = 17;
    // 17 rows take 3 pages.
    let bytes = vec![0xffu8; 17 * 3];
    let batches = frame_batches(&bytes, width, height);
    assert_eq!(batches.len(), 2);
    assert_eq!(batches[0].len(), 256);
    assert_eq!(batches[1].len(), 17 * 17 - 256);
    assert!(batches.iter().flatten().all(|p| p.on));
    assert_eq!(batches[1][0], FramePixel { x: 256 % 17, y: 256 / 17, on: true });
}

#[test]
fn bits_are_least_significant_on_top() {
    let width: u16 = 2;
    let height: u16 = 9;
    // Column 0 of page 0 lights rows 0 and 7; column 1 of page 1 lights row 8.
    let bytes = vec![0b1000_0001u8, 0, 0, 0b0000_0001];
    let batches = frame_batches(&bytes, width, height);
    assert_eq!(batches.len(), 1);
    let lit: Vec<(i32, i32)> = batches[0].iter().filter(|p| p.on).map(|p| (p.x, p.y)).collect();
    assert_eq!(lit, vec![(0, 0), (0, 7), (1, 8)]);
}

#[test]
fn empty_screen_draws_nothing() {
    assert!(frame_batches(&[], 0, 64).is_empty());
    assert!(frame_batches(&[], 128, 0).is_empty());
}

#[test]
fn address_is_the_device_id_with_static_flags() {
    let addr = ble_addr_from_device_id(0x4433_2211, 0x7766_0555);
    assert_eq!(addr, [0x11, 0x22, 0x33, 0x44, 0x55, 0x05 | 0xc0]);
    let zero = ble_addr_from_device_id(0, 0);
    assert_eq!(zero, [0, 0, 0, 0, 0, 0xc0]);
    let ones = ble_addr_from_device_id(u32::MAX, u32::MAX);
    assert_eq!(ones, [0xff; 6]);
}

#[test]
fn streamed_batches_match_the_whole_frame() {
    let width: u16 = 17;
    let height: u16 = 17;
    let mut bytes = vec![0u8; 17 * 3];
    bytes[3] = 0b0000_0001;
    bytes[17 + 16] = 0b1000_0000;
    bytes[2 * 17 + 5] = 0b0000_0001;
    let whole = frame_batches(&bytes, width, height);
    let count = frame_batch_count(width, height);
    assert_eq!(count, 2);
    for b in 0..count {
        let (pixels, len) = frame_batch(&bytes, width, height, b);
        assert_eq!(&pixels[..len], whole[b].as_slice());
    }
    let (_, past) = frame_batch(&bytes, width, height, count);
    assert_eq!(past, 0);
    let (last, len) = frame_batch(&bytes, width, height, 1);
    assert_eq!(len, 33);
    // Pixel 288 is the bottom-right corner (16, 16): page 2, bit 0 of column 16.
    assert_eq!(last[32], FramePixel { x: 16, y: 16, on: false });
    assert_eq!(last[288 - 256 - 11], FramePixel { x: 5, y: 16, on: true });
}

#[test]
fn full_screen_streams_in_32_full_batches() {
    let bytes = vec![0xffu8; 128 * 8];
    assert_eq!(frame_batch_count(128, 64), 32);
    let (pixels, len) = frame_batch(&bytes, 128, 64, 31);
    assert_eq!(len, 256);
    assert_eq!(pixels[255], FramePixel { x: 127, y: 63, on: true });
    assert_eq!(frame_batch_count(0, 64), 0);
}
