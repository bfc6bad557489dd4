use dynlock::inner::{InnerState, BYTES_PER_PIXEL, COPY_BYTES_PER_ROW_ALIGNMENT};

#[test]
fn the_row_constants() {
    assert_eq!(BYTES_PER_PIXEL, 4);
    assert_eq!(COPY_BYTES_PER_ROW_ALIGNMENT, 256);
}

#[test]
fn rows_are_padded_to_the_alignment() {
    let inner = InnerState::new(256, 256).expect("sizes");
    assert_eq!(inner.width, 256);
    assert_eq!(inner.height, 256);
    assert_eq!(inner.unpadded_bytes_per_row, 1024);
    assert_eq!(inner.padded_bytes_per_row, 1024);
    assert_eq!(inner.output_buffer_size, 262_144);

    let inner = InnerState::new(1920, 1080).expect("sizes");
    assert_eq!(inner.unpadded_bytes_per_row, 7680);
    assert_eq!(inner.padded_bytes_per_row, 7680);
    assert_eq!(inner.output_buffer_size, 8_294_400);

    let inner = InnerState::new(1, 1).expect("sizes");
    assert_eq!(inner.unpadded_bytes_per_row, 4);
    assert_eq!(inner.padded_bytes_per_row, 256);
    assert_eq!(inner.output_buffer_size, 256);

    let inner = InnerState::new(65, 3).expect("sizes");
    assert_eq!(inner.unpadded_bytes_per_row, 260);
    assert_eq!(inner.padded_bytes_per_row, 512);
    assert_eq!(inner.output_buffer_size, 1536);

    let inner = InnerState::new(64, 2).expect("sizes");
    assert_eq!(inner.unpadded_bytes_per_row, 256);
    assert_eq!(inner.padded_bytes_per_row, 256);
    assert_eq!(inner.output_buffer_size, 512);
}

#[test]
fn empty_targets_have_empty_buffers() {
    let inner = InnerState::new(0, 10).expect("sizes");
    assert_eq!(inner.unpadded_bytes_per_row, 0);
    assert_eq!(inner.padded_bytes_per_row, 0);
    assert_eq!(inner.output_buffer_size, 0);
    let inner = InnerState::new(u32::MAX, 0).expect("sizes");
    assert_eq!(inner.unpadded_bytes_per_row, 17_179_869_180);
    assert_eq!(inner.padded_bytes_per_row, 17_179_869_184);
    assert_eq!(inner.output_buffer_size, 0);
}

#[test]
fn targets_beyond_32_bits_are_refused() {
    assert!(InnerState::new(u32::MAX, 1).is_none());
    assert!(InnerState::new(65_536, 65_536).is_none());
    assert!(InnerState::new(32_768, 32_768).is_none());
    // 4 GiB less one row is within
    let inner = InnerState::new(16_384, 65_535).expect("sizes");
    assert_eq!(inner.output_buffer_size, 65_536 * 65_535);
}

#[test]
fn read_back_drops_the_padding_and_turns_each_row() {
    let inner = InnerState::new(2, 2).expect("sizes");
    let mut data = vec![0u8; 512];
    for (i, b) in [1u8, 2, 3, 4, 5, 6, 7, 8].iter().enumerate() {
        data[i] = *b;
    }
    for (i, b) in [11u8, 12, 13, 14, 15, 16, 17, 18].iter().enumerate() {
        data[256 + i] = *b;
    }
    // what stands in the padding is dropped
    data[8] = 99;
    data[255] = 98;
    let result = inner.read_back(&data).expect("an image");
    assert_eq!(result.width, 2);
    assert_eq!(result.height, 2);
    assert_eq!(
        result.content,
        vec![8, 1, 2, 3, 4, 5, 6, 7, 18, 11, 12, 13, 14, 15, 16, 17]
    );
}

#[test]
fn read_back_of_an_unpadded_target() {
    let inner = InnerState::new(64, 1).expect("sizes");
    let data: Vec<u8> = (0..=255u8).collect();
    let result = inner.read_back(&data).expect("an image");
    let mut want: Vec<u8> = vec![255];
    want.extend(0..255u8);
    assert_eq!(result.content, want);
}

#[test]
fn read_back_refuses_a_buffer_of_another_size() {
    let inner = InnerState::new(2, 2).expect("sizes");
    assert!(inner.read_back(&vec![0u8; 511]).is_none());
    assert!(inner.read_back(&vec![0u8; 513]).is_none());
    assert!(inner.read_back(&Vec::new()).is_none());
}

#[test]
fn read_back_of_an_empty_target_is_empty() {
    let inner = InnerState::new(0, 5).expect("sizes");
    let result = inner.read_back(&Vec::new()).expect("an image");
    assert_eq!(result.content, Vec::<u8>::new());
    let inner = InnerState::new(5, 0).expect("sizes");
    let result = inner.read_back(&Vec::new()).expect("an image");
    assert_eq!(result.content, Vec::<u8>::new());
    assert_eq!((result.width, result.height), (5, 0));
}
