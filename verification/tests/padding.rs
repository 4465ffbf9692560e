use gpu_compute::layout::{compute_work_group_count, depad_rows, padded_bytes_per_row};

#[test]
fn padded_row_examples() {
    // width 300: 1200 pixel bytes pad up to 1280.
    assert_eq!(padded_bytes_per_row(300), 1280);
    // width 4: 16 pixel bytes pad up to a whole alignment unit.
    assert_eq!(padded_bytes_per_row(4), 256);
    // width 64: 256 pixel bytes need no padding at all.
    assert_eq!(padded_bytes_per_row(64), 256);
    assert_eq!(padded_bytes_per_row(65), 512);
    assert_eq!(padded_bytes_per_row(1), 256);
}

#[test]
fn padded_row_alignment_and_bound() {
    for width in 1u32..=2048 {
        let padded = padded_bytes_per_row(width);
        assert_eq!(padded % 256, 0);
        assert!(padded >= width as usize * 4);
        assert!(padded < width as usize * 4 + 256);
    }
}

#[test]
fn grid_example() {
    // width 65 needs 5 tiles of 16: 80 >= 65 while 64 < 65.
    let (x, y) = compute_work_group_count((65, 1), (16, 16));
    assert_eq!(x, 5);
    assert_eq!(y, 1);
}

#[test]
fn grid_covers_image() {
    for len in 1u32..=512 {
        let (x, _) = compute_work_group_count((len, 1), (16, 16));
        assert!(x * 16 >= len);
        assert!((x - 1) * 16 < len);
    }
}

#[test]
fn depad_strips_every_row_tail() {
    let width: u32 = 3;
    let height: u32 = 2;
    let unpadded = width as usize * 4;
    let padded_row = padded_bytes_per_row(width);
    assert_eq!(padded_row, 256);

    // Fill the pixel bytes of each row with distinct values and the padding
    // tail with junk that must never reach the output.
    let mut buffer = vec![0xEEu8; padded_row * height as usize];
    let mut expected = Vec::new();
    for row in 0..height as usize {
        for col in 0..unpadded {
            let value = (row * unpadded + col) as u8;
            buffer[row * padded_row + col] = value;
            expected.push(value);
        }
    }

    let packed = depad_rows(&buffer, width, height);
    assert_eq!(packed.len(), unpadded * height as usize);
    assert_eq!(packed, expected);
}

#[test]
fn depad_is_deterministic() {
    let width: u32 = 5;
    let height: u32 = 3;
    let padded_row = padded_bytes_per_row(width);
    let buffer: Vec<u8> = (0..padded_row * height as usize).map(|i| (i % 251) as u8).collect();

    let first = depad_rows(&buffer, width, height);
    let second = depad_rows(&buffer, width, height);
    assert_eq!(first, second);
}

#[test]
fn four_by_four_end_to_end_arithmetic() {
    // A 4x4 image: 16 pixel bytes per row pad up to 256, the readback buffer
    // holds 4 * 256 = 1024 bytes, and depadding returns exactly 64 bytes.
    let width: u32 = 4;
    let height: u32 = 4;
    let padded_row = padded_bytes_per_row(width);
    assert_eq!(padded_row, 256);
    let buffer_size = height as usize * padded_row;
    assert_eq!(buffer_size, 1024);

    let buffer = vec![7u8; buffer_size];
    let packed = depad_rows(&buffer, width, height);
    assert_eq!(packed.len(), 64);
    assert!(packed.iter().all(|&b| b == 7));
}
