use part_mount::chunk::{chunk_len, COPY_CHUNK_SIZE, ZERO_CHUNK_SIZE};
use part_mount::geometry::PartitionRegion;
use part_mount::image::{copy_range, zero};
use part_mount::part::format_region;

#[test]
fn zero_clears_range_and_nothing_else() {
    let mut img = vec![0xFFu8; 64];
    zero(&mut img, 16, 32);
    assert!(img[16..48].iter().all(|&b| b == 0));
    assert!(img[..16].iter().all(|&b| b == 0xFF));
    assert!(img[48..].iter().all(|&b| b == 0xFF));
    assert_eq!(img.len(), 64);
}

#[test]
fn zero_exact_length_off_chunk_boundary() {
    // A length that is no multiple of the chunk size: exactly that many
    // bytes change, no byte past the end of the range is written.
    let mut img = vec![0xAAu8; 32];
    zero(&mut img, 3, 5);
    assert_eq!(img.iter().filter(|&&b| b == 0).count(), 5);
    assert!(img[3..8].iter().all(|&b| b == 0));
    assert_eq!(img[2], 0xAA);
    assert_eq!(img[8], 0xAA);
}

#[test]
fn zero_spanning_several_chunks() {
    let len = (3 * ZERO_CHUNK_SIZE + 5) as usize;
    let mut img = vec![0x5Au8; len + 2];
    zero(&mut img, 1, len as u64);
    assert_eq!(img[0], 0x5A);
    assert!(img[1..1 + len].iter().all(|&b| b == 0));
    assert_eq!(img[1 + len], 0x5A);
}

#[test]
fn zero_whole_and_empty_ranges() {
    let mut img = vec![9u8; 10];
    zero(&mut img, 4, 0);
    assert!(img.iter().all(|&b| b == 9));
    zero(&mut img, 0, 10);
    assert!(img.iter().all(|&b| b == 0));
}

#[test]
fn copy_range_copies_exact_window() {
    let src: Vec<u8> = (0u8..100).collect();
    let dst = copy_range(&src, 10, 20);
    assert_eq!(dst, (10u8..30).collect::<Vec<u8>>());
}

#[test]
fn copy_range_short_source_is_not_an_error() {
    // Source shorter than offset + length: exactly the available bytes
    // come out, and the call succeeds.
    let src: Vec<u8> = (0u8..50).collect();
    let dst = copy_range(&src, 40, 100);
    assert_eq!(dst, (40u8..50).collect::<Vec<u8>>());

    let past_end = copy_range(&src, 60, 10);
    assert!(past_end.is_empty());
}

#[test]
fn copy_range_spanning_several_chunks() {
    let len = (2 * COPY_CHUNK_SIZE + 7) as usize;
    let src = vec![0x42u8; len + 3];
    let dst = copy_range(&src, 3, len as u64);
    assert_eq!(dst.len(), len);
    assert!(dst.iter().all(|&b| b == 0x42));
}

#[test]
fn zero_then_copy_round_trip_is_all_zero() {
    let mut img = vec![0xEEu8; 4096 + 123];
    let offset: u64 = 100;
    let length: u64 = 4096;
    zero(&mut img, offset, length);
    let dst = copy_range(&img, offset, length);
    assert_eq!(dst.len(), length as usize);
    assert!(dst.iter().all(|&b| b == 0));
}

#[test]
fn chunk_len_truncates_final_chunk() {
    assert_eq!(chunk_len(5, ZERO_CHUNK_SIZE), 5);
    assert_eq!(chunk_len(ZERO_CHUNK_SIZE, ZERO_CHUNK_SIZE), ZERO_CHUNK_SIZE);
    assert_eq!(chunk_len(ZERO_CHUNK_SIZE + 1, ZERO_CHUNK_SIZE), ZERO_CHUNK_SIZE);
    assert_eq!(chunk_len(0, COPY_CHUNK_SIZE), 0);
}

#[test]
fn test_format_partition_without_fs() {
    // An image of non-zero content, the partition covering all of it.
    let file_size: usize = 16384;
    let mut image = vec![0xFFu8; file_size];
    let region = PartitionRegion { offset: 0, length: file_size as u64 };

    format_region(&mut image, region, "ext4").unwrap();

    assert!(image.iter().all(|&b| b == 0), "Not all bytes were zeroed");
}

#[test]
fn test_format_partition_with_fs() {
    let file_size: usize = 16384;
    let mut image = vec![0xFFu8; file_size];
    let region = PartitionRegion { offset: 0, length: file_size as u64 };

    format_region(&mut image, region, "vfat").unwrap();

    assert!(image.iter().all(|&b| b == 0), "Not all bytes were zeroed");
}
