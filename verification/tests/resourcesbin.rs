use ctviewer::filesystem::resourcesbin::{
    decode, decode_gz, parse_directory, read_directory, validate_header, ResourceFile, ResourcesBin, ResourcesError, BASE_SEED, VAL1, VAL2,
};
use std::io::Write;

fn scramble(plain: &[u8], block_seed: i32) -> Vec<u8> {
    let mut num = BASE_SEED.wrapping_add(block_seed);
    plain
        .iter()
        .map(|b| {
            num = num.wrapping_mul(VAL1).wrapping_add(VAL2);
            ((*b as i32) ^ (num >> 24)) as u8
        })
        .collect()
}

#[test]
fn scrambled_blocks_decode_to_their_bytes() {
    let plain = b"resources archive".to_vec();
    let mut data = vec![0xEEu8; 3];
    data.extend(scramble(&plain, 7));
    assert_eq!(decode(&data, 3, plain.len(), 7), plain);
    assert_ne!(decode(&data, 3, plain.len(), 8), plain);
}

#[test]
fn compressed_blocks_decode_and_inflate() {
    let payload = b"hello hello hello".to_vec();
    let mut encoder = flate2::write::GzEncoder::new(Vec::new(), flate2::Compression::default());
    encoder.write_all(&payload).unwrap();
    let gz = encoder.finish().unwrap();
    let mut plain = (payload.len() as u32).to_be_bytes().to_vec();
    plain.extend(gz);
    let data = scramble(&plain, 3);
    assert_eq!(decode_gz(&data, 0, data.len(), 3), Some(payload));
}

fn header(signature: &[u8; 4], length: u32, dir_offset: u32, dir_length: u32) -> Vec<u8> {
    let mut h = signature.to_vec();
    h.extend(length.to_le_bytes());
    h.extend(dir_offset.to_le_bytes());
    h.extend(dir_length.to_le_bytes());
    h
}

#[test]
fn archive_headers_are_checked() {
    assert_eq!(validate_header(&header(b"ARC1", 100, 16, 20), 100), Ok((16, 20)));
    assert_eq!(validate_header(&header(b"ARC2", 100, 16, 20), 100), Err(ResourcesError::UnknownSignature));
    assert_eq!(validate_header(&header(b"ARC1", 99, 16, 20), 100), Err(ResourcesError::LengthMismatch));
    assert_eq!(validate_header(&header(b"ARC1", 100, 101, 0), 100), Err(ResourcesError::DirectoryBeyondEnd));
    assert_eq!(validate_header(&header(b"ARC1", 100, 90, 20), 100), Err(ResourcesError::DirectoryPastEnd));
}

#[test]
fn directories_list_paths_offsets_and_sizes() {
    let mut d = Vec::new();
    d.extend(1u32.to_le_bytes());
    d.extend(16u32.to_le_bytes());
    d.extend(100u32.to_le_bytes());
    d.extend(5u32.to_le_bytes());
    d.extend(b"a/b.txt\0");
    let files = parse_directory(&d);
    assert_eq!(files.len(), 1);
    assert_eq!(files[0].path, "a/b.txt");
    assert_eq!((files[0].offset, files[0].size), (100, 5));
    let bin = ResourcesBin::from_files(files);
    assert!(bin.file_exists("a/b.txt"));
    assert!(!bin.file_exists("a/c.txt"));
}

#[test]
fn later_files_replace_earlier_ones() {
    let files = vec![
        ResourceFile { path: "x".to_string(), offset: 1, size: 1 },
        ResourceFile { path: "x".to_string(), offset: 2, size: 2 },
    ];
    let bin = ResourcesBin::from_files(files);
    assert_eq!(bin.files.len(), 1);
    assert_eq!(bin.files["x"].offset, 2);
}

fn one_entry_directory(path_offset: u32, path: &[u8]) -> Vec<u8> {
    let mut d = Vec::new();
    d.extend(1u32.to_le_bytes());
    d.extend(path_offset.to_le_bytes());
    d.extend(100u32.to_le_bytes());
    d.extend(5u32.to_le_bytes());
    d.extend(path);
    d
}

#[test]
fn unreadable_directories_are_refused() {
    let good = one_entry_directory(16, b"a/b.txt\0");
    let files = read_directory(&good).unwrap();
    assert_eq!(files[0].path, "a/b.txt");
    assert!(read_directory(&vec![1, 0]).is_none());
    // One entry announced, but no room for it.
    assert!(read_directory(&vec![1, 0, 0, 0, 0, 0]).is_none());
    // The path starts past the end.
    assert!(read_directory(&one_entry_directory(99, b"x\0")).is_none());
    // The path is not UTF-8.
    assert!(read_directory(&one_entry_directory(16, &[0xFF, 0xFE, 0])).is_none());
}
