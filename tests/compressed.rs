use std::io::{Read, Write};
use std::path::PathBuf;

use flate2::read::GzDecoder;
use flate2::write::GzEncoder;
use flate2::Compression;

use gz_file::{append_content, append_stored, decode_content, encode_content, patch_content, patch_stored, CompressedFile};

fn gunzip(bytes: &[u8]) -> Vec<u8> {
    let mut out = Vec::new();
    GzDecoder::new(bytes).read_to_end(&mut out).unwrap();
    out
}

fn gzip(data: &[u8]) -> Vec<u8> {
    let mut encoder = GzEncoder::new(Vec::new(), Compression::default());
    encoder.write_all(data).unwrap();
    encoder.finish().unwrap()
}

#[test]
fn test_write_and_read_file() {
    let content = b"Hello, compressed world!";
    let stored = encode_content(content).unwrap();
    let decompressed_content = decode_content(&stored).unwrap();
    assert_eq!(content, &decompressed_content[..]);
}

#[test]
fn test_append_to_file() {
    let content1 = b"First line.";
    let content2 = b"Second line.";
    let stored = encode_content(content1).unwrap();
    let stored = append_stored(Some(&stored), content2).unwrap();
    let decompressed_content = decode_content(&stored).unwrap();
    let expected_content: Vec<u8> = Vec::from(&content1[..])
        .into_iter()
        .chain(content2.iter().cloned())
        .collect();
    assert_eq!(expected_content, decompressed_content);
}

#[test]
fn test_write_hash_file_gz() {
    let initial_content = b"Hello world, this is some initial content!";
    let stored = gzip(initial_content);
    let hash_to_write = "new_hash_value".to_string();
    let updated = patch_stored(&stored, &hash_to_write, 6).unwrap();
    let decompressed_content = gunzip(&updated);
    let mut expected_content = initial_content.to_vec();
    let hash_bytes = hash_to_write.as_bytes();
    expected_content[6..6 + hash_bytes.len()].copy_from_slice(hash_bytes);
    assert_eq!(expected_content, decompressed_content);
}

#[test]
fn round_trip_of_several_contents() {
    let long: Vec<u8> = (0..5000u32).map(|i| (i * 7 % 251) as u8).collect();
    for data in [&b""[..], &b"a"[..], &[0u8, 255, 0, 1][..], &long[..]] {
        let stored = encode_content(data).unwrap();
        assert_eq!(decode_content(&stored).unwrap(), data.to_vec());
    }
}

#[test]
fn encoded_bytes_are_a_gzip_stream() {
    let stored = encode_content(b"abc").unwrap();
    assert_ne!(stored, b"abc".to_vec());
    assert_eq!(&stored[..3], &[0x1f, 0x8b, 8]);
    assert_eq!(gunzip(&stored), b"abc".to_vec());
    assert_eq!(stored, gzip(b"abc"));
}

#[test]
fn decode_reads_a_stream_written_elsewhere() {
    let stored = gzip(b"from another writer");
    assert_eq!(decode_content(&stored).unwrap(), b"from another writer".to_vec());
}

#[test]
fn empty_file_reads_as_empty_content() {
    assert_eq!(decode_content(&[]).unwrap(), Vec::<u8>::new());
}

#[test]
fn malformed_stream_is_an_error() {
    assert!(decode_content(b"not a gzip stream").is_err());
    let mut truncated = encode_content(b"some content here").unwrap();
    truncated.truncate(truncated.len() - 4);
    assert!(decode_content(&truncated).is_err());
}

#[test]
fn append_twice_equals_one_write_of_both() {
    let once = append_stored(None, b"First").unwrap();
    let twice = append_stored(Some(&once), b"Second").unwrap();
    let single = encode_content(b"FirstSecond").unwrap();
    assert_eq!(decode_content(&twice).unwrap(), b"FirstSecond".to_vec());
    assert_eq!(twice, single);
    let mut naive = encode_content(b"First").unwrap();
    naive.extend_from_slice(&encode_content(b"Second").unwrap());
    assert_ne!(twice, naive);
}

#[test]
fn append_to_absent_file_holds_the_text() {
    let stored = append_stored(None, b"only this").unwrap();
    assert_eq!(decode_content(&stored).unwrap(), b"only this".to_vec());
}

#[test]
fn append_to_empty_file_holds_the_text() {
    let stored = append_stored(Some(&[]), b"xyz").unwrap();
    assert_eq!(decode_content(&stored).unwrap(), b"xyz".to_vec());
}

#[test]
fn append_to_malformed_file_is_an_error() {
    assert!(append_stored(Some(b"garbage"), b"xyz").is_err());
}

#[test]
fn append_content_concatenates() {
    assert_eq!(append_content(b"ab".to_vec(), b"cd"), b"abcd".to_vec());
    assert_eq!(append_content(Vec::new(), b""), Vec::<u8>::new());
}

#[test]
fn patch_beyond_end_zero_extends() {
    assert_eq!(patch_content(b"abc".to_vec(), b"XY", 5), b"abc\0\0XY".to_vec());
    assert_eq!(patch_content(Vec::new(), b"Z", 2), b"\0\0Z".to_vec());
}

#[test]
fn patch_inside_overwrites() {
    assert_eq!(patch_content(b"abcdef".to_vec(), b"XY", 1), b"aXYdef".to_vec());
    assert_eq!(patch_content(b"abcdef".to_vec(), b"XYZ", 4), b"abcdXYZ".to_vec());
    assert_eq!(patch_content(b"abc".to_vec(), b"", 1), b"abc".to_vec());
}

#[test]
fn patch_of_empty_file_starts_from_empty_content() {
    let stored = patch_stored(&[], "hi", 3).unwrap();
    assert_eq!(decode_content(&stored).unwrap(), b"\0\0\0hi".to_vec());
}

#[test]
fn patch_of_malformed_file_is_an_error() {
    assert!(patch_stored(b"garbage", "hi", 0).is_err());
}

#[test]
fn handle_keeps_its_path() {
    let path = PathBuf::from("some/dir/file.gz");
    let file = CompressedFile::new(path.clone());
    assert_eq!(file.path(), &path);
}

#[test]
fn append_of_empty_text_keeps_the_content() {
    let stored = encode_content(b"kept").unwrap();
    let after = append_stored(Some(&stored), b"").unwrap();
    assert_eq!(decode_content(&after).unwrap(), b"kept".to_vec());
    assert_eq!(after, stored);
}
