use snapmail::file::manifest::{find_manifest, FileManifest};
use snapmail::file::{get_file, validate_file, write_file, File};
use snapmail::hash::encode_from_str;
use snapmail::validation::EntryValidation;

fn clone_file(f: &File) -> File {
    File::new(f.data_hash.clone(), f.chunk_index, f.chunk_total, f.chunk.clone())
}

#[test]
fn hash_of_known_text() {
    // the multihash SHA2-256 of "test data", in base58
    assert_eq!(encode_from_str("test data"), "QmY8Mzg9F69e5P9AoQPYat655HEhc1TVGs11tmfNSzkqh2");
    assert_ne!(encode_from_str("test datb"), encode_from_str("test data"));
}

#[test]
fn write_file_single_chunk() {
    let files = write_file("test data");
    assert_eq!(files.len(), 1);
    assert_eq!(files[0].data_hash, "QmY8Mzg9F69e5P9AoQPYat655HEhc1TVGs11tmfNSzkqh2");
    assert_eq!(files[0].chunk_index, 0);
    assert_eq!(files[0].chunk_total, 1);
    assert_eq!(files[0].chunk, b"test data".to_vec());
}

#[test]
fn write_file_splits_in_ten_byte_chunks() {
    let data = "0123456789abcdefghij_klm";
    let files = write_file(data);
    assert_eq!(files.len(), 3);
    assert_eq!(files[0].chunk, b"0123456789".to_vec());
    assert_eq!(files[1].chunk, b"abcdefghij".to_vec());
    assert_eq!(files[2].chunk, b"_klm".to_vec());
    for (i, f) in files.iter().enumerate() {
        assert_eq!(f.chunk_index, i);
        assert_eq!(f.chunk_total, 3);
        assert_eq!(f.data_hash, encode_from_str(data));
    }
    let exact = write_file("0123456789abcdefghij");
    assert_eq!(exact.len(), 2);
    assert_eq!(exact[1].chunk, b"abcdefghij".to_vec());
}

#[test]
fn file_round_trip_ascii() {
    let data = "SGVsbG8gd29ybGQsIHRoaXMgaXMgYSBiYXNlNjQgZmlsZQ==";
    let files = write_file(data);
    assert_eq!(get_file(&files), Some(data.to_string()));
}

#[test]
fn file_round_trip_splits_inside_characters() {
    // each 'é' is two bytes, so the ten-byte chunks end inside a character
    let data = "aééééééééé€€€";
    let files = write_file(data);
    assert!(files.iter().any(|f| std::str::from_utf8(&f.chunk).is_err()));
    assert_eq!(get_file(&files), Some(data.to_string()));
}

#[test]
fn get_file_of_no_versions_is_empty() {
    assert_eq!(get_file(&Vec::new()), Some(String::new()));
}

#[test]
fn get_file_refuses_bytes_that_are_not_utf8() {
    let files = vec![File::new("h".to_string(), 0, 1, vec![0xff, 0xfe])];
    assert_eq!(get_file(&files), None);
}

#[test]
fn written_versions_pass_validation() {
    let files = write_file("a text long enough to take four chunks");
    assert_eq!(files.len(), 4);
    assert_eq!(validate_file(EntryValidation::Create { entry: clone_file(&files[0]) }), Ok(()));
    for i in 0..files.len() - 1 {
        let v = EntryValidation::Modify { new_entry: clone_file(&files[i + 1]), old_entry: clone_file(&files[i]) };
        assert_eq!(validate_file(v), Ok(()));
    }
}

fn manifest(hash: &str, name: &str) -> FileManifest {
    FileManifest {
        data_hash: hash.to_string(),
        filename: name.to_string(),
        filetype: "text".to_string(),
        orig_filesize: 3,
        chunks: vec!["c0".to_string()],
    }
}

#[test]
fn find_manifest_takes_first_match() {
    let list = vec![manifest("h1", "a"), manifest("h2", "b"), manifest("h2", "c")];
    let found = find_manifest(list, &"h2".to_string()).unwrap();
    assert_eq!(found.filename, "b");
    let list = vec![manifest("h1", "a")];
    assert!(find_manifest(list, &"h3".to_string()).is_none());
    assert!(find_manifest(Vec::new(), &"h1".to_string()).is_none());
}
