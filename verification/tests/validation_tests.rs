use snapmail::file::chunk::{validate_chunk, FileChunk};
use snapmail::file::manifest::{validate_file as validate_manifest, FileManifest};
use snapmail::file::{validate_file, File};
use snapmail::handle::validation::{validate_handle, validate_name};
use snapmail::handle::Handle;
use snapmail::utils::usize_to_decimal;
use snapmail::validation::EntryValidation;

fn file(hash: &str, index: usize, total: usize, chunk: &[u8]) -> File {
    File::new(hash.to_string(), index, total, chunk.to_vec())
}

#[test]
fn decimal_text_of_numbers() {
    assert_eq!(usize_to_decimal(0), "0");
    assert_eq!(usize_to_decimal(7), "7");
    assert_eq!(usize_to_decimal(10), "10");
    assert_eq!(usize_to_decimal(204800), "204800");
    assert_eq!(usize_to_decimal(usize::MAX), usize::MAX.to_string());
}

#[test]
fn name_length_bounds() {
    assert_eq!(validate_name("ab".to_string()), Err("Name too short".to_string()));
    assert_eq!(validate_name("abc".to_string()), Ok(()));
    assert_eq!(validate_name("a".repeat(32)), Ok(()));
    assert_eq!(validate_name("a".repeat(33)), Err("Name too long".to_string()));
    assert_eq!(validate_name(String::new()), Err("Name too short".to_string()));
}

#[test]
fn name_length_counts_bytes() {
    // 'é' takes two bytes in UTF-8
    assert_eq!(validate_name("é".to_string()), Err("Name too short".to_string()));
    assert_eq!(validate_name("éa".to_string()), Ok(()));
    assert_eq!(validate_name("é".repeat(16)), Ok(()));
    assert_eq!(validate_name("é".repeat(17)), Err("Name too long".to_string()));
}

#[test]
fn handle_creation_checks_name() {
    let ok = EntryValidation::Create { entry: Handle::new("alice".to_string()) };
    assert_eq!(validate_handle(ok), Ok(()));
    let short = EntryValidation::Create { entry: Handle::new("al".to_string()) };
    assert_eq!(validate_handle(short), Err("Name too short".to_string()));
}

#[test]
fn handle_update_must_change_name() {
    let same = EntryValidation::Modify {
        new_entry: Handle::new("alice".to_string()),
        old_entry: Handle::new("alice".to_string()),
    };
    assert_eq!(validate_handle(same), Err("Trying to modify with same data".to_string()));
    let renamed = EntryValidation::Modify {
        new_entry: Handle::new("alicia".to_string()),
        old_entry: Handle::new("alice".to_string()),
    };
    assert_eq!(validate_handle(renamed), Ok(()));
    let too_long = EntryValidation::Modify {
        new_entry: Handle::new("x".repeat(40)),
        old_entry: Handle::new("alice".to_string()),
    };
    assert_eq!(validate_handle(too_long), Err("Name too long".to_string()));
}

#[test]
fn handle_cannot_be_deleted() {
    let del = EntryValidation::Delete { old_entry: Handle::new("alice".to_string()) };
    assert_eq!(validate_handle(del), Err("Agent must have a Handle".to_string()));
}

#[test]
fn chunk_size_limit() {
    let fits = FileChunk::new("h".to_string(), 0, "a".repeat(204800));
    assert_eq!(validate_chunk(EntryValidation::Create { entry: fits }), Ok(()));
    let big = FileChunk::new("h".to_string(), 0, "a".repeat(204801));
    assert_eq!(
        validate_chunk(EntryValidation::Create { entry: big }),
        Err("A file chunk can't be bigger than 200 KiB".to_string())
    );
}

#[test]
fn chunk_update_refused_delete_accepted() {
    let m = EntryValidation::Modify {
        new_entry: FileChunk::new("h".to_string(), 1, "b".to_string()),
        old_entry: FileChunk::new("h".to_string(), 0, "a".to_string()),
    };
    assert_eq!(validate_chunk(m), Err("Update chunk not allowed".to_string()));
    let d = EntryValidation::Delete { old_entry: FileChunk::new("h".to_string(), 0, "a".to_string()) };
    assert_eq!(validate_chunk(d), Ok(()));
}

fn manifest(size: usize, chunks: usize) -> FileManifest {
    FileManifest {
        data_hash: "h".to_string(),
        filename: "f.txt".to_string(),
        filetype: "text".to_string(),
        orig_filesize: size,
        chunks: (0..chunks).map(|i| format!("chunk{}", i)).collect(),
    }
}

#[test]
fn manifest_rules() {
    assert_eq!(validate_manifest(EntryValidation::Create { entry: manifest(100, 1) }), Ok(()));
    assert_eq!(validate_manifest(EntryValidation::Create { entry: manifest(10485760, 2) }), Ok(()));
    assert_eq!(
        validate_manifest(EntryValidation::Create { entry: manifest(10485761, 2) }),
        Err("A file can't be bigger than 10 MiB".to_string())
    );
    assert_eq!(
        validate_manifest(EntryValidation::Create { entry: manifest(0, 1) }),
        Err("A file cannot be empty".to_string())
    );
    assert_eq!(
        validate_manifest(EntryValidation::Create { entry: manifest(5, 0) }),
        Err("A file must have at least one chunk".to_string())
    );
    assert_eq!(
        validate_manifest(EntryValidation::Modify { new_entry: manifest(5, 1), old_entry: manifest(5, 1) }),
        Err("Update file not allowed".to_string())
    );
    assert_eq!(validate_manifest(EntryValidation::Delete { old_entry: manifest(5, 1) }), Ok(()));
}

#[test]
fn file_creation_size_limit() {
    assert_eq!(validate_file(EntryValidation::Create { entry: file("h", 0, 2, b"0123456789") }), Ok(()));
    assert_eq!(
        validate_file(EntryValidation::Create { entry: file("h", 0, 2, b"0123456789a") }),
        Err("A file chunk can't be bigger than 500 KiB".to_string())
    );
}

#[test]
fn file_update_rules() {
    let next = EntryValidation::Modify { new_entry: file("h", 1, 3, b"b"), old_entry: file("h", 0, 3, b"a") };
    assert_eq!(validate_file(next), Ok(()));
    let too_big = EntryValidation::Modify {
        new_entry: file("h", 1, 3, b"0123456789a"),
        old_entry: file("h", 0, 3, b"a"),
    };
    assert_eq!(validate_file(too_big), Err("A file chunk can't be bigger than 500 KiB".to_string()));
    let other_hash = EntryValidation::Modify { new_entry: file("g", 1, 3, b"b"), old_entry: file("h", 0, 3, b"a") };
    assert_eq!(validate_file(other_hash), Err("Update chunk does not match file".to_string()));
    let other_total = EntryValidation::Modify { new_entry: file("h", 1, 4, b"b"), old_entry: file("h", 0, 3, b"a") };
    assert_eq!(validate_file(other_total), Err("Update chunk does not match file".to_string()));
    let skipped = EntryValidation::Modify { new_entry: file("h", 2, 3, b"c"), old_entry: file("h", 0, 3, b"a") };
    assert_eq!(
        validate_file(skipped),
        Err("Incorrect chunk index. Total: 3 ; old: 0 ; new: 2".to_string())
    );
    let past_end = EntryValidation::Modify { new_entry: file("h", 3, 3, b"d"), old_entry: file("h", 2, 3, b"c") };
    assert_eq!(
        validate_file(past_end),
        Err("Incorrect chunk index. Total: 3 ; old: 2 ; new: 3".to_string())
    );
    let at_max = EntryValidation::Modify {
        new_entry: file("h", 0, 3, b"d"),
        old_entry: file("h", usize::MAX, 3, b"c"),
    };
    assert_eq!(
        validate_file(at_max),
        Err(format!("Incorrect chunk index. Total: 3 ; old: {} ; new: 0", usize::MAX))
    );
    assert_eq!(validate_file(EntryValidation::Delete { old_entry: file("h", 0, 3, b"a") }), Ok(()));
}
