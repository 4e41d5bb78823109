//! The FileChunk entry: one piece of a file attachment.
use vstd::prelude::*;

use crate::utils::{decimal, usize_to_decimal};
use crate::validation::{EntryValidation, utf8_len, verdict_view};

verus! {

/// Largest accepted chunk, in bytes.
pub const CHUNK_MAX_SIZE: usize = 204800;

/// Entry representing a file chunk.
#[derive(Debug)]
pub struct FileChunk {
    pub data_hash: String,
    pub chunk_index: usize,
    pub chunk: String,
}

impl FileChunk {
    pub fn new(data_hash: String, chunk_index: usize, chunk: String) -> (c: FileChunk)
        ensures
            c.data_hash == data_hash,
            c.chunk_index == chunk_index,
            c.chunk == chunk,
    {
        FileChunk { data_hash, chunk_index, chunk }
    }
}

/// Text of the error for a chunk that is too big.
pub open spec fn chunk_too_big_text() -> Seq<char> {
    "A file chunk can't be bigger than "@ + decimal((CHUNK_MAX_SIZE / 1024) as nat) + " KiB"@
}

/// The verdict on a change of a FileChunk entry: a chunk holds at most
/// `CHUNK_MAX_SIZE` bytes, can be deleted, and cannot be updated.
pub open spec fn chunk_verdict(v: EntryValidation<FileChunk>) -> Result<(), Seq<char>> {
    match v {
        EntryValidation::Create { entry } => {
            if utf8_len(entry.chunk@) > CHUNK_MAX_SIZE {
                Err(chunk_too_big_text())
            } else {
                Ok(())
            }
        },
        EntryValidation::Modify { .. } => Err("Update chunk not allowed"@),
        EntryValidation::Delete { .. } => Ok(()),
    }
}

/// A FileChunk is never updated: every update is refused, whatever the old and
/// the new chunk hold; a new chunk is accepted exactly when it takes at most
/// `CHUNK_MAX_SIZE` bytes of UTF-8; a chunk can always be deleted.
pub proof fn chunk_never_updated(new_entry: FileChunk, old_entry: FileChunk)
    ensures
        chunk_verdict(EntryValidation::Modify { new_entry, old_entry }) == Err::<(), Seq<char>>(
            "Update chunk not allowed"@,
        ),
        chunk_verdict(EntryValidation::Create { entry: new_entry }) is Ok <==> utf8_len(
            new_entry.chunk@,
        ) <= CHUNK_MAX_SIZE,
        chunk_verdict(EntryValidation::Delete { old_entry }) is Ok,
{
}

/// Validation callback of the FileChunk entry.
pub fn validate_chunk(validation_data: EntryValidation<FileChunk>) -> (r: Result<(), String>)
    ensures
        verdict_view(r) == chunk_verdict(validation_data),
{
    match validation_data {
        EntryValidation::Create { entry } => {
            if entry.chunk.as_str().as_bytes().len() > CHUNK_MAX_SIZE {
                let mut msg = "A file chunk can't be bigger than ".to_owned();
                let kib = usize_to_decimal(CHUNK_MAX_SIZE / 1024);
                msg.append(kib.as_str());
                msg.append(" KiB");
                return Err(msg);
            }
            Ok(())
        },
        EntryValidation::Modify { .. } => Err("Update chunk not allowed".to_owned()),
        EntryValidation::Delete { .. } => Ok(()),
    }
}

} // verus!
