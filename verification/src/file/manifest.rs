//! The FileManifest entry: a file attachment made of chunks committed beforehand.
use vstd::prelude::*;

use crate::Address;
use crate::utils::{decimal, usize_to_decimal};
use crate::validation::{EntryValidation, verdict_view};

verus! {

/// Largest accepted file, in bytes.
pub const FILE_MAX_SIZE: usize = 10485760;

/// Entry representing a file in chunks.
/// All chunks must be committed beforehand.
#[derive(Debug)]
pub struct FileManifest {
    pub data_hash: String,
    pub filename: String,
    pub filetype: String,
    pub orig_filesize: usize,
    pub chunks: Vec<Address>,
}

/// Text of the error for a file that is too big.
pub open spec fn file_too_big_text() -> Seq<char> {
    "A file can't be bigger than "@ + decimal((FILE_MAX_SIZE / 1048576usize) as nat) + " MiB"@
}

/// The verdict on a change of a FileManifest entry: the file holds between 1 and
/// `FILE_MAX_SIZE` bytes and at least one chunk; a manifest can be deleted, not updated.
pub open spec fn manifest_verdict(v: EntryValidation<FileManifest>) -> Result<(), Seq<char>> {
    match v {
        EntryValidation::Create { entry } => {
            if entry.orig_filesize > FILE_MAX_SIZE {
                Err(file_too_big_text())
            } else if entry.orig_filesize < 1 {
                Err("A file cannot be empty"@)
            } else if entry.chunks.len() < 1 {
                Err("A file must have at least one chunk"@)
            } else {
                Ok(())
            }
        },
        EntryValidation::Modify { .. } => Err("Update file not allowed"@),
        EntryValidation::Delete { .. } => Ok(()),
    }
}

/// A FileManifest is never updated: every update is refused, whatever the old
/// and the new manifest hold; a manifest can always be deleted.
pub proof fn manifest_never_updated(new_entry: FileManifest, old_entry: FileManifest)
    ensures
        manifest_verdict(EntryValidation::Modify { new_entry, old_entry }) == Err::<(), Seq<char>>(
            "Update file not allowed"@,
        ),
        manifest_verdict(EntryValidation::Delete { old_entry }) is Ok,
{
}

/// A new FileManifest is accepted exactly when its file holds between 1 and
/// `FILE_MAX_SIZE` bytes and it lists at least one chunk.
pub proof fn manifest_creation_rule(entry: FileManifest)
    ensures
        manifest_verdict(EntryValidation::Create { entry }) is Ok <==> (1 <= entry.orig_filesize
            <= FILE_MAX_SIZE && entry.chunks.len() >= 1),
        entry.orig_filesize > FILE_MAX_SIZE ==> manifest_verdict(EntryValidation::Create { entry })
            == Err::<(), Seq<char>>(file_too_big_text()),
        entry.orig_filesize < 1 ==> manifest_verdict(EntryValidation::Create { entry }) == Err::<
            (),
            Seq<char>,
        >("A file cannot be empty"@),
        1 <= entry.orig_filesize <= FILE_MAX_SIZE && entry.chunks.len() < 1 ==> manifest_verdict(
            EntryValidation::Create { entry },
        ) == Err::<(), Seq<char>>("A file must have at least one chunk"@),
{
}

/// Validation callback of the FileManifest entry.
pub fn validate_file(validation_data: EntryValidation<FileManifest>) -> (r: Result<(), String>)
    ensures
        verdict_view(r) == manifest_verdict(validation_data),
{
    match validation_data {
        EntryValidation::Create { entry } => {
            if entry.orig_filesize > FILE_MAX_SIZE {
                let mut msg = "A file can't be bigger than ".to_owned();
                let mib = usize_to_decimal(FILE_MAX_SIZE / 1048576);
                msg.append(mib.as_str());
                msg.append(" MiB");
                return Err(msg);
            }
            if entry.orig_filesize < 1 {
                return Err("A file cannot be empty".to_owned());
            }
            if entry.chunks.len() < 1 {
                return Err("A file must have at least one chunk".to_owned());
            }
            Ok(())
        },
        EntryValidation::Modify { .. } => Err("Update file not allowed".to_owned()),
        EntryValidation::Delete { .. } => Ok(()),
    }
}

/// Index of the first manifest whose hash is `data_hash`.
pub open spec fn first_with_hash(manifests: Seq<FileManifest>, data_hash: Seq<char>) -> Option<int> {
    if exists|i: int| 0 <= i < manifests.len() && (#[trigger] manifests[i]).data_hash@ == data_hash {
        Some(
            choose|i: int|
                0 <= i < manifests.len() && (#[trigger] manifests[i]).data_hash@ == data_hash && forall|
                    j: int,
                | 0 <= j < i ==> (#[trigger] manifests[j]).data_hash@ != data_hash,
        )
    } else {
        None
    }
}

/// The first manifest, in source chain order, of the file with hash `data_hash`.
pub fn find_manifest(manifests: Vec<FileManifest>, data_hash: &String) -> (r: Option<FileManifest>)
    ensures
        match r {
            Some(m) => exists|i: int|
                #![trigger manifests@[i]]
                0 <= i < manifests@.len() && manifests@[i] == m && m.data_hash@ == data_hash@
                    && forall|j: int| 0 <= j < i ==> (#[trigger] manifests@[j]).data_hash@ != data_hash@,
            None => forall|i: int|
                0 <= i < manifests@.len() ==> (#[trigger] manifests@[i]).data_hash@ != data_hash@,
        },
{
    let mut list = manifests;
    let mut i: usize = 0;
    while i < list.len()
        invariant
            list@ == manifests@,
            i <= list@.len(),
            forall|j: int| 0 <= j < i ==> (#[trigger] manifests@[j]).data_hash@ != data_hash@,
        decreases list@.len() - i,
    {
        if list[i].data_hash == *data_hash {
            let m = list.swap_remove(i);
            assert(manifests@[i as int] == m);
            return Some(m);
        }
        i = i + 1;
    }
    None
}

} // verus!
