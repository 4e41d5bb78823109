//! File attachments: a file is split into small chunks, each written as one
//! version of the same File entry, and read back by joining the versions.
use vstd::prelude::*;

pub mod chunk;
pub mod manifest;

use crate::hash::{encode_from_str, hash_of_text};
use crate::utils::{decimal, usize_to_decimal};
use crate::validation::{EntryValidation, verdict_view};
use vstd::utf8::{decode_utf8, encode_utf8, valid_utf8};

verus! {

/// Size of the pieces a file is split into, in bytes.
pub const CHUNK_MAX_SIZE: usize = 10;

/// Entry representing a file in chunks. It is private.
/// Each update of the entry carries the next chunk.
#[derive(Debug)]
pub struct File {
    pub data_hash: String,
    pub chunk_index: usize,
    pub chunk_total: usize,
    pub chunk: Vec<u8>,
}

impl File {
    pub fn new(data_hash: String, chunk_index: usize, chunk_total: usize, chunk: Vec<u8>) -> (f: File)
        ensures
            f.data_hash == data_hash,
            f.chunk_index == chunk_index,
            f.chunk_total == chunk_total,
            f.chunk == chunk,
    {
        File { data_hash, chunk_index, chunk_total, chunk }
    }
}

/// Text of the error for a chunk that is too big.
pub open spec fn file_chunk_too_big_text() -> Seq<char> {
    "A file chunk can't be bigger than 500 KiB"@
}

/// Text of the error for an update that does not carry the next chunk.
pub open spec fn chunk_index_error_text(total: nat, old: nat, new: nat) -> Seq<char> {
    "Incorrect chunk index. Total: "@ + decimal(total) + " ; old: "@ + decimal(old) + " ; new: "@
        + decimal(new)
}

/// The verdict on a change of a File entry: every chunk holds at most
/// `CHUNK_MAX_SIZE` bytes, and an update keeps the hash and the chunk count and
/// carries the chunk right after the previous one.
pub open spec fn file_verdict(v: EntryValidation<File>) -> Result<(), Seq<char>> {
    match v {
        EntryValidation::Create { entry } => {
            if entry.chunk@.len() > CHUNK_MAX_SIZE {
                Err(file_chunk_too_big_text())
            } else {
                Ok(())
            }
        },
        EntryValidation::Modify { new_entry, old_entry } => {
            if new_entry.chunk@.len() > CHUNK_MAX_SIZE {
                Err(file_chunk_too_big_text())
            } else if new_entry.data_hash@ != old_entry.data_hash@ || new_entry.chunk_total
                != old_entry.chunk_total {
                Err("Update chunk does not match file"@)
            } else if new_entry.chunk_index != old_entry.chunk_index + 1 || new_entry.chunk_index
                >= old_entry.chunk_total {
                Err(
                    chunk_index_error_text(
                        old_entry.chunk_total as nat,
                        old_entry.chunk_index as nat,
                        new_entry.chunk_index as nat,
                    ),
                )
            } else {
                Ok(())
            }
        },
        EntryValidation::Delete { .. } => Ok(()),
    }
}

/// An update of a File entry is accepted exactly when it carries the chunk
/// right after the previous one, within the chunk count, for the same file
/// (same hash, same chunk count), and holds at most `CHUNK_MAX_SIZE` bytes.
pub proof fn update_carries_next_chunk(new_entry: File, old_entry: File)
    ensures
        file_verdict(EntryValidation::Modify { new_entry, old_entry }) is Ok <==> {
            &&& new_entry.chunk@.len() <= CHUNK_MAX_SIZE
            &&& new_entry.data_hash@ == old_entry.data_hash@
            &&& new_entry.chunk_total == old_entry.chunk_total
            &&& new_entry.chunk_index == old_entry.chunk_index + 1
            &&& new_entry.chunk_index < old_entry.chunk_total
        },
        new_entry.chunk@.len() > CHUNK_MAX_SIZE ==> file_verdict(
            EntryValidation::Modify { new_entry, old_entry },
        ) == Err::<(), Seq<char>>("A file chunk can't be bigger than 500 KiB"@),
        new_entry.chunk@.len() <= CHUNK_MAX_SIZE && (new_entry.data_hash@ != old_entry.data_hash@
            || new_entry.chunk_total != old_entry.chunk_total) ==> file_verdict(
            EntryValidation::Modify { new_entry, old_entry },
        ) == Err::<(), Seq<char>>("Update chunk does not match file"@),
        new_entry.chunk@.len() <= CHUNK_MAX_SIZE && new_entry.data_hash@ == old_entry.data_hash@
            && new_entry.chunk_total == old_entry.chunk_total && (new_entry.chunk_index
            != old_entry.chunk_index + 1 || new_entry.chunk_index >= old_entry.chunk_total)
            ==> file_verdict(EntryValidation::Modify { new_entry, old_entry })
            == Err::<(), Seq<char>>(
            chunk_index_error_text(
                old_entry.chunk_total as nat,
                old_entry.chunk_index as nat,
                new_entry.chunk_index as nat,
            ),
        ),
{
}

/// A new File entry is accepted exactly when its chunk holds at most
/// `CHUNK_MAX_SIZE` bytes, and a File entry can always be deleted.
pub proof fn file_creation_rule(entry: File)
    ensures
        file_verdict(EntryValidation::Create { entry }) is Ok <==> entry.chunk@.len() <= CHUNK_MAX_SIZE,
        entry.chunk@.len() > CHUNK_MAX_SIZE ==> file_verdict(EntryValidation::Create { entry })
            == Err::<(), Seq<char>>("A file chunk can't be bigger than 500 KiB"@),
        file_verdict(EntryValidation::Delete { old_entry: entry }) is Ok,
{
}

/// A sequence of versions of a File entry in which the first passes validation
/// as a creation and each next one as an update of the one before it.
pub open spec fn accepted_versions(files: Seq<File>) -> bool {
    &&& files.len() > 0
    &&& file_verdict(EntryValidation::Create { entry: files[0] }) is Ok
    &&& forall|i: int|
        0 <= i < files.len() - 1 ==> file_verdict(
            EntryValidation::Modify { new_entry: files[i + 1], old_entry: #[trigger] files[i] },
        ) is Ok
}

/// The `i`-th of accepted versions holds chunk `first + i` of the same file.
#[verifier::spinoff_prover]
proof fn lemma_accepted_version(files: Seq<File>, i: int)
    requires
        accepted_versions(files),
        0 <= i < files.len(),
    ensures
        files[i].chunk_index == files[0].chunk_index + i,
        files[i].data_hash@ == files[0].data_hash@,
        files[i].chunk_total == files[0].chunk_total,
        files[i].chunk@.len() <= CHUNK_MAX_SIZE,
        i > 0 ==> files[i].chunk_index < files[0].chunk_total,
    decreases i,
{
    if i > 0 {
        lemma_accepted_version(files, i - 1);
        assert(file_verdict(
            EntryValidation::Modify { new_entry: files[i - 1 + 1], old_entry: files[i - 1] },
        ) is Ok);
        update_carries_next_chunk(files[i], files[i - 1]);
    }
}

/// Accepted versions of a File entry carry consecutive chunks of one file: the
/// `i`-th version holds chunk `first + i`, all share the hash and the chunk
/// count, and no chunk index is repeated or goes past the count.
#[verifier::spinoff_prover]
pub proof fn accepted_versions_are_consecutive(files: Seq<File>)
    requires
        accepted_versions(files),
    ensures
        forall|i: int|
            0 <= i < files.len() ==> {
                &&& (#[trigger] files[i]).chunk_index == files[0].chunk_index + i
                &&& files[i].data_hash@ == files[0].data_hash@
                &&& files[i].chunk_total == files[0].chunk_total
                &&& files[i].chunk@.len() <= CHUNK_MAX_SIZE
            },
        files.len() > 1 ==> files[0].chunk_index + files.len() <= files[0].chunk_total,
        forall|i: int, j: int|
            0 <= i < j < files.len() ==> (#[trigger] files[i]).chunk_index
                != (#[trigger] files[j]).chunk_index,
{
    assert forall|i: int| 0 <= i < files.len() implies {
        &&& (#[trigger] files[i]).chunk_index == files[0].chunk_index + i
        &&& files[i].data_hash@ == files[0].data_hash@
        &&& files[i].chunk_total == files[0].chunk_total
        &&& files[i].chunk@.len() <= CHUNK_MAX_SIZE
    } by {
        lemma_accepted_version(files, i);
    }
    if files.len() > 1 {
        lemma_accepted_version(files, files.len() - 1);
    }
}

fn index_error(total: usize, old: usize, new: usize) -> (s: String)
    ensures
        s@ == chunk_index_error_text(total as nat, old as nat, new as nat),
{
    let mut s = "Incorrect chunk index. Total: ".to_owned();
    let t = usize_to_decimal(total);
    s.append(t.as_str());
    s.append(" ; old: ");
    let o = usize_to_decimal(old);
    s.append(o.as_str());
    s.append(" ; new: ");
    let n = usize_to_decimal(new);
    s.append(n.as_str());
    s
}

/// Validation callback of the File entry.
pub fn validate_file(validation_data: EntryValidation<File>) -> (r: Result<(), String>)
    ensures
        verdict_view(r) == file_verdict(validation_data),
{
    match validation_data {
        EntryValidation::Create { entry } => {
            if entry.chunk.len() > CHUNK_MAX_SIZE {
                return Err("A file chunk can't be bigger than 500 KiB".to_owned());
            }
            Ok(())
        },
        EntryValidation::Modify { new_entry, old_entry } => {
            if new_entry.chunk.len() > CHUNK_MAX_SIZE {
                return Err("A file chunk can't be bigger than 500 KiB".to_owned());
            }
            if new_entry.data_hash != old_entry.data_hash || new_entry.chunk_total
                != old_entry.chunk_total {
                return Err("Update chunk does not match file".to_owned());
            }
            let follows = old_entry.chunk_index < usize::MAX && new_entry.chunk_index
                == old_entry.chunk_index + 1;
            if !follows || new_entry.chunk_index >= old_entry.chunk_total {
                return Err(
                    index_error(
                        old_entry.chunk_total,
                        old_entry.chunk_index,
                        new_entry.chunk_index,
                    ),
                );
            }
            Ok(())
        },
        EntryValidation::Delete { .. } => Ok(()),
    }
}

/// Number of chunks a file of `len` bytes is split into.
pub open spec fn chunk_count(len: nat) -> nat {
    if len % (CHUNK_MAX_SIZE as nat) == 0 {
        len / (CHUNK_MAX_SIZE as nat)
    } else {
        len / (CHUNK_MAX_SIZE as nat) + 1
    }
}

/// The `i`-th chunk of `bytes`: `CHUNK_MAX_SIZE` bytes from `i * CHUNK_MAX_SIZE`,
/// fewer for the last one.
pub open spec fn chunk_of(bytes: Seq<u8>, i: int) -> Seq<u8> {
    let start = i * CHUNK_MAX_SIZE;
    let end = if start + CHUNK_MAX_SIZE <= bytes.len() {
        start + CHUNK_MAX_SIZE
    } else {
        bytes.len() as int
    };
    bytes.subrange(start, end)
}

/// `files` is the sequence of File versions that `write_file` makes of `data`:
/// one per chunk of its UTF-8 bytes, in order, each with the hash of the whole text.
pub open spec fn is_file_plan(files: Seq<File>, data: Seq<char>) -> bool {
    let bytes = encode_utf8(data);
    &&& files.len() == chunk_count(bytes.len())
    &&& forall|i: int|
        0 <= i < files.len() ==> {
            &&& (#[trigger] files[i]).data_hash@ == hash_of_text(data)
            &&& files[i].chunk_index == i
            &&& files[i].chunk_total == files.len()
            &&& files[i].chunk@ == chunk_of(bytes, i)
        }
}

fn copy_range(bytes: &[u8], start: usize, end: usize) -> (v: Vec<u8>)
    requires
        start <= end <= bytes@.len(),
    ensures
        v@ == bytes@.subrange(start as int, end as int),
{
    let mut v: Vec<u8> = Vec::new();
    let mut k = start;
    while k < end
        invariant
            start <= k <= end <= bytes@.len(),
            v@ == bytes@.subrange(start as int, k as int),
        decreases end - k,
    {
        v.push(bytes[k]);
        k = k + 1;
    }
    v
}

/// The File versions to write for a file given as text: the first one is
/// committed, each next one updates the previous. The text must not be empty.
pub fn write_file(data_string: &str) -> (files: Vec<File>)
    requires
        data_string@.len() > 0,
    ensures
        is_file_plan(files@, data_string@),
{
    let bytes = data_string.as_bytes();
    let len = bytes.len();
    let data_hash = encode_from_str(data_string);
    let chunk_total: usize = if len % CHUNK_MAX_SIZE == 0 {
        len / CHUNK_MAX_SIZE
    } else {
        len / CHUNK_MAX_SIZE + 1
    };
    let mut files: Vec<File> = Vec::new();
    let mut i: usize = 0;
    while i < chunk_total
        invariant
            bytes@ == encode_utf8(data_string@),
            len == bytes@.len(),
            chunk_total == chunk_count(len as nat),
            data_hash@ == hash_of_text(data_string@),
            i <= chunk_total,
            files.len() == i,
            forall|j: int|
                0 <= j < i ==> {
                    &&& (#[trigger] files@[j]).data_hash@ == hash_of_text(data_string@)
                    &&& files@[j].chunk_index == j
                    &&& files@[j].chunk_total == chunk_total
                    &&& files@[j].chunk@ == chunk_of(bytes@, j)
                },
        decreases chunk_total - i,
    {
        let start = i * CHUNK_MAX_SIZE;
        let end = if len - start >= CHUNK_MAX_SIZE {
            start + CHUNK_MAX_SIZE
        } else {
            len
        };
        let chunk = copy_range(bytes, start, end);
        files.push(File::new(data_hash.clone(), i, chunk_total, chunk));
        i = i + 1;
    }
    files
}

/// All chunks of a sequence of File versions, joined in order.
pub open spec fn joined_chunks(files: Seq<File>) -> Seq<u8>
    decreases files.len(),
{
    if files.len() == 0 {
        Seq::empty()
    } else {
        joined_chunks(files.drop_last()) + files.last().chunk@
    }
}

/// Calls `String::from_utf8`, which documents that it succeeds exactly on valid
/// UTF-8 and then holds the text those bytes encode.
#[verifier::external_body]
fn string_from_utf8(bytes: Vec<u8>) -> (r: Option<String>)
    ensures
        match r {
            Some(s) => valid_utf8(bytes@) && s@ == decode_utf8(bytes@),
            None => !valid_utf8(bytes@),
        },
{
    String::from_utf8(bytes).ok()
}

/// The file text held by the versions of a File entry, oldest first: the
/// chunks joined in order, or `None` when the joined bytes are not UTF-8.
pub fn get_file(history: &Vec<File>) -> (r: Option<String>)
    ensures
        match r {
            Some(s) => valid_utf8(joined_chunks(history@)) && s@ == decode_utf8(
                joined_chunks(history@),
            ),
            None => !valid_utf8(joined_chunks(history@)),
        },
{
    let mut full_data: Vec<u8> = Vec::new();
    let mut i: usize = 0;
    while i < history.len()
        invariant
            i <= history@.len(),
            full_data@ == joined_chunks(history@.take(i as int)),
        decreases history@.len() - i,
    {
        let chunk = &history[i].chunk;
        let mut k: usize = 0;
        let ghost before = full_data@;
        while k < chunk.len()
            invariant
                k <= chunk@.len(),
                full_data@ == before + chunk@.take(k as int),
            decreases chunk@.len() - k,
        {
            full_data.push(chunk[k]);
            k = k + 1;
        }
        proof {
            assert(history@.take(i + 1).drop_last() =~= history@.take(i as int));
            assert(chunk@.take(k as int) =~= chunk@);
        }
        i = i + 1;
    }
    proof {
        assert(history@.take(history@.len() as int) =~= history@);
    }
    string_from_utf8(full_data)
}

/// The first `k` versions of a file plan join to the first `k` chunks of the bytes.
proof fn lemma_plan_prefix_joins(files: Seq<File>, data: Seq<char>, k: int)
    requires
        is_file_plan(files, data),
        0 <= k <= files.len(),
    ensures
        k * CHUNK_MAX_SIZE <= encode_utf8(data).len() ==> joined_chunks(files.take(k))
            == encode_utf8(data).subrange(0, k * CHUNK_MAX_SIZE),
        k * CHUNK_MAX_SIZE > encode_utf8(data).len() ==> joined_chunks(files.take(k)) == encode_utf8(
            data,
        ),
    decreases k,
{
    let bytes = encode_utf8(data);
    if k == 0 {
        assert(files.take(0) =~= Seq::<File>::empty());
        assert(bytes.subrange(0, 0) =~= Seq::<u8>::empty());
    } else {
        lemma_plan_prefix_joins(files, data, k - 1);
        assert(files.take(k).drop_last() =~= files.take(k - 1));
        assert(files.take(k).last() == files[k - 1]);
        let f = files[k - 1];
        assert(f.chunk@ == chunk_of(bytes, k - 1));
        assert((k - 1) * CHUNK_MAX_SIZE < bytes.len());
        let start = (k - 1) * CHUNK_MAX_SIZE;
        if k * CHUNK_MAX_SIZE <= bytes.len() {
            assert(bytes.subrange(0, start) + bytes.subrange(start, start + CHUNK_MAX_SIZE)
                =~= bytes.subrange(0, k * CHUNK_MAX_SIZE));
        } else {
            assert(bytes.subrange(0, start) + bytes.subrange(start, bytes.len() as int) =~= bytes);
        }
    }
}

/// Reading back a file gives the text it was written from: the versions that
/// `write_file` makes of a text join to valid UTF-8 that decodes to that text.
pub proof fn file_round_trip(files: Seq<File>, data: Seq<char>)
    requires
        is_file_plan(files, data),
    ensures
        valid_utf8(joined_chunks(files)),
        decode_utf8(joined_chunks(files)) == data,
{
    broadcast use vstd::utf8::encode_utf8_valid_utf8, vstd::utf8::encode_utf8_decode_utf8;

    let bytes = encode_utf8(data);
    lemma_plan_prefix_joins(files, data, files.len() as int);
    assert(files.take(files.len() as int) =~= files);
    if files.len() * CHUNK_MAX_SIZE <= bytes.len() {
        assert(files.len() * CHUNK_MAX_SIZE == bytes.len());
        assert(bytes.subrange(0, bytes.len() as int) =~= bytes);
    }
}

/// A chunk of a file plan starts inside the bytes and holds at most `CHUNK_MAX_SIZE` of them.
#[verifier::spinoff_prover]
proof fn lemma_chunk_of_fits(bytes: Seq<u8>, i: int)
    requires
        0 <= i < chunk_count(bytes.len()),
    ensures
        i * CHUNK_MAX_SIZE < bytes.len(),
        chunk_of(bytes, i).len() <= CHUNK_MAX_SIZE,
{
    assert(i * CHUNK_MAX_SIZE < bytes.len()) by (nonlinear_arith)
        requires
            0 <= i,
            i < chunk_count(bytes.len()),
            chunk_count(bytes.len()) == if bytes.len() % 10 == 0 {
                bytes.len() / 10
            } else {
                bytes.len() / 10 + 1
            },
            CHUNK_MAX_SIZE == 10,
    ;
}

/// The UTF-8 encoding of a non-empty text is not empty.
proof fn lemma_encoding_not_empty(data: Seq<char>)
    requires
        data.len() > 0,
    ensures
        encode_utf8(data).len() > 0,
{
    reveal_with_fuel(encode_utf8, 2);
}

/// The version after the `i`-th one of a file plan passes validation as its update.
#[verifier::spinoff_prover]
proof fn lemma_plan_update_valid(files: Seq<File>, data: Seq<char>, i: int)
    requires
        is_file_plan(files, data),
        0 <= i < files.len() - 1,
    ensures
        file_verdict(EntryValidation::Modify { new_entry: files[i + 1], old_entry: files[i] })
            == Ok::<(), Seq<char>>(()),
{
    let bytes = encode_utf8(data);
    let old = files[i];
    let new = files[i + 1];
    assert(new.chunk@ == chunk_of(bytes, i + 1));
    assert(old.chunk_index == i && new.chunk_index == i + 1);
    assert(old.chunk_total == files.len() && new.chunk_total == files.len());
    assert(old.data_hash@ == new.data_hash@);
    lemma_chunk_of_fits(bytes, i + 1);
}

/// Every version that `write_file` makes of a non-empty text passes the File
/// validation: the first one as a creation, each next one as an update of the
/// one before it.
#[verifier::spinoff_prover]
pub proof fn file_plan_is_valid(files: Seq<File>, data: Seq<char>)
    requires
        is_file_plan(files, data),
        data.len() > 0,
    ensures
        files.len() > 0,
        file_verdict(EntryValidation::Create { entry: files[0] }) == Ok::<(), Seq<char>>(()),
        forall|i: int|
            0 <= i < files.len() - 1 ==> file_verdict(
                EntryValidation::Modify { new_entry: files[i + 1], old_entry: #[trigger] files[i] },
            ) == Ok::<(), Seq<char>>(()),
{
    let bytes = encode_utf8(data);
    lemma_encoding_not_empty(data);
    assert(files.len() > 0);
    assert(files[0].chunk@ == chunk_of(bytes, 0));
    lemma_chunk_of_fits(bytes, 0);
    assert forall|i: int| 0 <= i < files.len() - 1 implies file_verdict(
        EntryValidation::Modify { new_entry: files[i + 1], old_entry: #[trigger] files[i] },
    ) == Ok::<(), Seq<char>>(()) by {
        lemma_plan_update_valid(files, data, i);
    }
}

} // verus!
