//! The shape of what the validation callbacks of an entry type are given.
use vstd::prelude::*;

verus! {

/// What is being validated for an entry of type `T`: its creation, an update
/// that replaces `old_entry` by `new_entry`, or its deletion.
pub enum EntryValidation<T> {
    Create { entry: T },
    Modify { new_entry: T, old_entry: T },
    Delete { old_entry: T },
}

/// A validation verdict seen as mathematical values: `Ok` or the error text.
pub open spec fn verdict_view(r: Result<(), String>) -> Result<(), Seq<char>> {
    match r {
        Ok(()) => Ok(()),
        Err(e) => Err(e@),
    }
}

/// Number of bytes of the UTF-8 encoding of a text, which is what `str::len` counts.
pub open spec fn utf8_len(s: Seq<char>) -> nat {
    vstd::utf8::encode_utf8(s).len()
}

} // verus!
