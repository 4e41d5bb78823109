//! Validation rules of the Handle entry.
use vstd::prelude::*;

use crate::handle::Handle;
use crate::validation::{EntryValidation, utf8_len, verdict_view};

verus! {

/// Shortest accepted name, in bytes.
pub const NAME_MIN_LEN: usize = 3;
/// Longest accepted name, in bytes.
pub const NAME_MAX_LEN: usize = 32;

/// The verdict on a handle name: between 3 and 32 bytes of UTF-8.
pub open spec fn name_verdict(name: Seq<char>) -> Result<(), Seq<char>> {
    if utf8_len(name) < NAME_MIN_LEN {
        Err("Name too short"@)
    } else if utf8_len(name) > NAME_MAX_LEN {
        Err("Name too long"@)
    } else {
        Ok(())
    }
}

/// The verdict on a change of the Handle entry.
pub open spec fn handle_verdict(v: EntryValidation<Handle>) -> Result<(), Seq<char>> {
    match v {
        EntryValidation::Create { entry } => name_verdict(entry.name@),
        EntryValidation::Modify { new_entry, old_entry } => {
            if new_entry.name@ == old_entry.name@ {
                Err("Trying to modify with same data"@)
            } else {
                name_verdict(new_entry.name@)
            }
        },
        EntryValidation::Delete { .. } => Err("Agent must have a Handle"@),
    }
}

/// An update that changes the name is judged as the creation of a handle with
/// the new name would be; one that keeps the name is refused.
pub proof fn update_judged_as_creation(new_entry: Handle, old_entry: Handle)
    ensures
        new_entry.name@ != old_entry.name@ ==> handle_verdict(
            EntryValidation::Modify { new_entry, old_entry },
        ) == handle_verdict(EntryValidation::Create { entry: new_entry }),
        new_entry.name@ == old_entry.name@ ==> handle_verdict(
            EntryValidation::Modify { new_entry, old_entry },
        ) == Err::<(), Seq<char>>("Trying to modify with same data"@),
{
}

/// A handle is accepted, created or updated, exactly when its name takes 3 to
/// 32 bytes of UTF-8 (and, for an update, differs from the old name): a
/// shorter name is refused as too short, a longer one as too long, and no
/// handle can be deleted.
pub proof fn handle_name_rule(new_entry: Handle, old_entry: Handle)
    ensures
        handle_verdict(EntryValidation::Create { entry: new_entry }) is Ok <==> 3 <= utf8_len(
            new_entry.name@,
        ) <= 32,
        handle_verdict(EntryValidation::Modify { new_entry, old_entry }) is Ok <==> (
        new_entry.name@ != old_entry.name@ && 3 <= utf8_len(new_entry.name@) <= 32),
        utf8_len(new_entry.name@) < 3 ==> handle_verdict(EntryValidation::Create { entry: new_entry })
            == Err::<(), Seq<char>>("Name too short"@),
        utf8_len(new_entry.name@) > 32 ==> handle_verdict(EntryValidation::Create { entry: new_entry })
            == Err::<(), Seq<char>>("Name too long"@),
        new_entry.name@ != old_entry.name@ && utf8_len(new_entry.name@) < 3 ==> handle_verdict(
            EntryValidation::Modify { new_entry, old_entry },
        ) == Err::<(), Seq<char>>("Name too short"@),
        new_entry.name@ != old_entry.name@ && utf8_len(new_entry.name@) > 32 ==> handle_verdict(
            EntryValidation::Modify { new_entry, old_entry },
        ) == Err::<(), Seq<char>>("Name too long"@),
        handle_verdict(EntryValidation::Delete { old_entry }) == Err::<(), Seq<char>>(
            "Agent must have a Handle"@,
        ),
{
}

/// Validates the handle's name field: its length in bytes must lie in 3..=32.
pub fn validate_name(name: String) -> (r: Result<(), String>)
    ensures
        verdict_view(r) == name_verdict(name@),
{
    let n = name.as_str().as_bytes().len();
    if n < NAME_MIN_LEN {
        return Err("Name too short".to_owned());
    }
    if n > NAME_MAX_LEN {
        return Err("Name too long".to_owned());
    }
    Ok(())
}

/// Validation callback of the Handle entry: a new handle needs a valid name,
/// an update must change the name to another valid one, and a handle cannot
/// be deleted.
pub fn validate_handle(validation_data: EntryValidation<Handle>) -> (r: Result<(), String>)
    ensures
        verdict_view(r) == handle_verdict(validation_data),
{
    match validation_data {
        EntryValidation::Create { entry } => validate_name(entry.name),
        EntryValidation::Modify { new_entry, old_entry } => {
            if new_entry.name == old_entry.name {
                return Err("Trying to modify with same data".to_owned());
            }
            validate_name(new_entry.name)
        },
        EntryValidation::Delete { .. } => Err("Agent must have a Handle".to_owned()),
    }
}

} // verus!
