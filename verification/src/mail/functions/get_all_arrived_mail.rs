//! The received mails that this agent has not acknowledged yet.
use vstd::prelude::*;

use crate::Address;

verus! {

/// The addresses, in order, of the InMails that have no acknowledgment link.
pub open spec fn unacknowledged(inmails: Seq<(Address, usize)>) -> Seq<Seq<char>>
    decreases inmails.len(),
{
    if inmails.len() == 0 {
        Seq::empty()
    } else {
        let rest = unacknowledged(inmails.drop_last());
        if inmails.last().1 > 0 {
            rest
        } else {
            rest.push(inmails.last().0@)
        }
    }
}

/// Whether an InMail, given with its number of `acknowledgment` links, has none.
pub open spec fn has_no_ack() -> spec_fn((Address, usize)) -> bool {
    |p: (Address, usize)| p.1 == 0
}

/// The address of an InMail given with its number of links.
pub open spec fn inmail_address() -> spec_fn((Address, usize)) -> Seq<char> {
    |p: (Address, usize)| p.0@
}

/// The unacknowledged InMails are all the InMails without a link, each one
/// kept, in their order, and nothing else.
pub proof fn unacknowledged_are_the_unlinked(inmails: Seq<(Address, usize)>)
    ensures
        unacknowledged(inmails) == inmails.filter(has_no_ack()).map_values(inmail_address()),
        unacknowledged(inmails).len() == inmails.filter(has_no_ack()).len(),
    decreases inmails.len(),
{
    reveal(Seq::filter);
    if inmails.len() > 0 {
        unacknowledged_are_the_unlinked(inmails.drop_last());
        let f = inmails.drop_last().filter(has_no_ack());
        if inmails.last().1 == 0 {
            assert(inmails.filter(has_no_ack()) == f.push(inmails.last()));
            assert(f.push(inmails.last()).map_values(inmail_address()) =~= f.map_values(
                inmail_address(),
            ).push(inmails.last().0@));
        } else {
            assert(inmails.filter(has_no_ack()) == f);
        }
    }
}

/// An address is listed exactly when some InMail has it and no acknowledgment link.
pub proof fn unacknowledged_membership(inmails: Seq<(Address, usize)>, address: Seq<char>)
    ensures
        unacknowledged(inmails).contains(address) <==> exists|i: int|
            0 <= i < inmails.len() && (#[trigger] inmails[i]).0@ == address && inmails[i].1 == 0,
    decreases inmails.len(),
{
    if inmails.len() > 0 {
        let init = inmails.drop_last();
        let rest = unacknowledged(init);
        unacknowledged_membership(init, address);
        if exists|i: int| 0 <= i < init.len() && (#[trigger] init[i]).0@ == address && init[i].1 == 0 {
            let i = choose|i: int|
                0 <= i < init.len() && (#[trigger] init[i]).0@ == address && init[i].1 == 0;
            assert(inmails[i] == init[i]);
        }
        if exists|i: int|
            0 <= i < inmails.len() && (#[trigger] inmails[i]).0@ == address && inmails[i].1 == 0 {
            let i = choose|i: int|
                0 <= i < inmails.len() && (#[trigger] inmails[i]).0@ == address && inmails[i].1
                    == 0;
            if i < inmails.len() - 1 {
                assert(init[i] == inmails[i]);
            } else {
                assert(unacknowledged(inmails) == rest.push(address));
                assert(rest.push(address)[rest.len() as int] == address);
            }
        }
        if inmails.last().1 == 0 {
            let last = inmails.last().0@;
            assert(unacknowledged(inmails) == rest.push(last));
            if unacknowledged(inmails).contains(address) && !rest.contains(address) {
                let j = choose|j: int|
                    0 <= j < rest.push(last).len() && rest.push(last)[j] == address;
                if j < rest.len() {
                    assert(rest[j] == address);
                }
                assert(inmails[inmails.len() - 1].0@ == address);
            }
            if rest.contains(address) {
                let j = choose|j: int| 0 <= j < rest.len() && rest[j] == address;
                assert(rest.push(last)[j] == address);
            }
        }
    }
}

/// Given each InMail of the source chain with its number of `acknowledgment`
/// links, the InMails that this agent did not acknowledge.
pub fn get_all_arrived_mail(inmails: &Vec<(Address, usize)>) -> (r: Vec<Address>)
    ensures
        r.deep_view() == unacknowledged(inmails@),
{
    let mut unreads: Vec<Address> = Vec::new();
    let mut i: usize = 0;
    while i < inmails.len()
        invariant
            i <= inmails.len(),
            unreads.deep_view() == unacknowledged(inmails@.take(i as int)),
        decreases inmails.len() - i,
    {
        let ghost before = unreads.deep_view();
        assert(inmails@.take(i + 1).drop_last() =~= inmails@.take(i as int));
        assert(inmails@.take(i + 1).last() == inmails@[i as int]);
        if inmails[i].1 == 0 {
            unreads.push(inmails[i].0.clone());
            assert(unreads.deep_view() =~= before.push(inmails@[i as int].0@));
        }
        i = i + 1;
    }
    assert(inmails@.take(inmails.len() as int) =~= inmails@);
    unreads
}

} // verus!
