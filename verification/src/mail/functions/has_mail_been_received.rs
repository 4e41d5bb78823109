//! Which receipients of an authored mail have not sent a receipt yet.
use vstd::prelude::*;

use crate::AgentAddress;
use crate::mail::entries::outmail::OutMail;

verus! {

/// The elements of `receipients` that are not in `authors`, in order.
pub open spec fn missing_from(receipients: Seq<Seq<char>>, authors: Seq<Seq<char>>) -> Seq<Seq<char>>
    decreases receipients.len(),
{
    if receipients.len() == 0 {
        Seq::empty()
    } else {
        let rest = missing_from(receipients.drop_last(), authors);
        if authors.contains(receipients.last()) {
            rest
        } else {
            rest.push(receipients.last())
        }
    }
}

proof fn lemma_missing_from_concat(a: Seq<Seq<char>>, b: Seq<Seq<char>>, authors: Seq<Seq<char>>)
    ensures
        missing_from(a + b, authors) == missing_from(a, authors) + missing_from(b, authors),
    decreases b.len(),
{
    if b.len() == 0 {
        assert(a + b =~= a);
        assert(missing_from(a, authors) + missing_from(b, authors) =~= missing_from(a, authors));
    } else {
        lemma_missing_from_concat(a, b.drop_last(), authors);
        assert((a + b).drop_last() =~= a + b.drop_last());
        assert((a + b).last() == b.last());
        let ma = missing_from(a, authors);
        let mb = missing_from(b.drop_last(), authors);
        assert(ma + mb.push(b.last()) =~= (ma + mb).push(b.last()));
    }
}

/// A receipient is reported missing exactly when it has sent no receipt.
pub proof fn missing_receipt_iff(receipients: Seq<Seq<char>>, authors: Seq<Seq<char>>, x: Seq<char>)
    ensures
        missing_from(receipients, authors).contains(x) <==> (receipients.contains(x)
            && !authors.contains(x)),
    decreases receipients.len(),
{
    if receipients.len() > 0 {
        let init = receipients.drop_last();
        let last = receipients.last();
        missing_receipt_iff(init, authors, x);
        assert(receipients =~= init.push(last));
        assert(receipients.contains(x) <==> (init.contains(x) || last == x)) by {
            if receipients.contains(x) {
                let k = choose|k: int| 0 <= k < receipients.len() && receipients[k] == x;
                if k < init.len() {
                    assert(init[k] == x);
                }
            }
            if init.contains(x) {
                let k = choose|k: int| 0 <= k < init.len() && init[k] == x;
                assert(receipients[k] == x);
            }
            if last == x {
                assert(receipients[receipients.len() - 1] == x);
            }
        }
        let rest = missing_from(init, authors);
        if !authors.contains(last) {
            assert(rest.push(last).contains(x) <==> (rest.contains(x) || last == x)) by {
                if rest.push(last).contains(x) {
                    let k = choose|k: int| 0 <= k < rest.push(last).len() && rest.push(last)[k] == x;
                    if k < rest.len() {
                        assert(rest[k] == x);
                    }
                }
                if rest.contains(x) {
                    let k = choose|k: int| 0 <= k < rest.len() && rest[k] == x;
                    assert(rest.push(last)[k] == x);
                }
                if last == x {
                    assert(rest.push(last)[rest.len() as int] == x);
                }
            }
        }
    }
}

/// Whether a receipient is not among the authors of the receipts.
pub open spec fn not_among(authors: Seq<Seq<char>>) -> spec_fn(Seq<char>) -> bool {
    |x: Seq<char>| !authors.contains(x)
}

/// The missing receipients are the receipients without a receipt, each one
/// kept as often as it is listed, in sending order, and nothing else.
pub proof fn missing_are_those_without_receipt(receipients: Seq<Seq<char>>, authors: Seq<Seq<char>>)
    ensures
        missing_from(receipients, authors) == receipients.filter(not_among(authors)),
    decreases receipients.len(),
{
    reveal(Seq::filter);
    if receipients.len() > 0 {
        missing_are_those_without_receipt(receipients.drop_last(), authors);
    }
}

/// When every receipient has sent a receipt, none is missing.
pub proof fn all_receipts_means_none_missing(receipients: Seq<Seq<char>>, authors: Seq<Seq<char>>)
    requires
        forall|i: int| 0 <= i < receipients.len() ==> authors.contains(#[trigger] receipients[i]),
    ensures
        missing_from(receipients, authors) == Seq::<Seq<char>>::empty(),
{
    let m = missing_from(receipients, authors);
    if m.len() > 0 {
        let x = m[0];
        assert(m.contains(x));
        missing_receipt_iff(receipients, authors, x);
        let k = choose|k: int| 0 <= k < receipients.len() && receipients[k] == x;
        assert(authors.contains(receipients[k]));
    }
    assert(m =~= Seq::<Seq<char>>::empty());
}

fn contains_address(list: &Vec<AgentAddress>, x: &AgentAddress) -> (r: bool)
    ensures
        r == list.deep_view().contains(x@),
{
    let mut i: usize = 0;
    while i < list.len()
        invariant
            i <= list.len(),
            forall|j: int| 0 <= j < i ==> list.deep_view()[j] != x@,
        decreases list.len() - i,
    {
        if list[i] == *x {
            assert(list.deep_view()[i as int] == x@);
            return true;
        }
        i = i + 1;
    }
    proof {
        if list.deep_view().contains(x@) {
            let k = choose|k: int| 0 <= k < list.deep_view().len() && list.deep_view()[k] == x@;
            assert(false);
        }
    }
    false
}

fn push_missing(receipients: &Vec<AgentAddress>, authors: &Vec<AgentAddress>, out: &mut Vec<AgentAddress>)
    ensures
        final(out).deep_view() == old(out).deep_view() + missing_from(
            receipients.deep_view(),
            authors.deep_view(),
        ),
{
    let ghost start = out.deep_view();
    let mut i: usize = 0;
    while i < receipients.len()
        invariant
            i <= receipients.len(),
            out.deep_view() == start + missing_from(
                receipients.deep_view().take(i as int),
                authors.deep_view(),
            ),
        decreases receipients.len() - i,
    {
        let ghost before = out.deep_view();
        let ghost rs = receipients.deep_view();
        assert(rs.take(i + 1).drop_last() =~= rs.take(i as int));
        assert(rs.take(i + 1).last() == receipients[i as int]@);
        if !contains_address(authors, &receipients[i]) {
            out.push(receipients[i].clone());
            assert(out.deep_view() =~= before.push(receipients[i as int]@));
            assert(start + missing_from(rs.take(i as int), authors.deep_view()).push(
                receipients[i as int]@,
            ) =~= (start + missing_from(rs.take(i as int), authors.deep_view())).push(
                receipients[i as int]@,
            ));
        }
        i = i + 1;
    }
    assert(receipients.deep_view().take(receipients.len() as int) =~= receipients.deep_view());
}

/// Check if the agent received a receipt from all receipients of one of its
/// OutMails, given the authors of the receipts linked to it. If not, returns the
/// receipients whose receipt is missing, in sending order (`to`, `cc`, `bcc`).
pub fn has_mail_been_received(outmail: &OutMail, receipt_authors: &Vec<AgentAddress>) -> (r: Result<
    (),
    Vec<AgentAddress>,
>)
    ensures
        match r {
            Ok(()) => missing_from(outmail.all_receipients(), receipt_authors.deep_view())
                == Seq::<Seq<char>>::empty(),
            Err(missing) => missing.deep_view() == missing_from(
                outmail.all_receipients(),
                receipt_authors.deep_view(),
            ) && missing.len() > 0,
        },
{
    let mut diff: Vec<AgentAddress> = Vec::new();
    push_missing(&outmail.mail.to, receipt_authors, &mut diff);
    push_missing(&outmail.mail.cc, receipt_authors, &mut diff);
    push_missing(&outmail.bcc, receipt_authors, &mut diff);
    proof {
        let a = receipt_authors.deep_view();
        let to = outmail.mail.to.deep_view();
        let cc = outmail.mail.cc.deep_view();
        let bcc = outmail.bcc.deep_view();
        lemma_missing_from_concat(to, cc, a);
        lemma_missing_from_concat(to + cc, bcc, a);
        assert(Seq::<Seq<char>>::empty() + missing_from(to, a) + missing_from(cc, a) + missing_from(
            bcc,
            a,
        ) =~= missing_from(to, a) + missing_from(cc, a) + missing_from(bcc, a));
    }
    if diff.len() > 0 {
        Err(diff)
    } else {
        proof {
            assert(diff.deep_view().len() == 0);
            assert(diff.deep_view() =~= Seq::<Seq<char>>::empty());
        }
        Ok(())
    }
}

} // verus!
