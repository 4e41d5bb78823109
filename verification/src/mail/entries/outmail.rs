//! The OutMail entry: a mail authored by this agent.
use vstd::prelude::*;

use super::Mail;
use crate::AgentAddress;

verus! {

/// Entry representing an authored mail. It is private.
#[derive(Debug)]
pub struct OutMail {
    pub mail: Mail,
    pub bcc: Vec<AgentAddress>,
}

impl OutMail {
    pub fn new(mail: Mail, bcc: Vec<AgentAddress>) -> (m: OutMail)
        ensures
            m.mail == mail,
            m.bcc == bcc,
    {
        OutMail { mail, bcc }
    }

    /// A new OutMail dated now, as this agent writes it.
    pub fn create(
        subject: String,
        payload: String,
        to: Vec<AgentAddress>,
        cc: Vec<AgentAddress>,
        bcc: Vec<AgentAddress>,
    ) -> (m: OutMail)
        ensures
            m.mail.subject == subject,
            m.mail.payload == payload,
            m.mail.to == to,
            m.mail.cc == cc,
            m.bcc == bcc,
    {
        let date_sent = crate::utils::snapmail_now();
        let mail = Mail::new(date_sent, subject, payload, to, cc);
        OutMail::new(mail, bcc)
    }

    /// The receipients in sending order: `to`, then `cc`, then `bcc`.
    pub open spec fn all_receipients(&self) -> Seq<Seq<char>> {
        self.mail.to.deep_view() + self.mail.cc.deep_view() + self.bcc.deep_view()
    }

    /// The receipients that get a PendingMail: `cc`, then `bcc`.
    pub open spec fn pending_receipients(&self) -> Seq<Seq<char>> {
        self.mail.cc.deep_view() + self.bcc.deep_view()
    }

    /// The receipients that get a PendingMail, in order: each `cc` receipient,
    /// then each `bcc` receipient. Each one's PendingMail is made with
    /// `PendingMail::create` from the mail encrypted for that receipient.
    pub fn generate_pendings(&self) -> (r: Vec<AgentAddress>)
        ensures
            r.deep_view() == self.pending_receipients(),
    {
        let mut result: Vec<AgentAddress> = Vec::new();
        let mut i: usize = 0;
        while i < self.mail.cc.len()
            invariant
                i <= self.mail.cc.len(),
                result.deep_view() == self.mail.cc.deep_view().take(i as int),
            decreases self.mail.cc.len() - i,
        {
            let ghost before = result.deep_view();
            result.push(self.mail.cc[i].clone());
            assert(result.deep_view() =~= before.push(self.mail.cc[i as int]@));
            assert(self.mail.cc.deep_view().take(i + 1) =~= self.mail.cc.deep_view().take(i as int).push(
                self.mail.cc[i as int]@,
            ));
            i = i + 1;
        }
        assert(self.mail.cc.deep_view().take(i as int) =~= self.mail.cc.deep_view());
        let mut k: usize = 0;
        while k < self.bcc.len()
            invariant
                k <= self.bcc.len(),
                result.deep_view() == self.mail.cc.deep_view() + self.bcc.deep_view().take(k as int),
            decreases self.bcc.len() - k,
        {
            let ghost before = result.deep_view();
            result.push(self.bcc[k].clone());
            assert(result.deep_view() =~= before.push(self.bcc[k as int]@));
            assert(self.bcc.deep_view().take(k + 1) =~= self.bcc.deep_view().take(k as int).push(
                self.bcc[k as int]@,
            ));
            k = k + 1;
        }
        assert(self.bcc.deep_view().take(k as int) =~= self.bcc.deep_view());
        result
    }
}

} // verus!
