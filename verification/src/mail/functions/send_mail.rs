//! Sending a mail: the result record, and the decisions taken for each receipient.
use vstd::prelude::*;

use crate::{Address, AgentAddress};
use crate::mail::entries::ReceipientKind;
use crate::protocol::DirectMessageProtocol;

verus! {

/// How a mail reached one receipient.
#[allow(non_camel_case_types)]
#[derive(Debug)]
pub enum SendSuccessKind {
    /// Delivered by a direct message.
    OK_DIRECT,
    /// Left on the DHT as the PendingMail at this address.
    OK_PENDING(Address),
}

/// The map that a sequence of (agent, address) pairs stands for, a later pair
/// overriding an earlier one with the same agent.
pub open spec fn pairs_map(s: Seq<(AgentAddress, Address)>) -> Map<Seq<char>, Seq<char>>
    decreases s.len(),
{
    if s.len() == 0 {
        Map::empty()
    } else {
        pairs_map(s.drop_last()).insert(s.last().0@, s.last().1@)
    }
}

/// No agent occurs twice.
pub open spec fn keys_distinct(s: Seq<(AgentAddress, Address)>) -> bool {
    forall|i: int, j: int| 0 <= i < j < s.len() ==> (#[trigger] s[i]).0@ != (#[trigger] s[j]).0@
}

proof fn lemma_pairs_map_lookup(s: Seq<(AgentAddress, Address)>, k: Seq<char>)
    requires
        keys_distinct(s),
    ensures
        (exists|i: int| 0 <= i < s.len() && (#[trigger] s[i]).0@ == k) <==> pairs_map(s).dom().contains(k),
        forall|i: int| 0 <= i < s.len() && (#[trigger] s[i]).0@ == k ==> pairs_map(s)[k] == s[i].1@,
    decreases s.len(),
{
    if s.len() > 0 {
        let init = s.drop_last();
        lemma_pairs_map_lookup(init, k);
        assert forall|i: int| 0 <= i < s.len() && (#[trigger] s[i]).0@ == k implies pairs_map(s)[k]
            == s[i].1@ by {
            if i < s.len() - 1 {
                assert(init[i] == s[i]);
            }
        }
        if exists|i: int| 0 <= i < s.len() && (#[trigger] s[i]).0@ == k {
            let i = choose|i: int| 0 <= i < s.len() && (#[trigger] s[i]).0@ == k;
            if i < s.len() - 1 {
                assert(init[i] == s[i]);
            }
        }
        if exists|i: int| 0 <= i < init.len() && (#[trigger] init[i]).0@ == k {
            let i = choose|i: int| 0 <= i < init.len() && (#[trigger] init[i]).0@ == k;
            assert(s[i] == init[i]);
        }
        if pairs_map(s).dom().contains(k) && s.last().0@ == k {
            assert(s[s.len() - 1].0@ == k);
        }
    }
}

proof fn lemma_pairs_map_update(s: Seq<(AgentAddress, Address)>, i: int, p: (AgentAddress, Address))
    requires
        keys_distinct(s),
        0 <= i < s.len(),
        s[i].0@ == p.0@,
    ensures
        pairs_map(s.update(i, p)) == pairs_map(s).insert(p.0@, p.1@),
        keys_distinct(s.update(i, p)),
    decreases s.len(),
{
    let t = s.update(i, p);
    let init = s.drop_last();
    if i == s.len() - 1 {
        assert(t.drop_last() =~= init);
        assert(pairs_map(t) =~= pairs_map(s).insert(p.0@, p.1@));
    } else {
        lemma_pairs_map_update(init, i, p);
        assert(t.drop_last() =~= init.update(i, p));
        assert(s.last().0@ != p.0@) by {
            assert(s[i].0@ != s[s.len() - 1].0@);
        }
        assert(pairs_map(t) =~= pairs_map(s).insert(p.0@, p.1@));
    }
    assert forall|a: int, b: int| 0 <= a < b < t.len() implies (#[trigger] t[a]).0@ != (
    #[trigger] t[b]).0@ by {
        assert(s[a].0@ != s[b].0@);
    }
}

/// Reading back an agent just recorded gives the address recorded for it, and
/// recording leaves every other agent as it was.
pub proof fn insert_then_lookup(m: Map<Seq<char>, Seq<char>>, agent: Seq<char>, address: Seq<char>, other: Seq<char>)
    requires
        other != agent,
    ensures
        m.insert(agent, address).dom().contains(agent),
        m.insert(agent, address)[agent] == address,
        m.insert(agent, address).dom().contains(other) == m.dom().contains(other),
        m.insert(agent, address)[other] == m[other],
{
}

/// A map from agents to addresses, kept as a list of pairs with distinct agents.
#[derive(Debug)]
pub struct AgentAddressMap {
    entries: Vec<(AgentAddress, Address)>,
}

impl View for AgentAddressMap {
    type V = Map<Seq<char>, Seq<char>>;

    closed spec fn view(&self) -> Map<Seq<char>, Seq<char>> {
        pairs_map(self.entries@)
    }
}

impl AgentAddressMap {
    /// Well-formed: no agent occurs twice.
    pub closed spec fn wf(&self) -> bool {
        keys_distinct(self.entries@)
    }

    pub fn new() -> (m: AgentAddressMap)
        ensures
            m.wf(),
            m@ == Map::<Seq<char>, Seq<char>>::empty(),
    {
        AgentAddressMap { entries: Vec::new() }
    }

    /// Maps `agent` to `address`, replacing what it was mapped to.
    pub fn insert(&mut self, agent: AgentAddress, address: Address)
        requires
            old(self).wf(),
        ensures
            final(self).wf(),
            final(self)@ == old(self)@.insert(agent@, address@),
    {
        let mut i: usize = 0;
        while i < self.entries.len()
            invariant
                i <= self.entries@.len(),
                self.entries@ == old(self).entries@,
                keys_distinct(self.entries@),
                forall|j: int| 0 <= j < i ==> (#[trigger] self.entries@[j]).0@ != agent@,
            decreases self.entries@.len() - i,
        {
            if self.entries[i].0 == agent {
                let ghost s = self.entries@;
                proof {
                    lemma_pairs_map_update(s, i as int, (agent, address));
                }
                self.entries.set(i, (agent, address));
                assert(self.entries@ == s.update(i as int, (agent, address)));
                return;
            }
            i = i + 1;
        }
        let ghost s = self.entries@;
        self.entries.push((agent, address));
        proof {
            let t = self.entries@;
            assert(t.drop_last() =~= s);
            assert forall|a: int, b: int| 0 <= a < b < t.len() implies (#[trigger] t[a]).0@ != (
            #[trigger] t[b]).0@ by {
                if b < s.len() {
                    assert(s[a].0@ != s[b].0@);
                } else {
                    assert(s[a].0@ != agent@);
                }
            }
        }
    }

    /// The address `agent` is mapped to.
    pub fn get(&self, agent: &AgentAddress) -> (r: Option<&Address>)
        requires
            self.wf(),
        ensures
            match r {
                Some(a) => self@.dom().contains(agent@) && self@[agent@] == a@,
                None => !self@.dom().contains(agent@),
            },
    {
        proof {
            lemma_pairs_map_lookup(self.entries@, agent@);
        }
        let mut i: usize = 0;
        while i < self.entries.len()
            invariant
                i <= self.entries@.len(),
                keys_distinct(self.entries@),
                forall|j: int| 0 <= j < i ==> (#[trigger] self.entries@[j]).0@ != agent@,
            decreases self.entries@.len() - i,
        {
            if self.entries[i].0 == *agent {
                proof {
                    lemma_pairs_map_lookup(self.entries@, agent@);
                    assert(self.entries@[i as int].0@ == agent@);
                }
                return Some(&self.entries[i].1);
            }
            i = i + 1;
        }
        None
    }

    /// The (agent, address) pairs, each agent once.
    pub fn entries(&self) -> (r: &Vec<(AgentAddress, Address)>)
        requires
            self.wf(),
        ensures
            keys_distinct(r@),
            pairs_map(r@) == self@,
    {
        &self.entries
    }
}

/// Struct holding all result data from a send request: the OutMail, and for
/// each kind of receipient, the PendingMail left on the DHT per receipient.
#[derive(Debug)]
pub struct SendTotalResult {
    pub outmail: Address,
    pub to_pendings: AgentAddressMap,
    pub cc_pendings: AgentAddressMap,
    pub bcc_pendings: AgentAddressMap,
}

impl SendTotalResult {
    pub open spec fn wf(&self) -> bool {
        self.to_pendings.wf() && self.cc_pendings.wf() && self.bcc_pendings.wf()
    }

    /// The pendings recorded for receipients of `kind`.
    pub open spec fn pendings(&self, kind: ReceipientKind) -> Map<Seq<char>, Seq<char>> {
        match kind {
            ReceipientKind::TO => self.to_pendings@,
            ReceipientKind::CC => self.cc_pendings@,
            ReceipientKind::BCC => self.bcc_pendings@,
        }
    }

    pub fn new(outmail_address: Address) -> (r: SendTotalResult)
        ensures
            r.wf(),
            r.outmail == outmail_address,
            forall|k: ReceipientKind| #[trigger] r.pendings(k) == Map::<Seq<char>, Seq<char>>::empty(),
    {
        SendTotalResult {
            outmail: outmail_address,
            to_pendings: AgentAddressMap::new(),
            cc_pendings: AgentAddressMap::new(),
            bcc_pendings: AgentAddressMap::new(),
        }
    }

    /// Record that the mail for `agent_id`, a receipient of `kind`, is the
    /// PendingMail at `address`. The other kinds are left as they are.
    pub fn add_pending(&mut self, kind: ReceipientKind, agent_id: &AgentAddress, address: Address)
        requires
            old(self).wf(),
        ensures
            final(self).wf(),
            final(self).outmail == old(self).outmail,
            forall|k: ReceipientKind|
                #[trigger] final(self).pendings(k) == if k == kind {
                    old(self).pendings(k).insert(agent_id@, address@)
                } else {
                    old(self).pendings(k)
                },
    {
        match kind {
            ReceipientKind::TO => self.to_pendings.insert(agent_id.clone(), address),
            ReceipientKind::CC => self.cc_pendings.insert(agent_id.clone(), address),
            ReceipientKind::BCC => self.bcc_pendings.insert(agent_id.clone(), address),
        }
    }
}

/// Pendings recorded for two kinds stay apart: recording one never changes another.
pub proof fn add_pending_keeps_other_kinds(
    before: SendTotalResult,
    after: SendTotalResult,
    kind: ReceipientKind,
    agent: Seq<char>,
    address: Seq<char>,
    other: ReceipientKind,
)
    requires
        forall|k: ReceipientKind|
            #[trigger] after.pendings(k) == if k == kind {
                before.pendings(k).insert(agent, address)
            } else {
                before.pendings(k)
            },
        other != kind,
    ensures
        after.pendings(other) == before.pendings(other),
        after.pendings(kind).dom().contains(agent),
        after.pendings(kind)[agent] == address,
{
    assert(after.pendings(other) == before.pendings(other));
    assert(after.pendings(kind) == before.pendings(kind).insert(agent, address));
}

/// A mail needs at least one receipient, public or private.
pub fn check_receipients(to: &Vec<AgentAddress>, cc: &Vec<AgentAddress>, bcc: &Vec<AgentAddress>) -> (r:
    Result<(), String>)
    ensures
        match r {
            Ok(()) => to.len() + cc.len() + bcc.len() >= 1,
            Err(e) => to.len() + cc.len() + bcc.len() < 1 && e@ == "Mail lacks receipients"@,
        },
{
    if to.len() == 0 && cc.len() == 0 && bcc.len() == 0 {
        return Err("Mail lacks receipients".to_owned());
    }
    Ok(())
}

/// A reply to a direct message is a success when it is `DirectMessageProtocol::Success`.
pub open spec fn is_success(reply: Option<DirectMessageProtocol>) -> bool {
    reply matches Some(DirectMessageProtocol::Success(_))
}

/// Whether a direct message was answered with `Success`; `None` stands for no
/// answer, or one that could not be read.
pub fn is_success_reply(reply: &Option<DirectMessageProtocol>) -> (r: bool)
    ensures
        r == is_success(*reply),
{
    match reply {
        Some(DirectMessageProtocol::Success(_)) => true,
        _ => false,
    }
}

/// The receipients of one kind, tagged with it.
pub open spec fn tagged(kind: ReceipientKind, agents: Seq<AgentAddress>) -> Seq<(ReceipientKind, AgentAddress)> {
    Seq::new(agents.len(), |i: int| (kind, agents[i]))
}

/// What became of the mail for one receipient: `None` when it was delivered
/// directly, `Some(None)` when leaving a PendingMail failed, `Some(Some(a))`
/// when it was left as the PendingMail at `a`.
pub type SendOutcome = Option<Option<Seq<char>>>;

/// The pendings of `kind` that a sequence of outcomes records.
pub open spec fn recorded_pendings(
    receipients: Seq<(ReceipientKind, AgentAddress)>,
    outcomes: Seq<SendOutcome>,
    kind: ReceipientKind,
) -> Map<Seq<char>, Seq<char>>
    decreases receipients.len(),
{
    if receipients.len() == 0 {
        Map::empty()
    } else {
        let m = recorded_pendings(receipients.drop_last(), outcomes.drop_last(), kind);
        match outcomes.last() {
            Some(Some(a)) => if receipients.last().0 == kind {
                m.insert(receipients.last().1@, a)
            } else {
                m
            },
            _ => m,
        }
    }
}

/// A PendingMail committed for a receipient is recorded for that receipient's
/// kind, whatever the kind, at the address it was committed at, and the
/// pendings of every other kind stay as they were.
pub proof fn committed_pending_is_recorded(
    receipients: Seq<(ReceipientKind, AgentAddress)>,
    outcomes: Seq<SendOutcome>,
    kind: ReceipientKind,
    agent: AgentAddress,
    address: Seq<char>,
)
    ensures
        recorded_pendings(receipients.push((kind, agent)), outcomes.push(Some(Some(address))), kind)
            == recorded_pendings(receipients, outcomes, kind).insert(agent@, address),
        recorded_pendings(
            receipients.push((kind, agent)),
            outcomes.push(Some(Some(address))),
            kind,
        ).dom().contains(agent@),
        recorded_pendings(receipients.push((kind, agent)), outcomes.push(Some(Some(address))), kind)[agent@]
            == address,
        forall|k: ReceipientKind|
            k != kind ==> #[trigger] recorded_pendings(
                receipients.push((kind, agent)),
                outcomes.push(Some(Some(address))),
                k,
            ) == recorded_pendings(receipients, outcomes, k),
{
    assert(receipients.push((kind, agent)).drop_last() =~= receipients);
    assert(outcomes.push(Some(Some(address))).drop_last() =~= outcomes);
}

/// A receipient reached by a direct message, or for whom no PendingMail could
/// be committed, adds no pending of any kind.
pub proof fn uncommitted_outcome_records_nothing(
    receipients: Seq<(ReceipientKind, AgentAddress)>,
    outcomes: Seq<SendOutcome>,
    receipient: (ReceipientKind, AgentAddress),
    outcome: SendOutcome,
    kind: ReceipientKind,
)
    requires
        outcome is None || outcome == Some(None::<Seq<char>>),
    ensures
        recorded_pendings(receipients.push(receipient), outcomes.push(outcome), kind)
            == recorded_pendings(receipients, outcomes, kind),
{
    assert(receipients.push(receipient).drop_last() =~= receipients);
    assert(outcomes.push(outcome).drop_last() =~= outcomes);
}

/// The `i`-th receipient is of `kind` and its mail was left as a PendingMail.
pub open spec fn committed_for(
    receipients: Seq<(ReceipientKind, AgentAddress)>,
    outcomes: Seq<SendOutcome>,
    kind: ReceipientKind,
    i: int,
) -> bool {
    receipients[i].0 == kind && outcomes[i] matches Some(Some(_))
}

/// Before any receipient is handled, no pending of any kind is recorded.
pub proof fn nothing_recorded_at_first(outcomes: Seq<SendOutcome>, kind: ReceipientKind)
    ensures
        recorded_pendings(Seq::empty(), outcomes, kind) == Map::<Seq<char>, Seq<char>>::empty(),
{
}

/// How the pendings of a kind change with one more receipient: they gain it,
/// at its PendingMail's address, when it is of that kind and its mail was left
/// as a PendingMail, and are unchanged otherwise.
proof fn lemma_recorded_step(
    receipients: Seq<(ReceipientKind, AgentAddress)>,
    outcomes: Seq<SendOutcome>,
    kind: ReceipientKind,
)
    requires
        receipients.len() == outcomes.len(),
        receipients.len() > 0,
    ensures
        ({
            let n = receipients.len() - 1;
            let m = recorded_pendings(receipients.drop_last(), outcomes.drop_last(), kind);
            recorded_pendings(receipients, outcomes, kind) == if committed_for(
                receipients,
                outcomes,
                kind,
                n,
            ) {
                m.insert(receipients[n].1@, outcomes[n]->0->0)
            } else {
                m
            }
        }),
{
}

/// The pendings of a kind name exactly the receipients of that kind whose mail
/// was left as a PendingMail.
#[verifier::spinoff_prover]
pub proof fn pendings_name_the_committed(
    receipients: Seq<(ReceipientKind, AgentAddress)>,
    outcomes: Seq<SendOutcome>,
    kind: ReceipientKind,
    agent: Seq<char>,
)
    requires
        receipients.len() == outcomes.len(),
    ensures
        recorded_pendings(receipients, outcomes, kind).dom().contains(agent) <==> exists|i: int|
            0 <= i < receipients.len() && committed_for(receipients, outcomes, kind, i)
                && (#[trigger] receipients[i]).1@ == agent,
    decreases receipients.len(),
{
    if receipients.len() > 0 {
        let rs = receipients.drop_last();
        let os = outcomes.drop_last();
        let n = receipients.len() - 1;
        pendings_name_the_committed(rs, os, kind, agent);
        lemma_recorded_step(receipients, outcomes, kind);
        if exists|i: int|
            0 <= i < rs.len() && committed_for(rs, os, kind, i) && (#[trigger] rs[i]).1@ == agent {
            let i = choose|i: int|
                0 <= i < rs.len() && committed_for(rs, os, kind, i) && (#[trigger] rs[i]).1@ == agent;
            assert(receipients[i] == rs[i] && outcomes[i] == os[i]);
            assert(committed_for(receipients, outcomes, kind, i) && receipients[i].1@ == agent);
        }
        if exists|i: int|
            0 <= i < receipients.len() && committed_for(receipients, outcomes, kind, i)
                && (#[trigger] receipients[i]).1@ == agent {
            let i = choose|i: int|
                0 <= i < receipients.len() && committed_for(receipients, outcomes, kind, i)
                    && (#[trigger] receipients[i]).1@ == agent;
            if i < n {
                assert(receipients[i] == rs[i] && outcomes[i] == os[i]);
                assert(committed_for(rs, os, kind, i) && rs[i].1@ == agent);
            }
        }
    }
}

/// A receipient of a kind whose mail was left as a PendingMail, and for whom
/// none was left later, is recorded at that PendingMail's address.
#[verifier::spinoff_prover]
pub proof fn pending_at_last_committed_address(
    receipients: Seq<(ReceipientKind, AgentAddress)>,
    outcomes: Seq<SendOutcome>,
    kind: ReceipientKind,
    i: int,
)
    requires
        receipients.len() == outcomes.len(),
        0 <= i < receipients.len(),
        committed_for(receipients, outcomes, kind, i),
        forall|j: int|
            i < j < receipients.len() && committed_for(receipients, outcomes, kind, j)
                ==> (#[trigger] receipients[j]).1@ != receipients[i].1@,
    ensures
        recorded_pendings(receipients, outcomes, kind).dom().contains(receipients[i].1@),
        recorded_pendings(receipients, outcomes, kind)[receipients[i].1@] == outcomes[i]->0->0,
    decreases receipients.len(),
{
    let rs = receipients.drop_last();
    let os = outcomes.drop_last();
    let n = receipients.len() - 1;
    lemma_recorded_step(receipients, outcomes, kind);
    if i < n {
        assert(receipients[i] == rs[i] && outcomes[i] == os[i]);
        assert forall|j: int|
            i < j < rs.len() && committed_for(rs, os, kind, j) implies (#[trigger] rs[j]).1@
            != rs[i].1@ by {
            assert(receipients[j] == rs[j] && outcomes[j] == os[j]);
            assert(committed_for(receipients, outcomes, kind, j));
        }
        pending_at_last_committed_address(rs, os, kind, i);
    }
}

/// What the caller does next for a mail being sent.
#[derive(Debug)]
pub enum SendAction {
    /// Send `DirectMessageProtocol::Mail` to `destination` and report its reply.
    SendDirect { destination: AgentAddress },
    /// Commit a PendingMail for `destination`, link it from the OutMail and from
    /// the destination's inbox, and report its address, or `None` if that failed.
    CommitPending { destination: AgentAddress },
    /// Every receipient has been handled.
    Done,
}

/// What the caller reports after an action.
#[derive(Debug)]
pub enum SendEvent {
    DirectReply { reply: Option<DirectMessageProtocol> },
    PendingCommitted { address: Option<Address> },
}

/// Progress of the sending of one OutMail to its receipients, in the order
/// `to`, `cc`, `bcc`: each one is first tried directly, and gets a PendingMail
/// when that fails.
pub struct SendMailState {
    pub receipients: Vec<(ReceipientKind, AgentAddress)>,
    pub next: usize,
    pub awaiting_pending: bool,
    pub result: SendTotalResult,
    pub outcomes: Ghost<Seq<SendOutcome>>,
}

impl SendMailState {
    pub open spec fn inv(&self) -> bool {
        &&& self.next <= self.receipients.len()
        &&& self.awaiting_pending ==> self.next < self.receipients.len()
        &&& self.outcomes@.len() == self.next
        &&& self.result.wf()
        &&& forall|k: ReceipientKind|
            #[trigger] self.result.pendings(k) == recorded_pendings(
                self.receipients@.take(self.next as int),
                self.outcomes@,
                k,
            )
    }

    /// The action this state asks for.
    pub open spec fn expected_action(&self) -> SendAction {
        if self.next >= self.receipients.len() {
            SendAction::Done
        } else if self.awaiting_pending {
            SendAction::CommitPending { destination: self.receipients@[self.next as int].1 }
        } else {
            SendAction::SendDirect { destination: self.receipients@[self.next as int].1 }
        }
    }

    /// `event` answers the action this state asks for.
    pub open spec fn answers(&self, event: SendEvent) -> bool {
        &&& self.next < self.receipients.len()
        &&& match event {
            SendEvent::DirectReply { .. } => !self.awaiting_pending,
            SendEvent::PendingCommitted { .. } => self.awaiting_pending,
        }
    }

    /// Steps left before `Done`.
    pub open spec fn steps_left(&self) -> int {
        2 * (self.receipients.len() - self.next) - if self.awaiting_pending { 1int } else { 0 }
    }

    fn action(&self) -> (a: SendAction)
        requires
            self.inv(),
        ensures
            a == self.expected_action(),
    {
        if self.next >= self.receipients.len() {
            SendAction::Done
        } else if self.awaiting_pending {
            SendAction::CommitPending { destination: self.receipients[self.next].1.clone() }
        } else {
            SendAction::SendDirect { destination: self.receipients[self.next].1.clone() }
        }
    }
}

fn push_tagged(
    kind: ReceipientKind,
    agents: &Vec<AgentAddress>,
    out: &mut Vec<(ReceipientKind, AgentAddress)>,
)
    ensures
        final(out)@ == old(out)@ + tagged(kind, agents@),
{
    let ghost start = out@;
    let mut i: usize = 0;
    while i < agents.len()
        invariant
            i <= agents.len(),
            out@ == start + tagged(kind, agents@.take(i as int)),
        decreases agents.len() - i,
    {
        out.push((kind, agents[i].clone()));
        assert(tagged(kind, agents@.take(i + 1)) =~= tagged(kind, agents@.take(i as int)).push(
            (kind, agents@[i as int]),
        ));
        i = i + 1;
    }
    assert(agents@.take(agents.len() as int) =~= agents@);
}

/// Begin sending the OutMail committed at `outmail_address` to its receipients.
pub fn start_send_mail(
    outmail_address: Address,
    to: &Vec<AgentAddress>,
    cc: &Vec<AgentAddress>,
    bcc: &Vec<AgentAddress>,
) -> (r: (SendMailState, SendAction))
    ensures
        r.0.inv(),
        r.0.receipients@ == tagged(ReceipientKind::TO, to@) + tagged(ReceipientKind::CC, cc@)
            + tagged(ReceipientKind::BCC, bcc@),
        r.0.next == 0,
        !r.0.awaiting_pending,
        r.0.outcomes@ == Seq::<SendOutcome>::empty(),
        forall|k: ReceipientKind| #[trigger] r.0.result.pendings(k) == Map::<Seq<char>, Seq<char>>::empty(),
        r.0.result.outmail == outmail_address,
        r.1 == r.0.expected_action(),
{
    let mut receipients: Vec<(ReceipientKind, AgentAddress)> = Vec::new();
    push_tagged(ReceipientKind::TO, to, &mut receipients);
    push_tagged(ReceipientKind::CC, cc, &mut receipients);
    push_tagged(ReceipientKind::BCC, bcc, &mut receipients);
    assert(Seq::<(ReceipientKind, AgentAddress)>::empty() + tagged(ReceipientKind::TO, to@)
        =~= tagged(ReceipientKind::TO, to@));
    let state = SendMailState {
        receipients,
        next: 0,
        awaiting_pending: false,
        result: SendTotalResult::new(outmail_address),
        outcomes: Ghost(Seq::empty()),
    };
    proof {
        assert forall|k: ReceipientKind| #[trigger] state.result.pendings(k) == recorded_pendings(
            state.receipients@.take(0),
            state.outcomes@,
            k,
        ) by {
            assert(state.receipients@.take(0).len() == 0);
        }
    }
    let action = state.action();
    (state, action)
}

/// One step of sending: take the reply to the last action and decide the next one.
/// A successful direct reply moves on to the next receipient; any other reply
/// asks for a PendingMail; a committed PendingMail is recorded for the
/// receipient's kind; a failed one is skipped. An event that does not answer
/// the expected action leaves the state as it is.
pub fn step_send_mail(state: SendMailState, event: SendEvent) -> (r: (SendMailState, SendAction))
    requires
        state.inv(),
    ensures
        r.0.inv(),
        r.1 == r.0.expected_action(),
        r.0.receipients == state.receipients,
        r.0.result.outmail == state.result.outmail,
        r.0.steps_left() <= state.steps_left(),
        state.answers(event) ==> r.0.steps_left() < state.steps_left(),
        state.steps_left() >= 0,
        match event {
            SendEvent::PendingCommitted { address: Some(a) } => if state.awaiting_pending {
                forall|k: ReceipientKind|
                    #[trigger] r.0.result.pendings(k) == if k == state.receipients@[state.next as int].0 {
                        state.result.pendings(k).insert(state.receipients@[state.next as int].1@, a@)
                    } else {
                        state.result.pendings(k)
                    }
            } else {
                forall|k: ReceipientKind| #[trigger] r.0.result.pendings(k) == state.result.pendings(k)
            },
            _ => forall|k: ReceipientKind| #[trigger] r.0.result.pendings(k) == state.result.pendings(k),
        },
        ({
            let i = state.next as int;
            match event {
                SendEvent::DirectReply { reply } => if i < state.receipients.len()
                    && !state.awaiting_pending {
                    if is_success(reply) {
                        &&& r.0.next == i + 1
                        &&& !r.0.awaiting_pending
                        &&& r.0.outcomes@ == state.outcomes@.push(None)
                    } else {
                        &&& r.0.next == i
                        &&& r.0.awaiting_pending
                        &&& r.0.outcomes@ == state.outcomes@
                    }
                } else {
                    r.0.next == state.next && r.0.awaiting_pending == state.awaiting_pending
                        && r.0.outcomes@ == state.outcomes@
                },
                SendEvent::PendingCommitted { address } => if state.awaiting_pending {
                    &&& r.0.next == i + 1
                    &&& !r.0.awaiting_pending
                    &&& r.0.outcomes@ == state.outcomes@.push(
                        match address {
                            Some(a) => Some(Some(a@)),
                            None => Some(None),
                        },
                    )
                } else {
                    r.0.next == state.next && r.0.awaiting_pending == state.awaiting_pending
                        && r.0.outcomes@ == state.outcomes@
                },
            }
        }),
{
    let mut state = state;
    let ghost rs = state.receipients@;
    let ghost i = state.next as int;
    match event {
        SendEvent::DirectReply { reply } => {
            if state.next < state.receipients.len() && !state.awaiting_pending {
                if is_success_reply(&reply) {
                    let ghost before_outcomes = state.outcomes@;
                    state.next = state.next + 1;
                    state.outcomes = Ghost(before_outcomes.push(None));
                    proof {
                        assert(rs.take(i + 1).drop_last() =~= rs.take(i));
                        assert(state.outcomes@.drop_last() =~= before_outcomes);
                        assert(state.outcomes@.last() is None);
                    }
                } else {
                    state.awaiting_pending = true;
                }
            }
        },
        SendEvent::PendingCommitted { address } => {
            if state.awaiting_pending {
                let ghost before_outcomes = state.outcomes@;
                let ghost before_result = state.result;
                match address {
                    Some(a) => {
                        let ghost av = a@;
                        let kind = state.receipients[state.next].0;
                        state.result.add_pending(kind, &state.receipients[state.next].1, a);
                        state.outcomes = Ghost(before_outcomes.push(Some(Some(av))));
                    },
                    None => {
                        state.outcomes = Ghost(before_outcomes.push(Some(None)));
                    },
                }
                state.next = state.next + 1;
                state.awaiting_pending = false;
                proof {
                    assert(rs.take(i + 1).drop_last() =~= rs.take(i));
                    assert(rs.take(i + 1).last() == rs[i]);
                    assert(state.outcomes@.drop_last() =~= before_outcomes);
                }
            }
        },
    }
    let action = state.action();
    (state, action)
}

/// Sending ends: from any state, at most two answered events per receipient
/// remain before `Done`, since each answered event takes a step off `steps_left`.
pub proof fn sending_ends(state: SendMailState)
    requires
        state.inv(),
    ensures
        0 <= state.steps_left() <= 2 * state.receipients.len(),
        state.steps_left() == 0 <==> state.expected_action() is Done,
{
}

/// When sending is done, each kind of receipient has a pending recorded exactly
/// for those of its receipients whose mail was left as a PendingMail, at that
/// PendingMail's address (a receipient listed twice keeps the later one); a
/// receipient reached directly, or for whom no PendingMail could be left, has
/// none unless it is listed again.
pub proof fn send_result_when_done(state: SendMailState, kind: ReceipientKind)
    requires
        state.inv(),
        state.expected_action() is Done,
    ensures
        state.result.pendings(kind) == recorded_pendings(state.receipients@, state.outcomes@, kind),
        state.outcomes@.len() == state.receipients@.len(),
        forall|agent: Seq<char>|
            #[trigger] state.result.pendings(kind).dom().contains(agent) <==> exists|i: int|
                0 <= i < state.receipients@.len() && committed_for(
                    state.receipients@,
                    state.outcomes@,
                    kind,
                    i,
                ) && (#[trigger] state.receipients@[i]).1@ == agent,
{
    assert(state.receipients@.take(state.receipients@.len() as int) =~= state.receipients@);
    assert forall|agent: Seq<char>|
        #[trigger] state.result.pendings(kind).dom().contains(agent) <==> exists|i: int|
            0 <= i < state.receipients@.len() && committed_for(
                state.receipients@,
                state.outcomes@,
                kind,
                i,
            ) && (#[trigger] state.receipients@[i]).1@ == agent by {
        pendings_name_the_committed(state.receipients@, state.outcomes@, kind, agent);
    }
}

} // verus!
