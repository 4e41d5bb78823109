use snapmail::mail::entries::ReceipientKind;
use snapmail::mail::functions::check_incoming_ack::{
    start_check_incoming_ack, step_check_incoming_ack, AckInboxAction, AckInboxEvent,
};
use snapmail::mail::functions::check_incoming_mail::{
    require_handle, start_check_incoming_mail, step_check_incoming_mail, MailInboxAction, MailInboxEvent,
};
use snapmail::mail::functions::send_mail::{
    check_receipients, is_success_reply, start_send_mail, step_send_mail, AgentAddressMap, SendAction,
    SendEvent, SendTotalResult,
};
use snapmail::protocol::DirectMessageProtocol;

fn s(x: &str) -> String {
    x.to_string()
}

fn addrs(xs: &[&str]) -> Vec<String> {
    xs.iter().map(|x| x.to_string()).collect()
}

#[test]
fn address_map_insert_get_replace() {
    let mut m = AgentAddressMap::new();
    assert!(m.get(&s("a")).is_none());
    m.insert(s("a"), s("p1"));
    m.insert(s("b"), s("p2"));
    assert_eq!(m.get(&s("a")), Some(&s("p1")));
    m.insert(s("a"), s("p3"));
    assert_eq!(m.get(&s("a")), Some(&s("p3")));
    assert_eq!(m.get(&s("b")), Some(&s("p2")));
    assert_eq!(m.entries().len(), 2);
}

#[test]
fn add_pending_goes_to_its_kind() {
    let mut r = SendTotalResult::new(s("outmail"));
    r.add_pending(ReceipientKind::CC, &s("bob"), s("p1"));
    assert_eq!(r.cc_pendings.get(&s("bob")), Some(&s("p1")));
    assert!(r.to_pendings.get(&s("bob")).is_none());
    assert!(r.bcc_pendings.get(&s("bob")).is_none());
    r.add_pending(ReceipientKind::BCC, &s("bob"), s("p2"));
    assert_eq!(r.bcc_pendings.get(&s("bob")), Some(&s("p2")));
    assert_eq!(r.cc_pendings.get(&s("bob")), Some(&s("p1")));
    assert_eq!(r.outmail, "outmail");
}

#[test]
fn mail_needs_a_receipient() {
    assert_eq!(check_receipients(&Vec::new(), &Vec::new(), &Vec::new()), Err(s("Mail lacks receipients")));
    assert_eq!(check_receipients(&Vec::new(), &Vec::new(), &addrs(&["x"])), Ok(()));
    assert_eq!(check_receipients(&addrs(&["x"]), &Vec::new(), &Vec::new()), Ok(()));
}

#[test]
fn success_reply_detection() {
    assert!(is_success_reply(&Some(DirectMessageProtocol::Success(String::new()))));
    assert!(!is_success_reply(&Some(DirectMessageProtocol::Failure(s("x")))));
    assert!(!is_success_reply(&None));
}

fn dest(a: &SendAction) -> String {
    match a {
        SendAction::SendDirect { destination } => format!("direct:{}", destination),
        SendAction::CommitPending { destination } => format!("pending:{}", destination),
        SendAction::Done => s("done"),
    }
}

#[test]
fn send_goes_through_to_cc_bcc() {
    let (st, a) = start_send_mail(s("om"), &addrs(&["a", "b"]), &addrs(&["c"]), &addrs(&["d"]));
    assert_eq!(dest(&a), "direct:a");
    // a answers directly
    let ok = Some(DirectMessageProtocol::Success(String::new()));
    let (st, a) = step_send_mail(st, SendEvent::DirectReply { reply: ok });
    assert_eq!(dest(&a), "direct:b");
    // b is offline: a PendingMail is committed
    let (st, a) = step_send_mail(st, SendEvent::DirectReply { reply: None });
    assert_eq!(dest(&a), "pending:b");
    let (st, a) = step_send_mail(st, SendEvent::PendingCommitted { address: Some(s("p_b")) });
    assert_eq!(dest(&a), "direct:c");
    // c answers with a failure, and committing its PendingMail fails too
    let fail = Some(DirectMessageProtocol::Failure(s("no")));
    let (st, a) = step_send_mail(st, SendEvent::DirectReply { reply: fail });
    assert_eq!(dest(&a), "pending:c");
    let (st, a) = step_send_mail(st, SendEvent::PendingCommitted { address: None });
    assert_eq!(dest(&a), "direct:d");
    let (st, a) = step_send_mail(st, SendEvent::DirectReply { reply: None });
    let (st, a2) = step_send_mail(st, SendEvent::PendingCommitted { address: Some(s("p_d")) });
    assert_eq!(dest(&a), "pending:d");
    assert_eq!(dest(&a2), "done");
    assert_eq!(st.result.outmail, "om");
    assert_eq!(st.result.to_pendings.get(&s("b")), Some(&s("p_b")));
    assert!(st.result.to_pendings.get(&s("a")).is_none());
    assert!(st.result.cc_pendings.get(&s("c")).is_none());
    assert_eq!(st.result.bcc_pendings.get(&s("d")), Some(&s("p_d")));
    assert_eq!(st.result.to_pendings.entries().len(), 1);
}

#[test]
fn send_ignores_unexpected_events() {
    let (st, _) = start_send_mail(s("om"), &addrs(&["a"]), &Vec::new(), &Vec::new());
    let (st, a) = step_send_mail(st, SendEvent::PendingCommitted { address: Some(s("x")) });
    assert_eq!(dest(&a), "direct:a");
    assert_eq!(st.next, 0);
    let (st, a) = step_send_mail(st, SendEvent::DirectReply { reply: None });
    assert_eq!(dest(&a), "pending:a");
    let (st, a) = step_send_mail(st, SendEvent::DirectReply { reply: None });
    assert_eq!(dest(&a), "pending:a");
    let (st, a) = step_send_mail(st, SendEvent::PendingCommitted { address: Some(s("pa")) });
    assert_eq!(dest(&a), "done");
    let (st, a) = step_send_mail(st, SendEvent::DirectReply { reply: None });
    assert_eq!(dest(&a), "done");
    assert_eq!(st.result.to_pendings.get(&s("a")), Some(&s("pa")));
}

#[test]
fn send_with_no_receipient_is_done() {
    let (st, a) = start_send_mail(s("om"), &Vec::new(), &Vec::new(), &Vec::new());
    assert_eq!(dest(&a), "done");
    assert!(st.result.to_pendings.entries().is_empty());
}

#[test]
fn handle_required_for_inbox() {
    assert_eq!(require_handle(Some(s("h"))), Ok(s("h")));
    assert_eq!(require_handle(None), Err(s("This agent does not have a Handle set up")));
}

fn mail_act(a: &MailInboxAction) -> String {
    match a {
        MailInboxAction::Fetch { pending_address } => format!("fetch:{}", pending_address),
        MailInboxAction::Commit { pending_address } => format!("commit:{}", pending_address),
        MailInboxAction::RemoveLink { pending_address } => format!("unlink:{}", pending_address),
        MailInboxAction::DeleteEntry { pending_address } => format!("delete:{}", pending_address),
        MailInboxAction::Done => s("done"),
    }
}

#[test]
fn incoming_mail_scan() {
    let (sc, a) = start_check_incoming_mail(addrs(&["p1", "p2", "p3", "p4"]));
    assert_eq!(mail_act(&a), "fetch:p1");
    let (sc, a) = step_check_incoming_mail(sc, MailInboxEvent::Fetched { ok: true });
    assert_eq!(mail_act(&a), "commit:p1");
    let (sc, a) = step_check_incoming_mail(sc, MailInboxEvent::Committed { address: Some(s("i1")) });
    assert_eq!(mail_act(&a), "unlink:p1");
    let (sc, a) = step_check_incoming_mail(sc, MailInboxEvent::LinkRemoved { ok: true });
    assert_eq!(mail_act(&a), "delete:p1");
    let (sc, a) = step_check_incoming_mail(sc, MailInboxEvent::EntryDeleted { ok: false });
    assert_eq!(mail_act(&a), "fetch:p2");
    // p2 cannot be read
    let (sc, a) = step_check_incoming_mail(sc, MailInboxEvent::Fetched { ok: false });
    assert_eq!(mail_act(&a), "fetch:p3");
    // p3's InMail cannot be committed
    let (sc, _) = step_check_incoming_mail(sc, MailInboxEvent::Fetched { ok: true });
    let (sc, a) = step_check_incoming_mail(sc, MailInboxEvent::Committed { address: None });
    assert_eq!(mail_act(&a), "fetch:p4");
    // p4 is committed but its link cannot be removed: it still counts
    let (sc, _) = step_check_incoming_mail(sc, MailInboxEvent::Fetched { ok: true });
    let (sc, _) = step_check_incoming_mail(sc, MailInboxEvent::Committed { address: Some(s("i4")) });
    let (sc, a) = step_check_incoming_mail(sc, MailInboxEvent::LinkRemoved { ok: false });
    assert_eq!(mail_act(&a), "done");
    assert_eq!(sc.new_inmails, addrs(&["i1", "i4"]));
}

#[test]
fn incoming_mail_ignores_unexpected_events() {
    let (sc, _) = start_check_incoming_mail(addrs(&["p1"]));
    let (sc, a) = step_check_incoming_mail(sc, MailInboxEvent::LinkRemoved { ok: true });
    assert_eq!(mail_act(&a), "fetch:p1");
    let (sc, _) = step_check_incoming_mail(sc, MailInboxEvent::Fetched { ok: false });
    let (sc, a) = step_check_incoming_mail(sc, MailInboxEvent::Fetched { ok: true });
    assert_eq!(mail_act(&a), "done");
    assert!(sc.new_inmails.is_empty());
}

fn ack_act(a: &AckInboxAction) -> String {
    match a {
        AckInboxAction::Fetch { pending_ack_address } => format!("fetch:{}", pending_ack_address),
        AckInboxAction::CreateInAck { pending_ack_address, outmail_address } => {
            format!("inack:{}:{}", pending_ack_address, outmail_address)
        },
        AckInboxAction::RemoveLink { pending_ack_address } => format!("unlink:{}", pending_ack_address),
        AckInboxAction::DeleteEntry { pending_ack_address } => format!("delete:{}", pending_ack_address),
        AckInboxAction::Done => s("done"),
    }
}

#[test]
fn incoming_ack_scan() {
    let (sc, a) = start_check_incoming_ack(addrs(&["k1", "k2", "k3"]));
    assert_eq!(ack_act(&a), "fetch:k1");
    let (sc, a) = step_check_incoming_ack(sc, AckInboxEvent::Fetched { outmail_address: Some(s("o1")) });
    assert_eq!(ack_act(&a), "inack:k1:o1");
    let (sc, a) = step_check_incoming_ack(sc, AckInboxEvent::InAckCreated { ok: true });
    assert_eq!(ack_act(&a), "unlink:k1");
    assert_eq!(sc.updated_outmails, addrs(&["o1"]));
    let (sc, a) = step_check_incoming_ack(sc, AckInboxEvent::LinkRemoved { ok: true });
    assert_eq!(ack_act(&a), "delete:k1");
    // a failed deletion still counts the OutMail as updated
    let (sc, a) = step_check_incoming_ack(sc, AckInboxEvent::EntryDeleted { ok: false });
    assert_eq!(ack_act(&a), "fetch:k2");
    // k2: the InAck cannot be made
    let (sc, _) = step_check_incoming_ack(sc, AckInboxEvent::Fetched { outmail_address: Some(s("o2")) });
    let (sc, a) = step_check_incoming_ack(sc, AckInboxEvent::InAckCreated { ok: false });
    assert_eq!(ack_act(&a), "fetch:k3");
    // k3: the InAck is linked, so the OutMail is listed even though the link cannot be removed
    let (sc, _) = step_check_incoming_ack(sc, AckInboxEvent::Fetched { outmail_address: Some(s("o3")) });
    let (sc, a) = step_check_incoming_ack(sc, AckInboxEvent::InAckCreated { ok: true });
    assert_eq!(ack_act(&a), "unlink:k3");
    assert_eq!(sc.updated_outmails, addrs(&["o1", "o3"]));
    let (sc, a) = step_check_incoming_ack(sc, AckInboxEvent::LinkRemoved { ok: false });
    assert_eq!(ack_act(&a), "done");
    assert_eq!(sc.updated_outmails, addrs(&["o1", "o3"]));
}

#[test]
fn incoming_ack_unreadable_is_skipped() {
    let (sc, _) = start_check_incoming_ack(addrs(&["k1"]));
    let (sc, a) = step_check_incoming_ack(sc, AckInboxEvent::Fetched { outmail_address: None });
    assert_eq!(ack_act(&a), "done");
    assert!(sc.updated_outmails.is_empty());
}
