use snapmail::handle::functions::{get_my_handle_history, ping_agent};
use snapmail::handle::Handle;
use snapmail::mail::entries::inmail::InMail;
use snapmail::mail::entries::outmail::OutMail;
use snapmail::mail::entries::pending_mail::PendingMail;
use snapmail::mail::entries::pending_ack::PendingAck;
use snapmail::mail::entries::ackreceipt_encrypted::AckReceiptEncrypted;
use snapmail::mail::entries::ackreceipt_private::AckReceiptPrivate;
use snapmail::mail::entries::inack::InAck;
use snapmail::mail::entries::outack::OutAck;
use snapmail::mail::entries::{InMailState, Mail, MailState, OutMailState};
use snapmail::mail::functions::acknowledge_mail::acknowledge_mail;
use snapmail::mail::functions::get_all_arrived_mail::get_all_arrived_mail;
use snapmail::mail::functions::get_all_mails::{get_mail, inmail_item, outmail_item};
use snapmail::mail::functions::has_ack_been_received::{has_ack_been_received, CrudStatus};
use snapmail::mail::functions::has_mail_been_received::has_mail_been_received;
use snapmail::mail::receive::{receive_direct_ack, receive_direct_mail};
use snapmail::protocol::{DirectMessageProtocol, MailMessage};
use snapmail::utils::snapmail_now;

fn s(x: &str) -> String {
    x.to_string()
}

fn addrs(xs: &[&str]) -> Vec<String> {
    xs.iter().map(|x| x.to_string()).collect()
}

fn mail(to: &[&str], cc: &[&str]) -> Mail {
    Mail::new(42, s("subject"), s("payload"), addrs(to), addrs(cc))
}

#[test]
fn constructors_keep_fields() {
    let m = mail(&["a"], &["b"]);
    assert_eq!(m.date_sent, 42);
    assert_eq!(m.to, addrs(&["a"]));
    let out = OutMail::new(mail(&["a"], &[]), addrs(&["z"]));
    assert_eq!(out.bcc, addrs(&["z"]));
    let inm = InMail::new(mail(&["me"], &[]), s("bob"), 7);
    assert_eq!(inm.from, "bob");
    assert_eq!(inm.date_received, 7);
    assert_eq!(PendingMail::new(s("x")).encrypted_mail, "x");
    assert_eq!(PendingAck::new(s("om")).outmail_address, "om");
    assert_eq!(AckReceiptEncrypted::new(s("om")).outmail_address, "om");
    assert_eq!(AckReceiptPrivate::new(), AckReceiptPrivate {});
    assert_eq!(InAck::new(), InAck {});
    assert_eq!(OutAck::new(), OutAck {});
}

#[test]
fn outmail_create_is_dated_now() {
    let before = snapmail_now();
    let out = OutMail::create(s("hi"), s("body"), addrs(&["a"]), addrs(&["b"]), addrs(&["c"]));
    let after = snapmail_now();
    assert!(before <= out.mail.date_sent && out.mail.date_sent <= after);
    assert!(before > 1_500_000_000);
    assert_eq!(out.mail.subject, "hi");
    assert_eq!(out.mail.payload, "body");
    assert_eq!(out.bcc, addrs(&["c"]));
}

#[test]
fn inmail_from_direct_message() {
    let msg = MailMessage { outmail_address: s("om"), mail: mail(&["me"], &[]) };
    let inm = InMail::from_direct(s("bob"), msg, 99);
    assert_eq!(inm.from, "bob");
    assert_eq!(inm.date_received, 99);
    assert_eq!(inm.mail.subject, "subject");
}

#[test]
fn pending_mail_holds_the_encrypted_mail() {
    let pending = PendingMail::create(s("ciphertext-for-bob"));
    assert_eq!(pending.encrypted_mail, "ciphertext-for-bob");
}

#[test]
fn pendings_for_cc_then_bcc() {
    let out = OutMail::new(mail(&["a"], &["b", "c"]), addrs(&["d"]));
    assert_eq!(out.generate_pendings(), addrs(&["b", "c", "d"]));
    let none = OutMail::new(mail(&["a"], &[]), Vec::new());
    assert!(none.generate_pendings().is_empty());
}

#[test]
fn mail_received_by_all() {
    let out = OutMail::new(mail(&["a", "b"], &["c"]), addrs(&["d"]));
    assert_eq!(has_mail_been_received(&out, &addrs(&["d", "c", "b", "a", "x"])), Ok(()));
}

#[test]
fn mail_missing_receipts_in_order() {
    let out = OutMail::new(mail(&["a", "b"], &["c"]), addrs(&["d"]));
    assert_eq!(has_mail_been_received(&out, &addrs(&["b"])), Err(addrs(&["a", "c", "d"])));
    assert_eq!(has_mail_been_received(&out, &Vec::new()), Err(addrs(&["a", "b", "c", "d"])));
    let dup = OutMail::new(mail(&["a"], &["a"]), Vec::new());
    assert_eq!(has_mail_been_received(&dup, &Vec::new()), Err(addrs(&["a", "a"])));
}

#[test]
fn acknowledgement_precheck() {
    assert_eq!(acknowledge_mail(0, 0), Ok(()));
    assert_eq!(acknowledge_mail(1, 0), Err(s("Mail has already been acknowledged (private)")));
    assert_eq!(acknowledge_mail(2, 3), Err(s("Mail has already been acknowledged (private)")));
    assert_eq!(acknowledge_mail(0, 1), Err(s("Mail has already been acknowledged (encrypted)")));
}

#[test]
fn arrived_mail_is_unacknowledged() {
    let inmails = vec![(s("m1"), 0usize), (s("m2"), 1), (s("m3"), 0), (s("m4"), 5)];
    assert_eq!(get_all_arrived_mail(&inmails), addrs(&["m1", "m3"]));
    assert!(get_all_arrived_mail(&Vec::new()).is_empty());
}

#[test]
fn ack_received_rules() {
    assert_eq!(
        has_ack_been_received(0, 1, &None),
        Err(s("No acknowledgment has been sent for this mail"))
    );
    assert_eq!(has_ack_been_received(1, 0, &None), Ok(true));
    assert_eq!(has_ack_been_received(1, 1, &None), Err(s("No history found for PendingAck")));
    let live = Some(vec![Some(CrudStatus::Live), None, Some(CrudStatus::Modified)]);
    assert_eq!(has_ack_been_received(1, 1, &live), Ok(false));
    let deleted = Some(vec![Some(CrudStatus::Live), Some(CrudStatus::Deleted)]);
    assert_eq!(has_ack_been_received(2, 1, &deleted), Ok(true));
    assert_eq!(has_ack_been_received(1, 1, &Some(Vec::new())), Ok(false));
}

#[test]
fn direct_message_answers() {
    assert!(matches!(receive_direct_mail(true), DirectMessageProtocol::Success(ref t) if t.is_empty()));
    assert!(matches!(receive_direct_mail(false), DirectMessageProtocol::Failure(ref t) if t == "Failed committing InMail"));
    assert!(matches!(receive_direct_ack(true), DirectMessageProtocol::Success(ref t) if t.is_empty()));
    assert!(matches!(receive_direct_ack(false), DirectMessageProtocol::Failure(ref t) if t == "Failed committing InAck"));
}

#[test]
fn ping_needs_success() {
    assert!(ping_agent(&Some(DirectMessageProtocol::Success(s("pong")))));
    assert!(!ping_agent(&Some(DirectMessageProtocol::Failure(s("no")))));
    assert!(!ping_agent(&Some(DirectMessageProtocol::Ping)));
    assert!(!ping_agent(&None));
}

#[test]
fn handle_history_names() {
    let history = vec![Handle::new(s("alice")), Handle::new(s("alicia"))];
    assert_eq!(get_my_handle_history(history), addrs(&["alice", "alicia"]));
    assert!(get_my_handle_history(Vec::new()).is_empty());
}

#[test]
fn mail_items() {
    let inm = InMail::new(mail(&["me"], &[]), s("bob"), 7);
    let item = inmail_item(s("addr1"), inm, InMailState::Arrived, 1000);
    assert_eq!(item.author, "bob");
    assert_eq!(item.address, "addr1");
    assert!(item.bcc.is_empty());
    assert_eq!(item.state, MailState::In(InMailState::Arrived));
    assert_eq!(item.date, 1000);
    let out = OutMail::new(mail(&["a"], &[]), addrs(&["z"]));
    let item = outmail_item(s("addr2"), s("me"), out, OutMailState::Pending, -5);
    assert_eq!(item.author, "me");
    assert_eq!(item.bcc, addrs(&["z"]));
    assert_eq!(item.state, MailState::Out(OutMailState::Pending));
}

#[test]
fn get_mail_prefers_inmail() {
    let inm = InMail::new(mail(&["me"], &[]), s("bob"), 7);
    let out = OutMail::new(mail(&["a"], &[]), Vec::new());
    assert!(matches!(get_mail(Some(inm), Some(out)), Some(Ok(_))));
    let out = OutMail::new(mail(&["a"], &[]), Vec::new());
    assert!(matches!(get_mail(None, Some(out)), Some(Err(_))));
    assert!(get_mail(None, None).is_none());
}

#[test]
fn second_acknowledgement_is_refused() {
    // the first acknowledgement writes one encrypted receipt link
    assert_eq!(acknowledge_mail(0, 0), Ok(()));
    assert_eq!(acknowledge_mail(0, 0 + 1), Err(s("Mail has already been acknowledged (encrypted)")));
}
