//! Decisions of the mail zome functions.
pub mod has_mail_been_received;
pub mod send_mail;
pub mod check_incoming_ack;
pub mod check_incoming_mail;
pub mod acknowledge_mail;
pub mod get_all_arrived_mail;
pub mod has_ack_been_received;
pub mod get_all_mails;
