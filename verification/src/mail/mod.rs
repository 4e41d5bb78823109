//! Mails: their entries, sending, receiving and acknowledgement.
pub mod entries;
pub mod functions;
pub mod receive;
