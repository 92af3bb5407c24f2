//! The digest as it is handed to the mail transport.

use crate::reader_config::EmailConfig;
use crate::thought::{digest_html, views, Thought, ThoughtsEmailBody};
use vstd::prelude::*;

verus! {

/// The name under which digests are sent.
pub const SENDER_NAME: &'static str = "Thought App";

/// The subject of every digest.
pub const SUBJECT: &'static str = "Thought App, Weekly Round up";

/// One digest, ready to be sent: who it is from, who it is for, and what it
/// says.
#[derive(Debug)]
pub struct Digest {
    pub from_name: String,
    pub from_address: String,
    pub to_name: String,
    pub to_address: String,
    pub subject: String,
    pub body: String,
}

/// Makes the digest of a batch. The body lists the whole batch, or says
/// that there is nothing to report where the batch is empty.
pub fn compose_digest(thoughts: &[Thought], config: &EmailConfig) -> (digest: Digest)
    ensures
        digest.from_name@ == SENDER_NAME@,
        digest.from_address@ == config@.sender_email,
        digest.to_name@ == config@.name,
        digest.to_address@ == config@.receiver_email,
        digest.subject@ == SUBJECT@,
        digest.body@ == digest_html(views(thoughts@)),
{
    Digest {
        from_name: SENDER_NAME.to_owned(),
        from_address: config.sender_email().clone(),
        to_name: config.name().clone(),
        to_address: config.receiver_email().clone(),
        subject: SUBJECT.to_owned(),
        body: ThoughtsEmailBody::new(thoughts).body_text(),
    }
}

} // verus!
