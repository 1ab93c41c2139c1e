//! The boundary at which notifications arrive: what a push event carries,
//! and the signature that each of them has to carry.

use crate::change::ChangeNotification;
use crate::error::{MonitorError, Result};
use crate::github::parsed_repository_url;
use crate::signature::{signature_accepted, signature_prefix, verify};
use vstd::prelude::*;
use vstd::utf8::encode_utf8;

verus! {

/// A push event as the repository host sends it.
#[derive(Debug, Clone, PartialEq, Eq)]
pub struct WebhookPayload {
    /// The reference that was pushed to, `ref` on the wire.
    pub git_ref: String,
    pub repository: Repository,
    pub commits: Vec<Commit>,
}

/// The repository that an event is about.
#[derive(Debug, Clone, PartialEq, Eq)]
pub struct Repository {
    pub full_name: String,
    pub clone_url: String,
}

/// One commit of a push event, with the paths it added, modified and removed.
#[derive(Debug, Clone, PartialEq, Eq)]
pub struct Commit {
    pub id: String,
    pub message: String,
    pub added: Vec<String>,
    pub modified: Vec<String>,
    pub removed: Vec<String>,
}

/// The receiving end of the webhook, which knows the shared secret.
pub struct WebhookServer {
    secret: String,
}

impl WebhookServer {
    /// The secret that notifications are signed with.
    pub closed spec fn secret_text(&self) -> Seq<char> {
        self.secret@
    }

    /// A server that accepts what is signed with `secret`.
    pub fn new(secret: String) -> (server: Self)
        ensures
            server.secret_text() == secret@,
    {
        WebhookServer { secret }
    }

    /// Whether `signature` is the signature of the raw bytes `payload` under
    /// the shared secret. A malformed signature is an expected input: the
    /// answer is `Ok(false)`, and no input gives an error.
    pub fn validate_signature(&self, payload: &[u8], signature: &str) -> (r: Result<bool>)
        ensures
            r matches Ok(valid) && valid == signature_accepted(
                payload@,
                encode_utf8(signature@),
                encode_utf8(self.secret_text()),
            ),
            r matches Ok(valid) && valid ==> {
                &&& encode_utf8(signature@).len() == signature_prefix().len() + 64
                &&& signature_prefix().is_prefix_of(encode_utf8(signature@))
            },
    {
        Ok(verify(payload, signature, self.secret.as_str()))
    }

    /// Turns a push event into the notification that a deployment cycle
    /// consumes.
    pub fn process_payload(&self, payload: WebhookPayload) -> (r: Result<ChangeNotification>)
        ensures
            match r {
                Ok(n) => {
                    &&& parsed_repository_url(payload.repository.clone_url@) == Ok::<
                        _,
                        Seq<char>,
                    >(n.identity())
                    &&& n.ref_text() == payload.git_ref@
                    &&& n.changes().len() == payload.commits@.len()
                    &&& forall|i: int|
                        0 <= i < n.changes().len() ==> (#[trigger] n.changes()[i]).stands_for(
                            payload.commits@[i],
                        ) && n.changes()[i].wf()
                },
                Err(e) => {
                    &&& e matches MonitorError::WebhookValidation(m)
                    &&& parsed_repository_url(payload.repository.clone_url@) == Err::<
                        (Seq<char>, Seq<char>),
                        _,
                    >(m@)
                },
            },
    {
        ChangeNotification::from_payload(&payload)
    }
}

} // verus!
