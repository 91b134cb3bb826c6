//! Notification input handling: the computational part of creating a
//! notification — parsing the target account id and the optional RFC 3339
//! send instant — kept apart from the storage edge.

use vstd::prelude::*;
use crate::tokens::{parse_uuid, uuid_parse};

verus! {

/// Notification creation input as it arrives: the account id and the
/// optional send instant still text.
pub struct CreateNotification {
    pub user_id: String,
    pub content: String,
    pub send_at: Option<String>,
}

/// A notification ready to store: the account id parsed, the send instant
/// as whole seconds since the Unix epoch.
#[derive(Debug)]
pub struct Notification {
    pub user_id: u128,
    pub content: String,
    pub send_at: Option<i64>,
}

/// Why a notification input was refused.
#[derive(Debug, Clone, Copy, PartialEq, Eq, Structural)]
pub enum NotificationError {
    InvalidUserId,
    InvalidDate,
}

/// What `time::OffsetDateTime::parse` with the RFC 3339 format yields for a
/// piece of text: the denoted instant as whole seconds since the Unix
/// epoch, or nothing when the text is not an RFC 3339 date. Parsing is a
/// pure function of the text.
pub uninterp spec fn rfc3339_epoch(s: Seq<char>) -> Option<i64>;

/// Relies on `time::OffsetDateTime::parse` with the RFC 3339 well-known
/// format, converting the parsed instant to its Unix timestamp; a parse
/// failure becomes `None`.
#[verifier::external_body]
fn parse_rfc3339(s: &str) -> (r: Option<i64>)
    ensures
        r == rfc3339_epoch(s@),
{
    time::OffsetDateTime::parse(s, &time::format_description::well_known::Rfc3339)
        .ok()
        .map(|d| d.unix_timestamp())
}

/// Turn raw notification input into a storable notification: the id must
/// be a textual UUID and the send instant, when present, an RFC 3339 date;
/// the id is checked first.
pub fn prepare_notification(req: &CreateNotification) -> (r: Result<
    Notification,
    NotificationError,
>)
    ensures
        r == Err::<Notification, NotificationError>(NotificationError::InvalidUserId)
            <==> uuid_parse(req.user_id@) is None,
        r == Err::<Notification, NotificationError>(NotificationError::InvalidDate) <==> ({
            &&& uuid_parse(req.user_id@) is Some
            &&& req.send_at matches Some(s)
            &&& rfc3339_epoch(s@) is None
        }),
        r matches Ok(n) ==> ({
            &&& uuid_parse(req.user_id@) == Some(n.user_id)
            &&& n.content@ == req.content@
            &&& match req.send_at {
                Some(s) => rfc3339_epoch(s@) == n.send_at && n.send_at is Some,
                None => n.send_at is None,
            }
        }),
{
    let user_id = match parse_uuid(req.user_id.as_str()) {
        Some(v) => v,
        None => {
            return Err(NotificationError::InvalidUserId);
        },
    };
    let send_at = match &req.send_at {
        Some(s) => match parse_rfc3339(s.as_str()) {
            Some(e) => Some(e),
            None => {
                return Err(NotificationError::InvalidDate);
            },
        },
        None => None,
    };
    Ok(Notification { user_id, content: req.content.clone(), send_at })
}

} // verus!
