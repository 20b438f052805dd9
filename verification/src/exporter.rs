//! The exporter's half of one scrape: what reply a request is owed.
//!
//! The request loop, the socket it serves and the metrics-text encoder stay
//! with the caller; it hands the encoder's outcome in and sends the reply
//! this module decides. Every request gets a reply, and no outcome ends the
//! serving loop.

use vstd::prelude::*;

use vstd::string::StringExecFns;

verus! {

/// Status code of a reply that carries an encoded snapshot.
pub const STATUS_OK: u16 = 200;

/// Status code of a reply when the snapshot could not be encoded.
pub const STATUS_SERVER_ERROR: u16 = 500;

/// The exact content type a successful reply declares: the OpenMetrics
/// text exposition format, version 1.0.0.
pub open spec fn openmetrics_content_type() -> Seq<char> {
    "application/openmetrics-text; version=1.0.0; charset=utf-8"@
}

/// The reply the exporter owes one scrape request.
pub struct ScrapeReply {
    /// HTTP status code.
    pub status: u16,
    /// Content-Type header value to declare, if any.
    pub content_type: Option<String>,
    /// Response body: the encoded snapshot, or a failure description.
    pub body: String,
}

/// Decide the reply for one scrape request from the encoder's outcome.
///
/// A successfully encoded snapshot is returned as the body under the
/// OpenMetrics content type. An encoding failure becomes a server-error
/// reply whose body carries the failure description and is never empty:
/// an empty description is replaced by a fixed note.
pub fn scrape_reply(encoded: Result<String, String>) -> (r: ScrapeReply)
    ensures
        encoded matches Ok(body) ==> {
            &&& r.status == STATUS_OK
            &&& r.body@ == body@
            &&& r.content_type matches Some(c) && c@ == openmetrics_content_type()
        },
        encoded matches Err(description) ==> {
            &&& r.status == STATUS_SERVER_ERROR
            &&& r.content_type is None
            &&& r.body@ == (if description@.len() == 0 {
                "metrics encoding failed"@
            } else {
                description@
            })
            &&& r.body@.len() > 0
        },
{
    match encoded {
        Ok(body) => ScrapeReply {
            status: STATUS_OK,
            content_type: Some(
                String::from_str("application/openmetrics-text; version=1.0.0; charset=utf-8"),
            ),
            body,
        },
        Err(description) => {
            let body = if description.as_str().is_empty() {
                String::from_str("metrics encoding failed")
            } else {
                description
            };
            proof {
                reveal_strlit("metrics encoding failed");
            }
            ScrapeReply { status: STATUS_SERVER_ERROR, content_type: None, body }
        },
    }
}

} // verus!
