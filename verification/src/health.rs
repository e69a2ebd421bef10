//! The record that the liveness route reports, and its wire form.

use vstd::prelude::*;
use vstd::string::*;

verus! {

/// The wire form of the record: a JSON object with the one member `status`.
pub open spec fn health_body() -> Seq<char> {
    "{\"status\":\"ok\"}"@
}

/// The media type under which the record is sent.
pub open spec fn json_media_type() -> Seq<char> {
    "application/json"@
}

/// What the service says of itself.
#[derive(Debug)]
pub struct HealthResponse {
    pub status: String,
}

impl HealthResponse {
    /// The service has one thing to report: that it is up.
    pub open spec fn wf(&self) -> bool {
        self.status@ == "ok"@
    }

    /// Writes the record as JSON text: the member name, then the status as a
    /// JSON string. A well-formed status holds no character that JSON escapes.
    pub fn to_json(&self) -> (body: String)
        requires
            self.wf(),
        ensures
            body@ == health_body(),
    {
        let mut body = String::from_str("{\"status\":\"");
        body.append(self.status.as_str());
        body.append("\"}");
        proof {
            reveal_strlit("{\"status\":\"");
            reveal_strlit("ok");
            reveal_strlit("\"}");
            reveal_strlit("{\"status\":\"ok\"}");
            assert(body@ =~= health_body());
        }
        body
    }
}

/// What goes back to the caller of a route: a body and the media type that
/// it is declared as.
#[derive(Debug)]
pub struct Payload {
    pub content_type: String,
    pub body: String,
}

/// Answers a liveness probe. The answer depends on nothing: not on the
/// request, not on an earlier call.
pub fn health_handler() -> (r: HealthResponse)
    ensures
        r.wf(),
{
    HealthResponse { status: String::from_str("ok") }
}

/// The liveness answer as it is sent.
pub fn health_payload() -> (p: Payload)
    ensures
        p.content_type@ == json_media_type(),
        p.body@ == health_body(),
{
    let record = health_handler();
    Payload { content_type: String::from_str("application/json"), body: record.to_json() }
}

} // verus!
