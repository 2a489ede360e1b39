use vstd::prelude::*;

verus! {

/// Address of the liveness endpoint. The companion's host and port are fixed
/// rather than negotiated with the spawned process, a known limitation.
pub const HEALTH_URL: &'static str = "http://localhost:4243/api/health";

/// Address of the status endpoint.
pub const STATUS_URL: &'static str = "http://localhost:4243/api/status";

/// How a GET against the liveness endpoint ended.
#[derive(Clone, Copy, Debug, PartialEq, Eq, Structural)]
pub enum HealthReply {
    /// A response came back with this HTTP status code.
    Status(u16),
    /// The request could not be completed (refused, timed out, no address).
    Unreachable,
}

/// How a GET against the status endpoint ended.
pub enum StatusReply {
    /// A response came back and its body was read as text.
    Body(String),
    /// A response came back but its body could not be read as text; the
    /// transport's message.
    Undecodable(String),
    /// The request could not be completed; the transport's message.
    Unreachable(String),
}

/// A success-class HTTP status code.
pub open spec fn is_success_spec(code: u16) -> bool {
    200 <= code < 300
}

/// Whether an HTTP status code is success-class (200 to 299).
pub fn is_success_status(code: u16) -> (r: bool)
    ensures
        r == is_success_spec(code),
{
    200 <= code && code < 300
}

/// What a health check reports for a reply.
pub open spec fn health_spec(reply: HealthReply) -> Result<bool, String> {
    match reply {
        HealthReply::Status(code) => Ok(is_success_spec(code)),
        HealthReply::Unreachable => Ok(false),
    }
}

/// Reads a health check's reply: healthy on a success status, not healthy
/// on any other status, and not healthy, without an error, when the request
/// itself failed.
pub fn check_api_health(reply: HealthReply) -> (r: Result<bool, String>)
    ensures
        r == health_spec(reply),
        r is Ok,
{
    match reply {
        HealthReply::Status(code) => Ok(is_success_status(code)),
        HealthReply::Unreachable => Ok(false),
    }
}

/// What a status query reports for a reply, as character sequences.
pub open spec fn status_spec(reply: StatusReply) -> Result<Seq<char>, Seq<char>> {
    match reply {
        StatusReply::Body(b) => Ok(b@),
        StatusReply::Undecodable(m) => Err(m@),
        StatusReply::Unreachable(m) => Err(m@),
    }
}

/// Reads a status query's reply: the body verbatim, or the failure's message
/// when the request failed or the body was not text.
pub fn get_system_status(reply: StatusReply) -> (r: Result<String, String>)
    ensures
        status_spec(reply) == match r {
            Ok(b) => Ok::<Seq<char>, Seq<char>>(b@),
            Err(m) => Err::<Seq<char>, Seq<char>>(m@),
        },
{
    match reply {
        StatusReply::Body(b) => Ok(b),
        StatusReply::Undecodable(m) => Err(m),
        StatusReply::Unreachable(m) => Err(m),
    }
}

/// With nothing listening, a health check reports `false` without an error,
/// while a status query reports an error rather than an empty success.
pub proof fn lemma_unreachable_asymmetry(message: String)
    ensures
        health_spec(HealthReply::Unreachable) == Ok::<bool, String>(false),
        status_spec(StatusReply::Unreachable(message)) is Err,
{
}

} // verus!
