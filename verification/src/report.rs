//! Status reporting back to the source-control host: the endpoint address,
//! the log-retrieval address, and the request payload are all computed
//! here.  The unverified shell only performs the POST; a delivery failure
//! is logged and never changes a build's outcome.
use vstd::prelude::*;
use crate::structs::{CIResult, StatusRequestBody};

verus! {

/// The fixed context string identifying this server in status reports,
/// also sent as the user agent.
pub const STATUS_CONTEXT: &'static str = "Custom CI server";

/// The host's commit-status endpoint for one repository and commit.
pub fn status_endpoint(full_name: &str, sha: &str) -> (u: String)
    ensures
        u@ == "https://api.github.com/repos/"@ + full_name@ + "/statuses/"@ + sha@,
{
    let mut u = String::from_str("https://api.github.com/repos/");
    u.append(full_name);
    u.append("/statuses/");
    u.append(sha);
    u
}

/// The operator-facing address under which this build's log is retrievable.
pub fn log_url(base_url: &str, sha: &str) -> (u: String)
    ensures
        u@ == base_url@ + "/logs/"@ + sha@,
{
    let mut u = String::from_str(base_url);
    u.append("/logs/");
    u.append(sha);
    u
}

/// The local file path under which one build's log lines are kept.
pub fn log_path(sha: &str) -> (p: String)
    ensures
        p@ == "logs/"@ + sha@ + ".txt"@,
{
    let mut p = String::from_str("logs/");
    p.append(sha);
    p.append(".txt");
    p
}

/// Everything one status report needs: the endpoint to POST to and the
/// payload, with the fixed context and the log-retrieval link filled in.
pub fn prepare_report(full_name: &str, sha: &str, base_url: &str, result: CIResult) -> (r: (
    String,
    StatusRequestBody,
))
    ensures
        r.0@ == "https://api.github.com/repos/"@ + full_name@ + "/statuses/"@ + sha@,
        r.1.state == result.status,
        r.1.description@ == result.msg@,
        r.1.context@ == "Custom CI server"@,
        r.1.target_url@ == base_url@ + "/logs/"@ + sha@,
{
    let endpoint = status_endpoint(full_name, sha);
    let target = log_url(base_url, sha);
    let body = StatusRequestBody::new(result, STATUS_CONTEXT, target.as_str());
    (endpoint, body)
}

} // verus!
