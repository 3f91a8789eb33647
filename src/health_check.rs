use vstd::prelude::*;

use crate::config::AppConfig;
use crate::error::AppError;
use crate::json::Json;
use crate::protocol::{ToolResult, SERVER_NAME, SERVER_VERSION};

verus! {

/// The report of a healthy server: its name, its version and its status.
pub open spec fn health_status() -> Seq<char> {
    "server: "@ + SERVER_NAME@ + "\nversion: "@ + SERVER_VERSION@ + "\nstatus: healthy"@
}

/// `t` is the health report: one text block holding the status, no error flag.
pub open spec fn is_health_report(t: ToolResult) -> bool {
    &&& t.content@.len() == 1
    &&& t.content@[0].content_type@ == "text"@
    &&& t.content@[0].text@ == health_status()
    &&& t.is_error is None
}

/// The `health_check` tool: reports that the server runs, and its version.
/// It takes no arguments and ignores any it is given.
pub fn health_check(_config: &AppConfig, _args: Json) -> (r: Result<ToolResult, AppError>)
    ensures
        r matches Ok(t) && is_health_report(t),
{
    let status = String::from_str("server: ").concat(SERVER_NAME).concat("\nversion: ").concat(
        SERVER_VERSION,
    ).concat("\nstatus: healthy");
    Ok(ToolResult::success(status))
}

} // verus!
