use vstd::prelude::*;
use vstd::string::StringExecFns;

verus! {

/// A playback-progress report, broadcast to every window so the main
/// window can persist it. The position is carried in whole milliseconds;
/// the window shell converts it to seconds at its boundary.
pub struct ProgressPayload {
    pub server_id: String,
    pub content_type: String,
    pub content_id: i64,
    pub progress_millis: i64,
}

/// Packages a progress report: the payload carries exactly the four
/// supplied fields, unchanged.
pub fn progress_payload(
    server_id: String,
    content_type: String,
    content_id: i64,
    progress_millis: i64,
) -> (p: ProgressPayload)
    ensures
        p.server_id == server_id,
        p.content_type == content_type,
        p.content_id == content_id,
        p.progress_millis == progress_millis,
{
    ProgressPayload { server_id, content_type, content_id, progress_millis }
}

/// The name under which a progress report is broadcast; never empty.
pub fn progress_event_name() -> (r: String)
    ensures
        r@ == "playback-progress"@,
        r@.len() > 0,
{
    proof {
        reveal_strlit("playback-progress");
    }
    String::from_str("playback-progress")
}

} // verus!
