use vstd::prelude::*;
use crate::status::ok_status_text;

verus! {

/// The answer of the health check.
#[derive(Clone, Debug)]
pub struct HelthCheckResponse {
    pub status_code: String,
    pub message: String,
}

impl HelthCheckResponse {
    /// The answer once the database, the graph and the search index all answered.
    pub fn running() -> (r: Self)
        ensures
            r.status_code@ == "200 OK"@,
            r.message@ == "DashiShoyu server is running."@,
    {
        HelthCheckResponse {
            status_code: ok_status_text(),
            message: String::from_str("DashiShoyu server is running."),
        }
    }
}

} // verus!
