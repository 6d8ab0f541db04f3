//! Reports that members and server owners can read and download.

use vstd::prelude::*;
use crate::models::member::Member;
use crate::time::Timestamp;

verus! {

/// One activity of a member.
pub struct ActivityReportItem {
    pub entity: String,
    pub description: String,
    pub timestamp: Timestamp,
}

/// One member of a server and when they joined.
pub struct ServerMemberReportItem {
    pub member: Member,
    pub timestamp: Timestamp,
}

/// A report as a CSV file.
pub struct CsvDownload {
    pub filename: String,
    pub content: String,
}

} // verus!
