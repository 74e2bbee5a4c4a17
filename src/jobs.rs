//! Descriptors of the well-known background jobs.

use vstd::prelude::*;

use crate::text::same_chars;

verus! {

/// Identifier of the automatic update job.
pub const AUTO_UPDATE_JOB: &'static str = "AUTO_UPDATE";

/// Identifier of the automatic backup job.
pub const AUTO_BACKUP_JOB: &'static str = "AUTO_BACKUP";

/// Deployment settings that the status snapshot reads.
#[derive(Debug, Clone)]
pub struct Config {
    /// The configured server name, if one is set.
    pub name: Option<String>,
    /// Schedule expression of the automatic update job.
    pub auto_update_schedule: String,
    /// Schedule expression of the automatic backup job.
    pub auto_backup_schedule: String,
}

/// A named background job and its schedule expression.
#[derive(Debug, Clone)]
pub struct JobInfo {
    pub name: String,
    pub schedule: String,
}

/// An identifier that names no known job.
#[derive(Debug, Clone)]
pub struct ParseError {
    pub identifier: String,
}

/// The schedule that `config` gives the job `id`, where `id` names a known job.
pub open spec fn job_schedule(id: Seq<char>, config: Config) -> Option<Seq<char>> {
    if id == AUTO_UPDATE_JOB@ {
        Some(config.auto_update_schedule@)
    } else if id == AUTO_BACKUP_JOB@ {
        Some(config.auto_backup_schedule@)
    } else {
        None
    }
}

impl JobInfo {
    /// The descriptor of the known job `id`, with its schedule from `config`.
    pub fn from_identifier(id: &str, config: &Config) -> (r: Result<JobInfo, ParseError>)
        ensures
            match r {
                Ok(job) => job.name@ == id@ && job_schedule(id@, *config) == Some(job.schedule@),
                Err(e) => job_schedule(id@, *config) is None && e.identifier@ == id@,
            },
    {
        if same_chars(id, AUTO_UPDATE_JOB) {
            Ok(JobInfo { name: id.to_owned(), schedule: config.auto_update_schedule.clone() })
        } else if same_chars(id, AUTO_BACKUP_JOB) {
            Ok(JobInfo { name: id.to_owned(), schedule: config.auto_backup_schedule.clone() })
        } else {
            Err(ParseError { identifier: id.to_owned() })
        }
    }
}

} // verus!
