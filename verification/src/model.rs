//! API response models for data returned from the various Healthchecks APIs.

use vstd::prelude::*;
use vstd::string::StrSliceExecFns;
use crate::text::characters;

verus! {

/// This struct encapsulates a check as represented in the healthchecks.io
/// API. Fields marked optional are either optional in the default API response
/// or can be present or missing if a read-only API key is used.
#[derive(Clone, Debug, PartialEq, Eq)]
pub struct Check {
    /// Name of the check.
    pub name: String,
    /// Space separated list of tags set on this check.
    pub tags: String,
    /// Description of the check.
    pub desc: String,
    /// When a check is late, how long to wait until an alert is sent.
    pub grace: i64,
    /// Number of times the check has pinged healthchecks.io.
    pub n_pings: i64,
    /// Current status of the check.
    pub status: String,
    /// UTC timestamp of the last known ping.
    pub last_ping: Option<String>,
    /// UTC timestamp of the next expected ping based on grace period. Will be
    /// [`None`] in case no grace period is set.
    pub next_ping: Option<String>,
    /// Indicates if the ping has been manually paused and will not resume
    /// automatically on a new ping.
    pub manual_resume: bool,
    /// A GET request to this URL is a valid ping for this check. This field
    /// is [`None`] if a read-only API token is used.
    pub ping_url: Option<String>,
    /// URL to GET this specific check or POST an updated version. This field
    /// is [`None`] if a read-only API token is used.
    pub update_url: Option<String>,
    /// URL to pause monitoring for this check. This field is [`None`] if a
    /// read-only API token is used.
    pub pause_url: Option<String>,
    /// Comma-separated list of IDs of the integration channels associated
    /// with this check.
    pub channels: Option<String>,
    /// Expected time between pings, in seconds.
    pub timeout: Option<i64>,
    /// A cron expression defining this check's schedule.
    pub schedule: Option<String>,
    /// The timezone for the server which pings for this check's status.
    pub tz: Option<String>,
    /// A stable identifier generated when using a read-only API key.
    pub unique_key: Option<String>,
}

/// `segment` is what follows the last `/` of `url`, or all of `url` where it
/// holds no `/`.
pub open spec fn is_last_segment(url: Seq<char>, segment: Seq<char>) -> bool {
    &&& segment.len() <= url.len()
    &&& url.subrange(url.len() - segment.len(), url.len() as int) == segment
    &&& !segment.contains('/')
    &&& segment.len() < url.len() ==> url[url.len() - segment.len() - 1] == '/'
}

/// A URL has exactly one last segment.
pub proof fn lemma_last_segment_is_unique(url: Seq<char>, first: Seq<char>, second: Seq<char>)
    requires
        is_last_segment(url, first),
        is_last_segment(url, second),
    ensures
        first == second,
{
    if first.len() < second.len() {
        assert(second[second.len() - first.len() - 1] == url[url.len() - first.len() - 1]);
    } else if second.len() < first.len() {
        assert(first[first.len() - second.len() - 1] == url[url.len() - second.len() - 1]);
    }
}

impl Check {
    /// Get the unique identifier of a [`Check`]: the last path segment of its
    /// ping URL.
    #[must_use]
    pub fn id(&self) -> (id: Option<String>)
        ensures
            match id {
                Some(segment) => self.ping_url matches Some(url) && is_last_segment(
                    url@,
                    segment@,
                ),
                None => self.ping_url is None,
            },
    {
        match &self.ping_url {
            Some(url) => {
                let chars = characters(url.as_str());
                let mut start: usize = 0;
                let mut i: usize = 0;
                while i < chars.len()
                    invariant
                        start <= i <= chars@.len(),
                        start > 0 ==> chars@[start - 1] == '/',
                        forall|j: int| start <= j < i ==> chars@[j] != '/',
                    decreases chars@.len() - i,
                {
                    if chars[i] == '/' {
                        start = i + 1;
                    }
                    i = i + 1;
                }
                let segment = url.as_str().substring_char(start, chars.len());
                assert(!segment@.contains('/')) by {
                    assert forall|j: int| 0 <= j < segment@.len() implies segment@[j] != '/' by {
                        assert(segment@[j] == chars@[start + j]);
                    }
                }
                Some(segment.to_owned())
            },
            None => None,
        }
    }
}

/// Represents an integration, like email or sms.
#[derive(Clone, Debug, PartialEq, Eq)]
pub struct Channel {
    /// UUID for this integration.
    pub id: String,
    /// "Pretty name" for the integration, typically shown in the
    /// healthchecks web UI.
    pub name: String,
    /// Type of integration, such as "telegram" or "email".
    pub kind: String,
}

/// Represents a new check that is initialized locally then created on
/// healthchecks.io using the admin API. It skips over many fields from the
/// [`Check`] struct that are generated server-side by healthchecks.
#[derive(Clone, Debug, PartialEq, Eq)]
pub struct NewCheck {
    /// Name of the check.
    pub name: Option<String>,
    /// Space separated list of tags set on this check.
    pub tags: Option<String>,
    /// Description of the check.
    pub desc: Option<String>,
    /// Expected time between pings, in seconds.
    pub timeout: Option<i32>,
    /// When a check is late, how long to wait until an alert is sent.
    pub grace: Option<i32>,
    /// A cron expression defining this check's schedule.
    pub schedule: Option<String>,
    /// The timezone for the server which pings for this check's status.
    pub tz: Option<String>,
    /// Indicates if the ping has been manually paused and will not resume
    /// automatically on a new ping.
    pub manual_resume: Option<String>,
    /// Comma-separated list of IDs of the integration channels associated
    /// with this check.
    pub channels: Option<String>,
    /// List of fields that must be unique before the check is created.
    pub unique: Option<Vec<String>>,
}

impl Default for NewCheck {
    /// A new check that sets nothing.
    fn default() -> (check: NewCheck)
        ensures
            check.name is None,
            check.tags is None,
            check.desc is None,
            check.timeout is None,
            check.grace is None,
            check.schedule is None,
            check.tz is None,
            check.manual_resume is None,
            check.channels is None,
            check.unique is None,
    {
        NewCheck {
            name: None,
            tags: None,
            desc: None,
            timeout: None,
            grace: None,
            schedule: None,
            tz: None,
            manual_resume: None,
            channels: None,
            unique: None,
        }
    }
}

/// Represents an existing check which needs some or all of its values
/// updated on the healthchecks server. Fields that do not need updates
/// should be set to [`None`] and will be skipped from serialization.
#[derive(Clone, Debug, PartialEq, Eq)]
pub struct UpdatedCheck {
    /// Name of the check.
    pub name: Option<String>,
    /// Space separated list of tags set on this check.
    pub tags: Option<String>,
    /// Description of the check.
    pub desc: Option<String>,
    /// Expected time between pings, in seconds.
    pub timeout: Option<i32>,
    /// When a check is late, how long to wait until an alert is sent.
    pub grace: Option<i32>,
    /// A cron expression defining this check's schedule.
    pub schedule: Option<String>,
    /// The timezone for the server which pings for this check's status.
    pub tz: Option<String>,
    /// Indicates if the ping has been manually paused and will not resume
    /// automatically on a new ping.
    pub manual_resume: Option<String>,
    /// Comma-separated list of IDs of the integration channels associated
    /// with this check.
    pub channels: Option<String>,
}

impl Default for UpdatedCheck {
    /// An update that changes nothing.
    fn default() -> (check: UpdatedCheck)
        ensures
            check.name is None,
            check.tags is None,
            check.desc is None,
            check.timeout is None,
            check.grace is None,
            check.schedule is None,
            check.tz is None,
            check.manual_resume is None,
            check.channels is None,
    {
        UpdatedCheck {
            name: None,
            tags: None,
            desc: None,
            timeout: None,
            grace: None,
            schedule: None,
            tz: None,
            manual_resume: None,
            channels: None,
        }
    }
}

/// Represents a "flip" in state this check has experienced. This event
/// is generated when a check transitions between the up and down state.
#[derive(Clone, Debug, PartialEq, Eq)]
pub struct Flip {
    /// RFC3339 timestamp for when the change occured
    pub timestamp: String,
    /// 1 or 0 depending on whether or not the 'flip' changed the check's
    /// status to 'up' or 'down' respectively.
    pub up: i64,
}

} // verus!
