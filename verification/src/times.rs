//! Timestamp attribute selection and age evaluation.
//!
//! Timestamps are counts of whole seconds since the epoch, as the caller
//! read them from file metadata; an attribute the platform or filesystem
//! does not expose arrives as `None` and resolving it fails. Ages are floored
//! to whole seconds, and a timestamp after `now` (clock skew, future-dated
//! file) is clamped to age zero rather than treated as an error.

use vstd::prelude::*;

use crate::text::str_eq;

verus! {

/// The file timestamp attribute a scan compares.
#[derive(Clone, Copy, Debug, PartialEq, Eq, Structural)]
pub enum TimeAttr {
    /// Last access time.
    Atime,
    /// Creation time.
    Ctime,
    /// Last modification time.
    Mtime,
}

/// The name of an attribute, as it is configured and reported.
pub open spec fn attr_name(a: TimeAttr) -> Seq<char> {
    match a {
        TimeAttr::Atime => "atime"@,
        TimeAttr::Ctime => "ctime"@,
        TimeAttr::Mtime => "mtime"@,
    }
}

/// The attribute an identifier names exactly, `None` otherwise.
pub open spec fn attr_of(id: Seq<char>) -> Option<TimeAttr> {
    if id == "atime"@ {
        Some(TimeAttr::Atime)
    } else if id == "ctime"@ {
        Some(TimeAttr::Ctime)
    } else if id == "mtime"@ {
        Some(TimeAttr::Mtime)
    } else {
        None
    }
}

/// A file's timestamps in seconds since the epoch, one per attribute;
/// `None` where the platform or filesystem does not expose the attribute.
#[derive(Clone, Copy, Debug)]
pub struct FileTimes {
    /// Last access time.
    pub atime: Option<u64>,
    /// Creation time.
    pub ctime: Option<u64>,
    /// Last modification time.
    pub mtime: Option<u64>,
}

/// The timestamp a given attribute selects from a file's metadata.
pub open spec fn resolved_time(attr: TimeAttr, times: FileTimes) -> Option<u64> {
    match attr {
        TimeAttr::Atime => times.atime,
        TimeAttr::Ctime => times.ctime,
        TimeAttr::Mtime => times.mtime,
    }
}

/// The age of a timestamp at `now`, in whole seconds, clamped to zero when
/// the timestamp lies after `now`.
pub open spec fn spec_age(now: u64, ts: u64) -> u64 {
    if ts <= now {
        (now - ts) as u64
    } else {
        0
    }
}

/// Whether an age qualifies against a threshold: strictly older only.
pub open spec fn spec_qualifies(age: u64, threshold: u64) -> bool {
    age > threshold
}

/// Resolving a timestamp failed.
#[derive(Clone, Copy, Debug, PartialEq, Eq, Structural)]
pub enum ResolveError {
    /// The filesystem or platform does not expose the requested attribute.
    AttributeUnavailable,
}

impl TimeAttr {
    /// The identifier this attribute answers to.
    pub fn name(&self) -> (r: &'static str)
        ensures
            r@ == attr_name(*self),
    {
        match self {
            TimeAttr::Atime => "atime",
            TimeAttr::Ctime => "ctime",
            TimeAttr::Mtime => "mtime",
        }
    }
}

/// Match an identifier against the attribute names, exactly.
pub fn parse_attr(id: &str) -> (r: Option<TimeAttr>)
    ensures
        r == attr_of(id@),
{
    if str_eq(id, "atime") {
        Some(TimeAttr::Atime)
    } else if str_eq(id, "ctime") {
        Some(TimeAttr::Ctime)
    } else if str_eq(id, "mtime") {
        Some(TimeAttr::Mtime)
    } else {
        None
    }
}

/// Select the configured attribute's timestamp from a file's metadata.
///
/// Fails exactly when the attribute is not exposed; the failure is surfaced
/// to the caller, never defaulted.
pub fn resolve_timestamp(attr: TimeAttr, times: &FileTimes) -> (r: Result<u64, ResolveError>)
    ensures
        r is Ok <==> resolved_time(attr, *times) is Some,
        r is Ok ==> r->Ok_0 == resolved_time(attr, *times)->Some_0,
        r is Err ==> r->Err_0 == ResolveError::AttributeUnavailable,
{
    let picked = match attr {
        TimeAttr::Atime => times.atime,
        TimeAttr::Ctime => times.ctime,
        TimeAttr::Mtime => times.mtime,
    };
    match picked {
        Some(ts) => Ok(ts),
        None => Err(ResolveError::AttributeUnavailable),
    }
}

/// The age of a timestamp at `now`, floored to whole seconds and clamped to
/// zero for a timestamp after `now`.
pub fn age_seconds(now: u64, ts: u64) -> (r: u64)
    ensures
        r == spec_age(now, ts),
{
    if ts <= now {
        now - ts
    } else {
        0
    }
}

/// Whether a file of this age qualifies: its age must strictly exceed the
/// threshold.
pub fn qualifies(age: u64, threshold: u64) -> (r: bool)
    ensures
        r == spec_qualifies(age, threshold),
{
    age > threshold
}

/// Law: a file whose age equals the threshold does not qualify, and one a
/// single second older does.
pub proof fn lemma_threshold_is_strict(threshold: u64)
    requires
        threshold < u64::MAX,
    ensures
        !spec_qualifies(threshold, threshold),
        spec_qualifies((threshold + 1) as u64, threshold),
{
}

} // verus!
