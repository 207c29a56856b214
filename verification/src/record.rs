//! The record kept for one player process under supervision.

use vstd::prelude::*;

verus! {

/// One player instance under supervision.
///
/// `id` is the operating-system process identifier of a spawned instance;
/// the value `0` is a reserved sentinel that marks a reuse report for an
/// externally running instance, which is never entered into the registry.
/// `start_time` holds wall-clock seconds at registration and is `0` for the
/// reuse sentinel.  `last_known_time` is a reserved playback-position field
/// that no operation ever populates.  `title` and `thumbnail` are display
/// metadata passed through unchanged.
pub struct MpvProcess {
    pub id: u32,
    pub url: String,
    pub start_time: u64,
    pub last_known_time: Option<u64>,
    pub title: String,
    pub thumbnail: Option<String>,
}

impl Clone for MpvProcess {
    fn clone(&self) -> (r: Self)
        ensures
            r == *self,
    {
        MpvProcess {
            id: self.id,
            url: self.url.clone(),
            start_time: self.start_time,
            last_known_time: self.last_known_time,
            title: self.title.clone(),
            thumbnail: match &self.thumbnail {
                Some(t) => Some(t.clone()),
                None => None,
            },
        }
    }
}

/// The record reported for a reuse of an externally running instance:
/// the reserved identifier `0`, no start time, and the metadata supplied
/// with the request.
pub open spec fn reuse_record(url: String, title: String, thumbnail: Option<String>) -> MpvProcess {
    MpvProcess {
        id: 0,
        url: url,
        start_time: 0,
        last_known_time: None,
        title: title,
        thumbnail: thumbnail,
    }
}

/// The record registered for a freshly spawned process: the process
/// identifier the operating system assigned, the registration time in
/// wall-clock seconds, and the metadata supplied with the request.
pub open spec fn spawned_record(
    pid: u32,
    now: u64,
    url: String,
    title: String,
    thumbnail: Option<String>,
) -> MpvProcess {
    MpvProcess {
        id: pid,
        url: url,
        start_time: now,
        last_known_time: None,
        title: title,
        thumbnail: thumbnail,
    }
}

} // verus!
