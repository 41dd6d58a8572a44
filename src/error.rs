//! The failures that end one download task.

use vstd::prelude::*;
use crate::text::push_str;

verus! {

/// Why a task failed. Each one aborts only the task that raised it.
#[derive(Debug, Clone, PartialEq, Eq)]
pub enum TaskError {
    /// The text given for a video does not name an episode, season or video.
    InvalidUrl(String),
    /// A network or transport failure while fetching metadata.
    Fetch(String),
    /// The manifest lacks an expected field; the field is named.
    ManifestParse(String),
    /// The manifest lists no video rendition.
    NoVideoStream,
    /// The manifest lists no audio rendition.
    NoAudioStream,
    /// A transfer or file failure while streaming a rendition.
    Download(String),
    /// The muxer could not be started or exited with a failure.
    Merge(String),
}

/// The human-readable text of an error.
pub open spec fn error_text(e: TaskError) -> Seq<char> {
    match e {
        TaskError::InvalidUrl(d) => "invalid URL: "@ + d@,
        TaskError::Fetch(d) => "fetch failed: "@ + d@,
        TaskError::ManifestParse(f) => "manifest field missing: "@ + f@,
        TaskError::NoVideoStream => "no video stream"@,
        TaskError::NoAudioStream => "no audio stream"@,
        TaskError::Download(d) => "download failed: "@ + d@,
        TaskError::Merge(d) => "merge failed: "@ + d@,
    }
}

impl TaskError {
    /// The human-readable text of this error.
    pub fn message(&self) -> (r: String)
        ensures
            r@ == error_text(*self),
    {
        let (head, detail): (&str, &String) = match self {
            TaskError::InvalidUrl(d) => ("invalid URL: ", d),
            TaskError::Fetch(d) => ("fetch failed: ", d),
            TaskError::ManifestParse(f) => ("manifest field missing: ", f),
            TaskError::NoVideoStream => {
                return String::from_str("no video stream");
            },
            TaskError::NoAudioStream => {
                return String::from_str("no audio stream");
            },
            TaskError::Download(d) => ("download failed: ", d),
            TaskError::Merge(d) => ("merge failed: ", d),
        };
        let mut r = String::from_str(head);
        push_str(&mut r, detail.as_str());
        r
    }
}

} // verus!
