//! The shapes a per-source pipeline run produces: the normalized release
//! record, the per-source outcome, and the intermediate step value.

use vstd::prelude::*;

verus! {

/// One normalized release: the single shape both source kinds converge on.
#[derive(Debug, Clone)]
pub struct ReleaseRecord {
    pub title: String,
    pub body: String,
    pub link: String,
    pub published_at: i64,
}

/// The mathematical value of a `ReleaseRecord`.
pub ghost struct ReleaseRecordV {
    pub title: Seq<char>,
    pub body: Seq<char>,
    pub link: Seq<char>,
    pub published_at: i64,
}

impl View for ReleaseRecord {
    type V = ReleaseRecordV;

    open spec fn view(&self) -> ReleaseRecordV {
        ReleaseRecordV {
            title: self.title@,
            body: self.body@,
            link: self.link@,
            published_at: self.published_at,
        }
    }
}

/// Why a source's pipeline failed.
#[derive(Clone, Copy, Debug, PartialEq, Eq, Structural)]
pub enum ErrorKind {
    SourceParseError,
    FetchError,
    DeserializationError,
    NotifyError,
}

/// The per-source result of one pipeline run. Exactly one arises per
/// configured source; a `Failed` outcome never spreads to the others.
#[derive(Debug, Clone)]
pub enum Outcome {
    NoNewRelease,
    Created(ReleaseRecord),
    Failed(ErrorKind, String),
}

/// A qualifying release together with what the notifier needs to name it:
/// the display name and the version that head the notification title.
#[derive(Debug, Clone)]
pub struct NotifyTask {
    pub record: ReleaseRecord,
    pub display_name: String,
    pub version: String,
}

/// What a poll step decided: either a notification is owed for a release,
/// or the source's outcome is already settled.
#[derive(Debug, Clone)]
pub enum Step {
    Notify(NotifyTask),
    Done(Outcome),
}

} // verus!
