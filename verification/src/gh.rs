//! The GitHub poll variant: the shape of an upstream release object, the
//! endpoint it is fetched from, and the verified decision over the response.

use vstd::prelude::*;

use crate::outcome::{ErrorKind, NotifyTask, Outcome, ReleaseRecord, ReleaseRecordV, Step};
use crate::source::RepoSource;
use crate::text::dec_digits;
use crate::time::{is_new, parse_timestamp, spec_is_new, ts_of};

verus! {

/// The fields consumed from the upstream "latest release" object.
#[derive(Debug, Clone)]
pub struct GithubRelease {
    pub tag_name: String,
    pub published_at: String,
    pub body: String,
    pub html_url: String,
}

/// What one fetch of the latest-release endpoint came back with: a status
/// and, for a readable body, the release object; or a transport failure.
#[derive(Debug)]
pub enum GhEvent {
    Response { status: u16, release: Option<GithubRelease> },
    Transport(String),
}

/// The release record a repository source normalizes to: the title joins
/// the repository name and the tag.
pub open spec fn spec_gh_record(repo: Seq<char>, rel: GithubRelease, t: i64) -> ReleaseRecordV {
    ReleaseRecordV {
        title: repo + seq![' '] + rel.tag_name@,
        body: rel.body@,
        link: rel.html_url@,
        published_at: t,
    }
}

/// The upstream endpoint for the latest release of `org`/`repo`.
pub fn latest_release_url(org: &str, repo: &str) -> (r: String)
    ensures
        r@ == "https://api.github.com/repos/"@ + org@ + seq!['/'] + repo@ + "/releases/latest"@,
{
    proof {
        reveal_strlit("/");
        assert("/"@ =~= seq!['/']);
    }
    let mut url = String::from_str("https://api.github.com/repos/");
    url.append(org);
    url.append("/");
    url.append(repo);
    url.append("/releases/latest");
    url
}

/// Decides the outcome of one repository poll from the fetch event, the day
/// window, and the sampled clock:
/// a `200` response is normalized and judged by the window (an unparseable
/// publication timestamp fails open to no-new-release); a `413` response is
/// taken as no-new-release; any other status is an isolated fetch failure
/// carrying the status in decimal; an unreadable `200` body is an isolated
/// deserialization failure; a transport failure carries its message.
pub fn gh_step(repo: &RepoSource, ev: GhEvent, days: i64, now: i64) -> (r: Step)
    ensures
        match ev {
            GhEvent::Transport(m) => r matches Step::Done(out) && (out matches Outcome::Failed(
                k,
                d,
            ) && k == ErrorKind::FetchError && d@ == m@),
            GhEvent::Response { status, release } => {
                &&& status == 200 ==> match release {
                    None => r matches Step::Done(out) && (out matches Outcome::Failed(k, d) && k
                        == ErrorKind::DeserializationError && d@ == "invalid release response"@),
                    Some(rel) => match ts_of(rel.published_at@) {
                        None => r matches Step::Done(out) && out == Outcome::NoNewRelease,
                        Some(t) => if spec_is_new(t as int, days as int, now as int) {
                            r matches Step::Notify(task) && task.record@ == spec_gh_record(
                                repo.repo@,
                                rel,
                                t,
                            ) && task.display_name@ == repo.repo@ && task.version@
                                == rel.tag_name@
                        } else {
                            r matches Step::Done(out) && out == Outcome::NoNewRelease
                        },
                    },
                }
                &&& status == 413 ==> (r matches Step::Done(out) && out == Outcome::NoNewRelease)
                &&& status != 200 && status != 413 ==> (r matches Step::Done(out) && (out
                    matches Outcome::Failed(k, d) && k == ErrorKind::FetchError && d@ == dec_digits(
                    status as nat,
                )))
            },
        },
{
    match ev {
        GhEvent::Transport(m) => Step::Done(Outcome::Failed(ErrorKind::FetchError, m)),
        GhEvent::Response { status, release } => {
            if status == 200 {
                match release {
                    None => Step::Done(
                        Outcome::Failed(
                            ErrorKind::DeserializationError,
                            String::from_str("invalid release response"),
                        ),
                    ),
                    Some(rel) => {
                        let parsed = parse_timestamp(rel.published_at.as_str());
                        match parsed {
                            None => Step::Done(Outcome::NoNewRelease),
                            Some(t) => {
                                if is_new(t, days, now) {
                                    proof {
                                        reveal_strlit(" ");
                                        assert(" "@ =~= seq![' ']);
                                    }
                                    let mut title = repo.repo.clone();
                                    title.append(" ");
                                    title.append(rel.tag_name.as_str());
                                    let display_name = repo.repo.clone();
                                    let version = rel.tag_name.clone();
                                    let record = ReleaseRecord {
                                        title,
                                        body: rel.body,
                                        link: rel.html_url,
                                        published_at: t,
                                    };
                                    Step::Notify(NotifyTask { record, display_name, version })
                                } else {
                                    Step::Done(Outcome::NoNewRelease)
                                }
                            },
                        }
                    },
                }
            } else if status == 413 {
                Step::Done(Outcome::NoNewRelease)
            } else {
                Step::Done(
                    Outcome::Failed(ErrorKind::FetchError, crate::text::u16_to_dec(status)),
                )
            }
        },
    }
}

} // verus!
