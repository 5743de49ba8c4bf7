//! The notifier: building the one canonical notification request from a
//! qualifying release, and settling the outcome of its submission.

use vstd::prelude::*;

use crate::outcome::{ErrorKind, Outcome, ReleaseRecord};
use crate::text::{dec_digits, split_on, split_on_char, u16_to_dec, views_of};

verus! {

/// The notifier's input: one qualifying release, the name and version the
/// notification is titled with, and the optional label list.
#[derive(Debug, Clone)]
pub struct Issue {
    pub release_url: String,
    pub release_body: String,
    pub repo_name: String,
    pub release_version: String,
    pub labels: Option<String>,
}

/// One issue-creation request: title, body, and the labels in order
/// (possibly none), derived deterministically from the release.
#[derive(Debug, Clone)]
pub struct NotificationRequest {
    pub title: String,
    pub body: String,
    pub labels: Vec<String>,
}

/// The notification title: `New version of <name> <version> available`.
pub open spec fn spec_notification_title(name: Seq<char>, version: Seq<char>) -> Seq<char> {
    "New version of "@ + name + seq![' '] + version + " available"@
}

/// The notification body: the upstream name, the release link, and the
/// release details.
pub open spec fn spec_notification_body(name: Seq<char>, url: Seq<char>, body: Seq<char>) -> Seq<
    char,
> {
    " Upstream new release "@ + name + " available at "@ + url + " \n\n **Release Details:** \n "@
        + body
}

/// The labels a configured label list yields: the comma-split pieces, or
/// none when no list is configured.
pub open spec fn spec_labels_of(labels: Option<String>) -> Seq<Seq<char>> {
    match labels {
        Some(l) => split_on(l@, ','),
        None => Seq::<Seq<char>>::empty(),
    }
}

impl Issue {
    /// Collects the fields one notification is built from.
    pub fn new(
        release_url: &str,
        release_body: &str,
        repo_name: &str,
        release_version: &str,
        labels: &Option<String>,
    ) -> (r: Self)
        ensures
            r.release_url@ == release_url@,
            r.release_body@ == release_body@,
            r.repo_name@ == repo_name@,
            r.release_version@ == release_version@,
            r.labels.deep_view() == labels.deep_view(),
    {
        let owned_labels = match labels {
            Some(l) => Some(l.clone()),
            None => None,
        };
        Issue {
            release_url: release_url.to_owned(),
            release_body: release_body.to_owned(),
            repo_name: repo_name.to_owned(),
            release_version: release_version.to_owned(),
            labels: owned_labels,
        }
    }

    /// Builds the canonical notification request, as the three spec
    /// functions above describe it.
    pub fn request(&self) -> (r: NotificationRequest)
        ensures
            r.title@ == spec_notification_title(self.repo_name@, self.release_version@),
            r.body@ == spec_notification_body(
                self.repo_name@,
                self.release_url@,
                self.release_body@,
            ),
            views_of(r.labels@) == spec_labels_of(self.labels),
    {
        proof {
            reveal_strlit(" ");
            assert(" "@ =~= seq![' ']);
        }
        let mut title = String::from_str("New version of ");
        title.append(self.repo_name.as_str());
        title.append(" ");
        title.append(self.release_version.as_str());
        title.append(" available");
        let mut body = String::from_str(" Upstream new release ");
        body.append(self.repo_name.as_str());
        body.append(" available at ");
        body.append(self.release_url.as_str());
        body.append(" \n\n **Release Details:** \n ");
        body.append(self.release_body.as_str());
        let labels = match &self.labels {
            Some(l) => split_on_char(l.as_str(), ','),
            None => {
                let empty: Vec<String> = Vec::new();
                proof {
                    assert(views_of(empty@) =~~= Seq::<Seq<char>>::empty());
                }
                empty
            },
        };
        NotificationRequest { title, body, labels }
    }
}

/// The target repository's issue-creation endpoint.
pub fn issues_url(org: &str, repo: &str) -> (r: String)
    ensures
        r@ == "https://api.github.com/repos/"@ + org@ + seq!['/'] + repo@ + "/issues"@,
{
    proof {
        reveal_strlit("/");
        assert("/"@ =~= seq!['/']);
    }
    let mut url = String::from_str("https://api.github.com/repos/");
    url.append(org);
    url.append("/");
    url.append(repo);
    url.append("/issues");
    url
}

/// Splits the target-repository identity `org/repo` into its two parts,
/// taking the first two slash-separated pieces; an identity without a
/// slash is invalid configuration and yields nothing.
pub fn parse_target(s: &str) -> (r: Option<(String, String)>)
    ensures
        split_on(s@, '/').len() >= 2 ==> (r matches Some(p) && p.0@ == split_on(s@, '/')[0]
            && p.1@ == split_on(s@, '/')[1]),
        split_on(s@, '/').len() < 2 ==> r is None,
{
    let parts = split_on_char(s, '/');
    proof {
        assert(views_of(parts@)[0] == parts@[0]@);
        if parts@.len() >= 2 {
            assert(views_of(parts@)[1] == parts@[1]@);
        }
    }
    if parts.len() >= 2 {
        let org = parts[0].clone();
        let repo = parts[1].clone();
        Some((org, repo))
    } else {
        None
    }
}

/// What submitting the notification came back with: a response status, or
/// a transport failure.
#[derive(Debug)]
pub enum NotifyEvent {
    Status(u16),
    Transport(String),
}

/// Settles a source's outcome from the notification response: `201` means
/// the issue was created for this release; any other status is an isolated
/// notify failure carrying the status in decimal; a transport failure
/// carries its message. The notification is never retried.
pub fn notify_step(ev: NotifyEvent, record: ReleaseRecord) -> (r: Outcome)
    ensures
        match ev {
            NotifyEvent::Status(s) => if s == 201 {
                r matches Outcome::Created(rec) && rec@ == record@
            } else {
                r matches Outcome::Failed(k, d) && k == ErrorKind::NotifyError && d@ == dec_digits(
                    s as nat,
                )
            },
            NotifyEvent::Transport(m) => r matches Outcome::Failed(k, d) && k
                == ErrorKind::NotifyError && d@ == m@,
        },
{
    match ev {
        NotifyEvent::Status(s) => {
            if s == 201 {
                Outcome::Created(record)
            } else {
                Outcome::Failed(ErrorKind::NotifyError, u16_to_dec(s))
            }
        },
        NotifyEvent::Transport(m) => Outcome::Failed(ErrorKind::NotifyError, m),
    }
}

} // verus!
