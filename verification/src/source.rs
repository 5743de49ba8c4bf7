//! Source descriptors: parsing one configured source string, and resolving
//! the whole comma-delimited source list with per-element isolation.

use vstd::prelude::*;

use crate::input::InputType;
use crate::outcome::{ErrorKind, Outcome};
use crate::text::{split_on, split_on_char, str_eq, views_of};

verus! {

/// A validated repository source: organization, repository, and the raw
/// configured string it was parsed from.
#[derive(Debug, Clone)]
pub struct RepoSource {
    pub org: String,
    pub repo: String,
    pub raw: String,
}

/// A feed source: the configured URL, taken as opaque.
#[derive(Debug, Clone)]
pub struct FeedSource {
    pub url: String,
}

/// One configured upstream location to poll.
#[derive(Debug, Clone)]
pub enum Source {
    Repo(RepoSource),
    Feed(FeedSource),
}

/// The repository-URL shape: `https://<host>/<org>/<repo>`, each of the
/// three path pieces non-empty. Splitting such a string at `/` yields
/// exactly `["https:", "", host, org, repo]`; the organization and the
/// repository are extracted.
pub open spec fn spec_parse_repo(s: Seq<char>) -> Option<(Seq<char>, Seq<char>)> {
    let parts = split_on(s, '/');
    if parts.len() == 5 && parts[0] == "https:"@ && parts[1] == Seq::<char>::empty() && parts[2].len()
        > 0 && parts[3].len() > 0 && parts[4].len() > 0 {
        Some((parts[3], parts[4]))
    } else {
        None
    }
}

/// The failure message for a string that is not a repository URL.
pub open spec fn parse_err_of(s: Seq<char>) -> Seq<char> {
    "No valid repo found for "@ + s
}

/// Validates one configured repository string against the
/// `https://<host>/<org>/<repo>` shape and extracts the organization and
/// repository names, exactly as `spec_parse_repo` describes.
pub fn get_repo_details(repo: &str) -> (r: Result<RepoSource, String>)
    ensures
        spec_parse_repo(repo@) matches Some(p) ==> (r matches Ok(src) && src.org@ == p.0
            && src.repo@ == p.1 && src.raw@ == repo@),
        spec_parse_repo(repo@) is None ==> (r matches Err(m) && m@ == parse_err_of(repo@)),
{
    let parts = split_on_char(repo, '/');
    proof {
        let sp = split_on(repo@, '/');
        assert forall|i: int| 0 <= i < parts@.len() implies sp[i] == #[trigger] parts@[i]@ by {
            assert(views_of(parts@)[i] == parts@[i]@);
        }
    }
    if parts.len() == 5 {
        let scheme_ok = str_eq(parts[0].as_str(), "https:");
        let empty_ok = parts[1].as_str().unicode_len() == 0;
        let host_ok = parts[2].as_str().unicode_len() > 0;
        let org_ok = parts[3].as_str().unicode_len() > 0;
        let repo_ok = parts[4].as_str().unicode_len() > 0;
        if scheme_ok && empty_ok && host_ok && org_ok && repo_ok {
            proof {
                assert(split_on(repo@, '/')[1] =~= Seq::<char>::empty());
            }
            let org = parts[3].clone();
            let name = parts[4].clone();
            return Ok(RepoSource { org, repo: name, raw: repo.to_owned() });
        }
    }
    let mut m = String::from_str("No valid repo found for ");
    m.append(repo);
    Err(m)
}

/// How one configured source string was resolved: a validated source, or a
/// settled failure outcome that must not disturb the other sources.
#[derive(Debug, Clone)]
pub enum Resolved {
    Parsed(Source),
    Rejected(Outcome),
}

/// One element of the resolved source list: the raw configured string and
/// what it resolved to.
#[derive(Debug, Clone)]
pub struct SourceResolution {
    pub raw: String,
    pub resolved: Resolved,
}

/// What resolving the element `elem` under the selector `kind` must yield:
/// a feed element is taken as an opaque URL; a repository element either
/// parses to its organization and repository, or is rejected with a
/// source-parse failure carrying the parse message.
pub open spec fn resolves(elem: Seq<char>, kind: InputType, res: SourceResolution) -> bool {
    &&& res.raw@ == elem
    &&& match kind {
        InputType::Rss => res.resolved matches Resolved::Parsed(Source::Feed(f)) && f.url@ == elem,
        InputType::Github => match spec_parse_repo(elem) {
            Some(p) => res.resolved matches Resolved::Parsed(Source::Repo(s)) && s.org@ == p.0
                && s.repo@ == p.1 && s.raw@ == elem,
            None => res.resolved matches Resolved::Rejected(out) && (out matches Outcome::Failed(
                k,
                d,
            ) && k == ErrorKind::SourceParseError && d@ == parse_err_of(elem)),
        },
    }
}

/// Splits the configured source list at every comma and resolves each
/// element independently: an element that fails to parse becomes its own
/// rejected entry and never prevents the elements after it from being
/// resolved.
pub fn resolve_sources(list: &str, kind: InputType) -> (r: Vec<SourceResolution>)
    ensures
        r@.len() == split_on(list@, ',').len(),
        forall|i: int|
            0 <= i < r@.len() ==> resolves(split_on(list@, ',')[i], kind, #[trigger] r@[i]),
{
    let parts = split_on_char(list, ',');
    let mut out: Vec<SourceResolution> = Vec::new();
    let mut j: usize = 0;
    while j < parts.len()
        invariant
            views_of(parts@) == split_on(list@, ','),
            parts@.len() == split_on(list@, ',').len(),
            0 <= j <= parts@.len(),
            out@.len() == j,
            forall|i: int|
                0 <= i < j ==> resolves(split_on(list@, ',')[i], kind, #[trigger] out@[i]),
        decreases parts@.len() - j,
    {
        let raw = parts[j].clone();
        let resolved = match kind {
            InputType::Rss => Resolved::Parsed(Source::Feed(FeedSource { url: parts[j].clone() })),
            InputType::Github => match get_repo_details(parts[j].as_str()) {
                Ok(src) => Resolved::Parsed(Source::Repo(src)),
                Err(m) => Resolved::Rejected(Outcome::Failed(ErrorKind::SourceParseError, m)),
            },
        };
        out.push(SourceResolution { raw, resolved });
        j += 1;
    }
    out
}

} // verus!
