//! The typed configuration value the core receives, and the request-header
//! template derived from it.

use vstd::prelude::*;

use crate::time::{check_new_release_at, now_secs, parse_timestamp, ts_of};

verus! {

/// The source-kind selector: every element of one run's source list is
/// either a GitHub repository or a syndication feed, never a mixture.
#[derive(Clone, Copy, Debug, PartialEq, Eq, Structural)]
pub enum InputType {
    Github,
    Rss,
}

impl InputType {
    /// Parses the configured selector string; exactly "Github" and "Rss"
    /// are accepted.
    pub fn from_str(s: &str) -> (r: Result<InputType, ()>)
        ensures
            (r is Ok) == (s@ == "Github"@ || s@ == "Rss"@),
            r matches Ok(k) ==> k == (if s@ == "Github"@ {
                InputType::Github
            } else {
                InputType::Rss
            }),
    {
        if crate::text::str_eq(s, "Github") {
            Ok(InputType::Github)
        } else if crate::text::str_eq(s, "Rss") {
            Ok(InputType::Rss)
        } else {
            Err(())
        }
    }
}

/// The configuration one run works from.
#[derive(Debug, Clone)]
pub struct Input {
    pub token: String,
    pub input_type: InputType,
    pub repo: String,
    pub days: i64,
    pub labels: Option<String>,
}

impl Input {
    /// Builds the configuration value. The selector string must be one of
    /// the two accepted kinds; an invalid selector is a configuration error
    /// the caller rejects before calling.
    pub fn new(ty: String, token: String, repo: String, days: i64, labels: Option<String>) -> (r:
        Self)
        requires
            ty@ == "Github"@ || ty@ == "Rss"@,
        ensures
            r.input_type == (if ty@ == "Github"@ {
                InputType::Github
            } else {
                InputType::Rss
            }),
            r.token == token,
            r.repo == repo,
            r.days == days,
            r.labels == labels,
    {
        let input_type = if crate::text::str_eq(ty.as_str(), "Github") {
            InputType::Github
        } else {
            InputType::Rss
        };
        Input { input_type, token, repo, days, labels }
    }

    /// The request-header template shared by every outbound request: the
    /// bearer token and the upstream API's accept header, in that order.
    pub fn header(&self) -> (r: Vec<(String, String)>)
        ensures
            r@.len() == 2,
            r@[0].0@ == "Authorization"@,
            r@[0].1@ == self.token@,
            r@[1].0@ == "Accept"@,
            r@[1].1@ == "application/vnd.github.v3+json"@,
    {
        let mut headers: Vec<(String, String)> = Vec::new();
        headers.push((String::from_str("Authorization"), self.token.clone()));
        headers.push((String::from_str("Accept"), String::from_str(
            "application/vnd.github.v3+json",
        )));
        headers
    }

    /// Samples the clock, parses `published_date`, and applies the window
    /// decision. The clock is sampled fresh at each call, so only this much
    /// is promised: an unparseable timestamp never counts as new, and a
    /// positive answer means the timestamp parsed.
    pub fn check_new_release(&self, published_date: String) -> (r: bool)
        ensures
            ts_of(published_date@) is None ==> r == false,
            r ==> ts_of(published_date@) is Some,
    {
        let parsed = parse_timestamp(published_date.as_str());
        let now = now_secs();
        check_new_release_at(parsed, self.days, now)
    }
}

/// A per-source copy of the header template, specialized with the source's
/// identifier as User-Agent. The template itself is never touched, so
/// concurrent per-source tasks cannot interfere through it.
pub fn headers_for(template: &Vec<(String, String)>, source_id: &str) -> (r: Vec<(String, String)>)
    ensures
        r@.len() == template@.len() + 1,
        forall|i: int|
            0 <= i < template@.len() ==> (#[trigger] r@[i]).0@ == template@[i].0@ && r@[i].1@
                == template@[i].1@,
        r@[template@.len() as int].0@ == "User-Agent"@,
        r@[template@.len() as int].1@ == source_id@,
{
    let mut out: Vec<(String, String)> = Vec::new();
    let mut j: usize = 0;
    while j < template.len()
        invariant
            0 <= j <= template@.len(),
            out@.len() == j,
            forall|i: int|
                0 <= i < j ==> (#[trigger] out@[i]).0@ == template@[i].0@ && out@[i].1@
                    == template@[i].1@,
        decreases template@.len() - j,
    {
        let pair = &template[j];
        out.push((pair.0.clone(), pair.1.clone()));
        j += 1;
    }
    out.push((String::from_str("User-Agent"), source_id.to_owned()));
    out
}

} // verus!
