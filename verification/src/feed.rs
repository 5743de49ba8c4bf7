//! The feed poll variant: the reduced document model, the trusted parse and
//! markdown facts, and the verified recency and entry-selection decision.

use vstd::prelude::*;

use crate::outcome::{ErrorKind, NotifyTask, Outcome, ReleaseRecord, ReleaseRecordV, Step};
use crate::time::{is_new, spec_is_new};

verus! {

/// One feed entry, reduced to what the pipeline reads: its own update time
/// (seconds since the Unix epoch), its content body, and its link targets.
#[derive(Debug, Clone)]
pub struct FeedEntry {
    pub updated: Option<i64>,
    pub content_body: Option<String>,
    pub links: Vec<String>,
}

/// The mathematical value of a `FeedEntry`.
pub ghost struct FeedEntryV {
    pub updated: Option<i64>,
    pub content_body: Option<Seq<char>>,
    pub links: Seq<Seq<char>>,
}

impl View for FeedEntry {
    type V = FeedEntryV;

    open spec fn view(&self) -> FeedEntryV {
        FeedEntryV {
            updated: self.updated,
            content_body: self.content_body.deep_view(),
            links: self.links.deep_view(),
        }
    }
}

/// The views of a sequence of entries.
pub open spec fn entries_view(entries: Seq<FeedEntry>) -> Seq<FeedEntryV> {
    entries.map_values(|e: FeedEntry| e@)
}

/// A parsed syndication document, reduced to what the pipeline reads.
#[derive(Debug, Clone)]
pub struct FeedDoc {
    pub title: Option<String>,
    pub updated: Option<i64>,
    pub entries: Vec<FeedEntry>,
}

/// The mathematical value of a `FeedDoc`.
pub ghost struct FeedDocV {
    pub title: Option<Seq<char>>,
    pub updated: Option<i64>,
    pub entries: Seq<FeedEntryV>,
}

impl View for FeedDoc {
    type V = FeedDocV;

    open spec fn view(&self) -> FeedDocV {
        FeedDocV {
            title: self.title.deep_view(),
            updated: self.updated,
            entries: entries_view(self.entries@),
        }
    }
}

/// What feed_rs's parser yields for a byte string: nothing when the bytes
/// are not a parseable syndication document, else the document reduced to
/// the fields the pipeline reads.
pub uninterp spec fn feed_of(xml: Seq<u8>) -> Option<FeedDocV>;

/// Relies on feed_rs::parser::parse: whether the bytes parse as a feed,
/// and the feed's title, update time, and the entries' update times,
/// content bodies and link targets, depend on the input bytes alone.
/// Update times are converted with chrono's `DateTime::timestamp` to
/// seconds since the Unix epoch.
#[verifier::external_body]
pub(crate) fn parse_feed(xml: &[u8]) -> (r: Option<FeedDoc>)
    ensures
        r matches Some(doc) ==> feed_of(xml@) == Some(doc@),
        r is None ==> feed_of(xml@) is None,
{
    let f = match feed_rs::parser::parse(xml) {
        Ok(f) => f,
        Err(_) => return None,
    };
    Some(FeedDoc {
        title: f.title.map(|t| t.content),
        updated: f.updated.map(|d| d.timestamp()),
        entries: f.entries.into_iter().map(|e| FeedEntry {
            updated: e.updated.map(|d| d.timestamp()),
            content_body: e.content.and_then(|c| c.body),
            links: e.links.into_iter().map(|l| l.href).collect(),
        }).collect(),
    })
}

/// What html2md yields for an HTML fragment: its markdown rendering, a
/// function of the text alone.
pub uninterp spec fn md_of(html: Seq<char>) -> Seq<char>;

/// Relies on html2md::parse_html: the markdown rendering of an HTML
/// fragment depends on the text alone.
#[verifier::external_body]
pub(crate) fn html_to_md(html: &str) -> (r: String)
    ensures
        r@ == md_of(html@),
{
    html2md::parse_html(html)
}

/// `i` points at the representative entry among those tied at the
/// feed-level update time `t`: the first, in document order, whose own
/// update time equals `t` exactly.
pub open spec fn is_first_tied(entries: Seq<FeedEntryV>, t: i64, i: int) -> bool {
    &&& 0 <= i < entries.len()
    &&& entries[i].updated == Some(t)
    &&& forall|j: int| 0 <= j < i ==> entries[j].updated != Some(t)
}

/// The index of the representative entry, if any entry is tied at `t`.
pub open spec fn first_tied(entries: Seq<FeedEntryV>, t: i64) -> Option<int>
    decreases entries.len(),
{
    if entries.len() == 0 {
        None
    } else if entries[0].updated == Some(t) {
        Some(0)
    } else {
        match first_tied(entries.skip(1), t) {
            None => None,
            Some(i) => Some(i + 1),
        }
    }
}

/// When no entry is tied at `t`, there is no representative.
pub proof fn lemma_first_tied_none(entries: Seq<FeedEntryV>, t: i64)
    requires
        forall|j: int| 0 <= j < entries.len() ==> entries[j].updated != Some(t),
    ensures
        first_tied(entries, t) is None,
    decreases entries.len(),
{
    if entries.len() > 0 {
        lemma_first_tied_none(entries.skip(1), t);
    }
}

/// The representative entry is exactly the first tied one: selection keeps
/// document order among entries tied at the same update time.
pub proof fn lemma_first_tied_at(entries: Seq<FeedEntryV>, t: i64, i: int)
    requires
        is_first_tied(entries, t, i),
    ensures
        first_tied(entries, t) == Some(i),
    decreases i,
{
    if i == 0 {
    } else {
        assert(entries[0].updated != Some(t));
        assert(is_first_tied(entries.skip(1), t, i - 1));
        lemma_first_tied_at(entries.skip(1), t, i - 1);
    }
}

/// The release record a feed source normalizes to, given the document, the
/// feed-level update time, and the representative entry's index: the feed
/// title (empty when absent), the markdown rendering of the entry's content
/// body (empty when absent), the entry's first link (empty when it has
/// none), and the feed-level update time.
pub open spec fn spec_feed_record(doc: FeedDocV, t: i64, i: int) -> ReleaseRecordV {
    ReleaseRecordV {
        title: match doc.title {
            Some(s) => s,
            None => Seq::<char>::empty(),
        },
        body: md_of(
            match doc.entries[i].content_body {
                Some(b) => b,
                None => Seq::<char>::empty(),
            },
        ),
        link: if doc.entries[i].links.len() > 0 {
            doc.entries[i].links[0]
        } else {
            Seq::<char>::empty()
        },
        published_at: t,
    }
}

/// What deciding a parsed document must yield: no feed-level update time,
/// an update time outside the window, or no entry tied at it, all settle on
/// no-new-release; otherwise a notification is owed for the representative
/// entry's record, under the feed title and an empty version.
pub open spec fn feed_outcome_ok(doc: FeedDocV, days: i64, now: i64, r: Step) -> bool {
    match doc.updated {
        None => r matches Step::Done(out) && out == Outcome::NoNewRelease,
        Some(t) => if !spec_is_new(t as int, days as int, now as int) {
            r matches Step::Done(out) && out == Outcome::NoNewRelease
        } else {
            match first_tied(doc.entries, t) {
                None => r matches Step::Done(out) && out == Outcome::NoNewRelease,
                Some(i) => r matches Step::Notify(task) && task.record@ == spec_feed_record(
                    doc,
                    t,
                    i,
                ) && task.display_name@ == (match doc.title {
                    Some(s) => s,
                    None => Seq::<char>::empty(),
                }) && task.version@ == Seq::<char>::empty(),
            }
        },
    }
}

/// The first entry tied at `t`, scanning in document order.
fn find_first_tied(entries: &Vec<FeedEntry>, t: i64) -> (r: Option<usize>)
    ensures
        r matches Some(i) ==> is_first_tied(entries_view(entries@), t, i as int),
        r is None ==> forall|j: int|
            0 <= j < entries@.len() ==> entries_view(entries@)[j].updated != Some(t),
{
    let mut i: usize = 0;
    while i < entries.len()
        invariant
            0 <= i <= entries@.len(),
            forall|j: int| 0 <= j < i ==> entries_view(entries@)[j].updated != Some(t),
        decreases entries@.len() - i,
    {
        let tied = match &entries[i].updated {
            Some(u) => *u == t,
            None => false,
        };
        proof {
            assert(entries_view(entries@)[i as int] == entries@[i as int]@);
        }
        if tied {
            return Some(i);
        }
        i += 1;
    }
    None
}

/// Decides a parsed document, as `feed_outcome_ok` describes.
pub fn feed_decision(doc: &FeedDoc, days: i64, now: i64) -> (r: Step)
    ensures
        feed_outcome_ok(doc@, days, now, r),
{
    match doc.updated {
        None => Step::Done(Outcome::NoNewRelease),
        Some(t) => {
            if !is_new(t, days, now) {
                Step::Done(Outcome::NoNewRelease)
            } else {
                match find_first_tied(&doc.entries, t) {
                    None => {
                        proof {
                            lemma_first_tied_none(doc@.entries, t);
                        }
                        Step::Done(Outcome::NoNewRelease)
                    },
                    Some(i) => {
                        proof {
                            lemma_first_tied_at(doc@.entries, t, i as int);
                            assert(doc@.entries[i as int] == doc.entries@[i as int]@);
                            reveal_strlit("");
                            assert(""@ =~= Seq::<char>::empty());
                        }
                        let e = &doc.entries[i];
                        let title = match &doc.title {
                            Some(s) => s.clone(),
                            None => String::new(),
                        };
                        let body_src = match &e.content_body {
                            Some(b) => b.as_str(),
                            None => "",
                        };
                        let body = html_to_md(body_src);
                        let link = if e.links.len() > 0 {
                            proof {
                                assert(e@.links[0] == e.links@[0]@);
                            }
                            e.links[0].clone()
                        } else {
                            String::new()
                        };
                        let record = ReleaseRecord {
                            title: title.clone(),
                            body,
                            link,
                            published_at: t,
                        };
                        Step::Notify(
                            NotifyTask { record, display_name: title, version: String::new() },
                        )
                    },
                }
            }
        },
    }
}

/// What one fetch of the feed URL came back with: the response body as
/// bytes, or a transport failure.
#[derive(Debug)]
pub enum FeedEvent {
    Body(Vec<u8>),
    Transport(String),
}

/// Decides the outcome of one feed poll from the fetch event, the day
/// window, and the sampled clock: a transport failure is an isolated fetch
/// failure carrying its message; a body that does not parse as a
/// syndication document is an isolated deserialization failure; a parsed
/// document is decided as `feed_outcome_ok` describes.
pub fn feed_step(ev: FeedEvent, days: i64, now: i64) -> (r: Step)
    ensures
        ev matches FeedEvent::Transport(m) ==> (r matches Step::Done(out) && (out
            matches Outcome::Failed(k, d) && k == ErrorKind::FetchError && d@ == m@)),
        ev matches FeedEvent::Body(xml) ==> match feed_of(xml@) {
            None => r matches Step::Done(out) && (out matches Outcome::Failed(k, d) && k
                == ErrorKind::DeserializationError && d@ == "invalid feed document"@),
            Some(doc) => feed_outcome_ok(doc, days, now, r),
        },
{
    match ev {
        FeedEvent::Transport(m) => Step::Done(Outcome::Failed(ErrorKind::FetchError, m)),
        FeedEvent::Body(xml) => match parse_feed(xml.as_slice()) {
            None => Step::Done(
                Outcome::Failed(
                    ErrorKind::DeserializationError,
                    String::from_str("invalid feed document"),
                ),
            ),
            Some(doc) => feed_decision(&doc, days, now),
        },
    }
}

} // verus!
