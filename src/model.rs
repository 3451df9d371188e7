//! The records kept by the reader: feeds, articles and the instants they carry.

use vstd::prelude::*;

verus! {

/// An instant in UTC: whole seconds since the Unix epoch and the nanoseconds
/// past that second.
#[derive(Debug, Clone, Copy, PartialEq, Eq, Structural)]
pub struct UtcInstant {
    pub secs: i64,
    pub nanos: u32,
}

/// `a` comes strictly before `b` in time.
pub open spec fn before(a: UtcInstant, b: UtcInstant) -> bool {
    a.secs < b.secs || (a.secs == b.secs && a.nanos < b.nanos)
}

impl UtcInstant {
    /// Whether `self` comes strictly before `other`.
    pub fn is_before(&self, other: &UtcInstant) -> (r: bool)
        ensures
            r == before(*self, *other),
    {
        self.secs < other.secs || (self.secs == other.secs && self.nanos < other.nanos)
    }
}

/// A subscribed feed.
#[derive(Debug)]
pub struct RSSFeed {
    /// Unique identifier of the feed.
    pub rss_id: usize,
    /// Free-text category (news, sports, technology, ...).
    pub category: String,
    /// Display name.
    pub name: String,
    /// Address the feed is fetched from.
    pub url: String,
    /// When the feed was added.
    pub created_at: UtcInstant,
}

/// The content of a feed record.
pub struct FeedRec {
    pub rss_id: nat,
    pub category: Seq<char>,
    pub name: Seq<char>,
    pub url: Seq<char>,
    pub created_at: UtcInstant,
}

impl View for RSSFeed {
    type V = FeedRec;

    open spec fn view(&self) -> FeedRec {
        FeedRec {
            rss_id: self.rss_id as nat,
            category: self.category@,
            name: self.name@,
            url: self.url@,
            created_at: self.created_at,
        }
    }
}

/// The records held by a list of feeds.
pub open spec fn feed_recs(v: Seq<RSSFeed>) -> Seq<FeedRec> {
    v.map_values(|f: RSSFeed| f@)
}

/// An article captured from a feed.
#[derive(Debug)]
pub struct Articles {
    /// Unique identifier of the article across the whole archive.
    pub article_id: usize,
    /// The feed the article belongs to.
    pub rss_id: usize,
    /// Article title.
    pub title: String,
    /// Article summary.
    pub summary: String,
    /// Address of the full article at its source.
    pub article_link: String,
    /// Publication instant given by the feed.
    pub pub_date: UtcInstant,
    /// When the article was captured.
    pub created_at: UtcInstant,
}

/// The content of an article record.
pub struct ArticleRec {
    pub article_id: nat,
    pub rss_id: nat,
    pub title: Seq<char>,
    pub summary: Seq<char>,
    pub article_link: Seq<char>,
    pub pub_date: UtcInstant,
    pub created_at: UtcInstant,
}

impl View for Articles {
    type V = ArticleRec;

    open spec fn view(&self) -> ArticleRec {
        ArticleRec {
            article_id: self.article_id as nat,
            rss_id: self.rss_id as nat,
            title: self.title@,
            summary: self.summary@,
            article_link: self.article_link@,
            pub_date: self.pub_date,
            created_at: self.created_at,
        }
    }
}

/// The records held by a list of articles.
pub open spec fn article_recs(v: Seq<Articles>) -> Seq<ArticleRec> {
    v.map_values(|a: Articles| a@)
}

/// Two articles are duplicates when they agree on every field but the
/// identifier and the capture instant.
pub open spec fn same_content(a: ArticleRec, b: ArticleRec) -> bool {
    &&& a.rss_id == b.rss_id
    &&& a.title == b.title
    &&& a.summary == b.summary
    &&& a.article_link == b.article_link
    &&& a.pub_date == b.pub_date
}

/// Some article of `s` is a duplicate of `a`.
pub open spec fn has_duplicate(s: Seq<ArticleRec>, a: ArticleRec) -> bool {
    exists|i: int| 0 <= i < s.len() && same_content(#[trigger] s[i], a)
}

impl Articles {
    /// A field-for-field copy.
    pub fn duplicate(&self) -> (r: Articles)
        ensures
            r@ == self@,
    {
        Articles {
            article_id: self.article_id,
            rss_id: self.rss_id,
            title: self.title.clone(),
            summary: self.summary.clone(),
            article_link: self.article_link.clone(),
            pub_date: self.pub_date,
            created_at: self.created_at,
        }
    }

    /// Whether `self` and `other` are duplicates of one another.
    pub fn same_content_as(&self, other: &Articles) -> (r: bool)
        ensures
            r == same_content(self@, other@),
    {
        self.rss_id == other.rss_id && self.title == other.title && self.summary == other.summary
            && self.article_link == other.article_link && self.pub_date == other.pub_date
    }
}

} // verus!
