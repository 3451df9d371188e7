//! The two cursors over the feed list and over the selected feed's articles.

use crate::catalog::remove_feed;
use crate::model::RSSFeed;
use vstd::prelude::*;

verus! {

/// The position after `i` in a list of `n` entries, wrapping to the first.
pub open spec fn wrap_next(i: nat, n: nat) -> nat {
    if i + 1 >= n {
        0
    } else {
        i + 1
    }
}

/// The position before `i` in a list of `n` entries, wrapping to the last.
pub open spec fn wrap_prev(i: nat, n: nat) -> nat {
    if i > 0 {
        (i - 1) as nat
    } else {
        (n - 1) as nat
    }
}

/// The selected feed and the selected article among that feed's articles;
/// `None` where nothing is selected.
#[derive(Debug, Clone, Copy, PartialEq, Eq, Structural)]
pub struct Selection {
    pub feed: Option<usize>,
    pub article: Option<usize>,
}

impl Selection {
    /// Both cursors on the first entry.
    pub fn new() -> (r: Selection)
        ensures
            r.feed == Some(0usize),
            r.article == Some(0usize),
    {
        Selection { feed: Some(0), article: Some(0) }
    }

    /// Moves the feed cursor to the next of `feed_count` feeds, from the last
    /// back to the first, and the article cursor to the first article.
    pub fn next_feed(&mut self, feed_count: usize)
        requires
            feed_count > 0,
        ensures
            final(self).feed == match old(self).feed {
                Some(i) => Some(wrap_next(i as nat, feed_count as nat) as usize),
                None => None,
            },
            final(self).article == Some(0usize),
    {
        if let Some(i) = self.feed {
            if i >= feed_count - 1 {
                self.feed = Some(0);
            } else {
                self.feed = Some(i + 1);
            }
        }
        self.article = Some(0);
    }

    /// Moves the feed cursor to the previous of `feed_count` feeds, from the
    /// first round to the last, and the article cursor to the first article.
    pub fn previous_feed(&mut self, feed_count: usize)
        requires
            feed_count > 0,
        ensures
            final(self).feed == match old(self).feed {
                Some(i) => Some(wrap_prev(i as nat, feed_count as nat) as usize),
                None => None,
            },
            final(self).article == Some(0usize),
    {
        if let Some(i) = self.feed {
            if i > 0 {
                self.feed = Some(i - 1);
            } else {
                self.feed = Some(feed_count - 1);
            }
        }
        self.article = Some(0);
    }

    /// Moves the article cursor to the next of the `article_count` articles of
    /// the selected feed, from the last back to the first.
    pub fn next_article(&mut self, article_count: usize)
        requires
            article_count > 0,
        ensures
            final(self).feed == old(self).feed,
            final(self).article == match old(self).article {
                Some(i) => Some(wrap_next(i as nat, article_count as nat) as usize),
                None => None,
            },
    {
        if let Some(i) = self.article {
            if i >= article_count - 1 {
                self.article = Some(0);
            } else {
                self.article = Some(i + 1);
            }
        }
    }

    /// Moves the article cursor to the previous of the `article_count`
    /// articles of the selected feed, from the first round to the last.
    pub fn previous_article(&mut self, article_count: usize)
        requires
            article_count > 0,
        ensures
            final(self).feed == old(self).feed,
            final(self).article == match old(self).article {
                Some(i) => Some(wrap_prev(i as nat, article_count as nat) as usize),
                None => None,
            },
    {
        if let Some(i) = self.article {
            if i > 0 {
                self.article = Some(i - 1);
            } else {
                self.article = Some(article_count - 1);
            }
        }
    }

    /// Removes the selected feed from `feeds` and moves the feed cursor to
    /// the feed before it, or to the first feed; the article cursor stays.
    /// With no feed selected, nothing changes.
    pub fn remove_selected_feed(&mut self, feeds: &mut Vec<RSSFeed>)
        requires
            old(self).feed matches Some(i) ==> i < old(feeds)@.len(),
        ensures
            final(self).article == old(self).article,
            old(self).feed is None ==> final(self).feed is None && final(feeds)@ == old(feeds)@,
            old(self).feed matches Some(i) ==> {
                &&& final(feeds)@ == old(feeds)@.remove(i as int)
                &&& final(self).feed == Some(
                    if i > 0 {
                        (i - 1) as usize
                    } else {
                        0usize
                    },
                )
            },
    {
        self.feed = remove_feed(feeds, self.feed);
    }
}

/// Stepping forward from the last of `n` entries lands on the first, and
/// stepping back from the first lands on the last; one step each way returns
/// to where it started.
pub proof fn lemma_wrap_around(i: nat, n: nat)
    requires
        i < n,
    ensures
        i == n - 1 ==> wrap_next(i, n) == 0,
        i == 0 ==> wrap_prev(i, n) == n - 1,
        wrap_next(i, n) < n,
        wrap_prev(i, n) < n,
        wrap_prev(wrap_next(i, n), n) == i,
        wrap_next(wrap_prev(i, n), n) == i,
{
}

} // verus!
