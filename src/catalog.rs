//! The feed catalog: adding a feed from a line of input and removing the
//! selected one.

use crate::error_db::ErrorCodes;
use crate::model::{feed_recs, FeedRec, RSSFeed, UtcInstant};
use vstd::prelude::*;

verus! {

/// The text with leading and trailing white space removed, as `str::trim`
/// does it.
pub uninterp spec fn trimmed(s: Seq<char>) -> Seq<char>;

/// Relies on `str::trim`: the result depends on the characters alone.
#[verifier::external_body]
fn trim_text(s: &str) -> (r: String)
    ensures
        r@ == trimmed(s@),
{
    s.trim().to_owned()
}

/// The positions of the `|` separators in `s`, in increasing order.
pub open spec fn pipe_positions(s: Seq<char>) -> Seq<int>
    decreases s.len(),
{
    if s.len() == 0 {
        Seq::empty()
    } else if s.last() == '|' {
        pipe_positions(s.drop_last()).push(s.len() - 1)
    } else {
        pipe_positions(s.drop_last())
    }
}

/// `s` holds exactly three `|`-separated fields.
pub open spec fn is_feed_line(s: Seq<char>) -> bool {
    pipe_positions(s).len() == 2
}

/// The three fields of a feed line, each trimmed: category, name and URL.
pub open spec fn feed_line_fields(s: Seq<char>) -> (Seq<char>, Seq<char>, Seq<char>) {
    let p = pipe_positions(s);
    (
        trimmed(s.subrange(0, p[0])),
        trimmed(s.subrange(p[0] + 1, p[1])),
        trimmed(s.subrange(p[1] + 1, s.len() as int)),
    )
}

/// The largest feed identifier in `s`, or 0 for an empty catalog.
pub open spec fn max_feed_id(s: Seq<FeedRec>) -> nat
    decreases s.len(),
{
    if s.len() == 0 {
        0
    } else {
        let m = max_feed_id(s.drop_last());
        if s.last().rss_id > m {
            s.last().rss_id
        } else {
            m
        }
    }
}

/// The catalog after adding a feed with the content of `f`: it is appended
/// with the identifier that follows the largest one in the catalog.
pub open spec fn with_feed(s: Seq<FeedRec>, f: FeedRec) -> Seq<FeedRec> {
    s.push(
        FeedRec {
            rss_id: max_feed_id(s) + 1,
            category: f.category,
            name: f.name,
            url: f.url,
            created_at: f.created_at,
        },
    )
}

/// The catalog after adding the feeds of `fs`, one after the other.
pub open spec fn with_feeds(s: Seq<FeedRec>, fs: Seq<FeedRec>) -> Seq<FeedRec>
    decreases fs.len(),
{
    if fs.len() == 0 {
        s
    } else {
        with_feed(with_feeds(s, fs.drop_last()), fs.last())
    }
}

proof fn lemma_pipe_positions_bounds(s: Seq<char>)
    ensures
        forall|k: int|
            0 <= k < pipe_positions(s).len() ==> 0 <= #[trigger] pipe_positions(s)[k] < s.len()
                && s[pipe_positions(s)[k]] == '|',
        forall|k: int, l: int|
            0 <= k < l < pipe_positions(s).len() ==> #[trigger] pipe_positions(s)[k]
                < #[trigger] pipe_positions(s)[l],
    decreases s.len(),
{
    if s.len() > 0 {
        let t = s.drop_last();
        lemma_pipe_positions_bounds(t);
        let p = pipe_positions(s);
        let q = pipe_positions(t);
        assert forall|k: int| 0 <= k < p.len() implies 0 <= #[trigger] p[k] < s.len() && s[p[k]]
            == '|' by {
            if k < q.len() {
                assert(p[k] == q[k]);
                assert(s[q[k]] == t[q[k]]);
            }
        }
        assert forall|k: int, l: int| 0 <= k < l < p.len() implies #[trigger] p[k] < #[trigger] p[l] by {
            assert(p[k] == q[k]);
            if l < q.len() {
                assert(p[l] == q[l]);
            }
        }
    }
}

/// The number of `|` separators in `text`; a feed line has two.
pub fn separator_count(text: &str) -> (r: usize)
    ensures
        r == pipe_positions(text@).len(),
{
    let n = text.unicode_len();
    let mut count: usize = 0;
    let mut i: usize = 0;
    while i < n
        invariant
            n == text@.len(),
            i <= n,
            count == pipe_positions(text@.take(i as int)).len(),
            count <= i,
        decreases n - i,
    {
        proof {
            assert(text@.take(i + 1).drop_last() =~= text@.take(i as int));
        }
        if text.get_char(i) == '|' {
            count += 1;
        }
        i += 1;
    }
    proof {
        assert(text@.take(n as int) =~= text@);
    }
    count
}

/// Splits a line `<category> | <name> | <url>` into its three fields, each
/// trimmed of surrounding white space.
pub fn parse_feed_input(text: &str) -> (r: (String, String, String))
    requires
        is_feed_line(text@),
    ensures
        (r.0@, r.1@, r.2@) == feed_line_fields(text@),
{
    let n = text.unicode_len();
    let mut pipes: Vec<usize> = Vec::new();
    let mut i: usize = 0;
    while i < n
        invariant
            n == text@.len(),
            i <= n,
            pipes@.len() == pipe_positions(text@.take(i as int)).len(),
            forall|k: int|
                0 <= k < pipes@.len() ==> pipes@[k] as int == #[trigger] pipe_positions(
                    text@.take(i as int),
                )[k],
        decreases n - i,
    {
        proof {
            assert(text@.take(i + 1).drop_last() =~= text@.take(i as int));
        }
        if text.get_char(i) == '|' {
            pipes.push(i);
        }
        i += 1;
    }
    proof {
        assert(text@.take(n as int) =~= text@);
        lemma_pipe_positions_bounds(text@);
        assert(pipes@[0] as int == pipe_positions(text@.take(n as int))[0]);
        assert(pipes@[1] as int == pipe_positions(text@.take(n as int))[1]);
    }
    let p0 = pipes[0];
    let p1 = pipes[1];
    let category = trim_text(text.substring_char(0, p0));
    let name = trim_text(text.substring_char(p0 + 1, p1));
    let url = trim_text(text.substring_char(p1 + 1, n));
    (category, name, url)
}

/// The largest feed identifier in the catalog, or `None` for an empty one.
pub fn max_feed_id_of(feeds: &Vec<RSSFeed>) -> (r: Option<usize>)
    ensures
        feeds@.len() == 0 ==> r is None,
        feeds@.len() > 0 ==> (r matches Some(m) && m as nat == max_feed_id(feed_recs(feeds@))),
{
    if feeds.len() == 0 {
        return None;
    }
    let mut m: usize = 0;
    let mut i: usize = 0;
    while i < feeds.len()
        invariant
            i <= feeds@.len(),
            m as nat == max_feed_id(feed_recs(feeds@).take(i as int)),
        decreases feeds@.len() - i,
    {
        proof {
            let s = feed_recs(feeds@);
            assert(s.take(i + 1).drop_last() =~= s.take(i as int));
        }
        if feeds[i].rss_id > m {
            m = feeds[i].rss_id;
        }
        i += 1;
    }
    proof {
        let s = feed_recs(feeds@);
        assert(s.take(feeds@.len() as int) =~= s);
    }
    Some(m)
}

/// Adds the feed described by the line `input` to the catalog, created at
/// `now`, and returns its position.
///
/// The new feed takes the identifier that follows the largest one in the
/// catalog. Fails, leaving the catalog as it was, when the catalog is empty
/// (it has no largest identifier) or when that identifier is the largest
/// `usize`.
pub fn add_feed(feeds: &mut Vec<RSSFeed>, input: &str, now: UtcInstant) -> (r: Result<
    usize,
    ErrorCodes,
>)
    requires
        is_feed_line(input@),
    ensures
        old(feeds)@.len() == 0 || max_feed_id(feed_recs(old(feeds)@)) >= usize::MAX ==> {
            &&& r == Err::<usize, ErrorCodes>(ErrorCodes::E0017_RSS_MAX_ID_FETCH_FAILURE)
            &&& final(feeds)@ == old(feeds)@
        },
        old(feeds)@.len() > 0 && max_feed_id(feed_recs(old(feeds)@)) < usize::MAX ==> {
            let (category, name, url) = feed_line_fields(input@);
            &&& r == Ok::<usize, ErrorCodes>(old(feeds)@.len() as usize)
            &&& feed_recs(final(feeds)@) == with_feed(
                feed_recs(old(feeds)@),
                FeedRec { rss_id: 0, category, name, url, created_at: now },
            )
        },
{
    let max_id = match max_feed_id_of(feeds) {
        Some(m) => m,
        None => return Err(ErrorCodes::E0017_RSS_MAX_ID_FETCH_FAILURE),
    };
    if max_id == usize::MAX {
        return Err(ErrorCodes::E0017_RSS_MAX_ID_FETCH_FAILURE);
    }
    let (category, name, url) = parse_feed_input(input);
    let feed = RSSFeed { rss_id: max_id + 1, category, name, url, created_at: now };
    let pos = feeds.len();
    feeds.push(feed);
    proof {
        assert(feed_recs(feeds@) =~= feed_recs(old(feeds)@).push(feeds@[pos as int]@));
    }
    Ok(pos)
}

/// Removes the selected feed from the catalog and returns the selection that
/// follows: the feed before it, or the first one when the first was removed.
/// With no selection, nothing changes.
pub fn remove_feed(feeds: &mut Vec<RSSFeed>, selected: Option<usize>) -> (r: Option<usize>)
    requires
        selected matches Some(i) ==> i < old(feeds)@.len(),
    ensures
        selected is None ==> r is None && final(feeds)@ == old(feeds)@,
        selected matches Some(i) ==> {
            &&& final(feeds)@ == old(feeds)@.remove(i as int)
            &&& r == Some(
                if i > 0 {
                    (i - 1) as usize
                } else {
                    0usize
                },
            )
        },
{
    match selected {
        None => None,
        Some(i) => {
            feeds.remove(i);
            if i > 0 {
                Some(i - 1)
            } else {
                Some(0)
            }
        },
    }
}

proof fn lemma_max_of_consecutive_ids(s: Seq<FeedRec>)
    requires
        forall|k: int| 0 <= k < s.len() ==> (#[trigger] s[k]).rss_id == k + 1,
    ensures
        max_feed_id(s) == s.len(),
    decreases s.len(),
{
    if s.len() > 0 {
        lemma_max_of_consecutive_ids(s.drop_last());
    }
}

/// Each addition takes the identifier that follows the largest one; so a
/// catalog seeded with the single feed 1 holds, after `fs.len()` additions,
/// exactly the identifiers 1 to `fs.len() + 1`, in order.
pub proof fn lemma_added_ids_are_consecutive(seed: Seq<FeedRec>, fs: Seq<FeedRec>)
    requires
        seed.len() == 1,
        seed[0].rss_id == 1,
    ensures
        with_feeds(seed, fs).len() == fs.len() + 1,
        forall|k: int|
            0 <= k < with_feeds(seed, fs).len() ==> (#[trigger] with_feeds(seed, fs)[k]).rss_id
                == k + 1,
        fs.len() > 0 ==> with_feeds(seed, fs).last().rss_id == max_feed_id(
            with_feeds(seed, fs.drop_last()),
        ) + 1,
    decreases fs.len(),
{
    if fs.len() > 0 {
        let prev = with_feeds(seed, fs.drop_last());
        lemma_added_ids_are_consecutive(seed, fs.drop_last());
        lemma_max_of_consecutive_ids(prev);
    }
}

} // verus!
