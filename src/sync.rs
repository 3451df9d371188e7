//! Incremental synchronisation of one feed's articles: the conditional
//! request to issue, and the merge of what the source returned into the
//! archive.

use crate::channel::{channel_items, item_recs, read_channel_items, FeedItem, ItemRec};
use crate::error_db::ErrorCodes;
use crate::model::{
    article_recs, before, has_duplicate, same_content, ArticleRec, Articles, RSSFeed, UtcInstant,
};
use crate::timestamp::{
    format_rfc2822, parse_rfc2822, rfc2822_instant, rfc2822_text, EARLIEST_RFC2822_SECS,
    LATEST_RFC2822_SECS,
};
use vstd::prelude::*;

verus! {

/// The largest article identifier in `s`, or 0 for an empty archive.
pub open spec fn max_article_id(s: Seq<ArticleRec>) -> nat
    decreases s.len(),
{
    if s.len() == 0 {
        0
    } else {
        let m = max_article_id(s.drop_last());
        if s.last().article_id > m {
            s.last().article_id
        } else {
            m
        }
    }
}

/// The latest capture instant in a non-empty archive.
pub open spec fn latest_capture(s: Seq<ArticleRec>) -> UtcInstant
    decreases s.len(),
{
    if s.len() <= 1 {
        s[0].created_at
    } else {
        let m = latest_capture(s.drop_last());
        if before(m, s.last().created_at) {
            s.last().created_at
        } else {
            m
        }
    }
}

/// The characters of an optional field, empty where it is absent.
pub open spec fn text_or_empty(o: Option<Seq<char>>) -> Seq<char> {
    match o {
        Some(t) => t,
        None => Seq::empty(),
    }
}

/// The article that a channel item becomes.
pub open spec fn candidate(
    rss_id: nat,
    id: nat,
    item: ItemRec,
    date: UtcInstant,
    now: UtcInstant,
) -> ArticleRec {
    ArticleRec {
        article_id: id,
        rss_id,
        title: text_or_empty(item.title),
        summary: text_or_empty(item.description),
        article_link: text_or_empty(item.link),
        pub_date: date,
        created_at: now,
    }
}

/// The archive after merging `items` into `acc`, in order: each item takes
/// the next identifier from `next_id`, its publication date is read as RFC
/// 2822 text, and it is appended unless it duplicates an article already
/// there. `None` where some item's date cannot be read.
pub open spec fn merged(
    acc: Seq<ArticleRec>,
    rss_id: nat,
    items: Seq<ItemRec>,
    next_id: nat,
    now: UtcInstant,
) -> Option<Seq<ArticleRec>>
    decreases items.len(),
{
    if items.len() == 0 {
        Some(acc)
    } else {
        match rfc2822_instant(text_or_empty(items[0].pub_date)) {
            None => None,
            Some(date) => {
                let c = candidate(rss_id, next_id, items[0], date, now);
                let acc2 = if has_duplicate(acc, c) {
                    acc
                } else {
                    acc.push(c)
                };
                merged(acc2, rss_id, items.drop_first(), next_id + 1, now)
            },
        }
    }
}

/// The largest article identifier in the archive, or `None` for an empty
/// archive.
pub fn max_article_id_of(articles: &Vec<Articles>) -> (r: Option<usize>)
    ensures
        articles@.len() == 0 ==> r is None,
        articles@.len() > 0 ==> (r matches Some(m) && m as nat == max_article_id(
            article_recs(articles@),
        )),
{
    if articles.len() == 0 {
        return None;
    }
    let mut m: usize = 0;
    let mut i: usize = 0;
    while i < articles.len()
        invariant
            i <= articles@.len(),
            m as nat == max_article_id(article_recs(articles@).take(i as int)),
        decreases articles@.len() - i,
    {
        proof {
            let s = article_recs(articles@);
            assert(s.take(i + 1).drop_last() =~= s.take(i as int));
        }
        if articles[i].article_id > m {
            m = articles[i].article_id;
        }
        i += 1;
    }
    proof {
        let s = article_recs(articles@);
        assert(s.take(articles@.len() as int) =~= s);
    }
    Some(m)
}

/// The latest capture instant in the archive, or `None` for an empty archive.
pub fn latest_capture_of(articles: &Vec<Articles>) -> (r: Option<UtcInstant>)
    ensures
        articles@.len() == 0 ==> r is None,
        articles@.len() > 0 ==> r == Some(latest_capture(article_recs(articles@))),
{
    if articles.len() == 0 {
        return None;
    }
    let mut m: UtcInstant = articles[0].created_at;
    let mut i: usize = 1;
    while i < articles.len()
        invariant
            1 <= i <= articles@.len(),
            m == latest_capture(article_recs(articles@).take(i as int)),
        decreases articles@.len() - i,
    {
        proof {
            let s = article_recs(articles@);
            assert(s.take(i + 1).drop_last() =~= s.take(i as int));
        }
        if m.is_before(&articles[i].created_at) {
            m = articles[i].created_at;
        }
        i += 1;
    }
    proof {
        let s = article_recs(articles@);
        assert(s.take(articles@.len() as int) =~= s);
    }
    Some(m)
}

/// Whether some article of `v` is a duplicate of `a`.
pub fn contains_duplicate(v: &Vec<Articles>, a: &Articles) -> (r: bool)
    ensures
        r == has_duplicate(article_recs(v@), a@),
{
    let mut i: usize = 0;
    while i < v.len()
        invariant
            i <= v@.len(),
            forall|k: int| 0 <= k < i ==> !same_content(#[trigger] article_recs(v@)[k], a@),
        decreases v@.len() - i,
    {
        if v[i].same_content_as(a) {
            assert(same_content(article_recs(v@)[i as int], a@));
            return true;
        }
        i += 1;
    }
    false
}

/// A duplicate in the concatenation of two lists is a duplicate in one of them.
proof fn lemma_duplicate_concat(s: Seq<ArticleRec>, t: Seq<ArticleRec>, a: ArticleRec)
    ensures
        has_duplicate(s + t, a) == (has_duplicate(s, a) || has_duplicate(t, a)),
{
    if has_duplicate(s + t, a) {
        let i = choose|i: int| 0 <= i < (s + t).len() && same_content(#[trigger] (s + t)[i], a);
        if i >= s.len() {
            assert(same_content(t[i - s.len()], a));
        }
    }
    if has_duplicate(s, a) {
        let i = choose|i: int| 0 <= i < s.len() && same_content(#[trigger] s[i], a);
        assert(same_content((s + t)[i], a));
    }
    if has_duplicate(t, a) {
        let i = choose|i: int| 0 <= i < t.len() && same_content(#[trigger] t[i], a);
        assert(same_content((s + t)[s.len() + i], a));
    }
}

/// The characters of an optional field, empty where it is absent.
fn owned_or_empty(o: &Option<String>) -> (r: String)
    ensures
        r@ == text_or_empty(crate::channel::opt_text(*o)),
{
    match o {
        Some(t) => t.clone(),
        None => String::new(),
    }
}

/// Merges the items of a channel into the archive for the feed `rss_id`.
///
/// Identifiers continue from the largest one in the archive, one per item,
/// duplicates included; an item that duplicates a stored or an already
/// queued article is skipped; the others are appended in channel order with
/// `now` as their capture instant. Returns the number of articles appended.
/// The archive is left as it was when the archive is empty, when the
/// identifiers would run out, or when some item's date cannot be read.
pub fn merge_items(
    articles: &mut Vec<Articles>,
    rss_id: usize,
    items: &Vec<FeedItem>,
    now: UtcInstant,
) -> (r: Result<usize, ErrorCodes>)
    ensures
        old(articles)@.len() == 0 ==> r == Err::<usize, ErrorCodes>(
            ErrorCodes::E0013_ARTICLES_LIST_READ_FAILURE,
        ),
        old(articles)@.len() > 0 && max_article_id(article_recs(old(articles)@)) + items@.len()
            > usize::MAX ==> r == Err::<usize, ErrorCodes>(
            ErrorCodes::E0013_ARTICLES_LIST_READ_FAILURE,
        ),
        old(articles)@.len() > 0 && max_article_id(article_recs(old(articles)@)) + items@.len()
            <= usize::MAX ==> match merged(
            article_recs(old(articles)@),
            rss_id as nat,
            item_recs(items@),
            max_article_id(article_recs(old(articles)@)) + 1,
            now,
        ) {
            None => r == Err::<usize, ErrorCodes>(ErrorCodes::E0020_RFC2822_TIMESTAMP_PARSE_FAILURE),
            Some(m) => r == Ok::<usize, ErrorCodes>((m.len() - old(articles)@.len()) as usize)
                && article_recs(final(articles)@) == m,
        },
        r is Err ==> final(articles)@ == old(articles)@,
{
    let max_id = match max_article_id_of(articles) {
        Some(m) => m,
        None => return Err(ErrorCodes::E0013_ARTICLES_LIST_READ_FAILURE),
    };
    if max_id > usize::MAX - items.len() {
        return Err(ErrorCodes::E0013_ARTICLES_LIST_READ_FAILURE);
    }
    let ghost stored = article_recs(articles@);
    let ghost all = item_recs(items@);
    let ghost first = max_id as nat + 1;
    let mut added: Vec<Articles> = Vec::new();
    proof {
        assert(stored + article_recs(added@) =~= stored);
        assert(all.skip(0) =~= all);
    }
    let mut next: usize = max_id;
    let mut i: usize = 0;
    while i < items.len()
        invariant
            i <= items@.len(),
            articles@ == old(articles)@,
            stored == article_recs(articles@),
            stored.len() > 0,
            max_id as nat == max_article_id(stored),
            all == item_recs(items@),
            first == max_id as nat + 1,
            max_id + items@.len() <= usize::MAX,
            next == max_id + i,
            merged(stored, rss_id as nat, all, first, now) == merged(
                stored + article_recs(added@),
                rss_id as nat,
                all.skip(i as int),
                (first + i) as nat,
                now,
            ),
            article_recs(added@).len() == added@.len(),
        decreases items@.len() - i,
    {
        next = next + 1;
        let item = &items[i];
        let empty = String::new();
        let date_text: &str = match &item.pub_date {
            Some(d) => d.as_str(),
            None => empty.as_str(),
        };
        let date = match parse_rfc2822(date_text) {
            Some(d) => d,
            None => {
                proof {
                    assert(all.skip(i as int)[0] == all[i as int]);
                }
                return Err(ErrorCodes::E0020_RFC2822_TIMESTAMP_PARSE_FAILURE);
            },
        };
        let cand = Articles {
            article_id: next,
            rss_id,
            title: owned_or_empty(&item.title),
            summary: owned_or_empty(&item.description),
            article_link: owned_or_empty(&item.link),
            pub_date: date,
            created_at: now,
        };
        let dup_stored = contains_duplicate(articles, &cand);
        let dup_added = contains_duplicate(&added, &cand);
        proof {
            let acc = stored + article_recs(added@);
            let rest = all.skip(i as int);
            assert(rest[0] == all[i as int]);
            assert(rest.drop_first() =~= all.skip(i + 1));
            assert(cand@ == candidate(rss_id as nat, (first + i) as nat, all[i as int], date, now));
            lemma_duplicate_concat(stored, article_recs(added@), cand@);
        }
        if !dup_stored && !dup_added {
            let ghost before_push = added@;
            added.push(cand);
            proof {
                assert(article_recs(added@) =~= article_recs(before_push).push(cand@));
                assert(stored + article_recs(added@) =~= (stored + article_recs(before_push)).push(
                    cand@,
                ));
            }
        }
        i += 1;
    }
    proof {
        assert(all.skip(items@.len() as int).len() == 0);
    }
    let n = added.len();
    let ghost queued = added@;
    articles.append(&mut added);
    proof {
        assert(article_recs(articles@) =~= stored + article_recs(queued));
    }
    Ok(n)
}

/// The item's date can be read and some article of `s` duplicates the
/// article it becomes.
pub open spec fn covered(s: Seq<ArticleRec>, rss_id: nat, item: ItemRec) -> bool {
    match rfc2822_instant(text_or_empty(item.pub_date)) {
        None => false,
        Some(d) => has_duplicate(s, candidate(rss_id, 0, item, d, d)),
    }
}

proof fn lemma_duplicate_transfer(s: Seq<ArticleRec>, a: ArticleRec, b: ArticleRec)
    requires
        has_duplicate(s, a),
        same_content(a, b),
    ensures
        has_duplicate(s, b),
{
    let i = choose|i: int| 0 <= i < s.len() && same_content(#[trigger] s[i], a);
    assert(same_content(s[i], b));
}

/// Merging only appends: what the archive held before stays.
proof fn lemma_merged_keeps(
    acc: Seq<ArticleRec>,
    rss_id: nat,
    items: Seq<ItemRec>,
    next_id: nat,
    now: UtcInstant,
    a: ArticleRec,
)
    requires
        merged(acc, rss_id, items, next_id, now) is Some,
        has_duplicate(acc, a),
    ensures
        has_duplicate(merged(acc, rss_id, items, next_id, now)->0, a),
    decreases items.len(),
{
    if items.len() > 0 {
        let d = rfc2822_instant(text_or_empty(items[0].pub_date))->0;
        let c = candidate(rss_id, next_id, items[0], d, now);
        if !has_duplicate(acc, c) {
            let i = choose|i: int| 0 <= i < acc.len() && same_content(#[trigger] acc[i], a);
            assert(same_content(acc.push(c)[i], a));
            lemma_merged_keeps(acc.push(c), rss_id, items.drop_first(), next_id + 1, now, a);
        } else {
            lemma_merged_keeps(acc, rss_id, items.drop_first(), next_id + 1, now, a);
        }
    }
}

/// After a merge, every merged item is matched by an article of the result.
proof fn lemma_merged_covers(
    acc: Seq<ArticleRec>,
    rss_id: nat,
    items: Seq<ItemRec>,
    next_id: nat,
    now: UtcInstant,
)
    requires
        merged(acc, rss_id, items, next_id, now) is Some,
    ensures
        forall|j: int|
            0 <= j < items.len() ==> covered(
                merged(acc, rss_id, items, next_id, now)->0,
                rss_id,
                #[trigger] items[j],
            ),
    decreases items.len(),
{
    if items.len() > 0 {
        let r = merged(acc, rss_id, items, next_id, now)->0;
        let d = rfc2822_instant(text_or_empty(items[0].pub_date))->0;
        let c = candidate(rss_id, next_id, items[0], d, now);
        let acc2 = if has_duplicate(acc, c) {
            acc
        } else {
            acc.push(c)
        };
        let tail = items.drop_first();
        lemma_merged_covers(acc2, rss_id, tail, next_id + 1, now);
        if !has_duplicate(acc, c) {
            assert(same_content(acc2[acc.len() as int], c));
        }
        lemma_merged_keeps(acc2, rss_id, tail, next_id + 1, now, c);
        lemma_duplicate_transfer(r, c, candidate(rss_id, 0, items[0], d, d));
        assert forall|j: int| 0 <= j < items.len() implies covered(r, rss_id, #[trigger] items[j]) by {
            if j > 0 {
                assert(items[j] == tail[j - 1]);
            }
        }
    }
}

/// Items that are all matched already leave the archive as it is.
proof fn lemma_covered_merge_is_identity(
    s: Seq<ArticleRec>,
    rss_id: nat,
    items: Seq<ItemRec>,
    next_id: nat,
    now: UtcInstant,
)
    requires
        forall|j: int| 0 <= j < items.len() ==> covered(s, rss_id, #[trigger] items[j]),
    ensures
        merged(s, rss_id, items, next_id, now) == Some(s),
    decreases items.len(),
{
    if items.len() > 0 {
        assert(covered(s, rss_id, items[0]));
        let d = rfc2822_instant(text_or_empty(items[0].pub_date))->0;
        lemma_duplicate_transfer(
            s,
            candidate(rss_id, 0, items[0], d, d),
            candidate(rss_id, next_id, items[0], d, now),
        );
        let tail = items.drop_first();
        assert forall|j: int| 0 <= j < tail.len() implies covered(s, rss_id, #[trigger] tail[j]) by {
            assert(tail[j] == items[j + 1]);
        }
        lemma_covered_merge_is_identity(s, rss_id, tail, next_id + 1, now);
    }
}

/// Merging the same channel items a second time appends nothing, whatever
/// identifiers and capture instant the second merge uses: each item is then
/// a duplicate of an article that the first merge kept or appended.
pub proof fn lemma_merge_twice_adds_nothing(
    stored: Seq<ArticleRec>,
    rss_id: nat,
    items: Seq<ItemRec>,
    first_id: nat,
    first_now: UtcInstant,
    second_id: nat,
    second_now: UtcInstant,
)
    requires
        merged(stored, rss_id, items, first_id, first_now) is Some,
    ensures
        merged(merged(stored, rss_id, items, first_id, first_now)->0, rss_id, items, second_id, second_now)
            == merged(stored, rss_id, items, first_id, first_now),
{
    lemma_merged_covers(stored, rss_id, items, first_id, first_now);
    lemma_covered_merge_is_identity(
        merged(stored, rss_id, items, first_id, first_now)->0,
        rss_id,
        items,
        second_id,
        second_now,
    );
}

/// No two articles of `s` are duplicates of one another.
pub open spec fn no_duplicates(s: Seq<ArticleRec>) -> bool {
    forall|i: int, j: int| 0 <= i < j < s.len() ==> !same_content(#[trigger] s[i], #[trigger] s[j])
}

/// No two articles of `s` share an identifier.
pub open spec fn unique_ids(s: Seq<ArticleRec>) -> bool {
    forall|i: int, j: int|
        0 <= i < j < s.len() ==> (#[trigger] s[i]).article_id != (#[trigger] s[j]).article_id
}

proof fn lemma_max_article_id_bounds(s: Seq<ArticleRec>)
    ensures
        forall|i: int| 0 <= i < s.len() ==> (#[trigger] s[i]).article_id <= max_article_id(s),
    decreases s.len(),
{
    if s.len() > 0 {
        lemma_max_article_id_bounds(s.drop_last());
        assert forall|i: int| 0 <= i < s.len() implies (#[trigger] s[i]).article_id
            <= max_article_id(s) by {
            if i < s.len() - 1 {
                assert(s[i] == s.drop_last()[i]);
            }
        }
    }
}

proof fn lemma_merged_invariants(
    acc: Seq<ArticleRec>,
    rss_id: nat,
    items: Seq<ItemRec>,
    next_id: nat,
    now: UtcInstant,
)
    requires
        merged(acc, rss_id, items, next_id, now) is Some,
        no_duplicates(acc),
        unique_ids(acc),
        forall|i: int| 0 <= i < acc.len() ==> (#[trigger] acc[i]).article_id < next_id,
    ensures
        no_duplicates(merged(acc, rss_id, items, next_id, now)->0),
        unique_ids(merged(acc, rss_id, items, next_id, now)->0),
    decreases items.len(),
{
    if items.len() > 0 {
        let d = rfc2822_instant(text_or_empty(items[0].pub_date))->0;
        let c = candidate(rss_id, next_id, items[0], d, now);
        if has_duplicate(acc, c) {
            lemma_merged_invariants(acc, rss_id, items.drop_first(), next_id + 1, now);
        } else {
            let acc2 = acc.push(c);
            assert forall|i: int, j: int| 0 <= i < j < acc2.len() implies !same_content(
                #[trigger] acc2[i],
                #[trigger] acc2[j],
            ) && acc2[i].article_id != acc2[j].article_id by {
                if j == acc.len() {
                    assert(acc2[i] == acc[i]);
                    if same_content(acc[i], c) {
                        assert(has_duplicate(acc, c));
                    }
                } else {
                    assert(acc2[i] == acc[i] && acc2[j] == acc[j]);
                }
            }
            lemma_merged_invariants(acc2, rss_id, items.drop_first(), next_id + 1, now);
        }
    }
}

/// A merge keeps the archive's invariants: an archive without duplicates and
/// with distinct identifiers stays so, since each appended article is new to
/// the archive and takes an identifier above every one in it.
pub proof fn lemma_merge_keeps_archive_invariants(
    stored: Seq<ArticleRec>,
    rss_id: nat,
    items: Seq<ItemRec>,
    now: UtcInstant,
)
    requires
        no_duplicates(stored),
        unique_ids(stored),
        merged(stored, rss_id, items, max_article_id(stored) + 1, now) is Some,
    ensures
        no_duplicates(merged(stored, rss_id, items, max_article_id(stored) + 1, now)->0),
        unique_ids(merged(stored, rss_id, items, max_article_id(stored) + 1, now)->0),
{
    lemma_max_article_id_bounds(stored);
    lemma_merged_invariants(stored, rss_id, items, max_article_id(stored) + 1, now);
}

/// The conditional request that refreshes one feed.
#[derive(Debug)]
pub struct FetchRequest {
    /// The feed being refreshed.
    pub rss_id: usize,
    /// Where to send the request.
    pub url: String,
    /// The value of the `If-Modified-Since` header: the latest capture
    /// instant of the whole archive, as RFC 2822 text.
    pub if_modified_since: String,
}

/// Plans the refresh of the feed at position `selected` of `feeds`.
///
/// Fails when no feed stands at `selected`, when the archive is empty and so
/// has no baseline instant, or when the baseline cannot be written as RFC
/// 2822 text.
pub fn plan_refresh(feeds: &Vec<RSSFeed>, articles: &Vec<Articles>, selected: usize) -> (r: Result<
    FetchRequest,
    ErrorCodes,
>)
    ensures
        selected >= feeds@.len() ==> r == Err::<FetchRequest, ErrorCodes>(
            ErrorCodes::E0008_LIST_STATE_SELECTION_FAILURE,
        ),
        selected < feeds@.len() && articles@.len() == 0 ==> r == Err::<FetchRequest, ErrorCodes>(
            ErrorCodes::E0021_ARTICLE_MAX_TIMESTAMP_FETCH_FAILURE,
        ),
        selected < feeds@.len() && articles@.len() > 0 ==> {
            let t = latest_capture(article_recs(articles@));
            &&& !(EARLIEST_RFC2822_SECS <= t.secs <= LATEST_RFC2822_SECS) ==> r
                == Err::<FetchRequest, ErrorCodes>(
                ErrorCodes::E0020_RFC2822_TIMESTAMP_PARSE_FAILURE,
            )
            &&& EARLIEST_RFC2822_SECS <= t.secs <= LATEST_RFC2822_SECS && t.nanos < 1_000_000_000
                ==> r is Ok
            &&& r is Err ==> r == Err::<FetchRequest, ErrorCodes>(
                ErrorCodes::E0020_RFC2822_TIMESTAMP_PARSE_FAILURE,
            )
            &&& r matches Ok(req) ==> {
                &&& req.rss_id == feeds@[selected as int].rss_id
                &&& req.url@ == feeds@[selected as int].url@
                &&& req.if_modified_since@ == rfc2822_text(t)
            }
        },
{
    if selected >= feeds.len() {
        return Err(ErrorCodes::E0008_LIST_STATE_SELECTION_FAILURE);
    }
    let baseline = match latest_capture_of(articles) {
        Some(t) => t,
        None => return Err(ErrorCodes::E0021_ARTICLE_MAX_TIMESTAMP_FETCH_FAILURE),
    };
    if baseline.secs < EARLIEST_RFC2822_SECS || baseline.secs > LATEST_RFC2822_SECS {
        return Err(ErrorCodes::E0020_RFC2822_TIMESTAMP_PARSE_FAILURE);
    }
    let header = match format_rfc2822(baseline) {
        Some(h) => h,
        None => return Err(ErrorCodes::E0020_RFC2822_TIMESTAMP_PARSE_FAILURE),
    };
    let feed = &feeds[selected];
    Ok(FetchRequest { rss_id: feed.rss_id, url: feed.url.clone(), if_modified_since: header })
}

/// The HTTP status that signals that nothing changed since the baseline.
pub const NOT_MODIFIED: u16 = 304;

/// Applies the response to a refresh of the feed `rss_id` to the archive.
///
/// A "not modified" status leaves the archive as it is. Any other status has
/// its body read as an RSS channel, whose items are merged as
/// [`merge_items`] does. Returns the number of articles appended; the archive
/// needs writing back only when that number is positive. On failure the
/// archive is left as it was.
pub fn apply_response(
    articles: &mut Vec<Articles>,
    rss_id: usize,
    status: u16,
    body: &Vec<u8>,
    now: UtcInstant,
) -> (r: Result<usize, ErrorCodes>)
    ensures
        status == NOT_MODIFIED ==> r == Ok::<usize, ErrorCodes>(0) && final(articles)@ == old(
            articles,
        )@,
        status != NOT_MODIFIED && channel_items(body@) is None ==> r == Err::<usize, ErrorCodes>(
            ErrorCodes::E0012_RSS_CHANNEL_PARSE_FAILURE,
        ),
        status != NOT_MODIFIED && channel_items(body@) is Some ==> {
            let items = channel_items(body@)->0;
            let stored = article_recs(old(articles)@);
            &&& stored.len() == 0 ==> r == Err::<usize, ErrorCodes>(
                ErrorCodes::E0013_ARTICLES_LIST_READ_FAILURE,
            )
            &&& stored.len() > 0 && max_article_id(stored) + items.len() > usize::MAX ==> r
                == Err::<usize, ErrorCodes>(ErrorCodes::E0013_ARTICLES_LIST_READ_FAILURE)
            &&& stored.len() > 0 && max_article_id(stored) + items.len() <= usize::MAX ==> match merged(
                stored,
                rss_id as nat,
                items,
                max_article_id(stored) + 1,
                now,
            ) {
                None => r == Err::<usize, ErrorCodes>(
                    ErrorCodes::E0020_RFC2822_TIMESTAMP_PARSE_FAILURE,
                ),
                Some(m) => r == Ok::<usize, ErrorCodes>((m.len() - stored.len()) as usize)
                    && article_recs(final(articles)@) == m,
            }
        },
        r is Err ==> final(articles)@ == old(articles)@,
{
    if status == NOT_MODIFIED {
        return Ok(0);
    }
    let items = match read_channel_items(body) {
        Some(v) => v,
        None => return Err(ErrorCodes::E0012_RSS_CHANNEL_PARSE_FAILURE),
    };
    merge_items(articles, rss_id, &items, now)
}

} // verus!
