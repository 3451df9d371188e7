//! The article archive seen from one feed: its articles, newest first.

use crate::model::{article_recs, before, ArticleRec, Articles};
use vstd::prelude::*;

verus! {

/// The articles of `s` that belong to the feed `rss_id`, in archive order.
pub open spec fn of_feed(s: Seq<ArticleRec>, rss_id: nat) -> Seq<ArticleRec>
    decreases s.len(),
{
    if s.len() == 0 {
        Seq::empty()
    } else if s.last().rss_id == rss_id {
        of_feed(s.drop_last(), rss_id).push(s.last())
    } else {
        of_feed(s.drop_last(), rss_id)
    }
}

/// Where `a` goes in a list sorted newest first so that it follows every
/// article published at the same instant or later.
pub open spec fn insert_pos(t: Seq<ArticleRec>, a: ArticleRec) -> nat
    decreases t.len(),
{
    if t.len() == 0 {
        0
    } else if before(t[0].pub_date, a.pub_date) {
        0
    } else {
        1 + insert_pos(t.drop_first(), a)
    }
}

/// `s` sorted by publication instant, newest first; articles published at
/// the same instant keep their order in `s`.
pub open spec fn newest_first(s: Seq<ArticleRec>) -> Seq<ArticleRec>
    decreases s.len(),
{
    if s.len() == 0 {
        Seq::empty()
    } else {
        let t = newest_first(s.drop_last());
        t.insert(insert_pos(t, s.last()) as int, s.last())
    }
}

proof fn lemma_insert_pos_bound(t: Seq<ArticleRec>, a: ArticleRec)
    ensures
        insert_pos(t, a) <= t.len(),
    decreases t.len(),
{
    if t.len() > 0 {
        lemma_insert_pos_bound(t.drop_first(), a);
    }
}

/// `t` is ordered by publication instant, newest first.
pub open spec fn is_newest_first(t: Seq<ArticleRec>) -> bool {
    forall|i: int, j: int|
        0 <= i < j < t.len() ==> !before(#[trigger] t[i].pub_date, #[trigger] t[j].pub_date)
}

proof fn lemma_insert_pos_splits(t: Seq<ArticleRec>, a: ArticleRec)
    ensures
        insert_pos(t, a) <= t.len(),
        forall|i: int| 0 <= i < insert_pos(t, a) ==> !before(#[trigger] t[i].pub_date, a.pub_date),
        insert_pos(t, a) < t.len() ==> before(t[insert_pos(t, a) as int].pub_date, a.pub_date),
    decreases t.len(),
{
    if t.len() > 0 && !before(t[0].pub_date, a.pub_date) {
        let rest = t.drop_first();
        lemma_insert_pos_splits(rest, a);
        assert forall|i: int| 0 <= i < insert_pos(t, a) implies !before(
            #[trigger] t[i].pub_date,
            a.pub_date,
        ) by {
            if i > 0 {
                assert(t[i] == rest[i - 1]);
            }
        }
        if insert_pos(t, a) < t.len() {
            assert(t[insert_pos(t, a) as int] == rest[insert_pos(rest, a) as int]);
        }
    }
}

proof fn lemma_insert_keeps_order(t: Seq<ArticleRec>, a: ArticleRec)
    requires
        is_newest_first(t),
    ensures
        is_newest_first(t.insert(insert_pos(t, a) as int, a)),
{
    lemma_insert_pos_splits(t, a);
    let k = insert_pos(t, a) as int;
    let u = t.insert(k, a);
    assert forall|i: int, j: int| 0 <= i < j < u.len() implies !before(
        #[trigger] u[i].pub_date,
        #[trigger] u[j].pub_date,
    ) by {
        if j < k {
            assert(u[i] == t[i] && u[j] == t[j]);
        } else if j == k {
            assert(u[i] == t[i]);
        } else if i == k {
            assert(u[j] == t[j - 1]);
            if j - 1 > k {
                assert(!before(t[k].pub_date, t[j - 1].pub_date));
            }
        } else if i < k {
            assert(u[i] == t[i] && u[j] == t[j - 1]);
        } else {
            assert(u[i] == t[i - 1] && u[j] == t[j - 1]);
        }
    }
}

/// What [`newest_first`] gives is ordered newest first and holds the same
/// articles, each as often, as its argument.
pub proof fn lemma_newest_first_sorts(s: Seq<ArticleRec>)
    ensures
        is_newest_first(newest_first(s)),
        newest_first(s).to_multiset() == s.to_multiset(),
    decreases s.len(),
{
    broadcast use vstd::seq_lib::group_to_multiset_ensures;

    if s.len() > 0 {
        let t = newest_first(s.drop_last());
        lemma_newest_first_sorts(s.drop_last());
        lemma_insert_keeps_order(t, s.last());
        lemma_insert_pos_splits(t, s.last());
        assert(s.drop_last().push(s.last()) =~= s);
    }
}

/// Where `a` goes in `v`, a list sorted newest first.
fn find_insert_pos(v: &Vec<Articles>, a: &Articles) -> (r: usize)
    ensures
        r as nat == insert_pos(article_recs(v@), a@),
{
    let ghost t = article_recs(v@);
    let mut j: usize = 0;
    proof {
        assert(t.skip(0) =~= t);
    }
    while j < v.len() && !v[j].pub_date.is_before(&a.pub_date)
        invariant
            j <= v@.len(),
            t == article_recs(v@),
            insert_pos(t, a@) == j + insert_pos(t.skip(j as int), a@),
        decreases v@.len() - j,
    {
        proof {
            assert(t.skip(j as int)[0] == t[j as int]);
            assert(t.skip(j as int).drop_first() =~= t.skip(j + 1));
        }
        j += 1;
    }
    proof {
        if j < v@.len() {
            assert(t.skip(j as int)[0] == t[j as int]);
        }
    }
    j
}

/// The articles of the feed `rss_id`, newest first; articles published at
/// the same instant keep their archive order.
pub fn articles_for_feed(articles: &Vec<Articles>, rss_id: usize) -> (r: Vec<Articles>)
    ensures
        article_recs(r@) == newest_first(of_feed(article_recs(articles@), rss_id as nat)),
        is_newest_first(article_recs(r@)),
        article_recs(r@).to_multiset() == of_feed(article_recs(articles@), rss_id as nat).to_multiset(),
{
    let ghost s = article_recs(articles@);
    let mut out: Vec<Articles> = Vec::new();
    let mut i: usize = 0;
    while i < articles.len()
        invariant
            i <= articles@.len(),
            s == article_recs(articles@),
            article_recs(out@) == newest_first(of_feed(s.take(i as int), rss_id as nat)),
        decreases articles@.len() - i,
    {
        proof {
            assert(s.take(i + 1).drop_last() =~= s.take(i as int));
            assert(s.take(i + 1).last() == s[i as int]);
        }
        if articles[i].rss_id == rss_id {
            let a = articles[i].duplicate();
            let pos = find_insert_pos(&out, &a);
            proof {
                lemma_insert_pos_bound(article_recs(out@), a@);
            }
            let ghost prev = out@;
            out.insert(pos, a);
            proof {
                assert(article_recs(out@) =~= article_recs(prev).insert(pos as int, a@));
                let u = of_feed(s.take(i as int), rss_id as nat);
                assert(s.take(i + 1).last() == a@);
                assert(u.push(a@).drop_last() =~= u);
            }
        }
        i += 1;
    }
    proof {
        assert(s.take(articles@.len() as int) =~= s);
        lemma_newest_first_sorts(of_feed(s, rss_id as nat));
    }
    out
}

} // verus!
