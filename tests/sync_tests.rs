use byte_bite::error_db::ErrorCodes;
use byte_bite::model::{Articles, RSSFeed, UtcInstant};
use byte_bite::sync::{
    apply_response, latest_capture_of, max_article_id_of, merge_items, plan_refresh, NOT_MODIFIED,
};
use byte_bite::channel::FeedItem;

const JAN_1_2023: i64 = 1672531200;
const HOUR: i64 = 3600;
const DAY: i64 = 86400;

fn at(secs: i64) -> UtcInstant {
    UtcInstant { secs, nanos: 0 }
}

fn feed(id: usize, url: &str) -> RSSFeed {
    RSSFeed {
        rss_id: id,
        category: "news".to_string(),
        name: format!("feed {}", id),
        url: url.to_string(),
        created_at: at(JAN_1_2023),
    }
}

fn article(id: usize, rss_id: usize, title: &str, pub_date: i64, created_at: i64) -> Articles {
    Articles {
        article_id: id,
        rss_id,
        title: title.to_string(),
        summary: title.to_lowercase(),
        article_link: format!("http://x/{}", title.to_lowercase()),
        pub_date: at(pub_date),
        created_at: at(created_at),
    }
}

fn item_xml(title: &str, date: &str) -> String {
    format!(
        "<item><title>{}</title><description>{}</description><link>http://x/{}</link><pubDate>{}</pubDate></item>",
        title,
        title.to_lowercase(),
        title.to_lowercase(),
        date
    )
}

fn channel_xml(items: &[String]) -> Vec<u8> {
    let mut s = String::from(
        "<?xml version=\"1.0\"?><rss version=\"2.0\"><channel><title>T</title><link>http://x</link><description>D</description>",
    );
    for i in items {
        s.push_str(i);
    }
    s.push_str("</channel></rss>");
    s.into_bytes()
}

fn three_items() -> Vec<u8> {
    channel_xml(&[
        item_xml("A", "Sun, 01 Jan 2023 10:00:00 +0000"),
        item_xml("B", "Mon, 02 Jan 2023 10:00:00 +0000"),
        item_xml("C", "Tue, 03 Jan 2023 10:00:00 +0000"),
    ])
}

fn seeded_archive() -> Vec<Articles> {
    vec![
        article(5, 1, "Seed", JAN_1_2023, JAN_1_2023 + HOUR),
        article(7, 2, "C", JAN_1_2023 + 2 * DAY + 10 * HOUR, JAN_1_2023 + 2 * HOUR),
    ]
}

fn same(a: &Articles, b: &Articles) -> bool {
    a.article_id == b.article_id
        && a.rss_id == b.rss_id
        && a.title == b.title
        && a.summary == b.summary
        && a.article_link == b.article_link
        && a.pub_date == b.pub_date
        && a.created_at == b.created_at
}

fn same_all(a: &[Articles], b: &[Articles]) -> bool {
    a.len() == b.len() && a.iter().zip(b.iter()).all(|(x, y)| same(x, y))
}

#[test]
fn not_modified_leaves_archive_unchanged() {
    let mut archive = seeded_archive();
    let feeds = vec![feed(1, "http://x/one"), feed(2, "http://x/feed")];
    let req = plan_refresh(&feeds, &archive, 1).unwrap();
    assert_eq!(req.rss_id, 2);
    assert_eq!(req.url, "http://x/feed");
    assert_eq!(req.if_modified_since, "Sun, 1 Jan 2023 02:00:00 +0000");
    let before = seeded_archive();
    let r = apply_response(&mut archive, 2, NOT_MODIFIED, &Vec::new(), at(JAN_1_2023 + 9 * DAY));
    assert_eq!(r, Ok(0));
    assert!(same_all(&archive, &before));
}

#[test]
fn second_sync_not_modified_is_idempotent() {
    let mut archive = seeded_archive();
    let first = apply_response(&mut archive, 2, 200, &three_items(), at(JAN_1_2023 + 5 * DAY));
    assert_eq!(first, Ok(2));
    let snapshot: Vec<Articles> = archive.iter().map(|a| a.duplicate()).collect();
    let second =
        apply_response(&mut archive, 2, NOT_MODIFIED, &three_items(), at(JAN_1_2023 + 6 * DAY));
    assert_eq!(second, Ok(0));
    assert!(same_all(&archive, &snapshot));
}

#[test]
fn duplicate_item_is_skipped_and_ids_continue() {
    let mut archive = seeded_archive();
    let now = at(JAN_1_2023 + 5 * DAY);
    let r = apply_response(&mut archive, 2, 200, &three_items(), now);
    assert_eq!(r, Ok(2));
    assert_eq!(archive.len(), 4);
    let a = &archive[2];
    assert_eq!(a.article_id, 8);
    assert_eq!(a.rss_id, 2);
    assert_eq!(a.title, "A");
    assert_eq!(a.summary, "a");
    assert_eq!(a.article_link, "http://x/a");
    assert_eq!(a.pub_date, at(JAN_1_2023 + 10 * HOUR));
    assert_eq!(a.created_at, now);
    let b = &archive[3];
    assert_eq!(b.article_id, 9);
    assert_eq!(b.title, "B");
    assert_eq!(b.pub_date, at(JAN_1_2023 + DAY + 10 * HOUR));
}

#[test]
fn same_payload_twice_adds_nothing_the_second_time() {
    let mut archive = seeded_archive();
    assert_eq!(apply_response(&mut archive, 2, 200, &three_items(), at(JAN_1_2023 + 5 * DAY)), Ok(2));
    let snapshot: Vec<Articles> = archive.iter().map(|a| a.duplicate()).collect();
    assert_eq!(apply_response(&mut archive, 2, 200, &three_items(), at(JAN_1_2023 + 6 * DAY)), Ok(0));
    assert!(same_all(&archive, &snapshot));
}

#[test]
fn repeated_item_within_one_payload_is_kept_once() {
    let mut archive = seeded_archive();
    let body = channel_xml(&[
        item_xml("D", "Wed, 04 Jan 2023 10:00:00 +0000"),
        item_xml("D", "Wed, 04 Jan 2023 10:00:00 +0000"),
        item_xml("E", "Thu, 05 Jan 2023 10:00:00 +0000"),
    ]);
    assert_eq!(apply_response(&mut archive, 2, 200, &body, at(JAN_1_2023)), Ok(2));
    assert_eq!(archive[2].article_id, 8);
    assert_eq!(archive[3].article_id, 10);
    assert_eq!(archive[3].title, "E");
}

#[test]
fn same_content_for_another_feed_is_not_a_duplicate() {
    let mut archive = seeded_archive();
    let r = apply_response(&mut archive, 3, 200, &three_items(), at(JAN_1_2023));
    assert_eq!(r, Ok(3));
    assert_eq!(archive.len(), 5);
}

#[test]
fn unreadable_body_is_a_channel_error() {
    let mut archive = seeded_archive();
    let r = apply_response(&mut archive, 2, 200, &b"not a feed".to_vec(), at(JAN_1_2023));
    assert_eq!(r, Err(ErrorCodes::E0012_RSS_CHANNEL_PARSE_FAILURE));
    assert!(same_all(&archive, &seeded_archive()));
}

#[test]
fn unreadable_date_aborts_the_whole_merge() {
    let mut archive = seeded_archive();
    let body = channel_xml(&[
        item_xml("D", "Wed, 04 Jan 2023 10:00:00 +0000"),
        item_xml("E", "yesterday"),
    ]);
    let r = apply_response(&mut archive, 2, 200, &body, at(JAN_1_2023));
    assert_eq!(r, Err(ErrorCodes::E0020_RFC2822_TIMESTAMP_PARSE_FAILURE));
    assert!(same_all(&archive, &seeded_archive()));
}

#[test]
fn missing_date_aborts_the_merge() {
    let mut archive = seeded_archive();
    let items = vec![FeedItem { title: Some("X".to_string()), description: None, link: None, pub_date: None }];
    let r = merge_items(&mut archive, 2, &items, at(JAN_1_2023));
    assert_eq!(r, Err(ErrorCodes::E0020_RFC2822_TIMESTAMP_PARSE_FAILURE));
    assert_eq!(archive.len(), 2);
}

#[test]
fn absent_fields_become_empty_text() {
    let mut archive = seeded_archive();
    let items = vec![FeedItem {
        title: None,
        description: None,
        link: None,
        pub_date: Some("Fri, 06 Jan 2023 10:00:00 +0000".to_string()),
    }];
    assert_eq!(merge_items(&mut archive, 2, &items, at(JAN_1_2023)), Ok(1));
    assert_eq!(archive[2].title, "");
    assert_eq!(archive[2].summary, "");
    assert_eq!(archive[2].article_link, "");
    assert_eq!(archive[2].pub_date, at(JAN_1_2023 + 5 * DAY + 10 * HOUR));
}

#[test]
fn empty_archive_cannot_number_articles() {
    let mut archive: Vec<Articles> = Vec::new();
    let r = apply_response(&mut archive, 2, 200, &three_items(), at(JAN_1_2023));
    assert_eq!(r, Err(ErrorCodes::E0013_ARTICLES_LIST_READ_FAILURE));
    assert!(archive.is_empty());
}

#[test]
fn exhausted_ids_are_refused() {
    let mut archive = vec![article(usize::MAX - 1, 1, "Seed", JAN_1_2023, JAN_1_2023)];
    let r = apply_response(&mut archive, 2, 200, &three_items(), at(JAN_1_2023));
    assert_eq!(r, Err(ErrorCodes::E0013_ARTICLES_LIST_READ_FAILURE));
    assert_eq!(archive.len(), 1);
}

#[test]
fn plan_refresh_errors() {
    let feeds = vec![feed(1, "http://x/one")];
    assert_eq!(
        plan_refresh(&feeds, &seeded_archive(), 1).unwrap_err(),
        ErrorCodes::E0008_LIST_STATE_SELECTION_FAILURE
    );
    assert_eq!(
        plan_refresh(&feeds, &Vec::new(), 0).unwrap_err(),
        ErrorCodes::E0021_ARTICLE_MAX_TIMESTAMP_FETCH_FAILURE
    );
    let far = vec![article(1, 1, "Far", 0, 300_000_000_000)];
    assert_eq!(
        plan_refresh(&feeds, &far, 0).unwrap_err(),
        ErrorCodes::E0020_RFC2822_TIMESTAMP_PARSE_FAILURE
    );
}

#[test]
fn baseline_is_latest_capture_over_all_feeds() {
    let archive = vec![
        article(1, 1, "A", 0, JAN_1_2023 + 3 * HOUR),
        article(2, 2, "B", 0, JAN_1_2023 + 7 * HOUR),
        article(3, 1, "C", 0, JAN_1_2023 + 5 * HOUR),
    ];
    assert_eq!(latest_capture_of(&archive), Some(at(JAN_1_2023 + 7 * HOUR)));
    assert_eq!(max_article_id_of(&archive), Some(3));
    assert_eq!(latest_capture_of(&Vec::new()), None);
    assert_eq!(max_article_id_of(&Vec::new()), None);
    let feeds = vec![feed(1, "http://x/one")];
    let req = plan_refresh(&feeds, &archive, 0).unwrap();
    assert_eq!(req.if_modified_since, "Sun, 1 Jan 2023 07:00:00 +0000");
}
