//! The items of an RSS channel, as the rss crate reads them.

use vstd::prelude::*;

verus! {

/// One item of a channel, with the fields the archive keeps.
#[derive(Debug)]
pub struct FeedItem {
    pub title: Option<String>,
    pub description: Option<String>,
    pub link: Option<String>,
    pub pub_date: Option<String>,
}

/// The content of a channel item.
pub struct ItemRec {
    pub title: Option<Seq<char>>,
    pub description: Option<Seq<char>>,
    pub link: Option<Seq<char>>,
    pub pub_date: Option<Seq<char>>,
}

/// The characters of an optional string.
pub open spec fn opt_text(o: Option<String>) -> Option<Seq<char>> {
    match o {
        Some(s) => Some(s@),
        None => None,
    }
}

impl View for FeedItem {
    type V = ItemRec;

    open spec fn view(&self) -> ItemRec {
        ItemRec {
            title: opt_text(self.title),
            description: opt_text(self.description),
            link: opt_text(self.link),
            pub_date: opt_text(self.pub_date),
        }
    }
}

/// The records held by a list of items.
pub open spec fn item_recs(v: Seq<FeedItem>) -> Seq<ItemRec> {
    v.map_values(|i: FeedItem| i@)
}

/// The items that the rss crate reads from a document, in document order, or
/// `None` where it cannot read the document as a channel.
pub uninterp spec fn channel_items(body: Seq<u8>) -> Option<Seq<ItemRec>>;

/// Relies on rss's `Channel::read_from` and on the `Item` accessors `title`,
/// `description`, `link` and `pub_date`: the outcome depends on the bytes alone.
#[verifier::external_body]
pub(crate) fn read_channel_items(body: &Vec<u8>) -> (r: Option<Vec<FeedItem>>)
    ensures
        r is Some <==> channel_items(body@) is Some,
        r matches Some(v) ==> item_recs(v@) == channel_items(body@)->0,
{
    rss::Channel::read_from(body.as_slice()).ok().map(
        |c|
            c.items().iter().map(
                |i|
                    FeedItem {
                        title: i.title().map(str::to_owned),
                        description: i.description().map(str::to_owned),
                        link: i.link().map(str::to_owned),
                        pub_date: i.pub_date().map(str::to_owned),
                    },
            ).collect(),
    )
}

} // verus!
