//! Raw trends from RSS feeds.

use crate::date::{parsed_date, Date, DateError, DateView};
use crate::raw::{
    newest_first, CollectedRawTrends, RawTrendCollector, RawTrendInfo, RawTrendInfoError,
    RawTrendView, Service,
};
use vstd::prelude::*;

verus! {

/// What the collector reads of one item of a feed. A feed may leave any of
/// the four out.
#[derive(Debug)]
pub struct FeedItem {
    pub title: Option<String>,
    pub link: Option<String>,
    pub description: Option<String>,
    /// The publish date, as the feed words it.
    pub pub_date: Option<String>,
}

/// What a [`FeedItem`] stands for in specifications.
pub struct FeedItemView {
    pub title: Option<Seq<char>>,
    pub link: Option<Seq<char>>,
    pub description: Option<Seq<char>>,
    pub pub_date: Option<Seq<char>>,
}

/// The text, or the empty text where there is none.
pub open spec fn text_or_empty(text: Option<Seq<char>>) -> Seq<char> {
    match text {
        Some(text) => text,
        None => Seq::empty(),
    }
}

/// What a text that may be missing stands for in specifications.
pub open spec fn option_text(text: Option<String>) -> Option<Seq<char>> {
    match text {
        Some(text) => Some(text@),
        None => None,
    }
}

impl View for FeedItem {
    type V = FeedItemView;

    open spec fn view(&self) -> FeedItemView {
        FeedItemView {
            title: option_text(self.title),
            link: option_text(self.link),
            description: option_text(self.description),
            pub_date: option_text(self.pub_date),
        }
    }
}

impl DeepView for FeedItem {
    type V = FeedItemView;

    open spec fn deep_view(&self) -> FeedItemView {
        self@
    }
}

impl FeedItemView {
    /// The publish date that the conversion reads: the one of the item, or
    /// the empty text.
    pub open spec fn date_text(self) -> Seq<char> {
        text_or_empty(self.pub_date)
    }

    /// The raw trend that the item becomes for the service `from` once its
    /// publish date has been read as `created_at`.
    pub open spec fn dated(self, from: Seq<char>, created_at: DateView) -> RawTrendView {
        RawTrendView {
            title: text_or_empty(self.title),
            link: text_or_empty(self.link),
            desc: text_or_empty(self.description),
            from,
            created_at,
        }
    }

    /// The raw trend that the item becomes for the service `from`, or
    /// `None` where its publish date cannot be read.
    pub open spec fn to_trend(self, from: Seq<char>) -> Option<RawTrendView> {
        match parsed_date(self.date_text(), DATE_FORMAT@) {
            Some(created_at) => Some(self.dated(from, created_at)),
            None => None,
        }
    }
}

/// The items of the RSS channel that `rss::Channel::read_from` reads from
/// `bytes`, in the order of the document, or `None` where it reports an
/// error.
pub uninterp spec fn feed_items(bytes: Seq<u8>) -> Option<Seq<FeedItemView>>;

/// `rss::Error`: why `rss::Channel::read_from` could not read a document.
/// Nothing is known of its value.
#[verifier::external_type_specification]
#[verifier::external_body]
pub struct ExRssError(::rss::Error);

/// `rss::Channel::read_from` on a byte slice, with title, link, description
/// and publish date of every item handed back. Trusted: the outcome is a
/// function of the bytes.
#[verifier::external_body]
fn read_feed(bytes: &[u8]) -> (r: Result<Vec<FeedItem>, ::rss::Error>)
    ensures
        r matches Ok(items) ==> feed_items(bytes@) == Some(items.deep_view()),
        r is Err ==> feed_items(bytes@) is None,
{
    match ::rss::Channel::read_from(bytes) {
        Ok(channel) => Ok(
            channel.into_items().into_iter().map(
                |item|
                    FeedItem {
                        title: item.title,
                        link: item.link,
                        description: item.description,
                        pub_date: item.pub_date,
                    },
            ).collect(),
        ),
        Err(e) => Err(e),
    }
}

/// The format of the publish date of a feed item, for `chrono`.
pub const DATE_FORMAT: &'static str = "%a, %d %b %Y %H:%M:%S %z";

fn text_or_default(text: &Option<String>) -> (r: &str)
    ensures
        r@ == text_or_empty(option_text(*text)),
{
    match text {
        Some(text) => text.as_str(),
        None => {
            proof {
                reveal_strlit("");
            }
            assert(""@ =~= Seq::empty());
            ""
        },
    }
}

/// Makes the raw trend of a feed item from the outcome of reading its
/// publish date. Title, link and description that the item lacks are empty;
/// a date that could not be read fails the item.
pub fn trend_from_item(item: &FeedItem, from: Service, created_at: Result<Date, DateError>) -> (r:
    Result<RawTrendInfo, RawTrendInfoError>)
    ensures
        match created_at {
            Ok(date) => r matches Ok(info) && info@ == item@.dated(from@, date@),
            Err(_) => r matches Err(RawTrendInfoError::InvalidDate(text)) && text@
                == item@.date_text(),
        },
{
    match created_at {
        Ok(date) => Ok(
            RawTrendInfo::new(
                text_or_default(&item.title),
                text_or_default(&item.link),
                text_or_default(&item.description),
                from,
                date,
            ),
        ),
        Err(_) => Err(RawTrendInfoError::InvalidDate(text_or_default(&item.pub_date).to_owned())),
    }
}

/// Converts a feed item into a raw trend of the service `from`.
pub fn item_to_trend(item: &FeedItem, from: Service) -> (r: Result<RawTrendInfo, RawTrendInfoError>)
    ensures
        match item@.to_trend(from@) {
            Some(trend) => r matches Ok(info) && info@ == trend,
            None => r matches Err(RawTrendInfoError::InvalidDate(text)) && text@
                == item@.date_text(),
        },
{
    let created_at = Date::parse_from_str(text_or_default(&item.pub_date), DATE_FORMAT);
    trend_from_item(item, from, created_at)
}

/// Converts items to raw trends of the service `from`.
pub open spec fn to_trend_of(from: Seq<char>) -> spec_fn(FeedItemView) -> Option<RawTrendView> {
    |item: FeedItemView| item.to_trend(from)
}

/// The raw trends of the items that convert, in the order of the items.
/// Items that do not convert are left out.
pub open spec fn trends_of_feed(items: Seq<FeedItemView>, from: Seq<char>) -> Seq<RawTrendView> {
    items.filter_map(to_trend_of(from))
}

/// Converts the items of a feed that can be converted and sorts them from
/// the newest to the oldest. An item that cannot be converted is dropped
/// without a sign.
pub fn collect_items(items: &Vec<FeedItem>, service: &Service) -> (collected: CollectedRawTrends)
    ensures
        collected@ == newest_first(trends_of_feed(items.deep_view(), service@)),
{
    let mut trends: Vec<RawTrendInfo> = Vec::new();
    let mut i: usize = 0;
    assert(items.deep_view().take(0) =~= Seq::empty());
    assert(trends.deep_view() =~= Seq::empty());
    while i < items.len()
        invariant
            i <= items@.len(),
            trends.deep_view() == trends_of_feed(items.deep_view().take(i as int), service@),
        decreases items@.len() - i,
    {
        let ghost before = trends.deep_view();
        let ghost done = items.deep_view().take(i as int);
        let ghost next = items.deep_view().take(i + 1);
        assert(next.drop_last() =~= done);
        assert(next.last() == items@[i as int]@);
        match item_to_trend(&items[i], service.clone()) {
            Ok(info) => {
                trends.push(info);
                assert(trends.deep_view() =~= before + seq![info@]);
            },
            Err(_) => {},
        }
        i += 1;
    }
    assert(items.deep_view().take(i as int) =~= items.deep_view());
    CollectedRawTrends::new(trends)
}

/// Collects raw trends of one service from the bytes of an RSS document.
pub struct RssRawTrendCollector {
    service: Service,
    bytes: Vec<u8>,
}

/// What an [`RssRawTrendCollector`] stands for in specifications.
pub struct RssRawTrendCollectorView {
    /// The name of the service that the trends are collected for.
    pub service: Seq<char>,
    /// The document.
    pub bytes: Seq<u8>,
}

impl View for RssRawTrendCollector {
    type V = RssRawTrendCollectorView;

    closed spec fn view(&self) -> RssRawTrendCollectorView {
        RssRawTrendCollectorView { service: self.service@, bytes: self.bytes@ }
    }
}

#[derive(Debug)]
pub enum RssRawTrendCollectorError {
    /// The bytes are no RSS document.
    RssError(::rss::Error),
}

impl RssRawTrendCollector {
    pub fn new(service: Service, bytes: Vec<u8>) -> (collector: Self)
        ensures
            collector@ == (RssRawTrendCollectorView { service: service@, bytes: bytes@ }),
    {
        Self { service, bytes }
    }
}

impl RawTrendCollector for RssRawTrendCollector {
    type Error = RssRawTrendCollectorError;

    /// Reads the document and collects the items of its channel. A document
    /// that cannot be read is an error; an item that cannot be converted is
    /// dropped.
    fn collect(&self) -> (r: Result<CollectedRawTrends, RssRawTrendCollectorError>)
        ensures
            match feed_items(self@.bytes) {
                Some(items) => r matches Ok(collected) && collected@ == newest_first(
                    trends_of_feed(items, self@.service),
                ),
                None => r is Err,
            },
    {
        match read_feed(self.bytes.as_slice()) {
            Ok(items) => Ok(collect_items(&items, &self.service)),
            Err(e) => Err(RssRawTrendCollectorError::RssError(e)),
        }
    }
}

/// Names an RSS feed on the network and the service that its trends are
/// collected for.
pub struct RemoteRssRawTrendCollector {
    url: &'static str,
    service: Service,
}

/// What a [`RemoteRssRawTrendCollector`] stands for in specifications.
pub struct RemoteRssRawTrendCollectorView {
    /// The address of the feed.
    pub url: Seq<char>,
    /// The name of the service that the trends are collected for.
    pub service: Seq<char>,
}

impl View for RemoteRssRawTrendCollector {
    type V = RemoteRssRawTrendCollectorView;

    closed spec fn view(&self) -> RemoteRssRawTrendCollectorView {
        RemoteRssRawTrendCollectorView { url: self.url@, service: self.service@ }
    }
}

impl RemoteRssRawTrendCollector {
    pub fn new(url: &'static str, service: Service) -> (collector: Self)
        ensures
            collector@ == (RemoteRssRawTrendCollectorView { url: url@, service: service@ }),
    {
        Self { url, service }
    }

    /// The feed of news on AWS.
    pub fn aws_updates() -> (collector: Self)
        ensures
            collector@ == (RemoteRssRawTrendCollectorView {
                url: "https://aws.amazon.com/jp/about-aws/whats-new/recent/feed/"@,
                service: "aws_updates"@,
            }),
    {
        Self::new(
            "https://aws.amazon.com/jp/about-aws/whats-new/recent/feed/",
            Service::aws_updates(),
        )
    }

    /// The address of the feed.
    pub fn url(&self) -> (url: &'static str)
        ensures
            url@ == self@.url,
    {
        self.url
    }

    /// The service that the trends of the feed are collected for.
    pub fn service(&self) -> (service: &Service)
        ensures
            service@ == self@.service,
    {
        &self.service
    }
}

} // verus!
