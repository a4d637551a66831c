//! Raw trends: items as they were collected from a source, before any user
//! has annotated them.

use crate::date::{Date, DateView};
use vstd::prelude::*;

pub mod rss;

verus! {

/// A source of raw trends.
pub trait RawTrendCollector {
    /// Why a collection run can fail.
    type Error;

    /// Runs one collection.
    fn collect(&self) -> Result<CollectedRawTrends, Self::Error>;
}

/// Names the source that a raw trend came from. Two services are the same
/// exactly when their names are equal.
#[derive(Debug)]
pub struct Service(String);

impl View for Service {
    type V = Seq<char>;

    closed spec fn view(&self) -> Seq<char> {
        self.0@
    }
}

impl Clone for Service {
    fn clone(&self) -> (copy: Self)
        ensures
            copy == *self,
    {
        Self(self.0.clone())
    }
}

impl Service {
    pub fn aws_updates() -> (service: Self)
        ensures
            service@ == "aws_updates"@,
    {
        Self("aws_updates".to_owned())
    }

    pub fn x() -> (service: Self)
        ensures
            service@ == "x"@,
    {
        Self("x".to_owned())
    }

    pub fn to_str(&self) -> (name: &str)
        ensures
            name@ == self@,
    {
        self.0.as_str()
    }
}

impl From<String> for Service {
    fn from(s: String) -> (service: Self)
        ensures
            service@ == s@,
    {
        Self(s)
    }
}

impl vstd::std_specs::convert::FromSpecImpl<String> for Service {
    open spec fn obeys_from_spec() -> bool {
        true
    }

    closed spec fn from_spec(s: String) -> Service {
        Service(s)
    }
}

/// What a [`RawTrendInfo`] stands for in specifications.
pub struct RawTrendView {
    pub title: Seq<char>,
    pub link: Seq<char>,
    pub desc: Seq<char>,
    pub from: Seq<char>,
    pub created_at: DateView,
}

/// An item as collected from a source. Within one service the link
/// identifies the item. Nothing changes a `RawTrendInfo` once it is made.
#[derive(Debug)]
pub struct RawTrendInfo {
    title: String,
    link: String,
    desc: String,
    from: Service,
    created_at: Date,
}

impl View for RawTrendInfo {
    type V = RawTrendView;

    closed spec fn view(&self) -> RawTrendView {
        RawTrendView {
            title: self.title@,
            link: self.link@,
            desc: self.desc@,
            from: self.from@,
            created_at: self.created_at@,
        }
    }
}

impl DeepView for RawTrendInfo {
    type V = RawTrendView;

    open spec fn deep_view(&self) -> RawTrendView {
        self@
    }
}

impl Clone for RawTrendInfo {
    fn clone(&self) -> (copy: Self)
        ensures
            copy == *self,
    {
        Self {
            title: self.title.clone(),
            link: self.link.clone(),
            desc: self.desc.clone(),
            from: self.from.clone(),
            created_at: self.created_at,
        }
    }
}

impl RawTrendInfo {
    pub fn new(title: &str, link: &str, desc: &str, from: Service, created_at: Date) -> (info: Self)
        ensures
            info@ == (RawTrendView {
                title: title@,
                link: link@,
                desc: desc@,
                from: from@,
                created_at: created_at@,
            }),
    {
        Self {
            title: title.to_owned(),
            link: link.to_owned(),
            desc: desc.to_owned(),
            from,
            created_at,
        }
    }

    pub fn title(&self) -> (title: &str)
        ensures
            title@ == self@.title,
    {
        self.title.as_str()
    }

    pub fn link(&self) -> (link: &str)
        ensures
            link@ == self@.link,
    {
        self.link.as_str()
    }

    pub fn desc(&self) -> (desc: &str)
        ensures
            desc@ == self@.desc,
    {
        self.desc.as_str()
    }

    pub fn created_at(&self) -> (date: &Date)
        ensures
            date@ == self@.created_at,
    {
        &self.created_at
    }

    /// The name of the service that the item came from.
    pub fn from(&self) -> (name: &str)
        ensures
            name@ == self@.from,
    {
        self.from.to_str()
    }
}

/// `items` runs from the newest item to the oldest.
pub open spec fn is_newest_first(items: Seq<RawTrendView>) -> bool {
    forall|i: int, j: int|
        0 <= i < j < items.len() ==> (#[trigger] items[j]).created_at.le(
            (#[trigger] items[i]).created_at,
        )
}

/// `sorted` with `item` put in front of its first entry that is not newer
/// than `item`.
pub open spec fn insert_newest_first(item: RawTrendView, sorted: Seq<RawTrendView>) -> Seq<
    RawTrendView,
>
    decreases sorted.len(),
{
    if sorted.len() == 0 || sorted[0].created_at.le(item.created_at) {
        seq![item] + sorted
    } else {
        seq![sorted[0]] + insert_newest_first(item, sorted.drop_first())
    }
}

/// `items` from the newest to the oldest; items of one day keep the order
/// that they have in `items`.
pub open spec fn newest_first(items: Seq<RawTrendView>) -> Seq<RawTrendView>
    decreases items.len(),
{
    if items.len() == 0 {
        Seq::empty()
    } else {
        insert_newest_first(items[0], newest_first(items.drop_first()))
    }
}

/// The place at which `insert_newest_first` puts `item`: the first index
/// whose entry is not newer than `item`.
pub open spec fn is_insertion_point(
    item: RawTrendView,
    sorted: Seq<RawTrendView>,
    at: int,
) -> bool {
    &&& 0 <= at <= sorted.len()
    &&& forall|i: int| 0 <= i < at ==> !(#[trigger] sorted[i]).created_at.le(item.created_at)
    &&& at < sorted.len() ==> sorted[at].created_at.le(item.created_at)
}

/// `insert_newest_first` is an insertion at the insertion point.
pub proof fn lemma_insert_at_point(item: RawTrendView, sorted: Seq<RawTrendView>, at: int)
    requires
        is_insertion_point(item, sorted, at),
    ensures
        insert_newest_first(item, sorted) == sorted.insert(at, item),
    decreases sorted.len(),
{
    if at == 0 {
        assert(seq![item] + sorted =~= sorted.insert(0, item));
    } else {
        let rest = sorted.drop_first();
        assert(!sorted[0].created_at.le(item.created_at));
        assert forall|i: int| 0 <= i < at - 1 implies !(#[trigger] rest[i]).created_at.le(
            item.created_at,
        ) by {
            assert(rest[i] == sorted[i + 1]);
        }
        lemma_insert_at_point(item, rest, at - 1);
        assert(seq![sorted[0]] + rest.insert(at - 1, item) =~= sorted.insert(at, item));
    }
}

/// Every sequence has an insertion point for every item.
pub proof fn lemma_insertion_point_exists(item: RawTrendView, sorted: Seq<RawTrendView>) -> (at:
    int)
    ensures
        is_insertion_point(item, sorted, at),
    decreases sorted.len(),
{
    if sorted.len() == 0 || sorted[0].created_at.le(item.created_at) {
        0
    } else {
        let rest = sorted.drop_first();
        let at = lemma_insertion_point_exists(item, rest);
        assert forall|i: int| 0 <= i < at + 1 implies !(#[trigger] sorted[i]).created_at.le(
            item.created_at,
        ) by {
            if i > 0 {
                assert(sorted[i] == rest[i - 1]);
            }
        }
        assert(at < rest.len() ==> sorted[at + 1] == rest[at]);
        at + 1
    }
}

/// Putting an item into a sequence that runs from newest to oldest leaves
/// it running from newest to oldest.
pub proof fn lemma_insert_keeps_order(item: RawTrendView, sorted: Seq<RawTrendView>)
    requires
        is_newest_first(sorted),
    ensures
        is_newest_first(insert_newest_first(item, sorted)),
{
    let at = lemma_insertion_point_exists(item, sorted);
    lemma_insert_at_point(item, sorted, at);
    let out = sorted.insert(at, item);
    assert forall|i: int, j: int| 0 <= i < j < out.len() implies (#[trigger] out[j]).created_at.le(
        (#[trigger] out[i]).created_at,
    ) by {
        if j < at {
            assert(out[i] == sorted[i] && out[j] == sorted[j]);
        } else if j == at {
            assert(out[i] == sorted[i]);
            assert(!sorted[i].created_at.le(item.created_at));
        } else if i < at {
            assert(out[i] == sorted[i] && out[j] == sorted[j - 1]);
        } else if i == at {
            assert(out[j] == sorted[j - 1]);
            assert(sorted[at].created_at.le(item.created_at));
            assert(at < j - 1 ==> sorted[j - 1].created_at.le(sorted[at].created_at));
        } else {
            assert(out[i] == sorted[i - 1] && out[j] == sorted[j - 1]);
        }
    }
}

/// `newest_first` runs from the newest item to the oldest.
pub proof fn lemma_newest_first_is_ordered(items: Seq<RawTrendView>)
    ensures
        is_newest_first(newest_first(items)),
    decreases items.len(),
{
    if items.len() > 0 {
        lemma_newest_first_is_ordered(items.drop_first());
        lemma_insert_keeps_order(items[0], newest_first(items.drop_first()));
    }
}

/// `newest_first` holds the items of its argument, each as often as the
/// argument does.
pub proof fn lemma_newest_first_permutes(items: Seq<RawTrendView>)
    ensures
        newest_first(items).to_multiset() == items.to_multiset(),
        newest_first(items).len() == items.len(),
    decreases items.len(),
{
    broadcast use vstd::seq_lib::group_to_multiset_ensures;

    if items.len() == 0 {
    } else {
        let rest = items.drop_first();
        let sorted = newest_first(rest);
        lemma_newest_first_permutes(rest);
        let at = lemma_insertion_point_exists(items[0], sorted);
        lemma_insert_at_point(items[0], sorted, at);
        vstd::seq_lib::to_multiset_insert(sorted, at, items[0]);
        assert(items =~= rest.insert(0, items[0]));
        vstd::seq_lib::to_multiset_insert(rest, 0, items[0]);
    }
}

/// Holds of the items that were created on `day`.
pub open spec fn is_of_day(day: DateView) -> spec_fn(RawTrendView) -> bool {
    |info: RawTrendView| info.created_at == day
}

/// `newest_first` is stable: the items of any one day stand in the order in
/// which its argument has them.
pub proof fn lemma_newest_first_is_stable(items: Seq<RawTrendView>, day: DateView)
    ensures
        newest_first(items).filter(is_of_day(day)) == items.filter(is_of_day(day)),
    decreases items.len(),
{
    if items.len() > 0 {
        let of_day = is_of_day(day);
        let first = items[0];
        let rest = items.drop_first();
        let sorted = newest_first(rest);
        lemma_newest_first_is_stable(rest, day);
        let at = lemma_insertion_point_exists(first, sorted);
        lemma_insert_at_point(first, sorted, at);
        let head = sorted.take(at);
        let tail = sorted.skip(at);
        assert(sorted.insert(at, first) =~= head + seq![first] + tail);
        assert(sorted =~= head + tail);
        assert(items =~= seq![first] + rest);
        Seq::filter_distributes_over_add(head + seq![first], tail, of_day);
        Seq::filter_distributes_over_add(head, seq![first], of_day);
        Seq::filter_distributes_over_add(head, tail, of_day);
        Seq::filter_distributes_over_add(seq![first], rest, of_day);
        assert(seq![first].filter(of_day) =~= if of_day(first) {
            seq![first]
        } else {
            Seq::empty()
        }) by {
            reveal_with_fuel(Seq::filter, 2);
            assert(seq![first].drop_last() =~= Seq::empty());
        }
        if of_day(first) {
            assert(head.all(|info: RawTrendView| !of_day(info))) by {
                assert forall|i: int| 0 <= i < head.len() implies !of_day(#[trigger] head[i]) by {
                    assert(head[i] == sorted[i]);
                }
            }
            head.lemma_all_neg_filter_empty(of_day);
            assert(head.filter(of_day) =~= Seq::empty());
            assert(head.filter(of_day) + seq![first].filter(of_day) =~= seq![first].filter(of_day));
        } else {
            assert(head.filter(of_day) + seq![first].filter(of_day) =~= head.filter(of_day));
            assert(seq![first].filter(of_day) + rest.filter(of_day) =~= rest.filter(of_day));
        }
    } else {
        assert(items =~= Seq::empty());
    }
}

/// The items of `day` among `items` and one item put in front of them.
proof fn lemma_filter_with_first(first: RawTrendView, rest: Seq<RawTrendView>, day: DateView)
    ensures
        (seq![first] + rest).filter(is_of_day(day)) == if first.created_at == day {
            seq![first] + rest.filter(is_of_day(day))
        } else {
            rest.filter(is_of_day(day))
        },
{
    let of_day = is_of_day(day);
    Seq::filter_distributes_over_add(seq![first], rest, of_day);
    assert(seq![first].filter(of_day) =~= if of_day(first) {
        seq![first]
    } else {
        Seq::empty()
    }) by {
        reveal_with_fuel(Seq::filter, 2);
        assert(seq![first].drop_last() =~= Seq::empty());
    }
    assert(Seq::<RawTrendView>::empty() + rest.filter(of_day) =~= rest.filter(of_day));
}

/// Where `other` holds the items of every day that `items` holds, it holds
/// an item of the day of each item of `items`.
proof fn lemma_day_is_shared(items: Seq<RawTrendView>, other: Seq<RawTrendView>, at: int) -> (found:
    int)
    requires
        0 <= at < items.len(),
        other.filter(is_of_day(items[at].created_at)) == items.filter(
            is_of_day(items[at].created_at),
        ),
    ensures
        0 <= found < other.len(),
        other[found].created_at == items[at].created_at,
{
    let of_day = is_of_day(items[at].created_at);
    items.lemma_filter_contains(of_day, at);
    other.lemma_filter_contains_rev(of_day, items[at]);
    let found = choose|i: int| 0 <= i < other.len() && other[i] == items[at];
    found
}

/// What runs from newest to oldest still does so without its first item.
proof fn lemma_rest_is_ordered(items: Seq<RawTrendView>)
    requires
        is_newest_first(items),
        items.len() > 0,
    ensures
        is_newest_first(items.drop_first()),
{
    let rest = items.drop_first();
    assert forall|i: int, j: int| 0 <= i < j < rest.len() implies (#[trigger] rest[j])
        .created_at.le((#[trigger] rest[i]).created_at) by {
        assert(rest[i] == items[i + 1] && rest[j] == items[j + 1]);
    }
}

/// Two sequences that both run from newest to oldest and hold the same
/// items of every day, in the same order, are the same sequence.
proof fn lemma_days_settle_the_order(a: Seq<RawTrendView>, b: Seq<RawTrendView>)
    requires
        is_newest_first(a),
        is_newest_first(b),
        forall|day: DateView| #[trigger] a.filter(is_of_day(day)) == b.filter(is_of_day(day)),
    ensures
        a == b,
    decreases a.len(),
{
    if a.len() == 0 {
        if b.len() > 0 {
            let day = b[0].created_at;
            assert(a.filter(is_of_day(day)) == b.filter(is_of_day(day)));
            let found = lemma_day_is_shared(b, a, 0);
        }
        assert(a =~= b);
    } else {
        let day = a[0].created_at;
        assert(a.filter(is_of_day(day)) == b.filter(is_of_day(day)));
        let in_b = lemma_day_is_shared(a, b, 0);
        let day_b = b[0].created_at;
        assert(a.filter(is_of_day(day_b)) == b.filter(is_of_day(day_b)));
        let in_a = lemma_day_is_shared(b, a, 0);
        assert(b[in_b].created_at.le(b[0].created_at));
        assert(a[in_a].created_at.le(a[0].created_at));
        assert(day == day_b);
        let rest_a = a.drop_first();
        let rest_b = b.drop_first();
        assert(a =~= seq![a[0]] + rest_a);
        assert(b =~= seq![b[0]] + rest_b);
        lemma_filter_with_first(a[0], rest_a, day);
        lemma_filter_with_first(b[0], rest_b, day);
        assert(a[0] == a.filter(is_of_day(day))[0]);
        assert(b[0] == b.filter(is_of_day(day))[0]);
        lemma_rest_is_ordered(a);
        lemma_rest_is_ordered(b);
        assert forall|other: DateView| #[trigger]
            rest_a.filter(is_of_day(other)) == rest_b.filter(is_of_day(other)) by {
            assert(a.filter(is_of_day(other)) == b.filter(is_of_day(other)));
            lemma_filter_with_first(a[0], rest_a, other);
            lemma_filter_with_first(b[0], rest_b, other);
            if a[0].created_at == other {
                let front = seq![a[0]];
                assert((front + rest_a.filter(is_of_day(other))).skip(1) =~= rest_a.filter(
                    is_of_day(other),
                ));
                assert((front + rest_b.filter(is_of_day(other))).skip(1) =~= rest_b.filter(
                    is_of_day(other),
                ));
            }
        }
        lemma_days_settle_the_order(rest_a, rest_b);
    }
}

/// `newest_first` is the only stable sort: a sequence that runs from newest
/// to oldest and has the items of every day in the order in which `items`
/// has them is `newest_first(items)`.
pub proof fn lemma_newest_first_is_the_only_one(items: Seq<RawTrendView>, sorted: Seq<RawTrendView>)
    requires
        is_newest_first(sorted),
        forall|day: DateView| #[trigger]
            sorted.filter(is_of_day(day)) == items.filter(is_of_day(day)),
    ensures
        sorted == newest_first(items),
{
    lemma_newest_first_is_ordered(items);
    assert forall|day: DateView| #[trigger]
        sorted.filter(is_of_day(day)) == newest_first(items).filter(is_of_day(day)) by {
        lemma_newest_first_is_stable(items, day);
    }
    lemma_days_settle_the_order(sorted, newest_first(items));
}

/// The raw trends of one collection run, from the newest to the oldest.
#[derive(Debug)]
pub struct CollectedRawTrends {
    inner: Vec<RawTrendInfo>,
}

impl View for CollectedRawTrends {
    type V = Seq<RawTrendView>;

    closed spec fn view(&self) -> Seq<RawTrendView> {
        self.inner.deep_view()
    }
}

impl CollectedRawTrends {
    #[verifier::type_invariant]
    spec fn ordered(self) -> bool {
        is_newest_first(self@)
    }

    /// The newest trend, if there is any.
    pub fn latest(&self) -> (newest: Option<&RawTrendInfo>)
        ensures
            self@.len() == 0 ==> newest is None,
            self@.len() > 0 ==> (newest matches Some(info) && info@ == self@[0]),
            forall|i: int|
                0 <= i < self@.len() ==> (#[trigger] self@[i]).created_at.le(self@[0].created_at),
    {
        proof {
            use_type_invariant(self);
        }
        if self.inner.len() == 0 {
            None
        } else {
            Some(&self.inner[0])
        }
    }

    /// All trends, from the newest to the oldest.
    pub fn trends(&self) -> (all: &[RawTrendInfo])
        ensures
            all.deep_view() == self@,
            is_newest_first(self@),
    {
        proof {
            use_type_invariant(self);
        }
        self.inner.as_slice()
    }

    /// Sorts `inner` from the newest item to the oldest. Items of one day
    /// keep the order that they have in `inner`.
    pub fn new(inner: Vec<RawTrendInfo>) -> (collected: Self)
        ensures
            collected@ == newest_first(inner.deep_view()),
            is_newest_first(collected@),
            collected@.to_multiset() == inner.deep_view().to_multiset(),
            collected@.len() == inner@.len(),
    {
        let sorted = Self::sort(inner);
        proof {
            lemma_newest_first_is_ordered(inner.deep_view());
            lemma_newest_first_permutes(inner.deep_view());
        }
        Self { inner: sorted }
    }

    fn sort(inner: Vec<RawTrendInfo>) -> (sorted: Vec<RawTrendInfo>)
        ensures
            sorted.deep_view() == newest_first(inner.deep_view()),
    {
        let ghost items = inner.deep_view();
        let mut rest = inner;
        let mut sorted: Vec<RawTrendInfo> = Vec::new();
        assert(sorted.deep_view() =~= Seq::empty());
        assert(items.skip(items.len() as int) =~= Seq::empty());
        while rest.len() > 0
            invariant
                rest@.len() <= items.len(),
                rest.deep_view() == items.take(rest@.len() as int),
                sorted.deep_view() == newest_first(items.skip(rest@.len() as int)),
            decreases rest@.len(),
        {
            let ghost before = rest@.len() as int;
            let ghost sorted_before = sorted.deep_view();
            let ghost rest_before = rest.deep_view();
            assert(rest_before[before - 1] == rest@[before - 1]@);
            let item = rest.pop().unwrap();
            let mut at: usize = 0;
            while at < sorted.len() && !(sorted[at].created_at <= item.created_at)
                invariant
                    at <= sorted@.len(),
                    sorted.deep_view() == sorted_before,
                    forall|i: int|
                        0 <= i < at ==> !(#[trigger] sorted_before[i]).created_at.le(
                            item@.created_at,
                        ),
                decreases sorted@.len() - at,
            {
                at += 1;
            }
            proof {
                assert(item@ == items[before - 1]);
                assert(items.skip(before - 1).drop_first() =~= items.skip(before));
                lemma_insert_at_point(item@, sorted_before, at as int);
                assert(rest.deep_view() =~= items.take(before - 1));
            }
            sorted.insert(at, item);
            assert(sorted.deep_view() =~= sorted_before.insert(at as int, item@));
        }
        proof {
            assert(items.skip(0) =~= items);
        }
        sorted
    }
}

pub enum RawTrendInfoError {
    /// Holds the publish date that could not be read.
    InvalidDate(String),
}

/// What a [`Trend`] stands for in specifications.
pub struct TrendView {
    pub title: Seq<char>,
    pub link: Seq<char>,
    pub from: Seq<char>,
    pub desc: Seq<char>,
}

/// A raw trend as it is handed out to a reader: without its date.
#[derive(Debug)]
pub struct Trend {
    pub title: String,
    pub link: String,
    pub from: String,
    pub desc: String,
}

impl View for Trend {
    type V = TrendView;

    open spec fn view(&self) -> TrendView {
        TrendView { title: self.title@, link: self.link@, from: self.from@, desc: self.desc@ }
    }
}

impl DeepView for Trend {
    type V = TrendView;

    open spec fn deep_view(&self) -> TrendView {
        self@
    }
}

impl RawTrendView {
    /// The raw trend without its date.
    pub open spec fn trend(self) -> TrendView {
        TrendView { title: self.title, link: self.link, from: self.from, desc: self.desc }
    }
}

impl From<RawTrendInfo> for Trend {
    fn from(info: RawTrendInfo) -> (trend: Self)
        ensures
            trend@ == info@.trend(),
    {
        Self { title: info.title, link: info.link, from: info.from.0, desc: info.desc }
    }
}

impl vstd::std_specs::convert::FromSpecImpl<RawTrendInfo> for Trend {
    open spec fn obeys_from_spec() -> bool {
        true
    }

    closed spec fn from_spec(info: RawTrendInfo) -> Trend {
        Trend { title: info.title, link: info.link, from: info.from.0, desc: info.desc }
    }
}

impl From<CollectedRawTrends> for Vec<Trend> {
    /// The trends of the collection, from the newest to the oldest.
    fn from(value: CollectedRawTrends) -> (trends: Self)
        ensures
            trends.deep_view() == value@.map_values(|info: RawTrendView| info.trend()),
    {
        let infos = value.trends();
        let mut trends: Vec<Trend> = Vec::new();
        let mut i: usize = 0;
        while i < infos.len()
            invariant
                i <= infos@.len(),
                infos.deep_view() == value@,
                trends@.len() == i,
                forall|k: int| 0 <= k < i ==> (#[trigger] trends@[k])@ == value@[k].trend(),
            decreases infos@.len() - i,
        {
            assert(infos.deep_view()[i as int] == infos@[i as int]@);
            trends.push(Trend::from(infos[i].clone()));
            i += 1;
        }
        assert(trends.deep_view() =~= value@.map_values(|info: RawTrendView| info.trend()));
        trends
    }
}

impl vstd::std_specs::convert::FromSpecImpl<CollectedRawTrends> for Vec<Trend> {
    open spec fn obeys_from_spec() -> bool {
        false
    }

    closed spec fn from_spec(value: CollectedRawTrends) -> Vec<Trend> {
        arbitrary()
    }
}

} // verus!
