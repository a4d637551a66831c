use trend::date::Date;
use trend::raw::{CollectedRawTrends, RawTrendInfo, Service, Trend};

fn day(text: &str) -> Date {
    Date::parse_from_str(text, "%Y-%m-%d").unwrap()
}

fn info(title: &str, date: &str) -> RawTrendInfo {
    RawTrendInfo::new(title, "link", "desc", Service::aws_updates(), day(date))
}

fn titles(collected: &CollectedRawTrends) -> Vec<String> {
    collected.trends().iter().map(|t| t.title().to_string()).collect()
}

#[test]
fn service_names() {
    assert_eq!(Service::aws_updates().to_str(), "aws_updates");
    assert_eq!(Service::x().to_str(), "x");
    assert_eq!(Service::from("other".to_string()).to_str(), "other");
    assert_eq!(Service::x().clone().to_str(), "x");
}

#[test]
fn raw_trend_holds_what_it_was_made_of() {
    let raw = RawTrendInfo::new("title", "link", "desc", Service::x(), day("2021-01-01"));
    assert_eq!(raw.title(), "title");
    assert_eq!(raw.link(), "link");
    assert_eq!(raw.desc(), "desc");
    assert_eq!(raw.from(), "x");
    assert_eq!(raw.created_at(), &day("2021-01-01"));
    let copy = raw.clone();
    assert_eq!(copy.title(), "title");
    assert_eq!(copy.created_at(), raw.created_at());
}

#[test]
fn three_items_come_out_newest_first_whatever_the_order() {
    let dates = ["2024-01-01", "2024-02-01", "2024-03-01"];
    let orders = [[0, 1, 2], [0, 2, 1], [1, 0, 2], [1, 2, 0], [2, 0, 1], [2, 1, 0]];
    for order in orders {
        let items = order.iter().map(|&i| info(&format!("T{}", i + 1), dates[i])).collect();
        let collected = CollectedRawTrends::new(items);
        assert_eq!(titles(&collected), vec!["T3", "T2", "T1"]);
        assert_eq!(collected.latest().unwrap().title(), "T3");
        assert_eq!(collected.latest().unwrap().created_at(), &day("2024-03-01"));
    }
}

#[test]
fn nothing_collected_has_no_latest() {
    let collected = CollectedRawTrends::new(vec![]);
    assert!(collected.latest().is_none());
    assert!(collected.trends().is_empty());
}

#[test]
fn one_item_is_the_latest() {
    let collected = CollectedRawTrends::new(vec![info("only", "2024-01-01")]);
    assert_eq!(collected.latest().unwrap().title(), "only");
    assert_eq!(collected.trends().len(), 1);
}

#[test]
fn items_of_one_day_keep_their_order() {
    let items = vec![
        info("a", "2024-01-02"),
        info("b", "2024-01-03"),
        info("c", "2024-01-02"),
        info("d", "2024-01-01"),
        info("e", "2024-01-03"),
        info("f", "2024-01-02"),
    ];
    let collected = CollectedRawTrends::new(items);
    assert_eq!(titles(&collected), vec!["b", "e", "a", "c", "f", "d"]);
}

#[test]
fn sorting_agrees_with_a_stable_sort_of_std() {
    let dates = ["2024-01-05", "2023-12-31", "2024-01-05", "2025-01-01", "2023-12-31", "2024-01-04"];
    let mut expected: Vec<(usize, Date)> = dates.iter().map(|d| day(d)).enumerate().collect();
    expected.sort_by(|a, b| b.1.cmp(&a.1));
    let items = dates.iter().enumerate().map(|(i, d)| info(&i.to_string(), d)).collect();
    let collected = CollectedRawTrends::new(items);
    let expected: Vec<String> = expected.iter().map(|(i, _)| i.to_string()).collect();
    assert_eq!(titles(&collected), expected);
}

#[test]
fn sorted_input_stays_as_it_is() {
    let items = vec![info("a", "2024-03-01"), info("b", "2024-02-01"), info("c", "2024-01-01")];
    assert_eq!(titles(&CollectedRawTrends::new(items)), vec!["a", "b", "c"]);
}

#[test]
fn trend_of_a_raw_trend_drops_the_date() {
    let raw = RawTrendInfo::new("title", "link", "desc", Service::x(), day("2021-01-01"));
    let trend = Trend::from(raw);
    assert_eq!(trend.title, "title");
    assert_eq!(trend.link, "link");
    assert_eq!(trend.from, "x");
    assert_eq!(trend.desc, "desc");
}

#[test]
fn trends_of_a_collection_are_in_its_order() {
    let items = vec![info("old", "2024-01-01"), info("new", "2024-03-01")];
    let trends = <Vec<Trend>>::from(CollectedRawTrends::new(items));
    assert_eq!(trends.len(), 2);
    assert_eq!(trends[0].title, "new");
    assert_eq!(trends[1].title, "old");
    assert_eq!(trends[0].from, "aws_updates");
    assert!(<Vec<Trend>>::from(CollectedRawTrends::new(vec![])).is_empty());
}
