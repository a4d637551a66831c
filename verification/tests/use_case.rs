use trend::date::Date;
use trend::domain::Status;
use trend::raw::{RawTrendInfo, Service};
use trend::repository::fake::FakeUserTrendInfoRepository;
use trend::use_case::{
    save_new_trend, update_trend, SaveNewTrendInfoBuilder, UserTrendInfoRepository,
    UserTrendInfoRepositoryError,
};
use trend::user::UserId;

#[test]
fn user_can_update_trend() {
    let user_id = UserId::new("user_id");
    let title = "title";
    let link = "link";
    let raw_trend = RawTrendInfo::new(
        title,
        link,
        "desc",
        Service::aws_updates(),
        Date::parse_from_str("2021-01-01", "%Y-%m-%d").unwrap(),
    );
    let memo = "so, interesting!";
    let status = Status::ToDo;
    let save_info = SaveNewTrendInfoBuilder::new(user_id, raw_trend)
        .memo(memo)
        .status(status)
        .build();

    let mut repository = FakeUserTrendInfoRepository::new();

    let mut user_trend = save_new_trend(&mut repository, save_info).unwrap();
    user_trend.change_status(Status::Done).unwrap();

    let user_trend = update_trend(&mut repository, user_trend).unwrap();

    assert_eq!(user_trend.status(), Status::Done);
}

#[test]
fn user_can_save_new_trend_with_other_info() {
    let user_id = UserId::new("user_id");
    let title = "title";
    let link = "link";
    let raw_trend = RawTrendInfo::new(
        title,
        link,
        "desc",
        Service::aws_updates(),
        Date::parse_from_str("2021-01-01", "%Y-%m-%d").unwrap(),
    );
    let memo = "so, interesting!";
    let status = Status::ToDo;
    let save_info = SaveNewTrendInfoBuilder::new(user_id, raw_trend)
        .memo(memo)
        .status(status)
        .build();

    let mut repository = FakeUserTrendInfoRepository::new();

    let user_trend = save_new_trend(&mut repository, save_info).unwrap();

    assert_eq!(user_trend.title(), title);
    assert_eq!(user_trend.link(), link);
    assert_eq!(user_trend.memo(), memo);
    assert_eq!(user_trend.status(), status);
}

#[test]
fn updated_status_is_what_the_store_lists() {
    let raw_trend = RawTrendInfo::new(
        "title",
        "link",
        "desc",
        Service::aws_updates(),
        Date::parse_from_str("2021-01-01", "%Y-%m-%d").unwrap(),
    );
    let save_info =
        SaveNewTrendInfoBuilder::new(UserId::new("user_id"), raw_trend).status(Status::ToDo).build();
    let mut repository = FakeUserTrendInfoRepository::new();
    let mut user_trend = save_new_trend(&mut repository, save_info).unwrap();
    user_trend.change_status(Status::Done).unwrap();
    update_trend(&mut repository, user_trend).unwrap();

    let listed = repository.list(UserId::new("user_id")).unwrap();
    assert_eq!(listed.len(), 1);
    assert_eq!(listed[0].status(), Status::Done);
}

#[test]
fn second_save_of_a_link_fails_through_the_use_case() {
    let raw_trend = || {
        RawTrendInfo::new(
            "title",
            "link",
            "desc",
            Service::aws_updates(),
            Date::parse_from_str("2021-01-01", "%Y-%m-%d").unwrap(),
        )
    };
    let save_info = || {
        SaveNewTrendInfoBuilder::new(UserId::new("user_id"), raw_trend())
            .memo("memo")
            .status(Status::ToDo)
            .build()
    };
    let mut repository = FakeUserTrendInfoRepository::new();
    let first = save_new_trend(&mut repository, save_info()).unwrap();
    assert_eq!(first.status(), Status::ToDo);
    assert_eq!(first.memo(), "memo");
    assert!(matches!(
        save_new_trend(&mut repository, save_info()),
        Err(UserTrendInfoRepositoryError::AlreadyExists(_))
    ));
}

#[test]
fn builder_defaults_to_an_empty_memo_and_new() {
    let raw_trend = RawTrendInfo::new(
        "title",
        "link",
        "desc",
        Service::x(),
        Date::parse_from_str("2021-01-01", "%Y-%m-%d").unwrap(),
    );
    let info = SaveNewTrendInfoBuilder::new(UserId::new("user_id"), raw_trend).build();
    assert_eq!(info.memo(), "");
    assert_eq!(info.status(), Status::New);
    assert!(info.user_id().is_same("user_id"));
    assert_eq!(info.raw_trend().link(), "link");
    let copy = info.clone();
    assert_eq!(copy.memo(), "");
    assert_eq!(copy.raw_trend().from(), "x");
}

#[test]
fn builder_takes_the_last_memo_and_status() {
    let raw_trend = RawTrendInfo::new(
        "title",
        "link",
        "desc",
        Service::x(),
        Date::parse_from_str("2021-01-01", "%Y-%m-%d").unwrap(),
    );
    let info = SaveNewTrendInfoBuilder::new(UserId::new("user_id"), raw_trend)
        .memo("first")
        .status(Status::Reading)
        .memo("second")
        .status(Status::Done)
        .build();
    assert_eq!(info.memo(), "second");
    assert_eq!(info.status(), Status::Done);
}
