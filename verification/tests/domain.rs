use trend::date::Date;
use trend::domain::{
    Memo, MemoError, Status, StatusError, UserTrendInfo, UserTrendInfoError, UserTrendInfoId,
};
use trend::raw::{RawTrendInfo, Service};

fn fresh_info() -> UserTrendInfo {
    let id = UserTrendInfoId("id".to_string());
    let raw_info = RawTrendInfo::new("title", "link", "desc", Service::aws_updates(), Date::now());
    UserTrendInfo::new(id, raw_info)
}

const ALL: [Status; 4] = [Status::New, Status::Reading, Status::ToDo, Status::Done];

#[test]
fn user_trend_info_can_change_memo() {
    let id = UserTrendInfoId("id".to_string());
    let raw_info = RawTrendInfo::new("title", "link", "desc", Service::aws_updates(), Date::now());
    let mut info = UserTrendInfo::new(id, raw_info);
    let new_memo = "new memo";

    info.change_memo(new_memo.to_string()).unwrap();

    assert_eq!(info.memo(), new_memo);
}

#[test]
fn user_trend_info_can_not_change_big_memo() {
    let id = UserTrendInfoId("id".to_string());
    let raw_info = RawTrendInfo::new("title", "link", "desc", Service::aws_updates(), Date::now());
    let mut info = UserTrendInfo::new(id, raw_info);
    let new_big_memo = "a".repeat(10000);

    let result = info.change_memo(new_big_memo);

    assert!(result.is_err());
}

#[test]
fn user_trend_info_can_change_status() {
    let id = UserTrendInfoId("id".to_string());
    let raw_info = RawTrendInfo::new("title", "link", "desc", Service::aws_updates(), Date::now());
    let mut info = UserTrendInfo::new(id, raw_info);
    let new_status = Status::Reading;

    info.change_status(new_status).unwrap();

    assert_eq!(info.status(), new_status);
}

#[test]
fn new_trend_is_new_and_has_no_memo() {
    let info = fresh_info();
    assert_eq!(info.status(), Status::New);
    assert_eq!(info.memo(), "");
    assert_eq!(info.id(), &UserTrendInfoId("id".to_string()));
    assert_eq!(info.title(), "title");
    assert_eq!(info.link(), "link");
    assert_eq!(info.from(), "aws_updates");
    assert_eq!(info.raw_info().desc(), "desc");
    assert_eq!(info.created_at(), info.raw_info().created_at());
}

#[test]
fn change_status_to_the_same_status_is_allowed() {
    for s in ALL {
        assert_eq!(s.change_status(s).unwrap(), s);
    }
    let mut info = fresh_info();
    info.change_status(Status::Done).unwrap();
    info.change_status(Status::Done).unwrap();
    assert_eq!(info.status(), Status::Done);
}

#[test]
fn change_status_back_to_new_is_refused() {
    for s in [Status::Reading, Status::ToDo, Status::Done] {
        match s.change_status(Status::New) {
            Err(StatusError::InvalidStatusChange(from, to)) => {
                assert_eq!(from, s);
                assert_eq!(to, Status::New);
            }
            _ => panic!("the change to New was not refused"),
        }
    }
}

#[test]
fn change_status_from_new_is_allowed() {
    for s in ALL {
        assert_eq!(Status::New.change_status(s).unwrap(), s);
    }
}

#[test]
fn change_status_between_the_others_is_allowed() {
    for from in [Status::Reading, Status::ToDo, Status::Done] {
        for to in [Status::Reading, Status::ToDo, Status::Done] {
            assert_eq!(from.change_status(to).unwrap(), to);
        }
    }
}

#[test]
fn refused_status_change_leaves_the_trend() {
    let mut info = fresh_info();
    info.change_memo("kept".to_string()).unwrap();
    info.change_status(Status::ToDo).unwrap();
    match info.change_status(Status::New) {
        Err(UserTrendInfoError::InvalidStatus(StatusError::InvalidStatusChange(from, to))) => {
            assert_eq!(from, Status::ToDo);
            assert_eq!(to, Status::New);
        }
        _ => panic!("the change to New was not refused"),
    }
    assert_eq!(info.status(), Status::ToDo);
    assert_eq!(info.memo(), "kept");
}

#[test]
fn status_names() {
    assert_eq!(Status::New.to_str(), "New");
    assert_eq!(Status::Reading.to_str(), "Reading");
    assert_eq!(Status::ToDo.to_str(), "ToDo");
    assert_eq!(Status::Done.to_str(), "Done");
}

#[test]
fn status_from_its_name() {
    for s in ALL {
        assert_eq!(Status::from_str(s.to_str()).unwrap(), s);
    }
}

#[test]
fn status_from_another_text_is_refused() {
    for text in ["", "new", "NEW", "Archive", "Done ", " Done", "ToDoDone"] {
        match Status::from_str(text) {
            Err(StatusError::InvalidStatus(held)) => assert_eq!(held, text),
            _ => panic!("a status came out of {text:?}"),
        }
    }
}

#[test]
fn memo_of_500_bytes_is_taken() {
    let mut info = fresh_info();
    let memo = "a".repeat(500);
    info.change_memo(memo.clone()).unwrap();
    assert_eq!(info.memo(), memo);
    info.change_memo(String::new()).unwrap();
    assert_eq!(info.memo(), "");
}

#[test]
fn memo_of_501_bytes_is_refused_and_the_old_one_stays() {
    let mut info = fresh_info();
    info.change_memo("old".to_string()).unwrap();
    match info.change_memo("a".repeat(501)) {
        Err(UserTrendInfoError::InvalidMemo(MemoError::TooLong(len))) => assert_eq!(len, 501),
        _ => panic!("a memo of 501 bytes was taken"),
    }
    assert_eq!(info.memo(), "old");
    assert_eq!(info.status(), Status::New);
}

#[test]
fn memo_is_measured_in_bytes() {
    let mut info = fresh_info();
    // 250 characters of two bytes each: 500 bytes.
    let fits = "é".repeat(250);
    info.change_memo(fits.clone()).unwrap();
    assert_eq!(info.memo(), fits);
    // 251 characters, 502 bytes.
    match info.change_memo("é".repeat(251)) {
        Err(UserTrendInfoError::InvalidMemo(MemoError::TooLong(len))) => assert_eq!(len, 502),
        _ => panic!("a memo of 502 bytes was taken"),
    }
    assert_eq!(info.memo(), fits);
}

#[test]
fn memo_is_stored_as_it_stands() {
    let mut info = fresh_info();
    info.change_memo("  two  spaces\n".to_string()).unwrap();
    assert_eq!(info.memo(), "  two  spaces\n");
}

#[test]
fn memo_alone() {
    let mut memo = Memo::new();
    assert_eq!(memo.as_str(), "");
    memo.change_memo("x".repeat(500)).unwrap();
    assert_eq!(memo.as_str().len(), 500);
    assert!(matches!(memo.change_memo("x".repeat(600)), Err(MemoError::TooLong(600))));
    assert_eq!(memo.as_str().len(), 500);
    assert_eq!(Memo::MAX_LEN, 500);
}

#[test]
fn error_messages() {
    assert_eq!(MemoError::TooLong(10000).to_string(), "too long: 10000");
    assert_eq!(
        StatusError::InvalidStatusChange(Status::Done, Status::New).to_string(),
        "InvalidStatusChange: Done -> New"
    );
    assert_eq!(StatusError::InvalidStatus("Archive".to_string()).to_string(), "InvalidStatus: Archive");
    assert_eq!(
        UserTrendInfoError::InvalidMemo(MemoError::TooLong(501)).to_string(),
        "InvalidMemo: too long: 501"
    );
    assert_eq!(
        UserTrendInfoError::InvalidStatus(StatusError::InvalidStatusChange(
            Status::Reading,
            Status::New
        ))
        .to_string(),
        "InvalidStatus: InvalidStatusChange: Reading -> New"
    );
}

#[test]
fn clone_of_a_trend_is_the_trend() {
    let mut info = fresh_info();
    info.change_memo("memo".to_string()).unwrap();
    info.change_status(Status::Reading).unwrap();
    let copy = info.clone();
    assert_eq!(copy.id(), info.id());
    assert_eq!(copy.memo(), "memo");
    assert_eq!(copy.status(), Status::Reading);
    assert_eq!(copy.link(), "link");
}
