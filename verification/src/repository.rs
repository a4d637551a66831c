//! Persisted records of a user's trends, and the way from a record back to
//! the trend.
//!
//! A record holds text only. Status and dates are stored by their canonical
//! names, so a record that the store accepted may still fail to become a
//! trend again: its status may name no status, its date may not be a date,
//! its memo may be longer than a trend takes.

use crate::date::{parsed_date, Date, DateError, DateView};
use crate::domain::{
    byte_len, memo_refusal, Memo, Status, UserTrendInfo, UserTrendInfoId, UserTrendView,
};
use crate::raw::{RawTrendInfo, RawTrendView, Service};
use crate::use_case::{SaveNewTrendInfo, SaveNewTrendView};
use vstd::prelude::*;

pub mod fake;

verus! {

/// What an [`InitTrendInfoEntity`] stands for in specifications.
pub struct InitTrendInfoEntityView {
    pub user_id: Seq<char>,
    pub link: Seq<char>,
    pub title: Seq<char>,
    pub desc: Seq<char>,
    pub memo: Seq<char>,
    pub from: Seq<char>,
    pub status: Seq<char>,
    pub created_at: Seq<char>,
}

/// A record as it is handed to the store: it has no id yet, and the store
/// has not stamped it.
#[derive(Debug)]
pub struct InitTrendInfoEntity {
    pub user_id: String,
    pub link: String,
    pub title: String,
    pub desc: String,
    pub memo: String,
    pub from: String,
    pub status: String,
    pub created_at: String,
}

impl View for InitTrendInfoEntity {
    type V = InitTrendInfoEntityView;

    open spec fn view(&self) -> InitTrendInfoEntityView {
        InitTrendInfoEntityView {
            user_id: self.user_id@,
            link: self.link@,
            title: self.title@,
            desc: self.desc@,
            memo: self.memo@,
            from: self.from@,
            status: self.status@,
            created_at: self.created_at@,
        }
    }
}

impl Clone for InitTrendInfoEntity {
    fn clone(&self) -> (copy: Self)
        ensures
            copy == *self,
    {
        Self {
            user_id: self.user_id.clone(),
            link: self.link.clone(),
            title: self.title.clone(),
            desc: self.desc.clone(),
            memo: self.memo.clone(),
            from: self.from.clone(),
            status: self.status.clone(),
            created_at: self.created_at.clone(),
        }
    }
}

impl SaveNewTrendView {
    /// The record of the request: its texts as they stand, the status by
    /// its name, the date of the raw trend in the canonical encoding.
    pub open spec fn record(self) -> InitTrendInfoEntityView {
        InitTrendInfoEntityView {
            user_id: self.user_id,
            link: self.raw_trend.link,
            title: self.raw_trend.title,
            desc: self.raw_trend.desc,
            memo: self.memo,
            from: self.raw_trend.from,
            status: self.status.name(),
            created_at: self.raw_trend.created_at.canonical_text(),
        }
    }
}

impl InitTrendInfoEntity {
    pub fn new(user_trend: SaveNewTrendInfo) -> (entity: Self)
        ensures
            entity@ == user_trend@.record(),
    {
        let raw_trend = user_trend.raw_trend();
        Self {
            user_id: user_trend.user_id().to_string(),
            link: raw_trend.link().to_owned(),
            title: raw_trend.title().to_owned(),
            desc: raw_trend.desc().to_owned(),
            memo: user_trend.memo().to_owned(),
            from: raw_trend.from().to_owned(),
            status: user_trend.status().to_str().to_owned(),
            created_at: raw_trend.created_at().to_string(),
        }
    }
}

/// What a [`TrendInfoEntity`] stands for in specifications.
pub struct TrendInfoEntityView {
    pub id: Seq<char>,
    pub user_id: Seq<char>,
    pub link: Seq<char>,
    pub title: Seq<char>,
    pub desc: Seq<char>,
    pub memo: Seq<char>,
    pub from: Seq<char>,
    pub status: Seq<char>,
    pub created_at: Seq<char>,
    pub updated_at: Seq<char>,
}

/// A record as the store holds it.
#[derive(Debug)]
pub struct TrendInfoEntity {
    pub id: String,
    pub user_id: String,
    pub link: String,
    pub title: String,
    pub desc: String,
    pub memo: String,
    pub from: String,
    pub status: String,
    pub created_at: String,
    pub updated_at: String,
}

impl View for TrendInfoEntity {
    type V = TrendInfoEntityView;

    open spec fn view(&self) -> TrendInfoEntityView {
        TrendInfoEntityView {
            id: self.id@,
            user_id: self.user_id@,
            link: self.link@,
            title: self.title@,
            desc: self.desc@,
            memo: self.memo@,
            from: self.from@,
            status: self.status@,
            created_at: self.created_at@,
            updated_at: self.updated_at@,
        }
    }
}

impl DeepView for TrendInfoEntity {
    type V = TrendInfoEntityView;

    open spec fn deep_view(&self) -> TrendInfoEntityView {
        self@
    }
}

impl Clone for TrendInfoEntity {
    fn clone(&self) -> (copy: Self)
        ensures
            copy == *self,
    {
        Self {
            id: self.id.clone(),
            user_id: self.user_id.clone(),
            link: self.link.clone(),
            title: self.title.clone(),
            desc: self.desc.clone(),
            memo: self.memo.clone(),
            from: self.from.clone(),
            status: self.status.clone(),
            created_at: self.created_at.clone(),
            updated_at: self.updated_at.clone(),
        }
    }
}

/// Why a record does not become a trend.
#[derive(Debug)]
pub enum TrendInfoEntityError {
    /// Holds the status of the record, which names no status.
    InvalidStatus(String),
    /// Holds the creation date of the record, which is no date.
    InvalidDate(String),
    /// Holds the words of a status change that was refused.
    InvalidStatusChange(String),
    /// Holds the words with which a trend refused the memo of the record.
    InvalidMemo(String),
}

/// What a [`TrendInfoEntityError`] stands for in specifications.
pub enum TrendInfoEntityErrorView {
    InvalidStatus(Seq<char>),
    InvalidDate(Seq<char>),
    InvalidStatusChange(Seq<char>),
    InvalidMemo(Seq<char>),
}

impl View for TrendInfoEntityError {
    type V = TrendInfoEntityErrorView;

    open spec fn view(&self) -> TrendInfoEntityErrorView {
        match self {
            TrendInfoEntityError::InvalidStatus(text) => TrendInfoEntityErrorView::InvalidStatus(
                text@,
            ),
            TrendInfoEntityError::InvalidDate(text) => TrendInfoEntityErrorView::InvalidDate(text@),
            TrendInfoEntityError::InvalidStatusChange(text) =>
                TrendInfoEntityErrorView::InvalidStatusChange(text@),
            TrendInfoEntityError::InvalidMemo(text) => TrendInfoEntityErrorView::InvalidMemo(text@),
        }
    }
}

impl TrendInfoEntityErrorView {
    /// The error as a line of text.
    pub open spec fn message(self) -> Seq<char> {
        match self {
            TrendInfoEntityErrorView::InvalidStatus(text) => "InvalidStatus: "@ + text,
            TrendInfoEntityErrorView::InvalidDate(text) => "InvalidDate: "@ + text,
            TrendInfoEntityErrorView::InvalidStatusChange(text) => "InvalidStatusChange: "@ + text,
            TrendInfoEntityErrorView::InvalidMemo(text) => "InvalidMemo: "@ + text,
        }
    }
}

impl TrendInfoEntityError {
    pub fn to_string(&self) -> (text: String)
        ensures
            text@ == self@.message(),
    {
        match self {
            TrendInfoEntityError::InvalidStatus(s) => {
                let mut text = "InvalidStatus: ".to_owned();
                text.append(s.as_str());
                text
            },
            TrendInfoEntityError::InvalidDate(s) => {
                let mut text = "InvalidDate: ".to_owned();
                text.append(s.as_str());
                text
            },
            TrendInfoEntityError::InvalidStatusChange(s) => {
                let mut text = "InvalidStatusChange: ".to_owned();
                text.append(s.as_str());
                text
            },
            TrendInfoEntityError::InvalidMemo(s) => {
                let mut text = "InvalidMemo: ".to_owned();
                text.append(s.as_str());
                text
            },
        }
    }
}

impl TrendInfoEntityView {
    /// The memo of the record fits a [`Memo`].
    pub open spec fn memo_fits(self) -> bool {
        byte_len(self.memo) <= Memo::MAX_LEN
    }

    /// The raw trend of the record, once its creation date has been read as
    /// `created_at`.
    pub open spec fn raw_trend(self, created_at: DateView) -> RawTrendView {
        RawTrendView {
            title: self.title,
            link: self.link,
            desc: self.desc,
            from: self.from,
            created_at,
        }
    }

    /// The trend that the record becomes where reading its creation date
    /// has given `created_at`. A date that could not be read fails the
    /// record. Where the date is good, a memo that is too long for a trend
    /// fails it; where the memo fits as well, a status that names no status
    /// fails it.
    pub open spec fn to_trend_dated(self, created_at: Option<DateView>) -> Result<
        UserTrendView,
        TrendInfoEntityErrorView,
    > {
        match created_at {
            None => Err(TrendInfoEntityErrorView::InvalidDate(self.created_at)),
            Some(date) => if !self.memo_fits() {
                Err(TrendInfoEntityErrorView::InvalidMemo(memo_refusal(self.memo)))
            } else {
                match Status::named(self.status) {
                    None => Err(TrendInfoEntityErrorView::InvalidStatus(self.status)),
                    Some(status) => Ok(
                        UserTrendView {
                            id: self.id,
                            raw_info: self.raw_trend(date),
                            memo: self.memo,
                            status,
                        },
                    ),
                }
            },
        }
    }

    /// The trend that the record becomes. The creation date is read in the
    /// canonical encoding.
    pub open spec fn to_trend(self) -> Result<UserTrendView, TrendInfoEntityErrorView> {
        self.to_trend_dated(parsed_date(self.created_at, Date::DEFAULT_FORMAT@))
    }
}

/// `r` is the outcome `expected` of turning a record into a trend.
pub open spec fn is_outcome(
    r: Result<UserTrendInfo, TrendInfoEntityError>,
    expected: Result<UserTrendView, TrendInfoEntityErrorView>,
) -> bool {
    match expected {
        Ok(trend) => r matches Ok(info) && info@ == trend,
        Err(error) => r matches Err(e) && e@ == error,
    }
}

impl TrendInfoEntity {
    /// Makes the trend of the record from the outcome of reading its
    /// creation date.
    pub fn into_trend_dated(self, created_at: Result<Date, DateError>) -> (r: Result<
        UserTrendInfo,
        TrendInfoEntityError,
    >)
        ensures
            is_outcome(
                r,
                self@.to_trend_dated(
                    match created_at {
                        Ok(date) => Some(date@),
                        Err(_) => None,
                    },
                ),
            ),
    {
        let date = match created_at {
            Ok(date) => date,
            Err(_) => {
                return Err(TrendInfoEntityError::InvalidDate(self.created_at));
            },
        };
        let id = UserTrendInfoId(self.id);
        let raw_info = RawTrendInfo::new(
            self.title.as_str(),
            self.link.as_str(),
            self.desc.as_str(),
            Service::from(self.from),
            date,
        );
        let mut result = UserTrendInfo::new(id, raw_info);
        match result.change_memo(self.memo) {
            Ok(()) => {},
            Err(e) => {
                return Err(TrendInfoEntityError::InvalidMemo(e.to_string()));
            },
        }
        let new_status = match Status::from_str(self.status.as_str()) {
            Ok(status) => status,
            Err(_) => {
                return Err(TrendInfoEntityError::InvalidStatus(self.status));
            },
        };
        match result.change_status(new_status) {
            Ok(()) => Ok(result),
            Err(e) => Err(TrendInfoEntityError::InvalidStatusChange(e.to_string())),
        }
    }

    /// Turns the record back into the trend that it stands for.
    pub fn try_into(self) -> (r: Result<UserTrendInfo, TrendInfoEntityError>)
        ensures
            is_outcome(r, self@.to_trend()),
    {
        let created_at = Date::from_str(self.created_at.as_str());
        self.into_trend_dated(created_at)
    }
}

} // verus!
